use vstd::prelude::*;
use vstd::string::*;

verus! {

/// Whether `char::is_whitespace` holds of a character (the Unicode
/// `White_Space` property).
pub uninterp spec fn whitespace_char(c: char) -> bool;

/// Relies on `char::is_whitespace`: the answer depends on the character alone.
#[verifier::external_body]
fn is_whitespace(c: char) -> (r: bool)
    ensures
        r == whitespace_char(c),
{
    c.is_whitespace()
}

/// A text is blank when trimming whitespace leaves nothing.
pub open spec fn blank(s: Seq<char>) -> bool {
    forall|i: int| 0 <= i < s.len() ==> #[trigger] whitespace_char(s[i])
}

/// Whether `s` is empty or made of whitespace only.
pub fn is_blank(s: &str) -> (r: bool)
    ensures
        r == blank(s@),
{
    let n = s.unicode_len();
    let mut i: usize = 0;
    while i < n
        invariant
            n == s@.len(),
            i <= n,
            forall|j: int| 0 <= j < i ==> #[trigger] whitespace_char(s@[j]),
        decreases n - i,
    {
        if !is_whitespace(s.get_char(i)) {
            return false;
        }
        i = i + 1;
    }
    true
}

/// `base` with the relative segment `seg` appended, separated by one `/`
/// unless `base` is empty or already ends in one.
pub open spec fn joined(base: Seq<char>, seg: Seq<char>) -> Seq<char> {
    if base.len() == 0 {
        seg
    } else if base.last() == '/' {
        base + seg
    } else {
        base + seq!['/'] + seg
    }
}

/// Appends a relative path segment to a path, as `Path::join` does for one.
pub fn join_path(base: &str, seg: &str) -> (r: String)
    requires
        seg@.len() > 0,
        seg@[0] != '/',
    ensures
        r@ == joined(base@, seg@),
{
    let n = base.unicode_len();
    let mut r = String::from_str(base);
    if n > 0 && base.get_char(n - 1) != '/' {
        r.append("/");
    }
    r.append(seg);
    proof {
        reveal_strlit("/");
        if n > 0 && base@.last() != '/' {
            assert(r@ =~= base@ + seq!['/'] + seg@);
        }
    }
    r
}

/// What `Path::parent` gives for a path, if anything.
pub uninterp spec fn parent_of(p: Seq<char>) -> Option<Seq<char>>;

/// What `Path::file_name` gives for a path, if anything.
pub uninterp spec fn file_name_of(p: Seq<char>) -> Option<Seq<char>>;

/// The view of an optional string.
pub open spec fn opt_view(o: Option<String>) -> Option<Seq<char>> {
    match o {
        Some(s) => Some(s@),
        None => None,
    }
}

/// Relies on `std::path::Path::parent`: the directory part of the path,
/// `None` for an empty path.
#[verifier::external_body]
pub(crate) fn path_parent(p: &str) -> (r: Option<String>)
    ensures
        opt_view(r) == parent_of(p@),
        p@.len() == 0 ==> r is None,
{
    std::path::Path::new(p).parent().map(|q| q.to_string_lossy().into_owned())
}

/// Relies on `std::path::Path::file_name`: the last component of the path,
/// `None` where it ends in `..` or has no component.
#[verifier::external_body]
pub(crate) fn path_file_name(p: &str) -> (r: Option<String>)
    ensures
        opt_view(r) == file_name_of(p@),
{
    std::path::Path::new(p).file_name().map(|q| q.to_string_lossy().into_owned())
}

/// Relies on `std::path::Path::is_file`: what is on disk decides, so nothing
/// is promised of the answer.
#[verifier::external_body]
pub(crate) fn is_existing_file(p: &str) -> (r: bool) {
    std::path::Path::new(p).is_file()
}

/// Relies on `std::path::Path::is_dir`: what is on disk decides, so nothing
/// is promised of the answer.
#[verifier::external_body]
pub(crate) fn is_existing_dir(p: &str) -> (r: bool) {
    std::path::Path::new(p).is_dir()
}

} // verus!

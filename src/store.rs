use vstd::prelude::*;
use crate::paths::{join_path, joined};

verus! {

/// Name of the application's directory under the user's data directory.
pub const APP_ID: &'static str = "quarkpad";

/// Name of the library document inside the application's directory.
pub const DATA_FILE: &'static str = "data.toml";

/// Where the library lives: the application's directory and the document
/// in it.
pub struct DataLocation {
    pub dir: String,
    pub file: String,
}

/// The application's directory under the data directory `base`.
pub open spec fn app_dir(base: Seq<char>) -> Seq<char> {
    joined(base, APP_ID@)
}

/// The library document under the data directory `base`.
pub open spec fn data_file(base: Seq<char>) -> Seq<char> {
    joined(app_dir(base), DATA_FILE@)
}

/// Relies on `dirs::data_local_dir`: the per-user local data directory, which
/// the platform and the environment decide, so nothing is promised of it.
#[verifier::external_body]
fn data_local_dir() -> (r: Option<String>) {
    dirs::data_local_dir().map(|p| p.to_string_lossy().into_owned())
}

/// Where the library lives under the data directory `base`.
pub fn location_in(base: &str) -> (r: DataLocation)
    ensures
        r.dir@ == app_dir(base@),
        r.file@ == data_file(base@),
{
    proof {
        reveal_strlit("quarkpad");
        reveal_strlit("data.toml");
    }
    let dir = join_path(base, APP_ID);
    let file = join_path(dir.as_str(), DATA_FILE);
    DataLocation { dir, file }
}

/// Where the library lives for this user; `None` where the platform gives
/// no data directory, in which case nothing is read or written.
pub fn data_location() -> (r: Option<DataLocation>)
    ensures
        r matches Some(loc) ==> exists|base: Seq<char>|
            loc.dir@ == #[trigger] app_dir(base) && loc.file@ == data_file(base),
{
    match data_local_dir() {
        Some(base) => {
            let loc = location_in(base.as_str());
            assert(loc.dir@ == app_dir(base@) && loc.file@ == data_file(base@));
            Some(loc)
        },
        None => None,
    }
}

} // verus!

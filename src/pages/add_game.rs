use vstd::prelude::*;
use crate::models::{Game, GameView};
use crate::paths::{is_existing_dir, is_existing_file, opt_view};
use crate::validation::{
    dir_error, file_error, name_error, name_required, path_required, validate_dir_path, validate_file_path, validate_game_name,
};

verus! {

/// Input events of the add/edit form.
pub enum Message {
    Save,
    GameNameChanged(String),
    CoverPathChanged(String),
    /// The file picker for the cover was used; carries the chosen path, if any.
    CoverPathDialogOpen(Option<String>),
    ExePathChanged(String),
    /// The file picker for the executable was used; carries the chosen path, if any.
    ExePathDialogOpen(Option<String>),
    WineprefixChanged(String),
    /// The folder picker for the wineprefix was used; carries the chosen path, if any.
    WineprefixDialogOpen(Option<String>),
}

/// What the form asks the controller to do.
pub enum Action {
    /// Append a new game to the library.
    New(Game),
    /// Overwrite the game at the index.
    Edit(usize, Game),
    Nothing,
}

/// The view of an `Action`.
pub enum ActionView {
    New(GameView),
    Edit(usize, GameView),
    Nothing,
}

impl View for Action {
    type V = ActionView;

    open spec fn view(&self) -> ActionView {
        match self {
            Action::New(g) => ActionView::New(g@),
            Action::Edit(i, g) => ActionView::Edit(*i, g@),
            Action::Nothing => ActionView::Nothing,
        }
    }
}

/// The editable fields of the form, the session's target and the last
/// validation results.
pub struct State {
    pub game_name: String,
    pub cover_path: String,
    pub exe_path: String,
    pub wineprefix: String,
    /// `Some(i)` when the session overwrites the game at `i`.
    pub edit_index: Option<usize>,
    /// False until the first save attempt.
    pub show_errors: bool,
    pub game_name_error: Option<String>,
    pub cover_path_error: Option<String>,
    pub exe_path_error: Option<String>,
    pub wineprefix_error: Option<String>,
}

/// What a form `State` holds.
pub struct FormView {
    pub game_name: Seq<char>,
    pub cover_path: Seq<char>,
    pub exe_path: Seq<char>,
    pub wineprefix: Seq<char>,
    pub edit_index: Option<usize>,
    pub show_errors: bool,
    pub game_name_error: Option<Seq<char>>,
    pub cover_path_error: Option<Seq<char>>,
    pub exe_path_error: Option<Seq<char>>,
    pub wineprefix_error: Option<Seq<char>>,
}

impl View for State {
    type V = FormView;

    open spec fn view(&self) -> FormView {
        FormView {
            game_name: self.game_name@,
            cover_path: self.cover_path@,
            exe_path: self.exe_path@,
            wineprefix: self.wineprefix@,
            edit_index: self.edit_index,
            show_errors: self.show_errors,
            game_name_error: opt_view(self.game_name_error),
            cover_path_error: opt_view(self.cover_path_error),
            exe_path_error: opt_view(self.exe_path_error),
            wineprefix_error: opt_view(self.wineprefix_error),
        }
    }
}

/// A form with every field empty, no errors, and the given target.
pub open spec fn blank_form(edit_index: Option<usize>) -> FormView {
    FormView {
        game_name: Seq::empty(),
        cover_path: Seq::empty(),
        exe_path: Seq::empty(),
        wineprefix: Seq::empty(),
        edit_index,
        show_errors: false,
        game_name_error: None,
        cover_path_error: None,
        exe_path_error: None,
        wineprefix_error: None,
    }
}

/// The form after validation, given what the file system says of the cover,
/// the executable and the wineprefix.
pub open spec fn validated(v: FormView, cover_is_file: bool, exe_is_file: bool, prefix_is_dir: bool) -> FormView {
    FormView {
        game_name_error: name_error(v.game_name),
        cover_path_error: file_error(v.cover_path, cover_is_file),
        exe_path_error: file_error(v.exe_path, exe_is_file),
        wineprefix_error: dir_error(v.wineprefix, prefix_is_dir),
        ..v
    }
}

/// Whether a form holds no validation error.
pub open spec fn error_free(v: FormView) -> bool {
    v.game_name_error is None && v.cover_path_error is None && v.exe_path_error is None
        && v.wineprefix_error is None
}

/// The game that the form's fields describe.
pub open spec fn form_game(v: FormView) -> GameView {
    GameView {
        name: v.game_name,
        cover_path: v.cover_path,
        exe_path: v.exe_path,
        wine_prefix: v.wineprefix,
    }
}

/// The form and the action after `Save`.
pub open spec fn saved(v: FormView, cover_is_file: bool, exe_is_file: bool, prefix_is_dir: bool) -> (FormView, ActionView) {
    let w = validated(FormView { show_errors: true, ..v }, cover_is_file, exe_is_file, prefix_is_dir);
    if !error_free(w) {
        (w, ActionView::Nothing)
    } else {
        match v.edit_index {
            Some(i) => (w, ActionView::Edit(i, form_game(v))),
            None => (w, ActionView::New(form_game(v))),
        }
    }
}

/// The form and the action after handling `m`, given what the file system
/// says of the three paths (consulted on `Save` only).
pub open spec fn step(v: FormView, m: Message, cover_is_file: bool, exe_is_file: bool, prefix_is_dir: bool) -> (FormView, ActionView) {
    match m {
        Message::Save => saved(v, cover_is_file, exe_is_file, prefix_is_dir),
        Message::GameNameChanged(s) => (FormView { game_name: s@, ..v }, ActionView::Nothing),
        Message::CoverPathChanged(s) => (FormView { cover_path: s@, ..v }, ActionView::Nothing),
        Message::ExePathChanged(s) => (FormView { exe_path: s@, ..v }, ActionView::Nothing),
        Message::WineprefixChanged(s) => (FormView { wineprefix: s@, ..v }, ActionView::Nothing),
        Message::CoverPathDialogOpen(p) => match p {
            Some(s) => (FormView { cover_path: s@, ..v }, ActionView::Nothing),
            None => (v, ActionView::Nothing),
        },
        Message::ExePathDialogOpen(p) => match p {
            Some(s) => (FormView { exe_path: s@, ..v }, ActionView::Nothing),
            None => (v, ActionView::Nothing),
        },
        Message::WineprefixDialogOpen(p) => match p {
            Some(s) => (FormView { wineprefix: s@, ..v }, ActionView::Nothing),
            None => (v, ActionView::Nothing),
        },
    }
}

/// Saving a form whose four fields are empty fails whatever the file system
/// holds: each field reports that it is required, and no action comes out.
pub proof fn lemma_empty_form_save_fails(v: FormView, cover_is_file: bool, exe_is_file: bool, prefix_is_dir: bool)
    requires
        v.game_name.len() == 0,
        v.cover_path.len() == 0,
        v.exe_path.len() == 0,
        v.wineprefix.len() == 0,
    ensures
        ({
            let (w, a) = saved(v, cover_is_file, exe_is_file, prefix_is_dir);
            &&& a == ActionView::Nothing
            &&& w.show_errors
            &&& w.game_name_error == Some(name_required())
            &&& w.cover_path_error == Some(path_required())
            &&& w.exe_path_error == Some(path_required())
            &&& w.wineprefix_error == Some(path_required())
        }),
{
}

impl Default for State {
    /// A session that creates a new game.
    fn default() -> (r: State)
        ensures
            r@ == blank_form(None),
    {
        State {
            game_name: String::new(),
            cover_path: String::new(),
            exe_path: String::new(),
            wineprefix: String::new(),
            edit_index: None,
            show_errors: false,
            game_name_error: None,
            cover_path_error: None,
            exe_path_error: None,
            wineprefix_error: None,
        }
    }
}

impl State {
    /// A session that overwrites `game`, found at `index`.
    pub fn load(game: &Game, index: usize) -> (r: State)
        ensures
            r@ == (FormView {
                game_name: game.name@,
                cover_path: game.cover_path@,
                exe_path: game.exe_path@,
                wineprefix: game.wine_prefix@,
                ..blank_form(Some(index))
            }),
    {
        State {
            game_name: game.name.clone(),
            cover_path: game.cover_path.clone(),
            exe_path: game.exe_path.clone(),
            wineprefix: game.wine_prefix.clone(),
            edit_index: Some(index),
            show_errors: false,
            game_name_error: None,
            cover_path_error: None,
            exe_path_error: None,
            wineprefix_error: None,
        }
    }

    /// Records the four validation results; true when all of them pass.
    pub fn validate_with(&mut self, cover_is_file: bool, exe_is_file: bool, prefix_is_dir: bool) -> (r: bool)
        ensures
            final(self)@ == validated(old(self)@, cover_is_file, exe_is_file, prefix_is_dir),
            r == error_free(final(self)@),
    {
        self.game_name_error = validate_game_name(self.game_name.as_str());
        self.cover_path_error = validate_file_path(self.cover_path.as_str(), cover_is_file);
        self.exe_path_error = validate_file_path(self.exe_path.as_str(), exe_is_file);
        self.wineprefix_error = validate_dir_path(self.wineprefix.as_str(), prefix_is_dir);
        self.game_name_error.is_none() && self.cover_path_error.is_none()
            && self.exe_path_error.is_none() && self.wineprefix_error.is_none()
    }

    /// Validates the fields against the file system as it is now.
    pub fn validate(&mut self) -> (r: bool)
        ensures
            exists|c: bool, e: bool, w: bool|
                final(self)@ == #[trigger] validated(old(self)@, c, e, w),
            r == error_free(final(self)@),
    {
        let c = is_existing_file(self.cover_path.as_str());
        let e = is_existing_file(self.exe_path.as_str());
        let w = is_existing_dir(self.wineprefix.as_str());
        self.validate_with(c, e, w)
    }

    /// Handles a message, given what the file system says of the cover, the
    /// executable and the wineprefix.
    pub fn update_with(&mut self, message: Message, cover_is_file: bool, exe_is_file: bool, prefix_is_dir: bool) -> (r: Action)
        ensures
            (final(self)@, r@) == step(old(self)@, message, cover_is_file, exe_is_file, prefix_is_dir),
    {
        match message {
            Message::Save => {
                self.show_errors = true;
                if !self.validate_with(cover_is_file, exe_is_file, prefix_is_dir) {
                    return Action::Nothing;
                }
                let game = Game {
                    name: self.game_name.clone(),
                    cover_path: self.cover_path.clone(),
                    exe_path: self.exe_path.clone(),
                    wine_prefix: self.wineprefix.clone(),
                };
                match self.edit_index {
                    Some(index) => Action::Edit(index, game),
                    None => Action::New(game),
                }
            },
            Message::GameNameChanged(v) => {
                self.game_name = v;
                Action::Nothing
            },
            Message::CoverPathChanged(v) => {
                self.cover_path = v;
                Action::Nothing
            },
            Message::ExePathChanged(v) => {
                self.exe_path = v;
                Action::Nothing
            },
            Message::WineprefixChanged(v) => {
                self.wineprefix = v;
                Action::Nothing
            },
            Message::CoverPathDialogOpen(picked) => {
                if let Some(v) = picked {
                    self.cover_path = v;
                }
                Action::Nothing
            },
            Message::ExePathDialogOpen(picked) => {
                if let Some(v) = picked {
                    self.exe_path = v;
                }
                Action::Nothing
            },
            Message::WineprefixDialogOpen(picked) => {
                if let Some(v) = picked {
                    self.wineprefix = v;
                }
                Action::Nothing
            },
        }
    }

    /// Handles a message; on `Save` the file system is consulted for the
    /// three paths.
    pub fn update(&mut self, message: Message) -> (r: Action)
        ensures
            exists|c: bool, e: bool, w: bool|
                (final(self)@, r@) == #[trigger] step(old(self)@, message, c, e, w),
    {
        let (c, e, w) = match &message {
            Message::Save => (
                is_existing_file(self.cover_path.as_str()),
                is_existing_file(self.exe_path.as_str()),
                is_existing_dir(self.wineprefix.as_str()),
            ),
            _ => (false, false, false),
        };
        self.update_with(message, c, e, w)
    }
}

} // verus!

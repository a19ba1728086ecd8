use vstd::prelude::*;
use crate::models::{Settings, SettingsView};
use crate::paths::{is_existing_dir, opt_view, whitespace_char};
use crate::validation::{dir_error, dir_missing, validate_dir_path};

verus! {

/// Input events of the settings form.
pub enum Message {
    Save,
    ProtonPathChanged(String),
    UmuPathChanged(String),
    /// The folder picker for the runtime was used; carries the chosen path, if any.
    ProtonPathDialogOpen(Option<String>),
    /// The folder picker for the launcher shim was used; carries the chosen path, if any.
    UmuPathDialogOpen(Option<String>),
}

/// What the settings form asks the controller to do.
pub enum Action {
    /// Replace the settings record.
    Save(Settings),
    Nothing,
}

/// The view of an `Action`.
pub enum ActionView {
    Save(SettingsView),
    Nothing,
}

impl View for Action {
    type V = ActionView;

    open spec fn view(&self) -> ActionView {
        match self {
            Action::Save(s) => ActionView::Save(s@),
            Action::Nothing => ActionView::Nothing,
        }
    }
}

/// The two editable paths and their last validation results.
pub struct State {
    pub proton_path: String,
    pub umu_path: String,
    /// False until the first save attempt.
    pub show_errors: bool,
    pub proton_path_error: Option<String>,
    pub umu_path_error: Option<String>,
}

/// What a settings `State` holds.
pub struct FormView {
    pub proton_path: Seq<char>,
    pub umu_path: Seq<char>,
    pub show_errors: bool,
    pub proton_path_error: Option<Seq<char>>,
    pub umu_path_error: Option<Seq<char>>,
}

impl View for State {
    type V = FormView;

    open spec fn view(&self) -> FormView {
        FormView {
            proton_path: self.proton_path@,
            umu_path: self.umu_path@,
            show_errors: self.show_errors,
            proton_path_error: opt_view(self.proton_path_error),
            umu_path_error: opt_view(self.umu_path_error),
        }
    }
}

/// The form after validation, given whether each path names an existing
/// directory.
pub open spec fn validated(v: FormView, proton_is_dir: bool, umu_is_dir: bool) -> FormView {
    FormView {
        proton_path_error: dir_error(v.proton_path, proton_is_dir),
        umu_path_error: dir_error(v.umu_path, umu_is_dir),
        ..v
    }
}

/// The form and the action after `Save`.
pub open spec fn saved(v: FormView, proton_is_dir: bool, umu_is_dir: bool) -> (FormView, ActionView) {
    let w = validated(FormView { show_errors: true, ..v }, proton_is_dir, umu_is_dir);
    if w.proton_path_error is None && w.umu_path_error is None {
        (w, ActionView::Save(SettingsView { proton_path: v.proton_path, umu_path: v.umu_path }))
    } else {
        (w, ActionView::Nothing)
    }
}

/// The form and the action after handling `m`, given what the file system
/// says of the two paths (consulted on `Save` only).
pub open spec fn step(v: FormView, m: Message, proton_is_dir: bool, umu_is_dir: bool) -> (FormView, ActionView) {
    match m {
        Message::Save => saved(v, proton_is_dir, umu_is_dir),
        Message::ProtonPathChanged(s) => (FormView { proton_path: s@, ..v }, ActionView::Nothing),
        Message::UmuPathChanged(s) => (FormView { umu_path: s@, ..v }, ActionView::Nothing),
        Message::ProtonPathDialogOpen(p) => match p {
            Some(s) => (FormView { proton_path: s@, ..v }, ActionView::Nothing),
            None => (v, ActionView::Nothing),
        },
        Message::UmuPathDialogOpen(p) => match p {
            Some(s) => (FormView { umu_path: s@, ..v }, ActionView::Nothing),
            None => (v, ActionView::Nothing),
        },
    }
}

/// A runtime path that is not an existing directory is reported as missing
/// on `Save`, and nothing is saved.
pub proof fn lemma_missing_runtime_dir_blocks_save(v: FormView, umu_is_dir: bool)
    requires
        exists|i: int| 0 <= i < v.proton_path.len() && !#[trigger] whitespace_char(v.proton_path[i]),
    ensures
        saved(v, false, umu_is_dir).0.proton_path_error == Some(dir_missing()),
        saved(v, false, umu_is_dir).1 == ActionView::Nothing,
{
}

impl State {
    /// The form seeded from the current settings, with no errors shown.
    pub fn load(settings: &Settings) -> (r: State)
        ensures
            r@ == (FormView {
                proton_path: settings.proton_path@,
                umu_path: settings.umu_path@,
                show_errors: false,
                proton_path_error: None,
                umu_path_error: None,
            }),
    {
        State {
            proton_path: settings.proton_path.clone(),
            umu_path: settings.umu_path.clone(),
            show_errors: false,
            proton_path_error: None,
            umu_path_error: None,
        }
    }

    /// Records both validation results; true when both pass.
    pub fn validate_with(&mut self, proton_is_dir: bool, umu_is_dir: bool) -> (r: bool)
        ensures
            final(self)@ == validated(old(self)@, proton_is_dir, umu_is_dir),
            r == (final(self)@.proton_path_error is None && final(self)@.umu_path_error is None),
    {
        self.proton_path_error = validate_dir_path(self.proton_path.as_str(), proton_is_dir);
        self.umu_path_error = validate_dir_path(self.umu_path.as_str(), umu_is_dir);
        self.proton_path_error.is_none() && self.umu_path_error.is_none()
    }

    /// Validates both paths against the file system as it is now.
    pub fn validate(&mut self) -> (r: bool)
        ensures
            exists|p: bool, u: bool| final(self)@ == #[trigger] validated(old(self)@, p, u),
            r == (final(self)@.proton_path_error is None && final(self)@.umu_path_error is None),
    {
        let p = is_existing_dir(self.proton_path.as_str());
        let u = is_existing_dir(self.umu_path.as_str());
        self.validate_with(p, u)
    }

    /// Handles a message, given what the file system says of the two paths.
    pub fn update_with(&mut self, message: Message, proton_is_dir: bool, umu_is_dir: bool) -> (r: Action)
        ensures
            (final(self)@, r@) == step(old(self)@, message, proton_is_dir, umu_is_dir),
    {
        match message {
            Message::Save => {
                self.show_errors = true;
                if !self.validate_with(proton_is_dir, umu_is_dir) {
                    return Action::Nothing;
                }
                Action::Save(Settings {
                    proton_path: self.proton_path.clone(),
                    umu_path: self.umu_path.clone(),
                })
            },
            Message::ProtonPathChanged(v) => {
                self.proton_path = v;
                Action::Nothing
            },
            Message::UmuPathChanged(v) => {
                self.umu_path = v;
                Action::Nothing
            },
            Message::ProtonPathDialogOpen(picked) => {
                if let Some(v) = picked {
                    self.proton_path = v;
                }
                Action::Nothing
            },
            Message::UmuPathDialogOpen(picked) => {
                if let Some(v) = picked {
                    self.umu_path = v;
                }
                Action::Nothing
            },
        }
    }

    /// Handles a message; on `Save` the file system is consulted for both
    /// paths.
    pub fn update(&mut self, message: Message) -> (r: Action)
        ensures
            exists|p: bool, u: bool| (final(self)@, r@) == #[trigger] step(old(self)@, message, p, u),
    {
        let (p, u) = match &message {
            Message::Save => (
                is_existing_dir(self.proton_path.as_str()),
                is_existing_dir(self.umu_path.as_str()),
            ),
            _ => (false, false),
        };
        self.update_with(message, p, u)
    }
}

} // verus!

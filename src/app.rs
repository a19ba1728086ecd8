use vstd::prelude::*;
use crate::launch::{launch_plan, launch_result, LaunchError, LaunchPlan, PlanView};
use crate::models::{AppData, AppDataView, GameView, SettingsView};
use crate::pages::{add_game, home, settings};
use crate::paths::{file_name_of, parent_of};

verus! {

/// The page that receives the user's messages.
#[derive(PartialEq, Eq, Structural, Clone, Copy)]
pub enum Page {
    Home,
    Settings,
    AddGame,
}

/// What the caller must do after the controller handled an action.
pub enum Effect {
    Nothing,
    /// The library changed: write it out.
    Persist,
    /// Spawn the game as planned.
    Launch(LaunchPlan),
    /// The game could not be started.
    Report(LaunchError),
}

/// What an `Effect` asks for; a report is always of an invalid executable
/// path.
pub enum EffectView {
    Nothing,
    Persist,
    Launch(PlanView),
    InvalidExePath,
}

/// The view of an `Effect`.
pub open spec fn effect_view(e: Effect) -> EffectView {
    match e {
        Effect::Nothing => EffectView::Nothing,
        Effect::Persist => EffectView::Persist,
        Effect::Launch(p) => EffectView::Launch(p@),
        Effect::Report(_) => EffectView::InvalidExePath,
    }
}

/// The controller: the current page, the library in memory, and the state
/// of each page.
pub struct App {
    pub page: Page,
    pub data: AppData,
    pub home: home::State,
    pub add_game: add_game::State,
    pub settings: settings::State,
}

/// What an `App` holds.
pub struct AppView {
    pub page: Page,
    pub data: AppDataView,
    pub home: home::HomeView,
    pub add_game: add_game::FormView,
    pub settings: settings::FormView,
}

impl View for App {
    type V = AppView;

    open spec fn view(&self) -> AppView {
        AppView {
            page: self.page,
            data: self.data@,
            home: self.home@,
            add_game: self.add_game@,
            settings: self.settings@,
        }
    }
}

/// The library page showing the games of `d`, with nothing selected.
pub open spec fn home_of(d: AppDataView) -> home::HomeView {
    home::HomeView { games: d.games, selected_game_index: None }
}

/// The add/edit form seeded from `g`, which sits at index `i`.
pub open spec fn edit_form(g: GameView, i: usize) -> add_game::FormView {
    add_game::FormView {
        game_name: g.name,
        cover_path: g.cover_path,
        exe_path: g.exe_path,
        wineprefix: g.wine_prefix,
        ..add_game::blank_form(Some(i))
    }
}

/// The settings form seeded from `s`.
pub open spec fn settings_form(s: SettingsView) -> settings::FormView {
    settings::FormView {
        proton_path: s.proton_path,
        umu_path: s.umu_path,
        show_errors: false,
        proton_path_error: None,
        umu_path_error: None,
    }
}

/// The controller back on the library page, showing `d`; any add/edit
/// session is closed.
pub open spec fn at_home(v: AppView, d: AppDataView) -> AppView {
    AppView {
        page: Page::Home,
        data: d,
        home: home_of(d),
        add_game: add_game::blank_form(None),
        ..v
    }
}

/// The controller and the effect after an action of the library page.
pub open spec fn home_transition(v: AppView, a: home::Action) -> (AppView, EffectView) {
    match a {
        home::Action::LaunchGame(i) => if i < v.data.games.len() {
            let g = v.data.games[i as int];
            match launch_result(g, v.data.settings, parent_of(g.exe_path), file_name_of(g.exe_path)) {
                Ok(p) => (v, EffectView::Launch(p)),
                Err(_) => (v, EffectView::InvalidExePath),
            }
        } else {
            (v, EffectView::Nothing)
        },
        home::Action::EditGame(i) => if i < v.data.games.len() {
            (
                AppView { page: Page::AddGame, add_game: edit_form(v.data.games[i as int], i), ..v },
                EffectView::Nothing,
            )
        } else {
            (v, EffectView::Nothing)
        },
        home::Action::RemoveGame(i) => if i < v.data.games.len() {
            (
                at_home(v, AppDataView { games: v.data.games.remove(i as int), ..v.data }),
                EffectView::Persist,
            )
        } else {
            (v, EffectView::Nothing)
        },
        home::Action::ToAddGame => (
            AppView { page: Page::AddGame, add_game: add_game::blank_form(None), ..v },
            EffectView::Nothing,
        ),
        home::Action::Nothing => (v, EffectView::Nothing),
    }
}

/// The controller and the effect after an action of the add/edit form.
pub open spec fn add_game_transition(v: AppView, a: add_game::ActionView) -> (AppView, EffectView) {
    match a {
        add_game::ActionView::New(g) => (
            at_home(v, AppDataView { games: v.data.games.push(g), ..v.data }),
            EffectView::Persist,
        ),
        add_game::ActionView::Edit(i, g) => if i < v.data.games.len() {
            (
                at_home(v, AppDataView { games: v.data.games.update(i as int, g), ..v.data }),
                EffectView::Persist,
            )
        } else {
            (v, EffectView::Nothing)
        },
        add_game::ActionView::Nothing => (v, EffectView::Nothing),
    }
}

/// The controller and the effect after an action of the settings form.
pub open spec fn settings_transition(v: AppView, a: settings::ActionView) -> (AppView, EffectView) {
    match a {
        settings::ActionView::Save(s) => (
            at_home(v, AppDataView { settings: s, ..v.data }),
            EffectView::Persist,
        ),
        settings::ActionView::Nothing => (v, EffectView::Nothing),
    }
}

impl App {
    /// The library page shows the games of the library in memory, and an
    /// edit session targets a game that exists.
    pub open spec fn wf(&self) -> bool {
        &&& self.home@.games == self.data@.games
        &&& self.add_game@.edit_index matches Some(i) ==> i < self.data@.games.len()
    }

    /// The controller on the library page, holding `data`.
    pub fn new(data: AppData) -> (r: App)
        ensures
            r.wf(),
            r@.page == Page::Home,
            r@.data == data@,
            r@.home == home_of(data@),
            r@.add_game == add_game::blank_form(None),
            r@.settings == settings_form(data@.settings),
    {
        let home = home::State::load(&data.games);
        let settings = settings::State::load(&data.settings);
        App { page: Page::Home, data, home, add_game: add_game::State::default(), settings }
    }

    /// Back to the library page, which shows the current games afresh.
    pub fn to_home(&mut self)
        ensures
            final(self).wf(),
            final(self)@ == at_home(old(self)@, old(self)@.data),
    {
        self.home = home::State::load(&self.data.games);
        self.add_game = add_game::State::default();
        self.page = Page::Home;
    }

    /// Opens the settings page, seeded from the current settings.
    pub fn to_settings(&mut self)
        requires
            old(self).wf(),
        ensures
            final(self).wf(),
            final(self)@ == (AppView {
                page: Page::Settings,
                settings: settings_form(old(self)@.data.settings),
                ..old(self)@
            }),
    {
        self.settings = settings::State::load(&self.data.settings);
        self.page = Page::Settings;
    }

    /// Carries out an action of the library page.
    pub fn apply_home_action(&mut self, action: home::Action) -> (r: Effect)
        requires
            old(self).wf(),
        ensures
            final(self).wf(),
            (final(self)@, effect_view(r)) == home_transition(old(self)@, action),
    {
        match action {
            home::Action::LaunchGame(i) => {
                if i < self.data.games.len() {
                    match launch_plan(&self.data.games[i], &self.data.settings) {
                        Ok(plan) => Effect::Launch(plan),
                        Err(e) => Effect::Report(e),
                    }
                } else {
                    Effect::Nothing
                }
            },
            home::Action::EditGame(i) => {
                if i < self.data.games.len() {
                    self.add_game = add_game::State::load(&self.data.games[i], i);
                    self.page = Page::AddGame;
                }
                Effect::Nothing
            },
            home::Action::RemoveGame(i) => {
                if i < self.data.games.len() {
                    self.data.remove_game(i);
                    self.to_home();
                    Effect::Persist
                } else {
                    Effect::Nothing
                }
            },
            home::Action::ToAddGame => {
                self.add_game = add_game::State::default();
                self.page = Page::AddGame;
                Effect::Nothing
            },
            home::Action::Nothing => Effect::Nothing,
        }
    }

    /// Carries out an action of the add/edit form.
    pub fn apply_add_game_action(&mut self, action: add_game::Action) -> (r: Effect)
        requires
            old(self).wf(),
        ensures
            final(self).wf(),
            (final(self)@, effect_view(r)) == add_game_transition(old(self)@, action@),
    {
        match action {
            add_game::Action::New(game) => {
                self.data.add_game(game);
                self.to_home();
                Effect::Persist
            },
            add_game::Action::Edit(i, game) => {
                if i < self.data.games.len() {
                    self.data.replace_game(i, game);
                    self.to_home();
                    Effect::Persist
                } else {
                    Effect::Nothing
                }
            },
            add_game::Action::Nothing => Effect::Nothing,
        }
    }

    /// Carries out an action of the settings form.
    pub fn apply_settings_action(&mut self, action: settings::Action) -> (r: Effect)
        requires
            old(self).wf(),
        ensures
            final(self).wf(),
            (final(self)@, effect_view(r)) == settings_transition(old(self)@, action@),
    {
        match action {
            settings::Action::Save(s) => {
                self.data.set_settings(s);
                self.to_home();
                Effect::Persist
            },
            settings::Action::Nothing => Effect::Nothing,
        }
    }

    /// Hands a message to the library page and carries out its action.
    pub fn home_message(&mut self, message: home::Message) -> (r: Effect)
        requires
            old(self).wf(),
        ensures
            final(self).wf(),
            ({
                let (h, a) = home::step(old(self)@.home, message);
                (final(self)@, effect_view(r)) == home_transition(AppView { home: h, ..old(self)@ }, a)
            }),
    {
        let action = self.home.update(message);
        self.apply_home_action(action)
    }

    /// Hands a message to the add/edit form and carries out its action; on
    /// `Save` the file system is consulted for the form's paths.
    pub fn add_game_message(&mut self, message: add_game::Message) -> (r: Effect)
        requires
            old(self).wf(),
        ensures
            final(self).wf(),
            exists|c: bool, e: bool, w: bool| {
                let (f, a) = #[trigger] add_game::step(old(self)@.add_game, message, c, e, w);
                (final(self)@, effect_view(r)) == add_game_transition(AppView { add_game: f, ..old(self)@ }, a)
            },
    {
        let action = self.add_game.update(message);
        self.apply_add_game_action(action)
    }

    /// Hands a message to the settings form and carries out its action; on
    /// `Save` the file system is consulted for both paths.
    pub fn settings_message(&mut self, message: settings::Message) -> (r: Effect)
        requires
            old(self).wf(),
        ensures
            final(self).wf(),
            exists|p: bool, u: bool| {
                let (f, a) = #[trigger] settings::step(old(self)@.settings, message, p, u);
                (final(self)@, effect_view(r)) == settings_transition(AppView { settings: f, ..old(self)@ }, a)
            },
    {
        let action = self.settings.update(message);
        self.apply_settings_action(action)
    }
}

} // verus!

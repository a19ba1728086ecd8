use vstd::prelude::*;
use crate::models::{clone_games, games_view, Game, GameView};

verus! {

/// Input events of the library page.
pub enum Message {
    SelectGame(usize),
    LaunchGame(usize),
    EditGame(usize),
    RemoveGame(usize),
    ToAddGame,
}

/// What the library page asks the controller to do.
pub enum Action {
    LaunchGame(usize),
    EditGame(usize),
    RemoveGame(usize),
    ToAddGame,
    Nothing,
}

/// The games shown and the entry whose detail overlay is open, if any.
pub struct State {
    pub games: Vec<Game>,
    pub selected_game_index: Option<usize>,
}

/// What a library `State` holds.
pub struct HomeView {
    pub games: Seq<GameView>,
    pub selected_game_index: Option<usize>,
}

impl View for State {
    type V = HomeView;

    open spec fn view(&self) -> HomeView {
        HomeView { games: games_view(self.games@), selected_game_index: self.selected_game_index }
    }
}

/// The selection after the entry at `i` was selected: selecting the open
/// entry closes its overlay, selecting another one opens it.
pub open spec fn toggled(selected: Option<usize>, i: usize) -> Option<usize> {
    if selected == Some(i) {
        None
    } else {
        Some(i)
    }
}

/// The page and the action after handling `m`.
pub open spec fn step(v: HomeView, m: Message) -> (HomeView, Action) {
    match m {
        Message::SelectGame(i) => (
            HomeView { selected_game_index: toggled(v.selected_game_index, i), ..v },
            Action::Nothing,
        ),
        Message::LaunchGame(i) => (v, Action::LaunchGame(i)),
        Message::EditGame(i) => (v, Action::EditGame(i)),
        Message::RemoveGame(i) => (
            HomeView { selected_game_index: None, ..v },
            Action::RemoveGame(i),
        ),
        Message::ToAddGame => (v, Action::ToAddGame),
    }
}

impl Default for State {
    /// An empty library with nothing selected.
    fn default() -> (r: State)
        ensures
            r@.games.len() == 0,
            r@.selected_game_index is None,
    {
        State { games: Vec::new(), selected_game_index: None }
    }
}

impl State {
    /// The page showing `games`, with nothing selected.
    pub fn load(games: &Vec<Game>) -> (r: State)
        ensures
            r@ == (HomeView { games: games_view(games@), selected_game_index: None }),
    {
        State { games: clone_games(games), selected_game_index: None }
    }

    /// Handles a message. The library itself is never changed here: the
    /// returned action tells the controller what to do. Removing an entry
    /// closes any open overlay, since the indices after it shift.
    pub fn update(&mut self, message: Message) -> (r: Action)
        ensures
            (final(self)@, r) == step(old(self)@, message),
    {
        match message {
            Message::ToAddGame => Action::ToAddGame,
            Message::SelectGame(index) => {
                if self.selected_game_index == Some(index) {
                    self.selected_game_index = None;
                } else {
                    self.selected_game_index = Some(index);
                }
                Action::Nothing
            },
            Message::LaunchGame(index) => Action::LaunchGame(index),
            Message::EditGame(index) => Action::EditGame(index),
            Message::RemoveGame(index) => {
                self.selected_game_index = None;
                Action::RemoveGame(index)
            },
        }
    }
}

} // verus!

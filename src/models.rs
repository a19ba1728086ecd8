use vstd::prelude::*;

verus! {

/// The single process-wide settings record.
pub struct Settings {
    /// Installation root of the compatibility runtime.
    pub proton_path: String,
    /// Installation root of the launcher shim.
    pub umu_path: String,
}

/// What a `Settings` value holds, as character sequences.
pub struct SettingsView {
    pub proton_path: Seq<char>,
    pub umu_path: Seq<char>,
}

impl View for Settings {
    type V = SettingsView;

    open spec fn view(&self) -> SettingsView {
        SettingsView { proton_path: self.proton_path@, umu_path: self.umu_path@ }
    }
}

/// Settings with both paths empty.
pub open spec fn empty_settings() -> SettingsView {
    SettingsView { proton_path: Seq::empty(), umu_path: Seq::empty() }
}

impl Settings {
    pub fn new(proton_path: String, umu_path: String) -> (r: Settings)
        ensures
            r@ == (SettingsView { proton_path: proton_path@, umu_path: umu_path@ }),
    {
        Settings { proton_path, umu_path }
    }
}

impl Default for Settings {
    fn default() -> (r: Settings)
        ensures
            r@ == empty_settings(),
    {
        Settings { proton_path: String::new(), umu_path: String::new() }
    }
}

impl Clone for Settings {
    fn clone(&self) -> (r: Settings)
        ensures
            r@ == self@,
    {
        Settings { proton_path: self.proton_path.clone(), umu_path: self.umu_path.clone() }
    }
}

/// One library entry.
pub struct Game {
    /// Display name; the form keeps it non-blank.
    pub name: String,
    /// Image shown on the entry's card.
    pub cover_path: String,
    /// The Windows executable.
    pub exe_path: String,
    /// Directory holding the runtime's per-game state.
    pub wine_prefix: String,
}

/// What a `Game` value holds, as character sequences.
pub struct GameView {
    pub name: Seq<char>,
    pub cover_path: Seq<char>,
    pub exe_path: Seq<char>,
    pub wine_prefix: Seq<char>,
}

impl View for Game {
    type V = GameView;

    open spec fn view(&self) -> GameView {
        GameView {
            name: self.name@,
            cover_path: self.cover_path@,
            exe_path: self.exe_path@,
            wine_prefix: self.wine_prefix@,
        }
    }
}

/// A game whose four fields are empty.
pub open spec fn empty_game() -> GameView {
    GameView {
        name: Seq::empty(),
        cover_path: Seq::empty(),
        exe_path: Seq::empty(),
        wine_prefix: Seq::empty(),
    }
}

impl Game {
    pub fn new(name: String, cover_path: String, exe_path: String, wine_prefix: String) -> (r:
        Game)
        ensures
            r@ == (GameView {
                name: name@,
                cover_path: cover_path@,
                exe_path: exe_path@,
                wine_prefix: wine_prefix@,
            }),
    {
        Game { name, cover_path, exe_path, wine_prefix }
    }
}

impl Default for Game {
    fn default() -> (r: Game)
        ensures
            r@ == empty_game(),
    {
        Game {
            name: String::new(),
            cover_path: String::new(),
            exe_path: String::new(),
            wine_prefix: String::new(),
        }
    }
}

impl Clone for Game {
    fn clone(&self) -> (r: Game)
        ensures
            r@ == self@,
    {
        Game {
            name: self.name.clone(),
            cover_path: self.cover_path.clone(),
            exe_path: self.exe_path.clone(),
            wine_prefix: self.wine_prefix.clone(),
        }
    }
}

/// The views of a sequence of games, in order.
pub open spec fn games_view(games: Seq<Game>) -> Seq<GameView> {
    games.map_values(|g: Game| g@)
}

/// Copies a list of games, entry by entry.
pub fn clone_games(games: &Vec<Game>) -> (r: Vec<Game>)
    ensures
        games_view(r@) == games_view(games@),
{
    let mut r: Vec<Game> = Vec::new();
    let mut i: usize = 0;
    while i < games.len()
        invariant
            i <= games.len(),
            r@.len() == i,
            forall|j: int| 0 <= j < i ==> #[trigger] r@[j]@ == games@[j]@,
        decreases games.len() - i,
    {
        r.push(games[i].clone());
        i = i + 1;
    }
    assert(games_view(r@) =~= games_view(games@));
    r
}

/// The persisted aggregate: the ordered library and the settings.
pub struct AppData {
    pub games: Vec<Game>,
    pub settings: Settings,
}

/// What an `AppData` value holds.
pub struct AppDataView {
    pub games: Seq<GameView>,
    pub settings: SettingsView,
}

impl View for AppData {
    type V = AppDataView;

    open spec fn view(&self) -> AppDataView {
        AppDataView { games: games_view(self.games@), settings: self.settings@ }
    }
}

impl Default for AppData {
    /// An empty library with empty settings, as on a first start.
    fn default() -> (r: AppData)
        ensures
            r@.games.len() == 0,
            r@.settings == empty_settings(),
    {
        AppData { games: Vec::new(), settings: Settings::default() }
    }
}

impl Clone for AppData {
    fn clone(&self) -> (r: AppData)
        ensures
            r@ == self@,
    {
        AppData { games: clone_games(&self.games), settings: self.settings.clone() }
    }
}

impl AppData {
    pub fn new(games: Vec<Game>, settings: Settings) -> (r: AppData)
        ensures
            r@ == (AppDataView { games: games_view(games@), settings: settings@ }),
    {
        AppData { games, settings }
    }

    /// Appends a game; it takes the index equal to the old length.
    pub fn add_game(&mut self, game: Game)
        ensures
            final(self)@ == (AppDataView {
                games: old(self)@.games.push(game@),
                settings: old(self)@.settings,
            }),
    {
        self.games.push(game);
        assert(games_view(self.games@) =~= old(self)@.games.push(game@));
    }

    /// Replaces the game at `index` in place.
    pub fn replace_game(&mut self, index: usize, game: Game)
        requires
            index < old(self).games.len(),
        ensures
            final(self)@ == (AppDataView {
                games: old(self)@.games.update(index as int, game@),
                settings: old(self)@.settings,
            }),
    {
        self.games.set(index, game);
        assert(games_view(self.games@) =~= old(self)@.games.update(index as int, game@));
    }

    /// Removes the game at `index`; the later games move down by one.
    pub fn remove_game(&mut self, index: usize)
        requires
            index < old(self).games.len(),
        ensures
            final(self)@ == (AppDataView {
                games: old(self)@.games.remove(index as int),
                settings: old(self)@.settings,
            }),
    {
        self.games.remove(index);
        assert(games_view(self.games@) =~= old(self)@.games.remove(index as int));
    }

    /// Replaces the settings record wholesale.
    pub fn set_settings(&mut self, settings: Settings)
        ensures
            final(self)@ == (AppDataView { games: old(self)@.games, settings: settings@ }),
    {
        self.settings = settings;
    }
}

} // verus!

use quarkpad::app::{App, Effect, Page};
use quarkpad::launch::{launch_plan, plan_with, LaunchError, DLL_OVERRIDES};
use quarkpad::models::{AppData, Game, Settings};
use quarkpad::pages::{add_game, home, settings};

fn s(v: &str) -> String {
    v.to_string()
}

fn game(name: &str) -> Game {
    Game::new(s(name), s("/c.png"), format!("/games/{}/bin/{}.exe", name, name), s("/pfx"))
}

fn three_games() -> AppData {
    AppData::new(vec![game("a"), game("b"), game("c")], Settings::new(s("/rt/proton"), s("/rt/umu")))
}

fn env_value<'a>(env: &'a [(String, String)], key: &str) -> Option<&'a str> {
    env.iter().find(|(k, _)| k == key).map(|(_, v)| v.as_str())
}

#[test]
fn remove_shifts_later_games_down() {
    let mut app = App::new(three_games());
    app.home_message(home::Message::SelectGame(1));
    let effect = app.home_message(home::Message::RemoveGame(1));
    assert!(matches!(effect, Effect::Persist));
    assert_eq!(app.data.games.len(), 2);
    assert_eq!(app.data.games[0].name, "a");
    assert_eq!(app.data.games[1].name, "c");
    assert_eq!(app.home.games.len(), 2);
    assert_eq!(app.home.games[1].name, "c");
    assert_eq!(app.home.selected_game_index, None);
    assert!(app.page == Page::Home);
}

#[test]
fn remove_out_of_range_changes_nothing() {
    let mut app = App::new(three_games());
    assert!(matches!(app.home_message(home::Message::RemoveGame(3)), Effect::Nothing));
    assert_eq!(app.data.games.len(), 3);
}

#[test]
fn add_session_appends_and_returns_home() {
    let mut app = App::new(three_games());
    assert!(matches!(app.home_message(home::Message::ToAddGame), Effect::Nothing));
    assert!(app.page == Page::AddGame);
    assert_eq!(app.add_game.edit_index, None);
    let action = add_game::Action::New(game("d"));
    assert!(matches!(app.apply_add_game_action(action), Effect::Persist));
    assert_eq!(app.data.games.len(), 4);
    assert_eq!(app.data.games[3].name, "d");
    assert!(app.page == Page::Home);
    assert_eq!(app.home.games.len(), 4);
}

#[test]
fn edit_session_replaces_in_place() {
    let mut app = App::new(three_games());
    app.home_message(home::Message::EditGame(2));
    assert!(app.page == Page::AddGame);
    assert_eq!(app.add_game.edit_index, Some(2));
    assert_eq!(app.add_game.game_name, "c");
    app.add_game_message(add_game::Message::GameNameChanged(s("c2")));
    let action = app.add_game.update_with(add_game::Message::Save, true, true, true);
    assert!(matches!(app.apply_add_game_action(action), Effect::Persist));
    assert_eq!(app.data.games.len(), 3);
    assert_eq!(app.data.games[2].name, "c2");
    assert_eq!(app.data.games[1].name, "b");
    assert!(app.page == Page::Home);
}

#[test]
fn failed_save_keeps_the_form_open() {
    let mut app = App::new(three_games());
    app.home_message(home::Message::ToAddGame);
    assert!(matches!(app.add_game_message(add_game::Message::Save), Effect::Nothing));
    assert!(app.page == Page::AddGame);
    assert_eq!(app.data.games.len(), 3);
    assert!(app.add_game.show_errors);
}

#[test]
fn settings_save_replaces_settings() {
    let mut app = App::new(three_games());
    app.to_settings();
    assert!(app.page == Page::Settings);
    assert_eq!(app.settings.proton_path, "/rt/proton");
    let action = settings::Action::Save(Settings::new(s("/x"), s("/y")));
    assert!(matches!(app.apply_settings_action(action), Effect::Persist));
    assert_eq!(app.data.settings.proton_path, "/x");
    assert_eq!(app.data.settings.umu_path, "/y");
    assert!(app.page == Page::Home);
    app.to_settings();
    assert!(matches!(app.settings_message(settings::Message::Save), Effect::Nothing));
    assert!(app.page == Page::Settings);
    app.to_home();
    assert!(app.page == Page::Home);
}

#[test]
fn launch_plan_splits_exe_and_sets_runtime_env() {
    let g = Game::new(s("Foo"), s("/c.png"), s("/games/foo/bin/foo.exe"), s("/pfx/foo"));
    let st = Settings::new(s("/rt/proton"), s("/rt/umu"));
    let plan = match launch_plan(&g, &st) {
        Ok(p) => p,
        Err(_) => panic!("expected a plan"),
    };
    assert_eq!(plan.current_dir, "/games/foo/bin");
    assert_eq!(plan.arg, "foo.exe");
    assert_eq!(plan.program, "/rt/umu/umu-run");
    assert_eq!(env_value(&plan.env, "WINE"), Some("/rt/proton/files/bin/wine"));
    assert_eq!(env_value(&plan.env, "PROTONPATH"), Some("/rt/proton"));
    assert_eq!(env_value(&plan.env, "WINEPREFIX"), Some("/pfx/foo"));
    assert_eq!(env_value(&plan.env, "GAME_NAME"), Some("Foo"));
    assert_eq!(env_value(&plan.env, "WINEDEBUG"), Some("-all"));
    assert_eq!(env_value(&plan.env, "GAMEID"), Some("umu-default"));
    assert_eq!(env_value(&plan.env, "PROTON_VERB"), Some("run"));
    assert_eq!(env_value(&plan.env, "WINEDLLOVERRIDES"), Some(DLL_OVERRIDES));
    assert!(DLL_OVERRIDES.starts_with("d3d10core,d3d11,"));
    assert!(DLL_OVERRIDES.ends_with("nvofapi64=n;winemenubuilder="));
    assert_eq!(plan.env.len(), 19);
}

#[test]
fn launch_paths_with_trailing_separator() {
    let g = Game::new(s("Foo"), s(""), s("foo.exe"), s(""));
    let st = Settings::new(s("/rt/proton/"), s(""));
    let plan = match launch_plan(&g, &st) {
        Ok(p) => p,
        Err(_) => panic!("expected a plan"),
    };
    assert_eq!(plan.current_dir, "");
    assert_eq!(plan.arg, "foo.exe");
    assert_eq!(plan.program, "umu-run");
    assert_eq!(env_value(&plan.env, "WINE"), Some("/rt/proton/files/bin/wine"));
}

#[test]
fn exe_without_file_name_is_invalid() {
    let st = Settings::new(s("/rt/proton"), s("/rt/umu"));
    for exe in ["/", "", "/games/.."] {
        let g = Game::new(s("Foo"), s(""), s(exe), s(""));
        assert!(matches!(launch_plan(&g, &st), Err(LaunchError::InvalidExePath)));
    }
    let g = Game::new(s("Foo"), s(""), s("/a/b.exe"), s(""));
    assert!(matches!(plan_with(&g, &st, Some(s("/a")), None), Err(LaunchError::InvalidExePath)));
    assert!(matches!(plan_with(&g, &st, None, Some(s("b.exe"))), Err(LaunchError::InvalidExePath)));
}

#[test]
fn controller_launch_reports_invalid_path() {
    let mut data = three_games();
    data.replace_game(0, Game::new(s("bad"), s(""), s("/"), s("")));
    let mut app = App::new(data);
    assert!(matches!(app.home_message(home::Message::LaunchGame(0)), Effect::Report(LaunchError::InvalidExePath)));
    match app.home_message(home::Message::LaunchGame(1)) {
        Effect::Launch(p) => assert_eq!(p.arg, "b.exe"),
        _ => panic!("expected a launch"),
    }
    assert!(matches!(app.home_message(home::Message::LaunchGame(7)), Effect::Nothing));
    assert_eq!(app.data.games.len(), 3);
}

#[test]
fn app_data_default_is_empty() {
    let d = AppData::default();
    assert!(d.games.is_empty());
    assert_eq!(d.settings.proton_path, "");
    assert_eq!(d.settings.umu_path, "");
    let c = three_games().clone();
    assert_eq!(c.games.len(), 3);
    assert_eq!(c.games[2].exe_path, "/games/c/bin/c.exe");
}

#[test]
fn library_document_location() {
    let loc = quarkpad::store::location_in("/home/alice/.local/share");
    assert_eq!(loc.dir, "/home/alice/.local/share/quarkpad");
    assert_eq!(loc.file, "/home/alice/.local/share/quarkpad/data.toml");
    let loc = quarkpad::store::location_in("/data/");
    assert_eq!(loc.file, "/data/quarkpad/data.toml");
}

use quarkpad::models::{Game, Settings};
use quarkpad::pages::{add_game, home, settings};

fn s(v: &str) -> String {
    v.to_string()
}

fn portal() -> Game {
    Game::new(s("Portal"), s("/g/cover.png"), s("/g/portal.exe"), s("/g/prefix"))
}

#[test]
fn empty_form_save_reports_all_required() {
    for probes in [(false, false, false), (true, true, true)] {
        let mut form = add_game::State::default();
        assert!(!form.show_errors);
        let action = form.update_with(add_game::Message::Save, probes.0, probes.1, probes.2);
        assert!(matches!(action, add_game::Action::Nothing));
        assert!(form.show_errors);
        assert_eq!(form.game_name_error.as_deref(), Some("Game name is required"));
        assert_eq!(form.cover_path_error.as_deref(), Some("Path is required"));
        assert_eq!(form.exe_path_error.as_deref(), Some("Path is required"));
        assert_eq!(form.wineprefix_error.as_deref(), Some("Path is required"));
    }
}

#[test]
fn empty_form_validate_fails_on_disk() {
    let mut form = add_game::State::default();
    assert!(!form.validate());
    assert_eq!(form.game_name_error.as_deref(), Some("Game name is required"));
    let action = form.update(add_game::Message::Save);
    assert!(matches!(action, add_game::Action::Nothing));
}

#[test]
fn blank_name_is_required() {
    let mut form = add_game::State::default();
    form.update_with(add_game::Message::GameNameChanged(s(" \t\n")), true, true, true);
    form.update_with(add_game::Message::Save, true, true, true);
    assert_eq!(form.game_name_error.as_deref(), Some("Game name is required"));
}

#[test]
fn new_game_save_yields_new_with_fields() {
    let mut form = add_game::State::default();
    form.update_with(add_game::Message::GameNameChanged(s("Portal")), false, false, false);
    form.update_with(add_game::Message::CoverPathChanged(s("/g/cover.png")), false, false, false);
    form.update_with(add_game::Message::ExePathChanged(s("/g/portal.exe")), false, false, false);
    form.update_with(add_game::Message::WineprefixChanged(s("/g/prefix")), false, false, false);
    match form.update_with(add_game::Message::Save, true, true, true) {
        add_game::Action::New(g) => {
            assert_eq!(g.name, "Portal");
            assert_eq!(g.cover_path, "/g/cover.png");
            assert_eq!(g.exe_path, "/g/portal.exe");
            assert_eq!(g.wine_prefix, "/g/prefix");
        }
        _ => panic!("expected a new game"),
    }
    assert!(form.game_name_error.is_none());
    assert!(form.cover_path_error.is_none());
    assert!(form.exe_path_error.is_none());
    assert!(form.wineprefix_error.is_none());
}

#[test]
fn loaded_game_save_yields_edit_at_index() {
    let mut form = add_game::State::load(&portal(), 2);
    assert_eq!(form.edit_index, Some(2));
    assert_eq!(form.game_name, "Portal");
    form.update_with(add_game::Message::GameNameChanged(s("Portal 2")), false, false, false);
    match form.update_with(add_game::Message::Save, true, true, true) {
        add_game::Action::Edit(i, g) => {
            assert_eq!(i, 2);
            assert_eq!(g.name, "Portal 2");
            assert_eq!(g.cover_path, "/g/cover.png");
            assert_eq!(g.exe_path, "/g/portal.exe");
            assert_eq!(g.wine_prefix, "/g/prefix");
        }
        _ => panic!("expected an edit"),
    }
}

#[test]
fn missing_files_and_directory_are_reported() {
    let mut form = add_game::State::load(&portal(), 0);
    let action = form.update_with(add_game::Message::Save, false, true, false);
    assert!(matches!(action, add_game::Action::Nothing));
    assert!(form.game_name_error.is_none());
    assert_eq!(form.cover_path_error.as_deref(), Some("File does not exist"));
    assert!(form.exe_path_error.is_none());
    assert_eq!(form.wineprefix_error.as_deref(), Some("Directory does not exist"));
}

#[test]
fn directory_is_not_a_file_on_disk() {
    let mut form = add_game::State::default();
    form.update(add_game::Message::GameNameChanged(s("Root")));
    form.update(add_game::Message::CoverPathChanged(s("/")));
    form.update(add_game::Message::ExePathChanged(s("/")));
    form.update(add_game::Message::WineprefixChanged(s("/")));
    let action = form.update(add_game::Message::Save);
    assert!(matches!(action, add_game::Action::Nothing));
    assert_eq!(form.cover_path_error.as_deref(), Some("File does not exist"));
    assert_eq!(form.exe_path_error.as_deref(), Some("File does not exist"));
    assert!(form.wineprefix_error.is_none());
}

#[test]
fn picker_result_fills_field_and_cancel_keeps_it() {
    let mut form = add_game::State::default();
    form.update(add_game::Message::ExePathDialogOpen(Some(s("/g/a.exe"))));
    assert_eq!(form.exe_path, "/g/a.exe");
    form.update(add_game::Message::ExePathDialogOpen(None));
    assert_eq!(form.exe_path, "/g/a.exe");
    form.update(add_game::Message::CoverPathDialogOpen(Some(s("/g/c.png"))));
    form.update(add_game::Message::WineprefixDialogOpen(Some(s("/g/p"))));
    assert_eq!(form.cover_path, "/g/c.png");
    assert_eq!(form.wineprefix, "/g/p");
    assert!(!form.show_errors);
    assert!(form.cover_path_error.is_none());
}

#[test]
fn errors_clear_once_fixed() {
    let mut form = add_game::State::default();
    form.update_with(add_game::Message::Save, true, true, true);
    assert!(form.game_name_error.is_some());
    form.update_with(add_game::Message::GameNameChanged(s("X")), true, true, true);
    form.update_with(add_game::Message::CoverPathChanged(s("c")), true, true, true);
    form.update_with(add_game::Message::ExePathChanged(s("e")), true, true, true);
    form.update_with(add_game::Message::WineprefixChanged(s("w")), true, true, true);
    let action = form.update_with(add_game::Message::Save, true, true, true);
    assert!(matches!(action, add_game::Action::New(_)));
    assert!(form.game_name_error.is_none());
    assert!(form.show_errors);
}

#[test]
fn settings_file_instead_of_directory_is_rejected() {
    let mut form = settings::State::load(&Settings::new(s("/rt/proton/file"), s("/rt/umu")));
    let action = form.update_with(settings::Message::Save, false, true);
    assert!(matches!(action, settings::Action::Nothing));
    assert!(form.show_errors);
    assert_eq!(form.proton_path_error.as_deref(), Some("Directory does not exist"));
    assert!(form.umu_path_error.is_none());
}

#[test]
fn settings_empty_paths_are_required() {
    let mut form = settings::State::load(&Settings::default());
    let action = form.update(settings::Message::Save);
    assert!(matches!(action, settings::Action::Nothing));
    assert_eq!(form.proton_path_error.as_deref(), Some("Path is required"));
    assert_eq!(form.umu_path_error.as_deref(), Some("Path is required"));
}

#[test]
fn settings_existing_directories_save() {
    let mut form = settings::State::load(&Settings::default());
    form.update(settings::Message::ProtonPathChanged(s("/")));
    form.update(settings::Message::UmuPathDialogOpen(Some(s("/"))));
    form.update(settings::Message::ProtonPathDialogOpen(None));
    match form.update(settings::Message::Save) {
        settings::Action::Save(st) => {
            assert_eq!(st.proton_path, "/");
            assert_eq!(st.umu_path, "/");
        }
        _ => panic!("expected the settings to be saved"),
    }
}

#[test]
fn home_actions_follow_messages() {
    let games = vec![portal(), portal()];
    let mut page = home::State::load(&games);
    assert_eq!(page.games.len(), 2);
    assert_eq!(page.selected_game_index, None);
    assert!(matches!(page.update(home::Message::SelectGame(1)), home::Action::Nothing));
    assert_eq!(page.selected_game_index, Some(1));
    assert!(matches!(page.update(home::Message::SelectGame(0)), home::Action::Nothing));
    assert_eq!(page.selected_game_index, Some(0));
    assert!(matches!(page.update(home::Message::SelectGame(0)), home::Action::Nothing));
    assert_eq!(page.selected_game_index, None);
    assert!(matches!(page.update(home::Message::LaunchGame(1)), home::Action::LaunchGame(1)));
    assert!(matches!(page.update(home::Message::EditGame(0)), home::Action::EditGame(0)));
    assert!(matches!(page.update(home::Message::ToAddGame), home::Action::ToAddGame));
    page.update(home::Message::SelectGame(1));
    assert!(matches!(page.update(home::Message::RemoveGame(1)), home::Action::RemoveGame(1)));
    assert_eq!(page.selected_game_index, None);
    assert_eq!(page.games.len(), 2);
}

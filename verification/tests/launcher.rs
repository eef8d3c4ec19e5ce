use sfav::app::App;
use sfav::config::{Entry, ThemeConfig};
use sfav::event::{handle_event, Action, InputEvent, KeyCode};
use sfav::theme::Theme;

fn entry(name: &str, command: &str, notes: &str) -> Entry {
    Entry { name: name.to_string(), command: command.to_string(), notes: notes.to_string() }
}

fn sample_entries() -> Vec<Entry> {
    vec![
        entry("rice reload", "hyprctl reload", "reload hyprland config"),
        entry("restart service", "systemctl --user restart something", "restart my service"),
        entry("update project", "git pull && cargo build --release", "pull and rebuild"),
        entry("Compose Up", "docker compose up -d", ""),
    ]
}

fn theme() -> Theme {
    Theme::from_config(&ThemeConfig::default())
}

fn launcher() -> App {
    App::new(sample_entries(), theme())
}

fn press(code: KeyCode) -> InputEvent {
    InputEvent::Key { code, ctrl: false, release: false }
}

fn type_text(app: &mut App, text: &str) {
    for c in text.chars() {
        assert_eq!(handle_event(app, press(KeyCode::Char(c))), None);
    }
}

#[test]
fn new_app_shows_every_entry_and_selects_the_first() {
    let app = launcher();
    assert_eq!(app.filtered, vec![0, 1, 2, 3]);
    assert_eq!(app.selected, Some(0));
    assert_eq!(app.filter, "");
    assert!(!app.show_notes);
    assert_eq!(app.selected_entry().unwrap().name, "rice reload");
}

#[test]
fn new_app_without_entries_has_nothing_selected_to_run() {
    let app = App::new(Vec::new(), theme());
    assert!(app.filtered.is_empty());
    assert_eq!(app.selected, Some(0));
    assert!(app.selected_entry().is_none());
}

#[test]
fn search_is_case_insensitive_substring_over_name_command_and_notes() {
    let mut app = launcher();
    app.filter = "DOCKER".to_string();
    app.apply_filter();
    assert_eq!(app.filtered, vec![3]);

    app.filter = "compose".to_string();
    app.apply_filter();
    assert_eq!(app.filtered, vec![3]);

    app.filter = "hyprland".to_string();
    app.apply_filter();
    assert_eq!(app.filtered, vec![0]);

    app.filter = "re".to_string();
    app.apply_filter();
    assert_eq!(app.filtered, vec![0, 1, 2]);
}

#[test]
fn empty_search_shows_everything_in_order() {
    let mut app = launcher();
    app.filter = "zzz".to_string();
    app.apply_filter();
    assert!(app.filtered.is_empty());
    app.filter = String::new();
    app.apply_filter();
    assert_eq!(app.filtered, vec![0, 1, 2, 3]);
}

#[test]
fn search_without_match_leaves_row_zero_and_no_entry() {
    let mut app = launcher();
    app.selected = Some(3);
    app.filter = "no such thing".to_string();
    app.apply_filter();
    assert!(app.filtered.is_empty());
    assert_eq!(app.selected, Some(0));
    assert!(app.selected_entry().is_none());
}

#[test]
fn refiltering_pulls_the_selection_back_to_the_last_row() {
    let mut app = launcher();
    app.selected = Some(3);
    app.filter = "re".to_string();
    app.apply_filter();
    assert_eq!(app.filtered, vec![0, 1, 2]);
    assert_eq!(app.selected, Some(2));
    app.selected = None;
    app.apply_filter();
    assert_eq!(app.selected, Some(0));
    app.selected = Some(1);
    app.apply_filter();
    assert_eq!(app.selected, Some(1));
}

#[test]
fn moving_wraps_around_both_ends() {
    let mut app = launcher();
    app.move_selection(-1);
    assert_eq!(app.selected, Some(3));
    app.move_selection(1);
    assert_eq!(app.selected, Some(0));
    app.move_selection(1);
    assert_eq!(app.selected, Some(1));
    app.move_selection(7);
    assert_eq!(app.selected, Some(0));
    app.move_selection(-6);
    assert_eq!(app.selected, Some(2));
}

#[test]
fn moving_there_and_back_returns_to_the_same_row() {
    for start in 0..4usize {
        for delta in [-9i32, -4, -1, 1, 2, 5, 13] {
            let mut app = launcher();
            app.selected = Some(start);
            app.move_selection(delta);
            app.move_selection(-delta);
            assert_eq!(app.selected, Some(start));
        }
    }
}

#[test]
fn moving_in_an_empty_list_changes_nothing() {
    let mut app = App::new(Vec::new(), theme());
    app.selected = Some(5);
    app.move_selection(1);
    assert_eq!(app.selected, Some(5));
}

#[test]
fn typing_filters_and_enter_runs_the_selected_command() {
    let mut app = launcher();
    type_text(&mut app, "Rice");
    assert_eq!(app.filter, "Rice");
    assert_eq!(app.filtered, vec![0]);
    assert_eq!(handle_event(&mut app, press(KeyCode::Enter)), Some(Action::Run("hyprctl reload".to_string())));
}

#[test]
fn enter_on_an_empty_list_does_nothing() {
    let mut app = launcher();
    type_text(&mut app, "qqq");
    assert!(app.filtered.is_empty());
    assert_eq!(handle_event(&mut app, press(KeyCode::Enter)), None);
}

#[test]
fn backspace_removes_the_last_character_and_refilters() {
    let mut app = launcher();
    type_text(&mut app, "dockx");
    assert!(app.filtered.is_empty());
    assert_eq!(handle_event(&mut app, press(KeyCode::Backspace)), None);
    assert_eq!(app.filter, "dock");
    assert_eq!(app.filtered, vec![3]);
    let mut empty = launcher();
    assert_eq!(handle_event(&mut empty, press(KeyCode::Backspace)), None);
    assert_eq!(empty.filter, "");
    assert_eq!(empty.filtered, vec![0, 1, 2, 3]);
}

#[test]
fn typing_then_erasing_restores_the_list() {
    let mut app = launcher();
    type_text(&mut app, "re");
    let before = app.filtered.clone();
    type_text(&mut app, "s");
    assert_eq!(app.filtered, vec![1]);
    handle_event(&mut app, press(KeyCode::Backspace));
    assert_eq!(app.filter, "re");
    assert_eq!(app.filtered, before);
}

#[test]
fn escape_and_control_c_quit() {
    let mut app = launcher();
    assert_eq!(handle_event(&mut app, press(KeyCode::Esc)), Some(Action::Quit));
    let ctrl_c = InputEvent::Key { code: KeyCode::Char('c'), ctrl: true, release: false };
    assert_eq!(handle_event(&mut app, ctrl_c), Some(Action::Quit));
    app.show_notes = true;
    assert_eq!(handle_event(&mut app, ctrl_c), Some(Action::Quit));
    assert_eq!(app.filter, "");
}

#[test]
fn plain_c_is_typed_not_quit() {
    let mut app = launcher();
    assert_eq!(handle_event(&mut app, press(KeyCode::Char('c'))), None);
    assert_eq!(app.filter, "c");
}

#[test]
fn key_releases_are_ignored() {
    let mut app = launcher();
    let release = InputEvent::Key { code: KeyCode::Esc, ctrl: false, release: true };
    assert_eq!(handle_event(&mut app, release), None);
    let release_char = InputEvent::Key { code: KeyCode::Char('x'), ctrl: false, release: true };
    assert_eq!(handle_event(&mut app, release_char), None);
    assert_eq!(app.filter, "");
}

#[test]
fn arrows_and_wheel_move_the_selection() {
    let mut app = launcher();
    handle_event(&mut app, press(KeyCode::Down));
    assert_eq!(app.selected, Some(1));
    handle_event(&mut app, InputEvent::ScrollDown);
    assert_eq!(app.selected, Some(2));
    handle_event(&mut app, press(KeyCode::Up));
    assert_eq!(app.selected, Some(1));
    handle_event(&mut app, InputEvent::ScrollUp);
    handle_event(&mut app, InputEvent::ScrollUp);
    assert_eq!(app.selected, Some(3));
    assert_eq!(handle_event(&mut app, InputEvent::Other), None);
    assert_eq!(app.selected, Some(3));
}

#[test]
fn tab_opens_the_notes_popup_which_swallows_keys() {
    let mut app = launcher();
    handle_event(&mut app, press(KeyCode::Tab));
    assert!(app.show_notes);
    assert_eq!(handle_event(&mut app, press(KeyCode::Char('x'))), None);
    assert_eq!(handle_event(&mut app, press(KeyCode::Enter)), None);
    assert_eq!(handle_event(&mut app, press(KeyCode::Down)), None);
    assert_eq!(app.filter, "");
    assert_eq!(app.selected, Some(0));
    assert!(app.show_notes);
    handle_event(&mut app, InputEvent::ScrollDown);
    assert_eq!(app.selected, Some(1));
    assert_eq!(handle_event(&mut app, press(KeyCode::Esc)), None);
    assert!(!app.show_notes);
    handle_event(&mut app, press(KeyCode::Tab));
    handle_event(&mut app, press(KeyCode::Tab));
    assert!(!app.show_notes);
}

#[test]
fn other_keys_do_nothing() {
    let mut app = launcher();
    assert_eq!(handle_event(&mut app, press(KeyCode::Other)), None);
    assert_eq!(app.filter, "");
    assert_eq!(app.selected, Some(0));
}

#[test]
fn searches_differing_only_in_ascii_case_show_the_same_list() {
    for (a, b) in [("DOCKER", "docker"), ("ReLoAd", "reload"), ("GIT PULL", "git pull")] {
        let mut first = launcher();
        let mut second = launcher();
        first.filter = a.to_string();
        second.filter = b.to_string();
        first.apply_filter();
        second.apply_filter();
        assert_eq!(first.filtered, second.filtered);
        assert_eq!(first.selected, second.selected);
    }
}

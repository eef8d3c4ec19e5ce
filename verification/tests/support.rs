use sfav::app::App;
use sfav::cli::{config_path, CliRequest};
use sfav::config::{Entry, ThemeConfig};
use sfav::event::{needs_pause, shell_program};
use sfav::text::{chars_of, flatten_lines, occurs};
use sfav::theme::{color_text, color_warning, parse_hex_color, parse_hex_digits, Color, Theme};
use sfav::ui::{centered_rect, notes_popup, table_rows, Rect};

fn s(x: &str) -> Option<String> {
    Some(x.to_string())
}

fn path(r: CliRequest) -> String {
    match r {
        CliRequest::Path(p) => p,
        other => panic!("expected a path, got {:?}", other),
    }
}

#[test]
fn default_theme_colors() {
    let cfg = ThemeConfig::default();
    assert_eq!(cfg.border, "#60a5fa");
    assert_eq!(cfg.header, "#06b6d4");
    assert_eq!(cfg.highlight_bg, "#d4d4d8");
    assert_eq!(cfg.highlight_fg, "#18181b");
    let theme = Theme::from_config(&cfg);
    assert_eq!(theme.border, Color::Rgb(0x60, 0xa5, 0xfa));
    assert_eq!(theme.header, Color::Rgb(0x06, 0xb6, 0xd4));
    assert_eq!(theme.highlight_bg, Color::Rgb(0xd4, 0xd4, 0xd8));
    assert_eq!(theme.highlight_fg, Color::Rgb(0x18, 0x18, 0x1b));
}

#[test]
fn readme_theme_colors() {
    let cfg = ThemeConfig {
        border: "#b48cff".to_string(),
        header: "#B48CFF".to_string(),
        highlight_bg: "  #463764\n".to_string(),
        highlight_fg: "ffffff".to_string(),
    };
    let theme = Theme::from_config(&cfg);
    assert_eq!(theme.border, Color::Rgb(0xb4, 0x8c, 0xff));
    assert_eq!(theme.header, Color::Rgb(0xb4, 0x8c, 0xff));
    assert_eq!(theme.highlight_bg, Color::Rgb(0x46, 0x37, 0x64));
    assert_eq!(theme.highlight_fg, Color::Rgb(0xff, 0xff, 0xff));
}

#[test]
fn every_leading_hash_is_stripped() {
    assert_eq!(parse_hex_color("##102030"), Color::Rgb(0x10, 0x20, 0x30));
    assert_eq!(color_text(" \t###abc "), "abc");
}

#[test]
fn invalid_colors_fall_back_to_white() {
    assert_eq!(parse_hex_color(""), Color::White);
    assert_eq!(parse_hex_color("#ab"), Color::White);
    assert_eq!(parse_hex_color("#aé1234"), Color::White);
    assert_eq!(parse_hex_color("#gggggg"), Color::White);
    assert_eq!(parse_hex_color("#1234567"), Color::White);
    assert_eq!(parse_hex_color("#12 456"), Color::White);
    assert_eq!(parse_hex_color("#-1-1-1"), Color::White);
}

#[test]
fn plus_signs_are_not_hex_digits() {
    assert_eq!(parse_hex_color("#+f+f+f"), Color::White);
    assert_eq!(parse_hex_digits("+a0b+c"), None);
    assert_eq!(parse_hex_digits("++0000"), None);
    assert_eq!(color_warning("#+f+f+f"), Some("+f+f+f".to_string()));
}

#[test]
fn unicode_whitespace_is_trimmed() {
    assert_eq!(parse_hex_color("\u{3000}#112233\u{2028}"), Color::Rgb(0x11, 0x22, 0x33));
    assert_eq!(parse_hex_color("\u{a0}\t#aabbcc\u{85}"), Color::Rgb(0xaa, 0xbb, 0xcc));
    assert_eq!(parse_hex_color("\u{200b}#112233"), Color::White);
}

#[test]
fn warnings_name_the_setting_that_did_not_read() {
    assert_eq!(color_warning("  #zz0000 "), Some("zz0000".to_string()));
    assert_eq!(color_warning("#00ff00"), None);
    assert_eq!(color_warning(""), Some(String::new()));
}

#[test]
fn config_path_from_the_command_line() {
    assert_eq!(config_path(s("-h"), None, None), CliRequest::Help);
    assert_eq!(config_path(s("--help"), s("/x"), s("/h")), CliRequest::Help);
    assert_eq!(config_path(s("-v"), None, None), CliRequest::Version);
    assert_eq!(config_path(s("--version"), None, None), CliRequest::Version);
    assert_eq!(path(config_path(s("~/dotfiles/commands.toml"), s("/x"), s("/h"))), "~/dotfiles/commands.toml");
}

#[test]
fn config_path_from_the_environment() {
    assert_eq!(path(config_path(None, s("/home/u/.cfg"), s("/home/u"))), "/home/u/.cfg/sfav/config.toml");
    assert_eq!(path(config_path(None, s(""), s("/home/u"))), "/home/u/.config/sfav/config.toml");
    assert_eq!(path(config_path(None, None, s("/home/u"))), "/home/u/.config/sfav/config.toml");
    assert_eq!(path(config_path(None, None, None)), "./.config/sfav/config.toml");
}

#[test]
fn pause_only_after_a_failure() {
    assert!(!needs_pause(Some(true)));
    assert!(needs_pause(Some(false)));
    assert!(needs_pause(None));
}

#[test]
fn shell_defaults_to_bin_sh() {
    assert_eq!(shell_program(s("/bin/zsh")), "/bin/zsh");
    assert_eq!(shell_program(None), "/bin/sh");
}

#[test]
fn substring_search() {
    let hay = chars_of("docker compose up");
    assert!(occurs(&chars_of(""), &hay));
    assert!(occurs(&chars_of("compose"), &hay));
    assert!(occurs(&chars_of("up"), &hay));
    assert!(occurs(&chars_of("docker compose up"), &hay));
    assert!(!occurs(&chars_of("composeup"), &hay));
    assert!(!occurs(&chars_of("docker compose up!"), &hay));
    assert!(occurs(&chars_of(""), &chars_of("")));
    assert_eq!(chars_of("aé"), vec!['a', 'é']);
}

#[test]
fn line_breaks_become_semicolons() {
    assert_eq!(flatten_lines("a\nb\n"), "a; b; ");
    assert_eq!(flatten_lines("plain"), "plain");
    assert_eq!(flatten_lines(""), "");
}

fn entry(name: &str, command: &str, notes: &str) -> Entry {
    Entry { name: name.to_string(), command: command.to_string(), notes: notes.to_string() }
}

fn sample_app() -> App {
    let entries = vec![
        entry("two\nlines", "echo a\necho b", "some notes"),
        entry("plain", "ls", ""),
    ];
    App::new(entries, Theme::from_config(&ThemeConfig::default()))
}

#[test]
fn table_rows_show_name_and_command_on_one_line() {
    let mut app = sample_app();
    let rows = table_rows(&app);
    assert_eq!(rows, vec![
        ("two; lines".to_string(), "echo a; echo b".to_string()),
        ("plain".to_string(), "ls".to_string()),
    ]);
    app.filter = "ls".to_string();
    app.apply_filter();
    assert_eq!(table_rows(&app), vec![("plain".to_string(), "ls".to_string())]);
}

#[test]
fn notes_popup_text() {
    let mut app = sample_app();
    assert_eq!(notes_popup(&app), None);
    app.show_notes = true;
    assert_eq!(
        notes_popup(&app),
        Some((" two\nlines ".to_string(), "some notes\n\n(Esc or tab to close)".to_string()))
    );
    app.selected = Some(1);
    assert_eq!(notes_popup(&app), Some((" plain ".to_string(), "(no notes)\n\n(Esc or tab to close)".to_string())));
    app.selected = Some(9);
    assert_eq!(notes_popup(&app), None);
}

#[test]
fn centered_rect_takes_the_middle_share() {
    let area = Rect { x: 0, y: 0, width: 100, height: 50 };
    assert_eq!(centered_rect(60, 40, area), Rect { x: 20, y: 15, width: 60, height: 20 });
    let offset = Rect { x: 10, y: 5, width: 100, height: 50 };
    assert_eq!(centered_rect(100, 100, offset), offset);
}

#[test]
fn every_written_hex_color_reads_back() {
    for r in [0u8, 1, 9, 10, 15, 16, 127, 160, 255] {
        for g in [0u8, 42, 171, 255] {
            for b in [0u8, 99, 200, 254] {
                let lower = format!("#{:02x}{:02x}{:02x}", r, g, b);
                let upper = format!("#{:02X}{:02X}{:02X}", r, g, b);
                assert_eq!(parse_hex_color(&lower), Color::Rgb(r, g, b));
                assert_eq!(parse_hex_color(&upper), Color::Rgb(r, g, b));
            }
        }
    }
}

#[test]
fn refiltering_twice_changes_nothing_more() {
    let mut app = sample_app();
    app.selected = Some(7);
    app.filter = "L".to_string();
    app.apply_filter();
    let filtered = app.filtered.clone();
    let selected = app.selected;
    app.apply_filter();
    assert_eq!(app.filtered, filtered);
    assert_eq!(app.selected, selected);
}

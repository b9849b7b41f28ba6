use lmdb_tui::config::{
    default_bg, default_down, default_fg, default_help, default_query, default_quit, default_up,
    parse_color, parse_key, Color, Config, Key, RawConfig, RawKeyBindings, RawTheme, Theme,
};

#[test]
fn defaults_when_missing() {
    let cfg = Config::default();
    assert_eq!(cfg.keybindings.quit, Key::Char('q'));
    assert_eq!(cfg.keybindings.up, Key::Up);
    assert_eq!(cfg.keybindings.down, Key::Down);
    assert_eq!(cfg.keybindings.help, Key::Char('?'));
    assert_eq!(cfg.keybindings.query, Key::Char('/'));
    assert_eq!(cfg.theme.name, "Dark");
}

fn raw(quit: &str, up: &str, down: &str, fg: &str, bg: &str) -> RawConfig {
    RawConfig {
        keybindings: RawKeyBindings {
            quit: quit.into(),
            up: up.into(),
            down: down.into(),
            help: default_help(),
            query: default_query(),
        },
        theme: RawTheme { selected_fg: fg.into(), selected_bg: bg.into() },
    }
}

#[test]
fn parses_custom_file() {
    let cfg = Config::from_raw(&raw("x", "k", "j", "White", "Blue"));
    assert_eq!(cfg.keybindings.quit, Key::Char('x'));
    assert_eq!(cfg.keybindings.up, Key::Char('k'));
    assert_eq!(cfg.keybindings.down, Key::Char('j'));
    assert_eq!(cfg.keybindings.help, Key::Char('?'));
    assert_eq!(cfg.theme.selected_fg, Color::White);
    assert_eq!(cfg.theme.selected_bg, Color::Blue);
    assert_eq!(cfg.theme.name, "Dark");
    assert_eq!(cfg.theme.border, Color::Gray);
}

#[test]
fn file_of_defaults_is_the_default_configuration() {
    let cfg = Config::from_raw(&raw(&default_quit(), &default_up(), &default_down(), &default_fg(), &default_bg()));
    let std = Config::default();
    assert_eq!(cfg.keybindings.quit, std.keybindings.quit);
    assert_eq!(cfg.keybindings.up, std.keybindings.up);
    assert_eq!(cfg.keybindings.down, std.keybindings.down);
    assert_eq!(cfg.keybindings.help, std.keybindings.help);
    assert_eq!(cfg.keybindings.query, std.keybindings.query);
    assert_eq!(cfg.theme.selected_fg, std.theme.selected_fg);
    assert_eq!(cfg.theme.selected_bg, std.theme.selected_bg);
}

#[test]
fn parse_key_supports_special_keys() {
    assert_eq!(parse_key("enter"), Key::Enter);
    assert_eq!(parse_key("Enter"), Key::Enter);
    assert_eq!(parse_key("ENTER"), Key::Enter);
    assert_eq!(parse_key("space"), Key::Char(' '));
    assert_eq!(parse_key("esc"), Key::Esc);
    assert_eq!(parse_key("escape"), Key::Esc);
    assert_eq!(parse_key("pageup"), Key::PageUp);
    assert_eq!(parse_key("pagedown"), Key::PageDown);
    assert_eq!(parse_key("invalid"), Key::Null);
}

#[test]
fn parse_key_of_the_other_names() {
    assert_eq!(parse_key("Up"), Key::Up);
    assert_eq!(parse_key("down"), Key::Down);
    assert_eq!(parse_key("LEFT"), Key::Left);
    assert_eq!(parse_key("right"), Key::Right);
    assert_eq!(parse_key("Tab"), Key::Tab);
    assert_eq!(parse_key("backspace"), Key::Backspace);
    assert_eq!(parse_key("delete"), Key::Delete);
    assert_eq!(parse_key("home"), Key::Home);
    assert_eq!(parse_key("end"), Key::End);
    assert_eq!(parse_key("Q"), Key::Char('q'));
    assert_eq!(parse_key("?"), Key::Char('?'));
    assert_eq!(parse_key(" "), Key::Char(' '));
    assert_eq!(parse_key(""), Key::Null);
    assert_eq!(parse_key("é"), Key::Null);
    assert_eq!(parse_key("ab"), Key::Null);
}

#[test]
fn parse_color_supports_common_colors() {
    assert_eq!(parse_color("red"), Color::Red);
    assert_eq!(parse_color("RED"), Color::Red);
    assert_eq!(parse_color("Red"), Color::Red);
    assert_eq!(parse_color("gray"), Color::Gray);
    assert_eq!(parse_color("grey"), Color::Gray);
    assert_eq!(parse_color("reset"), Color::Reset);
    assert_eq!(parse_color("invalid"), Color::Reset);
}

#[test]
fn parse_color_of_the_other_names() {
    assert_eq!(parse_color("black"), Color::Black);
    assert_eq!(parse_color("Green"), Color::Green);
    assert_eq!(parse_color("yellow"), Color::Yellow);
    assert_eq!(parse_color("BLUE"), Color::Blue);
    assert_eq!(parse_color("magenta"), Color::Magenta);
    assert_eq!(parse_color("cyan"), Color::Cyan);
    assert_eq!(parse_color("white"), Color::White);
    assert_eq!(parse_color("darkgray"), Color::Reset);
    assert_eq!(parse_color(""), Color::Reset);
}

#[test]
fn themes_cycle() {
    let dark = Theme::default();
    assert_eq!(dark.name, "Dark");
    assert_eq!((dark.selected_fg, dark.selected_bg), (Color::Black, Color::Yellow));
    let light = dark.next();
    assert_eq!(light.name, "Light");
    assert_eq!((light.background, light.foreground), (Color::White, Color::Black));
    let high = light.next();
    assert_eq!(high.name, "High Contrast");
    assert_eq!((high.border, high.highlight), (Color::White, Color::Yellow));
    assert_eq!(high.next().name, "Dark");
    let mut own = Theme::light();
    own.name = "Mine".into();
    assert_eq!(own.next().name, "Dark");
    assert_eq!(Theme::high_contrast().dim, Color::Gray);
}

//! The configuration of the explorer: key bindings and themes, and how
//! their names are read.

use vstd::prelude::*;
use vstd::string::*;
use vstd::utf8::encode_utf8;
use crate::db::env::same_text;
use crate::trusted::{lowercase, to_lowercase};

verus! {

/// A key of the keyboard, as far as bindings and views name keys.
#[derive(Copy, Clone, Debug, PartialEq, Eq, Structural)]
pub enum Key {
    Up,
    Down,
    Left,
    Right,
    Enter,
    Tab,
    Backspace,
    Delete,
    Esc,
    Home,
    End,
    PageUp,
    PageDown,
    /// A function key, by its number.
    F(u8),
    /// The key of a character.
    Char(char),
    /// No key: what an unknown name stands for.
    Null,
}

/// A colour of the terminal, as far as themes name colours.
#[derive(Copy, Clone, Debug, PartialEq, Eq)]
pub enum Color {
    Black,
    Red,
    Green,
    Yellow,
    Blue,
    Magenta,
    Cyan,
    White,
    Gray,
    DarkGray,
    /// The terminal's own colour: what an unknown name stands for.
    Reset,
}

/// The key that a name in lower case stands for: a key by its name, `space`
/// for the space bar, and a text of one byte for the key of that character.
pub open spec fn key_named(name: Seq<char>) -> Key {
    if name == "up"@ {
        Key::Up
    } else if name == "down"@ {
        Key::Down
    } else if name == "left"@ {
        Key::Left
    } else if name == "right"@ {
        Key::Right
    } else if name == "enter"@ {
        Key::Enter
    } else if name == "space"@ {
        Key::Char(' ')
    } else if name == "tab"@ {
        Key::Tab
    } else if name == "backspace"@ {
        Key::Backspace
    } else if name == "delete"@ {
        Key::Delete
    } else if name == "esc"@ || name == "escape"@ {
        Key::Esc
    } else if name == "home"@ {
        Key::Home
    } else if name == "end"@ {
        Key::End
    } else if name == "pageup"@ {
        Key::PageUp
    } else if name == "pagedown"@ {
        Key::PageDown
    } else if encode_utf8(name).len() == 1 {
        Key::Char(name[0])
    } else {
        Key::Null
    }
}

/// The colour that a name in lower case stands for.
pub open spec fn color_named(name: Seq<char>) -> Color {
    if name == "black"@ {
        Color::Black
    } else if name == "red"@ {
        Color::Red
    } else if name == "green"@ {
        Color::Green
    } else if name == "yellow"@ {
        Color::Yellow
    } else if name == "blue"@ {
        Color::Blue
    } else if name == "magenta"@ {
        Color::Magenta
    } else if name == "cyan"@ {
        Color::Cyan
    } else if name == "white"@ {
        Color::White
    } else if name == "gray"@ || name == "grey"@ {
        Color::Gray
    } else {
        Color::Reset
    }
}

/// Reads the name of a key, without regard to case. An unknown name is no
/// key.
pub fn parse_key(name: &str) -> (key: Key)
    ensures
        key == key_named(lowercase(name@)),
{
    let lower = to_lowercase(name);
    let text = lower.as_str();
    if same_text(text, "up") {
        Key::Up
    } else if same_text(text, "down") {
        Key::Down
    } else if same_text(text, "left") {
        Key::Left
    } else if same_text(text, "right") {
        Key::Right
    } else if same_text(text, "enter") {
        Key::Enter
    } else if same_text(text, "space") {
        Key::Char(' ')
    } else if same_text(text, "tab") {
        Key::Tab
    } else if same_text(text, "backspace") {
        Key::Backspace
    } else if same_text(text, "delete") {
        Key::Delete
    } else if same_text(text, "esc") || same_text(text, "escape") {
        Key::Esc
    } else if same_text(text, "home") {
        Key::Home
    } else if same_text(text, "end") {
        Key::End
    } else if same_text(text, "pageup") {
        Key::PageUp
    } else if same_text(text, "pagedown") {
        Key::PageDown
    } else if text.as_bytes().len() == 1 {
        proof {
            if text@.len() == 0 {
                reveal_with_fuel(encode_utf8, 1);
                assert(encode_utf8(text@).len() == 0);
            }
        }
        Key::Char(text.get_char(0))
    } else {
        Key::Null
    }
}

/// Reads the name of a colour, without regard to case. An unknown name is
/// the terminal's own colour.
pub fn parse_color(name: &str) -> (color: Color)
    ensures
        color == color_named(lowercase(name@)),
{
    let lower = to_lowercase(name);
    let text = lower.as_str();
    if same_text(text, "black") {
        Color::Black
    } else if same_text(text, "red") {
        Color::Red
    } else if same_text(text, "green") {
        Color::Green
    } else if same_text(text, "yellow") {
        Color::Yellow
    } else if same_text(text, "blue") {
        Color::Blue
    } else if same_text(text, "magenta") {
        Color::Magenta
    } else if same_text(text, "cyan") {
        Color::Cyan
    } else if same_text(text, "white") {
        Color::White
    } else if same_text(text, "gray") || same_text(text, "grey") {
        Color::Gray
    } else {
        Color::Reset
    }
}

/// The keys that the explorer is steered with.
#[derive(Debug)]
pub struct KeyBindings {
    pub quit: Key,
    pub up: Key,
    pub down: Key,
    pub help: Key,
    pub query: Key,
}

impl Default for KeyBindings {
    fn default() -> (r: Self)
        ensures
            r.quit == Key::Char('q'),
            r.up == Key::Up,
            r.down == Key::Down,
            r.help == Key::Char('?'),
            r.query == Key::Char('/'),
    {
        KeyBindings {
            quit: Key::Char('q'),
            up: Key::Up,
            down: Key::Down,
            help: Key::Char('?'),
            query: Key::Char('/'),
        }
    }
}

/// The colours of the explorer.
#[derive(Debug, Clone)]
pub struct Theme {
    pub name: String,
    pub selected_fg: Color,
    pub selected_bg: Color,
    pub background: Color,
    pub foreground: Color,
    pub border: Color,
    pub highlight: Color,
    pub dim: Color,
}

/// A theme as a mathematical value.
pub struct ThemeView {
    pub name: Seq<char>,
    pub selected_fg: Color,
    pub selected_bg: Color,
    pub background: Color,
    pub foreground: Color,
    pub border: Color,
    pub highlight: Color,
    pub dim: Color,
}

impl View for Theme {
    type V = ThemeView;

    open spec fn view(&self) -> ThemeView {
        ThemeView {
            name: self.name@,
            selected_fg: self.selected_fg,
            selected_bg: self.selected_bg,
            background: self.background,
            foreground: self.foreground,
            border: self.border,
            highlight: self.highlight,
            dim: self.dim,
        }
    }
}

/// The dark theme.
pub open spec fn dark_theme() -> ThemeView {
    ThemeView {
        name: "Dark"@,
        selected_fg: Color::Black,
        selected_bg: Color::Yellow,
        background: Color::Black,
        foreground: Color::White,
        border: Color::Gray,
        highlight: Color::Cyan,
        dim: Color::DarkGray,
    }
}

/// The light theme.
pub open spec fn light_theme() -> ThemeView {
    ThemeView {
        name: "Light"@,
        selected_fg: Color::White,
        selected_bg: Color::Blue,
        background: Color::White,
        foreground: Color::Black,
        border: Color::DarkGray,
        highlight: Color::Blue,
        dim: Color::Gray,
    }
}

/// The theme of high contrast.
pub open spec fn high_contrast_theme() -> ThemeView {
    ThemeView {
        name: "High Contrast"@,
        selected_fg: Color::Black,
        selected_bg: Color::White,
        background: Color::Black,
        foreground: Color::White,
        border: Color::White,
        highlight: Color::Yellow,
        dim: Color::Gray,
    }
}

impl Theme {
    /// The dark theme.
    pub fn dark() -> (r: Self)
        ensures
            r@ == dark_theme(),
    {
        Theme {
            name: "Dark".to_owned(),
            selected_fg: Color::Black,
            selected_bg: Color::Yellow,
            background: Color::Black,
            foreground: Color::White,
            border: Color::Gray,
            highlight: Color::Cyan,
            dim: Color::DarkGray,
        }
    }

    /// The light theme.
    pub fn light() -> (r: Self)
        ensures
            r@ == light_theme(),
    {
        Theme {
            name: "Light".to_owned(),
            selected_fg: Color::White,
            selected_bg: Color::Blue,
            background: Color::White,
            foreground: Color::Black,
            border: Color::DarkGray,
            highlight: Color::Blue,
            dim: Color::Gray,
        }
    }

    /// The theme of high contrast.
    pub fn high_contrast() -> (r: Self)
        ensures
            r@ == high_contrast_theme(),
    {
        Theme {
            name: "High Contrast".to_owned(),
            selected_fg: Color::Black,
            selected_bg: Color::White,
            background: Color::Black,
            foreground: Color::White,
            border: Color::White,
            highlight: Color::Yellow,
            dim: Color::Gray,
        }
    }

    /// The theme that follows this one when themes are cycled: dark, light,
    /// high contrast, and dark again. A theme of another name is followed
    /// by the dark one.
    pub fn next(&self) -> (r: Self)
        ensures
            r@ == if self.name@ == "Dark"@ {
                light_theme()
            } else if self.name@ == "Light"@ {
                high_contrast_theme()
            } else {
                dark_theme()
            },
    {
        if same_text(self.name.as_str(), "Dark") {
            Theme::light()
        } else if same_text(self.name.as_str(), "Light") {
            Theme::high_contrast()
        } else {
            Theme::dark()
        }
    }
}

impl Default for Theme {
    fn default() -> (r: Self)
        ensures
            r@ == dark_theme(),
    {
        Theme::dark()
    }
}

/// The configuration of the explorer.
#[derive(Debug)]
pub struct Config {
    pub keybindings: KeyBindings,
    pub theme: Theme,
}

impl Default for Config {
    fn default() -> (r: Self)
        ensures
            r.theme@ == dark_theme(),
            r.keybindings.quit == Key::Char('q'),
            r.keybindings.up == Key::Up,
            r.keybindings.down == Key::Down,
            r.keybindings.help == Key::Char('?'),
            r.keybindings.query == Key::Char('/'),
    {
        Config { keybindings: KeyBindings::default(), theme: Theme::default() }
    }
}

/// The key bindings of a configuration file, as written.
#[derive(Debug)]
pub struct RawKeyBindings {
    pub quit: String,
    pub up: String,
    pub down: String,
    pub help: String,
    pub query: String,
}

/// The theme of a configuration file, as written.
#[derive(Debug)]
pub struct RawTheme {
    pub selected_fg: String,
    pub selected_bg: String,
}

/// A configuration file, as written.
#[derive(Debug)]
pub struct RawConfig {
    pub keybindings: RawKeyBindings,
    pub theme: RawTheme,
}

/// The name of the quit key where the file names none.
pub fn default_quit() -> (r: String)
    ensures
        r@ == "q"@,
{
    "q".to_owned()
}

/// The name of the up key where the file names none.
pub fn default_up() -> (r: String)
    ensures
        r@ == "Up"@,
{
    "Up".to_owned()
}

/// The name of the down key where the file names none.
pub fn default_down() -> (r: String)
    ensures
        r@ == "Down"@,
{
    "Down".to_owned()
}

/// The name of the help key where the file names none.
pub fn default_help() -> (r: String)
    ensures
        r@ == "?"@,
{
    "?".to_owned()
}

/// The name of the query key where the file names none.
pub fn default_query() -> (r: String)
    ensures
        r@ == "/"@,
{
    "/".to_owned()
}

/// The name of the colour of selected text where the file names none.
pub fn default_fg() -> (r: String)
    ensures
        r@ == "Black"@,
{
    "Black".to_owned()
}

/// The name of the colour behind selected text where the file names none.
pub fn default_bg() -> (r: String)
    ensures
        r@ == "Yellow"@,
{
    "Yellow".to_owned()
}

impl Config {
    /// The configuration that a file spells: its keys by their names, and
    /// the dark theme with the file's two colours of selected text.
    pub fn from_raw(raw: &RawConfig) -> (r: Self)
        ensures
            r.keybindings.quit == key_named(lowercase(raw.keybindings.quit@)),
            r.keybindings.up == key_named(lowercase(raw.keybindings.up@)),
            r.keybindings.down == key_named(lowercase(raw.keybindings.down@)),
            r.keybindings.help == key_named(lowercase(raw.keybindings.help@)),
            r.keybindings.query == key_named(lowercase(raw.keybindings.query@)),
            r.theme@ == (ThemeView {
                selected_fg: color_named(lowercase(raw.theme.selected_fg@)),
                selected_bg: color_named(lowercase(raw.theme.selected_bg@)),
                ..dark_theme()
            }),
    {
        let mut theme = Theme::dark();
        theme.selected_fg = parse_color(raw.theme.selected_fg.as_str());
        theme.selected_bg = parse_color(raw.theme.selected_bg.as_str());
        Config {
            keybindings: KeyBindings {
                quit: parse_key(raw.keybindings.quit.as_str()),
                up: parse_key(raw.keybindings.up.as_str()),
                down: parse_key(raw.keybindings.down.as_str()),
                help: parse_key(raw.keybindings.help.as_str()),
                query: parse_key(raw.keybindings.query.as_str()),
            },
            theme,
        }
    }
}

} // verus!

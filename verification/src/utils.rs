//! Small helpers around the configuration: the display colour of a tab and
//! the default for its `enabled` flag.

use vstd::prelude::*;

verus! {

/// A display colour for a tab's output pane. The configuration names the
/// colour as text; `color_from_str` maps the text onto this closed set,
/// falling back to [`Color::Yellow`] for an absent or unrecognised name.
#[derive(Clone, Copy, Debug, PartialEq, Eq, Structural)]
pub enum Color {
    Black,
    Red,
    Green,
    Blue,
    Magenta,
    Cyan,
    Gray,
    DarkGray,
    LightRed,
    LightGreen,
    LightYellow,
    LightBlue,
    LightMagenta,
    LightCyan,
    White,
    Yellow,
}

/// The colour that a configured colour name denotes; `None` and unknown
/// names denote the default highlight colour.
pub open spec fn color_of(name: Option<Seq<char>>) -> Color {
    match name {
        Option::Some(s) => if s == "black"@ {
            Color::Black
        } else if s == "red"@ {
            Color::Red
        } else if s == "green"@ {
            Color::Green
        } else if s == "blue"@ {
            Color::Blue
        } else if s == "magenta"@ {
            Color::Magenta
        } else if s == "cyan"@ {
            Color::Cyan
        } else if s == "gray"@ {
            Color::Gray
        } else if s == "darkgray"@ {
            Color::DarkGray
        } else if s == "lightred"@ {
            Color::LightRed
        } else if s == "lightgreen"@ {
            Color::LightGreen
        } else if s == "lightyellow"@ {
            Color::LightYellow
        } else if s == "lightblue"@ {
            Color::LightBlue
        } else if s == "lightmagenta"@ {
            Color::LightMagenta
        } else if s == "lightcyan"@ {
            Color::LightCyan
        } else if s == "white"@ {
            Color::White
        } else {
            Color::Yellow
        },
        Option::None => Color::Yellow,
    }
}

/// The view of an optional colour name.
pub open spec fn opt_name_view(name: Option<String>) -> Option<Seq<char>> {
    match name {
        Option::Some(s) => Option::Some(s@),
        Option::None => Option::None,
    }
}

/// Maps a configured colour name onto its [`Color`], with the default
/// highlight colour for an absent or unrecognised name.
pub fn color_from_str(color: &Option<String>) -> (r: Color)
    ensures
        r == color_of(opt_name_view(*color)),
{
    match color {
        Option::Some(value) => {
            if value.eq(&String::from_str("black")) {
                Color::Black
            } else if value.eq(&String::from_str("red")) {
                Color::Red
            } else if value.eq(&String::from_str("green")) {
                Color::Green
            } else if value.eq(&String::from_str("blue")) {
                Color::Blue
            } else if value.eq(&String::from_str("magenta")) {
                Color::Magenta
            } else if value.eq(&String::from_str("cyan")) {
                Color::Cyan
            } else if value.eq(&String::from_str("gray")) {
                Color::Gray
            } else if value.eq(&String::from_str("darkgray")) {
                Color::DarkGray
            } else if value.eq(&String::from_str("lightred")) {
                Color::LightRed
            } else if value.eq(&String::from_str("lightgreen")) {
                Color::LightGreen
            } else if value.eq(&String::from_str("lightyellow")) {
                Color::LightYellow
            } else if value.eq(&String::from_str("lightblue")) {
                Color::LightBlue
            } else if value.eq(&String::from_str("lightmagenta")) {
                Color::LightMagenta
            } else if value.eq(&String::from_str("lightcyan")) {
                Color::LightCyan
            } else if value.eq(&String::from_str("white")) {
                Color::White
            } else {
                Color::Yellow
            }
        },
        Option::None => Color::Yellow,
    }
}

/// The default of a tab's `enabled` flag: a tab is enabled unless the
/// configuration says otherwise.
pub fn default_true() -> (r: bool)
    ensures
        r,
{
    true
}

} // verus!

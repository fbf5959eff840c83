use daily_dashboard::utils::{color_from_str, default_true, Color};

#[test]
fn color_from_str_maps_every_known_name() {
    let cases = [
        ("black", Color::Black),
        ("red", Color::Red),
        ("green", Color::Green),
        ("blue", Color::Blue),
        ("magenta", Color::Magenta),
        ("cyan", Color::Cyan),
        ("gray", Color::Gray),
        ("darkgray", Color::DarkGray),
        ("lightred", Color::LightRed),
        ("lightgreen", Color::LightGreen),
        ("lightyellow", Color::LightYellow),
        ("lightblue", Color::LightBlue),
        ("lightmagenta", Color::LightMagenta),
        ("lightcyan", Color::LightCyan),
        ("white", Color::White),
    ];
    for (name, expected) in cases {
        assert_eq!(color_from_str(&Some(name.to_string())), expected);
    }
}

#[test]
fn color_from_str_defaults_to_yellow() {
    assert_eq!(color_from_str(&None), Color::Yellow);
    assert_eq!(color_from_str(&Some("purple".to_string())), Color::Yellow);
    assert_eq!(color_from_str(&Some("Black".to_string())), Color::Yellow);
    assert_eq!(color_from_str(&Some("".to_string())), Color::Yellow);
}

#[test]
fn default_true_is_true() {
    assert!(default_true());
}

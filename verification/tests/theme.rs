use grit::style::{Color, Style};
use grit::theme::{Theme, ThemeId};

#[test]
fn from_name_knows_the_themes() {
    let d = Theme::from_name("default").unwrap();
    assert_eq!(d.id, ThemeId::Default);
    assert_eq!(d.name(), "default");
    assert_eq!(d.diff_added, Color::Green);
    assert_eq!(d.diff_unmatched, Color::Magenta);
    let a = Theme::from_name("autumn").unwrap();
    assert_eq!(a.name(), "autumn");
    assert_eq!(a.diff_added, Color::Rgb(0x99, 0xBE, 0x70));
    assert_eq!(a.diff_deleted, Color::Rgb(0xF0, 0x5E, 0x48));
    assert_eq!(a.diff_unmatched, Color::Rgb(0xBD, 0x82, 0xD7));
    assert_eq!(a.status_added, Style::default().fg(Color::Rgb(0x99, 0xBE, 0x70)));
}

#[test]
fn unknown_theme_is_an_error() {
    let e = Theme::from_name("solarized").unwrap_err();
    assert_eq!(e.name, "solarized");
    assert_eq!(e.message(), "unknown theme 'solarized' \u{2014} available: default, autumn");
    assert!(Theme::from_name("Default").is_err());
}

#[test]
fn next_cycles() {
    let d = Theme::default_theme();
    assert_eq!(d.next(), Theme::autumn());
    assert_eq!(d.next().next(), d);
}

//! Colour themes for the interface and for the diff preview.
use crate::chars::{push_str, str_eq, string_of};
use crate::style;
use crate::style::{Color, Modifier, Style};
use vstd::prelude::*;

verus! {

/// The available themes, in the order `next` cycles through them.
#[derive(Clone, Copy, Debug, PartialEq, Eq, Structural)]
pub enum ThemeId {
    Default,
    Autumn,
}

/// The colours and styles of every part of the interface.
#[derive(Clone, Copy, Debug, PartialEq, Eq, Structural)]
pub struct Theme {
    pub id: ThemeId,
    pub background: Color,
    pub title_bar: Style,
    pub list_highlight: Style,
    pub status_added: Style,
    pub status_deleted: Style,
    pub status_modified: Style,
    pub status_moved: Style,
    pub count_positive: Color,
    pub count_negative: Color,
    pub count_positive_bg: Color,
    pub count_negative_bg: Color,
    pub divider: Style,
    pub footer: Style,
    pub footer_notification: Style,
    /// What diff output's green is shown as.
    pub diff_added: Color,
    /// What diff output's red is shown as.
    pub diff_deleted: Color,
    /// What diff output's magenta (text the diff tool could not place) is shown as.
    pub diff_unmatched: Color,
}

pub open spec fn spec_name(id: ThemeId) -> Seq<char> {
    match id {
        ThemeId::Default => "default"@,
        ThemeId::Autumn => "autumn"@,
    }
}

pub open spec fn spec_default_theme() -> Theme {
    let p = style::plain();
    Theme {
        id: ThemeId::Default,
        background: Color::Reset,
        title_bar: p.spec_bg(Color::DarkGray).spec_fg(Color::White),
        list_highlight: p.spec_bg(Color::Blue).spec_fg(Color::White).spec_add_modifier(
            Modifier::Bold,
        ),
        status_added: p.spec_fg(Color::Green),
        status_deleted: p.spec_fg(Color::Red),
        status_modified: p.spec_fg(Color::Yellow),
        status_moved: p.spec_fg(Color::Cyan),
        count_positive: Color::Green,
        count_negative: Color::Red,
        count_positive_bg: Color::Rgb(0, 80, 0),
        count_negative_bg: Color::Rgb(80, 0, 0),
        divider: p.spec_fg(Color::DarkGray),
        footer: p.spec_bg(Color::DarkGray).spec_fg(Color::Gray),
        footer_notification: p.spec_bg(Color::DarkGray).spec_fg(Color::Yellow),
        diff_added: Color::Green,
        diff_deleted: Color::Red,
        diff_unmatched: Color::Magenta,
    }
}

pub open spec fn spec_autumn() -> Theme {
    let p = style::plain();
    Theme {
        id: ThemeId::Autumn,
        background: Color::Rgb(0x21, 0x21, 0x21),
        title_bar: p.spec_bg(Color::Rgb(0x40, 0x40, 0x40)).spec_fg(Color::Rgb(0xF3, 0xF2, 0xCC)),
        list_highlight: p.spec_bg(Color::Rgb(0x50, 0x50, 0x50)).spec_fg(
            Color::Rgb(0xF3, 0xF2, 0xCC),
        ).spec_add_modifier(Modifier::Bold),
        status_added: p.spec_fg(Color::Rgb(0x99, 0xBE, 0x70)),
        status_deleted: p.spec_fg(Color::Rgb(0xF0, 0x5E, 0x48)),
        status_modified: p.spec_fg(Color::Rgb(0xFA, 0xD5, 0x66)),
        status_moved: p.spec_fg(Color::Rgb(0x86, 0xC1, 0xB9)),
        count_positive: Color::Rgb(0x99, 0xBE, 0x70),
        count_negative: Color::Rgb(0xF0, 0x5E, 0x48),
        count_positive_bg: Color::Rgb(0x2A, 0x3D, 0x1E),
        count_negative_bg: Color::Rgb(0x4A, 0x18, 0x10),
        divider: p.spec_fg(Color::Rgb(0x64, 0x6F, 0x69)),
        footer: p.spec_bg(Color::Rgb(0x21, 0x21, 0x21)).spec_fg(Color::Rgb(0xA8, 0xA8, 0xA8)),
        footer_notification: p.spec_bg(Color::Rgb(0x21, 0x21, 0x21)).spec_fg(
            Color::Rgb(0xFA, 0xD5, 0x66),
        ),
        diff_added: Color::Rgb(0x99, 0xBE, 0x70),
        diff_deleted: Color::Rgb(0xF0, 0x5E, 0x48),
        diff_unmatched: Color::Rgb(0xBD, 0x82, 0xD7),
    }
}

pub open spec fn spec_theme(id: ThemeId) -> Theme {
    match id {
        ThemeId::Default => spec_default_theme(),
        ThemeId::Autumn => spec_autumn(),
    }
}

/// The theme that a name selects.
pub open spec fn spec_from_name(name: Seq<char>) -> Option<Theme> {
    if name == "default"@ {
        Some(spec_default_theme())
    } else if name == "autumn"@ {
        Some(spec_autumn())
    } else {
        None
    }
}

/// The theme after `id`, cycling.
pub open spec fn spec_next_id(id: ThemeId) -> ThemeId {
    match id {
        ThemeId::Default => ThemeId::Autumn,
        ThemeId::Autumn => ThemeId::Default,
    }
}

/// A theme name that is not one of the available themes.
#[derive(Debug)]
pub struct UnknownTheme {
    pub name: String,
}

impl UnknownTheme {
    pub open spec fn spec_message(&self) -> Seq<char> {
        "unknown theme '"@ + self.name@ + "' \u{2014} available: default, autumn"@
    }

    /// The message shown for this error.
    pub fn message(&self) -> (r: String)
        ensures
            r@ == self.spec_message(),
    {
        let mut v: Vec<char> = Vec::new();
        push_str(&mut v, "unknown theme '");
        push_str(&mut v, self.name.as_str());
        push_str(&mut v, "' \u{2014} available: default, autumn");
        string_of(&v)
    }
}

impl Theme {
    /// The theme's name.
    pub fn name(&self) -> (r: &'static str)
        ensures
            r@ == spec_name(self.id),
    {
        match self.id {
            ThemeId::Default => "default",
            ThemeId::Autumn => "autumn",
        }
    }

    /// The theme of the given name.
    pub fn from_name(name: &str) -> (r: Result<Theme, UnknownTheme>)
        ensures
            match spec_from_name(name@) {
                Some(t) => r == Ok::<Theme, UnknownTheme>(t),
                None => r is Err && r->Err_0.name@ == name@,
            },
    {
        if str_eq(name, "default") {
            Ok(Self::default_theme())
        } else if str_eq(name, "autumn") {
            Ok(Self::autumn())
        } else {
            Err(UnknownTheme { name: name.to_owned() })
        }
    }

    /// The next theme, cycling through the available ones.
    pub fn next(&self) -> (r: Theme)
        ensures
            r == spec_theme(spec_next_id(self.id)),
    {
        match self.id {
            ThemeId::Default => Self::autumn(),
            ThemeId::Autumn => Self::default_theme(),
        }
    }

    pub fn default_theme() -> (r: Theme)
        ensures
            r == spec_default_theme(),
    {
        let p = Style::new();
        Theme {
            id: ThemeId::Default,
            background: Color::Reset,
            title_bar: p.bg(Color::DarkGray).fg(Color::White),
            list_highlight: p.bg(Color::Blue).fg(Color::White).add_modifier(Modifier::Bold),
            status_added: p.fg(Color::Green),
            status_deleted: p.fg(Color::Red),
            status_modified: p.fg(Color::Yellow),
            status_moved: p.fg(Color::Cyan),
            count_positive: Color::Green,
            count_negative: Color::Red,
            count_positive_bg: Color::Rgb(0, 80, 0),
            count_negative_bg: Color::Rgb(80, 0, 0),
            divider: p.fg(Color::DarkGray),
            footer: p.bg(Color::DarkGray).fg(Color::Gray),
            footer_notification: p.bg(Color::DarkGray).fg(Color::Yellow),
            diff_added: Color::Green,
            diff_deleted: Color::Red,
            diff_unmatched: Color::Magenta,
        }
    }

    pub fn autumn() -> (r: Theme)
        ensures
            r == spec_autumn(),
    {
        let p = Style::new();
        Theme {
            id: ThemeId::Autumn,
            background: Color::Rgb(0x21, 0x21, 0x21),
            title_bar: p.bg(Color::Rgb(0x40, 0x40, 0x40)).fg(Color::Rgb(0xF3, 0xF2, 0xCC)),
            list_highlight: p.bg(Color::Rgb(0x50, 0x50, 0x50)).fg(
                Color::Rgb(0xF3, 0xF2, 0xCC),
            ).add_modifier(Modifier::Bold),
            status_added: p.fg(Color::Rgb(0x99, 0xBE, 0x70)),
            status_deleted: p.fg(Color::Rgb(0xF0, 0x5E, 0x48)),
            status_modified: p.fg(Color::Rgb(0xFA, 0xD5, 0x66)),
            status_moved: p.fg(Color::Rgb(0x86, 0xC1, 0xB9)),
            count_positive: Color::Rgb(0x99, 0xBE, 0x70),
            count_negative: Color::Rgb(0xF0, 0x5E, 0x48),
            count_positive_bg: Color::Rgb(0x2A, 0x3D, 0x1E),
            count_negative_bg: Color::Rgb(0x4A, 0x18, 0x10),
            divider: p.fg(Color::Rgb(0x64, 0x6F, 0x69)),
            footer: p.bg(Color::Rgb(0x21, 0x21, 0x21)).fg(Color::Rgb(0xA8, 0xA8, 0xA8)),
            footer_notification: p.bg(Color::Rgb(0x21, 0x21, 0x21)).fg(
                Color::Rgb(0xFA, 0xD5, 0x66),
            ),
            diff_added: Color::Rgb(0x99, 0xBE, 0x70),
            diff_deleted: Color::Rgb(0xF0, 0x5E, 0x48),
            diff_unmatched: Color::Rgb(0xBD, 0x82, 0xD7),
        }
    }
}

/// Cycling through the themes comes back to the start after as many steps as
/// there are themes, and each step gives an available theme whose name selects it.
pub proof fn law_theme_cycle(id: ThemeId)
    ensures
        spec_next_id(spec_next_id(id)) == id,
        spec_next_id(id) != id,
        spec_from_name(spec_name(spec_next_id(id))) == Some(spec_theme(spec_next_id(id))),
{
    reveal_strlit("default");
    reveal_strlit("autumn");
    assert("autumn"@.len() != "default"@.len());
}

/// Each theme's own name selects it.
pub proof fn law_name_selects_theme(id: ThemeId)
    ensures
        spec_from_name(spec_name(id)) == Some(spec_theme(id)),
        spec_theme(id).id == id,
{
    reveal_strlit("default");
    reveal_strlit("autumn");
    assert("autumn"@.len() != "default"@.len());
}

} // verus!

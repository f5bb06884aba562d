//! Translation of ANSI SGR escape sequences (the colours and emphasis that a
//! diff tool prints) into styled text, with the diff colours remapped to the
//! active theme.
use crate::chars;
use crate::chars::{copy_range, find_class_from, parse_decimal, split_at_sep, string_of, CharClass};
use crate::style;
use crate::style::{Color, Line, Modifier, Span, Style, Text};
use vstd::prelude::*;
use vstd::utf8::{decode_utf8, valid_utf8};

verus! {

/// What std's `String::from_utf8_lossy` makes of `bytes`.
pub uninterp spec fn utf8_lossy(bytes: Seq<u8>) -> Seq<char>;

/// Decodes `bytes` as UTF-8 with std's `String::from_utf8_lossy`. The contract
/// names the result and states what std documents for valid input: it is
/// decoded unchanged. How invalid sequences become U+FFFD is left to the name.
#[verifier::external_body]
fn decode_lossy(bytes: &[u8]) -> (r: Vec<char>)
    ensures
        r@ == utf8_lossy(bytes@),
        valid_utf8(bytes@) ==> r@ == decode_utf8(bytes@),
{
    String::from_utf8_lossy(bytes).chars().collect()
}

/// The named colour for an SGR colour index 0..=7, normal or bright.
pub open spec fn spec_ansi_color(index: u8, bright: bool) -> Color {
    if !bright {
        if index == 0 {
            Color::Black
        } else if index == 1 {
            Color::Red
        } else if index == 2 {
            Color::Green
        } else if index == 3 {
            Color::Yellow
        } else if index == 4 {
            Color::Blue
        } else if index == 5 {
            Color::Magenta
        } else if index == 6 {
            Color::Cyan
        } else if index == 7 {
            Color::Gray
        } else {
            Color::Reset
        }
    } else {
        if index == 0 {
            Color::DarkGray
        } else if index == 1 {
            Color::LightRed
        } else if index == 2 {
            Color::LightGreen
        } else if index == 3 {
            Color::LightYellow
        } else if index == 4 {
            Color::LightBlue
        } else if index == 5 {
            Color::LightMagenta
        } else if index == 6 {
            Color::LightCyan
        } else if index == 7 {
            Color::White
        } else {
            Color::Reset
        }
    }
}

pub fn ansi_color(index: u8, bright: bool) -> (r: Color)
    ensures
        r == spec_ansi_color(index, bright),
{
    match (index, bright) {
        (0, false) => Color::Black,
        (1, false) => Color::Red,
        (2, false) => Color::Green,
        (3, false) => Color::Yellow,
        (4, false) => Color::Blue,
        (5, false) => Color::Magenta,
        (6, false) => Color::Cyan,
        (7, false) => Color::Gray,
        (0, true) => Color::DarkGray,
        (1, true) => Color::LightRed,
        (2, true) => Color::LightGreen,
        (3, true) => Color::LightYellow,
        (4, true) => Color::LightBlue,
        (5, true) => Color::LightMagenta,
        (6, true) => Color::LightCyan,
        (7, true) => Color::White,
        _ => Color::Reset,
    }
}

/// Green shades become the theme's added colour, red shades its deleted colour,
/// magenta shades its unmatched colour; every other colour is kept.
pub open spec fn spec_remap(color: Color, added: Color, deleted: Color, unmatched: Color) -> Color {
    match color {
        Color::Green | Color::LightGreen => added,
        Color::Red | Color::LightRed => deleted,
        Color::Magenta | Color::LightMagenta => unmatched,
        other => other,
    }
}

pub fn remap(color: Color, added: Color, deleted: Color, unmatched: Color) -> (r: Color)
    ensures
        r == spec_remap(color, added, deleted, unmatched),
{
    match color {
        Color::Green | Color::LightGreen => added,
        Color::Red | Color::LightRed => deleted,
        Color::Magenta | Color::LightMagenta => unmatched,
        other => other,
    }
}

/// The theme colours that diff output is remapped to.
#[derive(Clone, Copy, Debug, PartialEq, Eq, Structural)]
pub struct DiffColors {
    pub added: Color,
    pub deleted: Color,
    pub unmatched: Color,
}

/// One SGR code at `i`, applied to `style`: the new style and the index of the
/// last code it used (a 256-colour or RGB colour uses the codes after it).
pub open spec fn sgr_step(style: Style, codes: Seq<u8>, i: int, cols: DiffColors) -> (Style, int) {
    let c = codes[i];
    let len = codes.len();
    if c == 0 {
        (style::plain(), i)
    } else if c == 1 {
        (style.spec_add_modifier(Modifier::Bold), i)
    } else if c == 2 {
        (style.spec_add_modifier(Modifier::Dim), i)
    } else if c == 3 {
        (style.spec_add_modifier(Modifier::Italic), i)
    } else if c == 4 {
        (style.spec_add_modifier(Modifier::Underlined), i)
    } else if c == 9 {
        (style.spec_add_modifier(Modifier::CrossedOut), i)
    } else if 30 <= c <= 37 {
        (
            style.spec_fg(
                spec_remap(
                    spec_ansi_color((c - 30) as u8, false),
                    cols.added,
                    cols.deleted,
                    cols.unmatched,
                ),
            ),
            i,
        )
    } else if (c == 38 || c == 48) && i + 1 < len && codes[i + 1] == 5 {
        if i + 2 < len {
            let col = Color::Indexed(codes[i + 2]);
            (
                if c == 38 {
                    style.spec_fg(col)
                } else {
                    style.spec_bg(col)
                },
                i + 2,
            )
        } else {
            (style, i)
        }
    } else if (c == 38 || c == 48) && i + 1 < len && codes[i + 1] == 2 {
        if i + 4 < len {
            let col = Color::Rgb(codes[i + 2], codes[i + 3], codes[i + 4]);
            (
                if c == 38 {
                    style.spec_fg(col)
                } else {
                    style.spec_bg(col)
                },
                i + 4,
            )
        } else {
            (style, i)
        }
    } else if c == 39 {
        (style.spec_fg(Color::Reset), i)
    } else if 40 <= c <= 47 {
        (
            style.spec_bg(
                spec_remap(
                    spec_ansi_color((c - 40) as u8, false),
                    cols.added,
                    cols.deleted,
                    cols.unmatched,
                ),
            ),
            i,
        )
    } else if c == 49 {
        (style.spec_bg(Color::Reset), i)
    } else if 90 <= c <= 97 {
        (
            style.spec_fg(
                spec_remap(
                    spec_ansi_color((c - 90) as u8, true),
                    cols.added,
                    cols.deleted,
                    cols.unmatched,
                ),
            ),
            i,
        )
    } else if 100 <= c <= 107 {
        (
            style.spec_bg(
                spec_remap(
                    spec_ansi_color((c - 100) as u8, true),
                    cols.added,
                    cols.deleted,
                    cols.unmatched,
                ),
            ),
            i,
        )
    } else {
        (style, i)
    }
}

/// The codes from `i` on, applied to `style` one after another.
pub open spec fn apply_codes(style: Style, codes: Seq<u8>, i: int, cols: DiffColors) -> Style
    decreases codes.len() - i,
{
    if i < 0 || i >= codes.len() {
        style
    } else {
        let (next, last) = sgr_step(style, codes, i, cols);
        if last >= i {
            apply_codes(next, codes, last + 1, cols)
        } else {
            next
        }
    }
}

/// The numbers of the `;`-separated parameters that read as a `u8`; the others
/// (empty, not a number, too large) are left out.
pub open spec fn codes_of(fields: Seq<Seq<char>>) -> Seq<u8>
    decreases fields.len(),
{
    if fields.len() == 0 {
        seq![]
    } else {
        let rest = codes_of(fields.drop_last());
        match chars::parse_bounded(fields.last(), 255) {
            Some(v) => rest.push(v as u8),
            None => rest,
        }
    }
}

pub open spec fn sgr_codes(params: Seq<char>) -> Seq<u8> {
    codes_of(chars::split(params, CharClass::Char(';')))
}

/// The style after the SGR parameters `params` (the text between `ESC [` and `m`).
pub open spec fn spec_apply_sgr(base: Style, params: Seq<char>, cols: DiffColors) -> Style {
    apply_codes(base, sgr_codes(params), 0, cols)
}

fn sgr_codes_exec(params: &[char]) -> (r: Vec<u8>)
    ensures
        r@ == sgr_codes(params@),
{
    let fields = split_at_sep(params, CharClass::Char(';'));
    let ghost fv = fields@.map_values(|v: Vec<char>| v@);
    let mut r: Vec<u8> = Vec::new();
    let mut i: usize = 0;
    assert(fv.take(0) =~= Seq::<Seq<char>>::empty());
    while i < fields.len()
        invariant
            i <= fields.len(),
            fv == fields@.map_values(|v: Vec<char>| v@),
            r@ == codes_of(fv.take(i as int)),
        decreases fields.len() - i,
    {
        assert(fv.take(i + 1).drop_last() =~= fv.take(i as int));
        assert(fv.take(i + 1).last() == fields@[i as int]@);
        match parse_decimal(&fields[i], 255) {
            Some(v) => {
                r.push(v as u8);
            },
            None => {},
        }
        i = i + 1;
    }
    assert(fv.take(fields.len() as int) =~= fv);
    r
}

fn sgr_step_exec(style: Style, codes: &Vec<u8>, i: usize, cols: DiffColors) -> (r: (
    Style,
    usize,
))
    requires
        i < codes@.len(),
    ensures
        (r.0, r.1 as int) == sgr_step(style, codes@, i as int, cols),
{
    let c = codes[i];
    let len = codes.len();
    if c == 0 {
        (Style::new(), i)
    } else if c == 1 {
        (style.add_modifier(Modifier::Bold), i)
    } else if c == 2 {
        (style.add_modifier(Modifier::Dim), i)
    } else if c == 3 {
        (style.add_modifier(Modifier::Italic), i)
    } else if c == 4 {
        (style.add_modifier(Modifier::Underlined), i)
    } else if c == 9 {
        (style.add_modifier(Modifier::CrossedOut), i)
    } else if 30 <= c && c <= 37 {
        (
            style.fg(remap(ansi_color(c - 30, false), cols.added, cols.deleted, cols.unmatched)),
            i,
        )
    } else if (c == 38 || c == 48) && i + 1 < len && codes[i + 1] == 5 {
        if i + 2 < len {
            let col = Color::Indexed(codes[i + 2]);
            (
                if c == 38 {
                    style.fg(col)
                } else {
                    style.bg(col)
                },
                i + 2,
            )
        } else {
            (style, i)
        }
    } else if (c == 38 || c == 48) && i + 1 < len && codes[i + 1] == 2 {
        if 4 < len - i {
            let col = Color::Rgb(codes[i + 2], codes[i + 3], codes[i + 4]);
            (
                if c == 38 {
                    style.fg(col)
                } else {
                    style.bg(col)
                },
                i + 4,
            )
        } else {
            (style, i)
        }
    } else if c == 39 {
        (style.fg(Color::Reset), i)
    } else if 40 <= c && c <= 47 {
        (
            style.bg(remap(ansi_color(c - 40, false), cols.added, cols.deleted, cols.unmatched)),
            i,
        )
    } else if c == 49 {
        (style.bg(Color::Reset), i)
    } else if 90 <= c && c <= 97 {
        (
            style.fg(remap(ansi_color(c - 90, true), cols.added, cols.deleted, cols.unmatched)),
            i,
        )
    } else if 100 <= c && c <= 107 {
        (
            style.bg(remap(ansi_color(c - 100, true), cols.added, cols.deleted, cols.unmatched)),
            i,
        )
    } else {
        (style, i)
    }
}

/// Applies the SGR parameters `params` to `base`: reset, bold, dim, italic,
/// underline, strike-through, the sixteen colours (remapped), 256-colour and
/// RGB colours, default colours; other codes change nothing.
pub fn apply_sgr(base: Style, params: &[char], cols: DiffColors) -> (r: Style)
    ensures
        r == spec_apply_sgr(base, params@, cols),
{
    let codes = sgr_codes_exec(params);
    let mut style = base;
    let mut i: usize = 0;
    while i < codes.len()
        invariant
            i <= codes@.len(),
            apply_codes(style, codes@, i as int, cols) == apply_codes(base, codes@, 0, cols),
        decreases codes@.len() - i,
    {
        let (next, last) = sgr_step_exec(style, &codes, i, cols);
        assert(last >= i);
        proof {
            assert(apply_codes(style, codes@, i as int, cols) == apply_codes(
                next,
                codes@,
                last + 1,
                cols,
            ));
        }
        style = next;
        i = last + 1;
    }
    style
}

pub open spec fn esc() -> char {
    '\u{1b}'
}

/// When `s` starts with an SGR sequence `ESC [ ... m`, the index of its `m`: the
/// first ASCII letter after `ESC [` must be that `m`.
pub open spec fn sgr_end(s: Seq<char>) -> Option<int> {
    if s.len() >= 2 && s[0] == esc() && s[1] == '[' {
        match chars::find_from(s, CharClass::AsciiAlphabetic, 2) {
            Some(j) => if s[j] == 'm' {
                Some(j)
            } else {
                None
            },
            None => None,
        }
    } else {
        None
    }
}

/// If the characters of `s` from `at` on start with an SGR sequence, returns the
/// index of its terminating `m`, counted from `at`.
pub fn parse_sgr(s: &[char], at: usize) -> (r: Option<usize>)
    requires
        at <= s@.len(),
    ensures
        (match r {
            Some(j) => Some(j as int),
            None => None,
        }) == sgr_end(s@.skip(at as int)),
{
    let ghost t = s@.skip(at as int);
    if s.len() - at < 2 || s[at] != '\u{1b}' || s[at + 1] != '[' {
        return None;
    }
    proof {
        chars::lemma_find_from_skip(s@, CharClass::AsciiAlphabetic, at as int, 2);
        chars::lemma_find_from(s@, CharClass::AsciiAlphabetic, at + 2);
    }
    match find_class_from(s, CharClass::AsciiAlphabetic, at + 2) {
        Some(j) => {
            if s[j] == 'm' {
                Some(j - at)
            } else {
                None
            }
        },
        None => None,
    }
}

/// How many characters an escape sequence that is not SGR takes at the start of
/// `s` (where `s[0]` is the `ESC`): a control sequence `ESC [` runs through its
/// final letter, or to the end of the line when no letter follows; `ESC`
/// followed by any other character (but a second `ESC`) takes both; a lone
/// `ESC` takes itself.
pub open spec fn other_escape_len(s: Seq<char>) -> int {
    if s.len() >= 2 && s[1] == '[' {
        match chars::find_from(s, CharClass::AsciiAlphabetic, 2) {
            Some(j) => if 2 <= j < s.len() {
                j + 1
            } else {
                s.len() as int
            },
            None => s.len() as int,
        }
    } else if s.len() >= 2 && s[1] != esc() {
        2
    } else {
        1
    }
}

/// The spans of a line from `rem` on, drawn from `style` on: the text between
/// escape sequences becomes spans in the style in force; an SGR sequence changes
/// the style; any other escape sequence is dropped whole (see `other_escape_len`).
pub open spec fn parse_line_from(rem: Seq<char>, style: Style, cols: DiffColors) -> Seq<
    (Seq<char>, Style),
>
    decreases rem.len(),
{
    if rem.len() == 0 {
        seq![]
    } else {
        match chars::find(rem, CharClass::Char(esc())) {
            None => seq![(rem, style)],
            Some(k) => {
                if 0 <= k < rem.len() {
                    let pre = if k > 0 {
                        seq![(rem.take(k), style)]
                    } else {
                        seq![]
                    };
                    let r2 = rem.skip(k);
                    match sgr_end(r2) {
                        Some(e) => {
                            if 2 <= e < r2.len() {
                                pre + parse_line_from(
                                    r2.skip(e + 1),
                                    spec_apply_sgr(style, r2.subrange(2, e), cols),
                                    cols,
                                )
                            } else {
                                pre
                            }
                        },
                        None => {
                            let n = other_escape_len(r2);
                            if 1 <= n <= r2.len() {
                                pre + parse_line_from(r2.skip(n), style, cols)
                            } else {
                                pre
                            }
                        },
                    }
                } else {
                    seq![]
                }
            },
        }
    }
}

pub open spec fn spec_parse_line(line: Seq<char>, cols: DiffColors) -> Seq<(Seq<char>, Style)> {
    parse_line_from(line, style::plain(), cols)
}

/// Parses one line of diff output into styled spans.
pub fn parse_line(line: &[char], cols: DiffColors) -> (r: Line)
    ensures
        r@ == spec_parse_line(line@, cols),
{
    let n = line.len();
    let mut spans: Vec<Span> = Vec::new();
    let mut style = Style::new();
    let mut pos: usize = 0;
    assert(line@.skip(0) =~= line@);
    assert(spans@.map_values(|s: Span| s@) =~= Seq::<(Seq<char>, Style)>::empty());
    while pos < n
        invariant
            pos <= n,
            n == line@.len(),
            spans@.map_values(|s: Span| s@) + parse_line_from(line@.skip(pos as int), style, cols)
                == spec_parse_line(line@, cols),
        decreases n - pos,
    {
        let ghost rem = line@.skip(pos as int);
        let ghost old_spans = spans@.map_values(|s: Span| s@);
        proof {
            chars::lemma_find_from_skip(line@, CharClass::Char(esc()), pos as int, 0);
            chars::lemma_find_from(line@, CharClass::Char(esc()), pos as int);
        }
        match find_class_from(line, CharClass::Char('\u{1b}'), pos) {
            Some(at) => {
                let ghost k = at - pos;
                let ghost pre = if k > 0 {
                    seq![(rem.take(k), style)]
                } else {
                    seq![]
                };
                if at > pos {
                    let content = copy_range(line, pos, at);
                    assert(content@ =~= rem.take(k));
                    let sp = Span::styled(string_of(&content), style);
                    spans.push(sp);
                    assert(spans@.map_values(|s: Span| s@) =~= old_spans + pre);
                } else {
                    assert(spans@.map_values(|s: Span| s@) =~= old_spans + pre);
                }
                let ghost r2 = rem.skip(k);
                assert(r2 =~= line@.skip(at as int));
                match parse_sgr(line, at) {
                    Some(e) => {
                        assert(2 <= e < r2.len()) by {
                            chars::lemma_find_from(r2, CharClass::AsciiAlphabetic, 2);
                        }
                        let params = copy_range(line, at + 2, at + e);
                        assert(params@ =~= r2.subrange(2, e as int));
                        style = apply_sgr(style, &params, cols);
                        assert(r2.skip(e + 1) =~= line@.skip(at + e + 1));
                        pos = at + e + 1;
                    },
                    None => {
                        proof {
                            chars::lemma_find_from_skip(line@, CharClass::AsciiAlphabetic, at as int, 2);
                            chars::lemma_find_from(line@, CharClass::AsciiAlphabetic, at + 2);
                        }
                        let skip: usize = if at + 1 < n && line[at + 1] == '[' {
                            match find_class_from(line, CharClass::AsciiAlphabetic, at + 2) {
                                Some(j) => j + 1 - at,
                                None => n - at,
                            }
                        } else if at + 1 < n && line[at + 1] != '\u{1b}' {
                            2
                        } else {
                            1
                        };
                        assert(skip == other_escape_len(r2));
                        assert(r2.skip(skip as int) =~= line@.skip(at + skip));
                        pos = at + skip;
                    },
                }
            },
            None => {
                let content = copy_range(line, pos, n);
                assert(content@ =~= rem);
                let sp = Span::styled(string_of(&content), style);
                spans.push(sp);
                assert(spans@.map_values(|s: Span| s@) =~= old_spans + seq![(rem, style)]);
                pos = n;
                assert(line@.skip(n as int) =~= Seq::<char>::empty());
            },
        }
    }
    Line { spans }
}

/// The styled text of diff output `bytes`: decoded as UTF-8 (lossily), split at
/// every `\n`, and each line parsed by `spec_parse_line`.
pub open spec fn spec_parse(bytes: Seq<u8>, cols: DiffColors) -> Seq<Seq<(Seq<char>, Style)>> {
    chars::split(utf8_lossy(bytes), CharClass::Char('\n')).map_values(
        |l: Seq<char>| spec_parse_line(l, cols),
    )
}

/// Parses a diff tool's output, which holds ANSI SGR escape sequences, into
/// styled text: the output is decoded as UTF-8 (lossily) and split at every
/// `\n`, and each line is parsed by `spec_parse_line`. Green, red and magenta
/// are remapped to `diff_added`, `diff_deleted` and `diff_unmatched`; every
/// other escape sequence is dropped whole.
pub fn parse(bytes: &[u8], diff_added: Color, diff_deleted: Color, diff_unmatched: Color) -> (r:
    Text)
    ensures
        r@ == spec_parse(
            bytes@,
            DiffColors { added: diff_added, deleted: diff_deleted, unmatched: diff_unmatched },
        ),
        valid_utf8(bytes@) ==> r@ == chars::split(decode_utf8(bytes@), CharClass::Char('\n')).map_values(
            |l: Seq<char>|
                spec_parse_line(
                    l,
                    DiffColors { added: diff_added, deleted: diff_deleted, unmatched: diff_unmatched },
                ),
        ),
{
    let cols = DiffColors { added: diff_added, deleted: diff_deleted, unmatched: diff_unmatched };
    let raw = decode_lossy(bytes);
    let parts = split_at_sep(&raw, CharClass::Char('\n'));
    let ghost pv = parts@.map_values(|v: Vec<char>| v@);
    let mut lines: Vec<Line> = Vec::new();
    let mut i: usize = 0;
    while i < parts.len()
        invariant
            i <= parts@.len(),
            pv == parts@.map_values(|v: Vec<char>| v@),
            lines@.map_values(|l: Line| l@) =~= pv.take(i as int).map_values(
                |l: Seq<char>| spec_parse_line(l, cols),
            ),
        decreases parts@.len() - i,
    {
        let l = parse_line(&parts[i], cols);
        let ghost old_lines = lines@.map_values(|l: Line| l@);
        lines.push(l);
        assert(lines@.map_values(|l: Line| l@) =~= old_lines.push(l@));
        assert(pv.take(i + 1).map_values(|l: Seq<char>| spec_parse_line(l, cols)) =~= pv.take(
            i as int,
        ).map_values(|l: Seq<char>| spec_parse_line(l, cols)).push(spec_parse_line(pv[i as int], cols)));
        i = i + 1;
    }
    assert(pv.take(parts@.len() as int) =~= pv);
    Text { lines }
}

/// SGR codes 30–37 set the foreground, and 40–47 the background, to black, red,
/// green, yellow, blue, magenta, cyan and gray, in that order; 90–97 and
/// 100–107 to dark gray, light red, light green, light yellow, light blue, light
/// magenta, light cyan and white. Green shades then become the theme's added
/// colour, red shades its deleted colour and magenta shades its unmatched
/// colour; every other colour is shown as it is, and nothing else about the
/// style changes.
pub proof fn law_colour_codes(base: Style, cols: DiffColors, k: int)
    requires
        0 <= k < 8,
    ensures
        ({
            let normal = seq![
                Color::Black,
                Color::Red,
                Color::Green,
                Color::Yellow,
                Color::Blue,
                Color::Magenta,
                Color::Cyan,
                Color::Gray,
            ];
            let bright = seq![
                Color::DarkGray,
                Color::LightRed,
                Color::LightGreen,
                Color::LightYellow,
                Color::LightBlue,
                Color::LightMagenta,
                Color::LightCyan,
                Color::White,
            ];
            let shown = |c: Color|
                if c == Color::Green || c == Color::LightGreen {
                    cols.added
                } else if c == Color::Red || c == Color::LightRed {
                    cols.deleted
                } else if c == Color::Magenta || c == Color::LightMagenta {
                    cols.unmatched
                } else {
                    c
                };
            &&& apply_codes(base, seq![(30 + k) as u8], 0, cols) == (Style {
                fg: Some(shown(normal[k])),
                ..base
            })
            &&& apply_codes(base, seq![(40 + k) as u8], 0, cols) == (Style {
                bg: Some(shown(normal[k])),
                ..base
            })
            &&& apply_codes(base, seq![(90 + k) as u8], 0, cols) == (Style {
                fg: Some(shown(bright[k])),
                ..base
            })
            &&& apply_codes(base, seq![(100 + k) as u8], 0, cols) == (Style {
                bg: Some(shown(bright[k])),
                ..base
            })
            &&& forall|j: int| 0 <= j < 8 && j != k ==> normal[j] != normal[k] && bright[j]
                != bright[k] && normal[j] != bright[k]
        }),
{
    reveal_with_fuel(apply_codes, 2);
    assert(seq![(30 + k) as u8][0] == 30 + k);
    assert(seq![(40 + k) as u8][0] == 40 + k);
    assert(seq![(90 + k) as u8][0] == 90 + k);
    assert(seq![(100 + k) as u8][0] == 100 + k);
}

/// The standard cyan (SGR 36 and 46) is shown cyan and the standard blue (SGR
/// 34 and 44) blue, whatever the theme's diff colours and the style before.
pub proof fn law_cyan_and_blue_are_kept(base: Style, cols: DiffColors)
    ensures
        apply_codes(base, seq![36u8], 0, cols).fg == Some(Color::Cyan),
        apply_codes(base, seq![46u8], 0, cols).bg == Some(Color::Cyan),
        apply_codes(base, seq![34u8], 0, cols).fg == Some(Color::Blue),
        apply_codes(base, seq![44u8], 0, cols).bg == Some(Color::Blue),
{
    reveal_with_fuel(apply_codes, 2);
}

/// A parameter string without `;` is a single code: its number when it reads as
/// one up to 255, and no code otherwise.
pub proof fn law_single_sgr_parameter(params: Seq<char>)
    requires
        forall|i: int| 0 <= i < params.len() ==> params[i] != ';',
    ensures
        sgr_codes(params) == (match chars::parse_bounded(params, 255) {
            Some(v) => seq![v as u8],
            None => Seq::<u8>::empty(),
        }),
{
    chars::lemma_find(params, CharClass::Char(';'));
    assert(chars::split(params, CharClass::Char(';')) == seq![params]);
    assert(seq![params].drop_last() =~= Seq::<Seq<char>>::empty());
    reveal_with_fuel(codes_of, 2);
}

/// Two digits `d1 d2` with no `;` give the code `10 * d1 + d2`; so `ESC[36m`
/// sets a cyan foreground and `ESC[34m` a blue one, whatever the style before
/// and the theme's colours.
pub proof fn law_two_digit_parameter(base: Style, cols: DiffColors, d1: char, d2: char)
    requires
        '0' <= d1 <= '9',
        '0' <= d2 <= '9',
    ensures
        sgr_codes(seq![d1, d2]) == seq![((d1 as int - '0' as int) * 10 + (d2 as int - '0' as int)) as u8],
        d1 == '3' && d2 == '6' ==> spec_apply_sgr(base, seq![d1, d2], cols).fg == Some(Color::Cyan),
        d1 == '3' && d2 == '4' ==> spec_apply_sgr(base, seq![d1, d2], cols).fg == Some(Color::Blue),
        d1 == '4' && d2 == '6' ==> spec_apply_sgr(base, seq![d1, d2], cols).bg == Some(Color::Cyan),
{
    let p = seq![d1, d2];
    law_single_sgr_parameter(p);
    assert(chars::sign_stripped(p) == p);
    assert(chars::all_digits(p));
    assert(p.drop_last() =~= seq![d1]);
    assert(seq![d1].drop_last() =~= Seq::<char>::empty());
    reveal_with_fuel(chars::digits_value, 3);
    assert(chars::digits_value(p) == (d1 as int - '0' as int) * 10 + (d2 as int - '0' as int));
    law_cyan_and_blue_are_kept(base, cols);
}

} // verus!

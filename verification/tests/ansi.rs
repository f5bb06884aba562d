use grit::ansi::{apply_sgr, parse, parse_sgr, DiffColors};
use grit::style::{Color, Modifiers, Style, Text};

const CUSTOM_ADDED: Color = Color::Rgb(0x99, 0xBE, 0x70);
const CUSTOM_DELETED: Color = Color::Rgb(0xF0, 0x5E, 0x48);
const CUSTOM_UNMATCHED: Color = Color::Rgb(0xBD, 0x82, 0xD7);

fn first_span_fg(text: &Text) -> Color {
    text.lines[0].spans[0].style.fg.unwrap()
}

fn first_span_bg(text: &Text) -> Color {
    text.lines[0].spans[0].style.bg.unwrap()
}

fn cols() -> DiffColors {
    DiffColors { added: CUSTOM_ADDED, deleted: CUSTOM_DELETED, unmatched: CUSTOM_UNMATCHED }
}

fn chars(s: &str) -> Vec<char> {
    s.chars().collect()
}

#[test]
fn green_fg_remaps_to_diff_added() {
    // ESC[32m is ANSI green foreground
    let input = b"\x1b[32mtext\x1b[0m";
    let text = parse(input, CUSTOM_ADDED, CUSTOM_DELETED, CUSTOM_UNMATCHED);
    assert_eq!(first_span_fg(&text), CUSTOM_ADDED);
}

#[test]
fn red_fg_remaps_to_diff_deleted() {
    // ESC[31m is ANSI red foreground
    let input = b"\x1b[31mtext\x1b[0m";
    let text = parse(input, CUSTOM_ADDED, CUSTOM_DELETED, CUSTOM_UNMATCHED);
    assert_eq!(first_span_fg(&text), CUSTOM_DELETED);
}

#[test]
fn green_bg_remaps_to_diff_added() {
    // ESC[42m is ANSI green background
    let input = b"\x1b[42mtext\x1b[0m";
    let text = parse(input, CUSTOM_ADDED, CUSTOM_DELETED, CUSTOM_UNMATCHED);
    assert_eq!(first_span_bg(&text), CUSTOM_ADDED);
}

#[test]
fn red_bg_remaps_to_diff_deleted() {
    // ESC[41m is ANSI red background
    let input = b"\x1b[41mtext\x1b[0m";
    let text = parse(input, CUSTOM_ADDED, CUSTOM_DELETED, CUSTOM_UNMATCHED);
    assert_eq!(first_span_bg(&text), CUSTOM_DELETED);
}

#[test]
fn magenta_fg_remaps_to_diff_unmatched() {
    // ESC[35m is ANSI magenta foreground
    let input = b"\x1b[35mtext\x1b[0m";
    let text = parse(input, CUSTOM_ADDED, CUSTOM_DELETED, CUSTOM_UNMATCHED);
    assert_eq!(first_span_fg(&text), CUSTOM_UNMATCHED);
}

#[test]
fn bright_magenta_fg_remaps_to_diff_unmatched() {
    // ESC[95m is ANSI bright magenta foreground
    let input = b"\x1b[95mtext\x1b[0m";
    let text = parse(input, CUSTOM_ADDED, CUSTOM_DELETED, CUSTOM_UNMATCHED);
    assert_eq!(first_span_fg(&text), CUSTOM_UNMATCHED);
}

#[test]
fn plain_text_is_one_plain_span_per_line() {
    let text = parse(b"a\nbc\n", CUSTOM_ADDED, CUSTOM_DELETED, CUSTOM_UNMATCHED);
    // split at every newline: the final newline leaves an empty last line
    assert_eq!(text.lines.len(), 3);
    assert_eq!(text.lines[0].spans.len(), 1);
    assert_eq!(text.lines[0].spans[0].content, "a");
    assert_eq!(text.lines[0].spans[0].style, Style::default());
    assert_eq!(text.lines[1].spans[0].content, "bc");
    assert!(text.lines[2].spans.is_empty());
}

#[test]
fn style_carries_across_spans_and_resets() {
    let text = parse(b"\x1b[1;31mab\x1b[0mcd", CUSTOM_ADDED, CUSTOM_DELETED, CUSTOM_UNMATCHED);
    let spans = &text.lines[0].spans;
    assert_eq!(spans.len(), 2);
    assert_eq!(spans[0].content, "ab");
    assert_eq!(spans[0].style.fg, Some(CUSTOM_DELETED));
    assert!(spans[0].style.modifiers.bold);
    assert_eq!(spans[1].content, "cd");
    assert_eq!(spans[1].style, Style::default());
}

#[test]
fn other_escape_sequences_are_dropped() {
    // ESC[2K is not SGR: the whole sequence is dropped
    let text = parse(b"x\x1b[2Ky", CUSTOM_ADDED, CUSTOM_DELETED, CUSTOM_UNMATCHED);
    let spans = &text.lines[0].spans;
    assert_eq!(spans.len(), 2);
    assert_eq!(spans[0].content, "x");
    assert_eq!(spans[1].content, "y");
    let text = parse(b"\x1b[2Jabc", CUSTOM_ADDED, CUSTOM_DELETED, CUSTOM_UNMATCHED);
    assert_eq!(text.lines.len(), 1);
    assert_eq!(text.lines[0].spans.len(), 1);
    assert_eq!(text.lines[0].spans[0].content, "abc");
}

#[test]
fn short_and_unterminated_escapes_are_dropped() {
    // ESC followed by one other character: both go
    let text = parse(b"a\x1b7b", CUSTOM_ADDED, CUSTOM_DELETED, CUSTOM_UNMATCHED);
    let spans = &text.lines[0].spans;
    assert_eq!(spans.len(), 2);
    assert_eq!(spans[0].content, "a");
    assert_eq!(spans[1].content, "b");
    // a control sequence with no final letter runs to the end of the line
    let text = parse(b"a\x1b[12;", CUSTOM_ADDED, CUSTOM_DELETED, CUSTOM_UNMATCHED);
    assert_eq!(text.lines[0].spans.len(), 1);
    assert_eq!(text.lines[0].spans[0].content, "a");
    // a lone ESC before an SGR sequence does not swallow it
    let text = parse(b"\x1b\x1b[31mr", CUSTOM_ADDED, CUSTOM_DELETED, CUSTOM_UNMATCHED);
    assert_eq!(text.lines[0].spans.len(), 1);
    assert_eq!(text.lines[0].spans[0].content, "r");
    assert_eq!(text.lines[0].spans[0].style.fg, Some(CUSTOM_DELETED));
}

#[test]
fn indexed_and_rgb_colours() {
    let base = Style::default();
    let s = apply_sgr(base, &chars("38;5;200;48;2;1;2;3"), cols());
    assert_eq!(s.fg, Some(Color::Indexed(200)));
    assert_eq!(s.bg, Some(Color::Rgb(1, 2, 3)));
}

#[test]
fn incomplete_extended_colour_reads_the_rest_as_codes() {
    // 38;2 without three colour values sets no colour; 2, 1, 2 are then read
    // as ordinary codes (dim, bold, dim)
    let s = apply_sgr(Style::default(), &chars("38;2;1;2"), cols());
    assert_eq!(s.fg, None);
    assert!(s.modifiers.bold && s.modifiers.dim);
    let t = apply_sgr(Style::default(), &chars("48;5"), cols());
    assert_eq!(t, Style::default());
}

#[test]
fn unparsable_and_empty_params_are_skipped() {
    let s = apply_sgr(Style::default(), &chars(";x;300;+4;;9"), cols());
    assert_eq!(s.fg, None);
    assert_eq!(
        s.modifiers,
        Modifiers { bold: false, dim: false, italic: false, underlined: true, crossed_out: true }
    );
}

#[test]
fn default_colour_codes_are_not_remapped() {
    let s = apply_sgr(Style::default(), &chars("32;39;44;49"), cols());
    assert_eq!(s.fg, Some(Color::Reset));
    assert_eq!(s.bg, Some(Color::Reset));
    let t = apply_sgr(Style::default(), &chars("33;104"), cols());
    assert_eq!(t.fg, Some(Color::Yellow));
    assert_eq!(t.bg, Some(Color::LightBlue));
}

#[test]
fn parse_sgr_finds_terminator() {
    let s = chars("\x1b[1;32mrest");
    assert_eq!(parse_sgr(&s, 0), Some(6));
    assert_eq!(parse_sgr(&chars("\x1b[2K"), 0), None);
    assert_eq!(parse_sgr(&chars("\x1b(B"), 0), None);
    assert_eq!(parse_sgr(&chars("\x1b["), 0), None);
    assert_eq!(parse_sgr(&chars("ab\x1b[m"), 2), Some(2));
}

#[test]
fn invalid_utf8_is_decoded_lossily() {
    let text = parse(b"a\xffb", CUSTOM_ADDED, CUSTOM_DELETED, CUSTOM_UNMATCHED);
    assert_eq!(text.lines[0].spans[0].content, "a\u{fffd}b");
}

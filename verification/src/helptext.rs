//! The help screen's text, and the little markup scanner that turns it into
//! styled spans: `#` followed by a digit switches the style of what follows
//! to that palette entry; everything else is literal text.

use vstd::prelude::*;

verus! {

/// The help screen source text. `#N` selects palette entry `N` for the rest
/// of the line (or until the next marker); each line starts on entry 0.
pub const HELPTEXT: &'static str = r#"

#1Gosub Dive Help
#1===============
This is the help screen for Gosub Dive. It is a work in progress and displays the current key bindings. This browser is a proof-of-concept project and is not intended for production use.

 #2Function keys
 #2-------------
  #1F1#0      Display this help screen
  #1F2#0      Opens tab list
  #1F3#0
  #1F4#0
  #1F5#0
  #1F6#0      Opens log screen
  #1F7#0      Opens history menu
  #1F8#0      Opens bookmark menu
  #1F9#0      Opens top menu

 #2Navigation
 #2----------
  #1CTRL-N#0    Opens new tab with blank page
  #1CTRL-G#0    Asks for an URL to open
  #1CTRL-B#0    Browse back to previous page
  #1CTRL-R#0    Reload current page
  #1CTRL-W#0    Close current tab

 #2General commands
 #2----------------
  #1CTRL-Q#0    Quit Gosub Dive

 #2Tab management
 #2--------------
  #1ALT-0..9#0  Switch to tab 0..9
  #1CTRL-I#0    Rename tab
  #1TAB#0       Switch to next tab

"#;

/// One styled piece of a line: its text and the palette entry to draw it
/// with.
pub struct Span {
    pub text: String,
    pub style: u8,
}

/// Ghost mirror of `Span`.
#[verifier::ext_equal]
pub struct SpanV {
    pub text: Seq<char>,
    pub style: u8,
}

impl DeepView for Span {
    type V = SpanV;

    open spec fn deep_view(&self) -> SpanV {
        SpanV { text: self.text@, style: self.style }
    }
}

/// Whether a character is one of the ten style digits.
pub open spec fn is_style_digit(c: char) -> bool {
    48 <= c as int <= 57
}

/// The palette entry named by a style digit.
pub open spec fn style_digit_val(c: char) -> int {
    c as int - 48
}

/// The spans of one line, scanning from `idx` with the span under
/// construction reaching back to `start` in the given style. A `#` followed
/// by a digit closes the current span and opens a new one in the digit's
/// style; a trailing or undigited `#` is ordinary text.
pub open spec fn spec_scan_spans(l: Seq<char>, idx: int, start: int, style: u8) -> Seq<SpanV>
    decreases l.len() - idx,
{
    if idx < 0 || idx >= l.len() {
        seq![SpanV { text: l.subrange(start, l.len() as int), style }]
    } else if l[idx] == '#' && idx + 1 < l.len() && is_style_digit(l[idx + 1]) {
        seq![SpanV { text: l.subrange(start, idx), style }] + spec_scan_spans(
            l,
            idx + 2,
            idx + 2,
            style_digit_val(l[idx + 1]) as u8,
        )
    } else {
        spec_scan_spans(l, idx + 1, start, style)
    }
}

/// The spans of one line.
pub open spec fn spec_line_spans(l: Seq<char>) -> Seq<SpanV> {
    spec_scan_spans(l, 0, 0, 0)
}

/// The lines of a text, scanning from `idx` with the line under
/// construction reaching back to `start`: split on every newline.
pub open spec fn spec_scan_lines(s: Seq<char>, idx: int, start: int) -> Seq<Seq<char>>
    decreases s.len() - idx,
{
    if idx < 0 || idx >= s.len() {
        seq![s.subrange(start, s.len() as int)]
    } else if s[idx] == '\n' {
        seq![s.subrange(start, idx)] + spec_scan_lines(s, idx + 1, idx + 1)
    } else {
        spec_scan_lines(s, idx + 1, start)
    }
}

/// The text split on newlines.
pub open spec fn spec_split_lines(s: Seq<char>) -> Seq<Seq<char>> {
    spec_scan_lines(s, 0, 0)
}

/// Every line of the text turned into styled spans.
pub open spec fn spec_styled_lines(s: Seq<char>) -> Seq<Seq<SpanV>> {
    spec_split_lines(s).map_values(|l: Seq<char>| spec_line_spans(l))
}

/// Splits a text on newlines.
fn split_lines(text: &str) -> (r: Vec<String>)
    ensures
        r.deep_view() == spec_split_lines(text@),
{
    let n = text.unicode_len();
    let mut r: Vec<String> = Vec::new();
    let mut start: usize = 0;
    let mut i: usize = 0;
    while i < n
        invariant
            start <= i <= n,
            n == text@.len(),
            spec_split_lines(text@) == r.deep_view() + spec_scan_lines(
                text@,
                i as int,
                start as int,
            ),
        decreases n - i,
    {
        let ghost prev = r.deep_view();
        if text.get_char(i) == '\n' {
            r.push(text.substring_char(start, i).to_owned());
            proof {
                assert(r.deep_view() =~= prev.push(text@.subrange(start as int, i as int)));
                assert(prev + (seq![text@.subrange(start as int, i as int)] + spec_scan_lines(
                    text@,
                    i + 1,
                    i + 1,
                )) =~= r.deep_view() + spec_scan_lines(text@, i + 1, i + 1));
            }
            start = i + 1;
        }
        i = i + 1;
    }
    let ghost prev = r.deep_view();
    r.push(text.substring_char(start, n).to_owned());
    proof {
        assert(r.deep_view() =~= prev.push(text@.subrange(start as int, n as int)));
        assert(prev + seq![text@.subrange(start as int, n as int)] =~= r.deep_view());
    }
    r
}

/// Turns one line into styled spans.
fn line_spans(line: &str) -> (r: Vec<Span>)
    ensures
        r.deep_view() == spec_line_spans(line@),
{
    let n = line.unicode_len();
    let mut spans: Vec<Span> = Vec::new();
    let mut start: usize = 0;
    let mut style: u8 = 0;
    let mut i: usize = 0;
    while i < n
        invariant
            start <= i <= n,
            n == line@.len(),
            spec_line_spans(line@) == spans.deep_view() + spec_scan_spans(
                line@,
                i as int,
                start as int,
                style,
            ),
        decreases n - i,
    {
        let c = line.get_char(i);
        let marker: bool = if c == '#' && i + 1 < n {
            let d = line.get_char(i + 1);
            (d as u32) >= 48 && (d as u32) <= 57
        } else {
            false
        };
        if marker {
            let d = line.get_char(i + 1);
            let ghost prev = spans.deep_view();
            spans.push(Span { text: line.substring_char(start, i).to_owned(), style });
            proof {
                assert(spans.deep_view() =~= prev.push(
                    SpanV { text: line@.subrange(start as int, i as int), style },
                ));
                assert(prev + (seq![
                    SpanV { text: line@.subrange(start as int, i as int), style },
                ] + spec_scan_spans(
                    line@,
                    i + 2,
                    i + 2,
                    style_digit_val(line@[i + 1]) as u8,
                )) =~= spans.deep_view() + spec_scan_spans(
                    line@,
                    i + 2,
                    i + 2,
                    style_digit_val(line@[i + 1]) as u8,
                ));
            }
            style = ((d as u32) - 48) as u8;
            i = i + 2;
            start = i;
        } else {
            i = i + 1;
        }
    }
    let ghost prev = spans.deep_view();
    spans.push(Span { text: line.substring_char(start, n).to_owned(), style });
    proof {
        assert(spans.deep_view() =~= prev.push(
            SpanV { text: line@.subrange(start as int, n as int), style },
        ));
        assert(prev + seq![SpanV { text: line@.subrange(start as int, n as int), style }]
            =~= spans.deep_view());
    }
    spans
}

/// Turns a whole text into styled lines.
pub fn styled_lines(text: &str) -> (r: Vec<Vec<Span>>)
    ensures
        r.deep_view() == spec_styled_lines(text@),
{
    let lines = split_lines(text);
    let ghost lines_v = spec_split_lines(text@);
    let mut r: Vec<Vec<Span>> = Vec::new();
    let mut i: usize = 0;
    while i < lines.len()
        invariant
            i <= lines@.len(),
            lines.deep_view() == lines_v,
            lines_v == spec_split_lines(text@),
            r.deep_view() == spec_styled_lines(text@).take(i as int),
        decreases lines@.len() - i,
    {
        let ghost prev = r.deep_view();
        r.push(line_spans(lines[i].as_str()));
        i = i + 1;
        proof {
            assert(lines@[i - 1]@ == lines_v[i - 1]);
            assert(r.deep_view() =~= prev.push(spec_line_spans(lines_v[i - 1])));
            assert(spec_styled_lines(text@)[i - 1] == spec_line_spans(lines_v[i - 1]));
            assert(r.deep_view() =~= spec_styled_lines(text@).take(i as int));
        }
    }
    proof {
        assert(spec_styled_lines(text@).take(lines@.len() as int) =~= spec_styled_lines(text@));
    }
    r
}

/// The help screen content: the help text as styled lines.
pub fn generate_lines_from_helptext() -> (r: Vec<Vec<Span>>)
    ensures
        r.deep_view() == spec_styled_lines(HELPTEXT@),
{
    styled_lines(HELPTEXT)
}

} // verus!

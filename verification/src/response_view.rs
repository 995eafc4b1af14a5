//! The response body view: the lines of the response, the window of them
//! shown (long lines cut to the width), the search filter over them, the
//! moves between matches, and the highlighting of the matches on the styled
//! spans shown, which the next clearing undoes.
//!
//! Lines and filters are searched by their UTF-8 bytes, as `str` does.

use vstd::prelude::*;
use vstd::utf8::encode_utf8;

use crate::text::{concat, string_of};
use crate::ui::{KeyCode, KeyEvent};

verus! {

// ---------------------------------------------------------------------------
// Styled spans
// ---------------------------------------------------------------------------
/// A color, by its red, green and blue parts.
#[derive(Debug, Clone, Copy, PartialEq, Eq, Structural)]
pub struct Color {
    pub r: u8,
    pub g: u8,
    pub b: u8,
}

/// An uppercase hexadecimal digit, for `d < 16`.
pub open spec fn hex_digit(d: nat) -> char {
    if d < 10 {
        ((d + 48) as u8) as char
    } else {
        ((d + 55) as u8) as char
    }
}

/// A color written `#RRGGBB`, in uppercase hexadecimal.
pub open spec fn hex_text(c: Color) -> Seq<char> {
    seq![
        '#',
        hex_digit((c.r / 16) as nat),
        hex_digit((c.r % 16) as nat),
        hex_digit((c.g / 16) as nat),
        hex_digit((c.g % 16) as nat),
        hex_digit((c.b / 16) as nat),
        hex_digit((c.b % 16) as nat),
    ]
}

fn hex_char(d: u8) -> (c: char)
    requires
        d < 16,
    ensures
        c == hex_digit(d as nat),
{
    if d < 10 {
        (d + 48) as char
    } else {
        (d + 55) as char
    }
}

impl Color {
    /// The color written `#RRGGBB`, as the background of a view is set.
    pub fn to_hex(&self) -> (r: String)
        ensures
            r@ == hex_text(*self),
    {
        let mut v: Vec<char> = Vec::new();
        v.push('#');
        v.push(hex_char(self.r / 16));
        v.push(hex_char(self.r % 16));
        v.push(hex_char(self.g / 16));
        v.push(hex_char(self.g % 16));
        v.push(hex_char(self.b / 16));
        v.push(hex_char(self.b % 16));
        assert(v@ =~= hex_text(*self));
        string_of(v.as_slice())
    }
}

/// The background of a highlighted match: yellow.
pub open spec fn highlight_background() -> Color {
    Color { r: 255, g: 255, b: 0 }
}

/// The text color of a highlighted match: black.
pub open spec fn highlight_foreground() -> Color {
    Color { r: 0, g: 0, b: 0 }
}

/// One character of a shown line, with its style; a highlighted span keeps
/// the colors it had before.
#[derive(Debug)]
pub struct Span {
    pub text: String,
    pub bold: bool,
    pub foreground: Color,
    pub background: Color,
    pub original_background: Option<Color>,
    pub original_foreground: Option<Color>,
}

pub struct SpanView {
    pub text: Seq<char>,
    pub bold: bool,
    pub foreground: Color,
    pub background: Color,
    pub original_background: Option<Color>,
    pub original_foreground: Option<Color>,
}

impl View for Span {
    type V = SpanView;

    open spec fn view(&self) -> SpanView {
        SpanView {
            text: self.text@,
            bold: self.bold,
            foreground: self.foreground,
            background: self.background,
            original_background: self.original_background,
            original_foreground: self.original_foreground,
        }
    }
}

/// A shown line: its spans.
#[derive(Debug)]
pub struct Line {
    pub spans: Vec<Span>,
}

impl View for Line {
    type V = Seq<SpanView>;

    open spec fn view(&self) -> Seq<SpanView> {
        self.spans@.map_values(|s: Span| s@)
    }
}

/// The shown lines, as values.
pub open spec fn lines_view(ls: Seq<Line>) -> Seq<Seq<SpanView>> {
    ls.map_values(|l: Line| l@)
}

/// The text of spans, one after the other.
pub open spec fn spans_text(spans: Seq<SpanView>) -> Seq<char>
    decreases spans.len(),
{
    if spans.len() == 0 {
        Seq::empty()
    } else {
        spans_text(spans.drop_last()) + spans.last().text
    }
}

/// Spans of one style for each character of `text` but the line breaks.
pub open spec fn styled_spans(text: Seq<char>, bold: bool, fg: Color, bg: Color) -> Seq<SpanView> {
    text.filter(|c: char| c != '\n').map_values(
        |c: char|
            SpanView {
                text: seq![c],
                bold: bold,
                foreground: fg,
                background: bg,
                original_background: None,
                original_foreground: None,
            },
    )
}

impl Line {
    pub fn empty() -> (r: Line)
        ensures
            r@.len() == 0,
    {
        Line { spans: Vec::new() }
    }

    /// The text of the line.
    pub fn get_line(&self) -> (r: String)
        ensures
            r@ == spans_text(self@),
    {
        let mut out: Vec<char> = Vec::new();
        let mut i: usize = 0;
        while i < self.spans.len()
            invariant
                i <= self.spans@.len(),
                out@ == spans_text(self@.take(i as int)),
            decreases self.spans@.len() - i,
        {
            let t = crate::text::chars_of(self.spans[i].text.as_str());
            let mut j: usize = 0;
            let ghost before = out@;
            while j < t.len()
                invariant
                    j <= t@.len(),
                    out@ == before + t@.take(j as int),
                decreases t@.len() - j,
            {
                out.push(t[j]);
                assert(t@.take(j + 1) =~= t@.take(j as int).push(t@[j as int]));
                j += 1;
            }
            assert(t@.take(j as int) =~= t@);
            assert(self@.take(i + 1).drop_last() =~= self@.take(i as int));
            i += 1;
        }
        assert(self@.take(i as int) =~= self@);
        string_of(out.as_slice())
    }

    /// Adds a span for each character of `text` but the line breaks, all of
    /// one style.
    pub fn push_styled(&mut self, text: &str, bold: bool, fg: Color, bg: Color)
        ensures
            final(self)@ == old(self)@ + styled_spans(text@, bold, fg, bg),
    {
        let t = crate::text::chars_of(text);
        let ghost f = |c: char| c != '\n';
        let mut i: usize = 0;
        while i < t.len()
            invariant
                i <= t@.len(),
                t@ == text@,
                f == (|c: char| c != '\n'),
                self@ == old(self)@ + styled_spans(t@.take(i as int), bold, fg, bg),
            decreases t@.len() - i,
        {
            let c = t[i];
            proof {
                reveal(Seq::filter);
                assert(t@.take(i + 1).drop_last() =~= t@.take(i as int));
            }
            let ghost before = self@;
            if c != '\n' {
                let mut one: Vec<char> = Vec::new();
                one.push(c);
                self.spans.push(
                    Span {
                        text: string_of(one.as_slice()),
                        bold,
                        foreground: fg,
                        background: bg,
                        original_background: None,
                        original_foreground: None,
                    },
                );
                assert(self@ =~= before.push(
                    SpanView {
                        text: seq![c],
                        bold: bold,
                        foreground: fg,
                        background: bg,
                        original_background: None,
                        original_foreground: None,
                    },
                ));
                assert(styled_spans(t@.take(i + 1), bold, fg, bg) =~= styled_spans(
                    t@.take(i as int),
                    bold,
                    fg,
                    bg,
                ).push(
                    SpanView {
                        text: seq![c],
                        bold: bold,
                        foreground: fg,
                        background: bg,
                        original_background: None,
                        original_foreground: None,
                    },
                ));
            } else {
                assert(styled_spans(t@.take(i + 1), bold, fg, bg) =~= styled_spans(
                    t@.take(i as int),
                    bold,
                    fg,
                    bg,
                ));
            }
            i += 1;
        }
        assert(t@.take(i as int) =~= t@);
    }
}

/// A span with the colors it had before it was highlighted, if it was.
pub open spec fn cleared_span(s: SpanView) -> SpanView {
    SpanView {
        background: match s.original_background {
            Some(c) => c,
            None => s.background,
        },
        original_background: None,
        foreground: match s.original_foreground {
            Some(c) => c,
            None => s.foreground,
        },
        original_foreground: None,
        ..s
    }
}

/// A span highlighted: black on yellow, its own colors kept.
pub open spec fn lit_span(s: SpanView) -> SpanView {
    SpanView {
        original_background: Some(s.background),
        background: highlight_background(),
        original_foreground: Some(s.foreground),
        foreground: highlight_foreground(),
        ..s
    }
}

pub open spec fn cleared_line(l: Seq<SpanView>) -> Seq<SpanView> {
    l.map_values(|s: SpanView| cleared_span(s))
}

pub open spec fn cleared_lines(ls: Seq<Seq<SpanView>>) -> Seq<Seq<SpanView>> {
    ls.map_values(|l: Seq<SpanView>| cleared_line(l))
}

fn clear_span(s: &mut Span)
    ensures
        final(s)@ == cleared_span(old(s)@),
{
    match s.original_background {
        Some(c) => {
            s.background = c;
            s.original_background = None;
        },
        None => {},
    }
    match s.original_foreground {
        Some(c) => {
            s.foreground = c;
            s.original_foreground = None;
        },
        None => {},
    }
}

fn clear_line(line: &mut Line)
    ensures
        final(line)@ == cleared_line(old(line)@),
{
    let ghost orig = line@;
    let mut i: usize = 0;
    while i < line.spans.len()
        invariant
            i <= line.spans@.len(),
            line@.len() == orig.len(),
            forall|p: int| 0 <= p < i ==> line@[p] == cleared_span(orig[p]),
            forall|p: int| i <= p < orig.len() ==> line@[p] == orig[p],
        decreases line.spans@.len() - i,
    {
        let mut s = Span {
            text: String::new(),
            bold: false,
            foreground: Color { r: 0, g: 0, b: 0 },
            background: Color { r: 0, g: 0, b: 0 },
            original_background: None,
            original_foreground: None,
        };
        let ghost prev = line@;
        line.spans.set_and_swap(i, &mut s);
        assert(s@ == prev[i as int]);
        clear_span(&mut s);
        let ghost done = s@;
        line.spans.set_and_swap(i, &mut s);
        assert(line@ =~= prev.update(i as int, done));
        i += 1;
    }
    assert(line@ =~= cleared_line(orig));
}

/// Gives every shown span back the colors it had before it was
/// highlighted.
pub fn clear_highlights(lines: &mut Vec<Line>)
    ensures
        lines_view(final(lines)@) == cleared_lines(lines_view(old(lines)@)),
{
    let ghost orig = lines_view(lines@);
    let mut i: usize = 0;
    while i < lines.len()
        invariant
            i <= lines@.len(),
            lines@.len() == orig.len(),
            forall|v: int| 0 <= v < i ==> #[trigger] lines@[v]@ == cleared_line(orig[v]),
            forall|v: int| i <= v < orig.len() ==> #[trigger] lines@[v]@ == orig[v],
        decreases lines@.len() - i,
    {
        let mut line = Line::empty();
        lines.set_and_swap(i, &mut line);
        clear_line(&mut line);
        lines.set_and_swap(i, &mut line);
        i += 1;
    }
    assert(lines_view(lines@) =~= cleared_lines(orig));
}

// ---------------------------------------------------------------------------
// Matches
// ---------------------------------------------------------------------------
/// `pat` occurs in `t` at byte `i`.
pub open spec fn bytes_at(t: Seq<u8>, pat: Seq<u8>, i: int) -> bool {
    0 <= i && i + pat.len() <= t.len() && t.subrange(i, i + pat.len()) == pat
}

/// `t` holds `pat`.
pub open spec fn contains_bytes(t: Seq<u8>, pat: Seq<u8>) -> bool {
    exists|i: int| bytes_at(t, pat, i)
}

/// Byte `p` lies in one of the matches of `pat` in `t` found by scanning
/// from `i`, each match taken from the left and the scan going on after it
/// (the matches do not overlap). An empty pattern covers nothing.
pub open spec fn covered_from(t: Seq<u8>, pat: Seq<u8>, i: nat, p: int) -> bool
    decreases t.len() - i,
{
    if pat.len() == 0 || i + pat.len() > t.len() {
        false
    } else if bytes_at(t, pat, i as int) {
        (i <= p < i + pat.len()) || covered_from(t, pat, i + pat.len(), p)
    } else {
        covered_from(t, pat, i + 1, p)
    }
}

/// A scan from `j` covers nothing before `j`.
pub proof fn lemma_covered_after(t: Seq<u8>, pat: Seq<u8>, j: nat, p: int)
    ensures
        covered_from(t, pat, j, p) ==> j <= p,
    decreases t.len() - j,
{
    if pat.len() == 0 || j + pat.len() > t.len() {
    } else if bytes_at(t, pat, j as int) {
        lemma_covered_after(t, pat, j + pat.len(), p);
    } else {
        lemma_covered_after(t, pat, j + 1, p);
    }
}

/// The spans of a line with those at the bytes of the matches of `pat` in
/// the line's text `t` highlighted.
pub open spec fn lit_line(spans: Seq<SpanView>, t: Seq<u8>, pat: Seq<u8>) -> Seq<SpanView> {
    Seq::new(spans.len(), |p: int| if covered_from(t, pat, 0, p) { lit_span(spans[p]) } else { spans[p] })
}

/// The lines after the match on line `m` is highlighted, when it lies in the
/// rows shown `first_row..=last_row`.
pub open spec fn light_match(
    ls: Seq<Seq<SpanView>>,
    texts: Seq<Seq<u8>>,
    first_row: nat,
    last_row: nat,
    m: nat,
    pat: Seq<u8>,
) -> Seq<Seq<SpanView>> {
    if m < first_row || m > last_row {
        ls
    } else {
        let v = m - first_row;
        if v < texts.len() && v < ls.len() {
            ls.update(v, lit_line(ls[v], texts[v], pat))
        } else {
            ls
        }
    }
}

/// The lines after the matches on lines `ms` are highlighted, one after the
/// other.
pub open spec fn light_matches(
    ls: Seq<Seq<SpanView>>,
    texts: Seq<Seq<u8>>,
    first_row: nat,
    last_row: nat,
    ms: Seq<usize>,
    pat: Seq<u8>,
) -> Seq<Seq<SpanView>>
    decreases ms.len(),
{
    if ms.len() == 0 {
        ls
    } else {
        light_match(
            light_matches(ls, texts, first_row, last_row, ms.drop_last(), pat),
            texts,
            first_row,
            last_row,
            ms.last() as nat,
            pat,
        )
    }
}

/// The bytes of lines of text.
pub open spec fn texts_bytes(v: Seq<String>) -> Seq<Seq<u8>> {
    v.map_values(|s: String| encode_utf8(s@))
}

fn bytes_match(t: &[u8], pat: &[u8], i: usize) -> (r: bool)
    requires
        i + pat@.len() <= t@.len(),
    ensures
        r == bytes_at(t@, pat@, i as int),
{
    let n = t.len();
    let mut k: usize = 0;
    while k < pat.len()
        invariant
            k <= pat@.len(),
            n == t@.len(),
            i + pat@.len() <= t@.len(),
            forall|j: int| 0 <= j < k ==> t@[i + j] == pat@[j],
        decreases pat@.len() - k,
    {
        if t[i + k] != pat[k] {
            assert(t@.subrange(i as int, i + pat@.len())[k as int] != pat@[k as int]);
            return false;
        }
        k += 1;
    }
    assert(t@.subrange(i as int, i + pat@.len()) =~= pat@);
    true
}

fn light_line(line: &mut Line, t: &[u8], pat: &[u8])
    ensures
        final(line)@ == lit_line(old(line)@, t@, pat@),
{
    let ghost orig = line@;
    let n = t.len();
    let plen = pat.len();
    if plen == 0 {
        assert(line@ =~= lit_line(orig, t@, pat@));
        return;
    }
    let mut i: usize = 0;
    while i <= n && plen <= n - i
        invariant
            n == t@.len(),
            plen == pat@.len(),
            plen > 0,
            i <= n,
            line@.len() == orig.len(),
            forall|p: int| p >= i ==> covered_from(t@, pat@, 0, p) == covered_from(t@, pat@, i as nat, p),
            forall|p: int|
                0 <= p < orig.len() ==> line@[p] == (if p < i && covered_from(t@, pat@, 0, p) {
                    lit_span(orig[p])
                } else {
                    orig[p]
                }),
        decreases n - i,
    {
        if bytes_match(t, pat, i) {
            let mut p = i;
            while p < i + plen
                invariant
                    i <= p <= i + plen,
                    i + plen <= n,
                    n == t@.len(),
                    plen == pat@.len(),
                    bytes_at(t@, pat@, i as int),
                    line@.len() == orig.len(),
                    forall|q: int| q >= i ==> covered_from(t@, pat@, 0, q) == covered_from(t@, pat@, i as nat, q),
                    forall|q: int|
                        0 <= q < orig.len() ==> line@[q] == (if (q < i && covered_from(t@, pat@, 0, q)) || (i
                            <= q < p) {
                            lit_span(orig[q])
                        } else {
                            orig[q]
                        }),
                decreases i + plen - p,
            {
                if p < line.spans.len() {
                    let mut s = Span {
                        text: String::new(),
                        bold: false,
                        foreground: Color { r: 0, g: 0, b: 0 },
                        background: Color { r: 0, g: 0, b: 0 },
                        original_background: None,
                        original_foreground: None,
                    };
                    let ghost prev = line@;
                    line.spans.set_and_swap(p, &mut s);
                    assert(s@ == prev[p as int]);
                    let bg = s.background;
                    let fg = s.foreground;
                    s.original_background = Some(bg);
                    s.background = Color { r: 255, g: 255, b: 0 };
                    s.original_foreground = Some(fg);
                    s.foreground = Color { r: 0, g: 0, b: 0 };
                    let ghost done = s@;
                    assert(done == lit_span(prev[p as int]));
                    line.spans.set_and_swap(p, &mut s);
                    assert(line@ =~= prev.update(p as int, done));
                }
                p += 1;
            }
            proof {
                assert forall|q: int| q >= i + plen implies covered_from(t@, pat@, 0, q) == covered_from(
                    t@,
                    pat@,
                    (i + plen) as nat,
                    q,
                ) by {
                    assert(covered_from(t@, pat@, i as nat, q) == ((i <= q < i + plen) || covered_from(
                        t@,
                        pat@,
                        (i + plen) as nat,
                        q,
                    )));
                }
                assert forall|q: int| i <= q < i + plen implies covered_from(t@, pat@, 0, q) by {
                    assert(covered_from(t@, pat@, i as nat, q));
                }
            }
            i += plen;
        } else {
            proof {
                assert forall|q: int| q >= i + 1 implies covered_from(t@, pat@, 0, q) == covered_from(
                    t@,
                    pat@,
                    (i + 1) as nat,
                    q,
                ) by {
                    assert(covered_from(t@, pat@, i as nat, q) == covered_from(t@, pat@, (i + 1) as nat, q));
                }
                assert(covered_from(t@, pat@, i as nat, i as int) == covered_from(t@, pat@, (i + 1) as nat, i as int));
                lemma_covered_after(t@, pat@, (i + 1) as nat, i as int);
            }
            i += 1;
        }
    }
    proof {
        assert forall|p: int| p >= i implies !covered_from(t@, pat@, 0, p) by {
            assert(!covered_from(t@, pat@, i as nat, p));
        }
    }
    assert(line@ =~= lit_line(orig, t@, pat@));
}

/// Highlights the matches of `filter` on the shown lines: the highlights
/// are cleared first; then for each match index `m` in `matches` that lies in
/// the rows shown `first_row..=last_row`, the spans at the bytes where
/// `filter` occurs in the shown text of that row are highlighted.
pub fn highlight_matches(
    lines: &mut Vec<Line>,
    texts: &Vec<String>,
    first_row: usize,
    last_row: usize,
    matches: &Vec<usize>,
    filter: &str,
)
    ensures
        lines_view(final(lines)@) == light_matches(
            cleared_lines(lines_view(old(lines)@)),
            texts_bytes(texts@),
            first_row as nat,
            last_row as nat,
            matches@,
            encode_utf8(filter@),
        ),
{
    clear_highlights(lines);
    let ghost start = lines_view(lines@);
    let ghost tb = texts_bytes(texts@);
    let pat = filter.as_bytes();
    let mut k: usize = 0;
    while k < matches.len()
        invariant
            k <= matches@.len(),
            tb == texts_bytes(texts@),
            pat@ == encode_utf8(filter@),
            lines_view(lines@) == light_matches(start, tb, first_row as nat, last_row as nat, matches@.take(k as int), pat@),
        decreases matches@.len() - k,
    {
        let m = matches[k];
        let ghost before = lines_view(lines@);
        assert(matches@.take(k + 1).drop_last() =~= matches@.take(k as int));
        assert(matches@.take(k + 1).last() == m);
        if m >= first_row && m <= last_row {
            let v = m - first_row;
            if v < texts.len() && v < lines.len() {
                let mut line = Line::empty();
                lines.set_and_swap(v, &mut line);
                let t = texts[v].as_str().as_bytes();
                assert(t@ == tb[v as int]);
                light_line(&mut line, t, pat);
                lines.set_and_swap(v, &mut line);
                assert(lines_view(lines@) =~= before.update(v as int, lit_line(before[v as int], tb[v as int], pat@)));
            }
        }
        k += 1;
    }
    assert(matches@.take(k as int) =~= matches@);
}

// ---------------------------------------------------------------------------
// The law of highlighting
// ---------------------------------------------------------------------------
/// Line `v` is the row of match `m`.
pub open spec fn hits(ls_len: nat, texts: Seq<Seq<u8>>, first_row: nat, last_row: nat, m: nat, v: int) -> bool {
    first_row <= m <= last_row && m - first_row == v && v < texts.len() && v < ls_len
}

proof fn lemma_light_matches_shape(
    ls: Seq<Seq<SpanView>>,
    texts: Seq<Seq<u8>>,
    first_row: nat,
    last_row: nat,
    ms: Seq<usize>,
    pat: Seq<u8>,
)
    requires
        forall|i: int, j: int| 0 <= i < j < ms.len() ==> ms[i] != ms[j],
    ensures
        light_matches(ls, texts, first_row, last_row, ms, pat).len() == ls.len(),
        forall|v: int|
            0 <= v < ls.len() ==> #[trigger] light_matches(ls, texts, first_row, last_row, ms, pat)[v] == if exists|
                k: int,
            | 0 <= k < ms.len() && hits(ls.len(), texts, first_row, last_row, ms[k] as nat, v) {
                lit_line(ls[v], texts[v], pat)
            } else {
                ls[v]
            },
    decreases ms.len(),
{
    if ms.len() > 0 {
        let init = ms.drop_last();
        lemma_light_matches_shape(ls, texts, first_row, last_row, init, pat);
        let prev = light_matches(ls, texts, first_row, last_row, init, pat);
        let m = ms.last() as nat;
        assert forall|v: int| 0 <= v < ls.len() implies #[trigger] light_matches(
            ls,
            texts,
            first_row,
            last_row,
            ms,
            pat,
        )[v] == if exists|k: int| 0 <= k < ms.len() && hits(ls.len(), texts, first_row, last_row, ms[k] as nat, v) {
            lit_line(ls[v], texts[v], pat)
        } else {
            ls[v]
        } by {
            if hits(ls.len(), texts, first_row, last_row, m, v) {
                assert(0 <= ms.len() - 1 < ms.len());
                assert(hits(ls.len(), texts, first_row, last_row, ms[ms.len() - 1] as nat, v));
                if exists|k: int| 0 <= k < init.len() && hits(ls.len(), texts, first_row, last_row, init[k] as nat, v) {
                    let k = choose|k: int| 0 <= k < init.len() && hits(ls.len(), texts, first_row, last_row, init[k] as nat, v);
                    assert(ms[k] == init[k]);
                    assert(ms[k] != ms[ms.len() - 1]);
                }
            } else {
                if exists|k: int| 0 <= k < ms.len() && hits(ls.len(), texts, first_row, last_row, ms[k] as nat, v) {
                    let k = choose|k: int| 0 <= k < ms.len() && hits(ls.len(), texts, first_row, last_row, ms[k] as nat, v);
                    assert(k != ms.len() - 1);
                    assert(init[k] == ms[k]);
                }
            }
        }
    }
}

/// Clearing the highlights after the matches were highlighted gives every
/// span back the colors it had before, provided no line is listed twice
/// among the matches.
pub proof fn law_clear_undoes_highlight(
    ls: Seq<Seq<SpanView>>,
    texts: Seq<Seq<u8>>,
    first_row: nat,
    last_row: nat,
    ms: Seq<usize>,
    pat: Seq<u8>,
)
    requires
        forall|i: int, j: int| 0 <= i < j < ms.len() ==> ms[i] != ms[j],
    ensures
        cleared_lines(light_matches(cleared_lines(ls), texts, first_row, last_row, ms, pat)) == cleared_lines(ls),
{
    let c = cleared_lines(ls);
    lemma_light_matches_shape(c, texts, first_row, last_row, ms, pat);
    let h = light_matches(c, texts, first_row, last_row, ms, pat);
    assert forall|v: int| 0 <= v < c.len() implies #[trigger] cleared_line(h[v]) == c[v] by {
        assert(c[v] == cleared_line(ls[v]));
        assert forall|p: int| 0 <= p < c[v].len() implies cleared_span(lit_span(c[v][p])) == c[v][p]
            && cleared_span(c[v][p]) == c[v][p] by {}
        if exists|k: int| 0 <= k < ms.len() && hits(c.len(), texts, first_row, last_row, ms[k] as nat, v) {
            assert(cleared_line(lit_line(c[v], texts[v], pat)) =~= c[v]);
        } else {
            assert(cleared_line(c[v]) =~= c[v]);
        }
    }
    assert(cleared_lines(h) =~= c);
}

// ---------------------------------------------------------------------------
// The search filter
// ---------------------------------------------------------------------------
/// The search over the response: the indexes of the lines that match, their
/// count, the position of the match shown, and the text searched for.
#[derive(Debug, Default)]
pub struct TextFilter {
    pub indexes: Vec<usize>,
    pub total: usize,
    pub search_navigation_cursor: usize,
    pub filter: String,
}

impl TextFilter {
    pub fn new() -> (r: TextFilter)
        ensures
            r.indexes@.len() == 0,
            r.total == 0,
            r.search_navigation_cursor == 0,
            r.filter@ == ""@,
    {
        TextFilter { indexes: Vec::new(), total: 0, search_navigation_cursor: 0, filter: "".to_owned() }
    }
}

/// The indexes of the lines before `k` that hold `pat`, in order.
pub open spec fn matching_lines(lines: Seq<Seq<u8>>, pat: Seq<u8>, k: nat) -> Seq<usize>
    decreases k,
{
    if k == 0 {
        Seq::empty()
    } else {
        let prev = matching_lines(lines, pat, (k - 1) as nat);
        if contains_bytes(lines[k - 1], pat) {
            prev.push((k - 1) as usize)
        } else {
            prev
        }
    }
}

/// The lines listed by a search are exactly those before `k` that hold the
/// text searched for, each once and in order.
pub proof fn law_search_lists_matching_lines(lines: Seq<Seq<u8>>, pat: Seq<u8>, k: nat)
    requires
        k <= lines.len(),
        k <= usize::MAX,
    ensures
        forall|a: int, b: int|
            0 <= a < b < matching_lines(lines, pat, k).len() ==> matching_lines(lines, pat, k)[a]
                < matching_lines(lines, pat, k)[b],
        forall|a: int| 0 <= a < matching_lines(lines, pat, k).len() ==> matching_lines(lines, pat, k)[a] < k,
        forall|j: usize| j < k ==> (matching_lines(lines, pat, k).contains(j) <==> contains_bytes(lines[j as int], pat)),
    decreases k,
{
    if k > 0 {
        let km = (k - 1) as nat;
        law_search_lists_matching_lines(lines, pat, km);
        let prev = matching_lines(lines, pat, km);
        let cur = matching_lines(lines, pat, k);
        let last = km as usize;
        assert(last == km);
        if contains_bytes(lines[km as int], pat) {
            assert(cur == prev.push(last));
            assert forall|j: usize| j < k implies (cur.contains(j) <==> contains_bytes(lines[j as int], pat)) by {
                if j < km {
                    if cur.contains(j) {
                        let a = choose|a: int| 0 <= a < cur.len() && cur[a] == j;
                        if a < prev.len() {
                            assert(prev.contains(j));
                        }
                    }
                    if prev.contains(j) {
                        let a = choose|a: int| 0 <= a < prev.len() && prev[a] == j;
                        assert(cur[a] == j);
                    }
                } else {
                    assert(cur[prev.len() as int] == j);
                }
            }
        } else {
            assert(cur == prev);
            assert forall|j: usize| j < k implies (cur.contains(j) <==> contains_bytes(lines[j as int], pat)) by {
                if j == km && cur.contains(j) {
                    let a = choose|a: int| 0 <= a < cur.len() && cur[a] == j;
                    assert(prev[a] < km);
                }
            }
        }
    }
}

fn contains(t: &[u8], pat: &[u8]) -> (r: bool)
    ensures
        r == contains_bytes(t@, pat@),
{
    let n = t.len();
    let plen = pat.len();
    if plen > n {
        assert forall|i: int| !bytes_at(t@, pat@, i) by {}
        return false;
    }
    if plen == 0 {
        assert(t@.subrange(0, 0) =~= pat@);
        assert(bytes_at(t@, pat@, 0));
        return true;
    }
    let mut i: usize = 0;
    while i <= n - plen
        invariant
            plen > 0,
            n == t@.len(),
            plen == pat@.len(),
            plen <= n,
            i <= n - plen + 1,
            forall|j: int| 0 <= j < i ==> !bytes_at(t@, pat@, j),
        decreases n - plen + 1 - i,
    {
        if bytes_match(t, pat, i) {
            return true;
        }
        i += 1;
    }
    assert forall|j: int| !bytes_at(t@, pat@, j) by {
        if 0 <= j < i {
        }
    }
    false
}

/// The indexes of the response lines that hold `filter`.
pub fn filter_indexes(lines: &Vec<String>, filter: &str) -> (r: Vec<usize>)
    ensures
        r@ == matching_lines(texts_bytes(lines@), encode_utf8(filter@), lines@.len()),
{
    let pat = filter.as_bytes();
    let ghost tb = texts_bytes(lines@);
    let mut r: Vec<usize> = Vec::new();
    let mut k: usize = 0;
    while k < lines.len()
        invariant
            k <= lines@.len(),
            tb == texts_bytes(lines@),
            pat@ == encode_utf8(filter@),
            r@ == matching_lines(tb, pat@, k as nat),
        decreases lines@.len() - k,
    {
        let t = lines[k].as_str().as_bytes();
        assert(t@ == tb[k as int]);
        if contains(t, pat) {
            r.push(k);
        }
        k += 1;
    }
    r
}

// ---------------------------------------------------------------------------
// The window of lines shown
// ---------------------------------------------------------------------------
/// A line as shown in a view `width` bytes wide: a longer line is cut to
/// its first `width - 5` bytes (none when narrower) followed by `...`.
pub open spec fn shown_line(line: Seq<char>, width: nat) -> Seq<char> {
    let bytes = encode_utf8(line);
    if bytes.len() > width {
        vstd::utf8::decode_utf8(bytes.take(if width >= 5 { width - 5 } else { 0 })) + "..."@
    } else {
        line
    }
}

/// Where a line longer than the view is cut lies between two characters.
pub open spec fn cut_is_clean(line: Seq<char>, width: nat) -> bool {
    let bytes = encode_utf8(line);
    bytes.len() > width ==> vstd::utf8::is_char_boundary(bytes, if width >= 5 { width - 5 } else { 0 })
}

/// The line as shown in a view `width` bytes wide.
pub fn truncate_line(line: &str, width: u16) -> (r: String)
    requires
        cut_is_clean(line@, width as nat),
    ensures
        r@ == shown_line(line@, width as nat),
{
    let n = line.as_bytes().len();
    if n > width as usize {
        let cut = width.saturating_sub(5) as usize;
        let ghost bytes = encode_utf8(line@);
        assert(cut == (if width >= 5 { width - 5 } else { 0 }));
        let (head, _) = line.split_at(cut);
        proof {
            vstd::utf8::encode_utf8_decode_utf8(head@);
            assert(encode_utf8(head@) == bytes.take(cut as int));
            assert(vstd::utf8::decode_utf8(encode_utf8(head@)) == head@);
            assert(head@ == vstd::utf8::decode_utf8(bytes.take(cut as int)));
        }
        concat(head, "...")
    } else {
        line.to_owned()
    }
}

/// The lines shown from `offset`, at most `height` of them.
pub open spec fn shown_lines(lines: Seq<String>, offset: nat, height: nat, width: nat) -> Seq<Seq<char>> {
    let end: int = if offset + height <= lines.len() { (offset + height) as int } else { lines.len() as int };
    Seq::new(
        if offset <= end { (end - offset) as nat } else { 0 },
        |k: int| shown_line(lines[offset + k]@, width),
    )
}

/// Lines joined by line breaks.
pub open spec fn joined_lines(lines: Seq<Seq<char>>) -> Seq<char>
    decreases lines.len(),
{
    if lines.len() == 0 {
        Seq::empty()
    } else if lines.len() == 1 {
        lines[0]
    } else {
        joined_lines(lines.drop_last()) + "\n"@ + lines.last()
    }
}

/// Whether a scroll to `offset` goes past the end of `len` lines in a view
/// `height` lines high: the share of the lines above the offset would reach
/// the whole. With no height the share has no value and never reaches it;
/// with no lines, only a scroll away from the top does.
pub open spec fn scroll_is_past_end(offset: nat, len: nat, height: nat) -> bool {
    height > 0 && offset > 0 && offset >= len
}

/// The lines, joined by line breaks.
pub fn join_lines(lines: &Vec<String>) -> (r: String)
    ensures
        r@ == joined_lines(lines@.map_values(|s: String| s@)),
{
    let ghost all = lines@.map_values(|s: String| s@);
    let mut out = String::new();
    let mut i: usize = 0;
    while i < lines.len()
        invariant
            i <= lines@.len(),
            all == lines@.map_values(|s: String| s@),
            out@ == joined_lines(all.take(i as int)),
        decreases lines@.len() - i,
    {
        let ghost before = all.take(i as int);
        assert(all.take(i + 1).drop_last() =~= before);
        if i == 0 {
            out = lines[i].clone();
            assert(all.take(1) =~= seq![all[0]]);
        } else {
            let with_break = concat(out.as_str(), "\n");
            out = concat(with_break.as_str(), lines[i].as_str());
        }
        i += 1;
    }
    assert(all.take(i as int) =~= all);
    out
}

/// Which way a page scroll goes.
#[derive(Debug, Clone, Copy, PartialEq, Eq, Structural)]
pub enum ScrollDirection {
    Up,
    Down,
}

/// The view of the response body.
#[derive(Debug)]
pub struct ResponseRenderer {
    pub text_filter: TextFilter,
    /// The index of the first line shown.
    pub response_offset: usize,
    /// How many lines fit.
    pub viewport_height: usize,
    /// The extension the text is highlighted as.
    pub extension: String,
    /// All the lines of the response.
    pub response_lines: Vec<String>,
    pub code_sample: Option<String>,
    pub code_ext: Option<String>,
}

/// What the response view shows and searches.
#[derive(Debug)]
pub struct ResponseRendererState {
    /// The lines shown, as styled spans.
    pub lines: Vec<Line>,
    pub filter: String,
    pub filter_indexes: Vec<usize>,
    pub filter_total: usize,
    pub filter_nav_index: usize,
}

/// What a new search asks of the interface.
#[derive(Debug, Clone, Copy, PartialEq, Eq, Structural)]
pub enum FilterOutcome {
    /// The search was emptied: nothing is highlighted any more.
    Cleared,
    /// No line matches: nothing is highlighted.
    NoMatch,
    /// Lines match: scroll to the page of the first one, then highlight the
    /// matches shown.
    Matches,
}

/// What the response view asks of the interface after a key.
#[derive(Debug, Clone, Copy, PartialEq, Eq, Structural)]
pub enum ResponseKeyAction {
    Nothing,
    /// Give the focus back to the application.
    FocusApp,
    /// Show the page from this line, and highlight the matches anew when a
    /// search is on.
    ScrollTo(usize),
    /// Scroll the view to this line.
    ScrollToLine(usize),
    /// Focus the search input, and search again when a search is on.
    FocusFilterInput,
}

/// The position of the match before `cursor`; from the first, the last.
pub open spec fn previous_position(indexes: Seq<usize>, cursor: usize) -> usize {
    if cursor == 0 {
        (if indexes.len() > 0 { indexes.len() - 1 } else { 0 }) as usize
    } else {
        (cursor - 1) as usize
    }
}

/// The position of the match after `cursor`; from the last, the first.
pub open spec fn next_position(indexes: Seq<usize>, cursor: usize) -> int {
    if cursor == (if indexes.len() > 0 { indexes.len() - 1 } else { 0 }) {
        0
    } else {
        cursor + 1
    }
}

/// The line of the match at `at`, or 0 when there is none.
pub open spec fn match_line(indexes: Seq<usize>, at: int) -> usize {
    if 0 <= at < indexes.len() {
        indexes[at]
    } else {
        0
    }
}

impl ResponseRendererState {
    pub fn new() -> (r: ResponseRendererState)
        ensures
            r.lines@.len() == 1,
            r.lines@[0]@.len() == 0,
            r.filter@ == ""@,
            r.filter_indexes@.len() == 0,
            r.filter_total == 0,
            r.filter_nav_index == 0,
    {
        let mut lines: Vec<Line> = Vec::new();
        lines.push(Line::empty());
        ResponseRendererState {
            lines,
            filter: "".to_owned(),
            filter_indexes: Vec::new(),
            filter_total: 0,
            filter_nav_index: 0,
        }
    }
}

impl ResponseRenderer {
    pub fn new() -> (r: ResponseRenderer)
        ensures
            r.text_filter.indexes@.len() == 0,
            r.text_filter.total == 0,
            r.text_filter.search_navigation_cursor == 0,
            r.response_offset == 0,
            r.viewport_height == 0,
            r.extension@ == ""@,
            r.response_lines@.len() == 0,
            r.code_sample is None,
            r.code_ext is None,
    {
        ResponseRenderer {
            text_filter: TextFilter::new(),
            response_offset: 0,
            viewport_height: 0,
            extension: "".to_owned(),
            response_lines: Vec::new(),
            code_sample: None,
            code_ext: None,
        }
    }

    /// The first line of the page a scroll leads to: a page up stops at the
    /// top.
    pub fn scroll_offset(&self, direction: ScrollDirection) -> (r: usize)
        requires
            direction is Down ==> self.response_offset + self.viewport_height <= usize::MAX,
        ensures
            direction is Up ==> r == (if self.response_offset >= self.viewport_height {
                self.response_offset - self.viewport_height
            } else {
                0
            }),
            direction is Down ==> r == self.response_offset + self.viewport_height,
    {
        match direction {
            ScrollDirection::Up => self.response_offset.saturating_sub(self.viewport_height),
            ScrollDirection::Down => self.response_offset + self.viewport_height,
        }
    }

    /// The lines shown from `offset` in a view `height` lines high and
    /// `width` bytes wide.
    pub fn viewable_lines(&self, offset: usize, height: usize, width: u16) -> (r: Vec<String>)
        requires
            offset + height <= usize::MAX,
            forall|k: int| offset <= k < offset + height && k < self.response_lines@.len()
                ==> cut_is_clean(#[trigger] self.response_lines@[k]@, width as nat),
        ensures
            r@.map_values(|s: String| s@) == shown_lines(self.response_lines@, offset as nat, height as nat, width as nat),
    {
        let len = self.response_lines.len();
        let last = offset + height;
        let end = if last < len {
            last
        } else {
            len
        };
        let mut r: Vec<String> = Vec::new();
        if end <= offset {
            assert(r@.map_values(|s: String| s@) =~= shown_lines(self.response_lines@, offset as nat, height as nat, width as nat));
            return r;
        }
        let mut i = offset;
        while i < end
            invariant
                offset <= i <= end,
                end <= len,
                len == self.response_lines@.len(),
                end == (if offset + height <= len { (offset + height) as int } else { len as int }),
                forall|k: int| offset <= k < offset + height && k < self.response_lines@.len()
                    ==> cut_is_clean(#[trigger] self.response_lines@[k]@, width as nat),
                r@.len() == i - offset,
                forall|j: int| 0 <= j < r@.len() ==> #[trigger] r@[j]@ == shown_line(self.response_lines@[offset + j]@, width as nat),
            decreases end - i,
        {
            assert(cut_is_clean(self.response_lines@[i as int]@, width as nat));
            r.push(truncate_line(self.response_lines[i].as_str(), width));
            i += 1;
        }
        assert(r@.map_values(|s: String| s@) =~= shown_lines(self.response_lines@, offset as nat, height as nat, width as nat));
        r
    }

    /// A scroll to `offset`. Without a response to read or a known size
    /// (`size` is the view's width and height) nothing happens. Otherwise the
    /// view takes the height, and the page from `offset` is shown unless
    /// `offset` lies past the last line (see `scroll_is_past_end`), in which
    /// case the offset stays where it was and nothing is shown anew. The
    /// result is the text of the lines to show, joined by line breaks.
    pub fn scroll_response(&mut self, has_response: bool, size: Option<(u16, u16)>, offset: usize) -> (r: Option<
        String,
    >)
        requires
            size matches Some((w, h)) ==> {
                &&& offset + h <= usize::MAX
                &&& forall|k: int| offset <= k < offset + h && k < old(self).response_lines@.len()
                    ==> cut_is_clean(#[trigger] old(self).response_lines@[k]@, w as nat)
            },
        ensures
            final(self).response_lines@ == old(self).response_lines@,
            final(self).text_filter == old(self).text_filter,
            final(self).extension == old(self).extension,
            !has_response || size is None ==> r is None && *final(self) == *old(self),
            has_response && size is Some ==> ({
                let w = size->Some_0.0;
                let h = size->Some_0.1;
                &&& final(self).viewport_height == h as usize
                &&& if scroll_is_past_end(offset as nat, old(self).response_lines@.len(), h as nat) {
                    &&& r is None
                    &&& final(self).response_offset == old(self).response_offset
                } else {
                    &&& final(self).response_offset == offset
                    &&& r matches Some(t) && t@ == joined_lines(
                        shown_lines(old(self).response_lines@, offset as nat, h as nat, w as nat),
                    )
                }
            }),
    {
        if !has_response {
            return None;
        }
        let (width, height) = match size {
            Some(wh) => wh,
            None => {
                return None;
            },
        };
        let last_offset = self.response_offset;
        self.response_offset = offset;
        self.viewport_height = height as usize;
        let lines = self.viewable_lines(offset, height as usize, width);
        let text = join_lines(&lines);
        let len = self.response_lines.len();
        if height > 0 && offset > 0 && offset >= len {
            self.response_offset = last_offset;
            return None;
        }
        Some(text)
    }

    /// The search text changed: the matches are listed again. An empty
    /// search clears the list and the highlights and resets the search kept;
    /// a search without matches clears the highlights and keeps the search
    /// kept; a search with matches is kept with them.
    pub fn apply_response_filter(&mut self, state: &mut ResponseRendererState, filter: &str) -> (r: FilterOutcome)
        ensures
            final(state).filter_nav_index == 0,
            final(state).filter@ == old(state).filter@,
            final(self).response_lines@ == old(self).response_lines@,
            final(self).response_offset == old(self).response_offset,
            final(self).viewport_height == old(self).viewport_height,
            filter@.len() == 0 ==> {
                &&& r is Cleared
                &&& final(state).filter_indexes@.len() == 0
                &&& final(state).filter_total == 0
                &&& final(self).text_filter.indexes@.len() == 0
                &&& final(self).text_filter.total == 0
                &&& final(self).text_filter.search_navigation_cursor == 0
                &&& final(self).text_filter.filter@ == old(state).filter@
                &&& lines_view(final(state).lines@) == cleared_lines(lines_view(old(state).lines@))
            },
            filter@.len() > 0 ==> {
                let found = matching_lines(
                    texts_bytes(old(self).response_lines@),
                    encode_utf8(filter@),
                    old(self).response_lines@.len(),
                );
                &&& final(state).filter_indexes@ == found
                &&& final(state).filter_total == found.len()
                &&& if found.len() > 0 {
                    &&& r is Matches
                    &&& final(self).text_filter.indexes@ == found
                    &&& final(self).text_filter.total == found.len()
                    &&& final(self).text_filter.search_navigation_cursor == 0
                    &&& final(self).text_filter.filter@ == old(state).filter@
                    &&& final(state).lines@ == old(state).lines@
                } else {
                    &&& r is NoMatch
                    &&& final(self).text_filter == old(self).text_filter
                    &&& lines_view(final(state).lines@) == cleared_lines(lines_view(old(state).lines@))
                }
            },
    {
        state.filter_indexes = Vec::new();
        state.filter_total = 0;
        state.filter_nav_index = 0;
        if filter.is_empty() {
            self.text_filter = TextFilter {
                indexes: Vec::new(),
                total: 0,
                search_navigation_cursor: 0,
                filter: state.filter.clone(),
            };
            clear_highlights(&mut state.lines);
            return FilterOutcome::Cleared;
        }
        let found = filter_indexes(&self.response_lines, filter);
        let mut copy: Vec<usize> = Vec::new();
        let mut i: usize = 0;
        while i < found.len()
            invariant
                i <= found@.len(),
                copy@ == found@.take(i as int),
            decreases found@.len() - i,
        {
            copy.push(found[i]);
            assert(found@.take(i + 1) =~= found@.take(i as int).push(found@[i as int]));
            i += 1;
        }
        assert(found@.take(i as int) =~= found@);
        state.filter_total = found.len();
        state.filter_indexes = found;
        if copy.len() > 0 {
            self.text_filter = TextFilter {
                total: copy.len(),
                indexes: copy,
                search_navigation_cursor: 0,
                filter: state.filter.clone(),
            };
            FilterOutcome::Matches
        } else {
            clear_highlights(&mut state.lines);
            FilterOutcome::NoMatch
        }
    }

    /// The search input reports its text: it becomes the search, and the
    /// matches are listed again (see `apply_response_filter`). The input
    /// giving up focus hands it back to the view (`None`).
    pub fn receive(&mut self, state: &mut ResponseRendererState, ident: &str, value: &str) -> (r: Option<
        FilterOutcome,
    >)
        ensures
            ident@ == "response_filter__input_update"@ ==> {
                &&& final(state).filter@ == value@
                &&& final(state).filter_nav_index == 0
                &&& final(state).filter_indexes@ == if value@.len() == 0 {
                    Seq::empty()
                } else {
                    matching_lines(texts_bytes(old(self).response_lines@), encode_utf8(value@), old(self).response_lines@.len())
                }
                &&& r == Some(
                    if value@.len() == 0 {
                        FilterOutcome::Cleared
                    } else if final(state).filter_indexes@.len() > 0 {
                        FilterOutcome::Matches
                    } else {
                        FilterOutcome::NoMatch
                    },
                )
            },
            ident@ != "response_filter__input_update"@ ==> r is None && final(state).filter == old(
                state,
            ).filter && final(state).filter_indexes == old(state).filter_indexes,
    {
        if crate::text::str_is(ident, "response_filter__input_update") {
            state.filter = value.to_owned();
            Some(self.apply_response_filter(state, value))
        } else {
            None
        }
    }

    /// Moves to the previous match, from the first to the last: the line to
    /// scroll to (0 without matches).
    pub fn previous_match(&mut self) -> (line: usize)
        ensures
            final(self).text_filter.search_navigation_cursor == previous_position(
                old(self).text_filter.indexes@,
                old(self).text_filter.search_navigation_cursor,
            ),
            line == match_line(
                old(self).text_filter.indexes@,
                previous_position(old(self).text_filter.indexes@, old(self).text_filter.search_navigation_cursor) as int,
            ),
            final(self).text_filter.indexes@ == old(self).text_filter.indexes@,
            final(self).response_offset == old(self).response_offset,
            final(self).viewport_height == old(self).viewport_height,
    {
        let current = self.text_filter.search_navigation_cursor;
        let at = if current == 0 {
            self.text_filter.indexes.len().saturating_sub(1)
        } else {
            current - 1
        };
        self.text_filter.search_navigation_cursor = at;
        if at < self.text_filter.indexes.len() {
            self.text_filter.indexes[at]
        } else {
            0
        }
    }

    /// Moves to the next match, from the last back to the first: the line
    /// to scroll to (0 without matches). The position kept is then that
    /// line's index in the response, not the match's position.
    pub fn next_match(&mut self) -> (line: usize)
        requires
            old(self).text_filter.search_navigation_cursor < usize::MAX,
        ensures
            line == match_line(
                old(self).text_filter.indexes@,
                next_position(old(self).text_filter.indexes@, old(self).text_filter.search_navigation_cursor),
            ),
            final(self).text_filter.search_navigation_cursor == line,
            final(self).text_filter.indexes@ == old(self).text_filter.indexes@,
            final(self).response_offset == old(self).response_offset,
            final(self).viewport_height == old(self).viewport_height,
    {
        let current = self.text_filter.search_navigation_cursor;
        let last = self.text_filter.indexes.len().saturating_sub(1);
        let at = if current == last {
            0
        } else {
            current + 1
        };
        let line = if at < self.text_filter.indexes.len() {
            self.text_filter.indexes[at]
        } else {
            0
        };
        self.text_filter.search_navigation_cursor = line;
        line
    }

    /// Handles a key: escape hands the focus back; control with `d` and `u`
    /// pages down and up, with `p` and `n` moves between matches; `f` focuses
    /// the search input.
    pub fn on_key(&mut self, key: KeyEvent) -> (r: ResponseKeyAction)
        requires
            key.code == KeyCode::Char('d') && key.ctrl ==> old(self).response_offset + old(self).viewport_height
                <= usize::MAX,
            key.code == KeyCode::Char('n') && key.ctrl ==> old(self).text_filter.search_navigation_cursor
                < usize::MAX,
        ensures
            key.code == KeyCode::Esc ==> r is FocusApp && *final(self) == *old(self),
            key.code == KeyCode::Char('d') && key.ctrl ==> r == ResponseKeyAction::ScrollTo(
                (old(self).response_offset + old(self).viewport_height) as usize,
            ) && *final(self) == *old(self),
            key.code == KeyCode::Char('u') && key.ctrl ==> r == ResponseKeyAction::ScrollTo(
                (if old(self).response_offset >= old(self).viewport_height {
                    old(self).response_offset - old(self).viewport_height
                } else {
                    0
                }) as usize,
            ) && *final(self) == *old(self),
            key.code == KeyCode::Char('p') && key.ctrl ==> {
                let at = previous_position(
                    old(self).text_filter.indexes@,
                    old(self).text_filter.search_navigation_cursor,
                );
                &&& r == ResponseKeyAction::ScrollToLine(match_line(old(self).text_filter.indexes@, at as int))
                &&& final(self).text_filter.search_navigation_cursor == at
                &&& final(self).text_filter.indexes@ == old(self).text_filter.indexes@
            },
            key.code == KeyCode::Char('n') && key.ctrl ==> {
                let line = match_line(
                    old(self).text_filter.indexes@,
                    next_position(old(self).text_filter.indexes@, old(self).text_filter.search_navigation_cursor),
                );
                &&& r == ResponseKeyAction::ScrollToLine(line)
                &&& final(self).text_filter.search_navigation_cursor == line
                &&& final(self).text_filter.indexes@ == old(self).text_filter.indexes@
            },
            !(key.code == KeyCode::Esc || key.code == KeyCode::Char('f') || key.code == KeyCode::Char('d')
                || key.code == KeyCode::Char('u') || key.code == KeyCode::Char('p') || key.code
                == KeyCode::Char('n')) ==> r is Nothing && *final(self) == *old(self),
            key.code == KeyCode::Char('f') && !key.ctrl ==> r is FocusFilterInput && *final(self) == *old(self),
    {
        match key.code {
            KeyCode::Esc => ResponseKeyAction::FocusApp,
            KeyCode::Char(c) => {
                if key.ctrl {
                    if c == 'd' {
                        ResponseKeyAction::ScrollTo(self.scroll_offset(ScrollDirection::Down))
                    } else if c == 'u' {
                        ResponseKeyAction::ScrollTo(self.scroll_offset(ScrollDirection::Up))
                    } else if c == 'p' {
                        ResponseKeyAction::ScrollToLine(self.previous_match())
                    } else if c == 'n' {
                        ResponseKeyAction::ScrollToLine(self.next_match())
                    } else {
                        ResponseKeyAction::Nothing
                    }
                } else if c == 'f' {
                    ResponseKeyAction::FocusFilterInput
                } else {
                    ResponseKeyAction::Nothing
                }
            },
            _ => ResponseKeyAction::Nothing,
        }
    }

    /// A theme preview was asked: the code sample (the one given the first
    /// time) is shown as Rust code. Without a theme nothing changes.
    pub fn preview_sample(&mut self, theme: &Option<String>, sample: &str) -> (r: Option<String>)
        ensures
            theme is None ==> r is None && final(self).code_sample == old(self).code_sample
                && final(self).extension == old(self).extension,
            theme is Some ==> {
                let code = match old(self).code_sample {
                    Some(c) => c@,
                    None => sample@,
                };
                let ext = match old(self).code_ext {
                    Some(e) => e@,
                    None => "rs"@,
                };
                &&& r matches Some(c) && c@ == code
                &&& final(self).extension@ == ext
                &&& final(self).code_sample matches Some(c) && c@ == code
                &&& final(self).code_ext matches Some(e) && e@ == ext
            },
    {
        if theme.is_none() {
            return None;
        }
        if self.code_sample.is_none() {
            self.code_sample = Some(sample.to_owned());
        }
        if self.code_ext.is_none() {
            self.code_ext = Some("rs".to_owned());
        }
        let ext = match &self.code_ext {
            Some(e) => e.clone(),
            None => "rs".to_owned(),
        };
        self.extension = ext;
        match &self.code_sample {
            Some(c) => Some(c.clone()),
            None => Some(sample.to_owned()),
        }
    }
}

/// Highlighting the matches a search lists, then clearing the highlights,
/// gives every span back the colors it had.
pub proof fn law_search_highlights_clear(
    ls: Seq<Seq<SpanView>>,
    texts: Seq<Seq<u8>>,
    first_row: nat,
    last_row: nat,
    lines: Seq<Seq<u8>>,
    pat: Seq<u8>,
)
    requires
        lines.len() <= usize::MAX,
    ensures
        ({
            let found = matching_lines(lines, pat, lines.len());
            cleared_lines(light_matches(cleared_lines(ls), texts, first_row, last_row, found, pat))
                == cleared_lines(ls)
        }),
{
    let found = matching_lines(lines, pat, lines.len());
    law_search_lists_matching_lines(lines, pat, lines.len());
    assert forall|i: int, j: int| 0 <= i < j < found.len() implies found[i] != found[j] by {
        assert(found[i] < found[j]);
    }
    law_clear_undoes_highlight(ls, texts, first_row, last_row, found, pat);
}

} // verus!

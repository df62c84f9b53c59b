//! Terminal output as data: runs of text, each with the style it is shown in.

use vstd::prelude::*;

verus! {

/// Foreground colour of a run of text.
#[derive(Clone, Copy, Debug, PartialEq, Eq, Structural)]
pub enum Color {
    Plain,
    Red,
    Green,
    Yellow,
    Blue,
    Cyan,
    White,
}

/// A run of text shown in one style.
#[derive(Clone, Debug, PartialEq, Eq)]
pub struct Span {
    pub text: String,
    pub color: Color,
    pub bold: bool,
}

/// What a [`Span`] stands for: its characters and its style.
pub ghost struct SpanView {
    pub text: Seq<char>,
    pub color: Color,
    pub bold: bool,
}

impl View for Span {
    type V = SpanView;

    open spec fn view(&self) -> SpanView {
        SpanView { text: self.text@, color: self.color, bold: self.bold }
    }
}

impl DeepView for Span {
    type V = SpanView;

    open spec fn deep_view(&self) -> SpanView {
        self@
    }
}

/// The run `text` in the given style.
pub open spec fn styled(text: Seq<char>, color: Color, bold: bool) -> SpanView {
    SpanView { text, color, bold }
}

/// The run `text` in the terminal's default style.
pub open spec fn plain(text: Seq<char>) -> SpanView {
    styled(text, Color::Plain, false)
}

/// One styled line: the run `text`, then a line break.
pub open spec fn line(text: Seq<char>, color: Color, bold: bool) -> Seq<SpanView> {
    seq![styled(text, color, bold), plain("\n"@)]
}

/// The characters of `spans` in order, styles dropped.
pub open spec fn text_of(spans: Seq<SpanView>) -> Seq<char>
    decreases spans.len(),
{
    if spans.len() == 0 {
        Seq::empty()
    } else {
        text_of(spans.drop_last()) + spans.last().text
    }
}

/// The text of two runs of spans, one after the other, is the text of the
/// first followed by the text of the second.
pub proof fn lemma_text_of_concat(first: Seq<SpanView>, second: Seq<SpanView>)
    ensures
        text_of(first + second) == text_of(first) + text_of(second),
    decreases second.len(),
{
    if second.len() == 0 {
    } else {
        lemma_text_of_concat(first, second.drop_last());
        assert((first + second).drop_last() =~= first + second.drop_last());
    }
}

/// The text of a styled line is its text and a line break.
pub proof fn lemma_text_of_line(text: Seq<char>, color: Color, bold: bool)
    ensures
        text_of(line(text, color, bold)) == text + "\n"@,
{
    reveal_with_fuel(text_of, 3);
}

impl Span {
    /// A span holding a copy of `text` in the given style.
    pub fn new(text: &str, color: Color, bold: bool) -> (span: Span)
        ensures
            span@ == styled(text@, color, bold),
    {
        Span { text: String::from_str(text), color, bold }
    }
}

/// Appends the two spans of a styled line to `out`.
pub fn push_line(out: &mut Vec<Span>, text: &str, color: Color, bold: bool)
    ensures
        final(out).deep_view() == old(out).deep_view() + line(text@, color, bold),
{
    out.push(Span::new(text, color, bold));
    out.push(Span::new("\n", Color::Plain, false));
}

/// The text of `spans` with the styles dropped: what a terminal without
/// colours shows.
pub fn plain_text(spans: &Vec<Span>) -> (text: String)
    ensures
        text@ == text_of(spans.deep_view()),
{
    let mut text = String::new();
    let mut i: usize = 0;
    while i < spans.len()
        invariant
            i <= spans.len(),
            text@ == text_of(spans.deep_view().take(i as int)),
        decreases spans.len() - i,
    {
        text.append(spans[i].text.as_str());
        proof {
            let done = spans.deep_view().take(i as int + 1);
            assert(done.drop_last() =~= spans.deep_view().take(i as int));
        }
        i += 1;
    }
    assert(spans.deep_view().take(i as int) =~= spans.deep_view());
    text
}

} // verus!

//! The Lumis option types as Elixir spells them.
//!
//! Lumis carries the formatters but not their BEAM wire format, so every
//! runtime that speaks to the BEAM declares the terms itself. These mirror
//! the `:lumis` application's definitions field for field: it encodes the
//! terms that are decoded into these, so the two have to agree.

use vstd::prelude::*;

use std::collections::HashMap;
use std::ops::RangeInclusive;

use lumis_core::formatter::html::SteppedLineRange;

verus! {

/// Whether a theme is light or dark.
#[derive(Clone, Copy, Debug, Default, PartialEq, Eq)]
pub enum ExAppearance {
    Light,
    #[default]
    Dark,
}

/// An attribute value as Elixir spells it: a string, or `true`/`false` for
/// the boolean form and for removing one of Lumis's own attributes.
#[derive(Clone, Debug, PartialEq)]
pub enum ExAttrValue {
    Flag(bool),
    Value(String),
}

/// The formatter a code fence is rendered with, and its options.
#[derive(Clone, Debug)]
pub enum ExFormatterOption {
    HtmlInline {
        theme: Option<ThemeOrString>,
        pre_class: Option<String>,
        pre_attrs: Vec<(String, ExAttrValue)>,
        code_attrs: Vec<(String, ExAttrValue)>,
        italic: bool,
        include_highlights: bool,
        highlight_lines: Option<ExHtmlInlineHighlightLines>,
        line_numbers: bool,
        header: Option<ExHtmlElement>,
    },
    HtmlLinked {
        pre_class: Option<String>,
        pre_attrs: Vec<(String, ExAttrValue)>,
        code_attrs: Vec<(String, ExAttrValue)>,
        highlight_lines: Option<ExHtmlLinkedHighlightLines>,
        line_numbers: bool,
        header: Option<ExHtmlElement>,
    },
    HtmlMultiThemes {
        themes: HashMap<String, ExTheme>,
        default_theme: Option<String>,
        css_variable_prefix: Option<String>,
        pre_class: Option<String>,
        pre_attrs: Vec<(String, ExAttrValue)>,
        code_attrs: Vec<(String, ExAttrValue)>,
        italic: bool,
        include_highlights: bool,
        highlight_lines: Option<ExHtmlInlineHighlightLines>,
        line_numbers: bool,
        header: Option<ExHtmlElement>,
    },
    Terminal {
        theme: Option<ThemeOrString>,
        background: Option<ExTerminalBackground>,
        width: Option<usize>,
        highlight_lines: Option<ExTerminalHighlightLines>,
        line_numbers: bool,
    },
    BbcodeScoped { highlight_lines: Option<ExBBCodeHighlightLines> },
}

/// The background a terminal formatter paints.
#[derive(Clone, Debug, PartialEq)]
pub enum ExTerminalBackground {
    Theme,
    String(String),
}

impl Default for ExFormatterOption {
    /// Inline HTML with every option unset.
    fn default() -> (r: Self)
        ensures
            r matches ExFormatterOption::HtmlInline {
                theme,
                pre_class,
                pre_attrs,
                code_attrs,
                italic,
                include_highlights,
                highlight_lines,
                line_numbers,
                header,
            } && theme is None && pre_class is None && pre_attrs@.len() == 0 && code_attrs@.len()
                == 0 && !italic && !include_highlights && highlight_lines is None && !line_numbers
                && header is None,
    {
        ExFormatterOption::HtmlInline {
            theme: None,
            pre_class: None,
            pre_attrs: Vec::new(),
            code_attrs: Vec::new(),
            italic: false,
            include_highlights: false,
            highlight_lines: None,
            line_numbers: false,
            header: None,
        }
    }
}

/// A theme given in full, or by name.
#[derive(Clone, Debug)]
pub enum ThemeOrString {
    Theme(ExTheme),
    String(String),
}

impl Default for ThemeOrString {
    /// The `onedark` theme, by name.
    fn default() -> (r: Self)
        ensures
            r matches ThemeOrString::String(name) && name@ == "onedark"@,
    {
        ThemeOrString::String(String::from_str("onedark"))
    }
}

/// A theme as Lumis describes it.
#[derive(Clone, Debug, Default)]
pub struct ExTheme {
    pub name: String,
    pub appearance: ExAppearance,
    pub revision: String,
    pub highlights: HashMap<String, ExStyle>,
}

/// The style of an underline.
#[derive(Clone, Copy, Debug, PartialEq, Eq)]
pub enum ExUnderlineStyle {
    Solid,
    Wavy,
    Double,
    Dotted,
    Dashed,
}

/// Underline and strike-through of a style.
#[derive(Clone, Copy, Debug, Default)]
pub struct ExTextDecoration {
    pub underline: Option<ExUnderlineStyle>,
    pub strikethrough: bool,
}

/// The style of one highlight scope.
#[derive(Clone, Debug, Default)]
pub struct ExStyle {
    pub fg: Option<String>,
    pub bg: Option<String>,
    pub bold: bool,
    pub italic: bool,
    pub text_decoration: ExTextDecoration,
}

/// An element wrapped around the rendered code.
#[derive(Clone, Debug, Default, PartialEq)]
pub struct ExHtmlElement {
    pub open_tag: String,
    pub close_tag: String,
}

/// A line to highlight, or a range of lines with a step.
#[derive(Clone, Copy, Debug, PartialEq, Eq)]
pub enum ExLineSpec {
    Single(usize),
    Range { start: usize, end: usize, step: isize },
}

/// How inline HTML paints a highlighted line: with the theme's colour, or
/// with a given style.
#[derive(Clone, Debug, Default, PartialEq)]
pub enum ExHtmlInlineHighlightLinesStyle {
    #[default]
    Theme,
    Style { style: String },
}

/// Highlighted lines of the inline HTML formatters.
#[derive(Clone, Debug, Default)]
pub struct ExHtmlInlineHighlightLines {
    pub lines: Vec<ExLineSpec>,
    pub style: Option<ExHtmlInlineHighlightLinesStyle>,
    pub class: Option<String>,
}

/// Highlighted lines of the linked HTML formatter.
#[derive(Clone, Debug, Default)]
pub struct ExHtmlLinkedHighlightLines {
    pub lines: Vec<ExLineSpec>,
    pub class: String,
}

/// Highlighted lines of the terminal formatter.
#[derive(Clone, Debug, Default)]
pub struct ExTerminalHighlightLines {
    pub lines: Vec<ExLineSpec>,
    pub background: Option<String>,
}

/// Highlighted lines of the BBCode formatter.
#[derive(Clone, Debug, Default)]
pub struct ExBBCodeHighlightLines {
    pub lines: Vec<ExLineSpec>,
}


#[verifier::external_type_specification]
#[verifier::external_body]
pub struct LumisSteppedLines(SteppedLineRange);

/// Whether `SteppedLineRange::new` accepts a range: the step is not zero
/// and points from `start` towards `end`.
pub open spec fn stepped_range_valid(start: usize, end: usize, step: isize) -> bool {
    step != 0 && (step > 0 ==> start <= end) && (step < 0 ==> start >= end)
}

/// The step of a stepped range without its sign.
pub open spec fn stride_of(step: isize) -> int {
    if step < 0 {
        -step
    } else {
        step as int
    }
}

/// The first and the last line a valid stepped range selects: the end is
/// pulled back towards the start to the last line the step reaches.
pub open spec fn stepped_first_last(start: usize, end: usize, step: isize) -> (int, int) {
    let stride = stride_of(step);
    if step > 0 {
        (start as int, start + (end - start) / stride * stride)
    } else {
        (start - (start - end) / stride * stride, start as int)
    }
}

/// Whether a valid stepped range with these bounds selects `line`: it lies
/// between the first and the last line, a whole number of steps from the
/// first.
pub open spec fn stepped_selects(bounds: (usize, usize, isize), line: int) -> bool {
    let (first, last) = stepped_first_last(bounds.0, bounds.1, bounds.2);
    first <= line <= last && (line - first) % stride_of(bounds.2) == 0
}

/// A stepped line range together with the start, end and step it was built
/// from. Its fields are private, so the range is always the one
/// `SteppedLineRange::new` built from the three numbers beside it.
#[derive(Debug)]
pub struct SteppedLines {
    start: usize,
    end: usize,
    step: isize,
    range: SteppedLineRange,
}

impl View for SteppedLines {
    type V = (usize, usize, isize);

    closed spec fn view(&self) -> (usize, usize, isize) {
        (self.start, self.end, self.step)
    }
}

impl SteppedLines {
    #[verifier::type_invariant]
    closed spec fn well_formed(self) -> bool {
        stepped_range_valid(self.start, self.end, self.step)
    }

    /// The range from `start` to `end` by `step`, when Lumis accepts it: the
    /// step is not zero and points from `start` towards `end`.
    pub fn new(start: usize, end: usize, step: isize) -> (r: Option<SteppedLines>)
        ensures
            r is Some <==> stepped_range_valid(start, end, step),
            r matches Some(s) ==> s@ == (start, end, step),
    {
        match stepped_line_range(start, end, step) {
            Some(range) => Some(SteppedLines { start, end, step, range }),
            None => None,
        }
    }

    /// Whether the range selects the 1-based line `line`.
    pub fn contains(&self, line: usize) -> (b: bool)
        ensures
            b == stepped_selects(self@, line as int),
    {
        proof {
            use_type_invariant(self);
        }
        range_contains(self, line)
    }

    /// The range in the form Lumis's formatters take.
    pub fn range(&self) -> &SteppedLineRange {
        &self.range
    }
}

/// Builds a stepped line range with `SteppedLineRange::new`, which returns
/// `None` for a zero step or when the step points away from the end.
#[verifier::external_body]
fn stepped_line_range(start: usize, end: usize, step: isize) -> (r: Option<SteppedLineRange>)
    ensures
        r is Some <==> stepped_range_valid(start, end, step),
{
    SteppedLineRange::new(start, end, step)
}

/// Asks `SteppedLineRange::contains` whether the range selects a line. It
/// claims that the answer is `stepped_selects` of the numbers the range was
/// built from: `new` keeps the start and the end pulled back to the last
/// line the stride reaches, and `contains` tests that the line lies
/// between them a whole number of strides from the first. That the range
/// in `s` was built from `s@` is upheld by `SteppedLines::new`, the only
/// place one is made.
#[verifier::external_body]
fn range_contains(s: &SteppedLines, line: usize) -> (b: bool)
    requires
        stepped_range_valid(s@.0, s@.1, s@.2),
    ensures
        b == stepped_selects(s@, line as int),
{
    s.range.contains(line)
}

/// The start, end and step a line spec stands for.
pub open spec fn line_spec_bounds(l: ExLineSpec) -> (usize, usize, isize) {
    match l {
        ExLineSpec::Single(line) => (line, line, 1),
        ExLineSpec::Range { start, end, step } => (start, end, step),
    }
}

impl ExLineSpec {
    /// The spec as a stepped line range, when Lumis accepts it as one.
    pub fn to_stepped_line_range(&self) -> (r: Option<SteppedLines>)
        ensures
            r is Some <==> stepped_range_valid(
                line_spec_bounds(*self).0,
                line_spec_bounds(*self).1,
                line_spec_bounds(*self).2,
            ),
            r matches Some(s) ==> s@ == line_spec_bounds(*self),
    {
        match self {
            ExLineSpec::Single(line) => SteppedLines::new(*line, *line, 1),
            ExLineSpec::Range { start, end, step } => SteppedLines::new(*start, *end, *step),
        }
    }
}

/// The contiguous lines a spec covers, for the specs that are a plain span:
/// a single line, or a range with step 1 or -1 whose step points towards
/// its end (a descending one given lowest line first).
pub open spec fn contiguous_span(l: ExLineSpec) -> Option<(usize, usize)> {
    match l {
        ExLineSpec::Single(line) => Some((line, line)),
        ExLineSpec::Range { start, end, step } => if step == 1 && start <= end {
            Some((start, end))
        } else if step == -1 && start >= end {
            Some((end, start))
        } else {
            None
        },
    }
}

/// The plain spans among the specs, in order.
pub open spec fn contiguous_spans(lines: Seq<ExLineSpec>) -> Seq<(usize, usize)>
    decreases lines.len(),
{
    if lines.len() == 0 {
        Seq::empty()
    } else {
        contiguous_spans(lines.drop_last()) + match contiguous_span(lines.last()) {
            Some(span) => seq![span],
            None => Seq::empty(),
        }
    }
}

/// The bounds of the specs that are genuinely stepped ranges Lumis
/// accepts, in order.
pub open spec fn stepped_specs(lines: Seq<ExLineSpec>) -> Seq<(usize, usize, isize)>
    decreases lines.len(),
{
    if lines.len() == 0 {
        Seq::empty()
    } else {
        let l = lines.last();
        let b = line_spec_bounds(l);
        stepped_specs(lines.drop_last()) + if contiguous_span(l) is None && stepped_range_valid(
            b.0,
            b.1,
            b.2,
        ) {
            seq![b]
        } else {
            Seq::empty()
        }
    }
}

/// The first and last line of an inclusive range that has not been
/// iterated.
pub open spec fn span_of(r: RangeInclusive<usize>) -> (usize, usize) {
    (r@.start, r@.end)
}

/// Splits line specs into plain spans and genuinely stepped ranges, the two
/// forms Lumis's formatters take them in, each list in the order of the
/// specs. A stepped range Lumis refuses is dropped.
pub fn convert_line_specs(lines: Vec<ExLineSpec>) -> (r: (
    Vec<RangeInclusive<usize>>,
    Vec<SteppedLines>,
))
    ensures
        r.0@.map_values(|s: RangeInclusive<usize>| span_of(s)) == contiguous_spans(lines@),
        forall|i: int| 0 <= i < r.0@.len() ==> !(#[trigger] r.0@[i])@.exhausted,
        r.1@.map_values(|s: SteppedLines| s@) == stepped_specs(lines@),
{
    let mut contiguous: Vec<RangeInclusive<usize>> = Vec::new();
    let mut stepped: Vec<SteppedLines> = Vec::new();
    let mut i: usize = 0;
    while i < lines.len()
        invariant
            i <= lines@.len(),
            contiguous@.map_values(|s: RangeInclusive<usize>| span_of(s)) == contiguous_spans(
                lines@.take(i as int),
            ),
            forall|j: int| 0 <= j < contiguous@.len() ==> !(#[trigger] contiguous@[j])@.exhausted,
            stepped@.map_values(|s: SteppedLines| s@) == stepped_specs(lines@.take(i as int)),
        decreases lines@.len() - i,
    {
        let line = lines[i];
        proof {
            assert(lines@.take(i + 1).drop_last() =~= lines@.take(i as int));
            assert(lines@.take(i + 1).last() == line);
        }
        match line {
            ExLineSpec::Single(n) => {
                contiguous.push(n..=n);
            },
            ExLineSpec::Range { start, end, step } => {
                if step == 1 && start <= end {
                    contiguous.push(start..=end);
                } else if step == -1 && start >= end {
                    contiguous.push(end..=start);
                } else {
                    if let Some(range) = line.to_stepped_line_range() {
                        stepped.push(range);
                    }
                }
            },
        }
        proof {
            assert(contiguous@.map_values(|s: RangeInclusive<usize>| span_of(s))
                =~= contiguous_spans(lines@.take(i + 1)));
            assert(stepped@.map_values(|s: SteppedLines| s@) =~= stepped_specs(
                lines@.take(i + 1),
            ));
        }
        i = i + 1;
    }
    proof {
        assert(lines@.take(lines@.len() as int) =~= lines@);
    }
    (contiguous, stepped)
}


/// Every plain span handed to a formatter runs upwards: its first line is
/// never after its last, a descending range included.
pub proof fn law_contiguous_spans_ascend(lines: Seq<ExLineSpec>)
    ensures
        forall|i: int| 0 <= i < contiguous_spans(lines).len() ==> (#[trigger] contiguous_spans(
            lines,
        )[i]).0 <= contiguous_spans(lines)[i].1,
    decreases lines.len(),
{
    if lines.len() > 0 {
        law_contiguous_spans_ascend(lines.drop_last());
        let head = contiguous_spans(lines.drop_last());
        let tail = match contiguous_span(lines.last()) {
            Some(span) => seq![span],
            None => Seq::<(usize, usize)>::empty(),
        };
        assert(contiguous_spans(lines) == head + tail);
        assert forall|i: int| 0 <= i < contiguous_spans(lines).len() implies (
        #[trigger] contiguous_spans(lines)[i]).0 <= contiguous_spans(lines)[i].1 by {
            if i < head.len() {
                assert(contiguous_spans(lines)[i] == head[i]);
            } else {
                assert(contiguous_spans(lines)[i] == tail[i - head.len()]);
            }
        }
    }
}

/// A stepped range always selects the line it starts at, and selects
/// nothing outside the lines from its start to its end.
pub proof fn law_stepped_range_starts_at_start(start: usize, end: usize, step: isize, line: int)
    requires
        stepped_range_valid(start, end, step),
    ensures
        stepped_selects((start, end, step), start as int),
        stepped_selects((start, end, step), line) ==> if step > 0 {
            start <= line <= end
        } else {
            end <= line <= start
        },
{
    let stride = stride_of(step);
    assert(stride > 0);
    assert(0int % stride == 0) by (nonlinear_arith)
        requires
            stride > 0,
    ;
    if step > 0 {
        let span = end - start;
        assert(0 <= span / stride * stride <= span) by (nonlinear_arith)
            requires
                span >= 0,
                stride > 0,
        ;
    } else {
        let span = start - end;
        let k = span / stride;
        assert(0 <= k * stride <= span) by (nonlinear_arith)
            requires
                span >= 0,
                stride > 0,
                k == span / stride,
        ;
        assert((k * stride) % stride == 0) by (nonlinear_arith)
            requires
                stride > 0,
                k >= 0,
        ;
        assert(start - (start - k * stride) == k * stride);
        assert(stepped_first_last(start, end, step) == (start - k * stride, start as int));
    }
}

/// A stepped range whose step is 1 or -1 selects exactly the lines of the
/// plain span the same spec stands for, so either form highlights the
/// same lines.
pub proof fn law_unit_step_selects_span(start: usize, end: usize, step: isize, line: int)
    requires
        stepped_range_valid(start, end, step),
        step == 1 || step == -1,
    ensures
        contiguous_span(ExLineSpec::Range { start, end, step }) matches Some(span)
            && stepped_selects((start, end, step), line) == (span.0 <= line <= span.1),
{
    let span: int = if step > 0 {
        end - start
    } else {
        start - end
    };
    assert(span / 1int * 1int == span) by (nonlinear_arith)
        requires
            span >= 0,
    ;
    assert((line - start) % 1int == 0 && (line - end) % 1int == 0) by (nonlinear_arith);
}

} // verus!

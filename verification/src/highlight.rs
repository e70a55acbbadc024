//! Syntax highlighting of text previews.

use crate::style::{
    add_line, add_span, no_lines, no_spans, span, span_of, span_owned, Color, Line, LineView, Span,
    Style,
};
use crate::text::{cat3, chars_of, dec, decimal, spaces, string_of, texts, blanks, Chars};
use syntect::easy::HighlightLines;
use syntect::highlighting::{Theme, ThemeSet};
use syntect::parsing::{SyntaxReference, SyntaxSet};
use vstd::prelude::*;

verus! {

#[verifier::external_type_specification]
#[verifier::external_body]
pub struct ExSyntaxSet(SyntaxSet);

#[verifier::external_type_specification]
#[verifier::external_body]
pub struct ExSyntaxReference(SyntaxReference);

#[verifier::external_type_specification]
#[verifier::external_body]
pub struct ExTheme(Theme);

#[verifier::external_type_specification]
#[verifier::external_body]
pub struct ExHighlightLines<'a>(HighlightLines<'a>);

/// The bundled theme of a name.
pub uninterp spec fn bundled_theme(name: Seq<char>) -> Option<Theme>;

/// Whether a set of syntaxes has the one for plain text.
pub uninterp spec fn has_plain_text(set: SyntaxSet) -> bool;

/// The syntax of a set for a file extension.
pub uninterp spec fn syntax_by_extension(set: SyntaxSet, ext: Seq<char>) -> Option<SyntaxReference>;

/// The syntax of a set for plain text.
pub uninterp spec fn plain_text_syntax(set: SyntaxSet) -> SyntaxReference;

/// Whether a syntax is one of a set.
pub uninterp spec fn holds_syntax(set: SyntaxSet, syntax: SyntaxReference) -> bool;

/// What a highlighter was made with and the lines that it has been given since.
pub uninterp spec fn highlighter_input(h: HighlightLines<'_>) -> HighlighterInput;

/// The coloured runs of the last one of the lines that a highlighter was given, absent where it
/// could not make sense of that line.
pub uninterp spec fn highlighted_runs(
    set: SyntaxSet,
    syntax: SyntaxReference,
    theme: Theme,
    lines: Seq<Seq<char>>,
) -> Option<Seq<RunView>>;

/// The input of a highlighter. All its lines are highlighted with one set of syntaxes.
pub struct HighlighterInput {
    pub set: SyntaxSet,
    pub syntax: SyntaxReference,
    pub theme: Theme,
    pub lines: Seq<Chars>,
}

/// A run of characters in one colour.
pub struct Run {
    pub color: (u8, u8, u8),
    pub text: String,
}

pub struct RunView {
    pub color: (u8, u8, u8),
    pub text: Chars,
}

pub open spec fn runs_view(v: Seq<Run>) -> Seq<RunView> {
    Seq::new(v.len(), |i: int| RunView { color: v[i].color, text: v[i].text@ })
}

pub open spec fn opt_runs(o: Option<Vec<Run>>) -> Option<Seq<RunView>> {
    match o {
        Some(v) => Some(runs_view(v@)),
        None => None,
    }
}

/// `syntect::parsing::SyntaxSet::load_defaults_newlines`: the bundled syntaxes, plain text among
/// them.
#[verifier::external_body]
fn default_syntaxes() -> (r: SyntaxSet)
    ensures
        has_plain_text(r),
{
    SyntaxSet::load_defaults_newlines()
}

/// `syntect::highlighting::ThemeSet::load_defaults`: a theme out of the bundled ones, by name. The
/// documentation lists the names.
#[verifier::external_body]
fn default_theme(name: &str) -> (r: Option<Theme>)
    ensures
        r == bundled_theme(name@),
        name@ == "base16-ocean.dark"@ ==> r is Some,
{
    ThemeSet::load_defaults().themes.remove(name)
}

/// `syntect::parsing::SyntaxSet::find_syntax_by_extension`: a syntax out of the set.
#[verifier::external_body]
fn find_syntax<'a>(set: &'a SyntaxSet, ext: &str) -> (r: Option<&'a SyntaxReference>)
    ensures
        match r {
            Some(s) => syntax_by_extension(*set, ext@) == Some(*s) && holds_syntax(*set, *s),
            None => syntax_by_extension(*set, ext@) is None,
        },
{
    set.find_syntax_by_extension(ext)
}

/// `syntect::parsing::SyntaxSet::find_syntax_plain_text`: a syntax out of the set. It panics where
/// there is none.
#[verifier::external_body]
fn plain_syntax(set: &SyntaxSet) -> (r: &SyntaxReference)
    requires
        has_plain_text(*set),
    ensures
        *r == plain_text_syntax(*set),
        holds_syntax(*set, *r),
{
    set.find_syntax_plain_text()
}

/// `syntect::easy::HighlightLines::new`: a highlighter that has not been given any line yet. Its
/// lines are to be highlighted with the set that its syntax is out of, and with no other one.
#[verifier::external_body]
fn new_highlighter<'a>(set: &SyntaxSet, syntax: &SyntaxReference, theme: &'a Theme) -> (r:
    HighlightLines<'a>)
    requires
        holds_syntax(*set, *syntax),
    ensures
        highlighter_input(r) == (HighlighterInput {
            set: *set,
            syntax: *syntax,
            theme: *theme,
            lines: Seq::empty(),
        }),
{
    HighlightLines::new(syntax, theme)
}

/// `syntect::easy::HighlightLines::highlight_line`: the runs of one more line, which go by all the
/// lines given so far. With a set that does not hold the syntax of the highlighter it may panic.
#[verifier::external_body]
fn next_runs(h: &mut HighlightLines<'_>, line: &str, set: &SyntaxSet) -> (r: Option<Vec<Run>>)
    requires
        highlighter_input(*old(h)).set == *set,
    ensures
        highlighter_input(*final(h)) == (HighlighterInput {
            lines: highlighter_input(*old(h)).lines.push(line@),
            ..highlighter_input(*old(h))
        }),
        opt_runs(r) == highlighted_runs(
            *set,
            highlighter_input(*old(h)).syntax,
            highlighter_input(*old(h)).theme,
            highlighter_input(*old(h)).lines.push(line@),
        ),
{
    let runs = h.highlight_line(line, set).ok()?;
    let convert = |(s, t): (syntect::highlighting::Style, &str)| Run {
        color: (s.foreground.r, s.foreground.g, s.foreground.b),
        text: t.to_string(),
    };
    Some(runs.into_iter().map(convert).collect())
}

/// The bundled syntaxes and the theme of the previews.
pub struct HighlightAssets {
    syntaxes: SyntaxSet,
    theme: Theme,
}

impl HighlightAssets {
    #[verifier::type_invariant]
    spec fn usable(self) -> bool {
        has_plain_text(self.syntaxes)
    }

    pub closed spec fn syntax_set(self) -> SyntaxSet {
        self.syntaxes
    }

    pub closed spec fn color_theme(self) -> Theme {
        self.theme
    }

    /// Loads what highlighting needs.
    pub fn load() -> (r: HighlightAssets)
        ensures
            has_plain_text(r.syntax_set()),
            Some(r.color_theme()) == bundled_theme("base16-ocean.dark"@),
    {
        let theme: Theme = default_theme("base16-ocean.dark").unwrap();
        HighlightAssets { syntaxes: default_syntaxes(), theme }
    }
}

/// Where the part of a name after its last dot begins. A name without a dot is all of it.
pub open spec fn ext_start(name: Chars) -> int
    decreases name.len(),
{
    if name.len() == 0 || name.last() == '.' {
        name.len() as int
    } else {
        ext_start(name.drop_last())
    }
}

/// The part of a name after its last dot.
pub open spec fn extension(name: Chars) -> Chars {
    name.skip(ext_start(name))
}

fn name_extension(name: &str) -> (r: String)
    ensures
        r@ == extension(name@),
{
    let v: Vec<char> = chars_of(name);
    let mut i: usize = v.len();
    assert(v@.take(i as int) =~= v@);
    while i > 0 && v[i - 1] != '.'
        invariant
            i <= v.len(),
            ext_start(v@) == ext_start(v@.take(i as int)),
        decreases i,
    {
        assert(v@.take(i as int).drop_last() =~= v@.take(i - 1));
        i -= 1;
    }
    assert(v@.skip(i as int) =~= v@.subrange(i as int, v@.len() as int));
    string_of(&v, i, v.len())
}

/// A line without the carriage return at its end.
pub open spec fn chomped(line: Chars) -> Chars {
    if line.len() > 0 && line.last() == '\r' {
        line.drop_last()
    } else {
        line
    }
}

/// The lines of a text from index `from` on, when the current one began at `start`. A line ends at
/// a line feed, and a carriage return before that belongs to the end; what follows the last line
/// feed is a line of its own unless it is empty.
pub open spec fn lines_from(s: Chars, start: int, from: int) -> Seq<Chars>
    decreases s.len() - from,
{
    if 0 <= start <= from < s.len() {
        if s[from] == '\n' {
            seq![chomped(s.subrange(start, from))] + lines_from(s, from + 1, from + 1)
        } else {
            lines_from(s, start, from + 1)
        }
    } else if 0 <= start < s.len() {
        seq![s.skip(start)]
    } else {
        Seq::empty()
    }
}

/// The lines of a text.
pub open spec fn text_lines(s: Chars) -> Seq<Chars> {
    lines_from(s, 0, 0)
}

pub fn split_lines(s: &str) -> (r: Vec<String>)
    ensures
        texts(r@) == text_lines(s@),
{
    let v: Vec<char> = chars_of(s);
    let n: usize = v.len();
    let mut out: Vec<String> = Vec::new();
    let mut start: usize = 0;
    let mut i: usize = 0;
    assert(texts(out@) + lines_from(s@, 0, 0) =~= text_lines(s@));
    while i < n
        invariant
            start <= i <= n == v@.len(),
            v@ == s@,
            texts(out@) + lines_from(s@, start as int, i as int) == text_lines(s@),
        decreases n - i,
    {
        if v[i] == '\n' {
            let mut end: usize = i;
            if end > start && v[end - 1] == '\r' {
                end -= 1;
            }
            let line: String = string_of(&v, start, end);
            assert(line@ =~= chomped(s@.subrange(start as int, i as int)));
            let ghost done = texts(out@);
            out.push(line);
            assert(texts(out@) =~= done.push(line@));
            assert(done + (seq![line@] + lines_from(s@, i + 1, i + 1)) =~= texts(out@)
                + lines_from(s@, i + 1, i + 1));
            start = i + 1;
        }
        i += 1;
    }
    if start < n {
        let line: String = string_of(&v, start, n);
        assert(line@ =~= s@.skip(start as int));
        let ghost done = texts(out@);
        out.push(line);
        assert(texts(out@) =~= done + seq![line@]);
    } else {
        assert(texts(out@) =~= text_lines(s@));
    }
    out
}

/// The number of a line, four columns wide or more, and a blank.
pub open spec fn line_number(n: nat) -> Chars {
    let d = decimal(n);
    blanks(if d.len() < 4 { (4 - d.len()) as nat } else { 0 }) + d + " "@
}

fn number_label(n: u64) -> (r: String)
    ensures
        r@ == line_number(n as nat),
{
    let d: String = dec(n);
    let len: usize = chars_of(d.as_str()).len();
    let gap: usize = if len < 4 { 4 - len } else { 0 };
    cat3(spaces(gap).as_str(), d.as_str(), " ")
}

pub open spec fn rgb(c: (u8, u8, u8)) -> Color {
    Color::Rgb(c.0, c.1, c.2)
}

/// The spans of coloured runs.
pub open spec fn run_spans(runs: Seq<RunView>) -> LineView {
    Seq::new(runs.len(), |i: int| span_of(runs[i].text, Style::fg_spec(rgb(runs[i].color))))
}

/// A line of a preview: its number, then its text in the colours of the syntax, or in white where
/// those are not known.
pub open spec fn preview_line(n: nat, line: Chars, runs: Option<Seq<RunView>>) -> LineView {
    seq![span_of(line_number(n), Style::fg_spec(Color::DarkGray))] + match runs {
        Some(r) => run_spans(r),
        None => seq![span_of(line, Style::fg_spec(Color::White))],
    }
}

fn numbered_line(n: u64, line: &str, runs: Option<Vec<Run>>) -> (r: Vec<Span>)
    ensures
        crate::style::spans_view(r@) == preview_line(n as nat, line@, opt_runs(runs)),
{
    let mut spans: Vec<Span> = no_spans();
    add_span(&mut spans, span_owned(number_label(n), Style::fg(Color::DarkGray)));
    let ghost head = crate::style::spans_view(spans@);
    assert(head =~= seq![span_of(line_number(n as nat), Style::fg_spec(Color::DarkGray))]);
    match runs {
        Some(list) => {
            let mut i: usize = 0;
            assert(crate::style::spans_view(spans@) =~= head + run_spans(runs_view(list@)).take(0));
            while i < list.len()
                invariant
                    i <= list.len(),
                    crate::style::spans_view(spans@) == head + run_spans(runs_view(list@)).take(
                        i as int,
                    ),
                decreases list.len() - i,
            {
                let c: (u8, u8, u8) = list[i].color;
                add_span(
                    &mut spans,
                    span(list[i].text.as_str(), Style::fg(Color::Rgb(c.0, c.1, c.2))),
                );
                i += 1;
                assert(crate::style::spans_view(spans@) =~= head + run_spans(
                    runs_view(list@),
                ).take(i as int));
            }
            assert(run_spans(runs_view(list@)).take(list@.len() as int) =~= run_spans(
                runs_view(list@),
            ));
        },
        None => {
            add_span(&mut spans, span(line, Style::fg(Color::White)));
            assert(crate::style::spans_view(spans@) =~= head + seq![
                span_of(line@, Style::fg_spec(Color::White)),
            ]);
        },
    }
    spans
}

/// The syntax that a file is highlighted with.
pub open spec fn syntax_for(set: SyntaxSet, name: Chars) -> SyntaxReference {
    match syntax_by_extension(set, extension(name)) {
        Some(s) => s,
        None => plain_text_syntax(set),
    }
}

/// The preview of a text, when the runs of each line are known.
pub open spec fn preview_of(lines: Seq<Chars>, runs: spec_fn(int) -> Option<Seq<RunView>>) -> Seq<
    LineView,
> {
    Seq::new(lines.len(), |i: int| preview_line((i + 1) as nat, lines[i], runs(i)))
}

/// The preview of a file.
pub open spec fn highlighted(name: Chars, content: Chars, set: SyntaxSet, theme: Theme) -> Seq<
    LineView,
> {
    let lines = text_lines(content);
    preview_of(
        lines,
        |i: int| highlighted_runs(set, syntax_for(set, name), theme, lines.take(i + 1)),
    )
}

/// The lines of a text preview: each with its number and in the colours of its syntax.
pub fn highlight_content(name: &str, content: &str, assets: &HighlightAssets) -> (r: Vec<Line>)
    ensures
        crate::style::lines_view(r@) == highlighted(
            name@,
            content@,
            assets.syntax_set(),
            assets.color_theme(),
        ),
{
    proof {
        use_type_invariant(assets);
    }
    let ext: String = name_extension(name);
    let syntax: &SyntaxReference = match find_syntax(&assets.syntaxes, ext.as_str()) {
        Some(s) => s,
        None => plain_syntax(&assets.syntaxes),
    };
    let mut h: HighlightLines<'_> = new_highlighter(
        &assets.syntaxes,
        syntax,
        &assets.theme,
    );
    let lines: Vec<String> = split_lines(content);
    let ghost all = text_lines(content@);
    let ghost full = highlighted(name@, content@, assets.syntax_set(), assets.color_theme());
    let mut out: Vec<Line> = no_lines();
    let mut i: usize = 0;
    assert(all.take(0) =~= Seq::<Chars>::empty());
    assert(full.take(0) =~= Seq::<LineView>::empty());
    while i < lines.len()
        invariant
            i <= lines.len(),
            texts(lines@) == all,
            all == text_lines(content@),
            full == highlighted(name@, content@, assets.syntax_set(), assets.color_theme()),
            highlighter_input(h) == (HighlighterInput {
                set: assets.syntax_set(),
                syntax: syntax_for(assets.syntax_set(), name@),
                theme: assets.color_theme(),
                lines: all.take(i as int),
            }),
            crate::style::lines_view(out@) == full.take(i as int),
        decreases lines.len() - i,
    {
        let line: &str = lines[i].as_str();
        assert(line@ == all[i as int]);
        assert(all.take(i as int).push(line@) =~= all.take(i + 1));
        let runs: Option<Vec<Run>> = next_runs(&mut h, line, &assets.syntaxes);
        let spans: Vec<Span> = numbered_line(i as u64 + 1, line, runs);
        add_line(&mut out, spans);
        assert(full.take(i + 1) =~= full.take(i as int).push(full[i as int]));
        i += 1;
    }
    assert(full.take(all.len() as int) =~= full);
    out
}

} // verus!

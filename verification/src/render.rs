//! The renderer: turns the transcript into a flat sequence of styled display
//! lines. Each turn becomes a role-header line, a blank line, its paragraphs
//! word-wrapped with a style class for every wrapped line, and a separator
//! rule. Classification looks at the wrapped line, not the source line, so a
//! bracket or asterisk pair split across a wrap boundary stays plain.

use vstd::prelude::*;
use vstd::string::StrSliceExecFns;
use vstd::string::StringExecFns;
use crate::text::lines_spec;
use crate::text::paras_spec;
use crate::text::split_lines;
use crate::text::split_paragraphs;
use crate::transcript::Role;
use crate::transcript::Turn;
use crate::transcript::TurnV;

verus! {

/// The style class of one display line.
#[derive(Clone, Copy, PartialEq, Eq, Structural, Debug)]
pub enum LineClass {
    /// The role-header line above a turn.
    Header(Role),
    /// An empty spacing line.
    Blank,
    /// A wrapped line that opens with `[` and closes with `]`.
    Stage,
    /// A wrapped line that opens and closes with `*`.
    Emphasis,
    /// Any other wrapped line.
    Plain,
    /// The horizontal rule after a turn.
    Separator,
}

/// One line of the rendered conversation.
#[derive(Clone, Debug)]
pub struct DisplayLine {
    pub class: LineClass,
    pub text: String,
}

#[verifier::ext_equal]
pub ghost struct DisplayLineV {
    pub class: LineClass,
    pub text: Seq<char>,
}

impl View for DisplayLine {
    type V = DisplayLineV;

    open spec fn view(&self) -> DisplayLineV {
        DisplayLineV { class: self.class, text: self.text@ }
    }
}

impl DeepView for DisplayLine {
    type V = DisplayLineV;

    open spec fn deep_view(&self) -> DisplayLineV {
        self@
    }
}

/// Stage direction when the whole line is bracketed, emphasis when the whole
/// line is asterisk-delimited, plain otherwise.
pub open spec fn classify_spec(l: Seq<char>) -> LineClass {
    if l.len() > 0 && l[0] == '[' && l[l.len() - 1] == ']' {
        LineClass::Stage
    } else if l.len() > 0 && l[0] == '*' && l[l.len() - 1] == '*' {
        LineClass::Emphasis
    } else {
        LineClass::Plain
    }
}

pub fn classify(l: &str) -> (r: LineClass)
    ensures
        r == classify_spec(l@),
{
    let n = l.unicode_len();
    if n == 0 {
        return LineClass::Plain;
    }
    let first = l.get_char(0);
    let last = l.get_char(n - 1);
    if first == '[' && last == ']' {
        LineClass::Stage
    } else if first == '*' && last == '*' {
        LineClass::Emphasis
    } else {
        LineClass::Plain
    }
}

pub open spec fn role_label_spec(r: Role) -> Seq<char> {
    match r {
        Role::User => "✦ You"@,
        Role::Narrator => "🎭 Narrator"@,
        Role::System => "⚙ System"@,
    }
}

pub fn role_label(r: Role) -> (s: &'static str)
    ensures
        s@ == role_label_spec(r),
{
    match r {
        Role::User => "✦ You",
        Role::Narrator => "🎭 Narrator",
        Role::System => "⚙ System",
    }
}

/// The horizontal rule: the box-drawing dash, width capped at 40.
pub open spec fn sep_line_spec(width: int) -> Seq<char> {
    Seq::new((if width < 40 { width } else { 40 }) as nat, |i: int| '─')
}

pub fn separator_text(width: usize) -> (r: String)
    ensures
        r@ == sep_line_spec(width as int),
{
    let count: usize = if width < 40 { width } else { 40 };
    let mut s = String::new();
    let mut i: usize = 0;
    proof {
        reveal_strlit("─");
        assert(s@ =~= Seq::new(0, |j: int| '─'));
    }
    while i < count
        invariant
            i <= count,
            s@ == Seq::new(i as nat, |j: int| '─'),
            "─"@ == seq!['─'],
        decreases count - i,
    {
        s.append("─");
        proof {
            assert(s@ =~= Seq::new((i + 1) as nat, |j: int| '─'));
        }
        i = i + 1;
    }
    proof {
        assert(s@ =~= sep_line_spec(width as int));
    }
    s
}

/// What textwrap's `wrap` returns for one source line at a given width: a
/// pure function of the line text and the width alone.
pub uninterp spec fn wrapped_of(line: Seq<char>, width: int) -> Seq<Seq<char>>;

/// Relies on textwrap's `wrap` with its default options: the wrapped pieces
/// depend only on the line text and the width.
#[verifier::external_body]
fn wrap_line(line: &str, width: usize) -> (r: Vec<String>)
    ensures
        r.deep_view() == wrapped_of(line@, width as int),
{
    textwrap::wrap(line, width).into_iter().map(|c| c.into_owned()).collect()
}

pub open spec fn blank_line() -> DisplayLineV {
    DisplayLineV { class: LineClass::Blank, text: Seq::empty() }
}

pub open spec fn classified_lines(ws: Seq<Seq<char>>) -> Seq<DisplayLineV> {
    ws.map_values(|w: Seq<char>| DisplayLineV { class: classify_spec(w), text: w })
}

/// What one source line of a paragraph contributes: a single blank line when
/// it is empty, otherwise its wrapped pieces, each classified.
pub open spec fn render_source_line(l: Seq<char>, width: int) -> Seq<DisplayLineV> {
    if l.len() == 0 {
        seq![blank_line()]
    } else {
        classified_lines(wrapped_of(l, width))
    }
}

pub open spec fn render_lines_seq(ls: Seq<Seq<char>>, width: int) -> Seq<DisplayLineV>
    decreases ls.len(),
{
    if ls.len() == 0 {
        Seq::empty()
    } else {
        render_lines_seq(ls.drop_last(), width) + render_source_line(ls.last(), width)
    }
}

/// One paragraph: its source lines, then a trailing blank line.
pub open spec fn render_para(p: Seq<char>, width: int) -> Seq<DisplayLineV> {
    render_lines_seq(lines_spec(p), width) + seq![blank_line()]
}

pub open spec fn render_paras(ps: Seq<Seq<char>>, width: int) -> Seq<DisplayLineV>
    decreases ps.len(),
{
    if ps.len() == 0 {
        Seq::empty()
    } else {
        render_paras(ps.drop_last(), width) + render_para(ps.last(), width)
    }
}

/// One turn: header line, blank line, its paragraphs, then a blank line,
/// the separator rule and a final blank line.
pub open spec fn render_turn_spec(t: TurnV, width: int) -> Seq<DisplayLineV> {
    seq![
        DisplayLineV { class: LineClass::Header(t.role), text: role_label_spec(t.role) },
        blank_line(),
    ] + render_paras(paras_spec(t.content), width) + seq![
        blank_line(),
        DisplayLineV { class: LineClass::Separator, text: sep_line_spec(width) },
        blank_line(),
    ]
}

/// The whole rendered conversation, turn after turn.
pub open spec fn render_transcript_spec(ts: Seq<TurnV>, width: int) -> Seq<DisplayLineV>
    decreases ts.len(),
{
    if ts.len() == 0 {
        Seq::empty()
    } else {
        render_transcript_spec(ts.drop_last(), width) + render_turn_spec(ts.last(), width)
    }
}

fn blank_exec() -> (r: DisplayLine)
    ensures
        r@ == blank_line(),
{
    let r = DisplayLine { class: LineClass::Blank, text: String::new() };
    proof {
        assert(r@ =~= blank_line());
    }
    r
}

fn render_para_into(out: &mut Vec<DisplayLine>, p: &str, width: usize)
    ensures
        final(out).deep_view() == old(out).deep_view() + render_para(p@, width as int),
{
    let ls = split_lines(p);
    let ghost lsv = ls.deep_view();
    let mut li: usize = 0;
    proof {
        assert(lsv.take(0) =~= Seq::<Seq<char>>::empty());
        assert(out.deep_view() =~= old(out).deep_view() + render_lines_seq(lsv.take(0), width as int));
    }
    while li < ls.len()
        invariant
            li <= ls.len(),
            lsv == ls.deep_view(),
            lsv.len() == ls.len(),
            lsv == lines_spec(p@),
            out.deep_view() == old(out).deep_view() + render_lines_seq(
                lsv.take(li as int),
                width as int,
            ),
        decreases ls.len() - li,
    {
        let ghost base = out.deep_view();
        let line = &ls[li];
        proof {
            assert(line@ == lsv[li as int]);
        }
        if line.as_str().is_empty() {
            let b = blank_exec();
            out.push(b);
            proof {
                assert(out.deep_view() =~= base + render_source_line(lsv[li as int], width as int));
            }
        } else {
            let ws = wrap_line(line.as_str(), width);
            let ghost wsv = ws.deep_view();
            let mut k: usize = 0;
            proof {
                assert(classified_lines(wsv).take(0) =~= Seq::<DisplayLineV>::empty());
                assert(out.deep_view() =~= base + classified_lines(wsv).take(0));
            }
            while k < ws.len()
                invariant
                    k <= ws.len(),
                    wsv == ws.deep_view(),
                    wsv.len() == ws.len(),
                    out.deep_view() == base + classified_lines(wsv).take(k as int),
                decreases ws.len() - k,
            {
                let w = &ws[k];
                let class = classify(w.as_str());
                let text = w.clone();
                let ghost before = out.deep_view();
                let ghost dl_v = DisplayLineV { class: class, text: text@ };
                out.push(DisplayLine { class, text });
                proof {
                    assert(out.deep_view().len() == before.len() + 1);
                    assert(forall|i: int| 0 <= i < before.len() ==> out.deep_view()[i] == before[i]);
                    assert(out.deep_view()[before.len() as int] == dl_v);
                    assert(w@ == wsv[k as int]);
                    assert(text@ == wsv[k as int]);
                    assert(classified_lines(wsv)[k as int] == DisplayLineV {
                        class: classify_spec(wsv[k as int]),
                        text: wsv[k as int],
                    });
                    let ghost rhs = base + classified_lines(wsv).take(k as int + 1);
                    assert(rhs.len() == before.len() + 1);
                    assert(forall|i: int| 0 <= i < before.len() ==> rhs[i] == before[i]);
                    assert(rhs[before.len() as int] == dl_v);
                    assert(forall|i: int| 0 <= i < rhs.len() ==> out.deep_view()[i] == rhs[i]);
                    assert(out.deep_view() =~= rhs);
                }
                k = k + 1;
            }
            proof {
                assert(classified_lines(wsv).take(wsv.len() as int) =~= classified_lines(wsv));
                assert(out.deep_view() =~= base + render_source_line(lsv[li as int], width as int));
            }
        }
        proof {
            assert(lsv.take(li as int + 1).drop_last() =~= lsv.take(li as int));
            assert(lsv.take(li as int + 1).last() == lsv[li as int]);
            assert(render_lines_seq(lsv.take(li as int + 1), width as int) == render_lines_seq(
                lsv.take(li as int),
                width as int,
            ) + render_source_line(lsv[li as int], width as int));
            assert(out.deep_view() =~= old(out).deep_view() + render_lines_seq(
                lsv.take(li as int + 1),
                width as int,
            ));
        }
        li = li + 1;
    }
    proof {
        assert(lsv.take(lsv.len() as int) =~= lsv);
    }
    let ghost done = out.deep_view();
    let b = blank_exec();
    out.push(b);
    proof {
        assert(done == old(out).deep_view() + render_lines_seq(lines_spec(p@), width as int));
        let ghost rhs = old(out).deep_view() + render_para(p@, width as int);
        assert(rhs.len() == done.len() + 1);
        assert(forall|i: int| 0 <= i < done.len() ==> rhs[i] == done[i]);
        assert(rhs[done.len() as int] == blank_line());
        assert(out.deep_view().len() == done.len() + 1);
        assert(forall|i: int| 0 <= i < done.len() ==> out.deep_view()[i] == done[i]);
        assert(out.deep_view()[done.len() as int] == blank_line());
        assert(forall|i: int| 0 <= i < rhs.len() ==> out.deep_view()[i] == rhs[i]);
        assert(out.deep_view() =~= rhs);
    }
}

fn render_turn_into(out: &mut Vec<DisplayLine>, t: &Turn, width: usize)
    ensures
        final(out).deep_view() == old(out).deep_view() + render_turn_spec(t@, width as int),
{
    let header = DisplayLine {
        class: LineClass::Header(t.role),
        text: String::from_str(role_label(t.role)),
    };
    out.push(header);
    let b = blank_exec();
    out.push(b);
    let ghost hdr_part = seq![
        DisplayLineV { class: LineClass::Header(t@.role), text: role_label_spec(t@.role) },
        blank_line(),
    ];
    proof {
        assert(out.deep_view() =~= old(out).deep_view() + hdr_part);
    }
    let paras = split_paragraphs(t.content.as_str());
    let ghost psv = paras.deep_view();
    let mut pi: usize = 0;
    proof {
        assert(psv.take(0) =~= Seq::<Seq<char>>::empty());
        assert(out.deep_view() =~= old(out).deep_view() + hdr_part + render_paras(
            psv.take(0),
            width as int,
        ));
    }
    while pi < paras.len()
        invariant
            pi <= paras.len(),
            psv == paras.deep_view(),
            psv.len() == paras.len(),
            psv == paras_spec(t@.content),
            out.deep_view() == old(out).deep_view() + hdr_part + render_paras(
                psv.take(pi as int),
                width as int,
            ),
        decreases paras.len() - pi,
    {
        render_para_into(out, paras[pi].as_str(), width);
        proof {
            assert(paras[pi as int]@ == psv[pi as int]);
            assert(psv.take(pi as int + 1).drop_last() =~= psv.take(pi as int));
            assert(psv.take(pi as int + 1).last() == psv[pi as int]);
            assert(render_paras(psv.take(pi as int + 1), width as int) == render_paras(
                psv.take(pi as int),
                width as int,
            ) + render_para(psv[pi as int], width as int));
            assert(out.deep_view() =~= old(out).deep_view() + hdr_part + render_paras(
                psv.take(pi as int + 1),
                width as int,
            ));
        }
        pi = pi + 1;
    }
    proof {
        assert(psv.take(psv.len() as int) =~= psv);
    }
    let ghost done = out.deep_view();
    let b2 = blank_exec();
    out.push(b2);
    let sep = DisplayLine { class: LineClass::Separator, text: separator_text(width) };
    out.push(sep);
    let b3 = blank_exec();
    out.push(b3);
    proof {
        let ghost sepv = DisplayLineV { class: LineClass::Separator, text: sep_line_spec(width as int) };
        assert(done == old(out).deep_view() + hdr_part + render_paras(psv, width as int));
        let ghost rhs = old(out).deep_view() + render_turn_spec(t@, width as int);
        assert(rhs.len() == done.len() + 3);
        assert(forall|i: int| 0 <= i < done.len() ==> rhs[i] == done[i]);
        assert(rhs[done.len() as int] == blank_line());
        assert(rhs[done.len() as int + 1] == sepv);
        assert(rhs[done.len() as int + 2] == blank_line());
        assert(out.deep_view().len() == done.len() + 3);
        assert(forall|i: int| 0 <= i < done.len() ==> out.deep_view()[i] == done[i]);
        assert(out.deep_view()[done.len() as int] == blank_line());
        assert(out.deep_view()[done.len() as int + 1] == sepv);
        assert(out.deep_view()[done.len() as int + 2] == blank_line());
        assert(forall|i: int| 0 <= i < rhs.len() ==> out.deep_view()[i] == rhs[i]);
        assert(out.deep_view() =~= rhs);
    }
}

/// Renders the whole transcript at the given width.
pub fn render_transcript(turns: &Vec<Turn>, width: usize) -> (r: Vec<DisplayLine>)
    ensures
        r.deep_view() == render_transcript_spec(turns.deep_view(), width as int),
{
    let ghost ts = turns.deep_view();
    let mut out: Vec<DisplayLine> = Vec::new();
    let mut ti: usize = 0;
    proof {
        assert(ts.take(0) =~= Seq::<TurnV>::empty());
        assert(out.deep_view() =~= render_transcript_spec(ts.take(0), width as int));
    }
    while ti < turns.len()
        invariant
            ti <= turns.len(),
            ts == turns.deep_view(),
            ts.len() == turns.len(),
            out.deep_view() == render_transcript_spec(ts.take(ti as int), width as int),
        decreases turns.len() - ti,
    {
        render_turn_into(&mut out, &turns[ti], width);
        proof {
            assert(turns[ti as int]@ == ts[ti as int]);
            assert(ts.take(ti as int + 1).drop_last() =~= ts.take(ti as int));
            assert(ts.take(ti as int + 1).last() == ts[ti as int]);
            assert(out.deep_view() =~= render_transcript_spec(ts.take(ti as int + 1), width as int));
        }
        ti = ti + 1;
    }
    proof {
        assert(ts.take(ts.len() as int) =~= ts);
    }
    out
}

/// The exact bound the redraw works with: how far the rendered lines overflow
/// the viewport, and the offset clamped into that bound.
pub fn clamp_render_scroll(total_lines: usize, visible_height: usize, scroll: usize) -> (r: (
    usize,
    usize,
))
    ensures
        r.0 == if total_lines >= visible_height { total_lines - visible_height } else { 0 },
        r.1 == if scroll <= r.0 { scroll as int } else { r.0 as int },
{
    let max_scroll = if total_lines >= visible_height {
        total_lines - visible_height
    } else {
        0
    };
    let clamped = if scroll <= max_scroll {
        scroll
    } else {
        max_scroll
    };
    (max_scroll, clamped)
}

} // verus!

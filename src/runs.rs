//! Splitting text into runs of one typeface and one scale by glyph coverage.
use crate::chars::string_from_chars;
use crate::color::Color;
use crate::markup::{parse, segments_of, segments_view, TextSegment};
use vstd::prelude::*;

verus! {

/// Scale of a run drawn at the requested size, in percent.
pub const FULL_SCALE: u32 = 100;

/// Scale of a decorative symbol drawn with the fallback face, in percent.
pub const SYMBOL_SCALE: u32 = 80;

/// Which of the two typefaces draws a run.
#[derive(Clone, Copy, Debug, PartialEq, Eq, Structural)]
pub enum Face {
    /// The primary typeface.
    Primary,
    /// The fallback typeface, for code points the primary one lacks.
    Fallback,
}

/// The code points for which the primary typeface has a glyph.
#[derive(Clone, Debug)]
pub struct GlyphCoverage {
    pub chars: Vec<char>,
}

impl GlyphCoverage {
    pub open spec fn covers(&self, c: char) -> bool {
        self.chars@.contains(c)
    }

    pub fn new(chars: Vec<char>) -> (r: GlyphCoverage)
        ensures
            r.chars@ == chars@,
    {
        GlyphCoverage { chars }
    }

    /// Whether the primary typeface has a glyph for `c`.
    pub fn has_glyph(&self, c: char) -> (r: bool)
        ensures
            r == self.covers(c),
    {
        let mut i: usize = 0;
        while i < self.chars.len()
            invariant
                i <= self.chars@.len(),
                forall|j: int| 0 <= j < i ==> self.chars@[j] != c,
            decreases self.chars@.len() - i,
        {
            if self.chars[i] == c {
                return true;
            }
            i = i + 1;
        }
        false
    }
}

/// Whether `c` is one of the decorative prestige symbols.
pub open spec fn is_symbol(c: char) -> bool {
    c == '\u{272B}' || c == '\u{272A}' || c == '\u{269D}' || c == '\u{2725}'
}

/// The scale, in percent, at which the fallback face draws `c`.
pub open spec fn scale_of(c: char) -> u32 {
    if is_symbol(c) {
        80
    } else {
        100
    }
}

/// The face and scale that draw `c`.
pub open spec fn key_of(c: char, cov: GlyphCoverage) -> (Face, u32) {
    if cov.covers(c) {
        (Face::Primary, 100)
    } else {
        (Face::Fallback, scale_of(c))
    }
}

/// The texts of the maximal runs of `t` whose characters share one face and
/// one scale, in order.
pub open spec fn run_texts(t: Seq<char>, cov: GlyphCoverage) -> Seq<Seq<char>>
    decreases t.len(),
{
    if t.len() == 0 {
        seq![]
    } else {
        let prev = run_texts(t.drop_last(), cov);
        if t.len() > 1 && key_of(t[t.len() - 2], cov) == key_of(t.last(), cov) {
            prev.update(prev.len() - 1, prev.last().push(t.last()))
        } else {
            prev.push(seq![t.last()])
        }
    }
}

/// A run as a value: text, face, scale and colour.
pub type RunView = (Seq<char>, Face, u32, Option<Color>);

/// The runs of a segment's text, all with the segment's colour.
pub open spec fn segment_runs_of(t: Seq<char>, color: Option<Color>, cov: GlyphCoverage) -> Seq<
    RunView,
> {
    run_texts(t, cov).map_values(
        |r: Seq<char>| (r, key_of(r[0], cov).0, key_of(r[0], cov).1, color),
    )
}

/// The runs of a sequence of segments, in order.
pub open spec fn runs_of_segments(
    segs: Seq<(Seq<char>, Option<Color>)>,
    cov: GlyphCoverage,
) -> Seq<RunView>
    decreases segs.len(),
{
    if segs.len() == 0 {
        seq![]
    } else {
        runs_of_segments(segs.drop_last(), cov) + segment_runs_of(
            segs.last().0,
            segs.last().1,
            cov,
        )
    }
}

/// The runs of a markup string.
pub open spec fn runs_of(input: Seq<char>, cov: GlyphCoverage) -> Seq<RunView> {
    runs_of_segments(segments_of(input), cov)
}

/// A maximal piece of one segment drawn with one face at one scale.
#[derive(Clone, Debug)]
pub struct TextRun {
    pub text: String,
    pub face: Face,
    /// Percent of the requested size.
    pub scale: u32,
    pub color: Option<Color>,
}

impl View for TextRun {
    type V = RunView;

    open spec fn view(&self) -> RunView {
        (self.text@, self.face, self.scale, self.color)
    }
}

pub open spec fn runs_view(v: Seq<TextRun>) -> Seq<RunView> {
    v.map_values(|r: TextRun| r@)
}

/// The scale, in percent, at which the fallback face draws `ch`: smaller
/// for the decorative symbols, full otherwise.
pub fn get_scale_factor(ch: char) -> (r: u32)
    ensures
        r == scale_of(ch),
{
    if ch == '\u{272B}' || ch == '\u{272A}' || ch == '\u{269D}' || ch == '\u{2725}' {
        SYMBOL_SCALE
    } else {
        FULL_SCALE
    }
}

/// Holds the typeface facts that text layout needs.
pub struct TextRenderer {
    pub coverage: GlyphCoverage,
}

impl TextRenderer {
    pub fn new(coverage: GlyphCoverage) -> (r: TextRenderer)
        ensures
            r.coverage == coverage,
    {
        TextRenderer { coverage }
    }

    fn key(&self, c: char) -> (r: (Face, u32))
        ensures
            r == key_of(c, self.coverage),
    {
        if self.coverage.has_glyph(c) {
            (Face::Primary, FULL_SCALE)
        } else {
            (Face::Fallback, get_scale_factor(c))
        }
    }

    /// Splits one segment's text into maximal runs of one face and scale.
    pub fn segment_runs(&self, text: &Vec<char>, color: Option<Color>) -> (r: Vec<TextRun>)
        ensures
            runs_view(r@) == segment_runs_of(text@, color, self.coverage),
    {
        let ghost cov = self.coverage;
        let ghost t = text@;
        let mut runs: Vec<TextRun> = Vec::new();
        let mut run: Vec<char> = Vec::new();
        let mut face = Face::Primary;
        let mut scale: u32 = FULL_SCALE;
        let mut i: usize = 0;
        assert(t.take(0) =~= seq![]);
        while i < text.len()
            invariant
                t == text@,
                cov == self.coverage,
                i <= t.len(),
                i == 0 ==> run@.len() == 0 && runs@.len() == 0,
                i > 0 ==> run@.len() > 0 && run_texts(t.take(i as int), cov).len() > 0
                    && run@ == run_texts(t.take(i as int), cov).last()
                    && key_of(run@[0], cov) == (face, scale)
                    && key_of(t[i - 1], cov) == (face, scale)
                    && runs_view(runs@) == run_texts(t.take(i as int), cov).drop_last().map_values(
                    |r: Seq<char>| (r, key_of(r[0], cov).0, key_of(r[0], cov).1, color),
                ),
            decreases t.len() - i,
        {
            let c = text[i];
            let (f, s) = self.key(c);
            let ghost prev = run_texts(t.take(i as int), cov);
            assert(t.take(i as int + 1).drop_last() =~= t.take(i as int));
            assert(t.take(i as int + 1).last() == c);
            if i > 0 {
                assert(t.take(i as int + 1)[i - 1] == t[i - 1]);
            }
            if (f != face || s != scale) && run.len() > 0 {
                let ghost rv = run@;
                let ghost before = runs@;
                runs.push(TextRun { text: string_from_chars(&run), face, scale, color });
                run = Vec::new();
                assert(runs_view(runs@) =~= runs_view(before) + seq![
                    (rv, key_of(rv[0], cov).0, key_of(rv[0], cov).1, color),
                ]);
                assert(prev.drop_last().push(prev.last()) =~= prev);
                assert(runs_view(runs@) =~= run_texts(t.take(i as int + 1), cov).drop_last().map_values(
                    |r: Seq<char>| (r, key_of(r[0], cov).0, key_of(r[0], cov).1, color),
                ));
            } else if i > 0 {
                assert(run_texts(t.take(i as int + 1), cov).drop_last() =~= prev.drop_last());
            } else {
                assert(run_texts(t.take(1), cov) =~= seq![seq![c]]);
                assert(runs_view(runs@) =~= seq![]);
                assert(run_texts(t.take(1), cov).drop_last() =~= seq![]);
            }
            face = f;
            scale = s;
            let ghost old_run = run@;
            run.push(c);
            proof {
                if old_run.len() > 0 {
                    assert(run@[0] == old_run[0]);
                }
            }
            assert(run@ =~= run_texts(t.take(i as int + 1), cov).last());
            i = i + 1;
        }
        if run.len() > 0 {
            let ghost rv = run@;
            let ghost before = runs@;
            runs.push(TextRun { text: string_from_chars(&run), face, scale, color });
            assert(runs_view(runs@) =~= runs_view(before) + seq![
                (rv, key_of(rv[0], cov).0, key_of(rv[0], cov).1, color),
            ]);
            let ghost all = run_texts(t.take(i as int), cov);
            assert(all.drop_last().push(all.last()) =~= all);
        }
        assert(t.take(i as int) =~= t);
        assert(runs_view(runs@) =~= segment_runs_of(t, color, cov));
        runs
    }

    /// The runs of a markup string: each segment split into maximal runs of
    /// one face and scale, segments in order; empty segments give none.
    pub fn extract_text_runs(&self, input: &str) -> (r: Vec<TextRun>)
        ensures
            runs_view(r@) == runs_of(input@, self.coverage),
    {
        let segments = parse(input);
        let ghost segs = segments_view(segments@);
        let mut runs: Vec<TextRun> = Vec::new();
        let mut k: usize = 0;
        assert(segs.take(0) =~= seq![]);
        assert(runs_view(runs@) =~= seq![]);
        while k < segments.len()
            invariant
                segs == segments_view(segments@),
                k <= segs.len(),
                runs_view(runs@) == runs_of_segments(segs.take(k as int), self.coverage),
            decreases segs.len() - k,
        {
            let seg: &TextSegment = &segments[k];
            let text = crate::chars::chars_of(seg.text.as_str());
            let mut part = self.segment_runs(&text, seg.color);
            let ghost before = runs@;
            let ghost added = part@;
            runs.append(&mut part);
            assert(runs_view(runs@) =~= runs_view(before) + runs_view(added));
            assert(segs.take(k as int + 1).drop_last() =~= segs.take(k as int));
            assert(segs.take(k as int + 1).last() == segs[k as int]);
            k = k + 1;
        }
        assert(segs.take(k as int) =~= segs);
        runs
    }
}

proof fn lemma_segment_scales(segs: Seq<(Seq<char>, Option<Color>)>, cov: GlyphCoverage)
    ensures
        forall|i: int|
            0 <= i < runs_of_segments(segs, cov).len() ==> #[trigger] runs_of_segments(segs, cov)[i].2
                <= 100,
    decreases segs.len(),
{
    if segs.len() > 0 {
        lemma_segment_scales(segs.drop_last(), cov);
        let a = runs_of_segments(segs.drop_last(), cov);
        let b = segment_runs_of(segs.last().0, segs.last().1, cov);
        assert forall|i: int| 0 <= i < (a + b).len() implies #[trigger] (a + b)[i].2 <= 100 by {
            if i >= a.len() {
                assert((a + b)[i] == b[i - a.len()]);
            }
        }
    }
}

/// Every run is drawn at full scale or below.
pub proof fn lemma_run_scales(input: Seq<char>, cov: GlyphCoverage)
    ensures
        forall|i: int| 0 <= i < runs_of(input, cov).len() ==> #[trigger] runs_of(input, cov)[i].2 <= 100,
{
    lemma_segment_scales(segments_of(input), cov);
}

proof fn lemma_run_texts_uniform(t: Seq<char>, cov: GlyphCoverage)
    ensures
        forall|i: int|
            0 <= i < run_texts(t, cov).len() ==> #[trigger] run_texts(t, cov)[i].len() > 0,
        forall|i: int, j: int|
            0 <= i < run_texts(t, cov).len() && 0 <= j < run_texts(t, cov)[i].len() ==> key_of(
                #[trigger] run_texts(t, cov)[i][j],
                cov,
            ) == key_of(run_texts(t, cov)[i][0], cov),
        t.len() > 0 ==> run_texts(t, cov).len() > 0 && run_texts(t, cov).last().last() == t.last(),
    decreases t.len(),
{
    if t.len() > 0 {
        lemma_run_texts_uniform(t.drop_last(), cov);
        if t.len() > 1 {
            assert(t.drop_last().last() == t[t.len() - 2]);
        }
    }
}

/// Run texts joined in order.
pub open spec fn join_runs(rs: Seq<Seq<char>>) -> Seq<char>
    decreases rs.len(),
{
    if rs.len() == 0 {
        seq![]
    } else {
        join_runs(rs.drop_last()) + rs.last()
    }
}

/// Runs are maximal and lose nothing: joined, the runs of a text give the
/// text back, and each run differs from the next in face or in scale.
pub proof fn lemma_runs_partition(t: Seq<char>, cov: GlyphCoverage)
    ensures
        join_runs(run_texts(t, cov)) == t,
        forall|i: int|
            0 <= i < run_texts(t, cov).len() - 1 ==> key_of(#[trigger] run_texts(t, cov)[i][0], cov)
                != key_of(run_texts(t, cov)[i + 1][0], cov),
    decreases t.len(),
{
    if t.len() > 0 {
        let p = t.drop_last();
        let c = t.last();
        lemma_runs_partition(p, cov);
        lemma_run_texts_uniform(p, cov);
        lemma_run_texts_uniform(t, cov);
        let prev = run_texts(p, cov);
        let rt = run_texts(t, cov);
        assert(t =~= p.push(c));
        if t.len() > 1 && key_of(t[t.len() - 2], cov) == key_of(c, cov) {
            assert(rt.drop_last() =~= prev.drop_last());
            assert(join_runs(rt) =~= join_runs(prev.drop_last()) + prev.last().push(c));
            assert(join_runs(prev) == join_runs(prev.drop_last()) + prev.last());
            assert(join_runs(prev.drop_last()) + prev.last().push(c) =~= (join_runs(
                prev.drop_last(),
            ) + prev.last()).push(c));
            assert(join_runs(rt) =~= t);
            assert forall|i: int| 0 <= i < rt.len() - 1 implies key_of(#[trigger] rt[i][0], cov)
                != key_of(rt[i + 1][0], cov) by {
                if i + 1 == rt.len() - 1 {
                    assert(rt[i + 1][0] == prev[i + 1][0]);
                }
            }
        } else {
            assert(rt.drop_last() =~= prev);
            assert(join_runs(rt) =~= t);
            if p.len() > 0 {
                assert(p.last() == t[t.len() - 2]);
                let last = prev.last();
                assert(key_of(last[last.len() - 1], cov) == key_of(last[0], cov));
            }
        }
    }
}

/// Fallback follows coverage: every character of a run drawn with the
/// fallback face is one the primary face lacks (so a covered character is
/// always in a primary run), and a decorative symbol that the primary face
/// lacks is always in a run drawn below full scale.
pub proof fn lemma_fallback_only_when_uncovered(input: Seq<char>, cov: GlyphCoverage)
    ensures
        forall|i: int, j: int|
            0 <= i < runs_of(input, cov).len() && 0 <= j < runs_of(input, cov)[i].0.len() ==> {
                &&& cov.covers(#[trigger] runs_of(input, cov)[i].0[j]) ==> runs_of(input, cov)[i].1
                    == Face::Primary
                &&& (!cov.covers(runs_of(input, cov)[i].0[j]) && is_symbol(
                    runs_of(input, cov)[i].0[j],
                )) ==> runs_of(input, cov)[i].2 < 100
            },
{
    lemma_segments_runs_keyed(segments_of(input), cov);
    assert forall|i: int, j: int|
        0 <= i < runs_of(input, cov).len() && 0 <= j < runs_of(
            input,
            cov,
        )[i].0.len() implies key_of(#[trigger] runs_of(input, cov)[i].0[j], cov) == (
        runs_of(input, cov)[i].1,
        runs_of(input, cov)[i].2,
    ) by {
        assert(key_of(runs_of_segments(segments_of(input), cov)[i].0[j], cov) == (
            runs_of_segments(segments_of(input), cov)[i].1,
            runs_of_segments(segments_of(input), cov)[i].2,
        ));
    }
}

proof fn lemma_segments_runs_keyed(segs: Seq<(Seq<char>, Option<Color>)>, cov: GlyphCoverage)
    ensures
        forall|i: int, j: int|
            0 <= i < runs_of_segments(segs, cov).len() && 0 <= j < runs_of_segments(
                segs,
                cov,
            )[i].0.len() ==> #[trigger] key_of(runs_of_segments(segs, cov)[i].0[j], cov) == (
                runs_of_segments(segs, cov)[i].1,
                runs_of_segments(segs, cov)[i].2,
            ),
    decreases segs.len(),
{
    if segs.len() > 0 {
        lemma_segments_runs_keyed(segs.drop_last(), cov);
        lemma_run_texts_uniform(segs.last().0, cov);
        let a = runs_of_segments(segs.drop_last(), cov);
        let b = segment_runs_of(segs.last().0, segs.last().1, cov);
        assert forall|i: int, j: int|
            0 <= i < (a + b).len() && 0 <= j < (a + b)[i].0.len() implies #[trigger] key_of(
            (a + b)[i].0[j],
            cov,
        ) == ((a + b)[i].1, (a + b)[i].2) by {
            if i < a.len() {
                assert((a + b)[i] == a[i]);
            } else {
                let k = i - a.len();
                assert((a + b)[i] == b[k]);
                assert(key_of(run_texts(segs.last().0, cov)[k][j], cov) == key_of(
                    run_texts(segs.last().0, cov)[k][0],
                    cov,
                ));
            }
        }
    }
}

} // verus!

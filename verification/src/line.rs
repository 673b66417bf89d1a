//! Grapheme-segmented representation of one line of text.
//!
//! A line is an ordered sequence of fragments; each fragment holds one
//! user-perceived character (grapheme cluster), its display width on the
//! terminal (one or two columns), and, for zero-width clusters, a visible
//! one-column replacement so that cursor math stays consistent.
//!
//! Two coordinate systems meet here: *grapheme indices* (stable identity
//! for cursor movement) and *display columns* (spatial layout).  `len`
//! counts graphemes, `width` converts a grapheme-index range into display
//! columns, and `get` slices the rendered text by display columns.

use unicode_segmentation::UnicodeSegmentation;
use vstd::prelude::*;
use vstd::string::StringExecFns;

verus! {

/// How many terminal columns a grapheme cluster occupies when rendered:
/// one (`Half`) or two (`Full`).  Zero-width clusters render as a
/// one-column placeholder and so count as `Half`.
#[derive(Clone, Copy, Debug, PartialEq, Eq, Structural)]
pub enum GraphemeWidth {
    Half,
    Full,
}

/// The column count of a rendered fragment.
pub open spec fn col_count(w: GraphemeWidth) -> int {
    match w {
        GraphemeWidth::Half => 1,
        GraphemeWidth::Full => 2,
    }
}

impl GraphemeWidth {
    /// The column count of a rendered fragment.
    pub fn cols(self) -> (r: usize)
        ensures
            r as int == col_count(self),
    {
        match self {
            GraphemeWidth::Half => 1,
            GraphemeWidth::Full => 2,
        }
    }
}

/// One grapheme cluster of a line, with its display width and, for
/// zero-width clusters, the character rendered in its place.
struct Fragment {
    grapheme: String,
    render_width: GraphemeWidth,
    replacement: Option<char>,
}

/// The mathematical model of a fragment: the cluster's characters, its
/// display width, and its optional replacement character.
pub ghost struct FragModel {
    pub grapheme: Seq<char>,
    pub render_width: GraphemeWidth,
    pub replacement: Option<char>,
}

impl Fragment {
    spec fn model(self) -> FragModel {
        FragModel {
            grapheme: self.grapheme@,
            render_width: self.render_width,
            replacement: self.replacement,
        }
    }
}

// ---------------------------------------------------------------------
// Trusted view of the two Unicode algorithms.
// ---------------------------------------------------------------------

/// The split of a string into extended grapheme clusters, as the Unicode
/// segmentation algorithm defines it.  A function of the characters alone.
pub uninterp spec fn grapheme_split(s: Seq<char>) -> Seq<Seq<char>>;

/// The display width, in terminal columns, of a string, as the Unicode
/// width tables define it.  A function of the characters alone.
pub uninterp spec fn grapheme_cols(g: Seq<char>) -> int;

/// Relies on `unicode_segmentation::UnicodeSegmentation::graphemes` (in
/// extended mode): the split into grapheme clusters depends on the
/// characters alone, and an empty string has no clusters.
#[verifier::external_body]
fn split_graphemes(s: &str) -> (r: Vec<String>)
    ensures
        r@.map_values(|g: String| g@) == grapheme_split(s@),
        s@.len() == 0 ==> r@.len() == 0,
{
    s.graphemes(true).map(|g| g.to_string()).collect()
}

/// Relies on `unicode_width::UnicodeWidthStr::width`: the displayed column
/// count of a string depends on its characters alone.
#[verifier::external_body]
fn str_cols(g: &str) -> (r: usize)
    ensures
        r as int == grapheme_cols(g@),
{
    unicode_width::UnicodeWidthStr::width(g)
}

/// Relies on `String::push`: appends one character.
#[verifier::external_body]
pub(crate) fn push_char(s: &mut String, c: char)
    ensures
        final(s)@ == old(s)@.push(c),
{
    s.push(c);
}

// ---------------------------------------------------------------------
// The fragment model of a whole line.
// ---------------------------------------------------------------------

/// The fragment a single grapheme cluster turns into: clusters of
/// display width zero or one render in one column (zero-width ones as a
/// visible placeholder), wider clusters render in two columns.
pub open spec fn frag_model_of(g: Seq<char>) -> FragModel {
    FragModel {
        grapheme: g,
        render_width: if grapheme_cols(g) >= 2 {
            GraphemeWidth::Full
        } else {
            GraphemeWidth::Half
        },
        replacement: if grapheme_cols(g) == 0 {
            Some('\u{00b7}')
        } else {
            None
        },
    }
}

/// The fragment sequence that a raw text line segments into.
pub open spec fn line_model_of(s: Seq<char>) -> Seq<FragModel> {
    grapheme_split(s).map_values(|g: Seq<char>| frag_model_of(g))
}

// ---------------------------------------------------------------------
// Display-column arithmetic over fragment sequences.
// ---------------------------------------------------------------------

/// Addition capped at the machine word, mirroring `usize::saturating_add`.
pub open spec fn sat_cap(x: int) -> int {
    if x > usize::MAX as int {
        usize::MAX as int
    } else {
        x
    }
}

/// The display width of a fragment sequence as the renderer accumulates
/// it: summed left to right, capped at the machine word at each step.
pub open spec fn cols_of(frags: Seq<FragModel>) -> int
    decreases frags.len(),
{
    if frags.len() == 0 {
        0
    } else {
        sat_cap(cols_of(frags.drop_last()) + col_count(frags.last().render_width))
    }
}

/// The exact (uncapped) display width of a fragment sequence.
pub open spec fn total_cols(frags: Seq<FragModel>) -> int
    decreases frags.len(),
{
    if frags.len() == 0 {
        0
    } else {
        col_count(frags.first().render_width) + total_cols(frags.drop_first())
    }
}

/// The display column at which fragment `k` starts when the line is laid
/// out from column zero.
pub open spec fn frag_start(frags: Seq<FragModel>, k: int) -> int {
    total_cols(frags.take(k))
}

/// The sub-sequence of fragments with indices in `start..end`, the range
/// clamped to the fragment count.
pub open spec fn col_span_slice(frags: Seq<FragModel>, start: int, end: int) -> Seq<FragModel> {
    let hi0 = if end < start {
        start
    } else {
        end
    };
    let lo = if start > frags.len() {
        frags.len() as int
    } else {
        start
    };
    let hi = if hi0 > frags.len() {
        frags.len() as int
    } else {
        hi0
    };
    frags.subrange(lo, hi)
}

/// The display width of the fragments with indices in `start..end`,
/// clamped to the fragment count, as `Line::width` computes it.
pub open spec fn col_span(frags: Seq<FragModel>, start: int, end: int) -> int {
    cols_of(col_span_slice(frags, start, end))
}

// ---------------------------------------------------------------------
// Rendering a display-column range of a line.
// ---------------------------------------------------------------------

/// The text one fragment contributes to the visible column range
/// `start..end` when it occupies columns `pos..pos + width`: nothing if
/// it ends at or before `start`; the ellipsis marker if a boundary of
/// the range falls inside it (a fragment is never partially rendered);
/// otherwise its replacement character or the cluster itself.
pub open spec fn render_piece(f: FragModel, pos: int, start: int, end: int) -> Seq<char> {
    let f_end = sat_cap(pos + col_count(f.render_width));
    if f_end <= start {
        Seq::<char>::empty()
    } else if f_end > end || pos < start {
        seq!['\u{22ef}']
    } else {
        match f.replacement {
            Some(c) => seq![c],
            None => f.grapheme,
        }
    }
}

/// The text a fragment sequence starting at column `pos` contributes to
/// the visible column range `start..end`.  Rendering stops once the
/// running position has reached `end`.
pub open spec fn render_cols(frags: Seq<FragModel>, pos: int, start: int, end: int) -> Seq<char>
    decreases frags.len(),
{
    if frags.len() == 0 || pos >= end {
        Seq::<char>::empty()
    } else {
        render_piece(frags.first(), pos, start, end) + render_cols(
            frags.drop_first(),
            sat_cap(pos + col_count(frags.first().render_width)),
            start,
            end,
        )
    }
}

/// No fragment of `frags`, laid out from display column `pos`, has the
/// column boundary `a` strictly in its interior.
pub open spec fn aligned_from(frags: Seq<FragModel>, pos: int, a: int) -> bool
    decreases frags.len(),
{
    frags.len() == 0 || a <= pos || {
        let f_end = sat_cap(pos + col_count(frags.first().render_width));
        a >= f_end && aligned_from(frags.drop_first(), f_end, a)
    }
}

/// The display column `a` falls on a fragment boundary of the line (or at
/// or beyond its total width): it splits no fragment.
pub open spec fn col_boundary(frags: Seq<FragModel>, a: int) -> bool {
    aligned_from(frags, 0, a)
}

/// The text of a line visible between display columns `start` and `end`,
/// as `Line::get` returns it.  An empty or reversed range shows nothing.
pub open spec fn visible_cols(frags: Seq<FragModel>, start: int, end: int) -> Seq<char> {
    if start >= end {
        Seq::<char>::empty()
    } else {
        render_cols(frags, 0, start, end)
    }
}

// ---------------------------------------------------------------------
// The line itself.
// ---------------------------------------------------------------------

/// An immutable, grapheme-segmented representation of one line of text.
/// Its view is the sequence of fragment models the raw text segments
/// into; fragments are produced once and never reordered.
pub struct Line {
    fragments: Vec<Fragment>,
}

impl View for Line {
    type V = Seq<FragModel>;

    closed spec fn view(&self) -> Seq<FragModel> {
        self.fragments@.map_values(|f: Fragment| f.model())
    }
}

impl Line {
    /// Segments raw text into grapheme clusters and computes each
    /// cluster's terminal display width.
    pub fn from_str(txt: &str) -> (r: Line)
        ensures
            r@ == line_model_of(txt@),
    {
        let graphemes = split_graphemes(txt);
        let ghost split = grapheme_split(txt@);
        let mut fragments: Vec<Fragment> = Vec::new();
        let mut i: usize = 0;
        while i < graphemes.len()
            invariant
                0 <= i <= graphemes.len(),
                graphemes@.map_values(|g: String| g@) == split,
                fragments@.len() == i,
                forall|j: int|
                    0 <= j < i ==> #[trigger] fragments@[j].model() == frag_model_of(split[j]),
            decreases graphemes.len() - i,
        {
            let g = graphemes[i].clone();
            assert(g@ == split[i as int]);
            let cols = str_cols(g.as_str());
            let render_width = if cols >= 2 {
                GraphemeWidth::Full
            } else {
                GraphemeWidth::Half
            };
            let replacement = if cols == 0 {
                Some('\u{00b7}')
            } else {
                None
            };
            let f = Fragment { grapheme: g, render_width, replacement };
            assert(f.model() == frag_model_of(split[i as int]));
            fragments.push(f);
            i += 1;
        }
        let ghost fm = fragments@;
        let r = Line { fragments };
        proof {
            assert forall|j: int| 0 <= j < fm.len() implies r@[j] == line_model_of(txt@)[j] by {
                assert(fm[j].model() == frag_model_of(split[j]));
            }
            assert(r@ =~= line_model_of(txt@));
        }
        r
    }

    /// The number of grapheme clusters — the bound for cursor indices,
    /// not the display width.
    pub fn len(&self) -> (r: usize)
        ensures
            r == self@.len(),
    {
        self.fragments.len()
    }

    /// The display width, in columns, of the fragments with indices in
    /// the given range — converts a grapheme-index cursor position into
    /// a screen column.
    pub fn width(&self, range: core::ops::Range<usize>) -> (r: usize)
        ensures
            r as int == col_span(self@, range.start as int, range.end as int),
    {
        let len = self.fragments.len();
        let hi0 = if range.end < range.start {
            range.start
        } else {
            range.end
        };
        let lo = if range.start > len {
            len
        } else {
            range.start
        };
        let hi = if hi0 > len {
            len
        } else {
            hi0
        };
        let mut total: usize = 0;
        let mut i = lo;
        while i < hi
            invariant
                lo <= i <= hi <= self.fragments@.len(),
                self@.len() == self.fragments@.len(),
                total as int == cols_of(self@.subrange(lo as int, i as int)),
            decreases hi - i,
        {
            let w = self.fragments[i].render_width.cols();
            proof {
                assert(self@.subrange(lo as int, i + 1).drop_last() =~= self@.subrange(
                    lo as int,
                    i as int,
                ));
                assert(self@.subrange(lo as int, i + 1).last() == self@[i as int]);
            }
            total = total.saturating_add(w);
            i += 1;
        }
        proof {
            assert(self@.subrange(lo as int, hi as int) =~= col_span_slice(
                self@,
                range.start as int,
                range.end as int,
            ));
        }
        total
    }

    /// The rendered text visible between two display columns.  A
    /// fragment straddling either edge of the range appears as a single
    /// ellipsis marker rather than being partially rendered.
    pub fn get(&self, range: core::ops::Range<usize>) -> (r: String)
        ensures
            r@ == visible_cols(self@, range.start as int, range.end as int),
    {
        let mut result = String::new();
        if range.start >= range.end {
            return result;
        }
        let ghost start = range.start as int;
        let ghost end = range.end as int;
        let mut current_pos: usize = 0;
        let mut i: usize = 0;
        proof {
            assert(self@.skip(0) =~= self@);
            assert(result@ + render_cols(self@, 0, start, end) =~= render_cols(
                self@,
                0,
                start,
                end,
            ));
        }
        while i < self.fragments.len() && current_pos < range.end
            invariant
                0 <= i <= self.fragments@.len(),
                self@.len() == self.fragments@.len(),
                start < end,
                start == range.start as int && end == range.end as int,
                render_cols(self@, 0, start, end) == result@ + render_cols(
                    self@.skip(i as int),
                    current_pos as int,
                    start,
                    end,
                ),
            decreases self.fragments@.len() - i,
        {
            let f = &self.fragments[i];
            let w = f.render_width.cols();
            let f_end = current_pos.saturating_add(w);
            let ghost rest = self@.skip(i as int);
            let ghost fm = self@[i as int];
            let ghost piece = render_piece(fm, current_pos as int, start, end);
            let ghost prev = result@;
            proof {
                assert(fm == self.fragments@[i as int].model());
                assert(rest.first() == fm);
                assert(rest.drop_first() =~= self@.skip(i + 1));
                assert(render_cols(rest, current_pos as int, start, end) == piece + render_cols(
                    self@.skip(i + 1),
                    f_end as int,
                    start,
                    end,
                ));
            }
            if f_end > range.start {
                if f_end > range.end || current_pos < range.start {
                    push_char(&mut result, '\u{22ef}');
                    assert(result@ =~= prev + piece);
                } else if let Some(c) = f.replacement {
                    push_char(&mut result, c);
                    assert(result@ =~= prev + piece);
                } else {
                    result.append(f.grapheme.as_str());
                    assert(result@ =~= prev + piece);
                }
            } else {
                assert(result@ =~= prev + piece);
            }
            proof {
                assert(result@ + render_cols(self@.skip(i + 1), f_end as int, start, end)
                    =~= prev + render_cols(rest, current_pos as int, start, end));
            }
            current_pos = f_end;
            i += 1;
        }
        proof {
            assert(render_cols(self@.skip(i as int), current_pos as int, start, end)
                =~= Seq::<char>::empty());
            assert(result@ =~= result@ + Seq::<char>::empty());
        }
        result
    }
}

// ---------------------------------------------------------------------
// Laws about slicing a line by display columns.
// ---------------------------------------------------------------------

/// The width of a fragment sequence is never negative.
proof fn lemma_total_cols_nonneg(frags: Seq<FragModel>)
    ensures
        total_cols(frags) >= 0,
    decreases frags.len(),
{
    if frags.len() > 0 {
        lemma_total_cols_nonneg(frags.drop_first());
    }
}

/// Moving the left edge of the visible range anywhere at or before the
/// current layout position does not change what is rendered.
proof fn lemma_render_start_shift(frags: Seq<FragModel>, pos: int, s1: int, s2: int, e: int)
    requires
        0 <= s1 <= s2 <= pos,
        pos + total_cols(frags) <= usize::MAX as int,
    ensures
        render_cols(frags, pos, s1, e) == render_cols(frags, pos, s2, e),
    decreases frags.len(),
{
    if frags.len() == 0 || pos >= e {
    } else {
        let f = frags.first();
        let w = col_count(f.render_width);
        lemma_total_cols_nonneg(frags.drop_first());
        let f_end = sat_cap(pos + w);
        assert(f_end == pos + w);
        assert(render_piece(f, pos, s1, e) == render_piece(f, pos, s2, e));
        lemma_render_start_shift(frags.drop_first(), f_end, s1, s2, e);
    }
}

/// The inductive core of the additivity law, generalized over the layout
/// position and the left edge of the combined range.
proof fn lemma_render_additive_from(frags: Seq<FragModel>, pos: int, s: int, a: int, b: int)
    requires
        0 <= s <= a <= b,
        s <= pos,
        pos >= 0,
        pos + total_cols(frags) <= usize::MAX as int,
        aligned_from(frags, pos, a),
    ensures
        render_cols(frags, pos, s, a) + render_cols(frags, pos, a, b) == render_cols(
            frags,
            pos,
            s,
            b,
        ),
    decreases frags.len(),
{
    if frags.len() == 0 {
        assert(render_cols(frags, pos, s, a) + render_cols(frags, pos, a, b) =~= render_cols(
            frags,
            pos,
            s,
            b,
        ));
    } else if pos >= b {
        assert(render_cols(frags, pos, s, a) + render_cols(frags, pos, a, b) =~= render_cols(
            frags,
            pos,
            s,
            b,
        ));
    } else if pos >= a {
        lemma_render_start_shift(frags, pos, s, a, b);
        assert(render_cols(frags, pos, s, a) + render_cols(frags, pos, a, b) =~= render_cols(
            frags,
            pos,
            s,
            b,
        ));
    } else {
        let f = frags.first();
        let w = col_count(f.render_width);
        let rest = frags.drop_first();
        lemma_total_cols_nonneg(rest);
        let f_end = sat_cap(pos + w);
        assert(f_end == pos + w);
        assert(a >= f_end && aligned_from(rest, f_end, a));
        assert(render_piece(f, pos, a, b) =~= Seq::<char>::empty());
        assert(render_piece(f, pos, s, a) == render_piece(f, pos, s, b));
        lemma_render_additive_from(rest, f_end, s, a, b);
        assert(render_cols(frags, pos, s, a) + render_cols(frags, pos, a, b) =~= render_cols(
            frags,
            pos,
            s,
            b,
        ));
    }
}

/// Law: `Line::get` is length-additive at display-column boundaries that
/// split no full-width fragment: for `0 <= a <= b`, when `a` falls on a
/// fragment boundary, the text visible in `0..a` followed by the text
/// visible in `a..b` is exactly the text visible in `0..b`.
pub proof fn lemma_get_additive(frags: Seq<FragModel>, a: int, b: int)
    requires
        0 <= a <= b,
        total_cols(frags) <= usize::MAX as int,
        col_boundary(frags, a),
    ensures
        visible_cols(frags, 0, a) + visible_cols(frags, a, b) == visible_cols(frags, 0, b),
{
    if a == 0 {
        assert(visible_cols(frags, 0, a) + visible_cols(frags, a, b) =~= visible_cols(
            frags,
            0,
            b,
        ));
    } else if a == b {
        assert(visible_cols(frags, 0, a) + visible_cols(frags, a, b) =~= visible_cols(
            frags,
            0,
            b,
        ));
    } else {
        lemma_render_additive_from(frags, 0, 0, a, b);
    }
}

/// The inductive core of the split-fragment law, generalized over the
/// layout position; `k` indexes the fragment whose interior holds `a`.
proof fn lemma_render_split_from(frags: Seq<FragModel>, pos: int, k: int, a: int, b: int)
    requires
        0 <= pos,
        0 <= k < frags.len(),
        pos + total_cols(frags) <= usize::MAX as int,
        pos + frag_start(frags, k) < a < pos + frag_start(frags, k) + col_count(
            frags[k].render_width,
        ),
        a < b,
    ensures
        render_cols(frags, pos, 0, a).len() > 0,
        render_cols(frags, pos, 0, a).last() == '\u{22ef}',
        render_cols(frags, pos, a, b).len() > 0,
        render_cols(frags, pos, a, b).first() == '\u{22ef}',
    decreases k,
{
    let f = frags.first();
    let w = col_count(f.render_width);
    let rest = frags.drop_first();
    lemma_total_cols_nonneg(rest);
    let f_end = sat_cap(pos + w);
    assert(f_end == pos + w);
    if k == 0 {
        assert(frag_start(frags, 0) == 0) by {
            assert(frags.take(0) =~= Seq::<FragModel>::empty());
        }
        assert(pos < a < f_end);
        assert(render_piece(f, pos, 0, a) =~= seq!['\u{22ef}']);
        assert(render_cols(rest, f_end, 0, a) =~= Seq::<char>::empty());
        assert(render_cols(frags, pos, 0, a) =~= seq!['\u{22ef}']);
        assert(render_piece(f, pos, a, b) =~= seq!['\u{22ef}']);
        assert(render_cols(frags, pos, a, b) == seq!['\u{22ef}'] + render_cols(
            rest,
            f_end,
            a,
            b,
        ));
        assert(render_cols(frags, pos, a, b).first() == '\u{22ef}');
    } else {
        assert(frag_start(frags, k) == w + frag_start(rest, k - 1)) by {
            assert(frags.take(k).first() == f);
            assert(frags.take(k).drop_first() =~= rest.take(k - 1));
        }
        lemma_total_cols_nonneg(rest.take(k - 1));
        assert(rest[k - 1] == frags[k]);
        lemma_render_split_from(rest, f_end, k - 1, a, b);
        // the first fragment ends at or before the straddled one starts
        assert(f_end <= pos + frag_start(frags, k));
        assert(render_cols(frags, pos, 0, a) == render_piece(f, pos, 0, a) + render_cols(
            rest,
            f_end,
            0,
            a,
        ));
        assert(render_cols(frags, pos, 0, a).last() == '\u{22ef}');
        assert(render_piece(f, pos, a, b) =~= Seq::<char>::empty());
        assert(render_cols(frags, pos, a, b) =~= render_cols(rest, f_end, a, b));
    }
}

/// Law: a display-column boundary that falls strictly inside a fragment
/// (necessarily a full-width one) makes both adjoining slices of the line
/// show the ellipsis marker in its place: the text visible in `0..a` ends
/// with it and the text visible in `a..b` starts with it.
pub proof fn lemma_get_split_shows_ellipsis(frags: Seq<FragModel>, k: int, a: int, b: int)
    requires
        0 <= k < frags.len(),
        total_cols(frags) <= usize::MAX as int,
        frag_start(frags, k) < a < frag_start(frags, k) + col_count(frags[k].render_width),
        a < b,
    ensures
        visible_cols(frags, 0, a).len() > 0,
        visible_cols(frags, 0, a).last() == '\u{22ef}',
        visible_cols(frags, a, b).len() > 0,
        visible_cols(frags, a, b).first() == '\u{22ef}',
{
    lemma_total_cols_nonneg(frags.take(k));
    lemma_render_split_from(frags, 0, k, a, b);
}

} // verus!

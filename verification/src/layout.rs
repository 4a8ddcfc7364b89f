use crate::catalog::{advance_of, glyph_of, lemma_advance_bounds, resolve, GlyphAsset};
use crate::config::{MAX_ADVANCE, MAX_TEXT_LEN};
use vstd::prelude::*;

verus! {

/// One glyph of a laid-out text: which asset to show and the absolute
/// world x, in micro-units, where it stands.
#[derive(Clone, Copy, Debug, PartialEq, Eq, Structural)]
pub struct GlyphPlacement {
    pub asset: GlyphAsset,
    pub offset: i64,
}

/// The pen position before character `i` of `s`: the base offset plus the
/// advances of all earlier characters, spaces included.
pub open spec fn offset_at(s: Seq<char>, base: int, i: int) -> int
    decreases i,
{
    if i <= 0 {
        base
    } else {
        offset_at(s, base, i - 1) + advance_of(s[i - 1])
    }
}

/// The layout of the first `i` characters of `s`: one (asset, offset) entry
/// per non-space character, in character order. A space moves the pen but
/// emits nothing.
pub open spec fn layout_upto(s: Seq<char>, base: int, i: int) -> Seq<(GlyphAsset, int)>
    decreases i,
{
    if i <= 0 {
        Seq::empty()
    } else {
        let prior = layout_upto(s, base, i - 1);
        if s[i - 1] == ' ' {
            prior
        } else {
            prior.push((glyph_of(s[i - 1]), offset_at(s, base, i - 1)))
        }
    }
}

/// The layout of the whole text `s` starting from pen position `base`.
pub open spec fn layout_spec(s: Seq<char>, base: int) -> Seq<(GlyphAsset, int)> {
    layout_upto(s, base, s.len() as int)
}

/// `ps` carries exactly the placements of text `s` at base offset `base`.
pub open spec fn matches_layout(ps: Seq<GlyphPlacement>, s: Seq<char>, base: int) -> bool {
    &&& ps.len() == layout_spec(s, base).len()
    &&& forall|i: int|
        0 <= i < ps.len() ==> (#[trigger] ps[i]).asset == layout_spec(s, base)[i].0
            && ps[i].offset == layout_spec(s, base)[i].1
}

/// The pen never moves left, and never beyond `MAX_ADVANCE` per character.
pub proof fn lemma_offset_at_bounds(s: Seq<char>, base: int, i: int)
    requires
        0 <= i,
    ensures
        base <= offset_at(s, base, i) <= base + i * MAX_ADVANCE,
    decreases i,
{
    if i > 0 {
        lemma_offset_at_bounds(s, base, i - 1);
        lemma_advance_bounds(s[i - 1]);
    }
}

/// A prefix of a layout has at most one entry per character, every entry's
/// offset lies between the base and the current pen position, and offsets
/// strictly increase in character order.
pub proof fn lemma_layout_upto_entries(s: Seq<char>, base: int, i: int)
    requires
        0 <= i,
    ensures
        layout_upto(s, base, i).len() <= i,
        forall|k: int|
            0 <= k < layout_upto(s, base, i).len() ==> base <= (#[trigger] layout_upto(
                s,
                base,
                i,
            )[k]).1 <= offset_at(s, base, i) - 1,
        forall|k1: int, k2: int|
            0 <= k1 < k2 < layout_upto(s, base, i).len() ==> (#[trigger] layout_upto(
                s,
                base,
                i,
            )[k1]).1 < (#[trigger] layout_upto(s, base, i)[k2]).1,
    decreases i,
{
    if i > 0 {
        lemma_layout_upto_entries(s, base, i - 1);
        lemma_advance_bounds(s[i - 1]);
        lemma_offset_at_bounds(s, base, i - 1);
    }
}

/// Determinism of layout: the placement sequence is a function of the text
/// and the base offset alone, so two layouts of the same text are equal.
pub proof fn lemma_layout_deterministic(
    a: Seq<(GlyphAsset, int)>,
    b: Seq<(GlyphAsset, int)>,
    s: Seq<char>,
    base: int,
)
    requires
        a == layout_spec(s, base),
        b == layout_spec(s, base),
    ensures
        a == b,
{
}

/// Advance monotonicity: the pen advances by exactly the advance of each
/// character, and the emitted offsets are non-decreasing (in fact strictly
/// increasing) in character order.
pub proof fn lemma_advance_monotonicity(s: Seq<char>, base: int)
    ensures
        forall|i: int|
            0 <= i < s.len() ==> #[trigger] offset_at(s, base, i + 1) == offset_at(s, base, i)
                + advance_of(s[i]),
        forall|k1: int, k2: int|
            0 <= k1 <= k2 < layout_spec(s, base).len() ==> (#[trigger] layout_spec(
                s,
                base,
            )[k1]).1 <= (#[trigger] layout_spec(s, base)[k2]).1,
{
    assert forall|i: int| 0 <= i < s.len() implies #[trigger] offset_at(s, base, i + 1)
        == offset_at(s, base, i) + advance_of(s[i]) by {
        assert(offset_at(s, base, i + 1) == offset_at(s, base, i) + advance_of(s[i]));
    }
    lemma_layout_upto_entries(s, base, s.len() as int);
}

/// Lays the text out: resolves each character in order, accumulates its
/// advance into the pen position starting at `base`, and emits one
/// placement per non-space character. Pure and total on every text within
/// the length bound.
pub fn layout(text: &str, base: i64) -> (r: Vec<GlyphPlacement>)
    requires
        text@.len() <= MAX_TEXT_LEN,
        -1000000000000 <= base <= 1000000000000,
    ensures
        matches_layout(r@, text@, base as int),
{
    let ghost s = text@;
    let n = text.unicode_len();
    let mut out: Vec<GlyphPlacement> = Vec::new();
    let mut pos: i64 = base;
    let mut i: usize = 0;
    while i < n
        invariant
            s == text@,
            n == s.len(),
            i <= n,
            n <= MAX_TEXT_LEN,
            -1000000000000 <= base <= 1000000000000,
            pos == offset_at(s, base as int, i as int),
            base <= pos <= base + i * MAX_ADVANCE,
            out@.len() == layout_upto(s, base as int, i as int).len(),
            forall|k: int|
                0 <= k < out@.len() ==> (#[trigger] out@[k]).asset == layout_upto(
                    s,
                    base as int,
                    i as int,
                )[k].0 && out@[k].offset == layout_upto(s, base as int, i as int)[k].1,
        decreases n - i,
    {
        let c = text.get_char(i);
        let (asset, adv) = resolve(c);
        proof {
            lemma_advance_bounds(c);
        }
        if c != ' ' {
            out.push(GlyphPlacement { asset, offset: pos });
        }
        pos = pos + adv;
        i = i + 1;
    }
    out
}

} // verus!

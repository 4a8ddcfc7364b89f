use crate::catalog::GlyphAsset;
use crate::config::{MarqueeConfig, MAX_TEXT_LEN};
use crate::layout::{layout, layout_spec, lemma_layout_upto_entries, GlyphPlacement};
use crate::text_entry::EnteredText;
use vstd::arithmetic::mul::lemma_mul_is_distributive_add;
use vstd::prelude::*;

verus! {

/// Longest tick the stage accepts, in milliseconds.
pub const MAX_TICK_MS: u64 = 1000000;

/// One spawned glyph: a stable arena key, the asset it shows, and its
/// world x before the stage translation is applied, in micro-units.
#[derive(Clone, Copy, Debug, PartialEq, Eq, Structural)]
pub struct GlyphInstance {
    pub id: u64,
    pub asset: GlyphAsset,
    pub x: i64,
}

/// The stage translation below which a batch of `len` characters is
/// exhausted and recycles: longer texts scroll further before recycling.
pub open spec fn recycle_threshold(cfg: MarqueeConfig, len: int) -> int {
    -(cfg.base_offset + cfg.recycle_base + cfg.recycle_per_char * len)
}

/// `batch` holds exactly one glyph instance per placement of text `s` laid
/// out at `base`, in order.
pub open spec fn batch_matches(batch: Seq<GlyphInstance>, s: Seq<char>, base: int) -> bool {
    &&& batch.len() == layout_spec(s, base).len()
    &&& forall|i: int|
        0 <= i < batch.len() ==> (#[trigger] batch[i]).asset == layout_spec(s, base)[i].0
            && batch[i].x == layout_spec(s, base)[i].1
}

/// The glyph stage: the one live batch of glyph instances for the most
/// recently committed text, and the shared transform that scrolls them.
pub struct Stage {
    /// The committed text the current batch displays.
    pub entered: EnteredText,
    /// The live batch. The stage owns its instances exclusively: a batch is
    /// spawned whole and despawned whole, and no two batches are ever live
    /// at once.
    pub batch: Vec<GlyphInstance>,
    /// The shared leftward translation of the whole batch, micro-units.
    pub translation: i64,
    /// The next unused arena key; keys of despawned batches are never
    /// reused.
    pub next_id: u64,
}

impl Stage {
    /// Well-formedness: the batch is exactly the layout of the committed
    /// text, arena keys are strictly increasing and all allocated, and the
    /// translation stays in the range the tick arithmetic needs.
    pub open spec fn wf(self, cfg: MarqueeConfig) -> bool {
        &&& self.entered.text@.len() <= MAX_TEXT_LEN
        &&& batch_matches(self.batch@, self.entered.text@, cfg.base_offset as int)
        &&& forall|i: int, j: int|
            0 <= i < j < self.batch@.len() ==> (#[trigger] self.batch@[i]).id < (
            #[trigger] self.batch@[j]).id
        &&& forall|i: int| 0 <= i < self.batch@.len() ==> (#[trigger] self.batch@[i]).id < self.next_id
        &&& -4000000000000 <= self.translation <= 0
    }

    /// World x of glyph `i` of the batch: its laid-out position plus the
    /// shared stage translation.
    pub open spec fn glyph_world_x(self, i: int) -> int {
        self.batch@[i].x + self.translation
    }

    /// An empty stage displaying the empty text.
    pub fn new(cfg: &MarqueeConfig) -> (r: Stage)
        requires
            cfg.wf(),
        ensures
            r.wf(*cfg),
            r.entered.text@.len() == 0,
            r.batch@.len() == 0,
            r.translation == 0,
    {
        Stage {
            entered: EnteredText { text: String::new() },
            batch: Vec::new(),
            translation: 0,
            next_id: 0,
        }
    }

    /// Replaces the whole batch: despawns every current instance, lays the
    /// new text out, and spawns one fresh instance per placement at the
    /// base offset, with the stage translation reset. The old batch's keys
    /// are retired, never reused.
    pub fn replace(&mut self, cfg: &MarqueeConfig, text: String)
        requires
            cfg.wf(),
            text@.len() <= MAX_TEXT_LEN,
            old(self).next_id + text@.len() <= u64::MAX,
        ensures
            final(self).wf(*cfg),
            final(self).entered.text@ == text@,
            batch_matches(final(self).batch@, text@, cfg.base_offset as int),
            final(self).translation == 0,
            final(self).batch@.len() <= text@.len(),
            final(self).next_id == old(self).next_id + final(self).batch@.len(),
            forall|i: int|
                0 <= i < final(self).batch@.len() ==> (#[trigger] final(self).batch@[i]).id == old(
                    self,
                ).next_id + i,
    {
        let ghost s = text@;
        proof {
            lemma_layout_upto_entries(s, cfg.base_offset as int, s.len() as int);
        }
        let ps: Vec<GlyphPlacement> = layout(text.as_str(), cfg.base_offset);
        let mut batch: Vec<GlyphInstance> = Vec::new();
        let mut k: usize = 0;
        while k < ps.len()
            invariant
                k <= ps@.len(),
                ps@.len() <= s.len() <= MAX_TEXT_LEN,
                self.next_id + ps@.len() <= u64::MAX,
                batch@.len() == k,
                forall|i: int|
                    0 <= i < k ==> #[trigger] batch@[i] == (GlyphInstance {
                        id: (self.next_id + i) as u64,
                        asset: ps@[i].asset,
                        x: ps@[i].offset,
                    }),
            decreases ps@.len() - k,
        {
            batch.push(
                GlyphInstance { id: self.next_id + k as u64, asset: ps[k].asset, x: ps[k].offset },
            );
            k = k + 1;
        }
        self.next_id = self.next_id + batch.len() as u64;
        self.batch = batch;
        self.translation = 0;
        self.entered = EnteredText { text };
    }

    /// One animation tick of `dt_ms` milliseconds. A stage already past its
    /// recycle threshold is exhausted: the batch is replaced with a fresh
    /// layout of the same committed text and the translation resets, which
    /// loops the display. Otherwise the whole batch slides left by exactly
    /// `scroll_speed * dt_ms`.
    pub fn tick(&mut self, cfg: &MarqueeConfig, dt_ms: u64) -> (recycled: bool)
        requires
            cfg.wf(),
            old(self).wf(*cfg),
            dt_ms <= MAX_TICK_MS,
            old(self).next_id + old(self).entered.text@.len() <= u64::MAX,
        ensures
            final(self).wf(*cfg),
            final(self).entered.text@ == old(self).entered.text@,
            recycled == (old(self).translation < recycle_threshold(
                *cfg,
                old(self).entered.text@.len() as int,
            )),
            recycled ==> final(self).translation == 0 && batch_matches(
                final(self).batch@,
                old(self).entered.text@,
                cfg.base_offset as int,
            ) && forall|i: int|
                0 <= i < final(self).batch@.len() ==> (#[trigger] final(self).batch@[i]).id == old(
                    self,
                ).next_id + i,
            !recycled ==> final(self).translation == old(self).translation - cfg.scroll_speed
                * dt_ms && final(self).batch@ == old(self).batch@ && final(self).next_id == old(
                self,
            ).next_id,
    {
        let len = self.entered.text.unicode_len();
        proof {
            assert(0 <= cfg.recycle_per_char * (len as int) <= 100000000000) by (nonlinear_arith)
                requires
                    0 <= cfg.recycle_per_char <= 1000000,
                    0 <= len <= 100000,
            ;
        }
        let threshold: i64 = -(cfg.base_offset + cfg.recycle_base + cfg.recycle_per_char * (
        len as i64));
        if self.translation < threshold {
            let text = self.entered.text.clone();
            self.replace(cfg, text);
            true
        } else {
            proof {
                assert(0 <= cfg.scroll_speed * (dt_ms as int) <= 1000000000000) by (nonlinear_arith)
                    requires
                        0 <= cfg.scroll_speed <= 1000000,
                        0 <= dt_ms <= 1000000,
                ;
            }
            self.translation = self.translation - cfg.scroll_speed * (dt_ms as i64);
            false
        }
    }
}

/// The total elapsed time of a run of ticks, milliseconds.
pub open spec fn total_ms(dts: Seq<int>) -> int
    decreases dts.len(),
{
    if dts.len() == 0 {
        0
    } else {
        total_ms(dts.drop_last()) + dts.last()
    }
}

/// The translation a fresh stage reaches after a run of ticks none of
/// which recycled: each tick slides the stage left by `speed * dt`, as
/// [`Stage::tick`] ensures.
pub open spec fn scrolled(cfg: MarqueeConfig, dts: Seq<int>) -> int
    decreases dts.len(),
{
    if dts.len() == 0 {
        0
    } else {
        scrolled(cfg, dts.drop_last()) - cfg.scroll_speed * dts.last()
    }
}

/// Scrolling accumulates exactly: however the elapsed time is split into
/// ticks, a fresh stage ticked through the whole run stands at
/// `-(speed * total elapsed)` — no step ever rounds.
pub proof fn lemma_scrolled_total(cfg: MarqueeConfig, dts: Seq<int>)
    ensures
        scrolled(cfg, dts) == -(cfg.scroll_speed * total_ms(dts)),
    decreases dts.len(),
{
    if dts.len() == 0 {
        assert(cfg.scroll_speed * 0 == 0) by (nonlinear_arith);
    } else {
        lemma_scrolled_total(cfg, dts.drop_last());
        lemma_mul_is_distributive_add(
            cfg.scroll_speed as int,
            total_ms(dts.drop_last()),
            dts.last(),
        );
    }
}

/// Recycle timing: a stage that has scrolled for a total elapsed time
/// `elapsed` (so its translation is `-(speed * elapsed)`) is past the
/// recycle threshold for a text of `len` characters exactly when
/// `speed * elapsed` exceeds `base_offset + recycle_base +
/// recycle_per_char * len` — that is, after elapsed time
/// `(base_offset + margin(len)) / speed`.
pub proof fn lemma_recycle_time(cfg: MarqueeConfig, len: int, elapsed: int)
    requires
        cfg.wf(),
        0 <= len,
        0 <= elapsed,
    ensures
        (-(cfg.scroll_speed * elapsed) < recycle_threshold(cfg, len)) <==> (cfg.scroll_speed
            * elapsed > cfg.base_offset + cfg.recycle_base + cfg.recycle_per_char * len),
{
}

} // verus!

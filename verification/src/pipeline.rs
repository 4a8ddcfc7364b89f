use crate::config::{MarqueeConfig, MAX_TEXT_LEN};
use crate::grid::LedGrid;
use crate::scan::{
    scan_flags_spec, scan_rects, scan_spec, scan_with_hits, stage_rects, stage_rects_spec,
    HitIndices,
};
use crate::stage::{batch_matches, recycle_threshold, Stage, MAX_TICK_MS};
use crate::text_entry::{NewTextEntry, TextInbox};
use vstd::prelude::*;

verus! {

/// The whole marquee: the glyph stage, the single-slot text inbox, and
/// the LED grid, driven once per frame in a fixed order — consume the
/// inbox, tick the stage, scan the post-tick geometry, sync the grid.
/// Nothing here runs concurrently: each frame's scan observes exactly the
/// geometry the same frame's tick produced.
pub struct Marquee {
    pub cfg: MarqueeConfig,
    pub inbox: TextInbox,
    pub stage: Stage,
    pub grid: LedGrid,
}

impl Marquee {
    /// Well-formedness of the whole pipeline.
    pub open spec fn wf(self) -> bool {
        &&& self.cfg.wf()
        &&& self.stage.wf(self.cfg)
        &&& self.grid.wf(self.cfg)
        &&& match self.inbox.slot {
            Some(e) => e.0@.len() <= MAX_TEXT_LEN,
            None => true,
        }
    }

    /// A fresh marquee: empty text, empty batch, all lights hidden.
    pub fn new(cfg: MarqueeConfig) -> (r: Marquee)
        requires
            cfg.wf(),
        ensures
            r.wf(),
            r.cfg == cfg,
            r.inbox.slot is None,
            r.stage.entered.text@.len() == 0,
            r.stage.batch@.len() == 0,
            forall|i: int| 0 <= i < r.grid.cells@.len() ==> !(#[trigger] r.grid.cells@[i]).visible,
    {
        Marquee {
            cfg,
            inbox: TextInbox::new(),
            stage: Stage::new(&cfg),
            grid: LedGrid::new(&cfg),
        }
    }

    /// Accepts a committed text from the input collaborator: the entry
    /// waits in the inbox until the next frame begins. A newer entry
    /// supersedes one still waiting.
    pub fn commit_text(&mut self, text: String)
        requires
            old(self).wf(),
            text@.len() <= MAX_TEXT_LEN,
        ensures
            final(self).wf(),
            (final(self).inbox.slot matches Some(e) && e.0@ == text@),
            final(self).cfg == old(self).cfg,
            final(self).stage == old(self).stage,
            final(self).grid == old(self).grid,
    {
        self.inbox.post(NewTextEntry(text));
    }

    /// Phase one of a frame: consume at most one waiting text commitment
    /// (replacing the batch), then advance the stage by one tick, which
    /// recycles an exhausted batch. After this call the batch and
    /// translation are the frame's final geometry, which the scan must
    /// observe.
    pub fn begin_frame(&mut self, dt_ms: u64) -> (recycled: bool)
        requires
            old(self).wf(),
            dt_ms <= MAX_TICK_MS,
            old(self).stage.next_id + 2 * MAX_TEXT_LEN <= u64::MAX,
        ensures
            final(self).wf(),
            final(self).cfg == old(self).cfg,
            final(self).grid == old(self).grid,
            final(self).inbox.slot is None,
            batch_matches(
                final(self).stage.batch@,
                final(self).stage.entered.text@,
                old(self).cfg.base_offset as int,
            ),
            old(self).inbox.slot matches Some(e) ==> final(self).stage.entered.text@ == e.0@
                && recycled == (0 < recycle_threshold(old(self).cfg, e.0@.len() as int)) && (
            !recycled ==> final(self).stage.translation == 0 - old(self).cfg.scroll_speed * dt_ms),
            old(self).inbox.slot is None ==> final(self).stage.entered.text@ == old(self).stage.entered.text@ && recycled == (old(self).stage.translation < recycle_threshold(
                old(self).cfg,
                old(self).stage.entered.text@.len() as int,
            )) && (!recycled ==> final(self).stage.translation == old(self).stage.translation - old(self).cfg.scroll_speed * dt_ms && final(self).stage.batch@ == old(self).stage.batch@),
            recycled ==> final(self).stage.translation == 0,
    {
        let cfg = self.cfg;
        let msg = self.inbox.take();
        match msg {
            Some(e) => {
                self.stage.replace(&cfg, e.0);
            },
            None => {},
        }
        self.stage.tick(&cfg, dt_ms)
    }

    /// The scan engine's pass over the synthetic in-memory geometry of the
    /// current batch: one ray per grid cell against one rectangle per live
    /// glyph.
    pub fn scan_synthetic(&self) -> (r: HitIndices)
        requires
            self.wf(),
        ensures
            r.hits@ == scan_spec(self.cfg, stage_rects_spec(self.cfg, self.stage)),
            r.wf(self.cfg),
    {
        let rects = stage_rects(&self.cfg, &self.stage);
        scan_rects(&self.cfg, &rects)
    }

    /// Phase two of a frame, with a lit set in hand: visibility sync. One
    /// total overwrite of every light: visible exactly when the light's
    /// address is lit, hidden otherwise.
    pub fn apply_lit(&mut self, lit: &HitIndices)
        requires
            old(self).wf(),
        ensures
            final(self).wf(),
            final(self).cfg == old(self).cfg,
            final(self).stage == old(self).stage,
            final(self).inbox == old(self).inbox,
            final(self).grid.cells@.len() == old(self).grid.cells@.len(),
            forall|i: int|
                0 <= i < final(self).grid.cells@.len() ==> (#[trigger] final(self).grid.cells@[i]).col == old(self).grid.cells@[i].col && final(self).grid.cells@[i].row == old(self).grid.cells@[i].row && final(self).grid.cells@[i].visible == lit.hits@.contains(
                    (old(self).grid.cells@[i].col, old(self).grid.cells@[i].row),
                ),
    {
        let cfg = self.cfg;
        self.grid.sync_visibility(&cfg, lit);
    }

    /// Phase two of a frame against a collision backend's answers:
    /// `hit_flags[col * rows + row]` says whether the backend's ray for
    /// that cell struck stage geometry. The lit set is rebuilt from the
    /// answers and applied to every light; whatever the backend answered,
    /// each light shows exactly its cell's answer.
    pub fn finish_frame_with_hits(&mut self, hit_flags: &Vec<bool>)
        requires
            old(self).wf(),
            hit_flags@.len() == old(self).cfg.grid_cols * old(self).cfg.grid_rows,
        ensures
            final(self).wf(),
            final(self).cfg == old(self).cfg,
            final(self).stage == old(self).stage,
            final(self).inbox == old(self).inbox,
            final(self).grid.cells@.len() == old(self).grid.cells@.len(),
            forall|i: int|
                0 <= i < final(self).grid.cells@.len() ==> (#[trigger] final(self).grid.cells@[i]).col == old(self).grid.cells@[i].col && final(self).grid.cells@[i].row == old(self).grid.cells@[i].row && final(self).grid.cells@[i].visible == scan_flags_spec(old(self).cfg, hit_flags@).contains(
                    (old(self).grid.cells@[i].col, old(self).grid.cells@[i].row),
                ),
    {
        let lit = scan_with_hits(&self.cfg, hit_flags);
        self.apply_lit(&lit);
    }

    /// One whole frame against the synthetic geometry: consume the inbox,
    /// tick the stage, scan the post-tick geometry, sync every light. The
    /// grid afterwards shows exactly the scan of the geometry this same
    /// frame produced — never a stale batch.
    pub fn frame_synthetic(&mut self, dt_ms: u64) -> (recycled: bool)
        requires
            old(self).wf(),
            dt_ms <= MAX_TICK_MS,
            old(self).stage.next_id + 2 * MAX_TEXT_LEN <= u64::MAX,
        ensures
            final(self).wf(),
            final(self).cfg == old(self).cfg,
            final(self).inbox.slot is None,
            batch_matches(
                final(self).stage.batch@,
                final(self).stage.entered.text@,
                old(self).cfg.base_offset as int,
            ),
            final(self).grid.cells@.len() == old(self).grid.cells@.len(),
            forall|i: int|
                0 <= i < final(self).grid.cells@.len() ==> (#[trigger] final(self).grid.cells@[i]).col == old(self).grid.cells@[i].col && final(self).grid.cells@[i].row == old(self).grid.cells@[i].row && final(self).grid.cells@[i].visible == scan_spec(
                    old(self).cfg,
                    stage_rects_spec(old(self).cfg, final(self).stage),
                ).contains((old(self).grid.cells@[i].col, old(self).grid.cells@[i].row)),
    {
        let recycled = self.begin_frame(dt_ms);
        let lit = self.scan_synthetic();
        self.apply_lit(&lit);
        recycled
    }
}

} // verus!

use crate::config::MarqueeConfig;
use crate::layout::{layout_spec, lemma_layout_upto_entries, lemma_offset_at_bounds};
use crate::stage::Stage;
use vstd::prelude::*;

verus! {

/// The lit set: the grid addresses whose scan ray currently strikes glyph
/// geometry. Rebuilt from scratch every tick, never updated in place, so a
/// stale entry can never outlive the geometry that produced it.
pub struct HitIndices {
    pub hits: Vec<(u32, u32)>,
}

/// An axis-aligned solid rectangle in the scan plane: the synthetic
/// geometry model a glyph presents to the scan.
#[derive(Clone, Copy, Debug, PartialEq, Eq, Structural)]
pub struct GlyphRect {
    pub x0: i64,
    pub x1: i64,
    pub y0: i64,
    pub y1: i64,
}

/// Whether the ray of cell (col, row) strikes rectangle `r`. Rays travel
/// along the depth axis, so the ray strikes exactly when the cell's world
/// (x, y) lies within the rectangle.
pub open spec fn rect_covers(cfg: MarqueeConfig, r: GlyphRect, col: int, row: int) -> bool {
    r.x0 <= cfg.cell_x(col) <= r.x1 && r.y0 <= cfg.cell_y(row) <= r.y1
}

/// Whether the ray of cell (col, row) strikes any of the rectangles.
pub open spec fn cell_hit(cfg: MarqueeConfig, rects: Seq<GlyphRect>, col: int, row: int) -> bool {
    exists|k: int| 0 <= k < rects.len() && rect_covers(cfg, #[trigger] rects[k], col, row)
}

/// The per-cell oracle of the synthetic rectangle geometry.
pub open spec fn rect_oracle(cfg: MarqueeConfig, rects: Seq<GlyphRect>) -> spec_fn(int, int) -> bool {
    |c: int, rw: int| cell_hit(cfg, rects, c, rw)
}

/// The per-cell oracle of a flattened answer table: `flags[col * rows + row]`
/// answers the cell at (col, row).
pub open spec fn flags_oracle(cfg: MarqueeConfig, flags: Seq<bool>) -> spec_fn(int, int) -> bool {
    |c: int, rw: int| flags[c * cfg.grid_rows + rw]
}

/// The lit addresses of one column among rows [0, row_n), in row order,
/// for an arbitrary per-cell oracle `lit`.
pub open spec fn scan_col_upto(lit: spec_fn(int, int) -> bool, col: u32, row_n: int) -> Seq<
    (u32, u32),
>
    decreases row_n,
{
    if row_n <= 0 {
        Seq::empty()
    } else {
        let prior = scan_col_upto(lit, col, row_n - 1);
        if lit(col as int, row_n - 1) {
            prior.push((col, (row_n - 1) as u32))
        } else {
            prior
        }
    }
}

/// The lit addresses of columns [0, col_n), column-major: all independent
/// per-cell answers, collected in one fixed order.
pub open spec fn scan_upto(lit: spec_fn(int, int) -> bool, rows: int, col_n: int) -> Seq<(u32, u32)>
    decreases col_n,
{
    if col_n <= 0 {
        Seq::empty()
    } else {
        scan_upto(lit, rows, col_n - 1) + scan_col_upto(lit, (col_n - 1) as u32, rows)
    }
}

/// The full scan of a `cols` x `rows` grid against the oracle `lit`.
pub open spec fn scan_grid(lit: spec_fn(int, int) -> bool, cols: int, rows: int) -> Seq<(u32, u32)> {
    scan_upto(lit, rows, cols)
}

/// The scan of the synthetic rectangle geometry on the configured grid.
pub open spec fn scan_spec(cfg: MarqueeConfig, rects: Seq<GlyphRect>) -> Seq<(u32, u32)> {
    scan_grid(rect_oracle(cfg, rects), cfg.grid_cols as int, cfg.grid_rows as int)
}

/// The scan that collects a collision backend's flattened per-cell answers
/// on the configured grid.
pub open spec fn scan_flags_spec(cfg: MarqueeConfig, flags: Seq<bool>) -> Seq<(u32, u32)> {
    scan_grid(flags_oracle(cfg, flags), cfg.grid_cols as int, cfg.grid_rows as int)
}

/// One column's scan contains exactly the lit cells of that column below
/// `row_n`, each once, in strictly increasing row order.
pub proof fn lemma_scan_col_upto_props(lit: spec_fn(int, int) -> bool, col: u32, row_n: int)
    requires
        0 <= row_n <= u32::MAX,
    ensures
        forall|p: (u32, u32)|
            #[trigger] scan_col_upto(lit, col, row_n).contains(p) <==> (p.0 == col && (p.1 as int)
                < row_n && lit(col as int, p.1 as int)),
        forall|i: int|
            0 <= i < scan_col_upto(lit, col, row_n).len() ==> (#[trigger] scan_col_upto(
                lit,
                col,
                row_n,
            )[i]).0 == col && (scan_col_upto(lit, col, row_n)[i].1 as int) < row_n,
        forall|i: int, j: int|
            0 <= i < j < scan_col_upto(lit, col, row_n).len() ==> (#[trigger] scan_col_upto(
                lit,
                col,
                row_n,
            )[i]).1 < (#[trigger] scan_col_upto(lit, col, row_n)[j]).1,
    decreases row_n,
{
    broadcast use vstd::seq_lib::group_seq_properties;
    broadcast use vstd::prelude::Seq::lemma_index_contains;

    if row_n > 0 {
        lemma_scan_col_upto_props(lit, col, row_n - 1);
        let s = scan_col_upto(lit, col, row_n);
        let prior = scan_col_upto(lit, col, row_n - 1);
        let e = (col, (row_n - 1) as u32);
        assert forall|p: (u32, u32)| #[trigger] s.contains(p) implies (p.0 == col && (p.1 as int)
            < row_n && lit(col as int, p.1 as int)) by {
            if lit(col as int, row_n - 1) {
                assert(s == prior.push(e));
                assert(prior.push(e).contains(p));
                if p != e {
                    assert(prior.contains(p));
                }
            } else {
                assert(s == prior);
                assert(prior.contains(p));
            }
        }
        assert forall|p: (u32, u32)| (p.0 == col && (p.1 as int) < row_n && lit(
            col as int,
            p.1 as int,
        )) implies #[trigger] s.contains(p) by {
            if (p.1 as int) < row_n - 1 {
                assert(prior.contains(p));
                if lit(col as int, row_n - 1) {
                    assert(prior.push(e).contains(p));
                }
            } else {
                assert(p.1 as int == row_n - 1);
                assert(p == e);
                assert(lit(col as int, row_n - 1));
                assert(s == prior.push(e));
                assert(prior.push(e).contains(e));
            }
        }
        assert forall|i: int| 0 <= i < s.len() implies (#[trigger] s[i]).0 == col && (
        s[i].1 as int) < row_n by {
            if lit(col as int, row_n - 1) {
                assert(s == prior.push(e));
                if i < prior.len() {
                    assert(s[i] == prior[i]);
                } else {
                    assert(s[i] == e);
                }
            } else {
                assert(s == prior);
            }
        }
        assert forall|i: int, j: int| 0 <= i < j < s.len() implies (#[trigger] s[i]).1 < (
        #[trigger] s[j]).1 by {
            if lit(col as int, row_n - 1) {
                assert(s == prior.push(e));
                if j < prior.len() {
                    assert(s[i] == prior[i] && s[j] == prior[j]);
                } else {
                    assert(s[j] == e);
                    assert(s[i] == prior[i]);
                    assert(prior.contains(prior[i]));
                    assert((prior[i].1 as int) < row_n - 1);
                }
            } else {
                assert(s == prior);
            }
        }
    }
}

/// The scan of the first `col_n` columns contains exactly the lit cells of
/// those columns, each once, in strictly increasing column-major order.
pub proof fn lemma_scan_upto_props(lit: spec_fn(int, int) -> bool, rows: int, col_n: int)
    requires
        0 <= rows <= u32::MAX,
        0 <= col_n <= u32::MAX,
    ensures
        forall|p: (u32, u32)|
            #[trigger] scan_upto(lit, rows, col_n).contains(p) <==> ((p.0 as int) < col_n && (
            p.1 as int) < rows && lit(p.0 as int, p.1 as int)),
        forall|i: int|
            0 <= i < scan_upto(lit, rows, col_n).len() ==> ((#[trigger] scan_upto(
                lit,
                rows,
                col_n,
            )[i]).0 as int) < col_n && (scan_upto(lit, rows, col_n)[i].1 as int) < rows,
        forall|i: int, j: int|
            0 <= i < j < scan_upto(lit, rows, col_n).len() ==> ((#[trigger] scan_upto(
                lit,
                rows,
                col_n,
            )[i]).0 < (#[trigger] scan_upto(lit, rows, col_n)[j]).0 || (scan_upto(
                lit,
                rows,
                col_n,
            )[i].0 == scan_upto(lit, rows, col_n)[j].0 && scan_upto(lit, rows, col_n)[i].1
                < scan_upto(lit, rows, col_n)[j].1)),
    decreases col_n,
{
    broadcast use vstd::seq_lib::group_seq_properties;
    broadcast use vstd::prelude::Seq::lemma_index_contains;

    if col_n > 0 {
        lemma_scan_upto_props(lit, rows, col_n - 1);
        lemma_scan_col_upto_props(lit, (col_n - 1) as u32, rows);
        let a = scan_upto(lit, rows, col_n - 1);
        let b = scan_col_upto(lit, (col_n - 1) as u32, rows);
        assert forall|i: int| 0 <= i < (a + b).len() implies ((#[trigger] (a + b)[i]).0 as int)
            < col_n && ((a + b)[i].1 as int) < rows by {
            if i < a.len() {
                assert((a + b)[i] == a[i]);
            } else {
                assert((a + b)[i] == b[i - a.len()]);
            }
        }
    }
}

impl HitIndices {
    /// An empty lit set.
    pub fn new() -> (r: HitIndices)
        ensures
            r.hits@.len() == 0,
    {
        HitIndices { hits: Vec::new() }
    }

    /// Every address lies on the grid: the lit set is always a subset of
    /// the full address space.
    pub open spec fn wf(self, cfg: MarqueeConfig) -> bool {
        forall|i: int|
            0 <= i < self.hits@.len() ==> (#[trigger] self.hits@[i]).0 < cfg.grid_cols
                && self.hits@[i].1 < cfg.grid_rows
    }

    /// Membership query: is the cell at (col, row) lit?
    pub fn contains(&self, col: u32, row: u32) -> (r: bool)
        ensures
            r == self.hits@.contains((col, row)),
    {
        let n = self.hits.len();
        let mut k: usize = 0;
        let mut found = false;
        while k < n
            invariant
                n == self.hits@.len(),
                k <= n,
                found == exists|j: int| 0 <= j < k && #[trigger] self.hits@[j] == (col, row),
            decreases n - k,
        {
            let p = self.hits[k];
            if p.0 == col && p.1 == row {
                found = true;
            }
            k = k + 1;
        }
        proof {
            broadcast use vstd::seq_lib::group_seq_properties;

        }
        found
    }
}

/// The world-space origin of the scan ray of cell (col, row): the cell's
/// fixed position on the scan plane. Every ray points along the positive
/// depth axis, toward the glyph plane.
pub fn ray_origin(cfg: &MarqueeConfig, col: u32, row: u32) -> (r: (i64, i64, i64))
    requires
        cfg.wf(),
        col < cfg.grid_cols,
        row < cfg.grid_rows,
    ensures
        r.0 == cfg.cell_x(col as int),
        r.1 == cfg.cell_y(row as int),
        r.2 == cfg.cell_z,
{
    proof {
        assert(0 <= (col as int) * cfg.cell_dx <= 4096000000) by (nonlinear_arith)
            requires
                0 <= col < 4096,
                1 <= cfg.cell_dx <= 1000000,
        ;
        assert(0 <= (row as int) * cfg.cell_dy <= 4096000000) by (nonlinear_arith)
            requires
                0 <= row < 4096,
                1 <= cfg.cell_dy <= 1000000,
        ;
    }
    (cfg.cell_x0 + (col as i64) * cfg.cell_dx, cfg.cell_y0 - (row as i64) * cfg.cell_dy, cfg.cell_z)
}

/// Whether the ray of cell (col, row) strikes any of the given rectangles.
fn hit_cell(cfg: &MarqueeConfig, rects: &Vec<GlyphRect>, col: u32, row: u32) -> (r: bool)
    requires
        cfg.wf(),
        col < cfg.grid_cols,
        row < cfg.grid_rows,
    ensures
        r == cell_hit(*cfg, rects@, col as int, row as int),
{
    let (x, y, _z) = ray_origin(cfg, col, row);
    let n = rects.len();
    let mut k: usize = 0;
    let mut found = false;
    while k < n
        invariant
            n == rects@.len(),
            k <= n,
            x == cfg.cell_x(col as int),
            y == cfg.cell_y(row as int),
            found == exists|j: int|
                0 <= j < k && rect_covers(*cfg, #[trigger] rects@[j], col as int, row as int),
        decreases n - k,
    {
        let rc = rects[k];
        if rc.x0 <= x && x <= rc.x1 && rc.y0 <= y && y <= rc.y1 {
            found = true;
        }
        k = k + 1;
    }
    found
}

/// The scan engine over the synthetic rectangle geometry: fires one ray
/// per grid cell, in a fixed column-major order, and collects the set of
/// addresses whose ray strikes some rectangle. All rays are independent;
/// the result is rebuilt whole on every call.
pub fn scan_rects(cfg: &MarqueeConfig, rects: &Vec<GlyphRect>) -> (r: HitIndices)
    requires
        cfg.wf(),
    ensures
        r.hits@ == scan_spec(*cfg, rects@),
        r.wf(*cfg),
{
    let mut hits: Vec<(u32, u32)> = Vec::new();
    let mut col: u32 = 0;
    while col < cfg.grid_cols
        invariant
            cfg.wf(),
            col <= cfg.grid_cols,
            hits@ == scan_upto(rect_oracle(*cfg, rects@), cfg.grid_rows as int, col as int),
        decreases cfg.grid_cols - col,
    {
        let mut row: u32 = 0;
        while row < cfg.grid_rows
            invariant
                cfg.wf(),
                col < cfg.grid_cols,
                row <= cfg.grid_rows,
                hits@ == scan_upto(rect_oracle(*cfg, rects@), cfg.grid_rows as int, col as int)
                    + scan_col_upto(rect_oracle(*cfg, rects@), col, row as int),
            decreases cfg.grid_rows - row,
        {
            if hit_cell(cfg, rects, col, row) {
                hits.push((col, row));
            }
            row = row + 1;
        }
        col = col + 1;
    }
    proof {
        lemma_scan_upto_props(
            rect_oracle(*cfg, rects@),
            cfg.grid_rows as int,
            cfg.grid_cols as int,
        );
    }
    HitIndices { hits }
}

/// The scan that collects a collision backend's per-cell answers,
/// flattened column-major: `hit_flags[col * rows + row]` answers the cell
/// at (col, row). The backend casts the real rays and fills the flags;
/// this pass only collects them, so everything it states holds whatever
/// the backend answered.
pub fn scan_with_hits(cfg: &MarqueeConfig, hit_flags: &Vec<bool>) -> (r: HitIndices)
    requires
        cfg.wf(),
        hit_flags@.len() == cfg.grid_cols * cfg.grid_rows,
    ensures
        r.hits@ == scan_flags_spec(*cfg, hit_flags@),
        r.wf(*cfg),
{
    let rows = cfg.grid_rows;
    let mut hits: Vec<(u32, u32)> = Vec::new();
    let mut col: u32 = 0;
    while col < cfg.grid_cols
        invariant
            cfg.wf(),
            rows == cfg.grid_rows,
            hit_flags@.len() == cfg.grid_cols * cfg.grid_rows,
            col <= cfg.grid_cols,
            hits@ == scan_upto(flags_oracle(*cfg, hit_flags@), cfg.grid_rows as int, col as int),
        decreases cfg.grid_cols - col,
    {
        let mut row: u32 = 0;
        while row < cfg.grid_rows
            invariant
                cfg.wf(),
                rows == cfg.grid_rows,
                hit_flags@.len() == cfg.grid_cols * cfg.grid_rows,
                col < cfg.grid_cols,
                row <= cfg.grid_rows,
                hits@ == scan_upto(flags_oracle(*cfg, hit_flags@), cfg.grid_rows as int, col as int)
                    + scan_col_upto(flags_oracle(*cfg, hit_flags@), col, row as int),
            decreases cfg.grid_rows - row,
        {
            proof {
                assert((col as int) * (rows as int) + (row as int) < (cfg.grid_cols as int) * (
                cfg.grid_rows as int)) by (nonlinear_arith)
                    requires
                        0 <= col < cfg.grid_cols,
                        0 <= row < rows,
                        rows == cfg.grid_rows,
                ;
                assert(0 <= (col as int) * (rows as int) + (row as int) <= 16777216) by (
                nonlinear_arith)
                    requires
                        0 <= col < 4096,
                        0 <= row < rows,
                        0 <= rows <= 4096,
                ;
            }
            let idx: usize = (col as usize) * (rows as usize) + (row as usize);
            if hit_flags[idx] {
                hits.push((col, row));
            }
            row = row + 1;
        }
        col = col + 1;
    }
    proof {
        lemma_scan_upto_props(
            flags_oracle(*cfg, hit_flags@),
            cfg.grid_rows as int,
            cfg.grid_cols as int,
        );
    }
    HitIndices { hits }
}

/// The synthetic rectangle geometry of the stage's current batch: one
/// solid rectangle per glyph instance, standing at the instance's world x
/// after the shared stage translation, with the configured glyph extent.
pub open spec fn stage_rects_spec(cfg: MarqueeConfig, stage: Stage) -> Seq<GlyphRect> {
    Seq::new(
        stage.batch@.len(),
        |i: int|
            GlyphRect {
                x0: (stage.batch@[i].x + stage.translation) as i64,
                x1: (stage.batch@[i].x + stage.translation + cfg.glyph_width) as i64,
                y0: cfg.glyph_bottom,
                y1: cfg.glyph_top,
            },
    )
}

/// Builds the synthetic geometry of the stage's current batch, one
/// rectangle per live glyph instance.
pub fn stage_rects(cfg: &MarqueeConfig, stage: &Stage) -> (r: Vec<GlyphRect>)
    requires
        cfg.wf(),
        stage.wf(*cfg),
    ensures
        r@ == stage_rects_spec(*cfg, *stage),
{
    let ghost s = stage.entered.text@;
    let ghost base = cfg.base_offset as int;
    proof {
        lemma_layout_upto_entries(s, base, s.len() as int);
        lemma_offset_at_bounds(s, base, s.len() as int);
        assert forall|k: int| 0 <= k < stage.batch@.len() implies -1000000000000 <= (
        #[trigger] stage.batch@[k]).x <= 1200000000000 by {
            assert(stage.batch@[k].x == layout_spec(s, base)[k].1);
        }
    }
    let mut rects: Vec<GlyphRect> = Vec::new();
    let n = stage.batch.len();
    let mut i: usize = 0;
    while i < n
        invariant
            cfg.wf(),
            stage.wf(*cfg),
            n == stage.batch@.len(),
            i <= n,
            rects@.len() == i,
            forall|k: int|
                0 <= k < n ==> -1000000000000 <= (#[trigger] stage.batch@[k]).x <= 1200000000000,
            forall|k: int| 0 <= k < i ==> #[trigger] rects@[k] == stage_rects_spec(*cfg, *stage)[k],
        decreases n - i,
    {
        let inst = stage.batch[i];
        let x0 = inst.x + stage.translation;
        let x1 = x0 + cfg.glyph_width;
        rects.push(GlyphRect { x0, x1, y0: cfg.glyph_bottom, y1: cfg.glyph_top });
        i = i + 1;
    }
    proof {
        assert(rects@ =~= stage_rects_spec(*cfg, *stage));
    }
    rects
}

/// The scan's result is exactly the set of grid addresses with a positive
/// intersection answer: an address is lit if and only if it lies on the
/// grid and its ray strikes some rectangle of the geometry.
pub proof fn lemma_scan_membership(cfg: MarqueeConfig, rects: Seq<GlyphRect>, p: (u32, u32))
    requires
        cfg.wf(),
    ensures
        scan_spec(cfg, rects).contains(p) <==> (p.0 < cfg.grid_cols && p.1 < cfg.grid_rows
            && cell_hit(cfg, rects, p.0 as int, p.1 as int)),
{
    lemma_scan_upto_props(rect_oracle(cfg, rects), cfg.grid_rows as int, cfg.grid_cols as int);
}

/// Lit-set subset law: every address the scan of any geometry emits lies
/// inside the full (column, row) address space of the grid.
pub proof fn lemma_lit_set_subset(cfg: MarqueeConfig, rects: Seq<GlyphRect>)
    requires
        cfg.wf(),
    ensures
        forall|i: int|
            0 <= i < scan_spec(cfg, rects).len() ==> (#[trigger] scan_spec(cfg, rects)[i]).0
                < cfg.grid_cols && scan_spec(cfg, rects)[i].1 < cfg.grid_rows,
{
    lemma_scan_upto_props(rect_oracle(cfg, rects), cfg.grid_rows as int, cfg.grid_cols as int);
}

/// Empty geometry scans empty: with no rectangles, no cell's ray can
/// strike anything, so the lit set is empty.
pub proof fn lemma_empty_geometry_scans_empty(cfg: MarqueeConfig, rects: Seq<GlyphRect>)
    requires
        cfg.wf(),
        rects.len() == 0,
    ensures
        scan_spec(cfg, rects).len() == 0,
{
    broadcast use vstd::prelude::Seq::lemma_index_contains;

    lemma_scan_upto_props(rect_oracle(cfg, rects), cfg.grid_rows as int, cfg.grid_cols as int);
    let sc = scan_spec(cfg, rects);
    if sc.len() > 0 {
        assert(sc.contains(sc[0]));
        assert(cell_hit(cfg, rects, sc[0].0 as int, sc[0].1 as int));
        assert(false);
    }
}

/// An empty glyph batch yields an empty lit set: a stage with no live
/// instances presents no geometry, and its scan lights nothing.
pub proof fn lemma_empty_batch_empty_litset(cfg: MarqueeConfig, stage: Stage)
    requires
        cfg.wf(),
        stage.batch@.len() == 0,
    ensures
        scan_spec(cfg, stage_rects_spec(cfg, stage)).len() == 0,
{
    lemma_empty_geometry_scans_empty(cfg, stage_rects_spec(cfg, stage));
}

/// Idempotent re-scan: the scan is a function of the geometry and the
/// grid alone, so scanning identical, unmoving geometry twice in a row
/// yields identical lit sets.
pub proof fn lemma_rescan_idempotent(
    a: Seq<(u32, u32)>,
    b: Seq<(u32, u32)>,
    cfg: MarqueeConfig,
    rects: Seq<GlyphRect>,
)
    requires
        a == scan_spec(cfg, rects),
        b == scan_spec(cfg, rects),
    ensures
        a == b,
{
}

} // verus!

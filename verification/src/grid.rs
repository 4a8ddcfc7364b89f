use crate::config::MarqueeConfig;
use crate::scan::HitIndices;
use vstd::prelude::*;

verus! {

/// One light of the LED grid: a stable (column, row) identity, a stable
/// arena key standing for its rendering handle, and the one field that
/// ever changes, its visibility flag.
#[derive(Clone, Copy, Debug, PartialEq, Eq, Structural)]
pub struct LightCell {
    pub col: u32,
    pub row: u32,
    pub handle: u64,
    pub visible: bool,
}

/// The LED grid: one light per (column, row) address, created once and
/// never destroyed; only visibility flags mutate afterwards.
pub struct LedGrid {
    pub cells: Vec<LightCell>,
}

impl LedGrid {
    /// Well-formedness: exactly one cell per grid address, stored
    /// column-major, each carrying its own index as its arena key. The
    /// identity fields never change after construction.
    pub open spec fn wf(self, cfg: MarqueeConfig) -> bool {
        &&& self.cells@.len() == cfg.grid_cols * cfg.grid_rows
        &&& forall|i: int|
            0 <= i < self.cells@.len() ==> (#[trigger] self.cells@[i]).col < cfg.grid_cols
                && self.cells@[i].row < cfg.grid_rows && (self.cells@[i].col as int) * (
            cfg.grid_rows as int) + (self.cells@[i].row as int) == i && self.cells@[i].handle == i
    }

    /// Builds the grid: all W x H cells in column-major order, initially
    /// hidden.
    pub fn new(cfg: &MarqueeConfig) -> (r: LedGrid)
        requires
            cfg.wf(),
        ensures
            r.wf(*cfg),
            forall|i: int| 0 <= i < r.cells@.len() ==> !(#[trigger] r.cells@[i]).visible,
    {
        let rows = cfg.grid_rows;
        let mut cells: Vec<LightCell> = Vec::new();
        let mut col: u32 = 0;
        while col < cfg.grid_cols
            invariant
                cfg.wf(),
                rows == cfg.grid_rows,
                col <= cfg.grid_cols,
                cells@.len() == (col as int) * (rows as int),
                forall|i: int|
                    0 <= i < cells@.len() ==> (#[trigger] cells@[i]).col < cfg.grid_cols
                        && cells@[i].row < cfg.grid_rows && (cells@[i].col as int) * (
                    rows as int) + (cells@[i].row as int) == i && cells@[i].handle == i
                        && !cells@[i].visible,
            decreases cfg.grid_cols - col,
        {
            proof {
                assert(0 <= (col as int) * (rows as int) && ((col as int) + 1) * (rows as int) <= (
                cfg.grid_cols as int) * (rows as int) <= 16777216) by (nonlinear_arith)
                    requires
                        0 <= col < cfg.grid_cols <= 4096,
                        1 <= rows <= 4096,
                ;
            }
            let mut row: u32 = 0;
            while row < rows
                invariant
                    cfg.wf(),
                    rows == cfg.grid_rows,
                    col < cfg.grid_cols,
                    row <= rows,
                    ((col as int) + 1) * (rows as int) <= 16777216,
                    cells@.len() == (col as int) * (rows as int) + (row as int),
                    forall|i: int|
                        0 <= i < cells@.len() ==> (#[trigger] cells@[i]).col < cfg.grid_cols
                            && cells@[i].row < cfg.grid_rows && (cells@[i].col as int) * (
                        rows as int) + (cells@[i].row as int) == i && cells@[i].handle == i
                            && !cells@[i].visible,
                decreases rows - row,
            {
                proof {
                    assert((col as int) * (rows as int) + (row as int) + 1 <= ((col as int) + 1) * (
                    rows as int)) by (nonlinear_arith)
                        requires
                            0 <= row < rows,
                    ;
                }
                let handle: u64 = (cells.len()) as u64;
                cells.push(LightCell { col, row, handle, visible: false });
                row = row + 1;
            }
            proof {
                assert((col as int) * (rows as int) + (rows as int) == ((col as int) + 1) * (
                rows as int)) by (nonlinear_arith);
            }
            col = col + 1;
        }
        LedGrid { cells }
    }

    /// Visibility sync: one total overwrite per tick. Every cell is
    /// visited exactly once, in the grid's stable order, and its
    /// visibility is set to exactly the lit set's answer for its address —
    /// cells outside the lit set are explicitly hidden, never skipped, so
    /// no light can stay stuck on from an earlier tick.
    pub fn sync_visibility(&mut self, cfg: &MarqueeConfig, lit: &HitIndices)
        requires
            cfg.wf(),
            old(self).wf(*cfg),
        ensures
            final(self).wf(*cfg),
            final(self).cells@.len() == old(self).cells@.len(),
            forall|i: int|
                0 <= i < final(self).cells@.len() ==> (#[trigger] final(self).cells@[i]).col
                    == old(self).cells@[i].col && final(self).cells@[i].row
                    == old(self).cells@[i].row && final(self).cells@[i].handle
                    == old(self).cells@[i].handle && final(self).cells@[i].visible
                    == lit.hits@.contains((old(self).cells@[i].col, old(self).cells@[i].row)),
    {
        let n = self.cells.len();
        let mut i: usize = 0;
        while i < n
            invariant
                cfg.wf(),
                n == self.cells@.len(),
                n == old(self).cells@.len(),
                i <= n,
                old(self).wf(*cfg),
                forall|k: int|
                    0 <= k < i ==> (#[trigger] self.cells@[k]).col == old(self).cells@[k].col
                        && self.cells@[k].row == old(self).cells@[k].row && self.cells@[k].handle
                        == old(self).cells@[k].handle && self.cells@[k].visible
                        == lit.hits@.contains((old(self).cells@[k].col, old(self).cells@[k].row)),
                forall|k: int| i <= k < n ==> #[trigger] self.cells@[k] == old(self).cells@[k],
            decreases n - i,
        {
            let c = self.cells[i];
            let v = lit.contains(c.col, c.row);
            self.cells.set(i, LightCell { col: c.col, row: c.row, handle: c.handle, visible: v });
            i = i + 1;
        }
    }
}

/// The column-major index of the cell that owns address (col, row).
pub open spec fn cell_index(cfg: MarqueeConfig, col: int, row: int) -> int {
    col * (cfg.grid_rows as int) + row
}

/// Coverage: under well-formedness every grid address owns exactly one
/// cell — none is missing, and no two cells share an address — so the
/// per-cell sync writes exactly one visibility value per address per tick.
pub proof fn lemma_grid_coverage(g: LedGrid, cfg: MarqueeConfig)
    requires
        cfg.wf(),
        g.wf(cfg),
    ensures
        forall|col: u32, row: u32|
            col < cfg.grid_cols && row < cfg.grid_rows ==> 0 <= #[trigger] cell_index(
                cfg,
                col as int,
                row as int,
            ) < g.cells@.len() && g.cells@[cell_index(cfg, col as int, row as int)].col == col
                && g.cells@[cell_index(cfg, col as int, row as int)].row == row,
        forall|i: int, j: int|
            0 <= i < j < g.cells@.len() ==> !((#[trigger] g.cells@[i]).col == (
            #[trigger] g.cells@[j]).col && g.cells@[i].row == g.cells@[j].row),
{
    let rows = cfg.grid_rows as int;
    let cols = cfg.grid_cols as int;
    assert forall|col: u32, row: u32| col < cfg.grid_cols && row < cfg.grid_rows implies 0 <= (
    #[trigger] cell_index(cfg, col as int, row as int)) < g.cells@.len() && g.cells@[cell_index(
        cfg,
        col as int,
        row as int,
    )].col == col && g.cells@[cell_index(cfg, col as int, row as int)].row == row by {
        let i = (col as int) * rows + (row as int);
        assert(cell_index(cfg, col as int, row as int) == i);
        assert(0 <= (col as int) * rows + (row as int) && (col as int) * rows + (row as int) + 1
            <= cols * rows) by (nonlinear_arith)
            requires
                0 <= col < cols,
                0 <= row < rows,
                1 <= rows,
        ;
        let c = g.cells@[i];
        assert((c.col as int) * rows + (c.row as int) == i);
        assert(c.col == col && c.row == row) by (nonlinear_arith)
            requires
                (c.col as int) * rows + (c.row as int) == (col as int) * rows + (row as int),
                0 <= c.row < rows,
                0 <= row < rows,
                0 <= c.col,
                0 <= col,
        ;
    }
}

} // verus!

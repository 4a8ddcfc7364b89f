use vstd::prelude::*;

verus! {

/// Upper bound on the length, in characters, of a committed text.
pub const MAX_TEXT_LEN: usize = 100000;

/// Every character advance produced by the glyph catalog is at most this
/// many micro-units.
pub const MAX_ADVANCE: i64 = 1000000;

/// Configuration of the marquee pipeline.
///
/// All lengths and positions are integers in micro-units: one millionth of
/// one world unit. Speeds are micro-units per millisecond, so advancing the
/// stage by `speed * dt_ms` is exact, with no rounding anywhere.
#[derive(Clone, Copy, Debug, PartialEq, Eq, Structural)]
pub struct MarqueeConfig {
    /// Number of grid columns (W).
    pub grid_cols: u32,
    /// Number of grid rows (H).
    pub grid_rows: u32,
    /// World x of the column-0 cells.
    pub cell_x0: i64,
    /// Horizontal spacing between adjacent columns; columns grow rightward.
    pub cell_dx: i64,
    /// World y of the row-0 cells.
    pub cell_y0: i64,
    /// Vertical spacing between adjacent rows; rows grow downward.
    pub cell_dy: i64,
    /// World z of the scan plane, where every ray originates.
    pub cell_z: i64,
    /// World x where the first character of a committed text is laid out.
    pub base_offset: i64,
    /// World y of every spawned glyph.
    pub glyph_y: i64,
    /// World z of every spawned glyph.
    pub glyph_z: i64,
    /// Leftward scroll speed of the stage.
    pub scroll_speed: i64,
    /// Constant part of the recycle margin.
    pub recycle_base: i64,
    /// Per-character part of the recycle margin; longer texts scroll
    /// further before the stage recycles.
    pub recycle_per_char: i64,
    /// Solid horizontal extent of one glyph in the synthetic geometry model.
    pub glyph_width: i64,
    /// Lower edge of a glyph's solid extent in the synthetic geometry model.
    pub glyph_bottom: i64,
    /// Upper edge of a glyph's solid extent in the synthetic geometry model.
    pub glyph_top: i64,
}

impl MarqueeConfig {
    /// Bounds that keep every position computed by the pipeline well inside
    /// the `i64` range.
    pub open spec fn wf(self) -> bool {
        &&& 1 <= self.grid_cols <= 4096
        &&& 1 <= self.grid_rows <= 4096
        &&& -1000000000000 <= self.cell_x0 <= 1000000000000
        &&& 1 <= self.cell_dx <= 1000000
        &&& -1000000000000 <= self.cell_y0 <= 1000000000000
        &&& 1 <= self.cell_dy <= 1000000
        &&& -1000000000000 <= self.cell_z <= 1000000000000
        &&& -1000000000000 <= self.base_offset <= 1000000000000
        &&& -1000000000000 <= self.glyph_y <= 1000000000000
        &&& -1000000000000 <= self.glyph_z <= 1000000000000
        &&& 1 <= self.scroll_speed <= 1000000
        &&& 0 <= self.recycle_base <= 1000000000000
        &&& 0 <= self.recycle_per_char <= 1000000
        &&& 1 <= self.glyph_width <= 1000000000
        &&& -1000000000000 <= self.glyph_bottom <= self.glyph_top <= 1000000000000
    }

    /// The reference configuration: a 101 x 25 grid spanning x in
    /// [-2.0, 2.0] and y in [-0.07, 0.65], scanned from z = -1.0, glyphs
    /// entering at x = 2.2 and scrolling left at 0.8 units per second.
    pub open spec fn reference_spec() -> MarqueeConfig {
        MarqueeConfig {
            grid_cols: 101,
            grid_rows: 25,
            cell_x0: -2000000i64,
            cell_dx: 40000,
            cell_y0: 650000,
            cell_dy: 30000,
            cell_z: -1000000i64,
            base_offset: 2200000,
            glyph_y: 50000,
            glyph_z: 1000000,
            scroll_speed: 800,
            recycle_base: 3200000,
            recycle_per_char: 500000,
            glyph_width: 400000,
            glyph_bottom: 0,
            glyph_top: 600000,
        }
    }

    /// Builds the reference configuration.
    pub fn reference() -> (r: MarqueeConfig)
        ensures
            r == Self::reference_spec(),
            r.wf(),
    {
        MarqueeConfig {
            grid_cols: 101,
            grid_rows: 25,
            cell_x0: -2000000,
            cell_dx: 40000,
            cell_y0: 650000,
            cell_dy: 30000,
            cell_z: -1000000,
            base_offset: 2200000,
            glyph_y: 50000,
            glyph_z: 1000000,
            scroll_speed: 800,
            recycle_base: 3200000,
            recycle_per_char: 500000,
            glyph_width: 400000,
            glyph_bottom: 0,
            glyph_top: 600000,
        }
    }

    /// World x of the cells in the given column.
    pub open spec fn cell_x(self, col: int) -> int {
        self.cell_x0 + col * self.cell_dx
    }

    /// World y of the cells in the given row.
    pub open spec fn cell_y(self, row: int) -> int {
        self.cell_y0 - row * self.cell_dy
    }
}

} // verus!

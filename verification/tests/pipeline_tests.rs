use led_marquee::config::MarqueeConfig;
use led_marquee::pipeline::Marquee;

/// A configuration whose affine mapping places cell (55, 10) inside the
/// "A" glyph of a text laid out at base 2.2, and no other cell inside any
/// glyph of "AB": columns sit at x = 0.04 * col, rows at y = 0.65 -
/// 0.03 * row, and each glyph presents a narrow 0.02 x 0.02 solid.
fn pinpoint_config() -> MarqueeConfig {
    let mut cfg = MarqueeConfig::reference();
    cfg.cell_x0 = 0;
    cfg.glyph_width = 20000;
    cfg.glyph_bottom = 340000;
    cfg.glyph_top = 360000;
    cfg
}

#[test]
fn committing_ab_lights_exactly_the_covered_cell() {
    let cfg = pinpoint_config();
    let mut m = Marquee::new(cfg);
    m.commit_text(String::from("AB"));
    m.frame_synthetic(0);
    // Layout puts "A" at x = 2.2: cell (55, 10) sits at (2.2, 0.35),
    // inside the A glyph's solid; no cell falls inside the B glyph at
    // x = 2.77.
    assert_eq!(m.stage.batch.len(), 2);
    let lit = m.scan_synthetic();
    assert_eq!(lit.hits, vec![(55, 10)]);
    for cell in m.grid.cells.iter() {
        let expected = (cell.col, cell.row) == (55, 10);
        assert_eq!(cell.visible, expected);
    }
}

#[test]
fn committing_the_empty_string_spawns_nothing_and_lights_nothing() {
    let cfg = pinpoint_config();
    let mut m = Marquee::new(cfg);
    // First show something, so the empty commit has lights to clear.
    m.commit_text(String::from("AB"));
    m.frame_synthetic(0);
    assert!(m.grid.cells.iter().any(|c| c.visible));
    m.commit_text(String::new());
    m.frame_synthetic(0);
    assert_eq!(m.stage.batch.len(), 0);
    let lit = m.scan_synthetic();
    assert_eq!(lit.hits.len(), 0);
    for cell in m.grid.cells.iter() {
        assert!(!cell.visible);
    }
}

#[test]
fn a_commitment_waits_in_the_inbox_until_the_frame_begins() {
    let cfg = MarqueeConfig::reference();
    let mut m = Marquee::new(cfg);
    m.commit_text(String::from("GO"));
    assert!(m.inbox.slot.is_some());
    assert_eq!(m.stage.entered.text, "");
    m.begin_frame(16);
    assert!(m.inbox.slot.is_none());
    assert_eq!(m.stage.entered.text, "GO");
    assert_eq!(m.stage.batch.len(), 2);
}

#[test]
fn backend_answers_drive_the_lights() {
    let cfg = MarqueeConfig::reference();
    let mut m = Marquee::new(cfg);
    m.begin_frame(16);
    let rows = cfg.grid_rows as usize;
    let cols = cfg.grid_cols as usize;
    let mut flags = vec![false; cols * rows];
    flags[9 * rows + 3] = true;
    m.finish_frame_with_hits(&flags);
    for cell in m.grid.cells.iter() {
        let expected = (cell.col, cell.row) == (9, 3);
        assert_eq!(cell.visible, expected);
    }
}

#[test]
fn the_marquee_loops_the_last_committed_text() {
    let cfg = MarqueeConfig::reference();
    let mut m = Marquee::new(cfg);
    m.commit_text(String::from("AB"));
    m.frame_synthetic(0);
    let first_batch: Vec<(u64, i64)> = m.stage.batch.iter().map(|g| (g.id, g.x)).collect();
    // Scroll until the stage recycles: threshold -6.4 units at 0.8
    // units per second.
    let mut recycled = false;
    for _ in 0..20 {
        if m.frame_synthetic(1000) {
            recycled = true;
            break;
        }
    }
    assert!(recycled);
    assert_eq!(m.stage.entered.text, "AB");
    assert_eq!(m.stage.translation, 0);
    let second_batch: Vec<(u64, i64)> = m.stage.batch.iter().map(|g| (g.id, g.x)).collect();
    // Identical layout, fresh instances.
    assert_eq!(
        first_batch.iter().map(|p| p.1).collect::<Vec<i64>>(),
        second_batch.iter().map(|p| p.1).collect::<Vec<i64>>()
    );
    for (id, _) in second_batch.iter() {
        assert!(first_batch.iter().all(|(old, _)| old != id));
    }
}

#[test]
fn scanning_twice_between_frames_changes_nothing() {
    let cfg = pinpoint_config();
    let mut m = Marquee::new(cfg);
    m.commit_text(String::from("AB"));
    m.frame_synthetic(0);
    let a = m.scan_synthetic();
    let b = m.scan_synthetic();
    assert_eq!(a.hits, b.hits);
}

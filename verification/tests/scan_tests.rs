use led_marquee::config::MarqueeConfig;
use led_marquee::scan::{ray_origin, scan_rects, scan_with_hits, stage_rects, GlyphRect, HitIndices};
use led_marquee::stage::Stage;

#[test]
fn ray_origins_follow_the_affine_cell_mapping() {
    let cfg = MarqueeConfig::reference();
    assert_eq!(ray_origin(&cfg, 0, 0), (-2000000, 650000, -1000000));
    assert_eq!(ray_origin(&cfg, 55, 10), (200000, 350000, -1000000));
    assert_eq!(ray_origin(&cfg, 100, 24), (2000000, -70000, -1000000));
}

#[test]
fn a_rectangle_lights_exactly_the_cells_it_covers() {
    let cfg = MarqueeConfig::reference();
    // Covers columns 50..=52 (x in [0, 0.08]) and rows 10..=11
    // (y in [0.32, 0.35]).
    let rects = vec![GlyphRect { x0: 0, x1: 80000, y0: 320000, y1: 350000 }];
    let lit = scan_rects(&cfg, &rects);
    assert_eq!(
        lit.hits,
        vec![(50, 10), (50, 11), (51, 10), (51, 11), (52, 10), (52, 11)]
    );
}

#[test]
fn no_geometry_lights_nothing() {
    let cfg = MarqueeConfig::reference();
    let rects: Vec<GlyphRect> = Vec::new();
    let lit = scan_rects(&cfg, &rects);
    assert_eq!(lit.hits.len(), 0);
}

#[test]
fn rescanning_unmoved_geometry_gives_an_identical_lit_set() {
    let cfg = MarqueeConfig::reference();
    let mut stage = Stage::new(&cfg);
    stage.replace(&cfg, String::from("HI"));
    let rects = stage_rects(&cfg, &stage);
    let a = scan_rects(&cfg, &rects);
    let b = scan_rects(&cfg, &rects);
    assert_eq!(a.hits, b.hits);
    let rects_again = stage_rects(&cfg, &stage);
    let c = scan_rects(&cfg, &rects_again);
    assert_eq!(a.hits, c.hits);
}

#[test]
fn every_lit_address_lies_on_the_grid() {
    let cfg = MarqueeConfig::reference();
    // A rectangle far larger than the grid still lights only grid cells.
    let rects = vec![GlyphRect {
        x0: -100000000,
        x1: 100000000,
        y0: -100000000,
        y1: 100000000,
    }];
    let lit = scan_rects(&cfg, &rects);
    assert_eq!(lit.hits.len(), 101 * 25);
    for &(c, r) in lit.hits.iter() {
        assert!(c < cfg.grid_cols && r < cfg.grid_rows);
    }
}

#[test]
fn membership_queries_answer_the_scanned_set() {
    let cfg = MarqueeConfig::reference();
    let rects = vec![GlyphRect { x0: 0, x1: 1, y0: 349999, y1: 350001 }];
    let lit = scan_rects(&cfg, &rects);
    assert_eq!(lit.hits, vec![(50, 10)]);
    assert!(lit.contains(50, 10));
    assert!(!lit.contains(50, 11));
    assert!(!lit.contains(0, 0));
}

#[test]
fn backend_answers_are_collected_per_cell() {
    let cfg = MarqueeConfig::reference();
    let rows = cfg.grid_rows as usize;
    let cols = cfg.grid_cols as usize;
    let mut flags = vec![false; cols * rows];
    flags[55 * rows + 10] = true;
    flags[0] = true;
    let lit = scan_with_hits(&cfg, &flags);
    assert_eq!(lit.hits, vec![(0, 0), (55, 10)]);
}

#[test]
fn all_false_backend_answers_light_nothing() {
    let cfg = MarqueeConfig::reference();
    let flags = vec![false; (cfg.grid_cols * cfg.grid_rows) as usize];
    let lit = scan_with_hits(&cfg, &flags);
    assert_eq!(lit.hits.len(), 0);
    let empty = HitIndices::new();
    assert_eq!(lit.hits, empty.hits);
}

#[test]
fn stage_rects_follow_the_batch_and_translation() {
    let cfg = MarqueeConfig::reference();
    let mut stage = Stage::new(&cfg);
    stage.replace(&cfg, String::from("AB"));
    let rects = stage_rects(&cfg, &stage);
    assert_eq!(rects.len(), 2);
    assert_eq!(rects[0].x0, 2200000);
    assert_eq!(rects[0].x1, 2200000 + cfg.glyph_width);
    assert_eq!(rects[1].x0, 2770000);
    assert_eq!(rects[0].y0, cfg.glyph_bottom);
    assert_eq!(rects[0].y1, cfg.glyph_top);
    // After a tick the whole batch has slid left together.
    stage.tick(&cfg, 1000);
    let rects = stage_rects(&cfg, &stage);
    assert_eq!(rects[0].x0, 2200000 - 800000);
    assert_eq!(rects[1].x0, 2770000 - 800000);
}

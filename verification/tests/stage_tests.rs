use led_marquee::catalog::GlyphAsset;
use led_marquee::config::MarqueeConfig;
use led_marquee::stage::Stage;

#[test]
fn replace_spawns_one_instance_per_non_space_character() {
    let cfg = MarqueeConfig::reference();
    let mut stage = Stage::new(&cfg);
    stage.replace(&cfg, String::from("AB"));
    assert_eq!(stage.entered.text, "AB");
    assert_eq!(stage.batch.len(), 2);
    assert_eq!(stage.batch[0].asset, GlyphAsset::A);
    assert_eq!(stage.batch[0].x, 2200000);
    assert_eq!(stage.batch[1].asset, GlyphAsset::B);
    assert_eq!(stage.batch[1].x, 2770000);
    assert_eq!(stage.batch[0].id, 0);
    assert_eq!(stage.batch[1].id, 1);
    assert_eq!(stage.translation, 0);
}

#[test]
fn empty_text_spawns_zero_instances() {
    let cfg = MarqueeConfig::reference();
    let mut stage = Stage::new(&cfg);
    stage.replace(&cfg, String::new());
    assert_eq!(stage.batch.len(), 0);
}

#[test]
fn a_tick_slides_the_stage_left_by_speed_times_dt() {
    let cfg = MarqueeConfig::reference();
    let mut stage = Stage::new(&cfg);
    stage.replace(&cfg, String::from("AB"));
    // 0.8 units per second = 800 micro-units per millisecond.
    let recycled = stage.tick(&cfg, 1000);
    assert!(!recycled);
    assert_eq!(stage.translation, -800000);
    let recycled = stage.tick(&cfg, 250);
    assert!(!recycled);
    assert_eq!(stage.translation, -1000000);
}

#[test]
fn the_stage_recycles_after_the_computable_elapsed_time() {
    let cfg = MarqueeConfig::reference();
    let mut stage = Stage::new(&cfg);
    stage.replace(&cfg, String::from("AB"));
    // Threshold for two characters: -(2.2 + 3.2 + 2 * 0.5) = -6.4 units,
    // crossed once speed * elapsed exceeds 6.4 units: after 8000 ms at
    // 0.8 units per second.
    for _ in 0..8 {
        assert!(!stage.tick(&cfg, 1000));
    }
    assert_eq!(stage.translation, -6400000);
    // Exactly at the threshold the stage is not yet past it.
    assert!(!stage.tick(&cfg, 1));
    assert_eq!(stage.translation, -6400800);
    // Now it is, and the next tick recycles instead of moving.
    let recycled = stage.tick(&cfg, 1);
    assert!(recycled);
    assert_eq!(stage.translation, 0);
    // The recycled batch shows the same text with the same layout, as
    // fresh instances under new arena keys.
    assert_eq!(stage.entered.text, "AB");
    assert_eq!(stage.batch.len(), 2);
    assert_eq!(stage.batch[0].asset, GlyphAsset::A);
    assert_eq!(stage.batch[0].x, 2200000);
    assert_eq!(stage.batch[1].asset, GlyphAsset::B);
    assert_eq!(stage.batch[1].x, 2770000);
    assert_eq!(stage.batch[0].id, 2);
    assert_eq!(stage.batch[1].id, 3);
}

#[test]
fn longer_texts_scroll_further_before_recycling() {
    let cfg = MarqueeConfig::reference();
    let mut stage = Stage::new(&cfg);
    stage.replace(&cfg, String::from("ABCD"));
    // Threshold for four characters: -(2.2 + 3.2 + 4 * 0.5) = -7.4 units.
    for _ in 0..9 {
        assert!(!stage.tick(&cfg, 1000));
    }
    assert_eq!(stage.translation, -7200000);
    assert!(!stage.tick(&cfg, 1000));
    assert_eq!(stage.translation, -8000000);
    assert!(stage.tick(&cfg, 1000));
    assert_eq!(stage.translation, 0);
}

#[test]
fn replacement_retires_the_old_batch_and_its_keys() {
    let cfg = MarqueeConfig::reference();
    let mut stage = Stage::new(&cfg);
    stage.replace(&cfg, String::from("AAA"));
    assert_eq!(stage.batch.len(), 3);
    let old_ids: Vec<u64> = stage.batch.iter().map(|g| g.id).collect();
    stage.replace(&cfg, String::from("BB"));
    assert_eq!(stage.batch.len(), 2);
    for g in stage.batch.iter() {
        assert!(!old_ids.contains(&g.id));
    }
}

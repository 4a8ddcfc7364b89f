use led_marquee::catalog::GlyphAsset;
use led_marquee::layout::layout;

#[test]
fn lays_out_two_letters_with_cumulative_advances() {
    // "AB" with advances 0.57 and 0.50 from base 2.2: A at 2.2, B at 2.77.
    let r = layout("AB", 2200000);
    assert_eq!(r.len(), 2);
    assert_eq!(r[0].asset, GlyphAsset::A);
    assert_eq!(r[0].offset, 2200000);
    assert_eq!(r[1].asset, GlyphAsset::B);
    assert_eq!(r[1].offset, 2770000);
}

#[test]
fn layout_is_deterministic() {
    let a = layout("Hello, World!", 2200000);
    let b = layout("Hello, World!", 2200000);
    assert_eq!(a, b);
}

#[test]
fn spaces_advance_but_emit_nothing() {
    let r = layout("a b", 1000000);
    assert_eq!(r.len(), 2);
    assert_eq!(r[0].asset, GlyphAsset::A);
    assert_eq!(r[0].offset, 1000000);
    assert_eq!(r[1].asset, GlyphAsset::B);
    // 'a' advances 0.57, the space 0.35.
    assert_eq!(r[1].offset, 1000000 + 570000 + 350000);
}

#[test]
fn empty_text_lays_out_empty() {
    let r = layout("", 2200000);
    assert_eq!(r.len(), 0);
}

#[test]
fn offsets_never_decrease() {
    let r = layout("The quick brown fox 123 !?", 0);
    for w in r.windows(2) {
        assert!(w[0].offset <= w[1].offset);
    }
}

#[test]
fn unsupported_characters_take_the_fallback_glyph() {
    let r = layout("~", 500000);
    assert_eq!(r.len(), 1);
    assert_eq!(r[0].asset, GlyphAsset::QM);
    assert_eq!(r[0].offset, 500000);
}

#[test]
fn long_text_lays_out_every_non_space_character() {
    let text: String = "ab ".repeat(333);
    let r = layout(&text, 0);
    assert_eq!(r.len(), 666);
    // Each "ab " group advances 0.57 + 0.50 + 0.35.
    assert_eq!(r[2].offset, 570000 + 500000 + 350000);
}

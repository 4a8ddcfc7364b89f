use led_marquee::catalog::{resolve, GlyphAsset};

#[test]
fn resolves_letters_case_insensitively() {
    assert_eq!(resolve('a'), (GlyphAsset::A, 570000));
    assert_eq!(resolve('A'), (GlyphAsset::A, 570000));
    assert_eq!(resolve('b'), (GlyphAsset::B, 500000));
    assert_eq!(resolve('B'), (GlyphAsset::B, 500000));
    assert_eq!(resolve('w'), (GlyphAsset::W, 750000));
    assert_eq!(resolve('Z'), (GlyphAsset::Z, 450000));
}

#[test]
fn resolves_digits() {
    assert_eq!(resolve('0'), (GlyphAsset::D0, 500000));
    assert_eq!(resolve('1'), (GlyphAsset::D1, 300000));
    assert_eq!(resolve('9'), (GlyphAsset::D9, 500000));
}

#[test]
fn resolves_punctuation() {
    assert_eq!(resolve('/'), (GlyphAsset::Backslash, 400000));
    assert_eq!(resolve(':'), (GlyphAsset::Colon, 300000));
    assert_eq!(resolve('$'), (GlyphAsset::Dolla, 500000));
    assert_eq!(resolve('?'), (GlyphAsset::QM, 400000));
    assert_eq!(resolve('\''), (GlyphAsset::Apo, 200000));
    assert_eq!(resolve('*'), (GlyphAsset::Star, 200000));
}

#[test]
fn whitespace_advances_with_the_underscore_entry() {
    assert_eq!(resolve(' '), (GlyphAsset::Underscore, 350000));
    assert_eq!(resolve('_'), (GlyphAsset::Underscore, 350000));
}

#[test]
fn unsupported_characters_fall_back_with_nonzero_advance() {
    let (asset, adv) = resolve('~');
    assert_eq!(asset, GlyphAsset::QM);
    assert_eq!(adv, 200000);
    let (asset, adv) = resolve('\u{1F600}');
    assert_eq!(asset, GlyphAsset::QM);
    assert!(adv > 0);
}

#[test]
fn file_prefixes_name_the_assets() {
    assert_eq!(GlyphAsset::A.file_prefix(), "A");
    assert_eq!(GlyphAsset::D7.file_prefix(), "7");
    assert_eq!(GlyphAsset::Backslash.file_prefix(), "Backslash");
    assert_eq!(GlyphAsset::SemiColon.file_prefix(), "SemiColon");
    assert_eq!(GlyphAsset::Underscore.file_prefix(), "Underscore");
    assert_eq!(GlyphAsset::QM.file_prefix(), "QM");
}

use crate::config::MAX_ADVANCE;
use vstd::prelude::*;

verus! {

/// The named 3D glyph assets. Each supported character resolves to one of
/// these; the scene host appends its own suffix to [`GlyphAsset::file_prefix`]
/// to locate the asset on disk.
#[derive(Clone, Copy, Debug, PartialEq, Eq, Structural)]
pub enum GlyphAsset {
    D0,
    D1,
    D2,
    D3,
    D4,
    D5,
    D6,
    D7,
    D8,
    D9,
    A,
    B,
    C,
    D,
    E,
    F,
    G,
    H,
    I,
    J,
    K,
    L,
    M,
    N,
    O,
    P,
    Q,
    R,
    S,
    T,
    U,
    V,
    W,
    X,
    Y,
    Z,
    Backslash,
    Colon,
    SemiColon,
    Comma,
    Dolla,
    Equal,
    ExM,
    Hash,
    LeftPah,
    Minus,
    Percent,
    Period,
    Plus,
    QM,
    Quote,
    RightPah,
    Star,
    Underscore,
    UpHat,
    Apo,
}

/// The glyph asset a character resolves to. Total: letters are folded to
/// one case, whitespace shares the underscore asset (layout never spawns
/// it), and any unsupported character falls back to the question mark.
pub open spec fn glyph_of(c: char) -> GlyphAsset {
    match c {
        '0' => GlyphAsset::D0,
        '1' => GlyphAsset::D1,
        '2' => GlyphAsset::D2,
        '3' => GlyphAsset::D3,
        '4' => GlyphAsset::D4,
        '5' => GlyphAsset::D5,
        '6' => GlyphAsset::D6,
        '7' => GlyphAsset::D7,
        '8' => GlyphAsset::D8,
        '9' => GlyphAsset::D9,
        'a' | 'A' => GlyphAsset::A,
        'b' | 'B' => GlyphAsset::B,
        'c' | 'C' => GlyphAsset::C,
        'd' | 'D' => GlyphAsset::D,
        'e' | 'E' => GlyphAsset::E,
        'f' | 'F' => GlyphAsset::F,
        'g' | 'G' => GlyphAsset::G,
        'h' | 'H' => GlyphAsset::H,
        'i' | 'I' => GlyphAsset::I,
        'j' | 'J' => GlyphAsset::J,
        'k' | 'K' => GlyphAsset::K,
        'l' | 'L' => GlyphAsset::L,
        'm' | 'M' => GlyphAsset::M,
        'n' | 'N' => GlyphAsset::N,
        'o' | 'O' => GlyphAsset::O,
        'p' | 'P' => GlyphAsset::P,
        'q' | 'Q' => GlyphAsset::Q,
        'r' | 'R' => GlyphAsset::R,
        's' | 'S' => GlyphAsset::S,
        't' | 'T' => GlyphAsset::T,
        'u' | 'U' => GlyphAsset::U,
        'v' | 'V' => GlyphAsset::V,
        'w' | 'W' => GlyphAsset::W,
        'x' | 'X' => GlyphAsset::X,
        'y' | 'Y' => GlyphAsset::Y,
        'z' | 'Z' => GlyphAsset::Z,
        '/' => GlyphAsset::Backslash,
        ':' => GlyphAsset::Colon,
        ';' => GlyphAsset::SemiColon,
        ',' => GlyphAsset::Comma,
        '$' => GlyphAsset::Dolla,
        '=' => GlyphAsset::Equal,
        '!' => GlyphAsset::ExM,
        '#' => GlyphAsset::Hash,
        '(' => GlyphAsset::LeftPah,
        '-' => GlyphAsset::Minus,
        '%' => GlyphAsset::Percent,
        '.' => GlyphAsset::Period,
        '+' => GlyphAsset::Plus,
        '?' => GlyphAsset::QM,
        '"' => GlyphAsset::Quote,
        ')' => GlyphAsset::RightPah,
        '*' => GlyphAsset::Star,
        '_' | ' ' => GlyphAsset::Underscore,
        '^' => GlyphAsset::UpHat,
        '\'' => GlyphAsset::Apo,
        _ => GlyphAsset::QM,
    }
}

/// The horizontal advance, in micro-units, a character consumes during
/// layout. Total and always positive, so layout progresses on any input;
/// whitespace consumes an advance without spawning a glyph.
pub open spec fn advance_of(c: char) -> int {
    match c {
        '0' => 500000,
        '1' => 300000,
        '2' => 400000,
        '3' => 400000,
        '4' => 500000,
        '5' => 400000,
        '6' => 450000,
        '7' => 400000,
        '8' => 500000,
        '9' => 500000,
        'a' | 'A' => 570000,
        'b' | 'B' => 500000,
        'c' | 'C' => 420000,
        'd' | 'D' => 550000,
        'e' | 'E' => 450000,
        'f' | 'F' => 400000,
        'g' | 'G' => 550000,
        'h' | 'H' => 550000,
        'i' | 'I' => 350000,
        'j' | 'J' => 500000,
        'k' | 'K' => 500000,
        'l' | 'L' => 420000,
        'm' | 'M' => 620000,
        'n' | 'N' => 580000,
        'o' | 'O' => 570000,
        'p' | 'P' => 500000,
        'q' | 'Q' => 600000,
        'r' | 'R' => 460000,
        's' | 'S' => 420000,
        't' | 'T' => 400000,
        'u' | 'U' => 600000,
        'v' | 'V' => 550000,
        'w' | 'W' => 750000,
        'x' | 'X' => 600000,
        'y' | 'Y' => 450000,
        'z' | 'Z' => 450000,
        '/' => 400000,
        ':' => 300000,
        ';' => 300000,
        ',' => 300000,
        '$' => 500000,
        '=' => 400000,
        '!' => 350000,
        '#' => 500000,
        '(' => 200000,
        '-' => 200000,
        '%' => 550000,
        '.' => 200000,
        '+' => 350000,
        '?' => 400000,
        '"' => 200000,
        ')' => 300000,
        '*' => 200000,
        '_' | ' ' => 350000,
        '^' => 300000,
        '\'' => 200000,
        _ => 200000,
    }
}

/// Every advance in the catalog is positive and bounded by [`MAX_ADVANCE`].
pub proof fn lemma_advance_bounds(c: char)
    ensures
        1 <= advance_of(c) <= MAX_ADVANCE,
{
}

/// Resolves a character to its glyph asset and advance width. Total: no
/// character is ever rejected.
pub fn resolve(c: char) -> (r: (GlyphAsset, i64))
    ensures
        r.0 == glyph_of(c),
        r.1 == advance_of(c),
{
    match c {
        '0' => (GlyphAsset::D0, 500000),
        '1' => (GlyphAsset::D1, 300000),
        '2' => (GlyphAsset::D2, 400000),
        '3' => (GlyphAsset::D3, 400000),
        '4' => (GlyphAsset::D4, 500000),
        '5' => (GlyphAsset::D5, 400000),
        '6' => (GlyphAsset::D6, 450000),
        '7' => (GlyphAsset::D7, 400000),
        '8' => (GlyphAsset::D8, 500000),
        '9' => (GlyphAsset::D9, 500000),
        'a' | 'A' => (GlyphAsset::A, 570000),
        'b' | 'B' => (GlyphAsset::B, 500000),
        'c' | 'C' => (GlyphAsset::C, 420000),
        'd' | 'D' => (GlyphAsset::D, 550000),
        'e' | 'E' => (GlyphAsset::E, 450000),
        'f' | 'F' => (GlyphAsset::F, 400000),
        'g' | 'G' => (GlyphAsset::G, 550000),
        'h' | 'H' => (GlyphAsset::H, 550000),
        'i' | 'I' => (GlyphAsset::I, 350000),
        'j' | 'J' => (GlyphAsset::J, 500000),
        'k' | 'K' => (GlyphAsset::K, 500000),
        'l' | 'L' => (GlyphAsset::L, 420000),
        'm' | 'M' => (GlyphAsset::M, 620000),
        'n' | 'N' => (GlyphAsset::N, 580000),
        'o' | 'O' => (GlyphAsset::O, 570000),
        'p' | 'P' => (GlyphAsset::P, 500000),
        'q' | 'Q' => (GlyphAsset::Q, 600000),
        'r' | 'R' => (GlyphAsset::R, 460000),
        's' | 'S' => (GlyphAsset::S, 420000),
        't' | 'T' => (GlyphAsset::T, 400000),
        'u' | 'U' => (GlyphAsset::U, 600000),
        'v' | 'V' => (GlyphAsset::V, 550000),
        'w' | 'W' => (GlyphAsset::W, 750000),
        'x' | 'X' => (GlyphAsset::X, 600000),
        'y' | 'Y' => (GlyphAsset::Y, 450000),
        'z' | 'Z' => (GlyphAsset::Z, 450000),
        '/' => (GlyphAsset::Backslash, 400000),
        ':' => (GlyphAsset::Colon, 300000),
        ';' => (GlyphAsset::SemiColon, 300000),
        ',' => (GlyphAsset::Comma, 300000),
        '$' => (GlyphAsset::Dolla, 500000),
        '=' => (GlyphAsset::Equal, 400000),
        '!' => (GlyphAsset::ExM, 350000),
        '#' => (GlyphAsset::Hash, 500000),
        '(' => (GlyphAsset::LeftPah, 200000),
        '-' => (GlyphAsset::Minus, 200000),
        '%' => (GlyphAsset::Percent, 550000),
        '.' => (GlyphAsset::Period, 200000),
        '+' => (GlyphAsset::Plus, 350000),
        '?' => (GlyphAsset::QM, 400000),
        '"' => (GlyphAsset::Quote, 200000),
        ')' => (GlyphAsset::RightPah, 300000),
        '*' => (GlyphAsset::Star, 200000),
        '_' | ' ' => (GlyphAsset::Underscore, 350000),
        '^' => (GlyphAsset::UpHat, 300000),
        '\'' => (GlyphAsset::Apo, 200000),
        _ => (GlyphAsset::QM, 200000),
    }
}

impl GlyphAsset {
    /// The view of the string [`GlyphAsset::file_prefix`] returns.
    pub open spec fn prefix_spec(self) -> Seq<char> {
        match self {
            GlyphAsset::D0 => "0"@,
            GlyphAsset::D1 => "1"@,
            GlyphAsset::D2 => "2"@,
            GlyphAsset::D3 => "3"@,
            GlyphAsset::D4 => "4"@,
            GlyphAsset::D5 => "5"@,
            GlyphAsset::D6 => "6"@,
            GlyphAsset::D7 => "7"@,
            GlyphAsset::D8 => "8"@,
            GlyphAsset::D9 => "9"@,
            GlyphAsset::A => "A"@,
            GlyphAsset::B => "B"@,
            GlyphAsset::C => "C"@,
            GlyphAsset::D => "D"@,
            GlyphAsset::E => "E"@,
            GlyphAsset::F => "F"@,
            GlyphAsset::G => "G"@,
            GlyphAsset::H => "H"@,
            GlyphAsset::I => "I"@,
            GlyphAsset::J => "J"@,
            GlyphAsset::K => "K"@,
            GlyphAsset::L => "L"@,
            GlyphAsset::M => "M"@,
            GlyphAsset::N => "N"@,
            GlyphAsset::O => "O"@,
            GlyphAsset::P => "P"@,
            GlyphAsset::Q => "Q"@,
            GlyphAsset::R => "R"@,
            GlyphAsset::S => "S"@,
            GlyphAsset::T => "T"@,
            GlyphAsset::U => "U"@,
            GlyphAsset::V => "V"@,
            GlyphAsset::W => "W"@,
            GlyphAsset::X => "X"@,
            GlyphAsset::Y => "Y"@,
            GlyphAsset::Z => "Z"@,
            GlyphAsset::Backslash => "Backslash"@,
            GlyphAsset::Colon => "Colon"@,
            GlyphAsset::SemiColon => "SemiColon"@,
            GlyphAsset::Comma => "Comma"@,
            GlyphAsset::Dolla => "Dolla"@,
            GlyphAsset::Equal => "Equal"@,
            GlyphAsset::ExM => "ExM"@,
            GlyphAsset::Hash => "Hash"@,
            GlyphAsset::LeftPah => "LeftPah"@,
            GlyphAsset::Minus => "Minus"@,
            GlyphAsset::Percent => "Percent"@,
            GlyphAsset::Period => "Period"@,
            GlyphAsset::Plus => "Plus"@,
            GlyphAsset::QM => "QM"@,
            GlyphAsset::Quote => "Quote"@,
            GlyphAsset::RightPah => "RightPah"@,
            GlyphAsset::Star => "Star"@,
            GlyphAsset::Underscore => "Underscore"@,
            GlyphAsset::UpHat => "UpHat"@,
            GlyphAsset::Apo => "Apo"@,
        }
    }

    /// The on-disk name of this asset, without the scene host's suffix.
    pub fn file_prefix(self) -> (r: String)
        ensures
            r@ == self.prefix_spec(),
    {
        match self {
            GlyphAsset::D0 => String::from_str("0"),
            GlyphAsset::D1 => String::from_str("1"),
            GlyphAsset::D2 => String::from_str("2"),
            GlyphAsset::D3 => String::from_str("3"),
            GlyphAsset::D4 => String::from_str("4"),
            GlyphAsset::D5 => String::from_str("5"),
            GlyphAsset::D6 => String::from_str("6"),
            GlyphAsset::D7 => String::from_str("7"),
            GlyphAsset::D8 => String::from_str("8"),
            GlyphAsset::D9 => String::from_str("9"),
            GlyphAsset::A => String::from_str("A"),
            GlyphAsset::B => String::from_str("B"),
            GlyphAsset::C => String::from_str("C"),
            GlyphAsset::D => String::from_str("D"),
            GlyphAsset::E => String::from_str("E"),
            GlyphAsset::F => String::from_str("F"),
            GlyphAsset::G => String::from_str("G"),
            GlyphAsset::H => String::from_str("H"),
            GlyphAsset::I => String::from_str("I"),
            GlyphAsset::J => String::from_str("J"),
            GlyphAsset::K => String::from_str("K"),
            GlyphAsset::L => String::from_str("L"),
            GlyphAsset::M => String::from_str("M"),
            GlyphAsset::N => String::from_str("N"),
            GlyphAsset::O => String::from_str("O"),
            GlyphAsset::P => String::from_str("P"),
            GlyphAsset::Q => String::from_str("Q"),
            GlyphAsset::R => String::from_str("R"),
            GlyphAsset::S => String::from_str("S"),
            GlyphAsset::T => String::from_str("T"),
            GlyphAsset::U => String::from_str("U"),
            GlyphAsset::V => String::from_str("V"),
            GlyphAsset::W => String::from_str("W"),
            GlyphAsset::X => String::from_str("X"),
            GlyphAsset::Y => String::from_str("Y"),
            GlyphAsset::Z => String::from_str("Z"),
            GlyphAsset::Backslash => String::from_str("Backslash"),
            GlyphAsset::Colon => String::from_str("Colon"),
            GlyphAsset::SemiColon => String::from_str("SemiColon"),
            GlyphAsset::Comma => String::from_str("Comma"),
            GlyphAsset::Dolla => String::from_str("Dolla"),
            GlyphAsset::Equal => String::from_str("Equal"),
            GlyphAsset::ExM => String::from_str("ExM"),
            GlyphAsset::Hash => String::from_str("Hash"),
            GlyphAsset::LeftPah => String::from_str("LeftPah"),
            GlyphAsset::Minus => String::from_str("Minus"),
            GlyphAsset::Percent => String::from_str("Percent"),
            GlyphAsset::Period => String::from_str("Period"),
            GlyphAsset::Plus => String::from_str("Plus"),
            GlyphAsset::QM => String::from_str("QM"),
            GlyphAsset::Quote => String::from_str("Quote"),
            GlyphAsset::RightPah => String::from_str("RightPah"),
            GlyphAsset::Star => String::from_str("Star"),
            GlyphAsset::Underscore => String::from_str("Underscore"),
            GlyphAsset::UpHat => String::from_str("UpHat"),
            GlyphAsset::Apo => String::from_str("Apo"),
        }
    }
}

} // verus!

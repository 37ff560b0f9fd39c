//! The 58-symbol digit alphabet of the BV code.
//!
//! A symbol's position in the alphabet is its digit value, 0 to 57.  The
//! alphabet, in order, is `fZodR9XQDSUm21yCkr6zBqiveYah8bt4xsWpHnJE7jL5VG3guMTKNPAwcF`.

use vstd::prelude::*;

verus! {

/// The alphabet symbol with digit value `d` (meaningful for `0 <= d < 58`).
pub open spec fn sym(d: int) -> char {
    if d == 0 { 'f' }
    else if d == 1 { 'Z' }
    else if d == 2 { 'o' }
    else if d == 3 { 'd' }
    else if d == 4 { 'R' }
    else if d == 5 { '9' }
    else if d == 6 { 'X' }
    else if d == 7 { 'Q' }
    else if d == 8 { 'D' }
    else if d == 9 { 'S' }
    else if d == 10 { 'U' }
    else if d == 11 { 'm' }
    else if d == 12 { '2' }
    else if d == 13 { '1' }
    else if d == 14 { 'y' }
    else if d == 15 { 'C' }
    else if d == 16 { 'k' }
    else if d == 17 { 'r' }
    else if d == 18 { '6' }
    else if d == 19 { 'z' }
    else if d == 20 { 'B' }
    else if d == 21 { 'q' }
    else if d == 22 { 'i' }
    else if d == 23 { 'v' }
    else if d == 24 { 'e' }
    else if d == 25 { 'Y' }
    else if d == 26 { 'a' }
    else if d == 27 { 'h' }
    else if d == 28 { '8' }
    else if d == 29 { 'b' }
    else if d == 30 { 't' }
    else if d == 31 { '4' }
    else if d == 32 { 'x' }
    else if d == 33 { 's' }
    else if d == 34 { 'W' }
    else if d == 35 { 'p' }
    else if d == 36 { 'H' }
    else if d == 37 { 'n' }
    else if d == 38 { 'J' }
    else if d == 39 { 'E' }
    else if d == 40 { '7' }
    else if d == 41 { 'j' }
    else if d == 42 { 'L' }
    else if d == 43 { '5' }
    else if d == 44 { 'V' }
    else if d == 45 { 'G' }
    else if d == 46 { '3' }
    else if d == 47 { 'g' }
    else if d == 48 { 'u' }
    else if d == 49 { 'M' }
    else if d == 50 { 'T' }
    else if d == 51 { 'K' }
    else if d == 52 { 'N' }
    else if d == 53 { 'P' }
    else if d == 54 { 'A' }
    else if d == 55 { 'w' }
    else if d == 56 { 'c' }
    else { 'F' }
}

/// The digit value of a character, or `None` for a character outside the
/// alphabet.  This is the exact inverse of `sym` on the 58 symbols.
pub open spec fn digit_of_spec(c: char) -> Option<u8> {
    if c == 'f' { Some(0u8) }
    else if c == 'Z' { Some(1u8) }
    else if c == 'o' { Some(2u8) }
    else if c == 'd' { Some(3u8) }
    else if c == 'R' { Some(4u8) }
    else if c == '9' { Some(5u8) }
    else if c == 'X' { Some(6u8) }
    else if c == 'Q' { Some(7u8) }
    else if c == 'D' { Some(8u8) }
    else if c == 'S' { Some(9u8) }
    else if c == 'U' { Some(10u8) }
    else if c == 'm' { Some(11u8) }
    else if c == '2' { Some(12u8) }
    else if c == '1' { Some(13u8) }
    else if c == 'y' { Some(14u8) }
    else if c == 'C' { Some(15u8) }
    else if c == 'k' { Some(16u8) }
    else if c == 'r' { Some(17u8) }
    else if c == '6' { Some(18u8) }
    else if c == 'z' { Some(19u8) }
    else if c == 'B' { Some(20u8) }
    else if c == 'q' { Some(21u8) }
    else if c == 'i' { Some(22u8) }
    else if c == 'v' { Some(23u8) }
    else if c == 'e' { Some(24u8) }
    else if c == 'Y' { Some(25u8) }
    else if c == 'a' { Some(26u8) }
    else if c == 'h' { Some(27u8) }
    else if c == '8' { Some(28u8) }
    else if c == 'b' { Some(29u8) }
    else if c == 't' { Some(30u8) }
    else if c == '4' { Some(31u8) }
    else if c == 'x' { Some(32u8) }
    else if c == 's' { Some(33u8) }
    else if c == 'W' { Some(34u8) }
    else if c == 'p' { Some(35u8) }
    else if c == 'H' { Some(36u8) }
    else if c == 'n' { Some(37u8) }
    else if c == 'J' { Some(38u8) }
    else if c == 'E' { Some(39u8) }
    else if c == '7' { Some(40u8) }
    else if c == 'j' { Some(41u8) }
    else if c == 'L' { Some(42u8) }
    else if c == '5' { Some(43u8) }
    else if c == 'V' { Some(44u8) }
    else if c == 'G' { Some(45u8) }
    else if c == '3' { Some(46u8) }
    else if c == 'g' { Some(47u8) }
    else if c == 'u' { Some(48u8) }
    else if c == 'M' { Some(49u8) }
    else if c == 'T' { Some(50u8) }
    else if c == 'K' { Some(51u8) }
    else if c == 'N' { Some(52u8) }
    else if c == 'P' { Some(53u8) }
    else if c == 'A' { Some(54u8) }
    else if c == 'w' { Some(55u8) }
    else if c == 'c' { Some(56u8) }
    else if c == 'F' { Some(57u8) }
    else { None }
}

/// Looking a symbol up returns its own digit value: the table is the
/// inverse of the alphabet for every alphabet symbol.
pub proof fn lemma_sym_digit(d: int)
    requires
        0 <= d < 58,
    ensures
        digit_of_spec(sym(d)) == Some(d as u8),
{
}

/// A successful lookup always yields a digit value below 58, and `sym`
/// maps that value back to the character looked up.
pub proof fn lemma_digit_sym(c: char)
    requires
        digit_of_spec(c).is_some(),
    ensures
        digit_of_spec(c).unwrap() < 58,
        sym(digit_of_spec(c).unwrap() as int) == c,
{
}

/// Digit value of one character, `None` outside the alphabet.
pub fn digit_of(c: char) -> (r: Option<u8>)
    ensures
        r == digit_of_spec(c),
{
    match c {
        'f' => Some(0u8),
        'Z' => Some(1u8),
        'o' => Some(2u8),
        'd' => Some(3u8),
        'R' => Some(4u8),
        '9' => Some(5u8),
        'X' => Some(6u8),
        'Q' => Some(7u8),
        'D' => Some(8u8),
        'S' => Some(9u8),
        'U' => Some(10u8),
        'm' => Some(11u8),
        '2' => Some(12u8),
        '1' => Some(13u8),
        'y' => Some(14u8),
        'C' => Some(15u8),
        'k' => Some(16u8),
        'r' => Some(17u8),
        '6' => Some(18u8),
        'z' => Some(19u8),
        'B' => Some(20u8),
        'q' => Some(21u8),
        'i' => Some(22u8),
        'v' => Some(23u8),
        'e' => Some(24u8),
        'Y' => Some(25u8),
        'a' => Some(26u8),
        'h' => Some(27u8),
        '8' => Some(28u8),
        'b' => Some(29u8),
        't' => Some(30u8),
        '4' => Some(31u8),
        'x' => Some(32u8),
        's' => Some(33u8),
        'W' => Some(34u8),
        'p' => Some(35u8),
        'H' => Some(36u8),
        'n' => Some(37u8),
        'J' => Some(38u8),
        'E' => Some(39u8),
        '7' => Some(40u8),
        'j' => Some(41u8),
        'L' => Some(42u8),
        '5' => Some(43u8),
        'V' => Some(44u8),
        'G' => Some(45u8),
        '3' => Some(46u8),
        'g' => Some(47u8),
        'u' => Some(48u8),
        'M' => Some(49u8),
        'T' => Some(50u8),
        'K' => Some(51u8),
        'N' => Some(52u8),
        'P' => Some(53u8),
        'A' => Some(54u8),
        'w' => Some(55u8),
        'c' => Some(56u8),
        'F' => Some(57u8),
        _ => None,
    }
}

/// The symbol with digit value `d`, as a one-character string slice.
pub fn symbol_str(d: u8) -> (r: &'static str)
    requires
        d < 58,
    ensures
        r@.len() == 1,
        r@[0] == sym(d as int),
{
    match d {
        0 => { proof { reveal_strlit("f"); } "f" },
        1 => { proof { reveal_strlit("Z"); } "Z" },
        2 => { proof { reveal_strlit("o"); } "o" },
        3 => { proof { reveal_strlit("d"); } "d" },
        4 => { proof { reveal_strlit("R"); } "R" },
        5 => { proof { reveal_strlit("9"); } "9" },
        6 => { proof { reveal_strlit("X"); } "X" },
        7 => { proof { reveal_strlit("Q"); } "Q" },
        8 => { proof { reveal_strlit("D"); } "D" },
        9 => { proof { reveal_strlit("S"); } "S" },
        10 => { proof { reveal_strlit("U"); } "U" },
        11 => { proof { reveal_strlit("m"); } "m" },
        12 => { proof { reveal_strlit("2"); } "2" },
        13 => { proof { reveal_strlit("1"); } "1" },
        14 => { proof { reveal_strlit("y"); } "y" },
        15 => { proof { reveal_strlit("C"); } "C" },
        16 => { proof { reveal_strlit("k"); } "k" },
        17 => { proof { reveal_strlit("r"); } "r" },
        18 => { proof { reveal_strlit("6"); } "6" },
        19 => { proof { reveal_strlit("z"); } "z" },
        20 => { proof { reveal_strlit("B"); } "B" },
        21 => { proof { reveal_strlit("q"); } "q" },
        22 => { proof { reveal_strlit("i"); } "i" },
        23 => { proof { reveal_strlit("v"); } "v" },
        24 => { proof { reveal_strlit("e"); } "e" },
        25 => { proof { reveal_strlit("Y"); } "Y" },
        26 => { proof { reveal_strlit("a"); } "a" },
        27 => { proof { reveal_strlit("h"); } "h" },
        28 => { proof { reveal_strlit("8"); } "8" },
        29 => { proof { reveal_strlit("b"); } "b" },
        30 => { proof { reveal_strlit("t"); } "t" },
        31 => { proof { reveal_strlit("4"); } "4" },
        32 => { proof { reveal_strlit("x"); } "x" },
        33 => { proof { reveal_strlit("s"); } "s" },
        34 => { proof { reveal_strlit("W"); } "W" },
        35 => { proof { reveal_strlit("p"); } "p" },
        36 => { proof { reveal_strlit("H"); } "H" },
        37 => { proof { reveal_strlit("n"); } "n" },
        38 => { proof { reveal_strlit("J"); } "J" },
        39 => { proof { reveal_strlit("E"); } "E" },
        40 => { proof { reveal_strlit("7"); } "7" },
        41 => { proof { reveal_strlit("j"); } "j" },
        42 => { proof { reveal_strlit("L"); } "L" },
        43 => { proof { reveal_strlit("5"); } "5" },
        44 => { proof { reveal_strlit("V"); } "V" },
        45 => { proof { reveal_strlit("G"); } "G" },
        46 => { proof { reveal_strlit("3"); } "3" },
        47 => { proof { reveal_strlit("g"); } "g" },
        48 => { proof { reveal_strlit("u"); } "u" },
        49 => { proof { reveal_strlit("M"); } "M" },
        50 => { proof { reveal_strlit("T"); } "T" },
        51 => { proof { reveal_strlit("K"); } "K" },
        52 => { proof { reveal_strlit("N"); } "N" },
        53 => { proof { reveal_strlit("P"); } "P" },
        54 => { proof { reveal_strlit("A"); } "A" },
        55 => { proof { reveal_strlit("w"); } "w" },
        56 => { proof { reveal_strlit("c"); } "c" },
        _ => { proof { reveal_strlit("F"); } "F" },
    }
}

} // verus!

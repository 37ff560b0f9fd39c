//! The BV transform itself.
//!
//! A number is obfuscated by a fixed XOR mask and a fixed additive offset,
//! written as six base-58 digits, and the digits are scattered over fixed
//! positions of the 10-character template `1??4?1?7??`.  Decoding reads the
//! six scattered positions, rebuilds the base-58 value, and undoes the
//! offset and the mask.

use vstd::prelude::*;
use vstd::arithmetic::div_mod::{
    lemma_div_denominator, lemma_div_pos_is_pos, lemma_fundamental_div_mod,
    lemma_mod_division_less_than_divisor, lemma_multiply_divide_lt, lemma_small_mod,
};
use crate::alphabet::{digit_of, digit_of_spec, lemma_digit_sym, lemma_sym_digit, sym, symbol_str};

verus! {

/// XOR mask applied to the number before digit extraction.
pub const XOR_MASK: u64 = 177451812;

/// Offset added to the masked number before digit extraction.
pub const ADD_OFFSET: u64 = 8728348608;

/// 58 to the sixth power: the number of values six base-58 digits can hold.
pub const CODE_SPACE: u64 = 38068692544;

/// The template position that receives the digit of weight 58^i.
pub open spec fn slot(i: int) -> int {
    if i == 0 { 9 }
    else if i == 1 { 8 }
    else if i == 2 { 1 }
    else if i == 3 { 6 }
    else if i == 4 { 2 }
    else { 4 }
}

/// 58 to the i-th power, for the six digit weights.
pub open spec fn weight(i: int) -> int {
    if i == 0 { 1 }
    else if i == 1 { 58 }
    else if i == 2 { 3364 }
    else if i == 3 { 195112 }
    else if i == 4 { 11316496 }
    else { 656356768 }
}

/// The obfuscated value whose base-58 digits are written into the code.
pub open spec fn obf(n: u64) -> int {
    (n ^ XOR_MASK) + ADD_OFFSET
}

/// The numbers the code format can carry: those whose obfuscated value
/// fits in six base-58 digits.
pub open spec fn in_domain(n: u64) -> bool {
    obf(n) < CODE_SPACE
}

/// Base-58 digit of weight 58^i of the value `t`.
pub open spec fn digit(t: int, i: int) -> int {
    (t / weight(i)) % 58
}

/// The character standing at position `p` of the code for `n`: a template
/// character at the four fixed positions, an alphabet symbol elsewhere.
pub open spec fn code_char(n: u64, p: int) -> char {
    if p == 0 { '1' }
    else if p == 3 { '4' }
    else if p == 5 { '1' }
    else if p == 7 { '7' }
    else if p == 9 { sym(digit(obf(n), 0)) }
    else if p == 8 { sym(digit(obf(n), 1)) }
    else if p == 1 { sym(digit(obf(n), 2)) }
    else if p == 6 { sym(digit(obf(n), 3)) }
    else if p == 2 { sym(digit(obf(n), 4)) }
    else { sym(digit(obf(n), 5)) }
}

/// The full 10-character code for `n`.
pub open spec fn encode_chars(n: u64) -> Seq<char> {
    Seq::new(10, |p: int| code_char(n, p))
}

/// A string decodes cleanly when it is long enough and each of the six
/// read positions holds an alphabet symbol.
pub open spec fn code_ok(s: Seq<char>) -> bool {
    &&& s.len() >= 10
    &&& digit_of_spec(s[9]).is_some()
    &&& digit_of_spec(s[8]).is_some()
    &&& digit_of_spec(s[1]).is_some()
    &&& digit_of_spec(s[6]).is_some()
    &&& digit_of_spec(s[2]).is_some()
    &&& digit_of_spec(s[4]).is_some()
}

/// Digit value read from the position of weight 58^i.
pub open spec fn dv(s: Seq<char>, i: int) -> int {
    digit_of_spec(s[slot(i)]).unwrap() as int
}

/// The base-58 value spelled by the six read positions.
pub open spec fn raw_sum(s: Seq<char>) -> int {
    dv(s, 0) + dv(s, 1) * 58 + dv(s, 2) * 3364 + dv(s, 3) * 195112 + dv(s, 4) * 11316496
        + dv(s, 5) * 656356768
}

/// The number a clean, non-underflowing code stands for.
pub open spec fn decode_val(s: Seq<char>) -> u64 {
    (((raw_sum(s) - ADD_OFFSET) as u64) ^ XOR_MASK)
}

/// Why a string failed to decode.
#[derive(Clone, Copy, Debug, PartialEq, Eq, Structural)]
pub enum DecodeError {
    /// The input has fewer than 10 characters, so a read position is
    /// out of bounds.
    MalformedLength,
    /// A read position holds a character outside the alphabet.
    InvalidSymbol,
    /// The digits sum below the additive offset, so no number maps to
    /// this code.
    Underflow,
}

/// Decode a BV code, reporting exactly why a bad input is rejected.
///
/// Only the six scattered digit positions are read; the template
/// characters are ignored, as long as the string is 10 characters long.
pub fn decode(code: &str) -> (r: Result<u64, DecodeError>)
    ensures
        r is Ok <==> code_ok(code@) && raw_sum(code@) >= ADD_OFFSET,
        code_ok(code@) && raw_sum(code@) >= ADD_OFFSET ==> r == Ok::<u64, DecodeError>(
            decode_val(code@),
        ),
        code@.len() < 10 ==> r == Err::<u64, DecodeError>(DecodeError::MalformedLength),
        code@.len() >= 10 && !code_ok(code@) ==> r == Err::<u64, DecodeError>(
            DecodeError::InvalidSymbol,
        ),
        code_ok(code@) && raw_sum(code@) < ADD_OFFSET ==> r == Err::<u64, DecodeError>(
            DecodeError::Underflow,
        ),
{
    let len = code.unicode_len();
    if len < 10 {
        return Err(DecodeError::MalformedLength);
    }
    let c0 = code.get_char(9);
    let c1 = code.get_char(8);
    let c2 = code.get_char(1);
    let c3 = code.get_char(6);
    let c4 = code.get_char(2);
    let c5 = code.get_char(4);
    let d0 = match digit_of(c0) {
        Some(d) => d,
        None => { return Err(DecodeError::InvalidSymbol); },
    };
    let d1 = match digit_of(c1) {
        Some(d) => d,
        None => { return Err(DecodeError::InvalidSymbol); },
    };
    let d2 = match digit_of(c2) {
        Some(d) => d,
        None => { return Err(DecodeError::InvalidSymbol); },
    };
    let d3 = match digit_of(c3) {
        Some(d) => d,
        None => { return Err(DecodeError::InvalidSymbol); },
    };
    let d4 = match digit_of(c4) {
        Some(d) => d,
        None => { return Err(DecodeError::InvalidSymbol); },
    };
    let d5 = match digit_of(c5) {
        Some(d) => d,
        None => { return Err(DecodeError::InvalidSymbol); },
    };
    proof {
        lemma_digit_sym(c0);
        lemma_digit_sym(c1);
        lemma_digit_sym(c2);
        lemma_digit_sym(c3);
        lemma_digit_sym(c4);
        lemma_digit_sym(c5);
    }
    let sum: u64 = d0 as u64 + d1 as u64 * 58 + d2 as u64 * 3364 + d3 as u64 * 195112
        + d4 as u64 * 11316496 + d5 as u64 * 656356768;
    proof {
        assert(sum == raw_sum(code@));
    }
    if sum < ADD_OFFSET {
        return Err(DecodeError::Underflow);
    }
    Ok((sum - ADD_OFFSET) ^ XOR_MASK)
}

/// Decode a BV code known to be clean.
///
/// This is the bare-result form of `decode`: it asks its caller for a
/// well-formed input and returns the number directly.
pub fn dec(code: &str) -> (n: u64)
    requires
        code_ok(code@),
        raw_sum(code@) >= ADD_OFFSET,
    ensures
        n == decode_val(code@),
{
    match decode(code) {
        Ok(n) => n,
        Err(_) => {
            proof {
                assert(false);
            }
            0
        },
    }
}

/// Encode a number known to lie in the valid domain.
///
/// The result always has exactly 10 characters and carries the fixed
/// template characters at the four positions no digit is written to.
pub fn enc(num: u64) -> (r: String)
    requires
        in_domain(num),
    ensures
        r@ == encode_chars(num),
        r@.len() == 10,
        r@[0] == '1',
        r@[3] == '4',
        r@[5] == '1',
        r@[7] == '7',
{
    let x = num ^ XOR_MASK;
    let t = x + ADD_OFFSET;
    let d0 = (t % 58) as u8;
    let t1 = t / 58;
    let d1 = (t1 % 58) as u8;
    let t2 = t1 / 58;
    let d2 = (t2 % 58) as u8;
    let t3 = t2 / 58;
    let d3 = (t3 % 58) as u8;
    let t4 = t3 / 58;
    let d4 = (t4 % 58) as u8;
    let t5 = t4 / 58;
    let d5 = (t5 % 58) as u8;
    proof {
        lemma_div_denominator(t as int, 58, 58);
        lemma_div_denominator(t as int, 3364, 58);
        lemma_div_denominator(t as int, 195112, 58);
        lemma_div_denominator(t as int, 11316496, 58);
        assert(d0 as int == digit(obf(num), 0));
        assert(d1 as int == digit(obf(num), 1));
        assert(d2 as int == digit(obf(num), 2));
        assert(d3 as int == digit(obf(num), 3));
        assert(d4 as int == digit(obf(num), 4));
        assert(d5 as int == digit(obf(num), 5));
        reveal_strlit("1");
        reveal_strlit("4");
        reveal_strlit("7");
    }
    let mut out = String::new();
    out.append("1");
    out.append(symbol_str(d2));
    out.append(symbol_str(d4));
    out.append("4");
    out.append(symbol_str(d5));
    out.append("1");
    out.append(symbol_str(d3));
    out.append("7");
    out.append(symbol_str(d1));
    out.append(symbol_str(d0));
    proof {
        assert(out@ =~= encode_chars(num));
    }
    out
}

/// Encode any number, rejecting those outside the valid domain instead
/// of overflowing: `Some` exactly on the valid domain.
pub fn encode(num: u64) -> (r: Option<String>)
    ensures
        r is Some <==> in_domain(num),
        in_domain(num) ==> r is Some && r.unwrap()@ == encode_chars(num),
{
    let x = num ^ XOR_MASK;
    if x >= CODE_SPACE - ADD_OFFSET {
        return None;
    }
    Some(enc(num))
}

/// The six digits of a value below 58^6, taken with their weights, give
/// the value back.
proof fn lemma_digits_reconstruct(t: int)
    requires
        0 <= t < CODE_SPACE,
    ensures
        digit(t, 0) + digit(t, 1) * 58 + digit(t, 2) * 3364 + digit(t, 3) * 195112 + digit(t, 4)
            * 11316496 + digit(t, 5) * 656356768 == t,
{
    let t1 = t / 58;
    let t2 = t / 3364;
    let t3 = t / 195112;
    let t4 = t / 11316496;
    let t5 = t / 656356768;
    lemma_div_denominator(t, 58, 58);
    lemma_div_denominator(t, 3364, 58);
    lemma_div_denominator(t, 195112, 58);
    lemma_div_denominator(t, 11316496, 58);
    lemma_fundamental_div_mod(t, 58);
    lemma_fundamental_div_mod(t1, 58);
    lemma_fundamental_div_mod(t2, 58);
    lemma_fundamental_div_mod(t3, 58);
    lemma_fundamental_div_mod(t4, 58);
    lemma_div_pos_is_pos(t, 656356768);
    lemma_multiply_divide_lt(t, 656356768, 58);
    lemma_small_mod(t5 as nat, 58);
}

/// XOR with the same mask twice gives the value back.
proof fn lemma_xor_cancel(a: u64, m: u64)
    ensures
        (a ^ m) ^ m == a,
{
    assert((a ^ m) ^ m == a) by (bit_vector);
}

/// Round trip: the code written for any in-domain number is clean, spells
/// the obfuscated value exactly, and decodes back to that same number;
/// re-encoding the decoded number rebuilds the same code.
pub proof fn lemma_round_trip(n: u64)
    requires
        in_domain(n),
    ensures
        code_ok(encode_chars(n)),
        raw_sum(encode_chars(n)) == obf(n),
        raw_sum(encode_chars(n)) >= ADD_OFFSET,
        decode_val(encode_chars(n)) == n,
        encode_chars(decode_val(encode_chars(n))) == encode_chars(n),
{
    let s = encode_chars(n);
    let t = obf(n);
    assert(0 <= t < CODE_SPACE);
    lemma_mod_division_less_than_divisor(t / weight(0), 58);
    lemma_mod_division_less_than_divisor(t / weight(1), 58);
    lemma_mod_division_less_than_divisor(t / weight(2), 58);
    lemma_mod_division_less_than_divisor(t / weight(3), 58);
    lemma_mod_division_less_than_divisor(t / weight(4), 58);
    lemma_mod_division_less_than_divisor(t / weight(5), 58);
    lemma_div_pos_is_pos(t, weight(0));
    lemma_div_pos_is_pos(t, weight(1));
    lemma_div_pos_is_pos(t, weight(2));
    lemma_div_pos_is_pos(t, weight(3));
    lemma_div_pos_is_pos(t, weight(4));
    lemma_div_pos_is_pos(t, weight(5));
    lemma_sym_digit(digit(t, 0));
    lemma_sym_digit(digit(t, 1));
    lemma_sym_digit(digit(t, 2));
    lemma_sym_digit(digit(t, 3));
    lemma_sym_digit(digit(t, 4));
    lemma_sym_digit(digit(t, 5));
    assert(s[9] == sym(digit(t, 0)));
    assert(s[8] == sym(digit(t, 1)));
    assert(s[1] == sym(digit(t, 2)));
    assert(s[6] == sym(digit(t, 3)));
    assert(s[2] == sym(digit(t, 4)));
    assert(s[4] == sym(digit(t, 5)));
    lemma_digits_reconstruct(t);
    assert(raw_sum(s) == t);
    lemma_xor_cancel(n, XOR_MASK);
}

/// Encoding is deterministic: the code is a pure function of the number,
/// so two encodings of the same number agree character for character.
pub proof fn lemma_enc_deterministic(n: u64, r1: Seq<char>, r2: Seq<char>)
    requires
        r1 == encode_chars(n),
        r2 == encode_chars(n),
    ensures
        r1 == r2,
{
}

/// Decoding is deterministic: the number is a pure function of the code,
/// so two decodings of the same code agree.
pub proof fn lemma_dec_deterministic(s: Seq<char>, n1: u64, n2: u64)
    requires
        n1 == decode_val(s),
        n2 == decode_val(s),
    ensures
        n1 == n2,
{
}

} // verus!

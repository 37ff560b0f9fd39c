//! Convertor for bilibili video identifiers.
//!
//! A video is named either by a plain number (the "AV number") or by a
//! 10-character code over a 58-symbol alphabet (the "BV code").  The two
//! forms are related by a fixed, reversible transform: the number is
//! obfuscated by a constant XOR and a constant additive offset, written in
//! base 58, and the six digits are scattered over fixed positions of a
//! 10-character template.  `enc` and `dec` (and the checked variants
//! `encode` and `decode`) are exact inverses over the valid domain.

use vstd::prelude::*;

mod alphabet;
mod codec;
mod decimal;

pub use alphabet::{digit_of_spec, sym};
pub use codec::{
    code_char, code_ok, dec, decode, decode_val, dv, digit, enc, encode, encode_chars, in_domain,
    lemma_dec_deterministic, lemma_enc_deterministic, lemma_round_trip, obf, raw_sum, slot,
    weight, DecodeError, ADD_OFFSET, CODE_SPACE, XOR_MASK,
};
pub use decimal::{dec_chars, dec_digit_char, u64_dec_str};

verus! {

/// A plain numeric video identifier ("AV number").
#[derive(Copy, Clone, Debug)]
pub struct BiliAv(pub u64);

/// A 10-character obfuscated video identifier ("BV code"), held without
/// its `bv` prefix.
#[derive(Clone, Debug)]
pub struct BiliBv(pub String);

/// The display form of an AV number: the number in decimal behind `av`.
pub open spec fn av_display(n: u64) -> Seq<char> {
    seq!['a', 'v'] + dec_chars(n as nat)
}

/// The display form of a BV code: its characters behind `bv`.
pub open spec fn bv_display(code: Seq<char>) -> Seq<char> {
    seq!['b', 'v'] + code
}

impl BiliAv {
    /// The AV number itself.
    pub fn get(&self) -> (n: u64)
        ensures
            n == self.0,
    {
        self.0
    }

    /// Encode this number as a BV code.
    pub fn enc(&self) -> (r: BiliBv)
        requires
            in_domain(self.0),
        ensures
            r.0@ == encode_chars(self.0),
    {
        BiliBv(enc(self.0))
    }

    /// The display form, with the `av` prefix.
    pub fn display(&self) -> (r: String)
        ensures
            r@ == av_display(self.0),
    {
        proof {
            reveal_strlit("av");
        }
        let mut out = "av".to_owned();
        let num = u64_dec_str(self.0);
        out.append(num.as_str());
        proof {
            assert(out@ =~= av_display(self.0));
        }
        out
    }
}

impl BiliBv {
    /// The BV code itself, without any prefix.
    pub fn get(&self) -> (r: &str)
        ensures
            r@ == self.0@,
    {
        self.0.as_str()
    }

    /// Decode this code back to its AV number.
    pub fn dec(&self) -> (r: BiliAv)
        requires
            code_ok(self.0@),
            raw_sum(self.0@) >= ADD_OFFSET,
        ensures
            r.0 == decode_val(self.0@),
    {
        BiliAv(dec(self.0.as_str()))
    }

    /// The display form, with the `bv` prefix.
    pub fn display(&self) -> (r: String)
        ensures
            r@ == bv_display(self.0@),
    {
        proof {
            reveal_strlit("bv");
        }
        let mut out = "bv".to_owned();
        out.append(self.0.as_str());
        proof {
            assert(out@ =~= bv_display(self.0@));
        }
        out
    }
}

impl From<u64> for BiliAv {
    /// Wrap a number as an AV identifier.
    fn from(av_num: u64) -> (r: BiliAv) {
        BiliAv(av_num)
    }
}

impl vstd::std_specs::convert::FromSpecImpl<u64> for BiliAv {
    open spec fn obeys_from_spec() -> bool {
        true
    }

    open spec fn from_spec(av_num: u64) -> BiliAv {
        BiliAv(av_num)
    }
}

impl<'a> From<&'a str> for BiliBv {
    /// Wrap a code as a BV identifier, copying the characters.
    fn from(code: &'a str) -> (r: BiliBv)
        ensures
            r.0@ == code@,
    {
        BiliBv(code.to_owned())
    }
}

impl<'a> vstd::std_specs::convert::FromSpecImpl<&'a str> for BiliBv {
    open spec fn obeys_from_spec() -> bool {
        false
    }

    open spec fn from_spec(code: &'a str) -> BiliBv {
        arbitrary()
    }
}

} // verus!

//! Decimal rendering of a number, used by the display forms of the two
//! identifier types.

use vstd::prelude::*;

verus! {

/// The decimal digit character for a value below ten.
pub open spec fn dec_digit_char(d: int) -> char {
    if d == 0 { '0' }
    else if d == 1 { '1' }
    else if d == 2 { '2' }
    else if d == 3 { '3' }
    else if d == 4 { '4' }
    else if d == 5 { '5' }
    else if d == 6 { '6' }
    else if d == 7 { '7' }
    else if d == 8 { '8' }
    else { '9' }
}

/// The decimal writing of `n`, most significant digit first, without
/// leading zeros (zero is written as the single character `0`).
pub open spec fn dec_chars(n: nat) -> Seq<char>
    decreases n,
{
    if n < 10 {
        seq![dec_digit_char(n as int)]
    } else {
        dec_chars(n / 10).push(dec_digit_char((n % 10) as int))
    }
}

/// The characters of the digit values `ds`, read back to front.
pub open spec fn rev_chars(ds: Seq<u64>) -> Seq<char> {
    Seq::new(ds.len(), |j: int| dec_digit_char(ds[ds.len() - 1 - j] as int))
}

/// Reading a digit list back to front after a push starts with the
/// pushed digit.
proof fn lemma_rev_push(ds: Seq<u64>, d: u64)
    ensures
        rev_chars(ds.push(d)) =~= seq![dec_digit_char(d as int)] + rev_chars(ds),
{
}

/// The decimal digit character for a value below ten, as a one-character
/// string slice.
fn dec_digit_str(d: u64) -> (r: &'static str)
    requires
        d < 10,
    ensures
        r@.len() == 1,
        r@[0] == dec_digit_char(d as int),
{
    match d {
        0 => { proof { reveal_strlit("0"); } "0" },
        1 => { proof { reveal_strlit("1"); } "1" },
        2 => { proof { reveal_strlit("2"); } "2" },
        3 => { proof { reveal_strlit("3"); } "3" },
        4 => { proof { reveal_strlit("4"); } "4" },
        5 => { proof { reveal_strlit("5"); } "5" },
        6 => { proof { reveal_strlit("6"); } "6" },
        7 => { proof { reveal_strlit("7"); } "7" },
        8 => { proof { reveal_strlit("8"); } "8" },
        _ => { proof { reveal_strlit("9"); } "9" },
    }
}

/// Write `n` in decimal.
pub fn u64_dec_str(n: u64) -> (r: String)
    ensures
        r@ == dec_chars(n as nat),
{
    let mut digs: Vec<u64> = Vec::new();
    let mut m: u64 = n;
    digs.push(m % 10);
    proof {
        lemma_rev_push(Seq::<u64>::empty(), n % 10);
        if n < 10 {
            assert(dec_chars(n as nat) =~= rev_chars(digs@));
        } else {
            assert(dec_chars(n as nat) =~= dec_chars((n / 10) as nat) + rev_chars(digs@));
        }
    }
    m = m / 10;
    while m > 0
        invariant
            forall|j: int| 0 <= j < digs@.len() ==> #[trigger] digs@[j] < 10,
            digs@.len() >= 1,
            m == 0 ==> dec_chars(n as nat) == rev_chars(digs@),
            m > 0 ==> dec_chars(n as nat) == dec_chars(m as nat) + rev_chars(digs@),
        decreases m,
    {
        let ghost prev = digs@;
        let ghost pm = m as nat;
        digs.push(m % 10);
        proof {
            lemma_rev_push(prev, m % 10);
            if m < 10 {
                assert(dec_chars(pm) =~= seq![dec_digit_char((m % 10) as int)]);
                assert(dec_chars(n as nat) =~= rev_chars(digs@));
            } else {
                assert(dec_chars(pm) =~= dec_chars(pm / 10) + seq![
                    dec_digit_char((m % 10) as int),
                ]);
                assert(dec_chars(n as nat) =~= dec_chars(pm / 10) + rev_chars(digs@));
            }
        }
        m = m / 10;
    }
    let mut out = String::new();
    let mut i: usize = digs.len();
    while i > 0
        invariant
            i <= digs@.len(),
            forall|j: int| 0 <= j < digs@.len() ==> #[trigger] digs@[j] < 10,
            dec_chars(n as nat) == rev_chars(digs@),
            out@ == rev_chars(digs@).take(digs@.len() - i),
        decreases i,
    {
        i = i - 1;
        let ghost k = digs@.len() - i - 1;
        out.append(dec_digit_str(digs[i]));
        proof {
            assert(rev_chars(digs@).take(k + 1) =~= rev_chars(digs@).take(k).push(
                dec_digit_char(digs@[i as int] as int),
            ));
        }
    }
    proof {
        assert(rev_chars(digs@).take(digs@.len() as int) =~= rev_chars(digs@));
    }
    out
}

} // verus!

//! Decimal rendering of the integers that appear in the wire format: status
//! codes, timestamps, and the two halves of a cost value.

use vstd::prelude::*;

verus! {

/// Decimal digits of `n`, most significant first, as ASCII bytes.
pub open spec fn dec_digits(n: nat) -> Seq<u8>
    decreases n,
{
    if n < 10 {
        seq![(0x30 + n) as u8]
    } else {
        dec_digits(n / 10).push((0x30 + n % 10) as u8)
    }
}

/// Decimal rendering of a signed value: a minus sign before the digits of its
/// magnitude when it is negative.
pub open spec fn dec_digits_i64(n: i64) -> Seq<u8> {
    if n >= 0 {
        dec_digits(n as nat)
    } else {
        seq![0x2du8] + dec_digits((-(n as int)) as nat)
    }
}

/// `10^k`.
pub open spec fn pow10(k: nat) -> nat
    decreases k,
{
    if k == 0 {
        1
    } else {
        10 * pow10((k - 1) as nat)
    }
}

/// The nine-digit, zero-padded decimal rendering of the fractional part of a
/// cost: digit `i` is the coefficient of `10^(8-i)` nanoseconds.
pub open spec fn frac9_digits(n: u32) -> Seq<u8> {
    Seq::new(9, |i: int| (0x30 + (n as nat / pow10((8 - i) as nat)) % 10) as u8)
}

/// A power of ten is positive.
pub proof fn lemma_pow10_pos(k: nat)
    ensures
        pow10(k) >= 1,
    decreases k,
{
    if k > 0 {
        lemma_pow10_pos((k - 1) as nat);
    }
}

/// Appends the decimal digits of `n` to `out`.
pub fn push_dec_u64(n: u64, out: &mut Vec<u8>)
    ensures
        final(out)@ == old(out)@ + dec_digits(n as nat),
    decreases n,
{
    if n < 10 {
        out.push(0x30 + n as u8);
    } else {
        push_dec_u64(n / 10, out);
        out.push(0x30 + (n % 10) as u8);
    }
}

/// Appends the decimal rendering of the signed value `n` to `out`.
pub fn push_dec_i64(n: i64, out: &mut Vec<u8>)
    ensures
        final(out)@ == old(out)@ + dec_digits_i64(n),
{
    if n >= 0 {
        push_dec_u64(n as u64, out);
    } else {
        out.push(0x2d);
        let m: i128 = -(n as i128);
        assert(m == -(n as int));
        push_dec_u64(m as u64, out);
    }
}

/// Appends the nine zero-padded fractional digits of `n` to `out`.
pub fn push_frac9(n: u32, out: &mut Vec<u8>)
    ensures
        final(out)@ == old(out)@ + frac9_digits(n),
{
    let ghost start = out@;
    let mut p: u64 = 100_000_000;
    let mut i: usize = 0;
    proof {
        reveal_with_fuel(pow10, 9);
        assert(pow10(8) == 100_000_000);
    }
    while i < 9
        invariant
            0 <= i <= 9,
            i < 9 ==> p as nat == pow10((8 - i) as nat),
            out@ == start + frac9_digits(n).take(i as int),
        decreases 9 - i,
    {
        proof {
            lemma_pow10_pos((8 - i) as nat);
        }
        let d: u64 = (n as u64 / p) % 10;
        out.push(0x30 + d as u8);
        proof {
            assert(frac9_digits(n).take(i + 1) =~= frac9_digits(n).take(i as int).push(
                frac9_digits(n)[i as int],
            ));
            assert(frac9_digits(n)[i as int] == (0x30 + d) as u8);
        }
        if i < 8 {
            proof {
                assert(pow10((8 - i) as nat) == 10 * pow10((7 - i) as nat));
                assert((10 * pow10((7 - i) as nat)) / 10 == pow10((7 - i) as nat)) by (nonlinear_arith);
            }
            p = p / 10;
        }
        i = i + 1;
    }
    proof {
        assert(frac9_digits(n).take(9) =~= frac9_digits(n));
    }
}

} // verus!

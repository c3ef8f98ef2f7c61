//! Splitting a time component into decimal digits, and a digit into bits.

use vstd::arithmetic::div_mod::lemma_div_denominator;
use vstd::arithmetic::div_mod::lemma_mod_breakdown;
use vstd::arithmetic::power2::lemma_pow2_pos;
use vstd::arithmetic::power2::lemma_pow2_unfold;
use vstd::arithmetic::power2::pow2;
use vstd::prelude::*;

verus! {

/// Bit `b` of `d`: the binary digit worth `2^b`.
pub open spec fn bit_at(d: nat, b: nat) -> bool {
    (d / pow2(b)) % 2 == 1
}

/// The `w` low bits of `d`, least significant first.
pub open spec fn bits_of(d: nat, w: nat) -> Seq<bool> {
    Seq::new(w, |b: int| bit_at(d, b as nat))
}

/// The number that a sequence of bits, least significant first, stands for.
pub open spec fn from_bits(s: Seq<bool>) -> nat
    decreases s.len(),
{
    if s.len() == 0 {
        0
    } else {
        from_bits(s.drop_last()) + if s.last() {
            pow2((s.len() - 1) as nat)
        } else {
            0
        }
    }
}

/// Splits `value` into its tens digit and its ones digit.
pub fn decompose(value: u32) -> (r: (u8, u8))
    requires
        value < 60,
    ensures
        r.0 == value / 10,
        r.1 == value % 10,
        r.0 * 10 + r.1 == value,
        r.0 <= 5,
        r.1 <= 9,
        value < 24 ==> r.0 <= 2,
{
    let ones = value % 10;
    let tens = (value - ones) / 10;
    (tens as u8, ones as u8)
}

/// The `width` low bits of `digit`, least significant first.
pub fn digit_bits(digit: u8, width: u8) -> (r: Vec<bool>)
    ensures
        r@ == bits_of(digit as nat, width as nat),
{
    let mut r: Vec<bool> = Vec::new();
    let mut rest: u8 = digit;
    let mut b: u8 = 0;
    proof {
        vstd::arithmetic::power2::lemma2_to64();
    }
    while b < width
        invariant
            b <= width,
            r@ == bits_of(digit as nat, b as nat),
            rest as nat == digit as nat / pow2(b as nat),
        decreases width - b,
    {
        proof {
            lemma_pow2_pos(b as nat);
            lemma_pow2_unfold((b + 1) as nat);
            lemma_div_denominator(digit as int, pow2(b as nat) as int, 2);
        }
        r.push(rest % 2 == 1);
        rest = rest / 2;
        b = b + 1;
        assert(r@ =~= bits_of(digit as nat, b as nat));
    }
    r
}

/// Reading the `w` low bits of `d` back as a number gives `d` modulo `2^w`.
pub proof fn lemma_from_bits_of(d: nat, w: nat)
    ensures
        from_bits(bits_of(d, w)) == d % pow2(w),
    decreases w,
{
    if w == 0 {
        assert(pow2(0) == 1) by {
            vstd::arithmetic::power2::lemma2_to64();
        }
    } else {
        let p = pow2((w - 1) as nat);
        lemma_pow2_pos((w - 1) as nat);
        lemma_pow2_unfold(w);
        lemma_from_bits_of(d, (w - 1) as nat);
        assert(bits_of(d, w).drop_last() =~= bits_of(d, (w - 1) as nat));
        lemma_mod_breakdown(d as int, p as int, 2);
    }
}

/// A decimal digit survives the round trip through four or more bits.
pub proof fn lemma_digit_bits_round_trip(d: nat, w: nat)
    requires
        d <= 9,
        w >= 4,
    ensures
        from_bits(bits_of(d, w)) == d,
{
    lemma_from_bits_of(d, w);
    assert(pow2(4) == 16) by {
        vstd::arithmetic::power2::lemma2_to64();
    }
    if w > 4 {
        vstd::arithmetic::power2::lemma_pow2_strictly_increases(4, w);
    }
    vstd::arithmetic::div_mod::lemma_small_mod(d, pow2(w));
}

} // verus!

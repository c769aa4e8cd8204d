//! The score codec: maps the 64-bit IEEE-754 bit pattern of a finite score
//! to a fixed-width, lowercase hexadecimal token whose lexicographic order
//! agrees with the numeric order of the scores. Scores reach this crate as
//! their raw bit patterns (`f64::to_bits`); the numeric order of finite
//! doubles is expressed on those bits by `float_bits_lt` below.

use vstd::prelude::*;
use crate::decimal::digit_char;

verus! {

/// The IEEE-754 double sign bit.
pub const SIGN_MASK: u64 = 0x8000_0000_0000_0000;

/// The bit pattern is a finite double: the exponent field is not all ones
/// (all-ones exponents are the infinities and NaNs).
pub open spec fn is_finite_bits(u: u64) -> bool {
    (u >> 52) & 0x7ff != 0x7ff
}

/// Exec test matching `is_finite_bits`.
pub fn check_finite_bits(u: u64) -> (r: bool)
    ensures
        r == is_finite_bits(u),
{
    (u >> 52) & 0x7ff != 0x7ff
}

/// The order-preserving transform: a non-negative pattern (sign bit clear)
/// has its sign bit set; a negative pattern has all bits flipped.
pub open spec fn flip_bits(u: u64) -> u64 {
    if u & SIGN_MASK == 0 {
        u ^ SIGN_MASK
    } else {
        u ^ 0xffff_ffff_ffff_ffff
    }
}

/// Numeric order of finite doubles, stated on their bit patterns: two
/// non-negative doubles compare as their bit patterns do; two negative
/// doubles compare as their magnitude bits do, reversed; a negative double
/// is below a non-negative one. This is the IEEE-754 total order on finite
/// values, under which -0 sorts strictly below +0.
pub open spec fn float_bits_lt(a: u64, b: u64) -> bool {
    if a & SIGN_MASK != 0 && b & SIGN_MASK != 0 {
        b & 0x7fff_ffff_ffff_ffff < a & 0x7fff_ffff_ffff_ffff
    } else if a & SIGN_MASK != 0 {
        true
    } else if b & SIGN_MASK != 0 {
        false
    } else {
        a < b
    }
}

/// The transform turns the numeric order into plain unsigned order.
pub proof fn lemma_flip_order(a: u64, b: u64)
    by (bit_vector)
    ensures
        float_bits_lt(a, b) <==> flip_bits(a) < flip_bits(b),
{
}

/// The low `4 * w` bits of `u`, rendered as `w` lowercase hex digits,
/// most significant nibble first.
pub open spec fn hex_low(u: u64, w: nat) -> Seq<char>
    decreases w,
{
    if w == 0 || w > 16 {
        Seq::empty()
    } else {
        let k = (w - 1) as nat;
        seq![digit_char((((u >> ((4 * k) as u64)) & 0xf) as nat))] + hex_low(
            (u & (((1u64 << ((4 * k) as u64)) - 1) as u64)) as u64,
            k,
        )
    }
}

/// All 64 bits of `u` as 16 hex digits.
pub open spec fn hex16_of(u: u64) -> Seq<char> {
    hex_low(u, 16)
}

/// The score token of a bit pattern: width-16 hex of the transformed bits.
pub open spec fn score_token(bits: u64) -> Seq<char> {
    hex16_of(flip_bits(bits))
}

/// Strict lexicographic order on character sequences, by code point; on the
/// ASCII tokens this codec emits it coincides with byte-wise string order.
pub open spec fn lex_lt(a: Seq<char>, b: Seq<char>) -> bool
    decreases a.len(),
{
    if b.len() == 0 {
        false
    } else if a.len() == 0 {
        true
    } else if (a[0] as int) < (b[0] as int) {
        true
    } else if a[0] == b[0] {
        lex_lt(a.drop_first(), b.drop_first())
    } else {
        false
    }
}

pub proof fn lemma_lex_irrefl(s: Seq<char>)
    ensures
        !lex_lt(s, s),
    decreases s.len(),
{
    if s.len() > 0 {
        lemma_lex_irrefl(s.drop_first());
    }
}

pub proof fn lemma_lex_asym(s: Seq<char>, t: Seq<char>)
    ensures
        lex_lt(s, t) ==> !lex_lt(t, s),
    decreases s.len(),
{
    if s.len() > 0 && t.len() > 0 {
        lemma_lex_asym(s.drop_first(), t.drop_first());
    }
}

/// The hex rendering has exactly the asked-for width.
pub proof fn lemma_hex_low_len(u: u64, w: nat)
    requires
        w <= 16,
    ensures
        hex_low(u, w).len() == w,
    decreases w,
{
    if w > 0 {
        let k = (w - 1) as nat;
        lemma_hex_low_len((u & (((1u64 << ((4 * k) as u64)) - 1) as u64)) as u64, k);
    }
}

/// Digit characters order as their values do.
pub proof fn lemma_digit_char_mono(d1: nat, d2: nat)
    requires
        d1 < d2 < 16,
    ensures
        (digit_char(d1) as int) < (digit_char(d2) as int),
{
}

/// Fixed-width hex rendering is strictly monotone: a smaller value gives a
/// lexicographically smaller digit string.
pub proof fn lemma_hex_low_mono(a: u64, b: u64, w: nat)
    requires
        w <= 16,
        a < b,
        w < 16 ==> b < (1u64 << ((4 * w) as u64)),
    ensures
        lex_lt(hex_low(a, w), hex_low(b, w)),
    decreases w,
{
    if w == 0 {
        assert(b < 1u64 << 0u64);
        assert(1u64 << 0u64 == 1) by (bit_vector);
        assert(false);
    } else {
        let k = (w - 1) as nat;
        let ku = (4 * k) as u64;
        assert(ku == 4 * k && ku <= 60);
        let na = (a >> ku) & 0xf;
        let nb = (b >> ku) & 0xf;
        let mask = ((1u64 << ku) - 1) as u64;
        let a2 = (a & mask) as u64;
        let b2 = (b & mask) as u64;
        let sa = hex_low(a, w);
        let sb = hex_low(b, w);
        assert(sa == seq![digit_char((na as nat))] + hex_low(a2, k));
        assert(sb == seq![digit_char((nb as nat))] + hex_low(b2, k));
        lemma_hex_low_len(a2, k);
        lemma_hex_low_len(b2, k);
        assert(sa.len() == w && sb.len() == w);
        assert(sa[0] == digit_char(na as nat));
        assert(sb[0] == digit_char(nb as nat));
        assert(w < 16 ==> ku < 60 && (4 * w) as u64 == ku + 4);
        assert(na <= nb && na < 16 && nb < 16) by (bit_vector)
            requires
                a < b,
                ku <= 60,
                na == (a >> ku) & 0xf,
                nb == (b >> ku) & 0xf,
                ku < 60 ==> b < (1u64 << ((ku + 4) as u64)),
        ;
        if na < nb {
            lemma_digit_char_mono(na as nat, nb as nat);
            assert((sa[0] as int) < (sb[0] as int));
        } else {
            assert(na == nb);
            assert(a2 < b2 && b2 < (1u64 << ku)) by (bit_vector)
                requires
                    a < b,
                    ku <= 60,
                    na == (a >> ku) & 0xf,
                    nb == (b >> ku) & 0xf,
                    na == nb,
                    mask == ((1u64 << ku) - 1) as u64,
                    a2 == (a & mask) as u64,
                    b2 == (b & mask) as u64,
                    ku < 60 ==> b < (1u64 << ((ku + 4) as u64)),
            ;
            lemma_hex_low_mono(a2, b2, k);
            assert(sa[0] == sb[0]);
            assert(sa.drop_first() =~= hex_low(a2, k));
            assert(sb.drop_first() =~= hex_low(b2, k));
        }
    }
}

/// Equal values give equal hex renderings; with monotonicity and asymmetry
/// this yields the full equivalence below.
pub proof fn lemma_hex16_order(a: u64, b: u64)
    ensures
        a < b <==> lex_lt(hex16_of(a), hex16_of(b)),
{
    if a < b {
        lemma_hex_low_mono(a, b, 16);
    } else if a == b {
        lemma_lex_irrefl(hex16_of(a));
    } else {
        lemma_hex_low_mono(b, a, 16);
        lemma_lex_asym(hex16_of(b), hex16_of(a));
    }
}

/// Score codec monotonicity: two scores compare numerically exactly as
/// their tokens compare lexicographically. Stated for all bit patterns;
/// on finite doubles `float_bits_lt` is the numeric order (with -0 below
/// +0 by total order).
pub proof fn lemma_score_token_monotone(a_bits: u64, b_bits: u64)
    ensures
        float_bits_lt(a_bits, b_bits) <==> lex_lt(score_token(a_bits), score_token(b_bits)),
{
    lemma_flip_order(a_bits, b_bits);
    lemma_hex16_order(flip_bits(a_bits), flip_bits(b_bits));
}

/// Score codec width: every token is exactly 16 characters.
pub proof fn lemma_score_token_width(bits: u64)
    ensures
        score_token(bits).len() == 16,
{
    lemma_hex_low_len(flip_bits(bits), 16);
}

/// Renders the low `4 * w` bits of `u` as `w` hex digits.
fn hex_low_str(u: u64, w: usize) -> (s: String)
    requires
        w <= 16,
    ensures
        s@ == hex_low(u, w as nat),
    decreases w,
{
    if w == 0 {
        String::new()
    } else {
        let k = w - 1;
        let shift = (4 * k) as u64;
        let d = ((u >> shift) & 0xf) as u8;
        proof {
            assert((u >> shift) & 0xf < 16) by (bit_vector);
            assert(1u64 << shift >= 1) by (bit_vector)
                requires
                    shift <= 60,
            ;
        }
        let mask = (1u64 << shift) - 1;
        let mut s = digit_str(d).to_owned();
        let rest = hex_low_str(u & mask, k);
        s.append(rest.as_str());
        proof {
            assert(s@ =~= seq![digit_char(d as nat)] + hex_low((u & mask) as u64, k as nat));
        }
        s
    }
}

use crate::decimal::digit_str;

/// Encodes a score's bit pattern as its 16-character token.
pub fn encode_score_bits(bits: u64) -> (s: String)
    ensures
        s@ == score_token(bits),
        s@.len() == 16,
{
    let flipped = if bits & SIGN_MASK == 0 {
        bits ^ SIGN_MASK
    } else {
        bits ^ 0xffff_ffff_ffff_ffff
    };
    proof {
        lemma_score_token_width(bits);
    }
    hex_low_str(flipped, 16)
}

} // verus!

//! Decimal rendering and parsing of unsigned integers, used by the key
//! builder (day and timestamp segments) and by the storage-item decoder.
//! Rendering and parsing are proved to be inverse to each other.

use vstd::prelude::*;

verus! {

/// The character for one digit value below 16 (decimal digits use the
/// first ten; the score codec reuses the same table for hexadecimal).
pub open spec fn digit_char(d: nat) -> char {
    if d == 0 {
        '0'
    } else if d == 1 {
        '1'
    } else if d == 2 {
        '2'
    } else if d == 3 {
        '3'
    } else if d == 4 {
        '4'
    } else if d == 5 {
        '5'
    } else if d == 6 {
        '6'
    } else if d == 7 {
        '7'
    } else if d == 8 {
        '8'
    } else if d == 9 {
        '9'
    } else if d == 10 {
        'a'
    } else if d == 11 {
        'b'
    } else if d == 12 {
        'c'
    } else if d == 13 {
        'd'
    } else if d == 14 {
        'e'
    } else {
        'f'
    }
}

pub open spec fn is_dec_digit(c: char) -> bool {
    48 <= (c as int) && (c as int) <= 57
}

pub open spec fn digit_val(c: char) -> nat {
    ((c as int) - 48) as nat
}

/// Digit characters below 10 are decimal digits and carry their value.
pub proof fn lemma_digit_char_val(d: nat)
    requires
        d < 10,
    ensures
        is_dec_digit(digit_char(d)),
        digit_val(digit_char(d)) == d,
{
}

/// The decimal rendering of a natural number, most significant digit first,
/// with no sign and no leading zero (a lone zero for 0).
pub open spec fn dec_of(n: nat) -> Seq<char>
    decreases n,
{
    if n < 10 {
        seq![digit_char(n)]
    } else {
        dec_of(n / 10).push(digit_char(n % 10))
    }
}

pub open spec fn all_dec_digits(s: Seq<char>) -> bool {
    forall|i: int| 0 <= i < s.len() ==> is_dec_digit(#[trigger] s[i])
}

/// A parsable decimal numeral: at least one character, all decimal digits.
pub open spec fn valid_dec(s: Seq<char>) -> bool {
    s.len() >= 1 && all_dec_digits(s)
}

/// The value of a digit string, read most significant digit first.
pub open spec fn dec_val(s: Seq<char>) -> nat
    decreases s.len(),
{
    if s.len() == 0 {
        0
    } else {
        dec_val(s.drop_last()) * 10 + digit_val(s.last())
    }
}

/// A rendered number is a parsable numeral.
pub proof fn lemma_dec_of_valid(n: nat)
    ensures
        valid_dec(dec_of(n)),
        dec_of(n).len() >= 1,
    decreases n,
{
    if n < 10 {
        lemma_digit_char_val(n);
    } else {
        lemma_dec_of_valid(n / 10);
        lemma_digit_char_val(n % 10);
        assert forall|i: int| 0 <= i < dec_of(n).len() implies is_dec_digit(
            #[trigger] dec_of(n)[i],
        ) by {
            if i < dec_of(n / 10).len() {
                assert(dec_of(n)[i] == dec_of(n / 10)[i]);
            }
        }
    }
}

/// Parsing a rendered number gives the number back.
pub proof fn lemma_dec_round_trip(n: nat)
    ensures
        dec_val(dec_of(n)) == n,
    decreases n,
{
    if n < 10 {
        lemma_digit_char_val(n);
        let s = dec_of(n);
        assert(s.drop_last() =~= Seq::<char>::empty());
        assert(s.last() == digit_char(n));
        assert(dec_val(s) == dec_val(s.drop_last()) * 10 + digit_val(s.last()));
        assert(dec_val(s.drop_last()) == 0);
    } else {
        lemma_dec_round_trip(n / 10);
        lemma_digit_char_val(n % 10);
        let s = dec_of(n);
        assert(s.drop_last() =~= dec_of(n / 10));
        assert(s.last() == digit_char(n % 10));
        assert(s.len() > 0);
        assert(dec_val(s) == dec_val(s.drop_last()) * 10 + digit_val(s.last()));
        assert(dec_val(s) == (n / 10) * 10 + n % 10);
        vstd::arithmetic::div_mod::lemma_fundamental_div_mod(n as int, 10);
        assert(n == 10 * (n / 10) + n % 10);
    }
}

/// Renders one digit value below 16 as a one-character string slice.
pub fn digit_str(d: u8) -> (r: &'static str)
    requires
        d < 16,
    ensures
        r@ == seq![digit_char(d as nat)],
{
    proof {
        reveal_strlit("0");
        reveal_strlit("1");
        reveal_strlit("2");
        reveal_strlit("3");
        reveal_strlit("4");
        reveal_strlit("5");
        reveal_strlit("6");
        reveal_strlit("7");
        reveal_strlit("8");
        reveal_strlit("9");
        reveal_strlit("a");
        reveal_strlit("b");
        reveal_strlit("c");
        reveal_strlit("d");
        reveal_strlit("e");
        reveal_strlit("f");
    }
    match d {
        0 => "0",
        1 => "1",
        2 => "2",
        3 => "3",
        4 => "4",
        5 => "5",
        6 => "6",
        7 => "7",
        8 => "8",
        9 => "9",
        10 => "a",
        11 => "b",
        12 => "c",
        13 => "d",
        14 => "e",
        _ => "f",
    }
}

/// Renders a number in decimal, matching `dec_of`.
pub fn u128_to_dec(n: u128) -> (s: String)
    ensures
        s@ == dec_of(n as nat),
    decreases n,
{
    if n < 10 {
        let s = digit_str(n as u8).to_owned();
        s
    } else {
        proof {
            assert(n / 10 < n) by (nonlinear_arith)
                requires
                    n >= 10,
            ;
        }
        let mut s = u128_to_dec(n / 10);
        s.append(digit_str((n % 10) as u8));
        proof {
            assert(dec_of((n / 10) as nat).push(digit_char((n % 10) as nat)) =~= dec_of(
                (n / 10) as nat,
            ) + seq![digit_char((n % 10) as nat)]);
            assert((n as nat) / 10 == (n / 10) as nat);
            assert((n as nat) % 10 == (n % 10) as nat);
        }
        s
    }
}

/// The value of one decimal digit character, or `None` for any other char.
fn char_digit_val(c: char) -> (r: Option<u8>)
    ensures
        match r {
            Some(v) => is_dec_digit(c) && v as nat == digit_val(c) && v < 10,
            None => !is_dec_digit(c),
        },
{
    match c {
        '0' => Some(0),
        '1' => Some(1),
        '2' => Some(2),
        '3' => Some(3),
        '4' => Some(4),
        '5' => Some(5),
        '6' => Some(6),
        '7' => Some(7),
        '8' => Some(8),
        '9' => Some(9),
        _ => None,
    }
}

/// Appending digits to a numeral never decreases its value.
proof fn lemma_dec_val_prefix_le(s: Seq<char>, j: int)
    requires
        0 <= j <= s.len(),
    ensures
        dec_val(s.subrange(0, j)) <= dec_val(s),
    decreases s.len() - j,
{
    if j == s.len() {
        assert(s.subrange(0, j) =~= s);
    } else {
        lemma_dec_val_prefix_le(s, j + 1);
        let t = s.subrange(0, j + 1);
        assert(t.drop_last() =~= s.subrange(0, j));
        assert(dec_val(s.subrange(0, j)) * 10 >= dec_val(s.subrange(0, j))) by (nonlinear_arith);
    }
}

/// Parses a decimal numeral. Returns the value exactly when the string is a
/// nonempty all-digit numeral whose value fits in the result type.
pub fn parse_u128(s: &str) -> (r: Option<u128>)
    ensures
        match r {
            Some(v) => valid_dec(s@) && v as nat == dec_val(s@),
            None => !valid_dec(s@) || dec_val(s@) > u128::MAX,
        },
{
    let len = s.unicode_len();
    if len == 0 {
        return None;
    }
    let mut v: u128 = 0;
    let mut i: usize = 0;
    while i < len
        invariant
            0 < len == s@.len(),
            0 <= i <= len,
            all_dec_digits(s@.subrange(0, i as int)),
            v as nat == dec_val(s@.subrange(0, i as int)),
        decreases len - i,
    {
        let c = s.get_char(i);
        let d = match char_digit_val(c) {
            Some(d) => d,
            None => {
                return None;
            },
        };
        let limit = (u128::MAX - d as u128) / 10;
        if v > limit {
            proof {
                let p = s@.subrange(0, i as int + 1);
                assert(p.drop_last() =~= s@.subrange(0, i as int));
                assert(dec_val(p) == v as nat * 10 + d as nat);
                vstd::arithmetic::div_mod::lemma_fundamental_div_mod(
                    (u128::MAX - d as u128) as int,
                    10,
                );
                assert(v as nat * 10 > (u128::MAX - d as u128) as nat) by (nonlinear_arith)
                    requires
                        v as nat > ((u128::MAX - d as u128) / 10) as nat,
                        10 * (((u128::MAX - d as u128) as int) / 10) <= (u128::MAX
                            - d as u128) as int,
                ;
                lemma_dec_val_prefix_le(s@, i as int + 1);
            }
            return None;
        }
        proof {
            vstd::arithmetic::div_mod::lemma_fundamental_div_mod((u128::MAX - d as u128) as int, 10);
            assert(v as nat * 10 <= (u128::MAX - d as u128) as nat) by (nonlinear_arith)
                requires
                    v as nat <= ((u128::MAX - d as u128) / 10) as nat,
                    10 * (((u128::MAX - d as u128) as int) / 10) <= (u128::MAX - d as u128) as int,
            ;
            let p = s@.subrange(0, i as int + 1);
            assert(p.drop_last() =~= s@.subrange(0, i as int));
            assert(p.last() == c);
        }
        v = v * 10 + d as u128;
        i = i + 1;
    }
    proof {
        assert(s@.subrange(0, len as int) =~= s@);
    }
    Some(v)
}

} // verus!

//! Decimal and hexadecimal text of integers, as `{}` and `{:#x}` write
//! them, for error messages.

use vstd::prelude::*;

verus! {

/// The character of digit `d` (0-15), lowercase for 10-15.
pub open spec fn digit_char(d: int) -> char {
    if d < 10 {
        (48 + d) as char
    } else {
        (87 + d) as char
    }
}

/// The decimal digits of `n`, most significant first, no leading zeros.
pub open spec fn dec(n: nat) -> Seq<char>
    decreases n,
{
    if n < 10 {
        seq![digit_char(n as int)]
    } else {
        dec(n / 10).push(digit_char((n % 10) as int))
    }
}

/// The decimal text of a signed value: a minus sign before the digits of
/// its magnitude when negative.
pub open spec fn dec_int(n: int) -> Seq<char> {
    if n < 0 {
        seq!['-'] + dec((-n) as nat)
    } else {
        dec(n as nat)
    }
}

/// The lowercase hexadecimal digits of `n`, no leading zeros.
pub open spec fn hex(n: nat) -> Seq<char>
    decreases n,
{
    if n < 16 {
        seq![digit_char(n as int)]
    } else {
        hex(n / 16).push(digit_char((n % 16) as int))
    }
}

/// `{:#x}`: "0x" and the hexadecimal digits.
pub open spec fn hex_prefixed(n: nat) -> Seq<char> {
    seq!['0', 'x'] + hex(n)
}

/// The number that the digit characters `s` spell in base `b`, most
/// significant first ('0'-'9' stand for 0-9, 'a'-'f' for 10-15).
pub open spec fn digits_value(s: Seq<char>, b: int) -> int
    decreases s.len(),
{
    if s.len() == 0 {
        0
    } else {
        digits_value(s.drop_last(), b) * b + char_digit(s.last())
    }
}

/// The value of one digit character.
pub open spec fn char_digit(c: char) -> int {
    if '0' <= c && c <= '9' {
        c as int - 48
    } else {
        c as int - 87
    }
}

/// Every character is a digit below `b`.
pub open spec fn all_digits_below(s: Seq<char>, b: int) -> bool {
    forall|i: int| 0 <= i < s.len() ==> (('0' <= #[trigger] s[i] && s[i] <= '9') || ('a' <= s[i]
        && s[i] <= 'f')) && 0 <= char_digit(s[i]) < b
}

/// The decimal text of `n` spells `n` back: it is made of decimal digits,
/// has no leading zero (but for `n == 0` itself), and its digits read in
/// base 10 give `n`.
pub proof fn lemma_dec_reads_back(n: nat)
    ensures
        digits_value(dec(n), 10) == n,
        all_digits_below(dec(n), 10),
        dec(n).len() >= 1,
        n > 0 ==> dec(n)[0] != '0',
    decreases n,
{
    let d = (n % 10) as int;
    assert(char_digit(digit_char(d)) == d);
    if n >= 10 {
        lemma_dec_reads_back(n / 10);
        assert(dec(n).drop_last() =~= dec(n / 10));
        assert(dec(n).last() == digit_char(d));
        assert(digits_value(dec(n / 10), 10) == n / 10);
        assert(digits_value(dec(n), 10) == digits_value(dec(n).drop_last(), 10) * 10 + char_digit(
            dec(n).last(),
        ));
        assert((n / 10) * 10 + d == n);
    } else {
        assert(dec(n).drop_last() =~= Seq::<char>::empty());
        assert(digits_value(dec(n), 10) == digits_value(dec(n).drop_last(), 10) * 10 + char_digit(
            dec(n).last(),
        ));
    }
}

/// The hexadecimal text of `n` spells `n` back: lowercase hex digits, no
/// leading zero (but for `n == 0`), read in base 16 they give `n`.
pub proof fn lemma_hex_reads_back(n: nat)
    ensures
        digits_value(hex(n), 16) == n,
        all_digits_below(hex(n), 16),
        hex(n).len() >= 1,
        n > 0 ==> hex(n)[0] != '0',
    decreases n,
{
    let d = (n % 16) as int;
    assert(char_digit(digit_char(d)) == d);
    if n >= 16 {
        lemma_hex_reads_back(n / 16);
        assert(hex(n).drop_last() =~= hex(n / 16));
        assert(hex(n).last() == digit_char(d));
        assert(digits_value(hex(n / 16), 16) == n / 16);
        assert(digits_value(hex(n), 16) == digits_value(hex(n).drop_last(), 16) * 16 + char_digit(
            hex(n).last(),
        ));
        assert((n / 16) * 16 + d == n);
    } else {
        assert(hex(n).drop_last() =~= Seq::<char>::empty());
        assert(digits_value(hex(n), 16) == digits_value(hex(n).drop_last(), 16) * 16 + char_digit(
            hex(n).last(),
        ));
    }
}

/// The one-character text of digit `d`.
fn digit_str(d: u64) -> (r: &'static str)
    requires
        d < 16,
    ensures
        r@ == seq![digit_char(d as int)],
{
    proof {
        reveal_strlit("0");
        reveal_strlit("1");
        reveal_strlit("2");
        reveal_strlit("3");
        reveal_strlit("4");
        reveal_strlit("5");
        reveal_strlit("6");
        reveal_strlit("7");
        reveal_strlit("8");
        reveal_strlit("9");
        reveal_strlit("a");
        reveal_strlit("b");
        reveal_strlit("c");
        reveal_strlit("d");
        reveal_strlit("e");
        reveal_strlit("f");
    }
    match d {
        0 => "0",
        1 => "1",
        2 => "2",
        3 => "3",
        4 => "4",
        5 => "5",
        6 => "6",
        7 => "7",
        8 => "8",
        9 => "9",
        10 => "a",
        11 => "b",
        12 => "c",
        13 => "d",
        14 => "e",
        _ => "f",
    }
}

/// `n` in decimal.
pub fn dec_u64(n: u64) -> (r: String)
    ensures
        r@ == dec(n as nat),
        digits_value(r@, 10) == n,
        all_digits_below(r@, 10),
        n > 0 ==> r@[0] != '0',
    decreases n,
{
    proof {
        lemma_dec_reads_back(n as nat);
    }
    if n < 10 {
        String::from_str(digit_str(n))
    } else {
        let mut s = dec_u64(n / 10);
        s.append(digit_str(n % 10));
        s
    }
}

/// `n` in decimal, for a value that may not fit in 64 bits.
pub fn dec_u128(n: u128) -> (r: String)
    ensures
        r@ == dec(n as nat),
        digits_value(r@, 10) == n,
        all_digits_below(r@, 10),
        n > 0 ==> r@[0] != '0',
    decreases n,
{
    proof {
        lemma_dec_reads_back(n as nat);
    }
    if n < 10 {
        String::from_str(digit_str(n as u64))
    } else {
        let mut s = dec_u128(n / 10);
        s.append(digit_str((n % 10) as u64));
        s
    }
}

/// `n` in decimal, with a minus sign when negative.
pub fn dec_i64(n: i64) -> (r: String)
    ensures
        r@ == dec_int(n as int),
        n >= 0 ==> digits_value(r@, 10) == n && all_digits_below(r@, 10),
        n < 0 ==> r@.len() >= 2 && r@[0] == '-' && digits_value(r@.drop_first(), 10) == -n
            && all_digits_below(r@.drop_first(), 10),
{
    proof {
        if n >= 0 {
            lemma_dec_reads_back(n as nat);
        } else {
            lemma_dec_reads_back((-n) as nat);
            assert((seq!['-'] + dec((-n) as nat)).drop_first() =~= dec((-n) as nat));
        }
    }
    if n < 0 {
        let m: u64 = if n == i64::MIN {
            0x8000_0000_0000_0000
        } else {
            (-n) as u64
        };
        let mut s = String::from_str("-");
        proof {
            reveal_strlit("-");
        }
        s.append(dec_u64(m).as_str());
        s
    } else {
        dec_u64(n as u64)
    }
}

/// `n` in lowercase hexadecimal, prefixed with "0x".
pub fn hex_u64(n: u64) -> (r: String)
    ensures
        r@ == hex_prefixed(n as nat),
        r@.len() >= 3 && r@[0] == '0' && r@[1] == 'x',
        digits_value(r@.subrange(2, r@.len() as int), 16) == n,
        all_digits_below(r@.subrange(2, r@.len() as int), 16),
{
    proof {
        lemma_hex_reads_back(n as nat);
        assert((seq!['0', 'x'] + hex(n as nat)).subrange(2, (seq!['0', 'x'] + hex(n as nat)).len() as int) =~= hex(n as nat));
    }
    let mut s = String::from_str("0x");
    proof {
        reveal_strlit("0x");
    }
    s.append(hex_digits(n).as_str());
    s
}

fn hex_digits(n: u64) -> (r: String)
    ensures
        r@ == hex(n as nat),
    decreases n,
{
    if n < 16 {
        String::from_str(digit_str(n))
    } else {
        let mut s = hex_digits(n / 16);
        s.append(digit_str(n % 16));
        s
    }
}

} // verus!

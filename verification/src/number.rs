//! Numbers as text: decimal and hexadecimal.

use vstd::prelude::*;
use vstd::string::*;
use crate::text::chars_of;

verus! {

/// A decimal digit.
pub open spec fn is_digit(c: char) -> bool {
    '0' <= c <= '9'
}

/// The value of a decimal digit.
pub open spec fn digit_value(c: char) -> int {
    c as int - '0' as int
}

/// The character of a hexadecimal digit.
pub open spec fn hex_digit(d: int) -> char {
    if d < 10 {
        ('0' as int + d) as char
    } else {
        ('a' as int + d - 10) as char
    }
}

/// A number in decimal, without leading zeros.
pub open spec fn decimal(n: nat) -> Seq<char>
    decreases n,
{
    if n < 10 {
        seq![hex_digit(n as int)]
    } else {
        decimal(n / 10).push(hex_digit((n % 10) as int))
    }
}

/// Every character is a decimal digit.
pub open spec fn all_digits(s: Seq<char>) -> bool {
    forall|i: int| 0 <= i < s.len() ==> is_digit(#[trigger] s[i])
}

/// The number that a row of decimal digits stands for.
pub open spec fn digits_value(s: Seq<char>) -> nat
    decreases s.len(),
{
    if s.len() == 0 {
        0
    } else {
        (10 * digits_value(s.drop_last()) + digit_value(s.last())) as nat
    }
}

/// The number that a text stands for: digits, at least one, which a plus sign may precede, with a
/// value that fits 32 bits.
pub open spec fn number_of(s: Seq<char>) -> Option<u32> {
    let d = if s.len() > 0 && s[0] == '+' { s.skip(1) } else { s };
    if d.len() > 0 && all_digits(d) && digits_value(d) <= u32::MAX {
        Some(digits_value(d) as u32)
    } else {
        None
    }
}

/// Two hexadecimal digits for each byte.
pub open spec fn hex_of(bytes: Seq<u8>) -> Seq<char>
    decreases bytes.len(),
{
    if bytes.len() == 0 {
        Seq::empty()
    } else {
        hex_of(bytes.drop_last()).push(hex_digit(bytes.last() as int / 16)).push(
            hex_digit(bytes.last() as int % 16),
        )
    }
}

/// The text of one hexadecimal digit.
fn hex_digit_text(d: u8) -> (r: &'static str)
    requires
        d < 16,
    ensures
        r@ == seq![hex_digit(d as int)],
{
    proof {
        reveal_strlit("0");
        reveal_strlit("1");
        reveal_strlit("2");
        reveal_strlit("3");
        reveal_strlit("4");
        reveal_strlit("5");
        reveal_strlit("6");
        reveal_strlit("7");
        reveal_strlit("8");
        reveal_strlit("9");
        reveal_strlit("a");
        reveal_strlit("b");
        reveal_strlit("c");
        reveal_strlit("d");
        reveal_strlit("e");
        reveal_strlit("f");
    }
    match d {
        0 => "0",
        1 => "1",
        2 => "2",
        3 => "3",
        4 => "4",
        5 => "5",
        6 => "6",
        7 => "7",
        8 => "8",
        9 => "9",
        10 => "a",
        11 => "b",
        12 => "c",
        13 => "d",
        14 => "e",
        _ => "f",
    }
}

/// A number in decimal.
pub fn decimal_text(n: u64) -> (r: String)
    ensures
        r@ == decimal(n as nat),
    decreases n,
{
    let digit = hex_digit_text((n % 10) as u8);
    if n < 10 {
        digit.to_owned()
    } else {
        let mut r = decimal_text(n / 10);
        r.append(digit);
        r
    }
}

/// Bytes in hexadecimal, two digits for each.
pub fn hex_text(bytes: &Vec<u8>) -> (r: String)
    ensures
        r@ == hex_of(bytes@),
{
    let n: usize = bytes.len();
    let mut r = String::new();
    let mut i: usize = 0;
    while i < n
        invariant
            i <= n,
            n == bytes.len(),
            r@ == hex_of(bytes@.take(i as int)),
        decreases n - i,
    {
        let b: u8 = bytes[i];
        assert(bytes@.take(i + 1).drop_last() == bytes@.take(i as int));
        r.append(hex_digit_text(b / 16));
        r.append(hex_digit_text(b % 16));
        i += 1;
    }
    assert(bytes@.take(n as int) == bytes@);
    r
}

/// The value of a longer row of digits is not smaller.
proof fn lemma_digits_value_grows(s: Seq<char>, n: int)
    requires
        all_digits(s),
        0 <= n <= s.len(),
    ensures
        digits_value(s.take(n)) <= digits_value(s),
    decreases s.len() - n,
{
    if n < s.len() {
        lemma_digits_value_grows(s, n + 1);
        assert(s.take(n + 1).drop_last() == s.take(n));
    } else {
        assert(s.take(n) == s);
    }
}

/// The number that a text stands for, if it is one.
pub fn parse_number(s: &str) -> (r: Option<u32>)
    ensures
        r == number_of(s@),
{
    let v = chars_of(s);
    let n: usize = v.len();
    let start: usize = if n > 0 && v[0] == '+' { 1 } else { 0 };
    let ghost d = if s@.len() > 0 && s@[0] == '+' { s@.skip(1) } else { s@ };
    if start == n {
        return None;
    }
    let mut value: u64 = 0;
    let mut i: usize = start;
    while i < n
        invariant
            start <= i <= n,
            n == v.len(),
            v@ == s@,
            d == s@.skip(start as int),
            number_of(s@) == (if d.len() > 0 && all_digits(d) && digits_value(d) <= u32::MAX {
                Some(digits_value(d) as u32)
            } else {
                None
            }),
            all_digits(d.take(i - start)),
            value == digits_value(d.take(i - start)),
            value <= u32::MAX,
        decreases n - i,
    {
        let c: char = v[i];
        if c < '0' || '9' < c {
            assert(!is_digit(d[i - start]));
            return None;
        }
        assert(d.take(i + 1 - start).drop_last() == d.take(i - start));
        value = value * 10 + (c as u64 - '0' as u64);
        if value > u32::MAX as u64 {
            proof {
                if all_digits(d) {
                    lemma_digits_value_grows(d, i + 1 - start);
                }
            }
            return None;
        }
        i += 1;
    }
    assert(d.take(n - start) == d);
    Some(value as u32)
}

/// The decimal text of a number has at least one character, and each is a digit.
pub proof fn lemma_decimal_digits(n: nat)
    ensures
        decimal(n).len() > 0,
        all_digits(decimal(n)),
    decreases n,
{
    if n >= 10 {
        lemma_decimal_digits(n / 10);
    }
}

proof fn lemma_decimal_value(n: nat)
    ensures
        digits_value(decimal(n)) == n,
    decreases n,
{
    if n >= 10 {
        lemma_decimal_value(n / 10);
        assert(decimal(n).drop_last() == decimal(n / 10));
    } else {
        assert(decimal(n).drop_last() == Seq::<char>::empty());
        assert(digits_value(Seq::<char>::empty()) == 0);
    }
}

/// Reading the decimal text of a number gives the number back.
pub proof fn law_number_round_trip(n: u32)
    ensures
        number_of(decimal(n as nat)) == Some(n),
{
    lemma_decimal_digits(n as nat);
    lemma_decimal_value(n as nat);
}

/// A hexadecimal digit as `hex_of` writes it.
pub open spec fn is_hex_digit(c: char) -> bool {
    '0' <= c <= '9' || 'a' <= c <= 'f'
}

/// Bytes in hexadecimal take two digits each.
pub proof fn lemma_hex_of(bytes: Seq<u8>)
    ensures
        hex_of(bytes).len() == 2 * bytes.len(),
        forall|i: int| 0 <= i < hex_of(bytes).len() ==> is_hex_digit(#[trigger] hex_of(bytes)[i]),
    decreases bytes.len(),
{
    if bytes.len() > 0 {
        lemma_hex_of(bytes.drop_last());
    }
}

/// The digits of a number are written one after the other, the most significant first: a number
/// below ten is one digit, and ten times a number and a digit is that number with the digit behind.
pub proof fn law_decimal_is_positional(n: nat, d: nat)
    requires
        d < 10,
    ensures
        decimal(d) == seq![('0' as u32 + d) as char],
        n > 0 ==> decimal((10 * n + d) as nat) == decimal(n).push(('0' as u32 + d) as char),
{
    if n > 0 {
        assert((10 * n + d) / 10 == n);
        assert((10 * n + d) % 10 == d);
    }
}

/// How a number is read, digit by digit: a character that is no digit ends it, what is no number
/// does not become one by a further character (but for a plus sign alone), and a further digit
/// makes ten times the number and the digit, if that fits. A plus sign may precede it.
pub proof fn law_number_is_positional(s: Seq<char>, c: char)
    ensures
        number_of(Seq::<char>::empty()) is None,
        number_of(seq![c]) == (if '0' <= c <= '9' {
            Some((c as u32 - '0' as u32) as u32)
        } else {
            None
        }),
        !('0' <= c <= '9') ==> number_of(s.push(c)) is None,
        s.len() > 0 && s != seq!['+'] && number_of(s) is None ==> number_of(s.push(c)) is None,
        number_of(s) matches Some(v) ==> '0' <= c <= '9' ==> number_of(s.push(c)) == (if 10 * v + (
        c as u32 - '0' as u32) <= u32::MAX {
            Some((10 * v + (c as u32 - '0' as u32)) as u32)
        } else {
            None
        }),
        s.len() > 0 && s[0] != '+' ==> number_of(seq!['+'] + s) == number_of(s),
{
    let plus = s.len() > 0 && s[0] == '+';
    let d = if plus { s.skip(1) } else { s };
    let t = s.push(c);
    if s.len() > 0 {
        let e = if plus { t.skip(1) } else { t };
        assert(t[0] == s[0]);
        assert(e == d.push(c));
        assert(e.drop_last() == d);
        assert(e[d.len() as int] == c);
        assert(all_digits(e) ==> all_digits(d)) by {
            if all_digits(e) {
                assert forall|i: int| 0 <= i < d.len() implies is_digit(#[trigger] d[i]) by {
                    assert(e[i] == d[i]);
                }
            }
        }
        if d.len() == 0 {
            assert(s == seq!['+']);
        }
        if all_digits(d) && is_digit(c) {
            assert forall|i: int| 0 <= i < e.len() implies is_digit(#[trigger] e[i]) by {
                if i < d.len() {
                    assert(e[i] == d[i]);
                }
            }
        }
        assert((seq!['+'] + s).skip(1) == s);
    } else {
        assert(t == seq![c]);
    }
    let one = seq![c];
    assert(one.drop_last() == Seq::<char>::empty());
    assert(digits_value(Seq::<char>::empty()) == 0);
    assert(one[0] == c);
    if is_digit(c) {
        assert(all_digits(one));
        assert(digits_value(one) == digit_value(c));
    } else if c == '+' {
        assert(one.skip(1).len() == 0);
    }
}

/// The hexadecimal text of bytes is that of the first of them followed by that of the others, and
/// one byte takes two digits, the more significant first.
pub proof fn law_hexadecimal_is_bytewise(a: Seq<u8>, b: Seq<u8>, byte: u8)
    ensures
        hex_of(a + b) == hex_of(a) + hex_of(b),
        hex_of(seq![byte]) == seq![hex_digit(byte as int / 16), hex_digit(byte as int % 16)],
    decreases b.len(),
{
    assert(seq![byte].drop_last() == Seq::<u8>::empty());
    assert(hex_of(Seq::<u8>::empty()) == Seq::<char>::empty());
    if b.len() == 0 {
        assert(a + b == a);
    } else {
        assert((a + b).drop_last() == a + b.drop_last());
        law_hexadecimal_is_bytewise(a, b.drop_last(), byte);
    }
}

/// Numbers are written in decimal and read back, and bytes are written in hexadecimal.
pub proof fn law_numbers_are_written_and_read(
    n: u64,
    text: String,
    s: &str,
    number: Option<u32>,
    bytes: Vec<u8>,
    hex: String,
)
    requires
        call_ensures(decimal_text, (n,), text),
        call_ensures(parse_number, (s,), number),
        call_ensures(hex_text, (&bytes,), hex),
    ensures
        text@ == decimal(n as nat),
        number == number_of(s@),
        n <= u32::MAX && s@ == text@ ==> number == Some(n as u32),
        hex@ == hex_of(bytes@),
{
    if n <= u32::MAX {
        law_number_round_trip(n as u32);
    }
}

} // verus!

//! Bytes as text that fits into a cookie: two hexadecimal digits for each
//! byte, in lower case.

use vstd::prelude::*;
use vstd::std_specs::iter::IteratorSpec;
use vstd::string::*;

verus! {

broadcast use vstd::string::group_string_axioms;

/// The digit that stands for a number below sixteen.
pub open spec fn hex_digit(n: int) -> char {
    if n == 0 {
        '0'
    } else if n == 1 {
        '1'
    } else if n == 2 {
        '2'
    } else if n == 3 {
        '3'
    } else if n == 4 {
        '4'
    } else if n == 5 {
        '5'
    } else if n == 6 {
        '6'
    } else if n == 7 {
        '7'
    } else if n == 8 {
        '8'
    } else if n == 9 {
        '9'
    } else if n == 10 {
        'a'
    } else if n == 11 {
        'b'
    } else if n == 12 {
        'c'
    } else if n == 13 {
        'd'
    } else if n == 14 {
        'e'
    } else {
        'f'
    }
}

/// The number that a digit stands for, if it is a digit.
pub open spec fn hex_value(c: char) -> Option<int> {
    if c == '0' {
        Some(0)
    } else if c == '1' {
        Some(1)
    } else if c == '2' {
        Some(2)
    } else if c == '3' {
        Some(3)
    } else if c == '4' {
        Some(4)
    } else if c == '5' {
        Some(5)
    } else if c == '6' {
        Some(6)
    } else if c == '7' {
        Some(7)
    } else if c == '8' {
        Some(8)
    } else if c == '9' {
        Some(9)
    } else if c == 'a' {
        Some(10)
    } else if c == 'b' {
        Some(11)
    } else if c == 'c' {
        Some(12)
    } else if c == 'd' {
        Some(13)
    } else if c == 'e' {
        Some(14)
    } else if c == 'f' {
        Some(15)
    } else {
        None
    }
}

/// The byte that two digits spell, the high one first.
pub open spec fn hex_byte(high: char, low: char) -> Option<u8> {
    match (hex_value(high), hex_value(low)) {
        (Some(h), Some(l)) => Some((h * 16 + l) as u8),
        _ => None,
    }
}

/// The text of a run of bytes.
pub open spec fn hex_of(bytes: Seq<u8>) -> Seq<char>
    decreases bytes.len(),
{
    if bytes.len() == 0 {
        Seq::empty()
    } else {
        hex_of(bytes.drop_last()).push(hex_digit(bytes.last() as int / 16)).push(
            hex_digit(bytes.last() as int % 16),
        )
    }
}

/// The bytes that a text spells, if it is made of pairs of digits.
pub open spec fn bytes_of(text: Seq<char>) -> Option<Seq<u8>>
    decreases text.len(),
{
    if text.len() == 0 {
        Some(Seq::empty())
    } else if text.len() < 2 {
        None
    } else {
        match (
            bytes_of(text.subrange(0, text.len() - 2)),
            hex_byte(text[text.len() - 2], text[text.len() - 1]),
        ) {
            (Some(front), Some(byte)) => Some(front.push(byte)),
            _ => None,
        }
    }
}

/// Reading back what was written gives the bytes that were written.
pub proof fn law_hex_round_trip(bytes: Seq<u8>)
    ensures
        hex_of(bytes).len() == 2 * bytes.len(),
        bytes_of(hex_of(bytes)) == Some(bytes),
    decreases bytes.len(),
{
    if bytes.len() > 0 {
        let front = bytes.drop_last();
        let last = bytes.last();
        law_hex_round_trip(front);
        let text = hex_of(bytes);
        assert(text.subrange(0, text.len() - 2) =~= hex_of(front));
        assert(hex_byte(text[text.len() - 2], text[text.len() - 1]) == Some(last));
        assert(front.push(last) =~= bytes);
    }
}

/// A text spells bytes in one way only: writing the bytes that a text was
/// read as gives the text back.
pub proof fn law_hex_is_canonical(text: Seq<char>)
    requires
        bytes_of(text) is Some,
    ensures
        hex_of(bytes_of(text)->0) == text,
        text.len() == 2 * bytes_of(text)->0.len(),
    decreases text.len(),
{
    if text.len() > 0 {
        let front = text.subrange(0, text.len() - 2);
        law_hex_is_canonical(front);
        let bytes = bytes_of(text)->0;
        assert(bytes.drop_last() =~= bytes_of(front)->0);
        assert(hex_of(bytes) =~= text);
    }
}

/// A text that spells bytes spells bytes up to every pair.
proof fn lemma_front_spells(text: Seq<char>, pairs: int)
    requires
        bytes_of(text) is Some,
        0 <= 2 * pairs <= text.len(),
    ensures
        bytes_of(text.subrange(0, 2 * pairs)) is Some,
    decreases text.len(),
{
    law_hex_is_canonical(text);
    if 2 * pairs == text.len() {
        assert(text.subrange(0, 2 * pairs) =~= text);
    } else {
        let front = text.subrange(0, text.len() - 2);
        lemma_front_spells(front, pairs);
        assert(front.subrange(0, 2 * pairs) =~= text.subrange(0, 2 * pairs));
    }
}

fn digit_text(n: u8) -> (text: &'static str)
    requires
        n < 16,
    ensures
        text@ == seq![hex_digit(n as int)],
{
    proof {
        reveal_strlit("0");
        reveal_strlit("1");
        reveal_strlit("2");
        reveal_strlit("3");
        reveal_strlit("4");
        reveal_strlit("5");
        reveal_strlit("6");
        reveal_strlit("7");
        reveal_strlit("8");
        reveal_strlit("9");
        reveal_strlit("a");
        reveal_strlit("b");
        reveal_strlit("c");
        reveal_strlit("d");
        reveal_strlit("e");
        reveal_strlit("f");
    }
    let text = if n == 0 {
        "0"
    } else if n == 1 {
        "1"
    } else if n == 2 {
        "2"
    } else if n == 3 {
        "3"
    } else if n == 4 {
        "4"
    } else if n == 5 {
        "5"
    } else if n == 6 {
        "6"
    } else if n == 7 {
        "7"
    } else if n == 8 {
        "8"
    } else if n == 9 {
        "9"
    } else if n == 10 {
        "a"
    } else if n == 11 {
        "b"
    } else if n == 12 {
        "c"
    } else if n == 13 {
        "d"
    } else if n == 14 {
        "e"
    } else {
        "f"
    };
    assert(text@ =~= seq![hex_digit(n as int)]);
    text
}

fn digit_value(c: char) -> (value: Option<u8>)
    ensures
        match value {
            Some(v) => hex_value(c) == Some(v as int),
            None => hex_value(c) is None,
        },
{
    if c == '0' {
        Some(0)
    } else if c == '1' {
        Some(1)
    } else if c == '2' {
        Some(2)
    } else if c == '3' {
        Some(3)
    } else if c == '4' {
        Some(4)
    } else if c == '5' {
        Some(5)
    } else if c == '6' {
        Some(6)
    } else if c == '7' {
        Some(7)
    } else if c == '8' {
        Some(8)
    } else if c == '9' {
        Some(9)
    } else if c == 'a' {
        Some(10)
    } else if c == 'b' {
        Some(11)
    } else if c == 'c' {
        Some(12)
    } else if c == 'd' {
        Some(13)
    } else if c == 'e' {
        Some(14)
    } else if c == 'f' {
        Some(15)
    } else {
        None
    }
}

/// Writes bytes as text.
pub fn encode(bytes: &[u8]) -> (text: String)
    ensures
        text@ == hex_of(bytes@),
{
    let mut text = String::new();
    let mut i: usize = 0;
    assert(bytes@.take(0) =~= Seq::<u8>::empty());
    while i < bytes.len()
        invariant
            i <= bytes.len(),
            text@ == hex_of(bytes@.take(i as int)),
        decreases bytes.len() - i,
    {
        let b = bytes[i];
        proof {
            let next = bytes@.take(i + 1);
            assert(next.drop_last() =~= bytes@.take(i as int));
            assert(next.last() == b);
        }
        let ghost before = text@;
        text.append(digit_text(b / 16));
        text.append(digit_text(b % 16));
        assert(text@ =~= before.push(hex_digit(b as int / 16)).push(hex_digit(b as int % 16)));
        i += 1;
    }
    assert(bytes@.take(bytes.len() as int) =~= bytes@);
    text
}

/// Reads bytes back from text; nothing where the text is not made of pairs of
/// digits in lower case.
pub fn decode(text: &str) -> (bytes: Option<Vec<u8>>)
    ensures
        match bytes {
            Some(b) => bytes_of(text@) == Some(b@),
            None => bytes_of(text@) is None,
        },
{
    let total = text.unicode_len();
    let mut rest = text.chars();
    let mut out: Vec<u8> = Vec::new();
    let mut n: usize = 0;
    assert(text@.subrange(0, 0) =~= Seq::<char>::empty());
    loop
        invariant
            total == text@.len(),
            n <= total,
            n == 2 * out@.len(),
            rest.remaining() == text@.skip(n as int),
            bytes_of(text@.subrange(0, n as int)) == Some(out@),
        decreases total - n,
    {
        let ghost before = rest.remaining();
        let high = match rest.next() {
            Some(c) => c,
            None => {
                assert(text@.subrange(0, n as int) =~= text@);
                return Some(out);
            },
        };
        assert(high == text@[n as int]);
        let ghost middle = rest.remaining();
        let low = match rest.next() {
            Some(c) => c,
            None => {
                proof {
                    assert(before.drop_first() =~= text@.skip(n + 1));
                    assert(text@.len() == n + 1);
                    if bytes_of(text@) is Some {
                        law_hex_is_canonical(text@);
                    }
                }
                return None;
            },
        };
        proof {
            assert(before.drop_first() =~= text@.skip(n + 1));
            assert(low == text@[n + 1]);
            assert(middle.drop_first() =~= text@.skip(n + 2));
            let next = text@.subrange(0, n + 2);
            assert(next.subrange(0, next.len() - 2) =~= text@.subrange(0, n as int));
            if bytes_of(text@) is Some {
                lemma_front_spells(text@, out@.len() as int + 1);
            }
        }
        let byte = match (digit_value(high), digit_value(low)) {
            (Some(h), Some(l)) => h * 16 + l,
            _ => {
                return None;
            },
        };
        out.push(byte);
        n += 2;
    }
}

} // verus!

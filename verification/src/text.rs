//! Small verified helpers on text, stated over sequences of characters.

use vstd::prelude::*;
use vstd::std_specs::iter::IteratorSpec;
use vstd::string::*;
use vstd::utf8::*;

verus! {

broadcast use vstd::string::group_string_axioms;

/// Whether two texts hold the same characters.
pub fn str_eq(a: &str, b: &str) -> (same: bool)
    ensures
        same == (a@ == b@),
{
    let x = a.as_bytes();
    let y = b.as_bytes();
    if x.len() != y.len() {
        return false;
    }
    let mut i: usize = 0;
    while i < x.len()
        invariant
            i <= x.len(),
            x.len() == y.len(),
            x@ == a.spec_bytes(),
            y@ == b.spec_bytes(),
            forall|k: int| 0 <= k < i ==> x@[k] == y@[k],
        decreases x.len() - i,
    {
        if x[i] != y[i] {
            return false;
        }
        i += 1;
    }
    proof {
        assert(x@ =~= y@);
        encode_utf8_decode_utf8(a@);
        encode_utf8_decode_utf8(b@);
    }
    true
}

/// The character of a decimal digit.
pub open spec fn digit(d: nat) -> char
    recommends
        d < 10,
{
    if d == 0 {
        '0'
    } else if d == 1 {
        '1'
    } else if d == 2 {
        '2'
    } else if d == 3 {
        '3'
    } else if d == 4 {
        '4'
    } else if d == 5 {
        '5'
    } else if d == 6 {
        '6'
    } else if d == 7 {
        '7'
    } else if d == 8 {
        '8'
    } else {
        '9'
    }
}

/// The decimal digits of a natural number, without leading zeros.
pub open spec fn digits(n: nat) -> Seq<char>
    decreases n,
{
    if n < 10 {
        seq![digit(n)]
    } else {
        digits(n / 10).push(digit(n % 10))
    }
}

/// A whole number in decimal, with a minus sign where it is negative.
pub open spec fn decimal(n: int) -> Seq<char> {
    if n < 0 {
        seq!['-'] + digits((-n) as nat)
    } else {
        digits(n as nat)
    }
}

/// `head` is what `text` starts with.
pub open spec fn is_prefix(head: Seq<char>, text: Seq<char>) -> bool {
    head.len() <= text.len() && text.subrange(0, head.len() as int) == head
}

/// How many characters `head` has if `text` starts with it.
pub fn prefix_len(head: &str, text: &str) -> (len: Option<usize>)
    ensures
        len is Some <==> is_prefix(head@, text@),
        len matches Some(n) ==> n == head@.len(),
{
    let total = head.unicode_len();
    let mut a = head.chars();
    let mut b = text.chars();
    let mut n: usize = 0;
    loop
        invariant
            total == head@.len(),
            n <= head@.len(),
            n <= text@.len(),
            a.remaining() == head@.subrange(n as int, head@.len() as int),
            b.remaining() == text@.subrange(n as int, text@.len() as int),
            head@.subrange(0, n as int) == text@.subrange(0, n as int),
        decreases head@.len() - n,
    {
        match a.next() {
            None => {
                assert(head@.subrange(0, n as int) =~= head@);
                return Some(n);
            },
            Some(x) => {
                assert(x == head@[n as int]);
                match b.next() {
                    None => {
                        return None;
                    },
                    Some(y) => {
                        assert(y == text@[n as int]);
                        if x != y {
                            assert(is_prefix(head@, text@) ==> text@.subrange(
                                0,
                                head@.len() as int,
                            )[n as int] == head@[n as int]);
                            return None;
                        }
                    },
                }
            },
        }
        assert(head@.subrange(0, n + 1) =~= head@.subrange(0, n as int).push(head@[n as int]));
        assert(text@.subrange(0, n + 1) =~= text@.subrange(0, n as int).push(text@[n as int]));
        assert(head@.subrange(n as int, head@.len() as int).drop_first() =~= head@.subrange(
            n + 1,
            head@.len() as int,
        ));
        assert(text@.subrange(n as int, text@.len() as int).drop_first() =~= text@.subrange(
            n + 1,
            text@.len() as int,
        ));
        n += 1;
    }
}


/// Whether `text` starts with `head`.
pub fn starts_with(text: &str, head: &str) -> (yes: bool)
    ensures
        yes == is_prefix(head@, text@),
{
    prefix_len(head, text).is_some()
}

/// `text` with every occurrence of `from` replaced by `to`, found from left
/// to right without overlap. An empty `from` is found nowhere.
pub open spec fn replaced(text: Seq<char>, from: Seq<char>, to: Seq<char>) -> Seq<char>
    decreases text.len(),
{
    if text.len() == 0 || from.len() == 0 {
        text
    } else if is_prefix(from, text) {
        to + replaced(text.skip(from.len() as int), from, to)
    } else {
        seq![text[0]] + replaced(text.skip(1), from, to)
    }
}

/// `str::replace` with a pattern that is a text of at least one character:
/// every match of the pattern, found from left to right without overlap, is
/// replaced.
#[verifier::external_body]
pub(crate) fn replace(text: &str, from: &str, to: &str) -> (changed: String)
    requires
        from@.len() > 0,
    ensures
        changed@ == replaced(text@, from@, to@),
{
    text.replace(from, to)
}

/// The characters of `text` before the first `stop`; all of them where there
/// is no `stop`.
pub open spec fn until(text: Seq<char>, stop: char) -> Seq<char>
    decreases text.len(),
{
    if text.len() == 0 || text[0] == stop {
        Seq::empty()
    } else {
        seq![text[0]] + until(text.skip(1), stop)
    }
}

/// The part of `text` from the character at `from` up to the first `stop`
/// behind it, or to the end where there is none.
pub fn take_until(text: &str, from: usize, stop: char) -> (part: String)
    requires
        from <= text@.len(),
    ensures
        part@ == until(text@.skip(from as int), stop),
{
    let total = text.unicode_len();
    let mut rest = text.chars();
    let mut n: usize = 0;
    while n < from
        invariant
            n <= from <= total,
            total == text@.len(),
            rest.remaining() == text@.skip(n as int),
        decreases from - n,
    {
        let ghost before = rest.remaining();
        let c = rest.next();
        assert(c is Some);
        assert(before.drop_first() =~= text@.skip(n + 1));
        n += 1;
    }
    let mut end: usize = from;
    loop
        invariant_except_break
            rest.remaining() == text@.skip(end as int),
        invariant
            from <= end <= total,
            total == text@.len(),
            until(text@.skip(from as int), stop) == text@.subrange(from as int, end as int) + until(
                text@.skip(end as int),
                stop,
            ),
        ensures
            until(text@.skip(end as int), stop) == Seq::<char>::empty(),
        decreases total - end,
    {
        let ghost before = rest.remaining();
        match rest.next() {
            None => {
                assert(text@.skip(end as int).len() == 0);
                break ;
            },
            Some(c) => {
                assert(c == text@.skip(end as int)[0]);
                if c == stop {
                    break ;
                }
                proof {
                    assert(before.drop_first() =~= text@.skip(end + 1));
                    assert(text@.skip(end as int).skip(1) =~= text@.skip(end + 1));
                    assert(text@.subrange(from as int, end + 1) =~= text@.subrange(
                        from as int,
                        end as int,
                    ) + seq![c]);
                    assert(text@.subrange(from as int, end as int) + (seq![c] + until(
                        text@.skip(end + 1),
                        stop,
                    )) =~= text@.subrange(from as int, end + 1) + until(
                        text@.skip(end + 1),
                        stop,
                    ));
                }
                end += 1;
            },
        }
    }
    proof {
        assert(text@.subrange(from as int, end as int) + Seq::<char>::empty()
            =~= text@.subrange(from as int, end as int));
    }
    text.substring_char(from, end).to_owned()
}

/// The characters of a text that may be missing.
pub open spec fn opt_text(text: Option<String>) -> Option<Seq<char>> {
    match text {
        Some(t) => Some(t@),
        None => None,
    }
}

/// The characters of a borrowed text that may be missing.
pub open spec fn opt_str(text: Option<&str>) -> Option<Seq<char>> {
    match text {
        Some(t) => Some(t@),
        None => None,
    }
}

} // verus!

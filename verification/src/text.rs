use vstd::prelude::*;
use vstd::std_specs::iter::IteratorSpec;

verus! {

/// Whether `c` is one of the digits `0` to `9`.
pub open spec fn is_digit(c: char) -> bool {
    '0' <= c <= '9'
}

/// Whether every character of `text` is a digit.
pub open spec fn all_digits(text: Seq<char>) -> bool {
    forall|i: int| 0 <= i < text.len() ==> is_digit(#[trigger] text[i])
}

/// The number that a digit stands for.
pub open spec fn digit_value(c: char) -> nat {
    (c as int - '0' as int) as nat
}

/// The number that a sequence of digits stands for in base ten; the empty
/// sequence stands for zero.
pub open spec fn decimal_value(digits: Seq<char>) -> nat
    decreases digits.len(),
{
    if digits.len() == 0 {
        0
    } else {
        decimal_value(digits.drop_last()) * 10 + digit_value(digits.last())
    }
}

/// A number is at least as large as the number that its first digits stand
/// for.
pub proof fn lemma_decimal_value_prefix(digits: Seq<char>, length: int)
    requires
        0 <= length <= digits.len(),
    ensures
        decimal_value(digits.take(length)) <= decimal_value(digits),
    decreases digits.len() - length,
{
    if length < digits.len() {
        lemma_decimal_value_prefix(digits, length + 1);
        assert(digits.take(length + 1).drop_last() =~= digits.take(length));
    } else {
        assert(digits.take(length) =~= digits);
    }
}

/// The characters of `text`, one by one.
pub fn chars_of(text: &str) -> (chars: Vec<char>)
    ensures
        chars@ == text@,
{
    let mut chars: Vec<char> = Vec::new();
    for c in it: text.chars()
        invariant
            it.seq() == text@,
            chars@ == it.seq().take(it.index()),
    {
        chars.push(c);
    }
    chars
}

/// Whether two texts hold the same characters.
pub fn text_eq(a: &str, b: &str) -> (same: bool)
    ensures
        same == (a@ == b@),
{
    let mut left = a.chars();
    let mut right = b.chars();
    let ghost mut done: int = 0;
    loop
        invariant
            0 <= done <= a@.len(),
            done <= b@.len(),
            left.remaining() == a@.skip(done),
            right.remaining() == b@.skip(done),
            a@.take(done) == b@.take(done),
            left.obeys_prophetic_iter_laws(),
            right.obeys_prophetic_iter_laws(),
        decreases a@.len() - done,
    {
        let x = left.next();
        let y = right.next();
        match (x, y) {
            (Some(p), Some(q)) => {
                if p != q {
                    assert(a@[done] != b@[done]);
                    return false;
                }
                proof {
                    assert(a@.take(done + 1) == a@.take(done).push(a@[done]));
                    assert(b@.take(done + 1) == b@.take(done).push(b@[done]));
                    assert(a@.skip(done).drop_first() == a@.skip(done + 1));
                    assert(b@.skip(done).drop_first() == b@.skip(done + 1));
                    done = done + 1;
                }
            },
            (None, None) => {
                assert(a@ == a@.take(done));
                assert(b@ == b@.take(done));
                return true;
            },
            _ => {
                assert(a@.len() != b@.len());
                return false;
            },
        }
    }
}

/// The number that `text` stands for in base ten, or `None` where it is larger
/// than `usize::MAX`.
pub fn decimal(text: &str) -> (value: Option<usize>)
    requires
        all_digits(text@),
    ensures
        match value {
            Some(number) => number == decimal_value(text@),
            None => decimal_value(text@) > usize::MAX,
        },
{
    let mut number: usize = 0;
    for c in it: text.chars()
        invariant
            it.seq() == text@,
            all_digits(text@),
            number == decimal_value(text@.take(it.index())),
    {
        proof {
            assert(text@.take(it.index() + 1).drop_last() =~= text@.take(it.index()));
            lemma_decimal_value_prefix(text@, it.index() + 1);
        }
        let digit = (c as u32 - '0' as u32) as usize;
        number = match number.checked_mul(10) {
            Some(tens) => match tens.checked_add(digit) {
                Some(sum) => sum,
                None => {
                    return None;
                },
            },
            None => {
                return None;
            },
        };
    }
    assert(text@.take(text@.len() as int) =~= text@);
    Some(number)
}

} // verus!

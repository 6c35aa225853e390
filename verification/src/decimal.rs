//! Whole numbers written out in base ten, and read from text.

use vstd::prelude::*;

verus! {

/// The character for the digit `d`, where `0 <= d <= 9`.
pub open spec fn digit_char(d: int) -> char {
    if d == 0 {
        '0'
    } else if d == 1 {
        '1'
    } else if d == 2 {
        '2'
    } else if d == 3 {
        '3'
    } else if d == 4 {
        '4'
    } else if d == 5 {
        '5'
    } else if d == 6 {
        '6'
    } else if d == 7 {
        '7'
    } else if d == 8 {
        '8'
    } else {
        '9'
    }
}

/// The digits of `n` in base ten, most significant first, without leading
/// zeros; zero is the single digit `0`.
pub open spec fn nat_text(n: nat) -> Seq<char>
    decreases n,
{
    if n < 10 {
        seq![digit_char(n as int)]
    } else {
        nat_text(n / 10).push(digit_char((n % 10) as int))
    }
}

/// The text of `i` in base ten: a minus sign in front of the digits of a
/// negative number, nothing in front of the others.
pub open spec fn int_text(i: int) -> Seq<char> {
    if i < 0 {
        seq!['-'] + nat_text((-i) as nat)
    } else {
        nat_text(i as nat)
    }
}

/// The digit that the character `c` stands for.
pub open spec fn digit_value(c: char) -> int {
    c as int - '0' as int
}

/// Whether `c` is one of the ten digits.
pub open spec fn is_digit(c: char) -> bool {
    '0' <= c <= '9'
}

/// The number that a row of digits spells in base ten.
pub open spec fn digits_value(s: Seq<char>) -> int
    decreases s.len(),
{
    if s.len() == 0 {
        0
    } else {
        digits_value(s.drop_last()) * 10 + digit_value(s.last())
    }
}

/// How many digits `s` begins with.
pub open spec fn leading_digits(s: Seq<char>) -> nat
    decreases s.len(),
{
    if s.len() > 0 && is_digit(s[0]) {
        1 + leading_digits(s.drop_first())
    } else {
        0
    }
}

/// The whole number that `s` begins with: a minus sign or none, then as
/// many digits as follow, at least one. What comes after the digits is not
/// read. There is no such number where `s` begins otherwise.
pub open spec fn leading_int(s: Seq<char>) -> Option<int> {
    let negative = s.len() > 0 && s[0] == '-';
    let rest = if negative {
        s.drop_first()
    } else {
        s
    };
    let count = leading_digits(rest) as int;
    if count == 0 {
        None
    } else if negative {
        Some(-digits_value(rest.take(count)))
    } else {
        Some(digits_value(rest.take(count)))
    }
}

/// The whole number that `s` begins with, where there is one and an `i32`
/// holds it.
pub open spec fn leading_i32(s: Seq<char>) -> Option<i32> {
    match leading_int(s) {
        Some(number) => if i32::MIN <= number <= i32::MAX {
            Some(number as i32)
        } else {
            None
        },
        None => None,
    }
}

/// The number of digits that `s` begins with is `n` where the first `n`
/// characters are digits and the one after them, if there is one, is not.
proof fn lemma_leading_digits(s: Seq<char>, n: int)
    requires
        0 <= n <= s.len(),
        forall|k: int| 0 <= k < n ==> is_digit(#[trigger] s[k]),
        n < s.len() ==> !is_digit(s[n]),
    ensures
        leading_digits(s) == n,
    decreases n,
{
    if n > 0 {
        let rest = s.drop_first();
        assert forall|k: int| 0 <= k < n - 1 implies is_digit(#[trigger] rest[k]) by {
            assert(rest[k] == s[k + 1]);
        }
        lemma_leading_digits(rest, n - 1);
    }
}

/// A row of digits spells no negative number.
proof fn lemma_digits_value_not_negative(s: Seq<char>)
    requires
        forall|k: int| 0 <= k < s.len() ==> is_digit(#[trigger] s[k]),
    ensures
        0 <= digits_value(s),
    decreases s.len(),
{
    if s.len() > 0 {
        lemma_digits_value_not_negative(s.drop_last());
    }
}

/// The digits of a number are digits, at least one of them, they begin with
/// `0` only for zero itself, and they spell the number.
pub proof fn lemma_nat_text(n: nat)
    ensures
        nat_text(n).len() >= 1,
        forall|k: int| 0 <= k < nat_text(n).len() ==> is_digit(#[trigger] nat_text(n)[k]),
        nat_text(n)[0] == '0' <==> n == 0,
        digits_value(nat_text(n)) == n,
    decreases n,
{
    if n < 10 {
        let s = nat_text(n);
        assert(s.drop_last() =~= Seq::<char>::empty());
        assert(digits_value(s.drop_last()) == 0);
    } else {
        lemma_nat_text(n / 10);
        let head = nat_text(n / 10);
        let s = nat_text(n);
        assert(s.drop_last() =~= head);
        assert(s[0] == head[0]);
    }
}

/// The text of a number reads back as that number.
pub proof fn lemma_int_text(i: int)
    ensures
        int_text(i).len() >= 1,
        leading_int(int_text(i)) == Some(i),
{
    let digits = if i < 0 {
        nat_text((-i) as nat)
    } else {
        nat_text(i as nat)
    };
    if i < 0 {
        lemma_nat_text((-i) as nat);
        assert(int_text(i).drop_first() =~= digits);
    } else {
        lemma_nat_text(i as nat);
        assert(is_digit(digits[0]));
    }
    lemma_leading_digits(digits, digits.len() as int);
    assert(digits.take(digits.len() as int) =~= digits);
}

/// Two numbers that have the same text are the same number.
pub proof fn lemma_int_text_injective(i: int, j: int)
    requires
        int_text(i) == int_text(j),
    ensures
        i == j,
{
    lemma_int_text(i);
    lemma_int_text(j);
}

/// A bound that no magnitude of an `i32` reaches. Reading stops counting
/// there: more digits only make a number larger.
const MAGNITUDE_CAP: u64 = 2147483649;

/// The one-character text of a single digit.
fn digit_str(d: u64) -> (s: &'static str)
    requires
        d < 10,
    ensures
        s@ == seq![digit_char(d as int)],
{
    let s = if d == 0 {
        proof { reveal_strlit("0"); }
        "0"
    } else if d == 1 {
        proof { reveal_strlit("1"); }
        "1"
    } else if d == 2 {
        proof { reveal_strlit("2"); }
        "2"
    } else if d == 3 {
        proof { reveal_strlit("3"); }
        "3"
    } else if d == 4 {
        proof { reveal_strlit("4"); }
        "4"
    } else if d == 5 {
        proof { reveal_strlit("5"); }
        "5"
    } else if d == 6 {
        proof { reveal_strlit("6"); }
        "6"
    } else if d == 7 {
        proof { reveal_strlit("7"); }
        "7"
    } else if d == 8 {
        proof { reveal_strlit("8"); }
        "8"
    } else {
        proof { reveal_strlit("9"); }
        "9"
    };
    assert(s@ =~= seq![digit_char(d as int)]);
    s
}

/// Appends the digits of `n` to `out`.
fn append_nat(out: &mut String, n: u64)
    ensures
        final(out)@ == old(out)@ + nat_text(n as nat),
    decreases n,
{
    if n >= 10 {
        append_nat(out, n / 10);
    }
    out.append(digit_str(n % 10));
    assert(out@ =~= old(out)@ + nat_text(n as nat));
}

/// Appends the base-ten text of `value` to `out`.
pub fn append_int(out: &mut String, value: i32)
    ensures
        final(out)@ == old(out)@ + int_text(value as int),
{
    let wide: i64 = value as i64;
    if wide < 0 {
        out.append("-");
        proof { reveal_strlit("-"); }
        append_nat(out, (-wide) as u64);
        assert(out@ =~= old(out)@ + int_text(value as int));
    } else {
        append_nat(out, wide as u64);
    }
}

/// The whole number that `text` begins with, where there is one and an
/// `i32` holds it.
pub fn read_int(text: &str) -> (value: Option<i32>)
    ensures
        value == leading_i32(text@),
{
    let len = text.unicode_len();
    let negative = len > 0 && text.get_char(0) == '-';
    let start: usize = if negative {
        1
    } else {
        0
    };
    let ghost rest = text@.skip(start as int);
    let mut magnitude: u64 = 0;
    let mut i: usize = start;
    while i < len
        invariant
            start <= i <= len,
            len == text@.len(),
            rest == text@.skip(start as int),
            forall|k: int| 0 <= k < i - start ==> is_digit(#[trigger] rest[k]),
            magnitude <= MAGNITUDE_CAP,
            magnitude == if digits_value(rest.take(i - start)) < MAGNITUDE_CAP {
                digits_value(rest.take(i - start))
            } else {
                MAGNITUDE_CAP as int
            },
        ensures
            start <= i <= len,
            forall|k: int| 0 <= k < i - start ==> is_digit(#[trigger] rest[k]),
            i < len ==> !is_digit(rest[i - start]),
            magnitude == if digits_value(rest.take(i - start)) < MAGNITUDE_CAP {
                digits_value(rest.take(i - start))
            } else {
                MAGNITUDE_CAP as int
            },
        decreases len - i,
    {
        let c = text.get_char(i);
        if !(c >= '0' && c <= '9') {
            break;
        }
        proof {
            let before = rest.take(i - start);
            let after = rest.take(i + 1 - start);
            assert(after.drop_last() =~= before);
            assert(after.last() == c);
            lemma_digits_value_not_negative(before);
        }
        let digit: u64 = (c as u32 - '0' as u32) as u64;
        if magnitude < MAGNITUDE_CAP {
            magnitude = magnitude * 10 + digit;
            if magnitude > MAGNITUDE_CAP {
                magnitude = MAGNITUDE_CAP;
            }
        }
        i += 1;
    }
    proof {
        lemma_leading_digits(rest, i - start);
        if negative {
            assert(rest =~= text@.drop_first());
        } else {
            assert(rest =~= text@);
        }
    }
    if i == start {
        None
    } else if negative {
        if magnitude <= 2147483648 {
            Some((-(magnitude as i64)) as i32)
        } else {
            None
        }
    } else {
        if magnitude <= 2147483647 {
            Some(magnitude as i32)
        } else {
            None
        }
    }
}

} // verus!

//! Integers as decimal text: writing them and reading them.

use vstd::prelude::*;
use vstd::string::*;

verus! {

/// The character of the decimal digit `d`.
pub open spec fn digit(d: int) -> char {
    seq!['0', '1', '2', '3', '4', '5', '6', '7', '8', '9'][d]
}

/// `n` in decimal, without leading zeros.
pub open spec fn decimal(n: nat) -> Seq<char>
    decreases n,
{
    if n < 10 {
        seq![digit(n as int)]
    } else {
        decimal(n / 10).push(digit((n % 10) as int))
    }
}

/// `v` in decimal, with a minus sign where it is negative.
pub open spec fn signed_decimal(v: int) -> Seq<char> {
    if v < 0 {
        seq!['-'] + decimal((-v) as nat)
    } else {
        decimal(v as nat)
    }
}

fn digit_text(d: u8) -> (r: &'static str)
    requires
        d < 10,
    ensures
        r@ == seq![digit(d as int)],
{
    proof {
        reveal_strlit("0");
        reveal_strlit("1");
        reveal_strlit("2");
        reveal_strlit("3");
        reveal_strlit("4");
        reveal_strlit("5");
        reveal_strlit("6");
        reveal_strlit("7");
        reveal_strlit("8");
        reveal_strlit("9");
    }
    let r = match d {
        0 => "0",
        1 => "1",
        2 => "2",
        3 => "3",
        4 => "4",
        5 => "5",
        6 => "6",
        7 => "7",
        8 => "8",
        _ => "9",
    };
    assert(r@ =~= seq![digit(d as int)]);
    r
}

/// Writes `n` in decimal.
pub fn decimal_text(n: u128) -> (r: String)
    ensures
        r@ == decimal(n as nat),
    decreases n,
{
    if n < 10 {
        digit_text(n as u8).to_owned()
    } else {
        let mut r = decimal_text(n / 10);
        let last = digit_text((n % 10) as u8);
        r.append(last);
        assert(r@ =~= decimal((n / 10) as nat).push(digit((n % 10) as int)));
        r
    }
}

/// Writes `v` in decimal, with a minus sign where it is negative.
pub fn signed_decimal_text(v: isize) -> (r: String)
    ensures
        r@ == signed_decimal(v as int),
{
    if v < 0 {
        let magnitude: u128 = (-(v as i128)) as u128;
        let mut r = "-".to_owned();
        let digits = decimal_text(magnitude);
        r.append(digits.as_str());
        proof {
            reveal_strlit("-");
            assert(r@ =~= seq!['-'] + decimal((-v) as nat));
        }
        r
    } else {
        decimal_text(v as u128)
    }
}

pub open spec fn is_digit(c: char) -> bool {
    0x30 <= c as u32 <= 0x39
}

pub open spec fn all_digits(s: Seq<char>) -> bool {
    forall|i: int| 0 <= i < s.len() ==> is_digit(#[trigger] s[i])
}

/// The number that the decimal digits `s` denote.
pub open spec fn digits_value(s: Seq<char>) -> nat
    decreases s.len(),
{
    if s.len() == 0 {
        0
    } else {
        (digits_value(s.drop_last()) * 10 + (s.last() as u32 - 0x30)) as nat
    }
}

/// The integer that `s` denotes: an optional sign, then one or more decimal
/// digits. `None` where `s` has another form.
pub open spec fn integer_of(s: Seq<char>) -> Option<int> {
    let signed = s.len() > 0 && (s[0] == '+' || s[0] == '-');
    let body = if signed {
        s.drop_first()
    } else {
        s
    };
    if body.len() > 0 && all_digits(body) {
        Some(
            if signed && s[0] == '-' {
                -(digits_value(body) as int)
            } else {
                digits_value(body) as int
            },
        )
    } else {
        None
    }
}

/// What `s` denotes where that is an integer of the machine's word size.
pub open spec fn isize_of(s: Seq<char>) -> Option<isize> {
    match integer_of(s) {
        Some(v) => if isize::MIN <= v <= isize::MAX {
            Some(v as isize)
        } else {
            None
        },
        None => None,
    }
}

proof fn lemma_digits_value_grows(s: Seq<char>, k: int)
    requires
        0 <= k <= s.len(),
        all_digits(s),
    ensures
        digits_value(s.take(k)) <= digits_value(s),
    decreases s.len() - k,
{
    if k < s.len() {
        let next = s.take(k + 1);
        assert(next.drop_last() =~= s.take(k));
        assert(is_digit(s[k]));
        assert(next.last() == s[k]);
        lemma_digits_value_grows(s, k + 1);
    } else {
        assert(s.take(k) =~= s);
    }
}

/// Reads a decimal integer, as `isize`'s `from_str` does.
pub fn parse_isize(text: &str) -> (r: Option<isize>)
    ensures
        r == isize_of(text@),
{
    let n = text.unicode_len();
    if n == 0 {
        return None;
    }
    let first = text.get_char(0);
    let negative = first == '-';
    let start: usize = if first == '-' || first == '+' {
        1
    } else {
        0
    };
    if start == n {
        assert(text@.drop_first().len() == 0);
        return None;
    }
    let ghost body = text@.skip(start as int);
    assert(start == 1 ==> body =~= text@.drop_first());
    assert(start == 0 ==> body =~= text@);
    let limit: u128 = if negative {
        isize::MAX as u128 + 1
    } else {
        isize::MAX as u128
    };
    let mut acc: u128 = 0;
    let mut i: usize = start;
    assert(body.take(0) =~= Seq::<char>::empty());
    while i < n
        invariant
            n == text@.len(),
            start <= i <= n,
            body == text@.skip(start as int),
            start == (if text@[0] == '+' || text@[0] == '-' {
                1int
            } else {
                0int
            }),
            negative == (text@[0] == '-'),
            limit == (if negative {
                isize::MAX + 1
            } else {
                isize::MAX as int
            }),
            all_digits(body.take(i - start)),
            acc == digits_value(body.take(i - start)),
            acc <= limit,
        decreases n - i,
    {
        let c = text.get_char(i);
        let u: u32 = c as u32;
        let ghost k = i - start;
        assert(body[k] == c);
        assert(start == 1 ==> body =~= text@.drop_first());
        assert(start == 0 ==> body =~= text@);
        if u < 0x30 || u > 0x39 {
            assert(!is_digit(body[k]));
            return None;
        }
        let d: u128 = (u - 0x30) as u128;
        let next = acc * 10 + d;
        proof {
            let grown = body.take(k + 1);
            assert(grown.drop_last() =~= body.take(k));
            assert(grown.last() == c);
            assert(digits_value(grown) == next);
            assert forall|m: int| 0 <= m < grown.len() implies is_digit(#[trigger] grown[m]) by {
                if m < k {
                    assert(body.take(k)[m] == grown[m]);
                }
            }
        }
        if next > limit {
            proof {
                if all_digits(body) {
                    lemma_digits_value_grows(body, k + 1);
                }
            }
            return None;
        }
        acc = next;
        i = i + 1;
    }
    assert(body.take(i - start) =~= body);
    assert(start == 1 ==> body =~= text@.drop_first());
    assert(start == 0 ==> body =~= text@);
    if negative {
        Some((-(acc as i128)) as isize)
    } else {
        Some(acc as isize)
    }
}

/// A number given in hundredths, written with as many decimal places as it
/// needs and no more than two: 1250 is `12.5`, 1200 is `12`, 5 is `0.05`.
pub open spec fn hundredths(h: nat) -> Seq<char> {
    let whole = decimal(h / 100);
    let part = (h % 100) as int;
    if part == 0 {
        whole
    } else if part % 10 == 0 {
        whole + seq!['.', digit(part / 10)]
    } else {
        whole + seq!['.', digit(part / 10), digit(part % 10)]
    }
}

/// Writes a number given in hundredths.
pub fn hundredths_text(h: u128) -> (r: String)
    ensures
        r@ == hundredths(h as nat),
{
    let mut r = decimal_text(h / 100);
    let part: u8 = (h % 100) as u8;
    if part == 0 {
        return r;
    }
    let ghost whole = r@;
    r.append(".");
    r.append(digit_text(part / 10));
    proof {
        reveal_strlit(".");
        assert(r@ =~= whole + seq!['.', digit((part / 10) as int)]);
    }
    if part % 10 != 0 {
        r.append(digit_text(part % 10));
        assert(r@ =~= whole + seq!['.', digit((part / 10) as int), digit((part % 10) as int)]);
    }
    r
}

} // verus!

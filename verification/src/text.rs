//! Decimal numbers as text, and the small string edits the interface makes.
use vstd::prelude::*;
use vstd::string::*;
use vstd::utf8::*;

verus! {

/// Is `c` one of the ASCII digits `0` to `9`?
pub open spec fn is_digit(c: char) -> bool {
    '0' <= c && c <= '9'
}

/// Every character of `s` is an ASCII digit.
pub open spec fn all_digits(s: Seq<char>) -> bool {
    forall|i: int| 0 <= i < s.len() ==> is_digit(#[trigger] s[i])
}

/// The value of one ASCII digit.
pub open spec fn digit_value(c: char) -> nat {
    ((c as int) - 48) as nat
}

/// The ASCII digit that stands for `d` (for `d < 10`).
pub open spec fn digit_of(d: nat) -> char {
    (48 + d) as char
}

/// The number that a string of ASCII digits writes in base ten.
pub open spec fn value_of(s: Seq<char>) -> nat
    decreases s.len(),
{
    if s.len() == 0 {
        0
    } else {
        value_of(s.drop_last()) * 10 + digit_value(s.last())
    }
}

/// The shortest base-ten writing of `n`, without sign or leading zeros.
pub open spec fn decimal(n: nat) -> Seq<char>
    decreases n,
{
    if n < 10 {
        seq![digit_of(n)]
    } else {
        decimal(n / 10).push(digit_of(n % 10))
    }
}

/// What parsing `s` as a `usize` gives: an optional `+`, then one or more
/// ASCII digits whose value fits in a `usize`; anything else is refused.
pub open spec fn parse_usize_spec(s: Seq<char>) -> Option<usize> {
    let digits = if s.len() > 0 && s[0] == '+' {
        s.drop_first()
    } else {
        s
    };
    if digits.len() > 0 && all_digits(digits) && value_of(digits) <= usize::MAX {
        Some(value_of(digits) as usize)
    } else {
        None
    }
}

/// `n` space characters.
pub open spec fn spaces(n: nat) -> Seq<char> {
    Seq::new(n, |i: int| ' ')
}

/// The number of bytes that `s` takes in UTF-8, which is what `str::len` counts.
pub open spec fn byte_len(s: Seq<char>) -> nat {
    encode_utf8(s).len()
}

/// Appends a character to a string.
///
/// Calls `String::push`, which the std documentation says appends the given
/// character to the end of the string.
#[verifier::external_body]
pub(crate) fn push_char(s: &mut String, c: char)
    ensures
        final(s)@ == old(s)@.push(c),
{
    s.push(c);
}

/// Removes the last character of a string.
///
/// Calls `String::pop`, which the std documentation says removes the last
/// character and returns it, or returns `None` when the string is empty.
#[verifier::external_body]
pub(crate) fn pop_char(s: &mut String) -> (r: Option<char>)
    ensures
        old(s)@.len() == 0 ==> r is None && final(s)@ == old(s)@,
        old(s)@.len() > 0 ==> r == Some(old(s)@.last()) && final(s)@ == old(s)@.drop_last(),
{
    s.pop()
}

/// The decimal writing of a number is a nonempty string of digits with that value.
pub proof fn lemma_decimal_digits(n: nat)
    ensures
        decimal(n).len() > 0,
        all_digits(decimal(n)),
        value_of(decimal(n)) == n,
    decreases n,
{
    if n < 10 {
        assert(seq![digit_of(n)].drop_last() =~= Seq::<char>::empty());
        assert(digit_of(n) as int == 48 + n);
        assert(value_of(Seq::<char>::empty()) == 0);
        assert(value_of(seq![digit_of(n)]) == n);
    } else {
        assert(digit_of(n % 10) as int == 48 + n % 10);
        lemma_decimal_digits(n / 10);
        let d = decimal(n / 10);
        assert(d.push(digit_of(n % 10)).drop_last() =~= d);
        assert(value_of(decimal(n)) == value_of(d) * 10 + n % 10);
        assert(n == (n / 10) * 10 + n % 10);
        assert(is_digit(digit_of(n % 10)));
        assert forall|i: int| 0 <= i < decimal(n).len() implies is_digit(#[trigger] decimal(n)[i]) by {
            if i < d.len() {
                assert(decimal(n)[i] == d[i]);
            }
        }
    }
}

/// Parsing the decimal writing of a number gives that number back.
pub proof fn lemma_parse_decimal(n: usize)
    ensures
        parse_usize_spec(decimal(n as nat)) == Some(n),
{
    lemma_decimal_digits(n as nat);
    let s = decimal(n as nat);
    assert(is_digit(s[0]));
}

/// Writes `n` in base ten.
pub fn to_decimal(n: usize) -> (s: String)
    ensures
        s@ == decimal(n as nat),
{
    let mut digits: Vec<char> = Vec::new();
    let mut m: usize = n;
    while m >= 10
        invariant
            decimal(n as nat) == decimal(m as nat) + digits@,
        decreases m,
    {
        let d = (m % 10) as u8;
        let c = (48u8 + d) as char;
        proof {
            assert(decimal(m as nat) == decimal((m / 10) as nat).push(digit_of((m % 10) as nat)));
            assert(decimal(m as nat) + digits@ =~= decimal((m / 10) as nat) + seq![c] + digits@);
            assert(seq![c] + digits@ =~= digits@.insert(0, c));
            assert(decimal((m / 10) as nat) + seq![c] + digits@ =~= decimal((m / 10) as nat) + (
            seq![c] + digits@));
        }
        digits.insert(0, c);
        m = m / 10;
    }
    let c = (48u8 + (m as u8)) as char;
    proof {
        assert(seq![c] + digits@ =~= digits@.insert(0, c));
    }
    digits.insert(0, c);
    let mut s = String::new();
    let mut i: usize = 0;
    while i < digits.len()
        invariant
            0 <= i <= digits.len(),
            s@ == digits@.take(i as int),
        decreases digits.len() - i,
    {
        push_char(&mut s, digits[i]);
        proof {
            assert(digits@.take(i as int).push(digits@[i as int]) =~= digits@.take(i + 1));
        }
        i = i + 1;
    }
    proof {
        assert(digits@.take(i as int) =~= digits@);
    }
    s
}

/// Parses `s` as a `usize`, as `str::parse::<usize>` does: an optional `+`,
/// then one or more ASCII digits whose value fits in a `usize`.
pub fn parse_usize(s: &str) -> (r: Option<usize>)
    ensures
        r == parse_usize_spec(s@),
{
    let len = s.unicode_len();
    let mut start: usize = 0;
    if len > 0 && s.get_char(0) == '+' {
        start = 1;
    }
    let ghost digits = if s@.len() > 0 && s@[0] == '+' {
        s@.drop_first()
    } else {
        s@
    };
    assert(digits =~= s@.subrange(start as int, len as int));
    if start >= len {
        return None;
    }
    let mut i: usize = start;
    let mut acc: usize = 0;
    let mut overflow = false;
    while i < len
        invariant
            start <= i <= len,
            len == s@.len(),
            start < len,
            digits == (if s@.len() > 0 && s@[0] == '+' {
                s@.drop_first()
            } else {
                s@
            }),
            digits =~= s@.subrange(start as int, len as int),
            all_digits(s@.subrange(start as int, i as int)),
            !overflow ==> acc as nat == value_of(s@.subrange(start as int, i as int)),
            overflow ==> value_of(s@.subrange(start as int, i as int)) > usize::MAX,
        decreases len - i,
    {
        let c = s.get_char(i);
        if !('0' <= c && c <= '9') {
            proof {
                assert(s@[i as int] == c);
                assert(digits[i - start] == s@.subrange(start as int, len as int)[i - start]);
                assert(digits[i - start] == c);
                assert(!is_digit(digits[i - start]));
                assert(!all_digits(digits));
            }
            return None;
        }
        let d = (c as u32 - 48) as usize;
        let ghost prefix = s@.subrange(start as int, i as int);
        let ghost next = s@.subrange(start as int, i + 1);
        proof {
            assert(next.drop_last() =~= prefix);
            assert(next.last() == c);
            assert(value_of(next) == value_of(prefix) * 10 + d);
            assert forall|k: int| 0 <= k < next.len() implies is_digit(#[trigger] next[k]) by {
                if k < prefix.len() {
                    assert(next[k] == prefix[k]);
                }
            }
        }
        if !overflow {
            match acc.checked_mul(10) {
                Some(t) => match t.checked_add(d) {
                    Some(v) => {
                        acc = v;
                    },
                    None => {
                        overflow = true;
                    },
                },
                None => {
                    overflow = true;
                    proof {
                        assert(value_of(prefix) * 10 + d >= value_of(prefix) * 10);
                    }
                },
            }
        } else {
            proof {
                assert(value_of(prefix) * 10 + d >= value_of(prefix));
            }
        }
        i = i + 1;
    }
    proof {
        assert(s@.subrange(start as int, i as int) =~= digits);
    }
    if overflow {
        None
    } else {
        Some(acc)
    }
}

/// A string of `n` spaces.
pub fn repeat_space(n: usize) -> (s: String)
    ensures
        s@ == spaces(n as nat),
{
    let mut s = String::new();
    let mut i: usize = 0;
    while i < n
        invariant
            i <= n,
            s@ == spaces(i as nat),
        decreases n - i,
    {
        push_char(&mut s, ' ');
        proof {
            assert(spaces(i as nat).push(' ') =~= spaces((i + 1) as nat));
        }
        i = i + 1;
    }
    s
}

/// The UTF-8 length of a sequence made of ASCII characters is its length.
pub proof fn lemma_ascii_byte_len(s: Seq<char>)
    requires
        is_ascii_chars(s),
    ensures
        byte_len(s) == s.len(),
{
    is_ascii_chars_encode_utf8(s);
}

/// Digits are ASCII.
pub proof fn lemma_digits_ascii(s: Seq<char>)
    requires
        all_digits(s),
    ensures
        is_ascii_chars(s),
{
    assert forall|i: int| 0 <= i < s.len() implies '\0' <= #[trigger] s[i] <= '\u{7f}' by {
        assert(is_digit(s[i]));
    }
}

} // verus!

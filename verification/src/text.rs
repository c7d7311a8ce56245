//! Decimal rendering of integers, as `Display` and `{:02}` produce it.

use vstd::prelude::*;
use vstd::string::*;

verus! {

/// The ASCII digit for `d` (`0 <= d < 10`).
pub open spec fn digit_char(d: int) -> char {
    (d + 48) as char
}

/// Decimal digits of a natural number, most significant first, no leading zeros.
pub open spec fn decimal_nat(n: nat) -> Seq<char>
    decreases n,
{
    if n < 10 {
        seq![digit_char(n as int)]
    } else {
        decimal_nat(n / 10).push(digit_char((n % 10) as int))
    }
}

/// What `Display` writes for an integer: a minus sign for negative values, then the digits.
pub open spec fn decimal(n: int) -> Seq<char> {
    if n < 0 {
        seq!['-'] + decimal_nat((-n) as nat)
    } else {
        decimal_nat(n as nat)
    }
}

/// What `{:02}` writes for an integer: a single digit gets a leading zero,
/// everything else (negative numbers included) is written as `Display` writes it.
pub open spec fn pad2(n: int) -> Seq<char> {
    if 0 <= n < 10 {
        seq!['0'] + decimal(n)
    } else {
        decimal(n)
    }
}

fn digit_str(d: u64) -> (s: &'static str)
    requires
        d < 10,
    ensures
        s@ == seq![digit_char(d as int)],
{
    if d == 0 {
        proof { reveal_strlit("0"); }
        "0"
    } else if d == 1 {
        proof { reveal_strlit("1"); }
        "1"
    } else if d == 2 {
        proof { reveal_strlit("2"); }
        "2"
    } else if d == 3 {
        proof { reveal_strlit("3"); }
        "3"
    } else if d == 4 {
        proof { reveal_strlit("4"); }
        "4"
    } else if d == 5 {
        proof { reveal_strlit("5"); }
        "5"
    } else if d == 6 {
        proof { reveal_strlit("6"); }
        "6"
    } else if d == 7 {
        proof { reveal_strlit("7"); }
        "7"
    } else if d == 8 {
        proof { reveal_strlit("8"); }
        "8"
    } else {
        proof { reveal_strlit("9"); }
        "9"
    }
}

/// Renders a natural number in decimal.
pub fn nat_to_decimal(n: u64) -> (s: String)
    ensures
        s@ == decimal_nat(n as nat),
    decreases n,
{
    if n < 10 {
        let mut s = String::new();
        s.append(digit_str(n));
        s
    } else {
        let mut s = nat_to_decimal(n / 10);
        s.append(digit_str(n % 10));
        s
    }
}

/// Renders an integer as `Display` does.
pub fn int_to_decimal(n: i64) -> (s: String)
    ensures
        s@ == decimal(n as int),
{
    if n < 0 {
        let magnitude: u64 = (0i128 - (n as i128)) as u64;
        let digits = nat_to_decimal(magnitude);
        let mut s = String::new();
        proof { reveal_strlit("-"); }
        s.append("-");
        s.append(digits.as_str());
        s
    } else {
        nat_to_decimal(n as u64)
    }
}

/// Renders an integer as `{:02}` does.
pub fn int_to_pad2(n: i64) -> (s: String)
    ensures
        s@ == pad2(n as int),
{
    let digits = int_to_decimal(n);
    if 0 <= n && n < 10 {
        let mut s = String::new();
        proof { reveal_strlit("0"); }
        s.append("0");
        s.append(digits.as_str());
        s
    } else {
        digits
    }
}

} // verus!

verus! {

/// Calls `String::pop`, which removes the last character, if there is one,
/// and returns it.
#[verifier::external_body]
pub(crate) fn string_pop(s: &mut String) -> (c: Option<char>)
    ensures
        old(s)@.len() == 0 ==> c is None && final(s)@ == old(s)@,
        old(s)@.len() > 0 ==> c == Some(old(s)@.last()) && final(s)@ == old(s)@.drop_last(),
{
    s.pop()
}

} // verus!

verus! {

/// What follows the last `sep` in `s`; all of `s` when `sep` does not occur.
/// This is the last piece that `s.split(sep)` yields.
pub open spec fn after_last(s: Seq<char>, sep: char) -> Seq<char>
    decreases s.len(),
{
    if s.len() == 0 {
        s
    } else if s.last() == sep {
        Seq::empty()
    } else {
        after_last(s.drop_last(), sep).push(s.last())
    }
}

proof fn lemma_after_last_is_suffix(s: Seq<char>, sep: char, start: int)
    requires
        0 <= start <= s.len(),
        forall|k: int| start <= k < s.len() ==> s[k] != sep,
        start > 0 ==> s[start - 1] == sep,
    ensures
        after_last(s, sep) == s.subrange(start, s.len() as int),
    decreases s.len(),
{
    if s.len() == start {
        assert(s.subrange(start, s.len() as int) =~= Seq::<char>::empty());
        if start > 0 {
            assert(s.last() == sep);
        } else {
            assert(s =~= Seq::<char>::empty());
        }
    } else {
        let t = s.drop_last();
        lemma_after_last_is_suffix(t, sep, start);
        assert(s.last() != sep);
        assert(t.subrange(start, t.len() as int).push(s.last()) =~= s.subrange(start, s.len() as int));
    }
}

/// The last piece of `s` split at `sep` (all of `s` when `sep` does not occur).
pub fn last_segment(s: &str, sep: char) -> (r: String)
    ensures
        r@ == after_last(s@, sep),
{
    let n = s.unicode_len();
    let mut start: usize = 0;
    let mut i: usize = 0;
    while i < n
        invariant
            n == s@.len(),
            start <= i <= n,
            forall|k: int| start <= k < i ==> s@[k] != sep,
            start > 0 ==> s@[start - 1] == sep,
        decreases n - i,
    {
        if s.get_char(i) == sep {
            start = i + 1;
        }
        i = i + 1;
    }
    proof {
        lemma_after_last_is_suffix(s@, sep, start as int);
    }
    String::from_str(s.substring_char(start, n))
}

/// A name for what `str::escape_debug` yields for a string: its characters
/// escaped for a debug listing (grapheme extenders only at the start of the
/// string), which depends on Unicode tables.
pub uninterp spec fn escape_debug_of(s: Seq<char>) -> Seq<char>;

/// Calls `s.escape_debug().to_string()`; its result is `escape_debug_of(s@)`.
#[verifier::external_body]
pub(crate) fn escape_debug(s: &str) -> (r: String)
    ensures
        r@ == escape_debug_of(s@),
{
    s.escape_debug().to_string()
}

} // verus!

verus! {

/// Whether `c` is an ASCII decimal digit.
pub open spec fn is_digit(c: char) -> bool {
    '0' <= c <= '9'
}

/// The digits of a natural number are decimal digits, there is at least one,
/// and only zero itself starts with `0`.
pub proof fn lemma_decimal_nat_digits(n: nat)
    ensures
        decimal_nat(n).len() >= 1,
        n >= 10 ==> decimal_nat(n).len() >= 2,
        forall|i: int| 0 <= i < decimal_nat(n).len() ==> is_digit(#[trigger] decimal_nat(n)[i]),
        (decimal_nat(n)[0] == '0') <==> n == 0,
    decreases n,
{
    if n >= 10 {
        lemma_decimal_nat_digits(n / 10);
        let s = decimal_nat(n / 10);
        assert(decimal_nat(n) == s.push(digit_char((n % 10) as int)));
        assert forall|i: int| 0 <= i < decimal_nat(n).len() implies is_digit(#[trigger] decimal_nat(n)[i]) by {
            if i < s.len() {
                assert(decimal_nat(n)[i] == s[i]);
            }
        }
        assert(decimal_nat(n)[0] == s[0]);
    }
}

/// Different natural numbers have different digits.
pub proof fn lemma_decimal_nat_injective(a: nat, b: nat)
    ensures
        decimal_nat(a) == decimal_nat(b) ==> a == b,
    decreases a,
{
    lemma_decimal_nat_digits(a);
    lemma_decimal_nat_digits(b);
    if decimal_nat(a) == decimal_nat(b) {
        if a >= 10 && b >= 10 {
            let sa = decimal_nat(a / 10);
            let sb = decimal_nat(b / 10);
            assert(decimal_nat(a).drop_last() == sa);
            assert(decimal_nat(b).drop_last() == sb);
            assert(decimal_nat(a).last() == digit_char((a % 10) as int));
            assert(decimal_nat(b).last() == digit_char((b % 10) as int));
            lemma_decimal_nat_injective(a / 10, b / 10);
        } else if a < 10 && b < 10 {
            assert(decimal_nat(a)[0] == digit_char(a as int));
            assert(decimal_nat(b)[0] == digit_char(b as int));
        }
    }
}

/// `Display` writes different integers differently; what it writes is not
/// empty, and only a negative number's text holds a `-` (as its first character).
pub proof fn lemma_decimal_injective(a: int, b: int)
    ensures
        decimal(a).len() >= 1,
        forall|i: int| 1 <= i < decimal(a).len() ==> is_digit(#[trigger] decimal(a)[i]),
        (decimal(a)[0] == '-') <==> a < 0,
        decimal(a) == decimal(b) ==> a == b,
{
    if a < 0 {
        lemma_decimal_nat_digits((-a) as nat);
        let d = decimal_nat((-a) as nat);
        assert forall|i: int| 1 <= i < decimal(a).len() implies is_digit(#[trigger] decimal(a)[i]) by {
            assert(decimal(a)[i] == d[i - 1]);
        }
    } else {
        lemma_decimal_nat_digits(a as nat);
    }
    if b < 0 {
        lemma_decimal_nat_digits((-b) as nat);
    } else {
        lemma_decimal_nat_digits(b as nat);
    }
    if decimal(a) == decimal(b) {
        if a < 0 && b < 0 {
            assert(decimal(a).drop_first() == decimal_nat((-a) as nat));
            assert(decimal(b).drop_first() == decimal_nat((-b) as nat));
            lemma_decimal_nat_injective((-a) as nat, (-b) as nat);
        } else if a >= 0 && b >= 0 {
            lemma_decimal_nat_injective(a as nat, b as nat);
        } else {
            assert(decimal(a)[0] == decimal(b)[0]);
            assert(is_digit(decimal_nat((if a < 0 { b } else { a }) as nat)[0]));
        }
    }
}

/// `{:02}` writes different integers differently. It writes an integer from 0
/// to 99 as exactly two digits; what it writes is never empty and holds a `-`
/// only as the first character of a negative number.
pub proof fn lemma_pad2_injective(a: int, b: int)
    ensures
        pad2(a).len() >= 1,
        0 <= a < 100 ==> pad2(a).len() == 2 && is_digit(pad2(a)[0]) && is_digit(pad2(a)[1]),
        forall|i: int| 1 <= i < pad2(a).len() ==> is_digit(#[trigger] pad2(a)[i]),
        (pad2(a)[0] == '-') <==> a < 0,
        pad2(a) == pad2(b) ==> a == b,
{
    lemma_decimal_injective(a, b);
    lemma_decimal_injective(b, a);
    if 0 <= a < 10 {
        assert(pad2(a)[1] == decimal(a)[0]);
        assert forall|i: int| 1 <= i < pad2(a).len() implies is_digit(#[trigger] pad2(a)[i]) by {
            assert(pad2(a)[i] == decimal(a)[i - 1]);
        }
    }
    if 10 <= a < 100 {
        lemma_decimal_nat_digits(a as nat);
        lemma_decimal_nat_digits((a / 10) as nat);
        assert(decimal_nat(a as nat) == decimal_nat((a / 10) as nat).push(digit_char(a % 10)));
        assert(decimal_nat((a / 10) as nat).len() == 1);
    }
    if pad2(a) == pad2(b) {
        if 0 <= a < 10 && 0 <= b < 10 {
            assert(pad2(a).drop_first() == decimal(a));
            assert(pad2(b).drop_first() == decimal(b));
        } else if 0 <= a < 10 {
            // `b`'s text is its `Display` text, which starts with `-` or a non-zero digit.
            assert(pad2(a)[0] == '0');
            lemma_decimal_nat_digits(b as nat);
            if b >= 10 {
                assert(decimal(b)[0] != '0');
            }
        } else if 0 <= b < 10 {
            assert(pad2(b)[0] == '0');
            lemma_decimal_nat_digits(a as nat);
            if a >= 10 {
                assert(decimal(a)[0] != '0');
            }
        }
    }
}

/// The last piece of `s` split at `sep` holds no `sep`, and `s` ends with it.
pub proof fn lemma_after_last_is_last_piece(s: Seq<char>, sep: char)
    ensures
        !after_last(s, sep).contains(sep),
        after_last(s, sep).len() <= s.len(),
        s.subrange(s.len() - after_last(s, sep).len(), s.len() as int) == after_last(s, sep),
    decreases s.len(),
{
    if s.len() > 0 && s.last() != sep {
        let t = s.drop_last();
        lemma_after_last_is_last_piece(t, sep);
        let r = after_last(t, sep);
        assert(after_last(s, sep) == r.push(s.last()));
        assert(!r.push(s.last()).contains(sep)) by {
            if r.push(s.last()).contains(sep) {
                let k = choose|k: int| 0 <= k < r.len() + 1 && r.push(s.last())[k] == sep;
                if k < r.len() {
                    assert(r.contains(sep));
                }
            }
        }
        assert(s.subrange(s.len() - r.len() - 1, s.len() as int) =~= r.push(s.last())) by {
            assert(t.subrange(t.len() - r.len(), t.len() as int) == r);
        }
    } else if s.len() > 0 {
        assert(s.subrange(s.len() as int, s.len() as int) =~= Seq::<char>::empty());
    }
}

} // verus!

verus! {

/// Two integers written with `{:02}` and joined by a hyphen can be told apart
/// again: the joined text determines both.
pub proof fn lemma_pad2_pair_injective(x1: int, y1: int, x2: int, y2: int)
    ensures
        pad2(x1) + "-"@ + pad2(y1) == pad2(x2) + "-"@ + pad2(y2) ==> x1 == x2 && y1 == y2,
{
    reveal_strlit("-");
    let p1 = pad2(x1);
    let p2 = pad2(x2);
    let t1 = p1 + "-"@ + pad2(y1);
    let t2 = p2 + "-"@ + pad2(y2);
    lemma_pad2_injective(x1, x2);
    lemma_pad2_injective(x2, x1);
    lemma_pad2_injective(y1, y2);
    if t1 == t2 {
        if p1.len() < p2.len() {
            assert(t1[p1.len() as int] == '-');
            assert(t2[p1.len() as int] == p2[p1.len() as int]);
            assert(is_digit(p2[p1.len() as int]));
        } else if p2.len() < p1.len() {
            assert(t2[p2.len() as int] == '-');
            assert(t1[p2.len() as int] == p1[p2.len() as int]);
            assert(is_digit(p1[p2.len() as int]));
        } else {
            assert(t1.subrange(0, p1.len() as int) =~= p1);
            assert(t2.subrange(0, p2.len() as int) =~= p2);
            assert(t1.skip((p1.len() + 1) as int) =~= pad2(y1));
            assert(t2.skip((p2.len() + 1) as int) =~= pad2(y2));
        }
    }
}

} // verus!

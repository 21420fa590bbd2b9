//! Decimal text of integers, written and read the way the standard
//! library's `Display` and `FromStr` do for integer types.

use vstd::prelude::*;

verus! {

/// The character of the decimal digit `d` (for `d < 10`).
pub open spec fn digit_char(d: nat) -> char {
    (d + 48) as char
}

/// The decimal digits of `n`, most significant first, without leading zeros
/// (zero is the single digit `0`).
pub open spec fn nat_digits(n: nat) -> Seq<char>
    decreases n,
{
    if n < 10 {
        seq![digit_char(n)]
    } else {
        nat_digits(n / 10).push(digit_char(n % 10))
    }
}

/// The decimal text of an integer: a leading `-` for negative values.
pub open spec fn int_decimal(i: int) -> Seq<char> {
    if i < 0 {
        seq!['-'] + nat_digits((-i) as nat)
    } else {
        nat_digits(i as nat)
    }
}

fn digit_str(d: u64) -> (s: &'static str)
    requires
        d < 10,
    ensures
        s@ == seq![digit_char(d as nat)],
{
    proof {
        reveal_strlit("0");
        reveal_strlit("1");
        reveal_strlit("2");
        reveal_strlit("3");
        reveal_strlit("4");
        reveal_strlit("5");
        reveal_strlit("6");
        reveal_strlit("7");
        reveal_strlit("8");
        reveal_strlit("9");
    }
    if d == 0 {
        "0"
    } else if d == 1 {
        "1"
    } else if d == 2 {
        "2"
    } else if d == 3 {
        "3"
    } else if d == 4 {
        "4"
    } else if d == 5 {
        "5"
    } else if d == 6 {
        "6"
    } else if d == 7 {
        "7"
    } else if d == 8 {
        "8"
    } else {
        "9"
    }
}

/// Appends the decimal digits of `n` to `s`.
pub fn push_digits(s: &mut String, n: u64)
    ensures
        final(s)@ == old(s)@ + nat_digits(n as nat),
    decreases n,
{
    if n >= 10 {
        push_digits(s, n / 10);
    }
    s.append(digit_str(n % 10));
    proof {
        if n >= 10 {
            assert(nat_digits(n as nat) == nat_digits((n / 10) as nat).push(digit_char((n % 10) as nat)));
        }
        assert(final(s)@ =~= old(s)@ + nat_digits(n as nat));
    }
}

/// Appends the decimal text of `x` to `s`.
pub fn push_i64(s: &mut String, x: i64)
    ensures
        final(s)@ == old(s)@ + int_decimal(x as int),
{
    if x < 0 {
        s.append("-");
        let magnitude: u64 = (0i128 - (x as i128)) as u64;
        push_digits(s, magnitude);
        proof {
            reveal_strlit("-");
            assert(final(s)@ =~= old(s)@ + int_decimal(x as int));
        }
    } else {
        push_digits(s, x as u64);
    }
}

/// The decimal text of `x`, as `x.to_string()` writes it.
pub fn i64_to_decimal(x: i64) -> (s: String)
    ensures
        s@ == int_decimal(x as int),
{
    let mut s = String::new();
    push_i64(&mut s, x);
    proof {
        assert(s@ =~= int_decimal(x as int));
    }
    s
}


/// Whether `c` is one of the characters `0` to `9`.
pub open spec fn is_digit(c: char) -> bool {
    '0' <= c && c <= '9'
}

/// Whether every character of `s` is a decimal digit.
pub open spec fn all_digits(s: Seq<char>) -> bool {
    forall|i: int| 0 <= i < s.len() ==> is_digit(#[trigger] s[i])
}

/// The value of a string of decimal digits (zero for the empty string).
pub open spec fn digits_value(s: Seq<char>) -> nat
    decreases s.len(),
{
    if s.len() == 0 {
        0
    } else {
        digits_value(s.drop_last()) * 10 + ((s.last() as int - 48) as nat)
    }
}

/// A non-empty run of digits whose value is at most `max`.
pub open spec fn digits_up_to(s: Seq<char>, max: nat) -> Option<nat> {
    if s.len() > 0 && all_digits(s) && digits_value(s) <= max {
        Some(digits_value(s))
    } else {
        None
    }
}

/// What `from_str` of an unsigned integer type whose largest value is `max`
/// gives on `s`: an optional `+`, then at least one digit, and nothing else.
pub open spec fn parse_unsigned(s: Seq<char>, max: nat) -> Option<nat> {
    if s.len() > 0 && s[0] == '+' {
        digits_up_to(s.drop_first(), max)
    } else {
        digits_up_to(s, max)
    }
}

/// What `from_str` of a signed integer type with range `min..=max` gives on
/// `s`: an optional sign, then at least one digit, and nothing else.
pub open spec fn parse_signed(s: Seq<char>, min: int, max: int) -> Option<int> {
    if s.len() > 0 && s[0] == '-' {
        match digits_up_to(s.drop_first(), (-min) as nat) {
            Some(v) => Some(-v),
            None => None,
        }
    } else {
        match parse_unsigned(s, max as nat) {
            Some(v) => Some(v as int),
            None => None,
        }
    }
}

/// `s` with every leading occurrence of `c` removed, as `trim_start_matches`
/// does with a character pattern.
pub open spec fn trim_start_char(s: Seq<char>, c: char) -> Seq<char>
    decreases s.len(),
{
    if s.len() > 0 && s[0] == c {
        trim_start_char(s.drop_first(), c)
    } else {
        s
    }
}

/// A run of digits is worth at least as much as each of its prefixes.
pub proof fn lemma_digits_value_prefix(s: Seq<char>, k: int)
    requires
        all_digits(s),
        0 <= k <= s.len(),
    ensures
        digits_value(s) >= digits_value(s.take(k)),
    decreases s.len(),
{
    if k < s.len() {
        let t = s.drop_last();
        assert(all_digits(t)) by {
            assert forall|i: int| 0 <= i < t.len() implies is_digit(#[trigger] t[i]) by {
                assert(t[i] == s[i]);
            }
        }
        lemma_digits_value_prefix(t, k);
        assert(t.take(k) =~= s.take(k));
    } else {
        assert(s.take(k) =~= s);
    }
}

/// Reads the digits of `s` from index `start` to its end.
fn digits_from(s: &str, start: usize, max: u128) -> (r: Option<u128>)
    requires
        start <= s@.len(),
        max <= u64::MAX,
    ensures
        match digits_up_to(s@.skip(start as int), max as nat) {
            Some(v) => r == Some(v as u128),
            None => r is None,
        },
{
    let n = s.unicode_len();
    let ghost body = s@.skip(start as int);
    if start == n {
        return None;
    }
    let mut acc: u128 = 0;
    let mut i = start;
    while i < n
        invariant
            n == s@.len(),
            start < n,
            start <= i <= n,
            body == s@.skip(start as int),
            all_digits(body.take(i - start)),
            acc as nat == digits_value(body.take(i - start)),
            acc <= max,
            max <= u64::MAX,
        decreases n - i,
    {
        let c = s.get_char(i);
        let ghost pre = body.take(i - start);
        let ghost next = body.take(i + 1 - start);
        assert(next.drop_last() =~= pre);
        assert(next.last() == c);
        if c < '0' || c > '9' {
            assert(!all_digits(body)) by {
                assert(body[i - start] == c);
            }
            return None;
        }
        let d: u128 = (c as u32 - 48u32) as u128;
        acc = acc * 10 + d;
        assert(all_digits(next)) by {
            assert forall|j: int| 0 <= j < next.len() implies is_digit(#[trigger] next[j]) by {
                if j < next.len() - 1 {
                    assert(next[j] == pre[j]);
                }
            }
        }
        if acc > max {
            proof {
                if all_digits(body) {
                    lemma_digits_value_prefix(body, i + 1 - start);
                }
            }
            return None;
        }
        i = i + 1;
    }
    assert(body.take(n - start) =~= body);
    Some(acc)
}

/// Reads `s` from index `start` the way unsigned `from_str` does.
fn unsigned_from(s: &str, start: usize, max: u128) -> (r: Option<u128>)
    requires
        start <= s@.len(),
        max <= u64::MAX,
    ensures
        match parse_unsigned(s@.skip(start as int), max as nat) {
            Some(v) => r == Some(v as u128),
            None => r is None,
        },
{
    let n = s.unicode_len();
    if start < n && s.get_char(start) == '+' {
        assert(s@.skip(start as int).drop_first() =~= s@.skip(start + 1));
        digits_from(s, start + 1, max)
    } else {
        digits_from(s, start, max)
    }
}

/// `s.parse::<usize>()`, with the error dropped.
pub fn parse_usize(s: &str) -> (r: Option<usize>)
    ensures
        match parse_unsigned(s@, usize::MAX as nat) {
            Some(v) => r == Some(v as usize),
            None => r is None,
        },
{
    assert(s@.skip(0) =~= s@);
    match unsigned_from(s, 0, usize::MAX as u128) {
        Some(v) => Some(v as usize),
        None => None,
    }
}

/// `s.parse::<i32>()`, with the error dropped.
pub fn parse_i32(s: &str) -> (r: Option<i32>)
    ensures
        match parse_signed(s@, i32::MIN as int, i32::MAX as int) {
            Some(v) => r == Some(v as i32),
            None => r is None,
        },
{
    let n = s.unicode_len();
    assert(s@.skip(0) =~= s@);
    if n > 0 && s.get_char(0) == '-' {
        assert(s@.drop_first() =~= s@.skip(1));
        match digits_from(s, 1, 2147483648u128) {
            Some(v) => Some((0i128 - v as i128) as i32),
            None => None,
        }
    } else {
        match unsigned_from(s, 0, 2147483647u128) {
            Some(v) => Some(v as i32),
            None => None,
        }
    }
}

/// The index of the first character of `s` that is not `c`.
pub fn count_leading(s: &str, c: char) -> (k: usize)
    ensures
        k <= s@.len(),
        trim_start_char(s@, c) == s@.skip(k as int),
{
    let n = s.unicode_len();
    let mut k: usize = 0;
    assert(s@.skip(0) =~= s@);
    while k < n && s.get_char(k) == c
        invariant
            n == s@.len(),
            k <= n,
            trim_start_char(s@, c) == trim_start_char(s@.skip(k as int), c),
        decreases n - k,
    {
        let ghost rest = s@.skip(k as int);
        assert(rest[0] == c);
        assert(rest.drop_first() =~= s@.skip(k + 1));
        k = k + 1;
    }
    k
}


/// The decimal digits of `n` read back as `n`.
pub proof fn lemma_nat_digits_value(n: nat)
    ensures
        nat_digits(n).len() > 0,
        all_digits(nat_digits(n)),
        digits_value(nat_digits(n)) == n,
    decreases n,
{
    let s = nat_digits(n);
    if n < 10 {
        assert(s.drop_last() =~= Seq::<char>::empty());
        assert(digits_value(s.drop_last()) == 0);
    } else {
        lemma_nat_digits_value(n / 10);
        assert(s.drop_last() =~= nat_digits(n / 10));
        assert forall|i: int| 0 <= i < s.len() implies is_digit(#[trigger] s[i]) by {
            if i < s.len() - 1 {
                assert(s[i] == nat_digits(n / 10)[i]);
            }
        }
    }
}

/// Integers written in decimal read back as themselves, for every integer
/// type whose range holds them.
pub proof fn lemma_decimal_round_trip(x: int, min: int, max: int)
    requires
        min <= 0 <= max,
        min <= x <= max,
    ensures
        parse_signed(int_decimal(x), min, max) == Some(x),
        x >= 0 ==> parse_unsigned(int_decimal(x), max as nat) == Some(x as nat),
{
    if x < 0 {
        let d = nat_digits((-x) as nat);
        lemma_nat_digits_value((-x) as nat);
        assert((seq!['-'] + d).drop_first() =~= d);
        assert((seq!['-'] + d)[0] == '-');
    } else {
        let d = nat_digits(x as nat);
        lemma_nat_digits_value(x as nat);
        assert(is_digit(d[0]));
    }
}

} // verus!

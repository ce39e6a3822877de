use vstd::prelude::*;

verus! {

/// A decimal digit character, `'0'` to `'9'`.
pub open spec fn is_digit_char(c: char) -> bool {
    '0' <= c && c <= '9'
}

/// The value of a decimal digit character.
pub open spec fn digit_value(c: char) -> int {
    c as int - '0' as int
}

/// The character of a decimal digit `d` (for `d < 10`).
pub open spec fn digit_char(d: nat) -> char {
    if d == 0 { '0' }
    else if d == 1 { '1' }
    else if d == 2 { '2' }
    else if d == 3 { '3' }
    else if d == 4 { '4' }
    else if d == 5 { '5' }
    else if d == 6 { '6' }
    else if d == 7 { '7' }
    else if d == 8 { '8' }
    else { '9' }
}

pub open spec fn all_digits(s: Seq<char>) -> bool {
    forall|i: int| 0 <= i < s.len() ==> #[trigger] is_digit_char(s[i])
}

/// The number that a string of decimal digits denotes (most significant first).
pub open spec fn digits_value(s: Seq<char>) -> int
    decreases s.len(),
{
    if s.len() == 0 {
        0
    } else {
        digits_value(s.drop_last()) * 10 + digit_value(s.last())
    }
}

/// What parsing `s` as an `i64` gives: an optional `+` or `-`, then one or more
/// decimal digits, denoting a value within the range of `i64`; anything else
/// is refused.
pub open spec fn parse_i64_spec(s: Seq<char>) -> Option<int> {
    if s.len() == 0 {
        None
    } else {
        let negative = s[0] == '-';
        let digits = if s[0] == '+' || s[0] == '-' { s.skip(1) } else { s };
        if digits.len() == 0 || !all_digits(digits) {
            None
        } else {
            let v = digits_value(digits);
            let n = if negative { -v } else { v };
            if i64::MIN <= n && n <= i64::MAX { Some(n) } else { None }
        }
    }
}

/// The decimal digits of `m`, most significant first, without leading zeros.
pub open spec fn nat_digits(m: nat) -> Seq<char>
    decreases m,
{
    if m < 10 {
        seq![digit_char(m)]
    } else {
        nat_digits(m / 10).push(digit_char(m % 10))
    }
}

/// The decimal text of an integer: a `-` before the digits of a negative one.
pub open spec fn decimal_text(n: int) -> Seq<char> {
    if n < 0 {
        seq!['-'] + nat_digits((-n) as nat)
    } else {
        nat_digits(n as nat)
    }
}

pub proof fn lemma_digit_char(d: nat)
    requires
        d < 10,
    ensures
        is_digit_char(digit_char(d)),
        digit_value(digit_char(d)) == d,
{
}

pub proof fn lemma_digits_value_nonneg(s: Seq<char>)
    requires
        all_digits(s),
    ensures
        digits_value(s) >= 0,
    decreases s.len(),
{
    if s.len() > 0 {
        assert(is_digit_char(s[s.len() - 1]));
        lemma_digits_value_nonneg(s.drop_last());
    }
}

/// The value of a prefix of a digit string is at most that of the whole.
pub proof fn lemma_digits_value_prefix(s: Seq<char>, k: int)
    requires
        all_digits(s),
        0 <= k <= s.len(),
    ensures
        digits_value(s.take(k)) <= digits_value(s),
    decreases s.len(),
{
    if k == s.len() {
        assert(s.take(k) =~= s);
    } else {
        let t = s.drop_last();
        assert(s.take(k) =~= t.take(k));
        assert(is_digit_char(s[s.len() - 1]));
        lemma_digits_value_prefix(t, k);
        lemma_digits_value_nonneg(t);
    }
}

proof fn lemma_digits_value_step(s: Seq<char>, i: int)
    requires
        0 <= i < s.len(),
    ensures
        digits_value(s.take(i + 1)) == digits_value(s.take(i)) * 10 + digit_value(s[i]),
{
    assert(s.take(i + 1).drop_last() =~= s.take(i));
}

proof fn lemma_nat_digits(m: nat)
    ensures
        nat_digits(m).len() > 0,
        all_digits(nat_digits(m)),
        digits_value(nat_digits(m)) == m,
    decreases m,
{
    if m < 10 {
        lemma_digit_char(m);
        let s = seq![digit_char(m)];
        assert(s.drop_last() =~= Seq::<char>::empty());
        assert(digits_value(s.drop_last()) == 0);
        assert(s.last() == digit_char(m));
        assert(digits_value(s) == digits_value(s.drop_last()) * 10 + digit_value(s.last()));
    } else {
        lemma_nat_digits(m / 10);
        lemma_digit_char(m % 10);
        let t = nat_digits(m / 10);
        assert(t.push(digit_char(m % 10)).drop_last() =~= t);
        assert forall|i: int| 0 <= i < nat_digits(m).len() implies #[trigger] is_digit_char(
            nat_digits(m)[i],
        ) by {
            if i < t.len() {
                assert(is_digit_char(t[i]));
            }
        }
    }
}

/// Reading back the decimal text of an `i64` gives that `i64`.
pub proof fn lemma_parse_decimal_text(n: int)
    requires
        i64::MIN <= n <= i64::MAX,
    ensures
        parse_i64_spec(decimal_text(n)) == Some(n),
{
    if n < 0 {
        let m = (-n) as nat;
        lemma_nat_digits(m);
        let s = decimal_text(n);
        assert(s.skip(1) =~= nat_digits(m));
        assert(s[0] == '-');
    } else {
        let m = n as nat;
        lemma_nat_digits(m);
        let s = decimal_text(n);
        assert(is_digit_char(s[0]));
    }
}

/// The text of one decimal digit.
fn digit_text(d: u8) -> (r: &'static str)
    requires
        d < 10,
    ensures
        r@ == seq![digit_char(d as nat)],
{
    proof {
        reveal_strlit("0");
        reveal_strlit("1");
        reveal_strlit("2");
        reveal_strlit("3");
        reveal_strlit("4");
        reveal_strlit("5");
        reveal_strlit("6");
        reveal_strlit("7");
        reveal_strlit("8");
        reveal_strlit("9");
    }
    if d == 0 { "0" }
    else if d == 1 { "1" }
    else if d == 2 { "2" }
    else if d == 3 { "3" }
    else if d == 4 { "4" }
    else if d == 5 { "5" }
    else if d == 6 { "6" }
    else if d == 7 { "7" }
    else if d == 8 { "8" }
    else { "9" }
}

/// The characters of the digits `ds`, read from the last one to the first.
pub open spec fn reversed_digit_chars(ds: Seq<u8>) -> Seq<char> {
    Seq::new(ds.len(), |j: int| digit_char(ds[ds.len() - 1 - j] as nat))
}

/// Formats an `i64` in decimal, as its `Display` does.
pub fn format_i64(n: i64) -> (r: String)
    ensures
        r@ == decimal_text(n as int),
{
    let mag: u64 = if n < 0 { (-(n + 1)) as u64 + 1 } else { n as u64 };
    let ghost m0: nat = mag as nat;
    assert(m0 == if n < 0 { (-n) as nat } else { n as nat });
    let mut m: u64 = mag;
    let mut ds: Vec<u8> = Vec::new();
    ds.push((m % 10) as u8);
    proof {
        let d = (m % 10) as u8;
        assert(reversed_digit_chars(ds@) =~= seq![digit_char(d as nat)]);
        if m >= 10 {
            assert(nat_digits(m0) == nat_digits(m0 / 10).push(digit_char(m0 % 10)));
        }
    }
    m = m / 10;
    while m > 0
        invariant
            nat_digits(m0) =~= (if m > 0 { nat_digits(m as nat) } else { Seq::<char>::empty() })
                + reversed_digit_chars(ds@),
            forall|j: int| 0 <= j < ds.len() ==> ds@[j] < 10,
        decreases m,
    {
        let d = (m % 10) as u8;
        let ghost old_ds = ds@;
        let ghost mm = m as nat;
        ds.push(d);
        m = m / 10;
        proof {
            assert(reversed_digit_chars(ds@) =~= seq![digit_char(d as nat)] + reversed_digit_chars(
                old_ds,
            ));
            if mm >= 10 {
                assert(nat_digits(mm) == nat_digits(mm / 10).push(digit_char(mm % 10)));
            }
        }
    }
    let mut r = String::new();
    if n < 0 {
        r.append("-");
        proof {
            reveal_strlit("-");
        }
    }
    let ghost prefix = r@;
    let len = ds.len();
    let mut i: usize = len;
    while i > 0
        invariant
            i <= len == ds.len(),
            forall|j: int| 0 <= j < ds.len() ==> ds@[j] < 10,
            r@ =~= prefix + Seq::new((len - i) as nat, |j: int| digit_char(ds@[len - 1 - j] as nat)),
        decreases i,
    {
        i = i - 1;
        let t = digit_text(ds[i]);
        r.append(t);
    }
    assert(r@ =~= prefix + reversed_digit_chars(ds@));
    r
}

/// Parses a string as an `i64`, as `i64::from_str` does.
pub fn parse_i64(s: &str) -> (r: Option<i64>)
    ensures
        match r {
            Some(v) => parse_i64_spec(s@) == Some(v as int),
            None => parse_i64_spec(s@) is None,
        },
{
    let n = s.unicode_len();
    if n == 0 {
        return None;
    }
    let c0 = s.get_char(0);
    let negative = c0 == '-';
    let start: usize = if c0 == '+' || c0 == '-' { 1 } else { 0 };
    if start == n {
        return None;
    }
    let ghost digits = s@.skip(start as int);
    assert(digits =~= (if s@[0] == '+' || s@[0] == '-' { s@.skip(1) } else { s@ }));
    let limit: u64 = if negative { 9223372036854775808 } else { 9223372036854775807 };
    let mut acc: u64 = 0;
    let mut i: usize = start;
    assert(digits.take(0) =~= Seq::<char>::empty());
    while i < n
        invariant
            start <= i <= n,
            n == s@.len(),
            start < n,
            digits == s@.skip(start as int),
            digits.len() == n - start,
            negative == (s@[0] == '-'),
            start == (if s@[0] == '+' || s@[0] == '-' { 1usize } else { 0usize }),
            all_digits(digits.take(i - start)),
            acc as int == digits_value(digits.take(i - start)),
            acc <= limit,
            limit == (if negative { 9223372036854775808u64 } else { 9223372036854775807u64 }),
        decreases n - i,
    {
        let c = s.get_char(i);
        assert(digits[i - start] == c);
        if !(c >= '0' && c <= '9') {
            assert(!is_digit_char(digits[i - start]));
            assert(!all_digits(digits));
            assert(parse_i64_spec(s@) is None);
            return None;
        }
        let d: u64 = (c as u32 - '0' as u32) as u64;
        assert(d as int == digit_value(c));
        proof {
            lemma_digits_value_step(digits, i - start);
            assert forall|j: int| 0 <= j < digits.take(i - start + 1).len() implies #[trigger] is_digit_char(
                digits.take(i - start + 1)[j],
            ) by {
                if j < i - start {
                    assert(digits.take(i - start + 1)[j] == digits.take(i - start)[j]);
                }
            }
        }
        if acc > (limit - d) / 10 {
            proof {
                assert(acc * 10 + d > limit);
                assert(digits =~= (if s@[0] == '+' || s@[0] == '-' { s@.skip(1) } else { s@ }));
                if all_digits(digits) {
                    lemma_digits_value_prefix(digits, i - start + 1);
                    assert(digits_value(digits) > limit);
                    if negative {
                        assert(-digits_value(digits) < i64::MIN);
                    } else {
                        assert(digits_value(digits) > i64::MAX);
                    }
                }
                assert(parse_i64_spec(s@) is None);
            }
            return None;
        }
        acc = acc * 10 + d;
        i += 1;
    }
    assert(digits.take(n - start) =~= digits);
    if negative {
        if acc == 9223372036854775808 {
            Some(i64::MIN)
        } else {
            Some(-(acc as i64))
        }
    } else {
        Some(acc as i64)
    }
}

} // verus!

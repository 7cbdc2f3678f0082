//! Text scanning: decimal integers with the exact acceptance and range rules
//! of Rust's `i64`/`i32` parsers, the floating-point literal grammar, the
//! boolean flag words of the EDGAR schemas, trimming, and comma-separated
//! integer lists.

use vstd::prelude::*;

verus! {

pub open spec fn is_digit(c: char) -> bool {
    '0' <= c && c <= '9'
}

pub open spec fn digit_val(c: char) -> int {
    c as u32 - '0' as u32
}

pub open spec fn all_digits(s: Seq<char>) -> bool {
    forall|i: int| 0 <= i < s.len() ==> is_digit(#[trigger] s[i])
}

/// The number the digit string `s` writes in base ten.
pub open spec fn digits_value(s: Seq<char>) -> int
    decreases s.len(),
{
    if s.len() == 0 {
        0
    } else {
        digits_value(s.drop_last()) * 10 + digit_val(s.last())
    }
}

/// `s` without one leading `+` or `-`, where it has one.
pub open spec fn sign_stripped(s: Seq<char>) -> Seq<char> {
    if s.len() > 0 && (s[0] == '+' || s[0] == '-') {
        s.skip(1)
    } else {
        s
    }
}

/// The integer `s` writes: an optional sign, then one or more digits and
/// nothing else. `None` where `s` is not of that form.
pub open spec fn int_text_value(s: Seq<char>) -> Option<int> {
    let body = sign_stripped(s);
    if body.len() > 0 && all_digits(body) {
        if s.len() > 0 && s[0] == '-' {
            Some(-digits_value(body))
        } else {
            Some(digits_value(body))
        }
    } else {
        None
    }
}

/// What `str::parse::<i64>` accepts of `s`: the written integer, if it lies
/// within the signed 64-bit range.
pub open spec fn parsed_i64(s: Seq<char>) -> Option<int> {
    match int_text_value(s) {
        Some(v) => if i64::MIN <= v && v <= i64::MAX {
            Some(v)
        } else {
            None
        },
        None => None,
    }
}

/// What `str::parse::<i32>` accepts of `s`.
pub open spec fn parsed_i32(s: Seq<char>) -> Option<int> {
    match int_text_value(s) {
        Some(v) => if i32::MIN <= v && v <= i32::MAX {
            Some(v)
        } else {
            None
        },
        None => None,
    }
}

proof fn lemma_digits_value_nonneg(s: Seq<char>)
    requires
        all_digits(s),
    ensures
        digits_value(s) >= 0,
    decreases s.len(),
{
    if s.len() > 0 {
        assert(all_digits(s.drop_last()));
        lemma_digits_value_nonneg(s.drop_last());
        assert(is_digit(s.last()));
    }
}

/// A digit string is worth at least any of its prefixes.
proof fn lemma_digits_value_prefix(s: Seq<char>, i: int)
    requires
        all_digits(s),
        0 <= i <= s.len(),
    ensures
        digits_value(s.take(i)) <= digits_value(s),
    decreases s.len() - i,
{
    if i == s.len() {
        assert(s.take(i) =~= s);
    } else {
        assert(s.take(i + 1).drop_last() =~= s.take(i));
        assert(all_digits(s.take(i)));
        lemma_digits_value_nonneg(s.take(i));
        assert(is_digit(s[i]));
        assert(digits_value(s.take(i + 1)) == digits_value(s.take(i)) * 10 + digit_val(s[i]));
        lemma_digits_value_prefix(s, i + 1);
    }
}

/// Decimal integer parsing with exactly the acceptance and range behaviour
/// of `str::parse::<i64>`: an optional sign, one or more ASCII digits,
/// rejected when the value leaves the 64-bit range.
pub fn parse_i64(s: &str) -> (r: Option<i64>)
    ensures
        match r {
            Some(v) => parsed_i64(s@) == Some(v as int),
            None => parsed_i64(s@) is None,
        },
{
    let n = s.unicode_len();
    if n == 0 {
        return None;
    }
    let first = s.get_char(0);
    let neg = first == '-';
    let start: usize = if first == '-' || first == '+' {
        1
    } else {
        0
    };
    let ghost body = sign_stripped(s@);
    proof {
        assert(body =~= s@.skip(start as int));
    }
    if start == n {
        assert(body.len() == 0);
        return None;
    }
    let mut acc: u128 = 0;
    let mut i: usize = start;
    while i < n
        invariant
            start <= i <= n,
            n == s@.len(),
            start == 1 <==> (s@.len() > 0 && (s@[0] == '+' || s@[0] == '-')),
            start == 0 || start == 1,
            body == sign_stripped(s@),
            body == s@.skip(start as int),
            neg <==> (s@.len() > 0 && s@[0] == '-'),
            all_digits(s@.subrange(start as int, i as int)),
            acc as int == digits_value(s@.subrange(start as int, i as int)),
            acc <= 0x8000_0000_0000_0000u128,
        decreases n - i,
    {
        let c = s.get_char(i);
        if !('0' <= c && c <= '9') {
            proof {
                assert(body[i - start] == s@[i as int]);
                assert(!is_digit(body[i - start]));
                assert(!all_digits(body));
            }
            return None;
        }
        let d: u128 = (c as u32 - 48) as u128;
        proof {
            assert(d as int == digit_val(c));
        }
        acc = acc * 10 + d;
        proof {
            let pre = s@.subrange(start as int, i as int);
            let now = s@.subrange(start as int, i + 1 as int);
            assert(now.drop_last() =~= pre);
            assert(now.last() == s@[i as int]);
            assert(acc as int == digits_value(now));
            assert(all_digits(now));
        }
        i += 1;
        if acc > 0x8000_0000_0000_0000u128 {
            proof {
                let pre = s@.subrange(start as int, i as int);
                if all_digits(body) {
                    assert(pre =~= body.take(i - start));
                    lemma_digits_value_prefix(body, i - start);
                    assert(digits_value(body) >= digits_value(pre));
                    assert(digits_value(body) > 0x8000_0000_0000_0000);
                    assert(int_text_value(s@) matches Some(v) && (v > i64::MAX || v < i64::MIN));
                }
            }
            return None;
        }
    }
    proof {
        assert(s@.subrange(start as int, n as int) =~= body);
        assert(all_digits(body));
        assert(acc as int == digits_value(body));
        assert(body.len() > 0);
        assert(int_text_value(s@) is Some);
        lemma_digits_value_nonneg(body);
    }
    if neg {
        if acc == 0x8000_0000_0000_0000u128 {
            Some(i64::MIN)
        } else {
            Some(-(acc as i64))
        }
    } else {
        if acc == 0x8000_0000_0000_0000u128 {
            None
        } else {
            Some(acc as i64)
        }
    }
}

/// Decimal integer parsing with the acceptance and range behaviour of
/// `str::parse::<i32>`.
pub fn parse_i32(s: &str) -> (r: Option<i32>)
    ensures
        match r {
            Some(v) => parsed_i32(s@) == Some(v as int),
            None => parsed_i32(s@) is None,
        },
{
    match parse_i64(s) {
        Some(v) => if -2147483648i64 <= v && v <= 2147483647i64 {
            Some(v as i32)
        } else {
            None
        },
        None => None,
    }
}

/// The boolean a flag text denotes: `1`, `Y` or `TRUE` in any letter case is
/// true, `0`, `N` or `FALSE` is false, anything else is no boolean.
pub open spec fn bool_word(s: Seq<char>) -> Option<bool> {
    if s.len() == 1 && s[0] == '1' {
        Some(true)
    } else if s.len() == 1 && s[0] == '0' {
        Some(false)
    } else if s.len() == 1 && ueq(s[0], 'Y') {
        Some(true)
    } else if s.len() == 1 && ueq(s[0], 'N') {
        Some(false)
    } else if s.len() == 4 && ueq(s[0], 'T') && ueq(s[1], 'R') && ueq(s[2], 'U') && ueq(s[3], 'E') {
        Some(true)
    } else if s.len() == 5 && ueq(s[0], 'F') && ueq(s[1], 'A') && ueq(s[2], 'L') && ueq(s[3], 'S')
        && ueq(s[4], 'E') {
        Some(false)
    } else {
        None
    }
}

/// Whether `c` is the upper-case ASCII letter `u` in either case.
pub open spec fn ueq(c: char, u: char) -> bool {
    c == u || c as u32 == u as u32 + 32
}

/// Reads a flag word as [`bool_word`] says.
pub fn parse_bool_word(s: &str) -> (r: Option<bool>)
    ensures
        r == bool_word(s@),
{
    let n = s.unicode_len();
    if n == 1 {
        let c = s.get_char(0);
        if c == '1' || c == 'Y' || c == 'y' {
            Some(true)
        } else if c == '0' || c == 'N' || c == 'n' {
            Some(false)
        } else {
            None
        }
    } else if n == 4 {
        let c0 = s.get_char(0);
        let c1 = s.get_char(1);
        let c2 = s.get_char(2);
        let c3 = s.get_char(3);
        if (c0 == 'T' || c0 == 't') && (c1 == 'R' || c1 == 'r') && (c2 == 'U' || c2 == 'u') && (c3
            == 'E' || c3 == 'e') {
            Some(true)
        } else {
            None
        }
    } else if n == 5 {
        let c0 = s.get_char(0);
        let c1 = s.get_char(1);
        let c2 = s.get_char(2);
        let c3 = s.get_char(3);
        let c4 = s.get_char(4);
        if (c0 == 'F' || c0 == 'f') && (c1 == 'A' || c1 == 'a') && (c2 == 'L' || c2 == 'l') && (c3
            == 'S' || c3 == 's') && (c4 == 'E' || c4 == 'e') {
            Some(false)
        } else {
            None
        }
    } else {
        None
    }
}

/// Whether `c` is the lower-case ASCII letter `l` in either case.
pub open spec fn leq(c: char, l: char) -> bool {
    c == l || c as u32 + 32 == l as u32
}

pub open spec fn is_exp_char(c: char) -> bool {
    c == 'e' || c == 'E'
}

/// The position of the first exponent marker at or after `i`.
pub open spec fn first_exp_from(s: Seq<char>, i: int) -> Option<int>
    decreases s.len() - i,
{
    if i < 0 || i >= s.len() {
        None
    } else if is_exp_char(s[i]) {
        Some(i)
    } else {
        first_exp_from(s, i + 1)
    }
}

pub open spec fn count_char(s: Seq<char>, c: char) -> int
    decreases s.len(),
{
    if s.len() == 0 {
        0
    } else {
        count_char(s.drop_last(), c) + if s.last() == c {
            1int
        } else {
            0int
        }
    }
}

/// Digits holding at most one decimal point and at least one digit.
pub open spec fn is_mantissa(s: Seq<char>) -> bool {
    &&& forall|i: int| 0 <= i < s.len() ==> is_digit(#[trigger] s[i]) || s[i] == '.'
    &&& count_char(s, '.') <= 1
    &&& exists|i: int| 0 <= i < s.len() && is_digit(#[trigger] s[i])
}

/// An optional sign, then one or more digits: what may follow an exponent
/// marker.
pub open spec fn is_exp_tail(s: Seq<char>) -> bool {
    let b = sign_stripped(s);
    b.len() > 0 && all_digits(b)
}

/// `inf`, `infinity` or `nan` in any letter case.
pub open spec fn is_special_float(s: Seq<char>) -> bool {
    ||| (s.len() == 3 && leq(s[0], 'i') && leq(s[1], 'n') && leq(s[2], 'f'))
    ||| (s.len() == 8 && leq(s[0], 'i') && leq(s[1], 'n') && leq(s[2], 'f') && leq(s[3], 'i') && leq(
        s[4],
        'n',
    ) && leq(s[5], 'i') && leq(s[6], 't') && leq(s[7], 'y'))
    ||| (s.len() == 3 && leq(s[0], 'n') && leq(s[1], 'a') && leq(s[2], 'n'))
}

/// A mantissa with an optional exponent.
pub open spec fn is_float_body(s: Seq<char>) -> bool {
    match first_exp_from(s, 0) {
        Some(k) => is_mantissa(s.take(k)) && is_exp_tail(s.skip(k + 1)),
        None => is_mantissa(s),
    }
}

/// Whether `s` is a floating-point literal as Rust's binary64 parser
/// accepts it: an optional sign, then either digits with an optional point
/// and an optional exponent, or `inf`, `infinity` or `nan` in any letter
/// case.
pub open spec fn is_float_text(s: Seq<char>) -> bool {
    let b = sign_stripped(s);
    is_special_float(b) || is_float_body(b)
}

fn special_float(b: &str) -> (r: bool)
    ensures
        r == is_special_float(b@),
{
    let n = b.unicode_len();
    if n == 3 {
        let c0 = b.get_char(0);
        let c1 = b.get_char(1);
        let c2 = b.get_char(2);
        ((c0 == 'i' || c0 == 'I') && (c1 == 'n' || c1 == 'N') && (c2 == 'f' || c2 == 'F')) || ((c0
            == 'n' || c0 == 'N') && (c1 == 'a' || c1 == 'A') && (c2 == 'n' || c2 == 'N'))
    } else if n == 8 {
        let c0 = b.get_char(0);
        let c1 = b.get_char(1);
        let c2 = b.get_char(2);
        let c3 = b.get_char(3);
        let c4 = b.get_char(4);
        let c5 = b.get_char(5);
        let c6 = b.get_char(6);
        let c7 = b.get_char(7);
        (c0 == 'i' || c0 == 'I') && (c1 == 'n' || c1 == 'N') && (c2 == 'f' || c2 == 'F') && (c3
            == 'i' || c3 == 'I') && (c4 == 'n' || c4 == 'N') && (c5 == 'i' || c5 == 'I') && (c6
            == 't' || c6 == 'T') && (c7 == 'y' || c7 == 'Y')
    } else {
        false
    }
}

fn mantissa(m: &str) -> (r: bool)
    ensures
        r == is_mantissa(m@),
{
    let n = m.unicode_len();
    let mut dots: usize = 0;
    let mut seen_digit = false;
    let mut i: usize = 0;
    while i < n
        invariant
            0 <= i <= n,
            n == m@.len(),
            dots <= i,
            forall|k: int| 0 <= k < i ==> is_digit(#[trigger] m@[k]) || m@[k] == '.',
            dots as int == count_char(m@.take(i as int), '.'),
            seen_digit == exists|k: int| 0 <= k < i && is_digit(#[trigger] m@[k]),
        decreases n - i,
    {
        let c = m.get_char(i);
        proof {
            assert(m@.take(i + 1 as int).drop_last() =~= m@.take(i as int));
            assert(m@.take(i + 1 as int).last() == m@[i as int]);
        }
        if c == '.' {
            dots += 1;
        } else if '0' <= c && c <= '9' {
            seen_digit = true;
        } else {
            return false;
        }
        i += 1;
    }
    proof {
        assert(m@.take(n as int) =~= m@);
    }
    seen_digit && dots <= 1
}

fn exp_tail(t: &str) -> (r: bool)
    ensures
        r == is_exp_tail(t@),
{
    let n = t.unicode_len();
    let mut start: usize = 0;
    if n > 0 {
        let c = t.get_char(0);
        if c == '+' || c == '-' {
            start = 1;
        }
    }
    let ghost b = sign_stripped(t@);
    proof {
        assert(b =~= t@.skip(start as int));
    }
    if start == n {
        return false;
    }
    let mut i: usize = start;
    while i < n
        invariant
            start <= i <= n,
            n == t@.len(),
            b == sign_stripped(t@),
            b == t@.skip(start as int),
            forall|k: int| 0 <= k < i - start ==> is_digit(#[trigger] b[k]),
        decreases n - i,
    {
        let c = t.get_char(i);
        if !('0' <= c && c <= '9') {
            proof {
                assert(b[i - start] == t@[i as int]);
                assert(!is_digit(b[i - start]));
                assert(!all_digits(b));
            }
            return false;
        }
        i += 1;
    }
    proof {
        assert(forall|k: int| 0 <= k < b.len() ==> is_digit(#[trigger] b[k]));
    }
    true
}

fn float_body(b: &str) -> (r: bool)
    ensures
        r == is_float_body(b@),
{
    let n = b.unicode_len();
    let mut i: usize = 0;
    let mut exp_at: usize = n;
    let mut found = false;
    while i < n
        invariant
            0 <= i <= n,
            n == b@.len(),
            !found ==> first_exp_from(b@, 0) == first_exp_from(b@, i as int),
            found ==> exp_at < n && first_exp_from(b@, 0) == Some(exp_at as int),
            found ==> i == n,
        decreases n - i,
    {
        let c = b.get_char(i);
        if c == 'e' || c == 'E' {
            exp_at = i;
            found = true;
            i = n;
        } else {
            i += 1;
        }
    }
    if found {
        let m = b.substring_char(0, exp_at);
        let t = b.substring_char(exp_at + 1, n);
        proof {
            assert(m@ =~= b@.take(exp_at as int));
            assert(t@ =~= b@.skip(exp_at + 1 as int));
        }
        let mant_ok = mantissa(m);
        mant_ok && exp_tail(t)
    } else {
        mantissa(b)
    }
}

/// ASCII whitespace, as trimming of list entries removes it.
pub open spec fn is_space(c: char) -> bool {
    c == ' ' || c == '\t' || c == '\n' || c == '\r' || c == '\u{b}' || c == '\u{c}'
}

/// The first index at or after `i` holding a non-space, or the length.
pub open spec fn space_prefix_end(s: Seq<char>, i: int) -> int
    decreases s.len() - i,
{
    if i < 0 || i >= s.len() {
        s.len() as int
    } else if is_space(s[i]) {
        space_prefix_end(s, i + 1)
    } else {
        i
    }
}

/// The end of the last non-space strictly before `j`, or zero.
pub open spec fn space_suffix_start(s: Seq<char>, j: int) -> int
    decreases j,
{
    if j <= 0 {
        0
    } else if j <= s.len() && is_space(s[j - 1]) {
        space_suffix_start(s, j - 1)
    } else {
        j
    }
}

/// `s` without leading and trailing whitespace.
pub open spec fn trimmed(s: Seq<char>) -> Seq<char> {
    let lo = space_prefix_end(s, 0);
    let hi = space_suffix_start(s, s.len() as int);
    if lo <= hi {
        s.subrange(lo, hi)
    } else {
        Seq::empty()
    }
}

proof fn lemma_space_suffix_start_bounds(s: Seq<char>, j: int)
    requires
        0 <= j <= s.len(),
    ensures
        0 <= space_suffix_start(s, j) <= j,
    decreases j,
{
    if j > 0 && is_space(s[j - 1]) {
        lemma_space_suffix_start_bounds(s, j - 1);
    }
}

/// `t` without leading and trailing ASCII whitespace.
pub fn trim_spaces<'a>(t: &'a str) -> (r: &'a str)
    ensures
        r@ == trimmed(t@),
{
    let n = t.unicode_len();
    let mut lo: usize = 0;
    while lo < n
        invariant_except_break
            0 <= lo <= n,
            n == t@.len(),
            space_prefix_end(t@, 0) == space_prefix_end(t@, lo as int),
        ensures
            0 <= lo <= n,
            n == t@.len(),
            space_prefix_end(t@, 0) == lo as int,
            lo == n || !is_space(t@[lo as int]),
        decreases n - lo,
    {
        let c = t.get_char(lo);
        if !(c == ' ' || c == '\t' || c == '\n' || c == '\r' || c == '\u{b}' || c == '\u{c}') {
            proof {
                assert(!is_space(t@[lo as int]));
                assert(space_prefix_end(t@, lo as int) == lo as int);
            }
            break;
        }
        lo += 1;
    }
    if lo == n {
        let r = t.substring_char(n, n);
        proof {
            lemma_space_suffix_start_bounds(t@, n as int);
            assert(r@ =~= trimmed(t@));
        }
        return r;
    }
    let mut hi: usize = n;
    while hi > lo
        invariant_except_break
            lo < hi <= n,
            n == t@.len(),
            lo < n,
            space_prefix_end(t@, 0) == lo as int,
            !is_space(t@[lo as int]),
            space_suffix_start(t@, n as int) == space_suffix_start(t@, hi as int),
        ensures
            lo < hi <= n,
            n == t@.len(),
            space_prefix_end(t@, 0) == lo as int,
            space_suffix_start(t@, n as int) == hi as int,
        decreases hi,
    {
        let c = t.get_char(hi - 1);
        if !(c == ' ' || c == '\t' || c == '\n' || c == '\r' || c == '\u{b}' || c == '\u{c}') {
            proof {
                assert(!is_space(t@[hi - 1]));
                assert(space_suffix_start(t@, hi as int) == hi as int);
            }
            break;
        }
        hi -= 1;
        proof {
            if hi == lo {
                assert(is_space(t@[lo as int]));
                assert(false);
            }
        }
    }
    let r = t.substring_char(lo, hi);
    proof {
        assert(r@ =~= trimmed(t@));
    }
    r
}

/// The position of the first comma at or after `i`.
pub open spec fn first_comma_from(s: Seq<char>, i: int) -> Option<int>
    decreases s.len() - i,
{
    if i < 0 || i >= s.len() {
        None
    } else if s[i] == ',' {
        Some(i)
    } else {
        first_comma_from(s, i + 1)
    }
}

/// The integers one comma-separated entry contributes: its trimmed text read
/// as an `i32`, or nothing where it does not parse.
pub open spec fn entry_ints(c: Seq<char>) -> Seq<i32> {
    match parsed_i32(trimmed(c)) {
        Some(v) => seq![v as i32],
        None => Seq::empty(),
    }
}

/// The integers a comma-separated list text holds, in order, entries that do
/// not parse dropped.
pub open spec fn int_list(s: Seq<char>) -> Seq<i32>
    decreases s.len(),
{
    match first_comma_from(s, 0) {
        Some(k) => if 0 <= k < s.len() {
            entry_ints(s.take(k)) + int_list(s.skip(k + 1))
        } else {
            entry_ints(s)
        },
        None => entry_ints(s),
    }
}

fn push_entry(c: &str, out: &mut Vec<i32>)
    ensures
        final(out)@ == old(out)@ + entry_ints(c@),
{
    let tr = trim_spaces(c);
    match parse_i32(tr) {
        Some(v) => {
            out.push(v);
            proof {
                assert(out@ =~= old(out)@ + entry_ints(c@));
            }
        },
        None => {
            proof {
                assert(out@ =~= old(out)@ + entry_ints(c@));
            }
        },
    }
}

/// Appends the integers the comma-separated list `t` holds, in order.
pub fn list_ints(t: &str, out: &mut Vec<i32>)
    ensures
        final(out)@ == old(out)@ + int_list(t@),
    decreases t@.len(),
{
    let n = t.unicode_len();
    let mut i: usize = 0;
    let mut comma: usize = n;
    let mut found = false;
    while i < n
        invariant_except_break
            0 <= i <= n,
            n == t@.len(),
            !found,
            first_comma_from(t@, 0) == first_comma_from(t@, i as int),
            out@ == old(out)@,
        ensures
            n == t@.len(),
            out@ == old(out)@,
            found ==> comma < n && first_comma_from(t@, 0) == Some(comma as int),
            !found ==> first_comma_from(t@, 0) is None,
        decreases n - i,
    {
        let c = t.get_char(i);
        if c == ',' {
            comma = i;
            found = true;
            break;
        }
        i += 1;
    }
    if found {
        let head = t.substring_char(0, comma);
        proof {
            assert(head@ =~= t@.take(comma as int));
        }
        push_entry(head, out);
        let rest = t.substring_char(comma + 1, n);
        proof {
            assert(rest@ =~= t@.skip(comma + 1 as int));
        }
        list_ints(rest, out);
        proof {
            assert(out@ =~= old(out)@ + (entry_ints(t@.take(comma as int)) + int_list(t@.skip(
                comma + 1 as int,
            ))));
        }
    } else {
        push_entry(t, out);
    }
}

/// Whether the text is a floating-point literal, as [`is_float_text`] says.
pub fn float_text(s: &str) -> (r: bool)
    ensures
        r == is_float_text(s@),
{
    let n = s.unicode_len();
    let mut start: usize = 0;
    if n > 0 {
        let c = s.get_char(0);
        if c == '+' || c == '-' {
            start = 1;
        }
    }
    let body = s.substring_char(start, n);
    proof {
        assert(body@ =~= sign_stripped(s@));
    }
    if special_float(body) {
        true
    } else {
        float_body(body)
    }
}

} // verus!

//! Character-level text utilities the screens and the configuration
//! parser are built on: equality, prefix tests, searching, splitting,
//! trimming, decimal and hexadecimal parsing, decimal formatting, and
//! the fixed-budget truncation rules of the display.

use vstd::prelude::*;
use vstd::string::*;

verus! {

/// A decimal digit.
pub open spec fn is_digit_char(c: char) -> bool {
    48 <= (c as u32) && (c as u32) <= 57
}

/// Numeric value of a decimal digit.
pub open spec fn digit_val(c: char) -> int {
    (c as u32) - 48
}

/// Every character of `s` is a decimal digit.
pub open spec fn all_digits(s: Seq<char>) -> bool {
    forall|i: int| 0 <= i < s.len() ==> is_digit_char(s[i])
}

/// Value of a digit string read in base 10.
pub open spec fn dec_value(s: Seq<char>) -> int
    decreases s.len(),
{
    if s.len() == 0 {
        0
    } else {
        dec_value(s.drop_last()) * 10 + digit_val(s.last())
    }
}

/// What `parse_u64` returns: the base-10 value of a non-empty all-digit
/// string, if it fits in a `u64`.
pub open spec fn parse_u64_spec(s: Seq<char>) -> Option<u64> {
    if s.len() > 0 && all_digits(s) && dec_value(s) <= u64::MAX {
        Some(dec_value(s) as u64)
    } else {
        None
    }
}

/// What `parse_u8` returns.
pub open spec fn parse_u8_spec(s: Seq<char>) -> Option<u8> {
    if s.len() > 0 && all_digits(s) && dec_value(s) <= u8::MAX {
        Some(dec_value(s) as u8)
    } else {
        None
    }
}

proof fn lemma_dec_value_nonneg(s: Seq<char>)
    requires
        all_digits(s),
    ensures
        dec_value(s) >= 0,
    decreases s.len(),
{
    if s.len() > 0 {
        assert(all_digits(s.drop_last()));
        lemma_dec_value_nonneg(s.drop_last());
    }
}

/// Reading more digits never shrinks the value: the value of the whole
/// string is at least the value of any prefix.
proof fn lemma_dec_value_prefix_le(s: Seq<char>, i: int)
    requires
        all_digits(s),
        0 <= i <= s.len(),
    ensures
        dec_value(s.subrange(0, i)) <= dec_value(s),
    decreases s.len() - i,
{
    if i < s.len() {
        let shorter = s.subrange(0, i);
        let longer = s.subrange(0, i + 1);
        assert(longer.drop_last() =~= shorter);
        assert(all_digits(shorter));
        lemma_dec_value_nonneg(shorter);
        assert(dec_value(longer) == dec_value(shorter) * 10 + digit_val(longer.last()));
        assert(dec_value(shorter) * 10 >= dec_value(shorter)) by (nonlinear_arith)
            requires
                dec_value(shorter) >= 0,
        ;
        assert(is_digit_char(s[i]));
        lemma_dec_value_prefix_le(s, i + 1);
        assert(s.subrange(0, s.len() as int) =~= s);
    } else {
        assert(s.subrange(0, i) =~= s);
    }
}

/// Character-by-character string equality.
pub fn str_eq(a: &str, b: &str) -> (r: bool)
    ensures
        r == (a@ == b@),
{
    let alen = a.unicode_len();
    let blen = b.unicode_len();
    if alen != blen {
        return false;
    }
    let mut i: usize = 0;
    while i < alen
        invariant
            0 <= i <= alen,
            alen == a@.len(),
            alen == b@.len(),
            forall|j: int| 0 <= j < i ==> a@[j] == b@[j],
        decreases alen - i,
    {
        if a.get_char(i) != b.get_char(i) {
            return false;
        }
        i += 1;
    }
    proof {
        assert(a@ =~= b@);
    }
    true
}

/// Parses a non-empty string of decimal digits as a `u64`; anything
/// else, or a value over `u64::MAX`, is `None`.
pub fn parse_u64(s: &str) -> (r: Option<u64>)
    ensures
        r == parse_u64_spec(s@),
{
    let n = s.unicode_len();
    if n == 0 {
        return None;
    }
    let mut acc: u64 = 0;
    let mut i: usize = 0;
    while i < n
        invariant
            0 <= i <= n,
            n == s@.len(),
            all_digits(s@.subrange(0, i as int)),
            acc == dec_value(s@.subrange(0, i as int)),
        decreases n - i,
    {
        let c = s.get_char(i);
        let cv = c as u32;
        if cv < 48 || cv > 57 {
            assert(!is_digit_char(s@[i as int]));
            return None;
        }
        let d = (cv - 48) as u64;
        proof {
            assert(s@.subrange(0, i + 1).drop_last() =~= s@.subrange(0, i as int));
        }
        let next = match acc.checked_mul(10) {
            Some(m) => m.checked_add(d),
            None => None,
        };
        match next {
            Some(v) => {
                acc = v;
            },
            None => {
                proof {
                    let longer = s@.subrange(0, i + 1);
                    assert(dec_value(longer) == acc * 10 + d);
                    assert(dec_value(longer) > u64::MAX);
                    if all_digits(s@) {
                        lemma_dec_value_prefix_le(s@, i + 1);
                    }
                }
                return None;
            },
        }
        i += 1;
    }
    proof {
        assert(s@.subrange(0, n as int) =~= s@);
    }
    Some(acc)
}

/// Parses a non-empty string of decimal digits as a `u8`.
pub fn parse_u8(s: &str) -> (r: Option<u8>)
    ensures
        r == parse_u8_spec(s@),
{
    match parse_u64(s) {
        Some(v) => {
            if v <= 255 {
                proof {
                    if s@.len() > 0 && all_digits(s@) {
                        lemma_dec_value_nonneg(s@);
                        assert(dec_value(s@) == v);
                    }
                }
                Some(v as u8)
            } else {
                proof {
                    if s@.len() > 0 && all_digits(s@) {
                        lemma_dec_value_nonneg(s@);
                        assert(dec_value(s@) == v);
                    }
                }
                None
            }
        },
        None => {
            proof {
                if s@.len() > 0 && all_digits(s@) && dec_value(s@) <= u8::MAX {
                    assert(dec_value(s@) <= u64::MAX);
                }
            }
            None
        },
    }
}

/// A hexadecimal digit, either case.
pub open spec fn is_hex_digit(c: char) -> bool {
    is_digit_char(c) || (97 <= (c as u32) && (c as u32) <= 102) || (65 <= (c as u32) && (c
        as u32) <= 70)
}

/// Numeric value of a hexadecimal digit.
pub open spec fn hex_digit_val(c: char) -> int {
    if is_digit_char(c) {
        (c as u32) - 48
    } else if 97 <= (c as u32) {
        (c as u32) - 87
    } else {
        (c as u32) - 55
    }
}

/// Every character of `s` is a hexadecimal digit.
pub open spec fn all_hex_digits(s: Seq<char>) -> bool {
    forall|i: int| 0 <= i < s.len() ==> is_hex_digit(s[i])
}

/// Value of a digit string read in base 16.
pub open spec fn hex_value(s: Seq<char>) -> int
    decreases s.len(),
{
    if s.len() == 0 {
        0
    } else {
        hex_value(s.drop_last()) * 16 + hex_digit_val(s.last())
    }
}

/// What `parse_u8_hex` returns.
pub open spec fn parse_u8_hex_spec(s: Seq<char>) -> Option<u8> {
    if s.len() > 0 && all_hex_digits(s) && hex_value(s) <= u8::MAX {
        Some(hex_value(s) as u8)
    } else {
        None
    }
}

proof fn lemma_hex_value_nonneg(s: Seq<char>)
    requires
        all_hex_digits(s),
    ensures
        hex_value(s) >= 0,
    decreases s.len(),
{
    if s.len() > 0 {
        assert(all_hex_digits(s.drop_last()));
        lemma_hex_value_nonneg(s.drop_last());
    }
}

proof fn lemma_hex_value_prefix_le(s: Seq<char>, i: int)
    requires
        all_hex_digits(s),
        0 <= i <= s.len(),
    ensures
        hex_value(s.subrange(0, i)) <= hex_value(s),
    decreases s.len() - i,
{
    if i < s.len() {
        let shorter = s.subrange(0, i);
        let longer = s.subrange(0, i + 1);
        assert(longer.drop_last() =~= shorter);
        assert(all_hex_digits(shorter));
        lemma_hex_value_nonneg(shorter);
        assert(hex_value(longer) == hex_value(shorter) * 16 + hex_digit_val(longer.last()));
        assert(hex_value(shorter) * 16 >= hex_value(shorter)) by (nonlinear_arith)
            requires
                hex_value(shorter) >= 0,
        ;
        assert(is_hex_digit(s[i]));
        lemma_hex_value_prefix_le(s, i + 1);
        assert(s.subrange(0, s.len() as int) =~= s);
    } else {
        assert(s.subrange(0, i) =~= s);
    }
}

/// Parses a non-empty string of hexadecimal digits as a `u8`.
pub fn parse_u8_hex(s: &str) -> (r: Option<u8>)
    ensures
        r == parse_u8_hex_spec(s@),
{
    let n = s.unicode_len();
    if n == 0 {
        return None;
    }
    let mut acc: u8 = 0;
    let mut i: usize = 0;
    while i < n
        invariant
            0 <= i <= n,
            n == s@.len(),
            all_hex_digits(s@.subrange(0, i as int)),
            acc == hex_value(s@.subrange(0, i as int)),
        decreases n - i,
    {
        let c = s.get_char(i);
        let cv = c as u32;
        let d: u8 = if 48 <= cv && cv <= 57 {
            (cv - 48) as u8
        } else if 97 <= cv && cv <= 102 {
            (cv - 87) as u8
        } else if 65 <= cv && cv <= 70 {
            (cv - 55) as u8
        } else {
            assert(!is_hex_digit(s@[i as int]));
            return None;
        };
        proof {
            assert(s@.subrange(0, i + 1).drop_last() =~= s@.subrange(0, i as int));
        }
        let next = match acc.checked_mul(16) {
            Some(m) => m.checked_add(d),
            None => None,
        };
        match next {
            Some(v) => {
                acc = v;
            },
            None => {
                proof {
                    let longer = s@.subrange(0, i + 1);
                    assert(hex_value(longer) == acc * 16 + d);
                    if all_hex_digits(s@) {
                        lemma_hex_value_prefix_le(s@, i + 1);
                    }
                }
                return None;
            },
        }
        i += 1;
    }
    proof {
        assert(s@.subrange(0, n as int) =~= s@);
    }
    Some(acc)
}

/// The character that writes a decimal digit.
pub open spec fn dec_digit_char(d: int) -> char {
    if d == 0 {
        '0'
    } else if d == 1 {
        '1'
    } else if d == 2 {
        '2'
    } else if d == 3 {
        '3'
    } else if d == 4 {
        '4'
    } else if d == 5 {
        '5'
    } else if d == 6 {
        '6'
    } else if d == 7 {
        '7'
    } else if d == 8 {
        '8'
    } else {
        '9'
    }
}

/// Decimal writing of a nonnegative number, most significant digit first.
pub open spec fn dec_seq_of(n: int) -> Seq<char>
    decreases n,
{
    if n < 10 {
        seq![dec_digit_char(n)]
    } else {
        dec_seq_of(n / 10).push(dec_digit_char(n % 10))
    }
}

fn digit_str(d: u64) -> (r: &'static str)
    requires
        d < 10,
    ensures
        r@ == seq![dec_digit_char(d as int)],
{
    proof {
        reveal_strlit("0");
        reveal_strlit("1");
        reveal_strlit("2");
        reveal_strlit("3");
        reveal_strlit("4");
        reveal_strlit("5");
        reveal_strlit("6");
        reveal_strlit("7");
        reveal_strlit("8");
        reveal_strlit("9");
    }
    let r = match d {
        0 => "0",
        1 => "1",
        2 => "2",
        3 => "3",
        4 => "4",
        5 => "5",
        6 => "6",
        7 => "7",
        8 => "8",
        _ => "9",
    };
    proof {
        assert(r@ =~= seq![dec_digit_char(d as int)]);
    }
    r
}

/// Writes a number in decimal.
pub fn u64_to_string(n: u64) -> (r: String)
    ensures
        r@ == dec_seq_of(n as int),
    decreases n,
{
    if n < 10 {
        String::from_str(digit_str(n))
    } else {
        let mut s = u64_to_string(n / 10);
        s.append(digit_str(n % 10));
        proof {
            assert(s@ =~= dec_seq_of(n as int));
        }
        s
    }
}

/// Relies on `String::push`, which std documents as appending exactly
/// the given character to the end of the string.
#[verifier::external_body]
pub(crate) fn push_char(s: &mut String, c: char)
    ensures
        final(s)@ == old(s)@.push(c),
{
    s.push(c);
}

/// The keep-the-tail truncation rule: a string longer than `keep`
/// characters becomes an ellipsis followed by its last `keep` characters.
pub open spec fn keep_last_seq(s: Seq<char>, keep: int) -> Seq<char> {
    if s.len() <= keep {
        s
    } else {
        "..."@ + s.subrange(s.len() - keep, s.len() as int)
    }
}

/// The keep-the-head truncation rule: a string longer than `budget`
/// characters is cut to its first `budget - 3` characters plus an
/// ellipsis, so the result never exceeds `budget` characters.
pub open spec fn elide_seq(s: Seq<char>, budget: int) -> Seq<char> {
    if s.len() <= budget {
        s
    } else {
        s.subrange(0, budget - 3) + "..."@
    }
}

/// Keep-the-tail truncation: a string longer than `keep` characters is
/// replaced by an ellipsis followed by its last `keep` characters.
pub fn truncate_keep_last(s: &str, keep: usize) -> (r: String)
    ensures
        r@ == keep_last_seq(s@, keep as int),
{
    let n = s.unicode_len();
    if n <= keep {
        s.to_owned()
    } else {
        let tail = s.substring_char(n - keep, n);
        let mut r = String::from_str("...");
        r.append(tail);
        r
    }
}

/// Keep-the-head truncation: a string longer than `budget` characters is
/// cut to its first `budget - 3` characters followed by an ellipsis.
pub fn truncate_with_ellipsis(s: &str, budget: usize) -> (r: String)
    requires
        budget >= 3,
    ensures
        r@ == elide_seq(s@, budget as int),
{
    let n = s.unicode_len();
    if n <= budget {
        s.to_owned()
    } else {
        let head = s.substring_char(0, budget - 3);
        let mut r = head.to_owned();
        r.append("...");
        r
    }
}

/// Character-by-character prefix test.
pub fn starts_with_str(s: &str, prefix: &str) -> (r: bool)
    ensures
        r == prefix@.is_prefix_of(s@),
{
    let n = s.unicode_len();
    let plen = prefix.unicode_len();
    if plen > n {
        return false;
    }
    let mut i: usize = 0;
    while i < plen
        invariant
            0 <= i <= plen,
            plen <= n,
            n == s@.len(),
            plen == prefix@.len(),
            forall|j: int| 0 <= j < i ==> s@[j] == prefix@[j],
        decreases plen - i,
    {
        if s.get_char(i) != prefix.get_char(i) {
            return false;
        }
        i += 1;
    }
    proof {
        assert(prefix@ =~= s@.subrange(0, prefix@.len() as int));
    }
    true
}

/// `s` with every leading repetition of `p` removed.
pub open spec fn strip_all_prefix(s: Seq<char>, p: Seq<char>) -> Seq<char>
    decreases s.len(),
{
    if p.len() > 0 && p.is_prefix_of(s) {
        strip_all_prefix(s.skip(p.len() as int), p)
    } else {
        s
    }
}

/// Removes every leading repetition of `prefix` from `s`.
pub fn strip_prefix_all<'a>(s: &'a str, prefix: &str) -> (r: &'a str)
    ensures
        r@ == strip_all_prefix(s@, prefix@),
{
    let plen = prefix.unicode_len();
    if plen == 0 {
        return s;
    }
    let mut cur: &str = s;
    let mut curlen = s.unicode_len();
    while starts_with_str(cur, prefix)
        invariant
            plen == prefix@.len(),
            plen > 0,
            curlen == cur@.len(),
            strip_all_prefix(s@, prefix@) == strip_all_prefix(cur@, prefix@),
        decreases curlen,
    {
        cur = cur.substring_char(plen, curlen);
        curlen = curlen - plen;
    }
    cur
}

/// The longest suffix of `s` holding no `sep`: everything after the last
/// separator, or all of `s` when there is none.
pub open spec fn last_segment_spec(s: Seq<char>, sep: char) -> Seq<char>
    decreases s.len(),
{
    if s.len() == 0 {
        s
    } else if s.last() == sep {
        Seq::empty()
    } else {
        last_segment_spec(s.drop_last(), sep).push(s.last())
    }
}

/// Everything after the last `sep` in `s`, or all of `s` when there is
/// none.
pub fn last_segment<'a>(s: &'a str, sep: char) -> (r: &'a str)
    ensures
        r@ == last_segment_spec(s@, sep),
{
    let n = s.unicode_len();
    let mut i: usize = n;
    proof {
        assert(s@.subrange(0, n as int) =~= s@);
        assert(last_segment_spec(s@, sep) + s@.subrange(n as int, n as int) =~= last_segment_spec(
            s@,
            sep,
        ));
    }
    while i > 0 && s.get_char(i - 1) != sep
        invariant
            0 <= i <= n,
            n == s@.len(),
            last_segment_spec(s@, sep) == last_segment_spec(s@.subrange(0, i as int), sep)
                + s@.subrange(i as int, n as int),
        decreases i,
    {
        proof {
            let pre = s@.subrange(0, i as int);
            assert(pre.drop_last() =~= s@.subrange(0, i - 1));
            assert(last_segment_spec(pre, sep) == last_segment_spec(
                s@.subrange(0, i - 1),
                sep,
            ).push(s@[i - 1]));
            assert(last_segment_spec(s@.subrange(0, i - 1), sep).push(s@[i - 1]) + s@.subrange(
                i as int,
                n as int,
            ) =~= last_segment_spec(s@.subrange(0, i - 1), sep) + s@.subrange(i - 1, n as int));
        }
        i = i - 1;
    }
    proof {
        let pre = s@.subrange(0, i as int);
        if i == 0 {
            assert(pre =~= Seq::<char>::empty());
            assert(last_segment_spec(pre, sep) + s@.subrange(0, n as int) =~= s@.subrange(
                0,
                n as int,
            ));
        } else {
            assert(pre.last() == sep);
            assert(last_segment_spec(pre, sep) =~= Seq::<char>::empty());
            assert(last_segment_spec(pre, sep) + s@.subrange(i as int, n as int) =~= s@.subrange(
                i as int,
                n as int,
            ));
        }
    }
    s.substring_char(i, n)
}

/// Index of the first occurrence of `pat` in `s` at or after `from`.
pub open spec fn find_first(s: Seq<char>, pat: Seq<char>, from: int) -> Option<int>
    decreases s.len() - from,
{
    if from < 0 || from + pat.len() > s.len() {
        None
    } else if pat.len() == 0 {
        Some(from)
    } else if s.subrange(from, from + pat.len()) == pat {
        Some(from)
    } else {
        find_first(s, pat, from + 1)
    }
}

/// A found occurrence lies inside the string.
pub proof fn lemma_find_first_bounds(s: Seq<char>, pat: Seq<char>, from: int)
    ensures
        find_first(s, pat, from) matches Some(i) ==> from <= i && i + pat.len() <= s.len(),
    decreases s.len() - from,
{
    if !(from < 0 || from + pat.len() > s.len()) && pat.len() != 0 && s.subrange(
        from,
        from + pat.len(),
    ) != pat {
        lemma_find_first_bounds(s, pat, from + 1);
    }
}

/// Do the `pat.len()` characters of `s` starting at `at` equal `pat`?
fn region_eq(s: &str, at: usize, pat: &str) -> (r: bool)
    requires
        at + pat@.len() <= s@.len(),
        s@.len() <= usize::MAX,
    ensures
        r == (s@.subrange(at as int, at + pat@.len()) == pat@),
{
    let plen = pat.unicode_len();
    let mut k: usize = 0;
    while k < plen
        invariant
            0 <= k <= plen,
            plen == pat@.len(),
            at + plen <= s@.len(),
            s@.len() <= usize::MAX,
            forall|j: int| 0 <= j < k ==> s@[at + j] == pat@[j],
        decreases plen - k,
    {
        if s.get_char(at + k) != pat.get_char(k) {
            assert(s@.subrange(at as int, at + pat@.len())[k as int] != pat@[k as int]);
            return false;
        }
        k += 1;
    }
    proof {
        assert(s@.subrange(at as int, at + pat@.len()) =~= pat@);
    }
    true
}

/// Finds the first occurrence of `pat` in `s`, by characters.
pub fn find_sub(s: &str, pat: &str) -> (r: Option<usize>)
    ensures
        match r {
            Some(i) => find_first(s@, pat@, 0) == Some(i as int),
            None => find_first(s@, pat@, 0) is None,
        },
{
    let n = s.unicode_len();
    let plen = pat.unicode_len();
    if plen > n {
        return None;
    }
    if plen == 0 {
        return Some(0);
    }
    let lim = n - plen;
    let mut i: usize = 0;
    loop
        invariant
            0 <= i <= lim,
            n == s@.len(),
            plen == pat@.len(),
            0 < plen <= n,
            lim == n - plen,
            find_first(s@, pat@, 0) == find_first(s@, pat@, i as int),
        decreases lim - i,
    {
        if region_eq(s, i, pat) {
            return Some(i);
        }
        if i == lim {
            proof {
                assert(find_first(s@, pat@, i + 1) is None);
                assert(find_first(s@, pat@, i as int) is None);
            }
            return None;
        }
        i += 1;
    }
}

/// The loose reading of a yes flag: the word `true` in any letter case,
/// or the digit `1`.
pub open spec fn is_truthy_spec(s: Seq<char>) -> bool {
    (s.len() == 4 && (s[0] == 't' || s[0] == 'T') && (s[1] == 'r' || s[1] == 'R') && (s[2] == 'u'
        || s[2] == 'U') && (s[3] == 'e' || s[3] == 'E')) || s =~= seq!['1']
}

/// Does `s` spell a yes flag (`true` in any letter case, or `1`)?
pub fn is_truthy(s: &str) -> (r: bool)
    ensures
        r == is_truthy_spec(s@),
{
    let n = s.unicode_len();
    if n == 4 {
        let c0 = s.get_char(0);
        let c1 = s.get_char(1);
        let c2 = s.get_char(2);
        let c3 = s.get_char(3);
        (c0 == 't' || c0 == 'T') && (c1 == 'r' || c1 == 'R') && (c2 == 'u' || c2 == 'U') && (c3
            == 'e' || c3 == 'E')
    } else if n == 1 {
        s.get_char(0) == '1'
    } else {
        proof {
            assert(s@.len() != 1 ==> !(s@ =~= seq!['1']));
        }
        false
    }
}

/// Plain whitespace.
pub open spec fn is_space_char(c: char) -> bool {
    c == ' ' || c == '\t' || c == '\n' || c == '\r'
}

/// `s` without its leading whitespace.
pub open spec fn trim_front_spec(s: Seq<char>) -> Seq<char>
    decreases s.len(),
{
    if s.len() > 0 && is_space_char(s[0]) {
        trim_front_spec(s.drop_first())
    } else {
        s
    }
}

/// `s` without its trailing whitespace.
pub open spec fn trim_back_spec(s: Seq<char>) -> Seq<char>
    decreases s.len(),
{
    if s.len() > 0 && is_space_char(s.last()) {
        trim_back_spec(s.drop_last())
    } else {
        s
    }
}

/// `s` without leading and trailing whitespace.
pub open spec fn trim_spec(s: Seq<char>) -> Seq<char> {
    trim_back_spec(trim_front_spec(s))
}

fn is_space(c: char) -> (r: bool)
    ensures
        r == is_space_char(c),
{
    c == ' ' || c == '\t' || c == '\n' || c == '\r'
}

/// Removes leading and trailing whitespace.
pub fn trim<'a>(s: &'a str) -> (r: &'a str)
    ensures
        r@ == trim_spec(s@),
{
    let n = s.unicode_len();
    let mut lo: usize = 0;
    proof {
        assert(s@.subrange(0, n as int) =~= s@);
    }
    while lo < n && is_space(s.get_char(lo))
        invariant
            0 <= lo <= n,
            n == s@.len(),
            trim_front_spec(s@) == trim_front_spec(s@.subrange(lo as int, n as int)),
        decreases n - lo,
    {
        proof {
            assert(s@.subrange(lo as int, n as int).drop_first() =~= s@.subrange(
                lo + 1,
                n as int,
            ));
        }
        lo += 1;
    }
    proof {
        assert(trim_front_spec(s@) == s@.subrange(lo as int, n as int));
    }
    let mut hi: usize = n;
    while hi > lo && is_space(s.get_char(hi - 1))
        invariant
            lo <= hi <= n,
            n == s@.len(),
            trim_back_spec(s@.subrange(lo as int, n as int)) == trim_back_spec(
                s@.subrange(lo as int, hi as int),
            ),
        decreases hi,
    {
        proof {
            assert(s@.subrange(lo as int, hi as int).drop_last() =~= s@.subrange(
                lo as int,
                hi - 1,
            ));
        }
        hi -= 1;
    }
    s.substring_char(lo, hi)
}

/// The pieces of `s` between occurrences of `sep`, in order; `n`
/// separators give `n + 1` pieces, and empty pieces are kept.
pub open spec fn split_spec(s: Seq<char>, sep: char) -> Seq<Seq<char>>
    decreases s.len(),
{
    if s.len() == 0 {
        seq![Seq::<char>::empty()]
    } else if s[0] == sep {
        seq![Seq::<char>::empty()] + split_spec(s.drop_first(), sep)
    } else {
        let rest = split_spec(s.drop_first(), sep);
        seq![seq![s[0]] + rest[0]] + rest.drop_first()
    }
}

/// Splitting always yields at least one piece.
pub proof fn lemma_split_nonempty(s: Seq<char>, sep: char)
    ensures
        split_spec(s, sep).len() >= 1,
    decreases s.len(),
{
    if s.len() > 0 {
        lemma_split_nonempty(s.drop_first(), sep);
    }
}

/// How one more character extends a split: a separator opens a new empty
/// piece, anything else grows the last piece.
proof fn lemma_split_push(s: Seq<char>, sep: char, c: char)
    ensures
        c == sep ==> split_spec(s.push(c), sep) =~~= split_spec(s, sep).push(Seq::empty()),
        c != sep ==> split_spec(s.push(c), sep) =~~= split_spec(s, sep).update(
            split_spec(s, sep).len() - 1,
            split_spec(s, sep).last().push(c),
        ),
    decreases s.len(),
{
    lemma_split_nonempty(s, sep);
    let t = s.push(c);
    if s.len() == 0 {
        assert(t.drop_first() =~= Seq::<char>::empty());
        assert(split_spec(Seq::<char>::empty(), sep) == seq![Seq::<char>::empty()]);
        assert(s =~= Seq::<char>::empty());
        if c == sep {
            assert(split_spec(t, sep) == seq![Seq::<char>::empty()] + split_spec(
                t.drop_first(),
                sep,
            ));
            assert(split_spec(t, sep) =~~= split_spec(s, sep).push(Seq::empty()));
        } else {
            let rest = split_spec(t.drop_first(), sep);
            assert(rest == seq![Seq::<char>::empty()]);
            assert(split_spec(t, sep) == seq![seq![t[0]] + rest[0]] + rest.drop_first());
            assert(seq![t[0]] + rest[0] =~= seq![c]);
            assert(split_spec(s, sep).last().push(c) =~= seq![c]);
            assert(split_spec(t, sep) =~~= split_spec(s, sep).update(
                split_spec(s, sep).len() - 1,
                split_spec(s, sep).last().push(c),
            ));
        }
    } else {
        let sdf = s.drop_first();
        lemma_split_nonempty(sdf, sep);
        assert(t.drop_first() =~= sdf.push(c));
        lemma_split_push(sdf, sep, c);
        let rest_s = split_spec(sdf, sep);
        let rest_t = split_spec(sdf.push(c), sep);
        if s[0] == sep {
            assert(split_spec(s, sep) == seq![Seq::<char>::empty()] + rest_s);
            assert(split_spec(t, sep) == seq![Seq::<char>::empty()] + rest_t);
            if c == sep {
                assert(split_spec(t, sep) =~~= split_spec(s, sep).push(Seq::empty()));
            } else {
                assert(split_spec(t, sep) =~~= split_spec(s, sep).update(
                    split_spec(s, sep).len() - 1,
                    split_spec(s, sep).last().push(c),
                ));
            }
        } else {
            assert(split_spec(s, sep) == seq![seq![s[0]] + rest_s[0]] + rest_s.drop_first());
            assert(t[0] == s[0] && t[0] != sep);
            assert(split_spec(t, sep) == seq![seq![t[0]] + rest_t[0]] + rest_t.drop_first());
            if c == sep {
                assert(rest_t =~~= rest_s.push(Seq::empty()));
                assert(rest_t[0] == rest_s[0]);
                assert(rest_t.drop_first() =~~= rest_s.drop_first().push(Seq::empty()));
                assert(split_spec(t, sep) =~~= split_spec(s, sep).push(Seq::empty()));
            } else {
                let m = rest_s.len() as int;
                assert(rest_t =~~= rest_s.update(m - 1, rest_s.last().push(c)));
                if m == 1 {
                    assert(rest_t[0] =~= rest_s[0].push(c));
                    assert(split_spec(t, sep) =~~= split_spec(s, sep).update(
                        split_spec(s, sep).len() - 1,
                        split_spec(s, sep).last().push(c),
                    ));
                } else {
                    assert(rest_t[0] == rest_s[0]);
                    assert(rest_t.drop_first() =~~= rest_s.drop_first().update(
                        m - 2,
                        rest_s.last().push(c),
                    ));
                    assert(split_spec(s, sep).last() == rest_s.last());
                    assert(split_spec(t, sep) =~~= split_spec(s, sep).update(
                        split_spec(s, sep).len() - 1,
                        split_spec(s, sep).last().push(c),
                    ));
                }
            }
        }
    }
}

/// Splits `s` at every occurrence of `sep`, keeping empty pieces.
pub fn split_on_char(s: &str, sep: char) -> (r: Vec<String>)
    ensures
        r@.len() == split_spec(s@, sep).len(),
        forall|j: int| 0 <= j < r@.len() ==> r@[j]@ == split_spec(s@, sep)[j],
{
    let n = s.unicode_len();
    let mut out: Vec<String> = Vec::new();
    let mut cur = String::new();
    let mut i: usize = 0;
    proof {
        assert(s@.subrange(0, 0) =~= Seq::<char>::empty());
    }
    while i < n
        invariant
            0 <= i <= n,
            n == s@.len(),
            split_spec(s@.subrange(0, i as int), sep).len() == out@.len() + 1,
            forall|j: int|
                0 <= j < out@.len() ==> out@[j]@ == split_spec(s@.subrange(0, i as int), sep)[j],
            cur@ == split_spec(s@.subrange(0, i as int), sep).last(),
        decreases n - i,
    {
        let c = s.get_char(i);
        proof {
            assert(s@.subrange(0, i + 1) =~= s@.subrange(0, i as int).push(s@[i as int]));
            lemma_split_push(s@.subrange(0, i as int), sep, s@[i as int]);
        }
        if c == sep {
            out.push(cur);
            cur = String::new();
        } else {
            push_char(&mut cur, c);
        }
        i += 1;
    }
    proof {
        assert(s@.subrange(0, n as int) =~= s@);
    }
    out.push(cur);
    out
}

} // verus!

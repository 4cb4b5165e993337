//! Character-level string helpers: prefix tests, whitespace splitting,
//! trimming, decimal parsing and padding, each with an exact contract over
//! the string's view.

use vstd::prelude::*;

verus! {

/// The whitespace characters recognized when splitting or trimming remote
/// command output (the ASCII ones; remote listings separate entries with
/// newlines and spaces).
pub open spec fn is_ws(c: char) -> bool {
    c == ' ' || c == '\n' || c == '\t' || c == '\r'
}

/// `p` is a prefix of `s`.
pub open spec fn has_prefix(s: Seq<char>, p: Seq<char>) -> bool {
    p.len() <= s.len() && s.subrange(0, p.len() as int) == p
}

/// `n` spaces in a row.
pub open spec fn spaces(n: nat) -> Seq<char>
    decreases n,
{
    if n == 0 {
        Seq::empty()
    } else {
        spaces((n - 1) as nat).push(' ')
    }
}

/// `s` padded with trailing spaces up to `width` columns (unchanged when it
/// is already that wide).
pub open spec fn pad_spec(s: Seq<char>, width: nat) -> Seq<char> {
    if s.len() >= width {
        s
    } else {
        s + spaces((width - s.len()) as nat)
    }
}

pub fn str_starts_with(s: &str, prefix: &str) -> (r: bool)
    ensures
        r == has_prefix(s@, prefix@),
{
    let n = prefix.unicode_len();
    let m = s.unicode_len();
    if n > m {
        return false;
    }
    let mut i: usize = 0;
    while i < n
        invariant
            i <= n,
            n == prefix@.len(),
            n <= m,
            m == s@.len(),
            forall|j: int| 0 <= j < i ==> s@[j] == prefix@[j],
        decreases n - i,
    {
        if s.get_char(i) != prefix.get_char(i) {
            assert(s@.subrange(0, n as int)[i as int] != prefix@[i as int]);
            return false;
        }
        i += 1;
    }
    assert(s@.subrange(0, n as int) =~= prefix@);
    true
}

/// The remainder of `s` after `prefix`, when `prefix` starts it.
pub fn strip_prefix_str(s: &str, prefix: &str) -> (r: Option<String>)
    ensures
        match r {
            Some(rest) => has_prefix(s@, prefix@) && rest@ == s@.skip(prefix@.len() as int),
            None => !has_prefix(s@, prefix@),
        },
{
    if str_starts_with(s, prefix) {
        let n = prefix.unicode_len();
        let m = s.unicode_len();
        let rest = s.substring_char(n, m);
        assert(rest@ =~= s@.skip(prefix@.len() as int));
        Some(String::from_str(rest))
    } else {
        None
    }
}

pub fn repeat_spaces(n: usize) -> (r: String)
    ensures
        r@ == spaces(n as nat),
{
    let mut r = String::new();
    let mut i: usize = 0;
    proof {
        reveal_strlit(" ");
    }
    assert(" "@ =~= seq![' ']);
    while i < n
        invariant
            i <= n,
            r@ == spaces(i as nat),
            " "@ =~= seq![' '],
        decreases n - i,
    {
        r.append(" ");
        assert(spaces((i + 1) as nat) =~= spaces(i as nat).push(' '));
        assert(r@ =~= spaces(i as nat).push(' '));
        i += 1;
    }
    r
}

/// `s` followed by as many spaces as it takes to reach `width` columns.
pub fn pad_to(s: &str, width: usize) -> (r: String)
    ensures
        r@ == pad_spec(s@, width as nat),
{
    let len = s.unicode_len();
    let mut r = String::from_str(s);
    if len >= width {
        return r;
    }
    let fill = repeat_spaces(width - len);
    r.append(fill.as_str());
    r
}

/// The position of the first non-whitespace character at or after `i`
/// (`s.len()` when the rest is all whitespace).
pub open spec fn next_non_ws(s: Seq<char>, i: int) -> int
    decreases s.len() - i,
{
    if i >= s.len() || !is_ws(s[i]) {
        i
    } else {
        next_non_ws(s, i + 1)
    }
}

/// The position of the first whitespace character at or after `i`
/// (`s.len()` when the rest has none).
pub open spec fn next_ws(s: Seq<char>, i: int) -> int
    decreases s.len() - i,
{
    if i >= s.len() || is_ws(s[i]) {
        i
    } else {
        next_ws(s, i + 1)
    }
}

pub proof fn lemma_next_non_ws(s: Seq<char>, i: int)
    requires
        0 <= i <= s.len(),
    ensures
        i <= next_non_ws(s, i) <= s.len(),
        next_non_ws(s, i) < s.len() ==> !is_ws(s[next_non_ws(s, i)]),
        forall|j: int| i <= j < next_non_ws(s, i) ==> is_ws(s[j]),
    decreases s.len() - i,
{
    if i < s.len() && is_ws(s[i]) {
        lemma_next_non_ws(s, i + 1);
    }
}

pub proof fn lemma_next_ws(s: Seq<char>, i: int)
    requires
        0 <= i <= s.len(),
    ensures
        i <= next_ws(s, i) <= s.len(),
        next_ws(s, i) < s.len() ==> is_ws(s[next_ws(s, i)]),
        forall|j: int| i <= j < next_ws(s, i) ==> !is_ws(s[j]),
    decreases s.len() - i,
{
    if i < s.len() && !is_ws(s[i]) {
        lemma_next_ws(s, i + 1);
    }
}

/// The whitespace-separated tokens of `s` at or after position `i`, in order.
pub open spec fn split_ws_from(s: Seq<char>, i: int) -> Seq<Seq<char>>
    decreases s.len() - i,
    when 0 <= i <= s.len()
    via split_ws_from_decreases
{
    let j = next_non_ws(s, i);
    if j >= s.len() {
        Seq::empty()
    } else {
        seq![s.subrange(j, next_ws(s, j))].add(split_ws_from(s, next_ws(s, j)))
    }
}

#[via_fn]
proof fn split_ws_from_decreases(s: Seq<char>, i: int) {
    let j = next_non_ws(s, i);
    if j < s.len() {
        lemma_next_non_ws(s, i);
        lemma_next_ws(s, j);
        assert(next_ws(s, j) == next_ws(s, j + 1));
    }
}

/// The whitespace-separated tokens of `s`, in order.
pub open spec fn split_ws_spec(s: Seq<char>) -> Seq<Seq<char>> {
    split_ws_from(s, 0)
}

/// The position of the first non-whitespace character at or after `from`.
pub fn find_non_ws(s: &str, from: usize) -> (r: usize)
    requires
        from <= s@.len(),
    ensures
        r == next_non_ws(s@, from as int),
        from <= r <= s@.len(),
{
    let n = s.unicode_len();
    let mut k: usize = from;
    while k < n
        invariant
            from <= k <= n,
            n == s@.len(),
            next_non_ws(s@, from as int) == next_non_ws(s@, k as int),
        decreases n - k,
    {
        let c = s.get_char(k);
        if !(c == ' ' || c == '\n' || c == '\t' || c == '\r') {
            assert(next_non_ws(s@, k as int) == k as int);
            return k;
        }
        assert(next_non_ws(s@, k as int) == next_non_ws(s@, k + 1 as int));
        k += 1;
    }
    assert(next_non_ws(s@, k as int) == k as int);
    k
}

/// The position of the first whitespace character at or after `from`.
pub fn find_ws(s: &str, from: usize) -> (r: usize)
    requires
        from <= s@.len(),
    ensures
        r == next_ws(s@, from as int),
        from <= r <= s@.len(),
{
    let n = s.unicode_len();
    let mut k: usize = from;
    while k < n
        invariant
            from <= k <= n,
            n == s@.len(),
            next_ws(s@, from as int) == next_ws(s@, k as int),
        decreases n - k,
    {
        let c = s.get_char(k);
        if c == ' ' || c == '\n' || c == '\t' || c == '\r' {
            assert(next_ws(s@, k as int) == k as int);
            return k;
        }
        assert(next_ws(s@, k as int) == next_ws(s@, k + 1 as int));
        k += 1;
    }
    assert(next_ws(s@, k as int) == k as int);
    k
}

/// Splits on runs of whitespace, keeping the tokens in order.
pub fn split_whitespace_vec(s: &str) -> (r: Vec<String>)
    ensures
        r@.map_values(|t: String| t@) == split_ws_spec(s@),
{
    let n = s.unicode_len();
    let mut r: Vec<String> = Vec::new();
    let mut i: usize = 0;
    while i < n
        invariant
            i <= n,
            n == s@.len(),
            split_ws_spec(s@) =~= r@.map_values(|t: String| t@) + split_ws_from(s@, i as int),
        decreases n - i,
    {
        let j = find_non_ws(s, i);
        if j == n {
            assert(split_ws_from(s@, i as int) =~= Seq::empty());
            assert(split_ws_spec(s@) =~= r@.map_values(|t: String| t@));
            return r;
        } else {
            let k = find_ws(s, j);
            proof {
                lemma_next_non_ws(s@, i as int);
                lemma_next_ws(s@, j as int);
            }
            let token = String::from_str(s.substring_char(j, k));
            let ghost old_tokens = r@.map_values(|t: String| t@);
            r.push(token);
            assert(r@.map_values(|t: String| t@) =~= old_tokens.push(token@));
            assert(split_ws_from(s@, i as int) =~= seq![s@.subrange(j as int, k as int)]
                .add(split_ws_from(s@, k as int)));
            assert(split_ws_spec(s@) =~= r@.map_values(|t: String| t@)
                + split_ws_from(s@, k as int));
            proof {
                assert(next_ws(s@, j as int) == next_ws(s@, j + 1));
                lemma_next_ws(s@, j + 1);
            }
            assert(k > i);
            i = k;
        }
    }
    assert(split_ws_from(s@, i as int) =~= Seq::empty());
    assert(split_ws_spec(s@) =~= r@.map_values(|t: String| t@));
    r
}

/// Where the trimmed tail of `s` ends, scanning left from `e` but never past
/// `b`.
pub open spec fn trim_end_from(s: Seq<char>, b: int, e: int) -> int
    decreases e - b,
{
    if e <= b || !is_ws(s[e - 1]) {
        e
    } else {
        trim_end_from(s, b, e - 1)
    }
}

/// `s` with leading and trailing whitespace removed.
pub open spec fn trim_spec(s: Seq<char>) -> Seq<char> {
    let b = next_non_ws(s, 0);
    if b >= s.len() {
        Seq::empty()
    } else {
        s.subrange(b, trim_end_from(s, b, s.len() as int))
    }
}

fn find_trim_end(s: &str, b: usize) -> (r: usize)
    requires
        b <= s@.len(),
    ensures
        r == trim_end_from(s@, b as int, s@.len() as int),
        b <= r <= s@.len(),
{
    let n = s.unicode_len();
    let mut e: usize = n;
    while e > b
        invariant
            b <= e <= n,
            n == s@.len(),
            trim_end_from(s@, b as int, n as int) == trim_end_from(s@, b as int, e as int),
        decreases e,
    {
        let c = s.get_char(e - 1);
        if !(c == ' ' || c == '\n' || c == '\t' || c == '\r') {
            assert(trim_end_from(s@, b as int, e as int) == e as int);
            return e;
        }
        assert(trim_end_from(s@, b as int, e as int) == trim_end_from(s@, b as int, e - 1));
        e -= 1;
    }
    assert(trim_end_from(s@, b as int, e as int) == e as int);
    e
}

pub fn trim_str(s: &str) -> (r: String)
    ensures
        r@ == trim_spec(s@),
{
    let n = s.unicode_len();
    let b = find_non_ws(s, 0);
    if b == n {
        return String::new();
    }
    let e = find_trim_end(s, b);
    String::from_str(s.substring_char(b, e))
}

pub open spec fn is_digit(c: char) -> bool {
    48 <= c as int && c as int <= 57
}

pub open spec fn digit_val(c: char) -> nat {
    (c as int - 48) as nat
}

/// The value of a digit string, most significant digit first.
pub open spec fn digits_val(s: Seq<char>) -> nat
    decreases s.len(),
{
    if s.len() == 0 {
        0
    } else {
        digits_val(s.drop_last()) * 10 + digit_val(s.last())
    }
}

pub open spec fn all_digits(s: Seq<char>) -> bool {
    forall|i: int| 0 <= i < s.len() ==> is_digit(s[i])
}

/// What parsing `s` as an unsigned decimal number yields: the digits' value
/// when `s` is one or more digits and the value fits in a `u64`, nothing
/// otherwise.
pub open spec fn parse_u64_spec(s: Seq<char>) -> Option<u64> {
    if s.len() > 0 && all_digits(s) && digits_val(s) <= u64::MAX {
        Some(digits_val(s) as u64)
    } else {
        None
    }
}

/// A longer digit string is worth at least as much as any of its prefixes.
proof fn lemma_digits_val_prefix(s: Seq<char>, k: int)
    requires
        0 <= k <= s.len(),
    ensures
        digits_val(s) >= digits_val(s.take(k)),
    decreases s.len(),
{
    if k < s.len() {
        lemma_digits_val_prefix(s.drop_last(), k);
        assert(s.take(k) =~= s.drop_last().take(k));
        assert(digits_val(s) == digits_val(s.drop_last()) * 10 + digit_val(s.last()));
        assert(digits_val(s.drop_last()) * 10 >= digits_val(s.drop_last()));
    } else {
        assert(s.take(k) =~= s);
    }
}

pub fn parse_u64_str(s: &str) -> (r: Option<u64>)
    ensures
        r == parse_u64_spec(s@),
{
    let n = s.unicode_len();
    if n == 0 {
        return None;
    }
    let mut acc: u64 = 0;
    let mut i: usize = 0;
    while i < n
        invariant
            i <= n,
            n == s@.len(),
            all_digits(s@.take(i as int)),
            acc == digits_val(s@.take(i as int)),
        decreases n - i,
    {
        let c = s.get_char(i);
        let code = c as u32;
        if code < 48 || code > 57 {
            assert(!is_digit(s@[i as int]));
            return None;
        }
        let d: u64 = (code - 48) as u64;
        let ghost next = s@.take(i + 1 as int);
        proof {
            assert(next.drop_last() =~= s@.take(i as int));
            assert(next.last() == s@[i as int]);
        }
        let step = match acc.checked_mul(10) {
            Some(t) => t.checked_add(d),
            None => None,
        };
        match step {
            Some(v) => {
                acc = v;
                i += 1;
            },
            None => {
                // The value so far already exceeds u64::MAX; any longer digit
                // string is worth at least as much.
                proof {
                    assert(digits_val(next) > u64::MAX);
                    if all_digits(s@) {
                        lemma_digits_val_prefix(s@, i + 1 as int);
                    }
                }
                return None;
            },
        }
    }
    proof {
        assert(s@.take(n as int) =~= s@);
    }
    Some(acc)
}

/// Byte-for-byte equality of two contents.
pub fn bytes_equal(a: &Vec<u8>, b: &Vec<u8>) -> (r: bool)
    ensures
        r == (a@ == b@),
{
    if a.len() != b.len() {
        return false;
    }
    let mut i: usize = 0;
    while i < a.len()
        invariant
            i <= a.len(),
            a.len() == b.len(),
            forall|j: int| 0 <= j < i ==> a@[j] == b@[j],
        decreases a.len() - i,
    {
        if a[i] != b[i] {
            return false;
        }
        i += 1;
    }
    assert(a@ =~= b@);
    true
}

} // verus!

//! Character-level text helpers shared by every panel: decimal rendering,
//! zero padding and truncation with an ellipsis. Everything is measured in
//! `char`s, which is what the dashboard treats as one terminal column.

use vstd::prelude::*;
use vstd::string::*;

verus! {

/// The ASCII digit for `d` (taken mod 10).
pub open spec fn digit_char(d: nat) -> char {
    let d = d % 10;
    if d == 0 { '0' }
    else if d == 1 { '1' }
    else if d == 2 { '2' }
    else if d == 3 { '3' }
    else if d == 4 { '4' }
    else if d == 5 { '5' }
    else if d == 6 { '6' }
    else if d == 7 { '7' }
    else if d == 8 { '8' }
    else { '9' }
}

/// `n` written in base ten, most significant digit first, with no padding.
pub open spec fn decimal(n: nat) -> Seq<char>
    decreases n,
{
    if n < 10 {
        seq![digit_char(n)]
    } else {
        decimal(n / 10).push(digit_char(n % 10))
    }
}

/// `n` written in base ten, left-padded with zeros to at least two digits.
pub open spec fn pad2(n: nat) -> Seq<char> {
    if n < 10 { seq!['0'].add(decimal(n)) } else { decimal(n) }
}

/// `s` cut to at most `max` characters: unchanged when it fits, otherwise its
/// first `max - 1` characters (none when `max` is zero) followed by `…`.
pub open spec fn truncated(s: Seq<char>, max: nat) -> Seq<char> {
    if s.len() <= max {
        s
    } else if max == 0 {
        seq!['…']
    } else {
        s.take(max - 1).push('…')
    }
}

pub proof fn lemma_decimal_nonempty(n: nat)
    ensures
        decimal(n).len() >= 1,
    decreases n,
{
    if n >= 10 {
        lemma_decimal_nonempty(n / 10);
    }
}

/// `10` to the power `k`.
pub open spec fn pow10(k: nat) -> nat
    decreases k,
{
    if k == 0 { 1 } else { 10 * pow10((k - 1) as nat) }
}

/// A number below `10^k` takes at most `k` digits (and always one).
pub proof fn lemma_decimal_len(n: nat, k: nat)
    requires
        n < pow10(k),
        k >= 1,
    ensures
        decimal(n).len() <= k,
    decreases k,
{
    if n >= 10 {
        assert(k >= 2) by {
            if k == 1 {
                assert(pow10(1) == 10 * pow10(0));
            }
        }
        assert(n / 10 < pow10((k - 1) as nat)) by {
            assert(pow10(k) == 10 * pow10((k - 1) as nat));
        }
        lemma_decimal_len(n / 10, (k - 1) as nat);
    }
}

/// Any `u64` takes at most twenty digits.
pub proof fn lemma_decimal_len_u64(n: u64)
    ensures
        1 <= decimal(n as nat).len() <= 20,
{
    reveal_with_fuel(pow10, 21);
    assert(pow10(20) == 100_000_000_000_000_000_000nat);
    lemma_decimal_len(n as nat, 20);
    lemma_decimal_nonempty(n as nat);
}

/// Appends one character to a `String`.
#[verifier::external_body]
pub(crate) fn push_char(s: &mut String, c: char)
    ensures
        final(s)@ == old(s)@.push(c),
{
    s.push(c);
}

/// The digit character for `d`, taken mod 10.
pub fn digit(d: u64) -> (c: char)
    ensures
        c == digit_char(d as nat),
{
    let d = d % 10;
    if d == 0 { '0' }
    else if d == 1 { '1' }
    else if d == 2 { '2' }
    else if d == 3 { '3' }
    else if d == 4 { '4' }
    else if d == 5 { '5' }
    else if d == 6 { '6' }
    else if d == 7 { '7' }
    else if d == 8 { '8' }
    else { '9' }
}

/// Appends `n` in base ten to `s`.
pub fn push_decimal(s: &mut String, n: u64)
    ensures
        final(s)@ == old(s)@ + decimal(n as nat),
    decreases n,
{
    if n >= 10 {
        push_decimal(s, n / 10);
    }
    push_char(s, digit(n % 10));
    proof {
        assert(digit_char((n % 10) as nat) == digit_char(n as nat));
    }
}

/// Appends `n` zero-padded to two digits.
pub fn push_pad2(s: &mut String, n: u64)
    ensures
        final(s)@ == old(s)@ + pad2(n as nat),
{
    if n < 10 {
        push_char(s, '0');
    }
    push_decimal(s, n);
}

/// `n` spaces.
pub open spec fn spaces(n: int) -> Seq<char> {
    Seq::new(if n > 0 { n as nat } else { 0 }, |i: int| ' ')
}

/// `s` followed by spaces up to `w` characters (unchanged when longer).
pub open spec fn padded_right(s: Seq<char>, w: nat) -> Seq<char> {
    s + spaces(w - s.len())
}

/// Spaces up to `w` characters followed by `s` (unchanged when longer).
pub open spec fn padded_left(s: Seq<char>, w: nat) -> Seq<char> {
    spaces(w - s.len()) + s
}

/// Appends `n` spaces.
pub fn push_spaces(s: &mut String, n: usize)
    ensures
        final(s)@ == old(s)@ + spaces(n as int),
{
    let mut i: usize = 0;
    while i < n
        invariant
            i <= n,
            s@ == old(s)@ + spaces(i as int),
        decreases n - i,
    {
        push_char(s, ' ');
        i = i + 1;
        proof { assert(s@ =~= old(s)@ + spaces(i as int)); }
    }
}

/// Appends `t` left-aligned in a field `w` characters wide.
pub fn push_padded_right(s: &mut String, t: &str, w: usize)
    ensures
        final(s)@ == old(s)@ + padded_right(t@, w as nat),
{
    let n = t.unicode_len();
    s.append(t);
    let fill: usize = if w > n { w - n } else { 0 };
    push_spaces(s, fill);
    proof { assert(spaces(fill as int) =~= spaces(w - n)); }
}

/// Appends `t` right-aligned in a field `w` characters wide.
pub fn push_padded_left(s: &mut String, t: &str, w: usize)
    ensures
        final(s)@ == old(s)@ + padded_left(t@, w as nat),
{
    let n = t.unicode_len();
    let fill: usize = if w > n { w - n } else { 0 };
    push_spaces(s, fill);
    s.append(t);
    proof { assert(spaces(fill as int) =~= spaces(w - n)); }
}

/// `n` in base ten as a new `String`.
pub fn decimal_string(n: u64) -> (s: String)
    ensures
        s@ == decimal(n as nat),
{
    let mut s = String::new();
    push_decimal(&mut s, n);
    s
}

/// `s` cut to at most `max` characters, ending in `…` when anything was cut.
pub fn truncate(s: &str, max: usize) -> (out: String)
    ensures
        out@ == truncated(s@, max as nat),
{
    let n = s.unicode_len();
    if n <= max {
        String::from_str(s)
    } else {
        let keep = if max == 0 { 0 } else { max - 1 };
        let mut out = String::from_str(s.substring_char(0, keep));
        push_char(&mut out, '…');
        proof {
            if max == 0 {
                assert(s@.subrange(0, 0) =~= Seq::<char>::empty());
                assert(out@ =~= seq!['…']);
            } else {
                assert(s@.subrange(0, keep as int) =~= s@.take(max - 1));
            }
        }
        out
    }
}

} // verus!

verus! {

/// Unicode's `White_Space` property, the set `str::trim` strips.
pub open spec fn is_ws(c: char) -> bool {
    let u = c as u32;
    (0x09 <= u <= 0x0D) || u == 0x20 || u == 0x85 || u == 0xA0 || u == 0x1680
        || (0x2000 <= u <= 0x200A) || u == 0x2028 || u == 0x2029 || u == 0x202F
        || u == 0x205F || u == 0x3000
}

pub fn char_is_ws(c: char) -> (b: bool)
    ensures
        b == is_ws(c),
{
    let u = c as u32;
    (0x09 <= u && u <= 0x0D) || u == 0x20 || u == 0x85 || u == 0xA0 || u == 0x1680
        || (0x2000 <= u && u <= 0x200A) || u == 0x2028 || u == 0x2029 || u == 0x202F
        || u == 0x205F || u == 0x3000
}

/// The index of the first non-whitespace character of `s` at or after `i`
/// (the length when there is none).
pub open spec fn skip_ws(s: Seq<char>, i: int) -> int
    decreases s.len() - i,
{
    if i < 0 || i >= s.len() {
        s.len() as int
    } else if is_ws(s[i]) {
        skip_ws(s, i + 1)
    } else {
        i
    }
}

/// The end of `s[lo..j]` once trailing whitespace is dropped.
pub open spec fn back_ws(s: Seq<char>, lo: int, j: int) -> int
    decreases j - lo,
{
    if j <= lo {
        lo
    } else if is_ws(s[j - 1]) {
        back_ws(s, lo, j - 1)
    } else {
        j
    }
}

pub proof fn lemma_skip_ws_bounds(s: Seq<char>, i: int)
    requires
        0 <= i <= s.len(),
    ensures
        i <= skip_ws(s, i) <= s.len(),
    decreases s.len() - i,
{
    if i < s.len() && is_ws(s[i]) {
        lemma_skip_ws_bounds(s, i + 1);
    }
}

pub proof fn lemma_back_ws_bounds(s: Seq<char>, lo: int, j: int)
    requires
        lo <= j,
    ensures
        lo <= back_ws(s, lo, j) <= j,
    decreases j - lo,
{
    if j > lo && is_ws(s[j - 1]) {
        lemma_back_ws_bounds(s, lo, j - 1);
    }
}

/// `s` with leading and trailing whitespace removed.
pub open spec fn trimmed(s: Seq<char>) -> Seq<char> {
    let a = skip_ws(s, 0);
    s.subrange(a, back_ws(s, a, s.len() as int))
}

/// A character map that keeps whitespace whitespace and everything else not.
pub open spec fn keeps_ws(f: spec_fn(char) -> char) -> bool {
    forall|c: char| #[trigger] is_ws(f(c)) == is_ws(c)
}

proof fn lemma_skip_ws_map(s: Seq<char>, f: spec_fn(char) -> char, i: int)
    requires
        keeps_ws(f),
        0 <= i,
    ensures
        skip_ws(s.map_values(f), i) == skip_ws(s, i),
    decreases s.len() - i,
{
    if i < s.len() {
        assert(s.map_values(f)[i] == f(s[i]));
        assert(is_ws(f(s[i])) == is_ws(s[i]));
        lemma_skip_ws_map(s, f, i + 1);
    }
}

proof fn lemma_back_ws_map(s: Seq<char>, f: spec_fn(char) -> char, lo: int, j: int)
    requires
        keeps_ws(f),
        0 <= lo,
        j <= s.len(),
    ensures
        back_ws(s.map_values(f), lo, j) == back_ws(s, lo, j),
    decreases j - lo,
{
    if j > lo {
        assert(s.map_values(f)[j - 1] == f(s[j - 1]));
        assert(is_ws(f(s[j - 1])) == is_ws(s[j - 1]));
        lemma_back_ws_map(s, f, lo, j - 1);
    }
}

/// Trimming commutes with a map that keeps whitespace whitespace.
pub proof fn lemma_trimmed_map(s: Seq<char>, f: spec_fn(char) -> char)
    requires
        keeps_ws(f),
    ensures
        trimmed(s.map_values(f)) == trimmed(s).map_values(f),
{
    let a = skip_ws(s, 0);
    lemma_skip_ws_map(s, f, 0);
    lemma_skip_ws_bounds(s, 0);
    lemma_back_ws_map(s, f, a, s.len() as int);
    lemma_back_ws_bounds(s, a, s.len() as int);
    assert(trimmed(s.map_values(f)) =~= trimmed(s).map_values(f));
}

/// Whether every character of `s` is whitespace.
pub open spec fn all_ws(s: Seq<char>) -> bool {
    forall|i: int| 0 <= i < s.len() ==> is_ws(#[trigger] s[i])
}

proof fn lemma_skip_over_prefix(pre: Seq<char>, rest: Seq<char>, k: int)
    requires
        all_ws(pre),
        0 <= k <= pre.len(),
    ensures
        skip_ws(pre + rest, k) == skip_ws(pre + rest, pre.len() as int),
    decreases pre.len() - k,
{
    if k < pre.len() {
        assert((pre + rest)[k] == pre[k]);
        lemma_skip_over_prefix(pre, rest, k + 1);
    }
}

proof fn lemma_skip_over_suffix(u: Seq<char>, from: int, m: int)
    requires
        0 <= from,
        0 <= m,
        from + m <= u.len(),
        forall|i: int| from <= i < u.len() ==> is_ws(#[trigger] u[i]),
    ensures
        skip_ws(u, from + m) == u.len(),
    decreases u.len() - from - m,
{
    if from + m < u.len() {
        lemma_skip_over_suffix(u, from, m + 1);
    }
}

proof fn lemma_skip_in_middle(pre: Seq<char>, s: Seq<char>, post: Seq<char>, k: int)
    requires
        all_ws(post),
        0 <= k <= s.len(),
    ensures
        skip_ws(pre + s + post, pre.len() + k) == (if skip_ws(s, k) < s.len() {
            pre.len() + skip_ws(s, k)
        } else {
            (pre + s + post).len() as int
        }),
    decreases s.len() - k,
{
    let u = pre + s + post;
    if k < s.len() {
        assert(u[pre.len() + k] == s[k]);
        lemma_skip_in_middle(pre, s, post, k + 1);
    } else {
        assert forall|i: int| pre.len() + s.len() <= i < u.len() implies is_ws(#[trigger] u[i]) by {
            assert(u[i] == post[i - pre.len() - s.len()]);
        }
        lemma_skip_over_suffix(u, (pre.len() + s.len()) as int, 0);
    }
}

proof fn lemma_back_over_suffix(u: Seq<char>, lo: int, end: int, m: int)
    requires
        lo <= end,
        0 <= m,
        end + m <= u.len(),
        forall|i: int| end <= i < u.len() ==> is_ws(#[trigger] u[i]),
    ensures
        back_ws(u, lo, end + m) == back_ws(u, lo, end),
    decreases m,
{
    if m > 0 {
        lemma_back_over_suffix(u, lo, end, m - 1);
    }
}

proof fn lemma_back_in_middle(pre: Seq<char>, s: Seq<char>, post: Seq<char>, a: int, j: int)
    requires
        0 <= a <= j <= s.len(),
    ensures
        back_ws(pre + s + post, pre.len() + a, pre.len() + j) == pre.len() + back_ws(s, a, j),
    decreases j - a,
{
    if j > a {
        assert((pre + s + post)[pre.len() + j - 1] == s[j - 1]);
        lemma_back_in_middle(pre, s, post, a, j - 1);
    }
}

/// Whitespace padding on either side is trimmed away with the rest.
pub proof fn lemma_trimmed_padded(pre: Seq<char>, s: Seq<char>, post: Seq<char>)
    requires
        all_ws(pre),
        all_ws(post),
    ensures
        trimmed(pre + s + post) == trimmed(s),
{
    let u = pre + s + post;
    assert(pre + s + post == pre + (s + post));
    lemma_skip_over_prefix(pre, s + post, 0);
    lemma_skip_in_middle(pre, s, post, 0);
    lemma_skip_ws_bounds(s, 0);
    let a = skip_ws(s, 0);
    lemma_back_ws_bounds(s, a, s.len() as int);
    if a < s.len() {
        assert forall|i: int| pre.len() + s.len() <= i < u.len() implies is_ws(#[trigger] u[i]) by {
            assert(u[i] == post[i - pre.len() - s.len()]);
        }
        lemma_back_over_suffix(u, pre.len() + a, (pre.len() + s.len()) as int, post.len() as int);
        lemma_back_in_middle(pre, s, post, a, s.len() as int);
        assert(trimmed(u) =~= trimmed(s));
    } else {
        assert(trimmed(u) =~= trimmed(s));
    }
}

proof fn lemma_skipped_are_ws(s: Seq<char>, i: int)
    requires
        0 <= i <= s.len(),
    ensures
        forall|k: int| i <= k < skip_ws(s, i) ==> is_ws(#[trigger] s[k]),
    decreases s.len() - i,
{
    if i < s.len() && is_ws(s[i]) {
        lemma_skipped_are_ws(s, i + 1);
    }
}

proof fn lemma_dropped_are_ws(s: Seq<char>, lo: int, j: int)
    requires
        0 <= lo <= j <= s.len(),
    ensures
        forall|k: int| back_ws(s, lo, j) <= k < j ==> is_ws(#[trigger] s[k]),
    decreases j - lo,
{
    if j > lo && is_ws(s[j - 1]) {
        lemma_dropped_are_ws(s, lo, j - 1);
    }
}

/// Trimming twice is trimming once.
pub proof fn lemma_trimmed_twice(s: Seq<char>)
    ensures
        trimmed(trimmed(s)) == trimmed(s),
{
    let a = skip_ws(s, 0);
    lemma_skip_ws_bounds(s, 0);
    let b = back_ws(s, a, s.len() as int);
    lemma_back_ws_bounds(s, a, s.len() as int);
    lemma_skipped_are_ws(s, 0);
    lemma_dropped_are_ws(s, a, s.len() as int);
    let pre = s.subrange(0, a);
    let mid = s.subrange(a, b);
    let post = s.subrange(b, s.len() as int);
    assert(s =~= pre + mid + post);
    assert(all_ws(pre));
    assert(all_ws(post)) by {
        assert forall|i: int| 0 <= i < post.len() implies is_ws(#[trigger] post[i]) by {
            assert(post[i] == s[b + i]);
        }
    }
    lemma_trimmed_padded(pre, mid, post);
}

/// `s` with leading and trailing whitespace removed.
pub fn trim(s: &str) -> (t: String)
    ensures
        t@ == trimmed(s@),
{
    let n = s.unicode_len();
    let mut a: usize = 0;
    while a < n && char_is_ws(s.get_char(a))
        invariant
            n == s@.len(),
            a <= n,
            skip_ws(s@, 0) == skip_ws(s@, a as int),
        decreases n - a,
    {
        a = a + 1;
    }
    let mut b: usize = n;
    while b > a && char_is_ws(s.get_char(b - 1))
        invariant
            n == s@.len(),
            a <= b <= n,
            skip_ws(s@, 0) == a,
            back_ws(s@, a as int, n as int) == back_ws(s@, a as int, b as int),
        decreases b - a,
    {
        b = b - 1;
    }
    String::from_str(s.substring_char(a, b))
}

/// `c` with an ASCII capital letter lowered.
pub open spec fn ascii_lower(c: char) -> char {
    if 'A' <= c <= 'Z' { ((c as u32) + 32) as char } else { c }
}

pub fn lower_char(c: char) -> (l: char)
    ensures
        l == ascii_lower(c),
{
    if 'A' <= c && c <= 'Z' {
        ((c as u8) + 32) as char
    } else {
        c
    }
}

/// `s` with every ASCII capital lowered.
pub fn to_ascii_lower(s: &str) -> (l: String)
    ensures
        l@ == s@.map_values(|c: char| ascii_lower(c)),
{
    let n = s.unicode_len();
    let mut out = String::new();
    let mut i: usize = 0;
    while i < n
        invariant
            n == s@.len(),
            i <= n,
            out@ == s@.take(i as int).map_values(|c: char| ascii_lower(c)),
        decreases n - i,
    {
        push_char(&mut out, lower_char(s.get_char(i)));
        proof {
            assert(s@.take(i + 1) =~= s@.take(i as int).push(s@[i as int]));
            assert(out@ =~= s@.take(i + 1).map_values(|c: char| ascii_lower(c)));
        }
        i = i + 1;
    }
    proof {
        assert(s@.take(n as int) =~= s@);
    }
    out
}

} // verus!

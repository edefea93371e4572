//! Text helpers: decimal rendering, integer parsing, trimming and splitting.

use vstd::prelude::*;
use vstd::utf8::*;

verus! {

/// The ASCII digit for a value below ten.
pub open spec fn digit_char(d: nat) -> char {
    if d == 0 { '0' }
    else if d == 1 { '1' }
    else if d == 2 { '2' }
    else if d == 3 { '3' }
    else if d == 4 { '4' }
    else if d == 5 { '5' }
    else if d == 6 { '6' }
    else if d == 7 { '7' }
    else if d == 8 { '8' }
    else { '9' }
}

/// Decimal digits of a natural number, most significant first, no leading zeros.
pub open spec fn decimal_digits(n: nat) -> Seq<char>
    decreases n,
{
    if n < 10 {
        seq![digit_char(n)]
    } else {
        decimal_digits(n / 10).push(digit_char(n % 10))
    }
}

/// Decimal rendering of an integer, as Rust's `Display` writes it.
pub open spec fn decimal(i: int) -> Seq<char> {
    if i < 0 {
        seq!['-'] + decimal_digits((-i) as nat)
    } else {
        decimal_digits(i as nat)
    }
}

/// Calls `String::push`, which appends one character at the end.
#[verifier::external_body]
fn push_char(s: &mut String, c: char)
    ensures
        final(s)@ == old(s)@.push(c),
{
    s.push(c);
}

/// The characters of a string slice, in order.
pub fn chars_of(s: &str) -> (v: Vec<char>)
    ensures
        v@ == s@,
{
    let mut v: Vec<char> = Vec::new();
    for c in it: s.chars()
        invariant
            v@ == it.seq().take(it.index()),
    {
        v.push(c);
    }
    v
}


/// The ASCII digit for a value below ten, computed.
fn digit_of(d: u64) -> (c: char)
    requires
        d < 10,
    ensures
        c == digit_char(d as nat),
{
    if d == 0 { '0' }
    else if d == 1 { '1' }
    else if d == 2 { '2' }
    else if d == 3 { '3' }
    else if d == 4 { '4' }
    else if d == 5 { '5' }
    else if d == 6 { '6' }
    else if d == 7 { '7' }
    else if d == 8 { '8' }
    else { '9' }
}

/// Appends the decimal digits of `n` to `out`.
fn push_decimal_digits(out: &mut String, n: u64)
    ensures
        final(out)@ == old(out)@ + decimal_digits(n as nat),
    decreases n,
{
    if n < 10 {
        push_char(out, digit_of(n));
    } else {
        let ghost before = out@;
        push_decimal_digits(out, n / 10);
        push_char(out, digit_of(n % 10));
        assert(out@ =~= before + decimal_digits(n as nat));
    }
}

/// Renders a signed integer in decimal, exactly as `i64`'s `Display` does.
pub fn decimal_string(i: i64) -> (s: String)
    ensures
        s@ == decimal(i as int),
{
    let mut s = String::new();
    if i < 0 {
        push_char(&mut s, '-');
        let magnitude: u64 = if i == i64::MIN {
            9223372036854775808u64
        } else {
            (-i) as u64
        };
        push_decimal_digits(&mut s, magnitude);
        assert(s@ =~= seq!['-'] + decimal_digits((-(i as int)) as nat));
    } else {
        push_decimal_digits(&mut s, i as u64);
        assert(s@ =~= decimal_digits(i as nat));
    }
    s
}

/// Renders an unsigned size in decimal, exactly as `usize`'s `Display` does.
pub fn usize_decimal_string(n: usize) -> (s: String)
    ensures
        s@ == decimal(n as int),
{
    let mut s = String::new();
    push_decimal_digits(&mut s, n as u64);
    assert(s@ =~= decimal_digits(n as nat));
    s
}

/// An ASCII decimal digit.
pub open spec fn is_digit(c: char) -> bool {
    '0' <= c && c <= '9'
}

/// The value of an ASCII decimal digit.
pub open spec fn digit_value(c: char) -> int {
    (c as int) - ('0' as int)
}

/// Every character is an ASCII decimal digit.
pub open spec fn all_digits(s: Seq<char>) -> bool {
    forall|k: int| 0 <= k < s.len() ==> is_digit(#[trigger] s[k])
}

/// The value of a string of decimal digits, most significant first.
pub open spec fn digits_value(s: Seq<char>) -> int
    decreases s.len(),
{
    if s.len() == 0 {
        0
    } else {
        digits_value(s.drop_last()) * 10 + digit_value(s.last())
    }
}

/// What `str::parse::<i64>` accepts and yields: an optional `+` or `-`, then
/// at least one ASCII digit and nothing else, with a value that fits in `i64`.
pub open spec fn parse_int(s: Seq<char>) -> Option<int> {
    let neg = s.len() > 0 && s[0] == '-';
    let body = if s.len() > 0 && (s[0] == '-' || s[0] == '+') {
        s.drop_first()
    } else {
        s
    };
    let v = if neg {
        -digits_value(body)
    } else {
        digits_value(body)
    };
    if body.len() == 0 || !all_digits(body) || v < i64::MIN || v > i64::MAX {
        None
    } else {
        Some(v)
    }
}

/// A longer string of digits is worth at least as much as each of its prefixes.
proof fn lemma_digits_value_prefix(s: Seq<char>, k: int)
    requires
        all_digits(s),
        0 <= k <= s.len(),
    ensures
        0 <= digits_value(s.take(k)) <= digits_value(s),
    decreases s.len(),
{
    if s.len() == 0 {
        assert(s.take(k) =~= s);
    } else if k == s.len() {
        assert(s.take(k) =~= s);
        lemma_digits_value_prefix(s.drop_last(), k - 1);
        assert(s.drop_last().take(k - 1) =~= s.drop_last());
    } else {
        lemma_digits_value_prefix(s.drop_last(), k);
        assert(s.drop_last().take(k) =~= s.take(k));
        assert(is_digit(s[s.len() - 1]));
    }
}

proof fn lemma_digit_char(d: nat)
    requires
        d < 10,
    ensures
        is_digit(digit_char(d)),
        digit_value(digit_char(d)) == d,
{
}

proof fn lemma_decimal_digits(n: nat)
    ensures
        decimal_digits(n).len() > 0,
        all_digits(decimal_digits(n)),
        digits_value(decimal_digits(n)) == n,
    decreases n,
{
    lemma_digit_char(n % 10);
    let d = decimal_digits(n);
    if n < 10 {
        assert(d.drop_last() =~= Seq::<char>::empty());
        assert(digits_value(d.drop_last()) == 0);
    } else {
        lemma_decimal_digits(n / 10);
        assert(d.drop_last() =~= decimal_digits(n / 10));
        assert(digits_value(d) == digits_value(d.drop_last()) * 10 + digit_value(d.last()));
        assert forall|k: int| 0 <= k < d.len() implies is_digit(#[trigger] d[k]) by {
            if k < d.len() - 1 {
                assert(d[k] == decimal_digits(n / 10)[k]);
            }
        }
    }
}

/// Parsing the decimal rendering of an `i64` gives the same number back.
pub proof fn law_parse_decimal_roundtrip(i: i64)
    ensures
        parse_int(decimal(i as int)) == Some(i as int),
{
    if i < 0 {
        let m = (-(i as int)) as nat;
        lemma_decimal_digits(m);
        assert((seq!['-'] + decimal_digits(m)).drop_first() =~= decimal_digits(m));
    } else {
        lemma_decimal_digits(i as nat);
        assert(is_digit(decimal_digits(i as nat)[0]));
    }
}

/// Parses a signed decimal integer as `str::parse::<i64>` does.
pub fn parse_i64(s: &str) -> (r: Option<i64>)
    ensures
        r is Some <==> parse_int(s@) is Some,
        r matches Some(v) ==> parse_int(s@) == Some(v as int),
{
    let cs = chars_of(s);
    let n = cs.len();
    if n == 0 {
        return None;
    }
    let mut start: usize = 0;
    let mut neg = false;
    if cs[0] == '-' {
        neg = true;
        start = 1;
    } else if cs[0] == '+' {
        start = 1;
    }
    if start == n {
        return None;
    }
    let ghost body = cs@.subrange(start as int, n as int);
    assert(body =~= (if s@[0] == '-' || s@[0] == '+' { s@.drop_first() } else { s@ }));
    let mut acc: u128 = 0;
    let mut i = start;
    while i < n
        invariant
            start <= i <= n,
            n == cs@.len(),
            cs@ == s@,
            body == cs@.subrange(start as int, n as int),
            body == (if s@.len() > 0 && (s@[0] == '-' || s@[0] == '+') {
                s@.drop_first()
            } else {
                s@
            }),
            acc as int == digits_value(cs@.subrange(start as int, i as int)),
            all_digits(cs@.subrange(start as int, i as int)),
            acc <= 9223372036854775808u128,
        decreases n - i,
    {
        let c = cs[i];
        if !('0' <= c && c <= '9') {
            assert(body[i - start] == c);
            assert(!is_digit(body[i - start]));
            return None;
        }
        let d = (c as u32) - ('0' as u32);
        let ghost prev = cs@.subrange(start as int, i as int);
        let ghost next = cs@.subrange(start as int, i + 1);
        assert(next.drop_last() =~= prev);
        assert(next.last() == c);
        acc = acc * 10 + d as u128;
        i = i + 1;
        if acc > 9223372036854775808u128 {
            proof {
                if all_digits(body) {
                    assert(body.take(i - start) =~= next);
                    lemma_digits_value_prefix(body, i - start);
                }
            }
            return None;
        }
    }
    assert(cs@.subrange(start as int, n as int) =~= body);
    if neg {
        let v: i64 = if acc == 9223372036854775808u128 {
            i64::MIN
        } else {
            -(acc as i64)
        };
        Some(v)
    } else {
        if acc > 9223372036854775807u128 {
            return None;
        }
        Some(acc as i64)
    }
}


/// Builds a `String` from a run of characters.
pub fn string_from_chars(v: &Vec<char>, lo: usize, hi: usize) -> (s: String)
    requires
        lo <= hi <= v@.len(),
    ensures
        s@ == v@.subrange(lo as int, hi as int),
{
    let mut s = String::new();
    let mut i = lo;
    while i < hi
        invariant
            lo <= i <= hi <= v@.len(),
            s@ == v@.subrange(lo as int, i as int),
        decreases hi - i,
    {
        push_char(&mut s, v[i]);
        i = i + 1;
        assert(s@ =~= v@.subrange(lo as int, i as int));
    }
    s
}

/// Whether two string slices hold the same characters.
pub fn str_eq(a: &str, b: &str) -> (r: bool)
    ensures
        r == (a@ == b@),
{
    let x = chars_of(a);
    let y = chars_of(b);
    if x.len() != y.len() {
        return false;
    }
    let mut i: usize = 0;
    while i < x.len()
        invariant
            x@ == a@,
            y@ == b@,
            x@.len() == y@.len(),
            i <= x@.len(),
            forall|k: int| 0 <= k < i ==> x@[k] == y@[k],
        decreases x.len() - i,
    {
        if x[i] != y[i] {
            return false;
        }
        i = i + 1;
    }
    assert(a@ =~= b@);
    true
}

/// The characters of `s` with every NUL removed.
pub open spec fn without_nul(s: Seq<char>) -> Seq<char>
    decreases s.len(),
{
    if s.len() == 0 {
        Seq::empty()
    } else if s.last() == '\0' {
        without_nul(s.drop_last())
    } else {
        without_nul(s.drop_last()).push(s.last())
    }
}

/// No NUL is left once they are removed, and every other character stays,
/// in order.
pub proof fn law_without_nul(s: Seq<char>)
    ensures
        forall|k: int| 0 <= k < without_nul(s).len() ==> #[trigger] without_nul(s)[k] != '\0',
        !s.contains('\0') ==> without_nul(s) == s,
    decreases s.len(),
{
    if s.len() > 0 {
        law_without_nul(s.drop_last());
        let w = without_nul(s.drop_last());
        assert forall|k: int| 0 <= k < without_nul(s).len() implies #[trigger] without_nul(s)[k]
            != '\0' by {
            if k < w.len() {
                assert(without_nul(s)[k] == w[k]);
            }
        }
        if !s.contains('\0') {
            assert(!s.drop_last().contains('\0')) by {
                if s.drop_last().contains('\0') {
                    let k = choose|k: int| 0 <= k < s.drop_last().len() && s.drop_last()[k] == '\0';
                    assert(s[k] == '\0');
                }
            }
            assert(s.last() != '\0') by {
                assert(s[s.len() - 1] == s.last());
            }
            assert(s.drop_last().push(s.last()) =~= s);
        }
    } else {
        assert(without_nul(s) =~= s);
    }
}

/// Removes interior NUL characters, which a C string cannot carry.
pub fn strip_nul(s: &str) -> (r: String)
    ensures
        r@ == without_nul(s@),
{
    let cs = chars_of(s);
    let mut r = String::new();
    let mut i: usize = 0;
    while i < cs.len()
        invariant
            cs@ == s@,
            i <= cs@.len(),
            r@ == without_nul(cs@.take(i as int)),
        decreases cs.len() - i,
    {
        assert(cs@.take(i + 1).drop_last() =~= cs@.take(i as int));
        if cs[i] != '\0' {
            push_char(&mut r, cs[i]);
        }
        i = i + 1;
    }
    assert(cs@.take(cs@.len() as int) =~= cs@);
    r
}

/// Unicode `White_Space` characters, those that `char::is_whitespace` accepts
/// and `str::trim` removes.
pub open spec fn is_white_space(c: char) -> bool {
    let u = c as u32;
    (9 <= u && u <= 13) || u == 32 || u == 0x85 || u == 0xA0 || u == 0x1680 || (0x2000 <= u
        && u <= 0x200A) || u == 0x2028 || u == 0x2029 || u == 0x202F || u == 0x205F || u
        == 0x3000
}

fn white_space(c: char) -> (r: bool)
    ensures
        r == is_white_space(c),
{
    let u = c as u32;
    (9 <= u && u <= 13) || u == 32 || u == 0x85 || u == 0xA0 || u == 0x1680 || (0x2000 <= u
        && u <= 0x200A) || u == 0x2028 || u == 0x2029 || u == 0x202F || u == 0x205F || u
        == 0x3000
}

/// The white space that trimming removes is exactly Unicode's 25
/// `White_Space` code points: the ASCII controls TAB, LF, VT, FF and CR, the
/// space, NEL, NO-BREAK SPACE, OGHAM SPACE MARK, the eleven spaces
/// U+2000..U+200A, LINE SEPARATOR, PARAGRAPH SEPARATOR, NARROW NO-BREAK SPACE,
/// MEDIUM MATHEMATICAL SPACE and IDEOGRAPHIC SPACE.
pub proof fn law_white_space(c: char)
    ensures
        is_white_space(c) <==> ({
            let u = c as u32;
            u == 9 || u == 10 || u == 11 || u == 12 || u == 13 || u == 32 || u == 133 || u == 160 || u == 0x1680 || u == 0x2000 || u == 0x2001 || u == 0x2002 || u == 0x2003 || u == 0x2004 || u == 0x2005 || u == 0x2006 || u == 0x2007 || u == 0x2008 || u == 0x2009 || u == 0x200a || u == 0x2028 || u == 0x2029 || u == 0x202f || u == 0x205f || u == 0x3000
        }),
{
}

/// `s` without leading white space.
pub open spec fn trim_start_seq(s: Seq<char>) -> Seq<char>
    decreases s.len(),
{
    if s.len() > 0 && is_white_space(s[0]) {
        trim_start_seq(s.drop_first())
    } else {
        s
    }
}

/// `s` without trailing white space.
pub open spec fn trim_end_seq(s: Seq<char>) -> Seq<char>
    decreases s.len(),
{
    if s.len() > 0 && is_white_space(s.last()) {
        trim_end_seq(s.drop_last())
    } else {
        s
    }
}

/// `s` without leading or trailing white space, as `str::trim` gives it.
pub open spec fn trim_seq(s: Seq<char>) -> Seq<char> {
    trim_end_seq(trim_start_seq(s))
}

proof fn lemma_trim_start(s: Seq<char>, k: int)
    requires
        0 <= k <= s.len(),
        forall|j: int| 0 <= j < k ==> is_white_space(#[trigger] s[j]),
        k == s.len() || !is_white_space(s[k]),
    ensures
        trim_start_seq(s) == s.subrange(k, s.len() as int),
    decreases k,
{
    if k == 0 {
        assert(s.subrange(0, s.len() as int) =~= s);
    } else {
        let t = s.drop_first();
        assert forall|j: int| 0 <= j < k - 1 implies is_white_space(#[trigger] t[j]) by {
            assert(t[j] == s[j + 1]);
        }
        lemma_trim_start(t, k - 1);
        assert(t.subrange(k - 1, t.len() as int) =~= s.subrange(k, s.len() as int));
    }
}

proof fn lemma_trim_end(s: Seq<char>, k: int)
    requires
        0 <= k <= s.len(),
        forall|j: int| k <= j < s.len() ==> is_white_space(#[trigger] s[j]),
        k == 0 || !is_white_space(s[k - 1]),
    ensures
        trim_end_seq(s) == s.subrange(0, k),
    decreases s.len() - k,
{
    if k == s.len() {
        assert(s.subrange(0, k) =~= s);
    } else {
        let t = s.drop_last();
        assert(is_white_space(s[s.len() - 1]));
        lemma_trim_end(t, k);
        assert(t.subrange(0, k) =~= s.subrange(0, k));
    }
}

/// The bounds `[lo, hi)` of `v` once white space is trimmed from both ends.
fn trimmed_bounds(v: &Vec<char>, lo: usize, hi: usize) -> (r: (usize, usize))
    requires
        lo <= hi <= v@.len(),
    ensures
        lo <= r.0 <= r.1 <= hi,
        v@.subrange(r.0 as int, r.1 as int) == trim_seq(v@.subrange(lo as int, hi as int)),
{
    let ghost s = v@.subrange(lo as int, hi as int);
    let mut i = lo;
    while i < hi && white_space(v[i])
        invariant
            lo <= i <= hi <= v@.len(),
            forall|j: int| lo <= j < i ==> is_white_space(#[trigger] v@[j]),
        decreases hi - i,
    {
        i = i + 1;
    }
    proof {
        assert forall|j: int| 0 <= j < i - lo implies is_white_space(#[trigger] s[j]) by {
            assert(s[j] == v@[lo + j]);
        }
        if i < hi {
            assert(s[i - lo] == v@[i as int]);
        }
        lemma_trim_start(s, i - lo);
        assert(s.subrange(i - lo, s.len() as int) =~= v@.subrange(i as int, hi as int));
    }
    let mut j = hi;
    while j > i && white_space(v[j - 1])
        invariant
            lo <= i <= j <= hi <= v@.len(),
            forall|m: int| j <= m < hi ==> is_white_space(#[trigger] v@[m]),
        decreases j - i,
    {
        j = j - 1;
    }
    proof {
        let t = v@.subrange(i as int, hi as int);
        assert forall|m: int| j - i <= m < t.len() implies is_white_space(#[trigger] t[m]) by {
            assert(t[m] == v@[i + m]);
        }
        if j > i {
            assert(t[j - i - 1] == v@[j - 1]);
        }
        lemma_trim_end(t, j - i);
        assert(t.subrange(0, j - i) =~= v@.subrange(i as int, j as int));
    }
    (i, j)
}

/// Removes leading and trailing white space, as `str::trim` does.
pub fn trim(s: &str) -> (r: String)
    ensures
        r@ == trim_seq(s@),
{
    let cs = chars_of(s);
    let (i, j) = trimmed_bounds(&cs, 0, cs.len());
    assert(cs@.subrange(0, cs@.len() as int) =~= cs@);
    string_from_chars(&cs, i, j)
}


/// Whether `p` occurs in `v` starting at index `i`.
fn matches_at(v: &Vec<char>, i: usize, p: &Vec<char>) -> (r: bool)
    requires
        i <= v@.len(),
    ensures
        r == (i + p@.len() <= v@.len() && v@.subrange(i as int, i + p@.len()) == p@),
{
    let n = v.len();
    if p.len() > n - i {
        return false;
    }
    let mut k: usize = 0;
    while k < p.len()
        invariant
            n == v@.len(),
            i + p@.len() <= n,
            k <= p@.len(),
            forall|m: int| 0 <= m < k ==> v@[i + m] == p@[m],
        decreases p.len() - k,
    {
        if v[i + k] != p[k] {
            assert(v@.subrange(i as int, i + p@.len())[k as int] != p@[k as int]);
            return false;
        }
        k = k + 1;
    }
    assert(v@.subrange(i as int, i + p@.len()) =~= p@);
    true
}

/// Whether `s` begins with `p`.
pub open spec fn has_prefix(s: Seq<char>, p: Seq<char>) -> bool {
    p.len() <= s.len() && s.subrange(0, p.len() as int) == p
}

/// `s` with every leading repetition of the non-empty pattern `p` removed,
/// as `str::trim_start_matches` gives it.
pub open spec fn strip_prefix_all(s: Seq<char>, p: Seq<char>) -> Seq<char>
    decreases s.len(),
{
    if p.len() > 0 && has_prefix(s, p) {
        strip_prefix_all(s.subrange(p.len() as int, s.len() as int), p)
    } else {
        s
    }
}

/// Whether `s` begins with `p`, computed.
pub fn starts_with(s: &str, p: &str) -> (r: bool)
    ensures
        r == has_prefix(s@, p@),
{
    let v = chars_of(s);
    let q = chars_of(p);
    matches_at(&v, 0, &q)
}

/// The index in `v` from which every leading repetition of `p` is gone.
fn skip_repeated_prefix(v: &Vec<char>, p: &Vec<char>) -> (i: usize)
    requires
        p@.len() > 0,
    ensures
        i <= v@.len(),
        v@.subrange(i as int, v@.len() as int) == strip_prefix_all(v@, p@),
{
    let mut i: usize = 0;
    let n = v.len();
    assert(v@.subrange(0, v@.len() as int) =~= v@);
    while matches_at(v, i, p)
        invariant
            n == v@.len(),
            p@.len() > 0,
            i <= v@.len(),
            strip_prefix_all(v@.subrange(i as int, v@.len() as int), p@) == strip_prefix_all(v@, p@),
        decreases v@.len() - i,
    {
        let ghost rest = v@.subrange(i as int, v@.len() as int);
        assert(rest.subrange(0, p@.len() as int) =~= v@.subrange(i as int, i + p@.len()));
        assert(rest.subrange(p@.len() as int, rest.len() as int) =~= v@.subrange(
            i + p@.len(),
            v@.len() as int,
        ));
        i = i + p.len();
    }
    let ghost rest = v@.subrange(i as int, v@.len() as int);
    assert(!has_prefix(rest, p@)) by {
        if has_prefix(rest, p@) {
            assert(rest.subrange(0, p@.len() as int) =~= v@.subrange(i as int, i + p@.len()));
        }
    }
    i
}

/// Removes every leading repetition of a non-empty pattern, as
/// `str::trim_start_matches` does, then trims white space from both ends.
pub fn trim_after_prefixes(s: &str, p: &str) -> (r: String)
    requires
        p@.len() > 0,
    ensures
        r@ == trim_seq(strip_prefix_all(s@, p@)),
{
    let v = chars_of(s);
    let q = chars_of(p);
    let i = skip_repeated_prefix(&v, &q);
    let (a, b) = trimmed_bounds(&v, i, v.len());
    string_from_chars(&v, a, b)
}

/// The views of a sequence of `String`s.
pub open spec fn views(v: Seq<String>) -> Seq<Seq<char>> {
    v.map_values(|x: String| x@)
}

/// The fields of `s` between commas, as `str::split(',')` yields them
/// (an empty string has one empty field).
pub open spec fn split_commas(s: Seq<char>) -> Seq<Seq<char>>
    decreases s.len(),
{
    if s.len() == 0 {
        seq![Seq::empty()]
    } else {
        let prev = split_commas(s.drop_last());
        if s.last() == ',' {
            prev.push(Seq::empty())
        } else {
            prev.update(prev.len() - 1, prev.last().push(s.last()))
        }
    }
}

/// The fields trimmed of white space, without those that are left empty.
pub open spec fn nonempty_trimmed(fields: Seq<Seq<char>>) -> Seq<Seq<char>>
    decreases fields.len(),
{
    if fields.len() == 0 {
        Seq::empty()
    } else {
        let rest = nonempty_trimmed(fields.drop_last());
        let t = trim_seq(fields.last());
        if t.len() > 0 {
            rest.push(t)
        } else {
            rest
        }
    }
}

/// The names in a comma-separated list: split at commas, trimmed, empties dropped.
pub open spec fn comma_list(s: Seq<char>) -> Seq<Seq<char>> {
    nonempty_trimmed(split_commas(s))
}

proof fn lemma_joined_extend_last(ps: Seq<Seq<char>>, sep: Seq<char>, c: char)
    requires
        ps.len() > 0,
    ensures
        joined(ps.update(ps.len() - 1, ps.last().push(c)), sep) == joined(ps, sep).push(c),
{
    let q = ps.update(ps.len() - 1, ps.last().push(c));
    if ps.len() > 1 {
        assert(q.drop_last() =~= ps.drop_last());
        assert(joined(q, sep) =~= joined(ps, sep).push(c));
    }
}

/// Splitting at commas loses nothing and keeps no comma: there is at least
/// one field, no field holds a comma, and the fields joined with `","` give
/// the string back.
pub proof fn law_split_commas(s: Seq<char>)
    ensures
        split_commas(s).len() >= 1,
        joined(split_commas(s), ","@) == s,
        forall|i: int, k: int|
            0 <= i < split_commas(s).len() && 0 <= k < split_commas(s)[i].len()
                ==> #[trigger] split_commas(s)[i][k] != ',',
    decreases s.len(),
{
    reveal_strlit(",");
    let f = split_commas(s);
    if s.len() == 0 {
        assert(joined(f, ","@) =~= s);
    } else {
        let t = s.drop_last();
        let c = s.last();
        let prev = split_commas(t);
        law_split_commas(t);
        if c == ',' {
            assert(f.drop_last() =~= prev);
            assert(joined(f, ","@) =~= s);
            assert forall|i: int, k: int|
                0 <= i < f.len() && 0 <= k < f[i].len() implies #[trigger] f[i][k] != ',' by {
                assert(i < prev.len());
                assert(f[i] == prev[i]);
            }
        } else {
            lemma_joined_extend_last(prev, ","@, c);
            assert(joined(f, ","@) =~= s);
            assert forall|i: int, k: int|
                0 <= i < f.len() && 0 <= k < f[i].len() implies #[trigger] f[i][k] != ',' by {
                if i < prev.len() - 1 {
                    assert(f[i] == prev[i]);
                } else if k < prev.last().len() {
                    assert(f[i][k] == prev[i][k]);
                }
            }
        }
    }
}

/// Where white space trimmed from the front of `s` ends.
proof fn trim_start_at(s: Seq<char>) -> (a: int)
    ensures
        0 <= a <= s.len(),
        trim_start_seq(s) == s.subrange(a, s.len() as int),
        forall|j: int| 0 <= j < a ==> is_white_space(#[trigger] s[j]),
        a < s.len() ==> !is_white_space(s[a]),
    decreases s.len(),
{
    if s.len() > 0 && is_white_space(s[0]) {
        let t = s.drop_first();
        let a1 = trim_start_at(t);
        assert(t.subrange(a1, t.len() as int) =~= s.subrange(a1 + 1, s.len() as int));
        assert forall|j: int| 0 <= j < a1 + 1 implies is_white_space(#[trigger] s[j]) by {
            if j > 0 {
                assert(s[j] == t[j - 1]);
            }
        }
        if a1 + 1 < s.len() {
            assert(s[a1 + 1] == t[a1]);
        }
        a1 + 1
    } else {
        assert(s.subrange(0, s.len() as int) =~= s);
        0
    }
}

/// Where the text remaining after trimming white space from the back of `s` ends.
proof fn trim_end_at(s: Seq<char>) -> (b: int)
    ensures
        0 <= b <= s.len(),
        trim_end_seq(s) == s.subrange(0, b),
        forall|j: int| b <= j < s.len() ==> is_white_space(#[trigger] s[j]),
        b > 0 ==> !is_white_space(s[b - 1]),
    decreases s.len(),
{
    if s.len() > 0 && is_white_space(s.last()) {
        let t = s.drop_last();
        let b1 = trim_end_at(t);
        assert(t.subrange(0, b1) =~= s.subrange(0, b1));
        assert forall|j: int| b1 <= j < s.len() implies is_white_space(#[trigger] s[j]) by {
            if j < s.len() - 1 {
                assert(s[j] == t[j]);
            }
        }
        if b1 > 0 {
            assert(s[b1 - 1] == t[b1 - 1]);
        }
        b1
    } else {
        assert(s.subrange(0, s.len() as int) =~= s);
        s.len() as int
    }
}

/// Trimming keeps one contiguous run of `s`: everything before it and after
/// it is white space, and the run neither starts nor ends with white space.
pub proof fn law_trim(s: Seq<char>)
    ensures
        exists|a: int, b: int|
            #![trigger s.subrange(a, b)]
            0 <= a <= b <= s.len() && trim_seq(s) == s.subrange(a, b) && (forall|j: int|
                0 <= j < a ==> is_white_space(#[trigger] s[j])) && (forall|j: int|
                b <= j < s.len() ==> is_white_space(#[trigger] s[j])) && (a < b ==> !is_white_space(s[a])
                && !is_white_space(s[b - 1])),
{
    let a = trim_start_at(s);
    let t = s.subrange(a, s.len() as int);
    let b1 = trim_end_at(t);
    let b = a + b1;
    assert(t.subrange(0, b1) =~= s.subrange(a, b));
    assert forall|j: int| b <= j < s.len() implies is_white_space(#[trigger] s[j]) by {
        assert(s[j] == t[j - a]);
    }
    if a < b {
        assert(s[a] == t[0]);
        assert(s[b - 1] == t[b1 - 1]);
    }
    assert(s.subrange(a, b) == trim_seq(s));
}

proof fn lemma_nonempty_trimmed_filter(fields: Seq<Seq<char>>)
    ensures
        nonempty_trimmed(fields) == fields.map_values(|f: Seq<char>| trim_seq(f)).filter(
            |t: Seq<char>| t.len() > 0,
        ),
    decreases fields.len(),
{
    let m = fields.map_values(|f: Seq<char>| trim_seq(f));
    let keep = |t: Seq<char>| t.len() > 0;
    reveal(Seq::filter);
    if fields.len() > 0 {
        lemma_nonempty_trimmed_filter(fields.drop_last());
        let md = fields.drop_last().map_values(|f: Seq<char>| trim_seq(f));
        assert(m.drop_last() =~= md);
        assert(m.last() == trim_seq(fields.last()));
        assert(nonempty_trimmed(fields.drop_last()) == md.filter(keep));
        assert(m.filter(keep) == if keep(m.last()) {
            m.drop_last().filter(keep).push(m.last())
        } else {
            m.drop_last().filter(keep)
        });
    } else {
        assert(m =~= Seq::<Seq<char>>::empty());
    }
}

/// The names of a comma-separated list are its comma-separated fields, each
/// trimmed of white space, in order, with the empty ones left out.
pub proof fn law_comma_list(s: Seq<char>)
    ensures
        comma_list(s) == split_commas(s).map_values(|f: Seq<char>| trim_seq(f)).filter(
            |t: Seq<char>| t.len() > 0,
        ),
{
    lemma_nonempty_trimmed_filter(split_commas(s));
}

/// Splits a comma-separated list into its trimmed, non-empty names.
pub fn split_comma_list(s: &str) -> (r: Vec<String>)
    ensures
        views(r@) == comma_list(s@),
{
    let cs = chars_of(s);
    let n = cs.len();
    let mut r: Vec<String> = Vec::new();
    let mut start: usize = 0;
    let mut i: usize = 0;
    let ghost mut done: Seq<Seq<char>> = Seq::empty();
    assert(cs@.take(0) =~= Seq::<char>::empty());
    assert(split_commas(cs@.take(0)) =~= done.push(cs@.subrange(0, 0)));
    assert(views(r@) =~= nonempty_trimmed(done));
    while i < n
        invariant
            n == cs@.len(),
            cs@ == s@,
            start <= i <= n,
            split_commas(cs@.take(i as int)) == done.push(cs@.subrange(start as int, i as int)),
            views(r@) == nonempty_trimmed(done),
        decreases n - i,
    {
        let ghost prefix = cs@.take(i + 1);
        assert(prefix.drop_last() =~= cs@.take(i as int));
        assert(prefix.last() == cs@[i as int]);
        if cs[i] == ',' {
            let (a, b) = trimmed_bounds(&cs, start, i);
            let ghost field = cs@.subrange(start as int, i as int);
            let ghost before = r@;
            if a < b {
                let name = string_from_chars(&cs, a, b);
                r.push(name);
                assert(views(r@) =~= views(before).push(name@));
            }
            proof {
                assert(done.push(field).drop_last() =~= done);
                assert(views(r@) =~= nonempty_trimmed(done.push(field)));
                done = done.push(field);
            }
            let ghost prev = split_commas(cs@.take(i as int));
            assert(cs@.subrange(i + 1, i + 1) =~= Seq::<char>::empty());
            assert(prev.push(Seq::empty()) =~= done.push(cs@.subrange(i + 1, i + 1)));
            start = i + 1;
            i = i + 1;
            assert(split_commas(cs@.take(i as int)) =~= done.push(cs@.subrange(start as int, i as int)));
        } else {
            let ghost prev = split_commas(cs@.take(i as int));
            assert(cs@.subrange(start as int, i as int).push(cs@[i as int]) =~= cs@.subrange(start as int, i + 1));
            assert(prev.update(prev.len() - 1, prev.last().push(cs@[i as int])) =~= done.push(cs@.subrange(start as int, i + 1)));
            i = i + 1;
            assert(split_commas(cs@.take(i as int)) =~= done.push(cs@.subrange(start as int, i as int)));
        }
    }
    let (a, b) = trimmed_bounds(&cs, start, n);
    let ghost field = cs@.subrange(start as int, n as int);
    let ghost before = r@;
    if a < b {
        let name = string_from_chars(&cs, a, b);
        r.push(name);
        assert(views(r@) =~= views(before).push(name@));
    }
    assert(cs@.take(n as int) =~= cs@);
    assert(done.push(field).drop_last() =~= done);
    assert(views(r@) =~= nonempty_trimmed(done.push(field)));
    r
}

/// The parts joined with `sep` between consecutive parts, as `[T]::join` gives it.
pub open spec fn joined(parts: Seq<Seq<char>>, sep: Seq<char>) -> Seq<char>
    decreases parts.len(),
{
    if parts.len() == 0 {
        Seq::empty()
    } else if parts.len() == 1 {
        parts[0]
    } else {
        joined(parts.drop_last(), sep) + sep + parts.last()
    }
}

/// Where the `i`-th part starts when parts are laid out one after another,
/// each followed by `sep_len` characters.
pub open spec fn part_offset(parts: Seq<Seq<char>>, sep_len: nat, i: nat) -> int
    decreases i,
{
    if i == 0 {
        0
    } else {
        part_offset(parts, sep_len, (i - 1) as nat) + parts[i - 1].len() + sep_len
    }
}

proof fn lemma_part_offset_prefix(parts: Seq<Seq<char>>, sep_len: nat, i: nat)
    requires
        i < parts.len(),
    ensures
        part_offset(parts.drop_last(), sep_len, i) == part_offset(parts, sep_len, i),
        part_offset(parts, sep_len, i) >= 0,
    decreases i,
{
    if i > 0 {
        lemma_part_offset_prefix(parts, sep_len, (i - 1) as nat);
    }
}

proof fn lemma_part_offset_grows(parts: Seq<Seq<char>>, sep_len: nat, i: nat, k: nat)
    requires
        i <= k <= parts.len(),
    ensures
        0 <= part_offset(parts, sep_len, i) <= part_offset(parts, sep_len, k),
        i < k ==> part_offset(parts, sep_len, i) + parts[i as int].len() + sep_len <= part_offset(parts, sep_len, k),
    decreases k,
{
    if i < k {
        lemma_part_offset_grows(parts, sep_len, i, (k - 1) as nat);
    } else if k > 0 {
        lemma_part_offset_grows(parts, sep_len, 0, (k - 1) as nat);
    }
}

/// The layout of a joined string: nothing for no parts; otherwise the parts
/// in order, the `i`-th starting at `part_offset(parts, |sep|, i)`, with
/// exactly one `sep` between each consecutive pair and nothing else.
pub proof fn law_join_layout(parts: Seq<Seq<char>>, sep: Seq<char>)
    ensures
        parts.len() == 0 ==> joined(parts, sep).len() == 0,
        parts.len() > 0 ==> joined(parts, sep).len() == part_offset(parts, sep.len(), parts.len()) - sep.len(),
        forall|i: int|
            0 <= i < parts.len() ==> #[trigger] joined(parts, sep).subrange(
                part_offset(parts, sep.len(), i as nat),
                part_offset(parts, sep.len(), i as nat) + parts[i].len(),
            ) == parts[i],
        forall|i: int|
            0 < i < parts.len() ==> #[trigger] joined(parts, sep).subrange(
                part_offset(parts, sep.len(), i as nat) - sep.len(),
                part_offset(parts, sep.len(), i as nat),
            ) == sep,
    decreases parts.len(),
{
    let n = parts.len();
    let j = joined(parts, sep);
    let sl = sep.len();
    if n == 1 {
        assert(part_offset(parts, sl, 1) == parts[0].len() + sl);
        assert(j.subrange(0, parts[0].len() as int) =~= parts[0]);
    } else if n > 1 {
        let init = parts.drop_last();
        let ji = joined(init, sep);
        law_join_layout(init, sep);
        lemma_part_offset_prefix(parts, sl, (n - 1) as nat);
        let last_off = part_offset(parts, sl, (n - 1) as nat);
        assert(last_off == ji.len() + sl);
        assert(part_offset(parts, sl, n) == last_off + parts.last().len() + sl);
        assert(j.len() == ji.len() + sl + parts.last().len());
        assert forall|i: int| 0 <= i < n implies #[trigger] j.subrange(
            part_offset(parts, sl, i as nat),
            part_offset(parts, sl, i as nat) + parts[i].len(),
        ) == parts[i] by {
            if i < n - 1 {
                lemma_part_offset_prefix(parts, sl, i as nat);
                lemma_part_offset_prefix(init, sl, i as nat);
                lemma_part_offset_grows(init, sl, i as nat, (n - 1) as nat);
                let o = part_offset(parts, sl, i as nat);
                assert(j == ji + sep + parts.last());
                assert(init[i] == parts[i]);
                assert(ji.subrange(o, o + init[i].len()) == init[i]);
                assert(j.subrange(o, o + parts[i].len()) =~= ji.subrange(o, o + init[i].len()));
            } else {
                assert(j == ji + sep + parts.last());
                assert(j.subrange(last_off, last_off + parts[i].len()) =~= parts.last());
            }
        }
        assert forall|i: int| 0 < i < n implies #[trigger] j.subrange(
            part_offset(parts, sl, i as nat) - sl,
            part_offset(parts, sl, i as nat),
        ) == sep by {
            if i < n - 1 {
                lemma_part_offset_prefix(parts, sl, i as nat);
                lemma_part_offset_prefix(init, sl, i as nat);
                lemma_part_offset_grows(init, sl, i as nat, (n - 1) as nat);
                lemma_part_offset_grows(init, sl, (i - 1) as nat, i as nat);
                let o = part_offset(parts, sl, i as nat);
                assert(j == ji + sep + parts.last());
                assert(ji.subrange(o - sl, o) == sep);
                assert(j.subrange(o - sl, o) =~= ji.subrange(o - sl, o));
            } else {
                assert(j == ji + sep + parts.last());
                assert(j.subrange(last_off - sl, last_off) =~= sep);
            }
        }
    }
}

/// Joins strings with a separator, as `[String]::join` does.
pub fn join(parts: &Vec<String>, sep: &str) -> (r: String)
    ensures
        r@ == joined(views(parts@), sep@),
{
    let mut r = String::new();
    let mut i: usize = 0;
    while i < parts.len()
        invariant
            i <= parts@.len(),
            r@ == joined(views(parts@.take(i as int)), sep@),
        decreases parts.len() - i,
    {
        let ghost before = views(parts@.take(i as int));
        let ghost after = views(parts@.take(i + 1));
        assert(after.drop_last() =~= before);
        assert(after.last() == parts@[i as int]@);
        if i > 0 {
            r.append(sep);
        }
        r.append(parts[i].as_str());
        i = i + 1;
        assert(r@ =~= joined(after, sep@));
    }
    assert(parts@.take(parts@.len() as int) =~= parts@);
    r
}

/// The bytes of `b` before its first NUL byte (all of `b` if it has none).
pub open spec fn before_nul(b: Seq<u8>) -> Seq<u8>
    decreases b.len(),
{
    if b.len() == 0 {
        b
    } else if b[0] == 0 {
        Seq::empty()
    } else {
        seq![b[0]] + before_nul(b.drop_first())
    }
}

proof fn lemma_before_nul(b: Seq<u8>, k: int)
    requires
        0 <= k <= b.len(),
        forall|j: int| 0 <= j < k ==> #[trigger] b[j] != 0,
        k == b.len() || b[k] == 0,
    ensures
        before_nul(b) == b.take(k),
    decreases k,
{
    if k == 0 {
        assert(b.take(0) =~= Seq::<u8>::empty());
    } else {
        let t = b.drop_first();
        assert forall|j: int| 0 <= j < k - 1 implies #[trigger] t[j] != 0 by {
            assert(t[j] == b[j + 1]);
        }
        lemma_before_nul(t, k - 1);
        assert(seq![b[0]] + t.take(k - 1) =~= b.take(k));
    }
}

/// What `String::from_utf8_lossy` makes of a byte string: its UTF-8
/// decoding, with each invalid sequence replaced by U+FFFD.
pub uninterp spec fn lossy_utf8(bytes: Seq<u8>) -> Seq<char>;

/// Calls `String::from_utf8_lossy`. It decodes valid UTF-8 exactly, and
/// replaces invalid sequences by U+FFFD in a way that is named, not stated;
/// since only the byte 0 encodes U+0000 and the replacement is U+FFFD, bytes
/// without a 0 give text without a NUL.
#[verifier::external_body]
fn from_utf8_lossy(bytes: &[u8]) -> (s: String)
    ensures
        s@ == lossy_utf8(bytes@),
        valid_utf8(bytes@) ==> s@ == decode_utf8(bytes@),
        !bytes@.contains(0u8) ==> !s@.contains('\0'),
{
    String::from_utf8_lossy(bytes).into_owned()
}

/// Reads a NUL-terminated C string out of a byte buffer: the bytes before the
/// first NUL, decoded as UTF-8 with invalid sequences replaced. The text holds
/// no NUL.
pub fn buffer_to_string(buf: &[u8]) -> (s: String)
    ensures
        s@ == lossy_utf8(before_nul(buf@)),
        valid_utf8(before_nul(buf@)) ==> s@ == decode_utf8(before_nul(buf@)),
        !s@.contains('\0'),
{
    let mut end: usize = 0;
    while end < buf.len() && buf[end] != 0
        invariant
            end <= buf@.len(),
            forall|j: int| 0 <= j < end ==> #[trigger] buf@[j] != 0,
        decreases buf.len() - end,
    {
        end = end + 1;
    }
    proof {
        lemma_before_nul(buf@, end as int);
    }
    let prefix = vstd::slice::slice_subrange(buf, 0, end);
    assert(prefix@ =~= buf@.take(end as int));
    assert(!prefix@.contains(0u8)) by {
        if prefix@.contains(0u8) {
            let k = choose|k: int| 0 <= k < prefix@.len() && prefix@[k] == 0u8;
            assert(buf@[k] == 0u8);
        }
    }
    from_utf8_lossy(prefix)
}

/// What `format!("{:?}", s)` writes for a string slice: the text in double
/// quotes with escapes.
pub uninterp spec fn debug_text(s: Seq<char>) -> Seq<char>;

/// Calls the `Debug` formatting of `str` through `format!`.
#[verifier::external_body]
pub(crate) fn debug_quote(s: &str) -> (r: String)
    ensures
        r@ == debug_text(s@),
{
    format!("{:?}", s)
}

} // verus!

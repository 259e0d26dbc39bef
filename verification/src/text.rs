//! Character-level text helpers: whitespace trimming, ASCII case folding,
//! unsigned decimal parsing and printing, and `key=value` query lookup.

use vstd::prelude::*;
use vstd::string::*;

verus! {

/// Collects the characters of a string slice into a vector.
pub fn chars_of(s: &str) -> (v: Vec<char>)
    ensures
        v@ == s@,
{
    let n = s.unicode_len();
    let mut v: Vec<char> = Vec::new();
    let mut i: usize = 0;
    while i < n
        invariant
            n == s@.len(),
            i <= n,
            v@ == s@.subrange(0, i as int),
        decreases n - i,
    {
        let c = s.get_char(i);
        v.push(c);
        i = i + 1;
    }
    v
}

/// `String::push`: appends one character at the end of the string.
#[verifier::external_body]
pub(crate) fn string_push(s: &mut String, c: char)
    ensures
        final(s)@ == old(s)@.push(c),
{
    s.push(c);
}

/// Builds a string holding exactly the given characters.
pub fn string_of(v: &Vec<char>) -> (s: String)
    ensures
        s@ == v@,
{
    let mut s = String::new();
    let mut i: usize = 0;
    while i < v.len()
        invariant
            i <= v.len(),
            s@ == v@.subrange(0, i as int),
        decreases v.len() - i,
    {
        string_push(&mut s, v[i]);
        i = i + 1;
    }
    s
}

/// Appends all characters of `src` to `dst`.
pub fn push_all(dst: &mut Vec<char>, src: &Vec<char>)
    ensures
        final(dst)@ == old(dst)@ + src@,
{
    let mut i: usize = 0;
    while i < src.len()
        invariant
            i <= src.len(),
            dst@ == old(dst)@ + src@.subrange(0, i as int),
        decreases src.len() - i,
    {
        dst.push(src[i]);
        i = i + 1;
        assert(src@.subrange(0, i as int) == src@.subrange(0, i - 1).push(src@[i - 1]));
    }
    assert(src@.subrange(0, src@.len() as int) == src@);
}

/// Appends all characters of a string slice to `dst`.
pub fn push_str(dst: &mut Vec<char>, s: &str)
    ensures
        final(dst)@ == old(dst)@ + s@,
{
    let v = chars_of(s);
    push_all(dst, &v);
}

/// Whether two character sequences are equal.
pub fn chars_eq(a: &Vec<char>, b: &Vec<char>) -> (r: bool)
    ensures
        r == (a@ == b@),
{
    if a.len() != b.len() {
        return false;
    }
    let mut i: usize = 0;
    while i < a.len()
        invariant
            a@.len() == b@.len(),
            i <= a.len(),
            forall|j: int| 0 <= j < i ==> a@[j] == b@[j],
        decreases a.len() - i,
    {
        if a[i] != b[i] {
            return false;
        }
        i = i + 1;
    }
    assert(a@ =~= b@);
    true
}

/// Whether a character sequence spells exactly the given string slice.
pub fn chars_eq_str(a: &Vec<char>, s: &str) -> (r: bool)
    ensures
        r == (a@ == s@),
{
    let b = chars_of(s);
    chars_eq(a, &b)
}

// ---------------------------------------------------------------------------
// Whitespace

/// The characters that carry the Unicode `White_Space` property
/// (the set that `char::is_whitespace` recognises).
pub open spec fn is_space(c: char) -> bool {
    ||| ('\u{9}' <= c && c <= '\u{d}')
    ||| c == ' '
    ||| c == '\u{85}'
    ||| c == '\u{a0}'
    ||| c == '\u{1680}'
    ||| ('\u{2000}' <= c && c <= '\u{200a}')
    ||| c == '\u{2028}'
    ||| c == '\u{2029}'
    ||| c == '\u{202f}'
    ||| c == '\u{205f}'
    ||| c == '\u{3000}'
}

pub fn is_space_char(c: char) -> (r: bool)
    ensures
        r == is_space(c),
{
    ('\u{9}' <= c && c <= '\u{d}') || c == ' ' || c == '\u{85}' || c == '\u{a0}'
        || c == '\u{1680}' || ('\u{2000}' <= c && c <= '\u{200a}') || c == '\u{2028}'
        || c == '\u{2029}' || c == '\u{202f}' || c == '\u{205f}' || c == '\u{3000}'
}

/// Drops leading whitespace.
pub open spec fn trim_start(s: Seq<char>) -> Seq<char>
    decreases s.len(),
{
    if s.len() > 0 && is_space(s[0]) {
        trim_start(s.drop_first())
    } else {
        s
    }
}

/// Drops trailing whitespace.
pub open spec fn trim_end(s: Seq<char>) -> Seq<char>
    decreases s.len(),
{
    if s.len() > 0 && is_space(s.last()) {
        trim_end(s.drop_last())
    } else {
        s
    }
}

/// Drops leading and trailing whitespace (`str::trim`).
pub open spec fn trim(s: Seq<char>) -> Seq<char> {
    trim_end(trim_start(s))
}

/// Whether the sequence holds only whitespace (or nothing).
pub open spec fn is_blank(s: Seq<char>) -> bool {
    forall|i: int| 0 <= i < s.len() ==> is_space(#[trigger] s[i])
}

pub proof fn lemma_trim_start_skip(s: Seq<char>, i: int)
    requires
        0 <= i <= s.len(),
        forall|j: int| 0 <= j < i ==> is_space(#[trigger] s[j]),
    ensures
        trim_start(s) == trim_start(s.subrange(i, s.len() as int)),
    decreases i,
{
    if i > 0 {
        assert(s.drop_first().subrange(i - 1, s.drop_first().len() as int) =~= s.subrange(
            i,
            s.len() as int,
        ));
        lemma_trim_start_skip(s.drop_first(), i - 1);
    } else {
        assert(s.subrange(0, s.len() as int) =~= s);
    }
}

proof fn lemma_trim_end_skip(s: Seq<char>, k: int)
    requires
        0 <= k <= s.len(),
        forall|j: int| k <= j < s.len() ==> is_space(#[trigger] s[j]),
    ensures
        trim_end(s) == trim_end(s.subrange(0, k)),
    decreases s.len() - k,
{
    if k < s.len() {
        assert(s.drop_last().subrange(0, k) =~= s.subrange(0, k));
        lemma_trim_end_skip(s.drop_last(), k);
    } else {
        assert(s.subrange(0, k) =~= s);
    }
}

proof fn lemma_trim_start_blank(s: Seq<char>)
    requires
        is_blank(s),
    ensures
        trim_start(s) == Seq::<char>::empty(),
    decreases s.len(),
{
    if s.len() > 0 {
        lemma_trim_start_blank(s.drop_first());
    }
}

/// `trim` yields nothing exactly when the sequence is blank.
pub proof fn lemma_trim_empty_iff_blank(s: Seq<char>)
    ensures
        (trim(s).len() == 0) == is_blank(s),
{
    if is_blank(s) {
        lemma_trim_start_blank(s);
    } else {
        let i = choose|i: int| 0 <= i < s.len() && !is_space(#[trigger] s[i]);
        lemma_first_non_space(s, i);
    }
}

proof fn lemma_first_non_space(s: Seq<char>, i: int)
    requires
        0 <= i < s.len(),
        !is_space(s[i]),
    ensures
        trim(s).len() > 0,
    decreases i,
{
    if is_space(s[0]) {
        lemma_first_non_space(s.drop_first(), i - 1);
    } else {
        lemma_trim_end_nonempty(s);
    }
}

proof fn lemma_trim_end_nonempty(t: Seq<char>)
    requires
        t.len() > 0,
        !is_space(t[0]),
    ensures
        trim_end(t).len() > 0,
    decreases t.len(),
{
    if is_space(t.last()) {
        assert(t.len() > 1);
        assert(t.drop_last()[0] == t[0]);
        lemma_trim_end_nonempty(t.drop_last());
    }
}

proof fn lemma_trim_start_shape(s: Seq<char>)
    ensures
        trim_start(s).len() == 0 || !is_space(trim_start(s)[0]),
    decreases s.len(),
{
    if s.len() > 0 && is_space(s[0]) {
        lemma_trim_start_shape(s.drop_first());
    }
}

proof fn lemma_trim_end_shape(s: Seq<char>)
    ensures
        trim_end(s).len() <= s.len(),
        trim_end(s) == s.take(trim_end(s).len() as int),
        trim_end(s).len() == 0 || !is_space(trim_end(s).last()),
    decreases s.len(),
{
    if s.len() > 0 && is_space(s.last()) {
        lemma_trim_end_shape(s.drop_last());
        let t = trim_end(s.drop_last());
        assert(s.drop_last().take(t.len() as int) =~= s.take(t.len() as int));
    } else {
        assert(s.take(s.len() as int) =~= s);
    }
}

/// Normalizing a name twice is the same as normalizing it once: a trimmed,
/// lower-cased name has no whitespace at its ends and no upper-case ASCII
/// letter left.
pub proof fn lemma_normalized_idempotent(s: Seq<char>)
    ensures
        normalized(normalized(s)) == normalized(s),
{
    let u = trim_start(s);
    let t = trim(s);
    lemma_trim_start_shape(s);
    lemma_trim_end_shape(u);
    if t.len() > 0 {
        assert(t[0] == u[0]);
    }
    let l = lower(t);
    assert(l.len() == t.len());
    if l.len() > 0 {
        assert(l[0] == lower_char(t[0]));
        assert(l.last() == lower_char(t.last()));
        assert(!is_space(l[0]));
        assert(!is_space(l.last()));
    }
    assert(trim_start(l) == l);
    assert(trim_end(l) == l);
    assert(trim(l) == l);
    assert(lower(l) =~= l);
}

/// Removes leading and trailing whitespace.
pub fn trim_chars(v: &Vec<char>) -> (r: Vec<char>)
    ensures
        r@ == trim(v@),
{
    let n = v.len();
    let mut i: usize = 0;
    while i < n && is_space_char(v[i])
        invariant
            n == v@.len(),
            i <= n,
            forall|j: int| 0 <= j < i ==> is_space(#[trigger] v@[j]),
        decreases n - i,
    {
        i = i + 1;
    }
    proof {
        lemma_trim_start_skip(v@, i as int);
    }
    let ghost rest = v@.subrange(i as int, n as int);
    assert(i < n ==> !is_space(rest[0]));
    assert(trim_start(rest) == rest) by {
        if rest.len() > 0 {
            assert(!is_space(rest[0]));
        }
    }
    let mut k: usize = n;
    while k > i && is_space_char(v[k - 1])
        invariant
            n == v@.len(),
            i <= k <= n,
            rest == v@.subrange(i as int, n as int),
            forall|j: int| k <= j < n ==> is_space(#[trigger] v@[j]),
        decreases k,
    {
        k = k - 1;
    }
    proof {
        assert forall|j: int| k - i <= j < rest.len() implies is_space(#[trigger] rest[j]) by {
            assert(rest[j] == v@[j + i]);
        }
        lemma_trim_end_skip(rest, k - i);
        assert(rest.subrange(0, k - i) =~= v@.subrange(i as int, k as int));
        let t = v@.subrange(i as int, k as int);
        if t.len() > 0 {
            assert(t.last() == v@[k - 1]);
        }
    }
    let mut r: Vec<char> = Vec::new();
    let mut p: usize = i;
    while p < k
        invariant
            i <= p <= k <= n,
            n == v@.len(),
            r@ == v@.subrange(i as int, p as int),
        decreases k - p,
    {
        r.push(v[p]);
        p = p + 1;
    }
    r
}

// ---------------------------------------------------------------------------
// ASCII case folding

/// Maps an ASCII upper-case letter to lower case and leaves every other
/// character as it is.
pub open spec fn lower_char(c: char) -> char {
    if 'A' <= c && c <= 'Z' {
        ((c as u32) + 32) as char
    } else {
        c
    }
}

/// `str::to_ascii_lowercase` on a character sequence.
pub open spec fn lower(s: Seq<char>) -> Seq<char> {
    s.map_values(|c: char| lower_char(c))
}

pub fn to_lower_char(c: char) -> (r: char)
    ensures
        r == lower_char(c),
{
    if 'A' <= c && c <= 'Z' {
        ((c as u8) + 32) as char
    } else {
        c
    }
}

pub fn lower_chars(v: &Vec<char>) -> (r: Vec<char>)
    ensures
        r@ == lower(v@),
{
    let mut r: Vec<char> = Vec::new();
    let mut i: usize = 0;
    while i < v.len()
        invariant
            i <= v.len(),
            r@ =~= lower(v@.subrange(0, i as int)),
        decreases v.len() - i,
    {
        r.push(to_lower_char(v[i]));
        i = i + 1;
    }
    assert(v@.subrange(0, v@.len() as int) =~= v@);
    r
}

/// The key under which names are compared: trimmed, then lower-cased.
pub open spec fn normalized(s: Seq<char>) -> Seq<char> {
    lower(trim(s))
}

pub fn normalize(v: &Vec<char>) -> (r: Vec<char>)
    ensures
        r@ == normalized(v@),
{
    let t = trim_chars(v);
    lower_chars(&t)
}

// ---------------------------------------------------------------------------
// Unsigned decimal numbers

pub open spec fn is_digit(c: char) -> bool {
    '0' <= c && c <= '9'
}

pub open spec fn digit_value(c: char) -> int {
    (c as int) - ('0' as int)
}

pub open spec fn all_digits(s: Seq<char>) -> bool {
    forall|i: int| 0 <= i < s.len() ==> is_digit(#[trigger] s[i])
}

/// The number that a sequence of decimal digits spells.
pub open spec fn digits_value(s: Seq<char>) -> int
    decreases s.len(),
{
    if s.len() == 0 {
        0
    } else {
        digits_value(s.drop_last()) * 10 + digit_value(s.last())
    }
}

/// What `str::parse` gives for an unsigned integer type whose largest value
/// is `max`: an optional `+`, then one or more ASCII digits, no surrounding
/// characters, and a value that fits.
pub open spec fn parse_unsigned(s: Seq<char>, max: int) -> Option<int> {
    let d = if s.len() > 0 && s[0] == '+' {
        s.drop_first()
    } else {
        s
    };
    if d.len() > 0 && all_digits(d) && digits_value(d) <= max {
        Some(digits_value(d))
    } else {
        None
    }
}

proof fn lemma_digits_value_nonneg(s: Seq<char>)
    requires
        all_digits(s),
    ensures
        digits_value(s) >= 0,
    decreases s.len(),
{
    if s.len() > 0 {
        lemma_digits_value_nonneg(s.drop_last());
    }
}

proof fn lemma_digits_value_grows(s: Seq<char>, i: int)
    requires
        all_digits(s),
        0 <= i <= s.len(),
    ensures
        digits_value(s.subrange(0, i)) <= digits_value(s),
    decreases s.len() - i,
{
    if i < s.len() {
        lemma_digits_value_grows(s.drop_last(), i);
        assert(s.drop_last().subrange(0, i) =~= s.subrange(0, i));
        lemma_digits_value_nonneg(s.drop_last());
    } else {
        assert(s.subrange(0, i) =~= s);
    }
}

/// Parses an unsigned decimal number no larger than `max`.
pub fn parse_unsigned_chars(v: &Vec<char>, max: u64) -> (r: Option<u64>)
    ensures
        r matches Some(x) ==> parse_unsigned(v@, max as int) == Some(x as int),
        r is None ==> parse_unsigned(v@, max as int) is None,
{
    let start: usize = if v.len() > 0 && v[0] == '+' {
        1
    } else {
        0
    };
    let ghost d = if v@.len() > 0 && v@[0] == '+' {
        v@.drop_first()
    } else {
        v@
    };
    assert(d =~= v@.subrange(start as int, v@.len() as int));
    if start >= v.len() {
        return None;
    }
    let mut acc: u64 = 0;
    let mut i: usize = start;
    while i < v.len()
        invariant
            start <= i <= v.len(),
            d == v@.subrange(start as int, v@.len() as int),
            d == (if v@.len() > 0 && v@[0] == '+' {
                v@.drop_first()
            } else {
                v@
            }),
            acc <= max,
            all_digits(d.subrange(0, i - start)),
            acc as int == digits_value(d.subrange(0, i - start)),
        decreases v.len() - i,
    {
        let c = v[i];
        if !('0' <= c && c <= '9') {
            proof {
                assert(d[i - start] == c);
            }
            return None;
        }
        let dv: u64 = ((c as u32) - ('0' as u32)) as u64;
        proof {
            let p = d.subrange(0, i + 1 - start);
            assert(p.drop_last() =~= d.subrange(0, i - start));
            assert(p.last() == c);
        }
        if dv > max || acc > (max - dv) / 10 {
            proof {
                let p = d.subrange(0, i + 1 - start);
                assert(all_digits(p));
                assert(digits_value(p) == acc * 10 + dv);
                if dv <= max {
                    assert(acc * 10 + dv > max) by (nonlinear_arith)
                        requires
                            acc > (max - dv) / 10,
                            dv <= max,
                    ;
                }
                if all_digits(d) {
                    lemma_digits_value_grows(d, i + 1 - start);
                }
            }
            return None;
        }
        proof {
            assert(acc * 10 + dv <= max) by (nonlinear_arith)
                requires
                    acc <= (max - dv) / 10,
                    dv <= max,
            ;
        }
        acc = acc * 10 + dv;
        i = i + 1;
    }
    assert(d.subrange(0, d.len() as int) =~= d);
    Some(acc)
}

/// The decimal digit character for a value below ten.
pub open spec fn digit_char(d: int) -> char {
    ((d + 48) as u32) as char
}

/// The shortest decimal spelling of a natural number.
pub open spec fn decimal(n: nat) -> Seq<char>
    decreases n,
{
    if n < 10 {
        seq![digit_char(n as int)]
    } else {
        decimal(n / 10).push(digit_char((n % 10) as int))
    }
}

/// Appends the decimal spelling of `n`.
pub fn push_decimal(dst: &mut Vec<char>, n: u64)
    ensures
        final(dst)@ == old(dst)@ + decimal(n as nat),
    decreases n,
{
    if n < 10 {
        dst.push(((n as u8) + 48) as char);
        assert(dst@ =~= old(dst)@ + decimal(n as nat));
    } else {
        push_decimal(dst, n / 10);
        dst.push((((n % 10) as u8) + 48) as char);
        assert(dst@ =~= old(dst)@ + decimal(n as nat));
    }
}

// ---------------------------------------------------------------------------
// Searching

/// The first position at or after `i` that holds `c`, or the length.
pub open spec fn find_from(s: Seq<char>, c: char, i: int) -> int
    decreases s.len() - i,
{
    if i >= s.len() {
        s.len() as int
    } else if s[i] == c {
        i
    } else {
        find_from(s, c, i + 1)
    }
}

/// The first position of `c` in `s`, or the length of `s`.
pub open spec fn find(s: Seq<char>, c: char) -> int {
    find_from(s, c, 0)
}

proof fn lemma_find_from_bounds(s: Seq<char>, c: char, i: int)
    requires
        0 <= i <= s.len(),
    ensures
        i <= find_from(s, c, i) <= s.len(),
        find_from(s, c, i) < s.len() ==> s[find_from(s, c, i)] == c,
        forall|j: int| i <= j < find_from(s, c, i) ==> s[j] != c,
    decreases s.len() - i,
{
    if i < s.len() && s[i] != c {
        lemma_find_from_bounds(s, c, i + 1);
    }
}

pub proof fn lemma_find_bounds(s: Seq<char>, c: char)
    ensures
        0 <= find(s, c) <= s.len(),
        find(s, c) < s.len() ==> s[find(s, c)] == c,
        forall|j: int| 0 <= j < find(s, c) ==> s[j] != c,
{
    lemma_find_from_bounds(s, c, 0);
}

/// Position of the first `c` in `v[from..to]`, or `to`.
pub fn find_char_in(v: &Vec<char>, c: char, from: usize, to: usize) -> (r: usize)
    requires
        from <= to <= v.len(),
    ensures
        r == from + find(v@.subrange(from as int, to as int), c),
{
    let ghost s = v@.subrange(from as int, to as int);
    let mut i: usize = from;
    while i < to && v[i] != c
        invariant
            from <= i <= to <= v.len(),
            s == v@.subrange(from as int, to as int),
            find(s, c) == find_from(s, c, i - from),
        decreases to - i,
    {
        assert(s[i - from] == v@[i as int]);
        i = i + 1;
    }
    proof {
        if i < to {
            assert(s[i - from] == v@[i as int]);
        }
    }
    i
}

/// Whether `c` occurs in the sequence.
pub fn contains_char(v: &Vec<char>, c: char) -> (r: bool)
    ensures
        r == v@.contains(c),
{
    let p = find_char_in(v, c, 0, v.len());
    proof {
        assert(v@.subrange(0, v@.len() as int) =~= v@);
        lemma_find_bounds(v@, c);
        if p < v.len() {
            assert(v@[p as int] == c);
        }
    }
    p < v.len()
}

// ---------------------------------------------------------------------------
// `key=value&key=value` lookup

/// The value of the first `&`-separated pair whose name (the text before
/// its first `=`) equals `key`; pairs without `=` are skipped.
pub open spec fn query_lookup(q: Seq<char>, key: Seq<char>) -> Option<Seq<char>>
    decreases q.len(),
{
    let end = find(q, '&');
    let pair = q.subrange(0, end);
    let eq = find(pair, '=');
    if eq < pair.len() && pair.subrange(0, eq) == key {
        Some(pair.subrange(eq + 1, pair.len() as int))
    } else if end < q.len() {
        proof {
            lemma_find_bounds(q, '&');
        }
        query_lookup(q.subrange(end + 1, q.len() as int), key)
    } else {
        None
    }
}

/// The value bound to `key` in a `key=value&key=value` text.
pub fn query_value(query: &str, key: &str) -> (r: Option<String>)
    ensures
        r matches Some(x) ==> query_lookup(query@, key@) == Some(x@),
        r is None ==> query_lookup(query@, key@) is None,
{
    match query_value_chars(&chars_of(query), key) {
        Some(v) => Some(string_of(&v)),
        None => None,
    }
}

/// `query.split('&').find_map(..split_once('=')..)`: the value bound to `key`.
pub fn query_value_chars(q: &Vec<char>, key: &str) -> (r: Option<Vec<char>>)
    ensures
        r matches Some(x) ==> query_lookup(q@, key@) == Some(x@),
        r is None ==> query_lookup(q@, key@) is None,
{
    let k = chars_of(key);
    let n = q.len();
    assert(q@.subrange(0, n as int) =~= q@);
    let mut start: usize = 0;
    loop
        invariant
            start <= n == q@.len(),
            k@ == key@,
            query_lookup(q@, key@) == query_lookup(q@.subrange(start as int, n as int), key@),
        decreases n - start,
    {
        let ghost rest = q@.subrange(start as int, n as int);
        let end = find_char_in(q, '&', start, n);
        proof {
            lemma_find_bounds(rest, '&');
        }
        let ghost pair = rest.subrange(0, end - start);
        assert(pair =~= q@.subrange(start as int, end as int));
        let eq = find_char_in(q, '=', start, end);
        proof {
            lemma_find_bounds(pair, '=');
        }
        if eq < end {
            let mut name: Vec<char> = Vec::new();
            let mut i: usize = start;
            while i < eq
                invariant
                    start <= i <= eq <= end <= n == q@.len(),
                    name@ == q@.subrange(start as int, i as int),
                decreases eq - i,
            {
                name.push(q[i]);
                i = i + 1;
            }
            assert(pair.subrange(0, eq - start) =~= name@);
            if chars_eq(&name, &k) {
                let mut value: Vec<char> = Vec::new();
                let mut j: usize = eq + 1;
                while j < end
                    invariant
                        eq + 1 <= j <= end,
                        end <= n == q@.len(),
                        value@ == q@.subrange(eq + 1, j as int),
                    decreases end - j,
                {
                    value.push(q[j]);
                    j = j + 1;
                }
                assert(pair.subrange(eq - start + 1, pair.len() as int) =~= value@);
                return Some(value);
            }
        }
        if end >= n {
            return None;
        }
        assert(rest.subrange(end - start + 1, rest.len() as int) =~= q@.subrange(
            end + 1,
            n as int,
        ));
        start = end + 1;
    }
}

/// The value bound to the first of `keys` that `q` binds.
pub open spec fn lookup_first(q: Seq<char>, keys: Seq<&str>) -> Option<Seq<char>>
    decreases keys.len(),
{
    if keys.len() == 0 {
        None
    } else {
        match query_lookup(q, keys[0]@) {
            Some(v) => Some(v),
            None => lookup_first(q, keys.drop_first()),
        }
    }
}

/// The value bound to the first of `keys` that `q` binds.
pub fn query_value_any(q: &Vec<char>, keys: &[&str]) -> (r: Option<Vec<char>>)
    ensures
        r matches Some(x) ==> lookup_first(q@, keys@) == Some(x@),
        r is None ==> lookup_first(q@, keys@) is None,
{
    let mut i: usize = 0;
    assert(keys@.subrange(0, keys@.len() as int) =~= keys@);
    while i < keys.len()
        invariant
            i <= keys@.len(),
            lookup_first(q@, keys@) == lookup_first(q@, keys@.subrange(i as int, keys@.len() as int)),
        decreases keys.len() - i,
    {
        let ghost rest = keys@.subrange(i as int, keys@.len() as int);
        assert(rest.drop_first() =~= keys@.subrange(i + 1, keys@.len() as int));
        let found = query_value_chars(q, keys[i]);
        if found.is_some() {
            return found;
        }
        i = i + 1;
    }
    None
}

// ---------------------------------------------------------------------------
// UTF-8 length

/// The number of bytes that UTF-8 takes for a character (`char::len_utf8`).
pub open spec fn char_utf8_len(c: char) -> nat {
    if (c as u32) < 0x80 {
        1
    } else if (c as u32) < 0x800 {
        2
    } else if (c as u32) < 0x10000 {
        3
    } else {
        4
    }
}

/// The number of bytes that UTF-8 takes for a character sequence
/// (`str::len`).
pub open spec fn utf8_len(s: Seq<char>) -> nat
    decreases s.len(),
{
    if s.len() == 0 {
        0
    } else {
        utf8_len(s.drop_last()) + char_utf8_len(s.last())
    }
}

/// Whether the UTF-8 encoding of the characters is shorter than `limit`
/// bytes.
pub fn utf8_shorter_than(v: &Vec<char>, limit: usize) -> (r: bool)
    ensures
        r == (utf8_len(v@) < limit),
{
    let mut total: usize = 0;
    let mut i: usize = 0;
    while i < v.len()
        invariant
            i <= v.len(),
            total <= limit,
            total == utf8_len(v@.subrange(0, i as int)) || (total == limit && utf8_len(
                v@.subrange(0, i as int),
            ) >= limit),
        decreases v.len() - i,
    {
        let c = v[i];
        let w: usize = if (c as u32) < 0x80 {
            1
        } else if (c as u32) < 0x800 {
            2
        } else if (c as u32) < 0x10000 {
            3
        } else {
            4
        };
        proof {
            let p = v@.subrange(0, i + 1);
            assert(p.drop_last() =~= v@.subrange(0, i as int));
            assert(p.last() == c);
        }
        if total >= limit || w >= limit - total {
            total = limit;
        } else {
            total = total + w;
        }
        i = i + 1;
    }
    assert(v@.subrange(0, v@.len() as int) =~= v@);
    total < limit
}

} // verus!

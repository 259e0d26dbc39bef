//! The text of the control server's HTTP exchange: the request line, the
//! header lines, the request target, and the head of a response.

use vstd::prelude::*;

use crate::text::{
    chars_eq_str, chars_of, decimal, find, find_char_in, is_space, is_space_char,
    lemma_trim_start_skip, normalize, normalized, parse_unsigned, parse_unsigned_chars,
    push_decimal, push_str, string_of, trim, trim_chars, trim_start,
};

verus! {

/// Splits a request target at its first `?` into the path and the query;
/// the query is empty when there is no `?`.
pub open spec fn target_parts(target: Seq<char>) -> (Seq<char>, Seq<char>) {
    let q = find(target, '?');
    if q < target.len() {
        (target.take(q), target.skip(q + 1))
    } else {
        (target, Seq::empty())
    }
}

fn chars_range(v: &Vec<char>, from: usize, to: usize) -> (r: String)
    requires
        from <= to <= v.len(),
    ensures
        r@ == v@.subrange(from as int, to as int),
{
    let mut part: Vec<char> = Vec::new();
    let mut i: usize = from;
    while i < to
        invariant
            from <= i <= to <= v.len(),
            part@ == v@.subrange(from as int, i as int),
        decreases to - i,
    {
        part.push(v[i]);
        i = i + 1;
    }
    string_of(&part)
}

pub fn split_target(target: &str) -> (r: (String, String))
    ensures
        r.0@ == target_parts(target@).0,
        r.1@ == target_parts(target@).1,
{
    let v = chars_of(target);
    let n = v.len();
    let q = find_char_in(&v, '?', 0, n);
    assert(v@.subrange(0, n as int) =~= v@);
    proof {
        crate::text::lemma_find_bounds(v@, '?');
    }
    if q < n {
        (chars_range(&v, 0, q), chars_range(&v, q + 1, n))
    } else {
        (chars_range(&v, 0, n), String::new())
    }
}

/// Where the word that starts at `i` ends: at the first whitespace at or
/// after `i`, or at the end.
pub open spec fn word_end_from(s: Seq<char>, i: int) -> int
    decreases s.len() - i,
{
    if i >= s.len() {
        s.len() as int
    } else if is_space(s[i]) {
        i
    } else {
        word_end_from(s, i + 1)
    }
}

/// The first whitespace-separated word (empty when there is none).
pub open spec fn first_word(s: Seq<char>) -> Seq<char> {
    let t = trim_start(s);
    t.take(word_end_from(t, 0))
}

/// What follows the first word.
pub open spec fn after_first_word(s: Seq<char>) -> Seq<char> {
    let t = trim_start(s);
    t.skip(word_end_from(t, 0))
}

proof fn lemma_word_end(s: Seq<char>, k: int, i: int)
    requires
        0 <= k <= i <= s.len(),
        forall|j: int| k <= j < i ==> !is_space(#[trigger] s[j]),
        i == s.len() || is_space(s[i]),
    ensures
        word_end_from(s, k) == i,
    decreases i - k,
{
    if k < i {
        lemma_word_end(s, k + 1, i);
    }
}

/// Finds the next word at or after `from`: where it starts and where it
/// ends.
fn next_word(v: &Vec<char>, from: usize) -> (r: (usize, usize))
    requires
        from <= v.len(),
    ensures
        from <= r.0 <= r.1 <= v.len(),
        first_word(v@.skip(from as int)) == v@.subrange(r.0 as int, r.1 as int),
        after_first_word(v@.skip(from as int)) == v@.skip(r.1 as int),
{
    let n = v.len();
    let mut start = from;
    while start < n && is_space_char(v[start])
        invariant
            from <= start <= n,
            n == v@.len(),
            forall|j: int| from <= j < start ==> is_space(#[trigger] v@[j]),
        decreases n - start,
    {
        start = start + 1;
    }
    let ghost s = v@.skip(from as int);
    proof {
        assert forall|j: int| 0 <= j < start - from implies is_space(#[trigger] s[j]) by {
            assert(s[j] == v@[j + from]);
        }
        lemma_trim_start_skip(s, start - from);
        assert(s.subrange(start - from, s.len() as int) =~= v@.skip(start as int));
        let t = v@.skip(start as int);
        if t.len() > 0 {
            assert(t[0] == v@[start as int]);
        }
        assert(trim_start(t) == t);
    }
    let mut end = start;
    while end < n && !is_space_char(v[end])
        invariant
            start <= end <= n,
            n == v@.len(),
            forall|j: int| start <= j < end ==> !is_space(#[trigger] v@[j]),
        decreases n - end,
    {
        end = end + 1;
    }
    proof {
        let t = v@.skip(start as int);
        assert forall|j: int| 0 <= j < end - start implies !is_space(#[trigger] t[j]) by {
            assert(t[j] == v@[j + start]);
        }
        if end < n {
            assert(t[end - start] == v@[end as int]);
        }
        lemma_word_end(t, 0, end - start);
        assert(t.take(end - start) =~= v@.subrange(start as int, end as int));
        assert(t.skip(end - start) =~= v@.skip(end as int));
    }
    (start, end)
}

/// What a request line yields: the method and the target, its first two
/// words; or why there are none.
pub open spec fn request_line_result(line: Seq<char>, r: Result<(String, String), String>) -> bool {
    let method = first_word(line);
    let target = first_word(after_first_word(line));
    if trim(line).len() == 0 {
        r matches Err(e) && e@ == "missing request line"@
    } else if method.len() == 0 {
        r matches Err(e) && e@ == "missing request method"@
    } else if target.len() == 0 {
        r matches Err(e) && e@ == "missing request target"@
    } else {
        r matches Ok(p) && p.0@ == method && p.1@ == target
    }
}

/// Reads the method and the target from an HTTP request line.
pub fn parse_request_line(line: &str) -> (r: Result<(String, String), String>)
    ensures
        request_line_result(line@, r),
{
    let v = chars_of(line);
    let trimmed = trim_chars(&v);
    if trimmed.len() == 0 {
        return Err("missing request line".to_string());
    }
    let (m_start, m_end) = next_word(&v, 0);
    assert(v@.skip(0) =~= v@);
    if m_start == m_end {
        return Err("missing request method".to_string());
    }
    let (t_start, t_end) = next_word(&v, m_end);
    if t_start == t_end {
        return Err("missing request target".to_string());
    }
    Ok((chars_range(&v, m_start, m_end), chars_range(&v, t_start, t_end)))
}

/// A header line without its line break: trailing `\r` and `\n` removed.
pub open spec fn strip_line_end(s: Seq<char>) -> Seq<char>
    decreases s.len(),
{
    if s.len() > 0 && (s.last() == '\r' || s.last() == '\n') {
        strip_line_end(s.drop_last())
    } else {
        s
    }
}

/// What a header line tells.
#[derive(Debug, Clone, Copy, PartialEq, Eq, Structural)]
pub enum HeaderLine {
    /// The empty line that ends the headers.
    End,
    /// The body's length; zero when the value is not a number.
    ContentLength(usize),
    /// Any other header.
    Other,
}

/// What a header line tells: the end of the headers when it is empty, the
/// body's length for a `Content-Length` header (named in any ASCII case,
/// with whitespace around the name and value allowed).
pub open spec fn header_line(line: Seq<char>) -> HeaderLine {
    let t = strip_line_end(line);
    let colon = find(t, ':');
    if t.len() == 0 {
        HeaderLine::End
    } else if colon < t.len() && normalized(t.take(colon)) == "content-length"@ {
        match parse_unsigned(trim(t.skip(colon + 1)), usize::MAX as int) {
            Some(n) => HeaderLine::ContentLength(n as usize),
            None => HeaderLine::ContentLength(0),
        }
    } else {
        HeaderLine::Other
    }
}

proof fn lemma_strip_line_end(s: Seq<char>, k: int)
    requires
        0 <= k <= s.len(),
        forall|j: int| k <= j < s.len() ==> (#[trigger] s[j] == '\r' || s[j] == '\n'),
        k == 0 || (s[k - 1] != '\r' && s[k - 1] != '\n'),
    ensures
        strip_line_end(s) == s.take(k),
    decreases s.len() - k,
{
    if k < s.len() {
        assert(s.drop_last().take(k) =~= s.take(k));
        lemma_strip_line_end(s.drop_last(), k);
    } else {
        assert(s.take(k) =~= s);
    }
}

pub fn parse_header_line(line: &str) -> (r: HeaderLine)
    ensures
        r == header_line(line@),
{
    let v = chars_of(line);
    let mut k = v.len();
    while k > 0 && (v[k - 1] == '\r' || v[k - 1] == '\n')
        invariant
            k <= v@.len(),
            forall|j: int| k <= j < v@.len() ==> (#[trigger] v@[j] == '\r' || v@[j] == '\n'),
        decreases k,
    {
        k = k - 1;
    }
    proof {
        lemma_strip_line_end(v@, k as int);
    }
    if k == 0 {
        return HeaderLine::End;
    }
    let ghost t = v@.take(k as int);
    let colon = find_char_in(&v, ':', 0, k);
    assert(v@.subrange(0, k as int) =~= t);
    proof {
        crate::text::lemma_find_bounds(t, ':');
    }
    if colon == k {
        return HeaderLine::Other;
    }
    let mut name: Vec<char> = Vec::new();
    let mut i: usize = 0;
    while i < colon
        invariant
            colon < k <= v@.len(),
            i <= colon,
            name@ == v@.subrange(0, i as int),
        decreases colon - i,
    {
        name.push(v[i]);
        i = i + 1;
    }
    assert(name@ =~= t.take(colon as int));
    let key = normalize(&name);
    if !chars_eq_str(&key, "content-length") {
        return HeaderLine::Other;
    }
    let mut value: Vec<char> = Vec::new();
    let mut j: usize = colon + 1;
    while j < k
        invariant
            colon < k <= v@.len(),
            colon + 1 <= j <= k,
            value@ == v@.subrange(colon + 1, j as int),
        decreases k - j,
    {
        value.push(v[j]);
        j = j + 1;
    }
    assert(value@ =~= t.skip(colon + 1));
    let trimmed = trim_chars(&value);
    match parse_unsigned_chars(&trimmed, usize::MAX as u64) {
        Some(n) => HeaderLine::ContentLength(n as usize),
        None => HeaderLine::ContentLength(0),
    }
}

/// The head of a response: the status line, the content type, the body's
/// length in bytes, and `Connection: close`, ended by an empty line.
pub open spec fn response_head_text(
    status: u16,
    reason: Seq<char>,
    content_type: Seq<char>,
    body_len: nat,
) -> Seq<char> {
    "HTTP/1.1 "@ + decimal(status as nat) + " "@ + reason + "\r\nContent-Type: "@ + content_type
        + "\r\nContent-Length: "@ + decimal(body_len) + "\r\nConnection: close\r\n\r\n"@
}

/// Writes the head of a response carrying `body`.
pub fn response_head(status: u16, reason: &str, content_type: &str, body: &str) -> (r: String)
    ensures
        r@ == response_head_text(status, reason@, content_type@, body.len() as nat),
{
    let mut v: Vec<char> = Vec::new();
    push_str(&mut v, "HTTP/1.1 ");
    push_decimal(&mut v, status as u64);
    push_str(&mut v, " ");
    push_str(&mut v, reason);
    push_str(&mut v, "\r\nContent-Type: ");
    push_str(&mut v, content_type);
    push_str(&mut v, "\r\nContent-Length: ");
    push_decimal(&mut v, body.len() as u64);
    push_str(&mut v, "\r\nConnection: close\r\n\r\n");
    string_of(&v)
}

/// Splitting a target loses nothing: when it holds a `?`, the path, a `?`
/// and the query spell it again; otherwise the path is the whole target and
/// the query is empty.
pub proof fn lemma_target_parts_reassemble(target: Seq<char>)
    ensures
        ({
            let (path, query) = target_parts(target);
            if target.contains('?') {
                path + seq!['?'] + query == target && !path.contains('?')
            } else {
                path == target && query.len() == 0
            }
        }),
{
    crate::text::lemma_find_bounds(target, '?');
    let q = find(target, '?');
    lemma_find_is_first(target, '?', 0);
    if q < target.len() {
        assert(target.take(q) + seq!['?'] + target.skip(q + 1) =~= target);
        assert(target.contains('?'));
        if target.take(q).contains('?') {
            let j = choose|j: int| 0 <= j < q && target.take(q)[j] == '?';
            assert(target[j] == '?');
        }
    } else {
        if target.contains('?') {
            let j = choose|j: int| 0 <= j < target.len() && target[j] == '?';
            assert(target[j] == '?');
        }
    }
}

/// Where `find_from` lands: every earlier position holds another
/// character, and it holds the character unless it is the end.
proof fn lemma_find_is_first(s: Seq<char>, c: char, i: int)
    requires
        0 <= i <= s.len(),
    ensures
        i <= crate::text::find_from(s, c, i) <= s.len(),
        forall|j: int| i <= j < crate::text::find_from(s, c, i) ==> s[j] != c,
        crate::text::find_from(s, c, i) < s.len() ==> s[crate::text::find_from(s, c, i)] == c,
    decreases s.len() - i,
{
    if i < s.len() && s[i] != c {
        lemma_find_is_first(s, c, i + 1);
    }
}

} // verus!

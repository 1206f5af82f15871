//! The request pipeline's parsing: telling tunnels from plain requests, and
//! reading the target of a `CONNECT` request.
use vstd::prelude::*;
use crate::text::{starts_with, str_starts_with, to_chars};

verus! {

/// What the client's first bytes ask for.
#[derive(Clone, Copy, Debug, PartialEq, Eq, Structural)]
pub enum RequestKind {
    /// An opaque tunnel (`CONNECT host:port`).
    Connect,
    /// A plain HTTP request.
    Http,
}

/// The reply written once a tunnel is open.
pub const CONNECT_ESTABLISHED: &'static str = "HTTP/1.1 200 Connection Established\r\n\r\n";

/// The request kind of the first bytes a client sent; none when it sent nothing.
pub open spec fn kind_of(first: Seq<char>) -> Option<RequestKind> {
    if first.len() == 0 {
        None
    } else if starts_with(first, "CONNECT "@) {
        Some(RequestKind::Connect)
    } else {
        Some(RequestKind::Http)
    }
}

/// Classifies a connection by the bytes peeked from it (decoded as text).
pub fn classify_request(first: &str) -> (r: Option<RequestKind>)
    ensures
        r == kind_of(first@),
{
    if first.unicode_len() == 0 {
        return None;
    }
    if str_starts_with(first, "CONNECT ") {
        Some(RequestKind::Connect)
    } else {
        Some(RequestKind::Http)
    }
}

/// ASCII whitespace, which separates the parts of a request line.
pub open spec fn is_space(c: char) -> bool {
    c == ' ' || c == '\t' || c == '\n' || c == '\r' || c == '\x0B' || c == '\x0C'
}

/// The first position at or after `i` that holds `c`, or the length when none does.
pub open spec fn find_char(s: Seq<char>, c: char, i: int) -> int
    decreases s.len() - i,
{
    if i < 0 || i >= s.len() {
        s.len() as int
    } else if s[i] == c {
        i
    } else {
        find_char(s, c, i + 1)
    }
}

/// The first position at or after `i` that is not whitespace, or the length.
pub open spec fn skip_space(s: Seq<char>, i: int) -> int
    decreases s.len() - i,
{
    if i < 0 || i >= s.len() {
        s.len() as int
    } else if is_space(s[i]) {
        skip_space(s, i + 1)
    } else {
        i
    }
}

/// The first position at or after `i` that is whitespace, or the length.
pub open spec fn skip_word(s: Seq<char>, i: int) -> int
    decreases s.len() - i,
{
    if i < 0 || i >= s.len() {
        s.len() as int
    } else if !is_space(s[i]) {
        skip_word(s, i + 1)
    } else {
        i
    }
}

/// The first line of a request, without its line break.
pub open spec fn first_line(req: Seq<char>) -> Seq<char> {
    let e = find_char(req, '\n', 0);
    let line = req.subrange(0, e);
    if line.len() > 0 && line.last() == '\r' {
        line.drop_last()
    } else {
        line
    }
}

/// The second whitespace-separated word of a line, when there is one.
pub open spec fn second_word(line: Seq<char>) -> Option<Seq<char>> {
    let a = skip_space(line, 0);
    let b = skip_word(line, a);
    let c = skip_space(line, b);
    let d = skip_word(line, c);
    if c < d {
        Some(line.subrange(c, d))
    } else {
        None
    }
}

/// The value of a string of decimal digits.
pub open spec fn digits_value(d: Seq<char>) -> int
    decreases d.len(),
{
    if d.len() == 0 {
        0
    } else {
        digits_value(d.drop_last()) * 10 + (d.last() as int - '0' as int)
    }
}

/// All characters are decimal digits.
pub open spec fn all_digits(d: Seq<char>) -> bool {
    forall|i: int| 0 <= i < d.len() ==> '0' <= #[trigger] d[i] <= '9'
}

/// A port number as written in decimal, with an optional leading `+`.
pub open spec fn port_of(t: Seq<char>) -> Option<u16> {
    let d = if t.len() > 0 && t[0] == '+' { t.subrange(1, t.len() as int) } else { t };
    if d.len() > 0 && all_digits(d) && digits_value(d) <= 65535 {
        Some(digits_value(d) as u16)
    } else {
        None
    }
}

/// The host and port of a tunnel target: `host:port`, with a single colon, or
/// `[address]:port`.
pub open spec fn target_of(t: Seq<char>) -> Option<(Seq<char>, u16)> {
    if t.len() > 0 && t[0] == '[' {
        let c = find_char(t, ']', 0);
        if c + 1 < t.len() && t[c + 1] == ':' {
            match port_of(t.subrange(c + 2, t.len() as int)) {
                Some(p) => Some((t.subrange(0, c + 1), p)),
                None => None,
            }
        } else {
            None
        }
    } else {
        let k = find_char(t, ':', 0);
        if 0 < k < t.len() && find_char(t, ':', k + 1) == t.len() {
            match port_of(t.subrange(k + 1, t.len() as int)) {
                Some(p) => Some((t.subrange(0, k), p)),
                None => None,
            }
        } else {
            None
        }
    }
}

/// The host and port that a `CONNECT` request asks for.
pub open spec fn connect_target_of(req: Seq<char>) -> Option<(Seq<char>, u16)> {
    match second_word(first_line(req)) {
        Some(t) => target_of(t),
        None => None,
    }
}

proof fn lemma_digits_value_nonneg(d: Seq<char>)
    requires
        all_digits(d),
    ensures
        digits_value(d) >= 0,
    decreases d.len(),
{
    if d.len() > 0 {
        lemma_digits_value_nonneg(d.drop_last());
    }
}

proof fn lemma_digits_value_grows(d: Seq<char>, i: int)
    requires
        0 <= i <= d.len(),
        all_digits(d),
    ensures
        digits_value(d.subrange(0, i)) <= digits_value(d),
    decreases d.len() - i,
{
    if i < d.len() {
        lemma_digits_value_grows(d, i + 1);
        let p = d.subrange(0, i + 1);
        assert(p.drop_last() =~= d.subrange(0, i));
        assert(p.last() == d[i]);
        lemma_digits_value_nonneg(d.subrange(0, i));
    } else {
        assert(d.subrange(0, i) =~= d);
    }
}

fn find_char_from(s: &Vec<char>, c: char, i: usize) -> (r: usize)
    requires
        i <= s@.len(),
    ensures
        r as int == find_char(s@, c, i as int),
        i <= r <= s@.len(),
{
    let mut j = i;
    while j < s.len()
        invariant
            i <= j <= s@.len(),
            find_char(s@, c, i as int) == find_char(s@, c, j as int),
        decreases s.len() - j,
    {
        if s[j] == c {
            return j;
        }
        j = j + 1;
    }
    j
}

fn is_space_char(c: char) -> (r: bool)
    ensures
        r == is_space(c),
{
    c == ' ' || c == '\t' || c == '\n' || c == '\r' || c == '\x0B' || c == '\x0C'
}

fn skip_space_from(s: &Vec<char>, i: usize) -> (r: usize)
    requires
        i <= s@.len(),
    ensures
        r as int == skip_space(s@, i as int),
        i <= r <= s@.len(),
{
    let mut j = i;
    while j < s.len()
        invariant
            i <= j <= s@.len(),
            skip_space(s@, i as int) == skip_space(s@, j as int),
        decreases s.len() - j,
    {
        if !is_space_char(s[j]) {
            return j;
        }
        j = j + 1;
    }
    j
}

fn skip_word_from(s: &Vec<char>, i: usize) -> (r: usize)
    requires
        i <= s@.len(),
    ensures
        r as int == skip_word(s@, i as int),
        i <= r <= s@.len(),
{
    let mut j = i;
    while j < s.len()
        invariant
            i <= j <= s@.len(),
            skip_word(s@, i as int) == skip_word(s@, j as int),
        decreases s.len() - j,
    {
        if is_space_char(s[j]) {
            return j;
        }
        j = j + 1;
    }
    j
}

fn slice_chars(s: &Vec<char>, from: usize, to: usize) -> (r: Vec<char>)
    requires
        from <= to <= s@.len(),
    ensures
        r@ == s@.subrange(from as int, to as int),
{
    let mut r: Vec<char> = Vec::new();
    let mut i = from;
    while i < to
        invariant
            from <= i <= to,
            to <= s@.len(),
            r@ == s@.subrange(from as int, i as int),
        decreases to - i,
    {
        r.push(s[i]);
        assert(r@ =~= s@.subrange(from as int, i + 1));
        i = i + 1;
    }
    r
}

/// Reads a port number written in decimal, with an optional leading `+`.
pub fn parse_port(t: &Vec<char>) -> (r: Option<u16>)
    ensures
        r == port_of(t@),
{
    let start: usize = if t.len() > 0 && t[0] == '+' { 1 } else { 0 };
    let d = slice_chars(t, start, t.len());
    assert(d@ == (if t@.len() > 0 && t@[0] == '+' { t@.subrange(1, t@.len() as int) } else { t@ })) by {
        if start == 0 {
            assert(t@.subrange(0, t@.len() as int) =~= t@);
        }
    }
    if d.len() == 0 {
        return None;
    }
    let mut value: u32 = 0;
    let mut i: usize = 0;
    while i < d.len()
        invariant
            i <= d@.len(),
            d@ == (if t@.len() > 0 && t@[0] == '+' { t@.subrange(1, t@.len() as int) } else { t@ }),
            all_digits(d@.subrange(0, i as int)),
            value as int == digits_value(d@.subrange(0, i as int)),
            value <= 65535,
        decreases d.len() - i,
    {
        let c = d[i];
        assert(d@.subrange(0, i + 1).drop_last() =~= d@.subrange(0, i as int));
        if c < '0' || c > '9' {
            assert(!all_digits(d@));
            return None;
        }
        let digit = (c as u32) - ('0' as u32);
        let next = value * 10 + digit;
        assert(all_digits(d@.subrange(0, i + 1))) by {
            assert forall|k: int| 0 <= k < i + 1 implies '0' <= #[trigger] d@.subrange(0, i + 1)[k] <= '9' by {
                if k < i {
                    assert(d@.subrange(0, i + 1)[k] == d@.subrange(0, i as int)[k]);
                }
            }
        }
        if next > 65535 {
            proof {
                if all_digits(d@) {
                    lemma_digits_value_grows(d@, i + 1);
                }
            }
            return None;
        }
        value = next;
        i = i + 1;
    }
    assert(d@.subrange(0, i as int) =~= d@);
    Some(value as u16)
}

/// The host and port that a `CONNECT` request asks for; none when its first
/// line has no target, or the target is not `host:port` or `[address]:port`.
pub fn parse_connect_target(req: &str) -> (r: Option<(String, u16)>)
    ensures
        match r {
            Some((h, p)) => connect_target_of(req@) == Some((h@, p)),
            None => connect_target_of(req@) is None,
        },
{
    let s = to_chars(req);
    let e = find_char_from(&s, '\n', 0);
    let le: usize = if e > 0 && s[e - 1] == '\r' { e - 1 } else { e };
    let line = slice_chars(&s, 0, le);
    assert(line@ == first_line(req@)) by {
        let full = req@.subrange(0, e as int);
        if full.len() > 0 && full.last() == '\r' {
            assert(full.drop_last() =~= line@);
        } else {
            assert(full =~= line@);
        }
    }
    let a = skip_space_from(&line, 0);
    let b = skip_word_from(&line, a);
    let c = skip_space_from(&line, b);
    let d = skip_word_from(&line, c);
    if c >= d {
        return None;
    }
    let t = slice_chars(&line, c, d);
    assert(second_word(first_line(req@)) == Some(t@));
    if t[0] == '[' {
        let close = find_char_from(&t, ']', 0);
        if close + 1 < t.len() && t[close + 1] == ':' {
            let port_text = slice_chars(&t, close + 2, t.len());
            match parse_port(&port_text) {
                Some(p) => {
                    let host = req.substring_char(c, c + close + 1);
                    assert(host@ =~= t@.subrange(0, close + 1));
                    Some((String::from_str(host), p))
                },
                None => None,
            }
        } else {
            None
        }
    } else {
        let k = find_char_from(&t, ':', 0);
        if 0 < k && k < t.len() && find_char_from(&t, ':', k + 1) == t.len() {
            let port_text = slice_chars(&t, k + 1, t.len());
            match parse_port(&port_text) {
                Some(p) => {
                    let host = req.substring_char(c, c + k);
                    assert(host@ =~= t@.subrange(0, k as int));
                    Some((String::from_str(host), p))
                },
                None => None,
            }
        } else {
            None
        }
    }
}

} // verus!

//! Character-level helpers for assembling URLs: percent-escaping of
//! parameters, the single-slash path join and query-string appends.
use vstd::prelude::*;
use vstd::string::*;

verus! {

/// Unreserved URL bytes (RFC 3986): they stand for themselves in a URL.
pub open spec fn is_unreserved(b: u8) -> bool {
    // 'A'..='Z', 'a'..='z', '0'..='9', '-', '.', '_', '~'
    (65 <= b && b <= 90) || (97 <= b && b <= 122) || (48 <= b && b <= 57) || b == 45 || b == 46
        || b == 95 || b == 126
}

/// The upper-case hexadecimal digit for `n < 16`.
pub open spec fn hex_digit(n: u8) -> char {
    if n < 10 {
        ((48 + n) as u8) as char
    } else {
        ((55 + n) as u8) as char
    }
}

/// How one byte of a parameter is written in a URL.
pub open spec fn escape_byte(b: u8) -> Seq<char> {
    if is_unreserved(b) {
        seq![b as char]
    } else {
        seq!['%', hex_digit(b / 16), hex_digit(b % 16)]
    }
}

/// The percent-escaped form of a byte string.
pub open spec fn escaped(b: Seq<u8>) -> Seq<char>
    decreases b.len(),
{
    if b.len() == 0 {
        Seq::empty()
    } else {
        escaped(b.drop_last()) + escape_byte(b.last())
    }
}

/// Characters that may appear in an escaped parameter.
pub open spec fn is_escape_char(c: char) -> bool {
    c == '%' || (c as u32) < 128 && is_unreserved(c as u8)
}

/// `s` with every trailing `/` removed.
pub open spec fn trim_end_slashes(s: Seq<char>) -> Seq<char>
    decreases s.len(),
{
    if s.len() > 0 && s.last() == '/' {
        trim_end_slashes(s.drop_last())
    } else {
        s
    }
}

/// `s` with every leading `/` removed.
pub open spec fn trim_start_slashes(s: Seq<char>) -> Seq<char>
    decreases s.len(),
{
    if s.len() > 0 && s[0] == '/' {
        trim_start_slashes(s.drop_first())
    } else {
        s
    }
}

/// Joins a path fragment onto a URL with exactly one `/` at the boundary.
pub open spec fn join_segment(url: Seq<char>, seg: Seq<char>) -> Seq<char> {
    trim_end_slashes(url) + seq!['/'] + trim_start_slashes(seg)
}

/// Appends `key=value` to the query string, opening it with `?` when the URL
/// has none yet and separating it with `&` otherwise.
pub open spec fn with_query(url: Seq<char>, key: Seq<char>, value: Seq<char>) -> Seq<char> {
    url + seq![if url.contains('?') { '&' } else { '?' }] + key + seq!['='] + value
}

/// Relies on `String::push`: appends one character to the string.
#[verifier::external_body]
pub(crate) fn push_char(s: &mut String, c: char)
    ensures
        final(s)@ == old(s)@.push(c),
{
    s.push(c)
}

pub(crate) fn hex_char(n: u8) -> (c: char)
    requires
        n < 16,
    ensures
        c == hex_digit(n),
{
    if n < 10 {
        (48 + n) as char
    } else {
        (55 + n) as char
    }
}

/// Percent-escapes the UTF-8 bytes of `s`, keeping unreserved bytes as they are.
pub fn escape_component(s: &str) -> (r: String)
    ensures
        r@ == escaped(s.spec_bytes()),
{
    let bytes = s.as_bytes();
    let mut out = String::new();
    let mut i: usize = 0;
    while i < bytes.len()
        invariant
            i <= bytes@.len(),
            bytes@ == s.spec_bytes(),
            out@ == escaped(bytes@.subrange(0, i as int)),
        decreases bytes@.len() - i,
    {
        let b = bytes[i];
        assert(bytes@.subrange(0, i + 1).drop_last() == bytes@.subrange(0, i as int));
        if (65 <= b && b <= 90) || (97 <= b && b <= 122) || (48 <= b && b <= 57) || b == 45 || b
            == 46 || b == 95 || b == 126 {
            push_char(&mut out, b as char);
        } else {
            push_char(&mut out, '%');
            push_char(&mut out, hex_char(b / 16));
            push_char(&mut out, hex_char(b % 16));
        }
        i = i + 1;
    }
    assert(bytes@.subrange(0, bytes@.len() as int) == bytes@);
    out
}

/// Every character of an escaped parameter is unreserved or `%`; in
/// particular it holds no `/`, `?`, `&` or `=`.
pub proof fn lemma_escaped_chars(b: Seq<u8>)
    ensures
        forall|i: int| 0 <= i < escaped(b).len() ==> is_escape_char(#[trigger] escaped(b)[i]),
    decreases b.len(),
{
    if b.len() > 0 {
        lemma_escaped_chars(b.drop_last());
        let x = b.last();
        let e = escape_byte(x);
        assert forall|i: int| 0 <= i < e.len() implies is_escape_char(#[trigger] e[i]) by {
            if !is_unreserved(x) {
                assert(x / 16 < 16);
                assert(x % 16 < 16);
            }
        }
        let p = escaped(b.drop_last());
        assert forall|i: int| 0 <= i < escaped(b).len() implies is_escape_char(
            #[trigger] escaped(b)[i],
        ) by {
            if i < p.len() {
                assert(escaped(b)[i] == p[i]);
            } else {
                assert(escaped(b)[i] == e[i - p.len()]);
            }
        }
    }
}

/// Index of the first character after the leading slashes of `s`.
fn start_after_slashes(s: &str) -> (k: usize)
    ensures
        k <= s@.len(),
        trim_start_slashes(s@) == s@.subrange(k as int, s@.len() as int),
{
    let n = s.unicode_len();
    let mut k: usize = 0;
    assert(s@.subrange(0, n as int) == s@);
    while k < n && s.get_char(k) == '/'
        invariant
            n == s@.len(),
            k <= n,
            trim_start_slashes(s@) == trim_start_slashes(s@.subrange(k as int, n as int)),
        decreases n - k,
    {
        assert(s@.subrange(k as int, n as int).drop_first() == s@.subrange(k + 1, n as int));
        k = k + 1;
    }
    k
}

/// Length of `s` without its trailing slashes.
fn end_before_slashes(s: &str) -> (k: usize)
    ensures
        k <= s@.len(),
        trim_end_slashes(s@) == s@.subrange(0, k as int),
{
    let n = s.unicode_len();
    let mut k: usize = n;
    assert(s@.subrange(0, n as int) == s@);
    while k > 0 && s.get_char(k - 1) == '/'
        invariant
            n == s@.len(),
            k <= n,
            trim_end_slashes(s@) == trim_end_slashes(s@.subrange(0, k as int)),
        decreases k,
    {
        assert(s@.subrange(0, k as int).drop_last() == s@.subrange(0, k - 1));
        k = k - 1;
    }
    k
}

/// Joins `seg` onto `url` with exactly one `/` between them.
pub fn url_join(url: &str, seg: &str) -> (r: String)
    ensures
        r@ == join_segment(url@, seg@),
{
    let e = end_before_slashes(url);
    let b = start_after_slashes(seg);
    let mut out = url.substring_char(0, e).to_owned();
    push_char(&mut out, '/');
    out.append(seg.substring_char(b, seg.unicode_len()));
    out
}

/// Whether `s` already holds a `?`.
fn has_query(s: &str) -> (r: bool)
    ensures
        r == s@.contains('?'),
{
    let n = s.unicode_len();
    let mut i: usize = 0;
    while i < n
        invariant
            n == s@.len(),
            i <= n,
            forall|j: int| 0 <= j < i ==> s@[j] != '?',
        decreases n - i,
    {
        if s.get_char(i) == '?' {
            return true;
        }
        i = i + 1;
    }
    false
}

/// Appends the query parameter `key=value` to `url`.
pub fn url_add_query(url: &str, key: &str, value: &str) -> (r: String)
    ensures
        r@ == with_query(url@, key@, value@),
{
    let sep = if has_query(url) {
        '&'
    } else {
        '?'
    };
    let mut out = url.to_owned();
    push_char(&mut out, sep);
    out.append(key);
    push_char(&mut out, '=');
    out.append(value);
    out
}


/// The number a hexadecimal digit stands for.
pub open spec fn hex_value(c: char) -> int {
    let u = c as u32;
    if 48 <= u && u <= 57 {
        u - 48
    } else if 65 <= u && u <= 70 {
        u - 55
    } else if 97 <= u && u <= 102 {
        u - 87
    } else {
        0
    }
}

/// Percent-decoding: every `%XY` gives the byte `0xXY`, and every other
/// character gives its own code.
pub open spec fn unescaped(s: Seq<char>) -> Seq<u8>
    decreases s.len(),
{
    if s.len() == 0 {
        Seq::empty()
    } else if s.len() >= 3 && s[s.len() - 3] == '%' {
        unescaped(s.subrange(0, s.len() - 3)) + seq![
            (hex_value(s[s.len() - 2]) * 16 + hex_value(s[s.len() - 1])) as u8,
        ]
    } else {
        unescaped(s.drop_last()) + seq![(s.last() as u32) as u8]
    }
}

proof fn lemma_hex_round_trip(n: u8)
    requires
        n < 16,
    ensures
        hex_value(hex_digit(n)) == n,
        hex_digit(n) != '%',
{
}

proof fn lemma_escaped_tail(b: Seq<u8>)
    ensures
        escaped(b).len() >= 1 ==> escaped(b).last() != '%',
        escaped(b).len() >= 2 ==> escaped(b)[escaped(b).len() - 2] != '%',
    decreases b.len(),
{
    if b.len() > 0 {
        let x = b.last();
        lemma_escaped_tail(b.drop_last());
        if !is_unreserved(x) {
            lemma_hex_round_trip(x / 16);
            lemma_hex_round_trip(x % 16);
        } else {
            let p = escaped(b.drop_last());
            if p.len() >= 1 {
                assert(escaped(b)[escaped(b).len() - 2] == p.last());
            }
        }
    }
}

/// Percent-decoding an escaped parameter gives back its bytes exactly.
pub proof fn lemma_unescape_escaped(b: Seq<u8>)
    ensures
        unescaped(escaped(b)) == b,
    decreases b.len(),
{
    if b.len() > 0 {
        let x = b.last();
        let p = escaped(b.drop_last());
        let s = escaped(b);
        lemma_unescape_escaped(b.drop_last());
        lemma_escaped_tail(b.drop_last());
        if is_unreserved(x) {
            assert(s == p.push(x as char));
            if s.len() >= 3 {
                assert(s[s.len() - 3] == p[p.len() - 2]);
            }
            assert(s.drop_last() =~= p);
            assert((x as char) as u32 == x as u32);
            assert(unescaped(s) =~= b.drop_last().push(x));
        } else {
            let hi = x / 16;
            let lo = x % 16;
            lemma_hex_round_trip(hi);
            lemma_hex_round_trip(lo);
            assert(s.subrange(0, s.len() - 3) =~= p);
            assert(hi * 16 + lo == x) by (nonlinear_arith)
                requires
                    hi == x / 16,
                    lo == x % 16,
            ;
            assert(unescaped(s) =~= b.drop_last().push(x));
        }
        assert(b.drop_last().push(x) =~= b);
    }
}

/// Unreserved characters: letters, digits, `-`, `.`, `_` and `~`.
pub open spec fn is_unreserved_char(c: char) -> bool {
    ('A' <= c && c <= 'Z') || ('a' <= c && c <= 'z') || ('0' <= c && c <= '9') || c == '-' || c
        == '.' || c == '_' || c == '~'
}

/// A parameter made of unreserved characters is written as it is.
pub proof fn lemma_unreserved_unchanged(p: Seq<char>)
    requires
        forall|i: int| 0 <= i < p.len() ==> is_unreserved_char(#[trigger] p[i]),
    ensures
        escaped(vstd::utf8::encode_utf8(p)) == p,
{
    assert(vstd::utf8::is_ascii_chars(p));
    vstd::utf8::is_ascii_chars_encode_utf8(p);
    let b = vstd::utf8::encode_utf8(p);
    lemma_unreserved_prefix(p, b, p.len() as int);
    assert(b.subrange(0, p.len() as int) =~= b);
    assert(p.subrange(0, p.len() as int) =~= p);
}

proof fn lemma_unreserved_prefix(p: Seq<char>, b: Seq<u8>, k: int)
    requires
        0 <= k <= p.len(),
        b.len() == p.len(),
        forall|i: int| 0 <= i < p.len() ==> p[i] as u8 == #[trigger] b[i],
        forall|i: int| 0 <= i < p.len() ==> is_unreserved_char(#[trigger] p[i]),
    ensures
        escaped(b.subrange(0, k)) == p.subrange(0, k),
    decreases k,
{
    if k > 0 {
        lemma_unreserved_prefix(p, b, k - 1);
        assert(b.subrange(0, k).drop_last() =~= b.subrange(0, k - 1));
        let x = b[k - 1];
        assert(p[k - 1] as u8 == x);
        assert(is_unreserved_char(p[k - 1]));
        assert(is_unreserved(x));
        assert((x as char) == p[k - 1]);
        assert(p.subrange(0, k) =~= p.subrange(0, k - 1).push(p[k - 1]));
    }
}

} // verus!

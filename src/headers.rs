//! Header lists: an ordered sequence of name/value pairs in which a name
//! occurs at most once, and the conditional-request helpers that read them.
use vstd::prelude::*;
use vstd::string::*;

verus! {

/// One header line.
pub struct Header {
    pub name: String,
    pub value: String,
}

impl Header {
    pub open spec fn spec_pair(self) -> (Seq<char>, Seq<char>) {
        (self.name@, self.value@)
    }

    /// A copy of this header.
    pub fn duplicate(&self) -> (r: Header)
        ensures
            r.spec_pair() == self.spec_pair(),
    {
        Header { name: self.name.clone(), value: self.value.clone() }
    }
}

/// The pairs that a list of headers holds, in order.
pub open spec fn pairs(h: Seq<Header>) -> Seq<(Seq<char>, Seq<char>)> {
    h.map_values(|x: Header| x.spec_pair())
}

/// No name occurs twice.
pub open spec fn names_unique(h: Seq<(Seq<char>, Seq<char>)>) -> bool {
    forall|i: int, j: int| 0 <= i < j < h.len() ==> h[i].0 != h[j].0
}

/// Position of the last entry called `name`, or -1 where there is none.
pub open spec fn header_index(h: Seq<(Seq<char>, Seq<char>)>, name: Seq<char>) -> int
    decreases h.len(),
{
    if h.len() == 0 {
        -1
    } else if h.last().0 == name {
        h.len() - 1
    } else {
        header_index(h.drop_last(), name)
    }
}

/// The value held under `name`.
pub open spec fn header_value(h: Seq<(Seq<char>, Seq<char>)>, name: Seq<char>) -> Option<
    Seq<char>,
> {
    let i = header_index(h, name);
    if i >= 0 {
        Some(h[i].1)
    } else {
        None
    }
}

/// `h` after setting `name` to `value`: an existing entry is overwritten in
/// place, a new one goes to the end.
pub open spec fn with_header(h: Seq<(Seq<char>, Seq<char>)>, name: Seq<char>, value: Seq<char>) -> Seq<
    (Seq<char>, Seq<char>),
> {
    let i = header_index(h, name);
    if i >= 0 {
        h.update(i, (name, value))
    } else {
        h.push((name, value))
    }
}

pub proof fn lemma_header_index_bounds(h: Seq<(Seq<char>, Seq<char>)>, name: Seq<char>)
    ensures
        -1 <= header_index(h, name) < h.len(),
        header_index(h, name) >= 0 ==> h[header_index(h, name)].0 == name,
        header_index(h, name) == -1 <==> forall|j: int| 0 <= j < h.len() ==> h[j].0 != name,
        forall|j: int| header_index(h, name) < j < h.len() ==> h[j].0 != name,
    decreases h.len(),
{
    if h.len() > 0 {
        lemma_header_index_bounds(h.drop_last(), name);
        if h.last().0 != name {
            assert forall|j: int| 0 <= j < h.len() - 1 implies h[j] == h.drop_last()[j] by {}
        }
    }
}

/// Setting a header keeps names unique, and the header then reads back as
/// the value just set, while every other name keeps its value.
pub proof fn lemma_with_header(h: Seq<(Seq<char>, Seq<char>)>, name: Seq<char>, value: Seq<char>)
    requires
        names_unique(h),
    ensures
        names_unique(with_header(h, name, value)),
        header_value(with_header(h, name, value), name) == Some(value),
        forall|n: Seq<char>|
            n != name ==> header_value(#[trigger] with_header(h, name, value), n) == header_value(
                h,
                n,
            ),
{
    lemma_header_index_bounds(h, name);
    let g = with_header(h, name, value);
    assert(names_unique(g));
    lemma_unique_index(g, name);
    if header_index(h, name) >= 0 {
        assert(g[header_index(h, name)].0 == name);
    } else {
        assert(g[h.len() as int].0 == name);
    }
    assert forall|n: Seq<char>| n != name implies header_value(g, n) == header_value(h, n) by {
        lemma_header_index_bounds(h, n);
        lemma_header_index_bounds(g, n);
        lemma_unique_index(h, n);
        lemma_unique_index(g, n);
        if header_index(h, n) >= 0 {
            assert(g[header_index(h, n)].0 == n);
        } else if header_index(g, n) >= 0 {
            assert(h[header_index(g, n)].0 == n);
        }
    }
}

/// With unique names the entry called `name`, if any, is the only one.
proof fn lemma_unique_index(h: Seq<(Seq<char>, Seq<char>)>, name: Seq<char>)
    requires
        names_unique(h),
    ensures
        forall|j: int| 0 <= j < h.len() && h[j].0 == name ==> header_index(h, name) == j,
{
    lemma_header_index_bounds(h, name);
}

/// Setting the same header twice is the same as setting it once to the
/// second value: the last write wins and no duplicate entry appears.
pub proof fn lemma_header_last_write_wins(
    h: Seq<(Seq<char>, Seq<char>)>,
    name: Seq<char>,
    v1: Seq<char>,
    v2: Seq<char>,
)
    requires
        names_unique(h),
    ensures
        with_header(with_header(h, name, v1), name, v2) == with_header(h, name, v2),
        with_header(h, name, v1).len() == with_header(with_header(h, name, v1), name, v2).len(),
{
    lemma_header_index_bounds(h, name);
    let g = with_header(h, name, v1);
    lemma_header_index_bounds(g, name);
    lemma_with_header(h, name, v1);
    lemma_unique_index(g, name);
    if header_index(h, name) >= 0 {
        assert(with_header(g, name, v2) =~= with_header(h, name, v2));
    } else {
        assert(g[h.len() as int].0 == name);
        assert(with_header(g, name, v2) =~= with_header(h, name, v2));
    }
}

/// Position of the last header called `name`.
pub fn find_header(h: &Vec<Header>, name: &String) -> (r: Option<usize>)
    ensures
        match r {
            Some(i) => i as int == header_index(pairs(h@), name@),
            None => header_index(pairs(h@), name@) == -1,
        },
{
    let mut i: usize = h.len();
    proof {
        assert(pairs(h@).subrange(0, h@.len() as int) == pairs(h@));
    }
    while i > 0
        invariant
            i <= h@.len(),
            header_index(pairs(h@), name@) == header_index(pairs(h@).subrange(0, i as int), name@),
        decreases i,
    {
        let ghost p = pairs(h@).subrange(0, i as int);
        if h[i - 1].name == *name {
            return Some(i - 1);
        }
        proof {
            assert(p.drop_last() == pairs(h@).subrange(0, i - 1));
        }
        i = i - 1;
    }
    None
}

/// The value of the last header called `name`.
pub fn get_header(h: &Vec<Header>, name: &String) -> (r: Option<String>)
    ensures
        match r {
            Some(v) => header_value(pairs(h@), name@) == Some(v@),
            None => header_value(pairs(h@), name@) is None,
        },
{
    proof {
        lemma_header_index_bounds(pairs(h@), name@);
    }
    match find_header(h, name) {
        Some(i) => Some(h[i].value.clone()),
        None => None,
    }
}

/// Sets `name` to `value`, overwriting an entry of that name in place.
pub fn set_header_in(h: &mut Vec<Header>, name: String, value: String)
    ensures
        pairs(final(h)@) == with_header(pairs(old(h)@), name@, value@),
{
    let ghost n = name@;
    let ghost v = value@;
    proof {
        lemma_header_index_bounds(pairs(h@), n);
    }
    match find_header(h, &name) {
        Some(i) => {
            h.set(i, Header { name, value });
            assert(pairs(h@) =~= with_header(pairs(old(h)@), n, v));
        },
        None => {
            h.push(Header { name, value });
            assert(pairs(h@) =~= with_header(pairs(old(h)@), n, v));
        },
    }
}

/// A copy of a list of headers.
pub fn copy_headers(h: &Vec<Header>) -> (r: Vec<Header>)
    ensures
        pairs(r@) == pairs(h@),
{
    let mut out: Vec<Header> = Vec::new();
    let mut i: usize = 0;
    while i < h.len()
        invariant
            i <= h@.len(),
            out@.len() == i,
            forall|j: int| 0 <= j < i ==> (#[trigger] out@[j]).spec_pair() == h@[j].spec_pair(),
        decreases h@.len() - i,
    {
        let x = h[i].duplicate();
        out.push(x);
        i = i + 1;
    }
    proof {
        assert(pairs(out@) =~= pairs(h@));
    }
    out
}

/// Characters that http's header-name table accepts (RFC 7230 token
/// characters).
pub open spec fn is_token_char(c: char) -> bool {
    ('!' <= c && c <= '\'') || c == '*' || c == '+' || c == '-' || c == '.' || ('0' <= c && c
        <= '9') || ('A' <= c && c <= 'Z') || ('^' <= c && c <= 'z') || c == '|' || c == '~'
}

/// ASCII upper-case letters mapped to lower case; other characters unchanged.
pub open spec fn lower_char(c: char) -> char {
    if 65 <= (c as u32) && (c as u32) <= 90 {
        ((c as u32) + 32) as char
    } else {
        c
    }
}

/// The canonical (lower-case) form of a header name, or `None` where the
/// name is empty or holds a character outside the token set.
pub open spec fn canonical_name(s: Seq<char>) -> Option<Seq<char>> {
    if s.len() > 0 && forall|i: int| 0 <= i < s.len() ==> is_token_char(#[trigger] s[i]) {
        Some(s.map_values(|c: char| lower_char(c)))
    } else {
        None
    }
}

/// Characters allowed in a header value: tab, and everything from space on
/// but DEL.
pub open spec fn is_value_char(c: char) -> bool {
    c == '\t' || ((c as u32) >= 32 && (c as u32) != 127)
}

pub open spec fn valid_value(s: Seq<char>) -> bool {
    forall|i: int| 0 <= i < s.len() ==> is_value_char(#[trigger] s[i])
}

/// Relies on `hyper::header::HeaderName::from_bytes` (http 0.1): it maps
/// every byte through its token table, lower-casing letters, and fails on
/// an empty name or on a byte outside the table; `as_str` returns the
/// result. It panics on names of 65536 bytes or more.
#[verifier::external_body]
pub(crate) fn parse_header_name(s: &str) -> (r: Option<String>)
    requires
        s.spec_bytes().len() < 65536,
    ensures
        match r {
            Some(n) => canonical_name(s@) == Some(n@),
            None => canonical_name(s@) is None,
        },
{
    hyper::header::HeaderName::from_bytes(s.as_bytes()).ok().map(|n| n.as_str().to_string())
}

/// Relies on `hyper::header::HeaderValue::from_str` (http 0.1): it accepts
/// exactly the strings whose bytes are all tab, or at least 32 and not 127.
#[verifier::external_body]
pub(crate) fn header_value_accepted(s: &str) -> (r: bool)
    ensures
        r == valid_value(s@),
{
    hyper::header::HeaderValue::from_str(s).is_ok()
}

/// Name of the header that echoes a resource's entity tag.
pub open spec fn etag_name() -> Seq<char> {
    "etag"@
}

/// Name of the header that reports the requests left in the rate window.
pub open spec fn rate_limit_name() -> Seq<char> {
    "x-ratelimit-remaining"@
}

/// The `ETag` value of a response, if it carries one. Header names are
/// expected in the lower-case form the transport hands them over in.
pub fn etag(headers: &Vec<Header>) -> (r: Option<String>)
    ensures
        match r {
            Some(v) => header_value(pairs(headers@), etag_name()) == Some(v@),
            None => header_value(pairs(headers@), etag_name()) is None,
        },
{
    get_header(headers, &"etag".to_owned())
}

pub open spec fn is_digit(c: char) -> bool {
    48 <= (c as u32) && (c as u32) <= 57
}

/// The number that a string of decimal digits spells.
pub open spec fn digits_value(s: Seq<char>) -> int
    decreases s.len(),
{
    if s.len() == 0 {
        0
    } else {
        digits_value(s.drop_last()) * 10 + ((s.last() as u32) - 48)
    }
}

/// A non-empty string of decimal digits whose value fits in a `u32`.
pub open spec fn decimal_u32(s: Seq<char>) -> Option<u32> {
    if s.len() > 0 && (forall|i: int| 0 <= i < s.len() ==> is_digit(#[trigger] s[i]))
        && digits_value(s) <= u32::MAX {
        Some(digits_value(s) as u32)
    } else {
        None
    }
}

proof fn lemma_digits_value_grows(s: Seq<char>, k: int)
    requires
        0 <= k <= s.len(),
        forall|i: int| 0 <= i < s.len() ==> is_digit(#[trigger] s[i]),
    ensures
        0 <= digits_value(s.subrange(0, k)) <= digits_value(s),
    decreases s.len(),
{
    if k < s.len() {
        assert(s.drop_last().subrange(0, k) == s.subrange(0, k));
        lemma_digits_value_grows(s.drop_last(), k);
    } else {
        assert(s.subrange(0, k) == s);
        lemma_digits_value_grows_nonneg(s);
    }
}

proof fn lemma_digits_value_grows_nonneg(s: Seq<char>)
    requires
        forall|i: int| 0 <= i < s.len() ==> is_digit(#[trigger] s[i]),
    ensures
        0 <= digits_value(s),
    decreases s.len(),
{
    if s.len() > 0 {
        lemma_digits_value_grows_nonneg(s.drop_last());
    }
}

/// Reads a decimal `u32`.
pub fn parse_u32(s: &str) -> (r: Option<u32>)
    ensures
        r == decimal_u32(s@),
{
    let n = s.unicode_len();
    if n == 0 {
        return None;
    }
    let mut acc: u64 = 0;
    let mut i: usize = 0;
    while i < n
        invariant
            n == s@.len(),
            i <= n,
            acc as int == digits_value(s@.subrange(0, i as int)),
            acc <= u32::MAX,
            forall|j: int| 0 <= j < i ==> is_digit(#[trigger] s@[j]),
        decreases n - i,
    {
        let c = s.get_char(i);
        if !(48 <= (c as u32) && (c as u32) <= 57) {
            return None;
        }
        assert(s@.subrange(0, i + 1).drop_last() == s@.subrange(0, i as int));
        acc = acc * 10 + ((c as u32) - 48) as u64;
        i = i + 1;
        if acc > u32::MAX as u64 {
            proof {
                let k = i as int;
                assert forall|j: int| 0 <= j < k implies is_digit(#[trigger] s@.subrange(0, k)[j]) by {}
                if forall|j: int| 0 <= j < n ==> is_digit(#[trigger] s@[j]) {
                    lemma_digits_value_grows(s@, k);
                }
            }
            return None;
        }
    }
    assert(s@.subrange(0, n as int) == s@);
    Some(acc as u32)
}

/// The remaining request allowance that a response reports, if it carries a
/// well-formed one.
pub fn rate_limit_remaining(headers: &Vec<Header>) -> (r: Option<u32>)
    ensures
        r == match header_value(pairs(headers@), rate_limit_name()) {
            Some(v) => decimal_u32(v),
            None => None,
        },
{
    match get_header(headers, &"x-ratelimit-remaining".to_owned()) {
        Some(v) => parse_u32(v.as_str()),
        None => None,
    }
}

} // verus!

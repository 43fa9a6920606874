//! The `Link` response header: comma-separated entries of the form
//! `<url>; rel="name"`, from which the paginator learns the next page.
use vstd::prelude::*;
use vstd::string::*;
use crate::headers::{get_header, header_value, pairs, Header};
use crate::text::push_char;

verus! {

/// The pieces of `s` between occurrences of `sep`; always at least one.
pub open spec fn split_on(s: Seq<char>, sep: char) -> Seq<Seq<char>>
    decreases s.len(),
{
    if s.len() == 0 {
        seq![Seq::empty()]
    } else {
        let parts = split_on(s.drop_last(), sep);
        if s.last() == sep {
            parts.push(Seq::empty())
        } else {
            parts.update(parts.len() - 1, parts.last().push(s.last()))
        }
    }
}

pub proof fn lemma_split_on_nonempty(s: Seq<char>, sep: char)
    ensures
        split_on(s, sep).len() >= 1,
    decreases s.len(),
{
    if s.len() > 0 {
        lemma_split_on_nonempty(s.drop_last(), sep);
    }
}

/// `s` with every leading `c` removed.
pub open spec fn trim_start_char(s: Seq<char>, c: char) -> Seq<char>
    decreases s.len(),
{
    if s.len() > 0 && s[0] == c {
        trim_start_char(s.drop_first(), c)
    } else {
        s
    }
}

/// `s` with every trailing `c` removed.
pub open spec fn trim_end_char(s: Seq<char>, c: char) -> Seq<char>
    decreases s.len(),
{
    if s.len() > 0 && s.last() == c {
        trim_end_char(s.drop_last(), c)
    } else {
        s
    }
}

/// The target of an entry: its first `;`-piece, without surrounding spaces
/// and angle brackets.
pub open spec fn entry_url(part: Seq<char>) -> Seq<char> {
    trim_end_char(trim_start_char(trim_end_char(trim_start_char(part, ' '), ' '), '<'), '>')
}

/// One entry as (relation, url): the relation is the text between the first
/// two `"` of its second `;`-piece. Entries without these are skipped.
pub open spec fn parse_entry(e: Seq<char>) -> Option<(Seq<char>, Seq<char>)> {
    let parts = split_on(e, ';');
    if parts.len() < 2 {
        None
    } else {
        let quoted = split_on(parts[1], '"');
        if quoted.len() < 2 {
            None
        } else {
            Some((quoted[1], entry_url(parts[0])))
        }
    }
}

/// The well-formed entries of a list of pieces, in order.
pub open spec fn entries_of(parts: Seq<Seq<char>>) -> Seq<(Seq<char>, Seq<char>)>
    decreases parts.len(),
{
    if parts.len() == 0 {
        Seq::empty()
    } else {
        let rest = entries_of(parts.drop_last());
        match parse_entry(parts.last()) {
            Some(x) => rest.push(x),
            None => rest,
        }
    }
}

/// The entries of a `Link` header value, in order.
pub open spec fn links_of(value: Seq<char>) -> Seq<(Seq<char>, Seq<char>)> {
    entries_of(split_on(value, ','))
}

/// The url of the last entry with relation `rel`.
pub open spec fn find_rel(ls: Seq<(Seq<char>, Seq<char>)>, rel: Seq<char>) -> Option<Seq<char>>
    decreases ls.len(),
{
    if ls.len() == 0 {
        None
    } else if ls.last().0 == rel {
        Some(ls.last().1)
    } else {
        find_rel(ls.drop_last(), rel)
    }
}

/// The `next` url that a response's headers point to, if any.
pub open spec fn next_of(headers: Seq<(Seq<char>, Seq<char>)>) -> Option<Seq<char>> {
    match header_value(headers, "link"@) {
        Some(v) => find_rel(links_of(v), "next"@),
        None => None,
    }
}

pub open spec fn views(v: Seq<String>) -> Seq<Seq<char>> {
    v.map_values(|s: String| s@)
}

/// One parsed `Link` entry.
pub struct Link {
    pub rel: String,
    pub url: String,
}

pub open spec fn link_views(v: Seq<Link>) -> Seq<(Seq<char>, Seq<char>)> {
    v.map_values(|l: Link| (l.rel@, l.url@))
}

/// Splits `s` at every `sep`.
pub fn split(s: &str, sep: char) -> (r: Vec<String>)
    ensures
        views(r@) == split_on(s@, sep),
{
    let n = s.unicode_len();
    let mut parts: Vec<String> = Vec::new();
    let mut cur = String::new();
    let mut i: usize = 0;
    assert(views(parts@).push(cur@) =~= split_on(s@.subrange(0, 0), sep));
    while i < n
        invariant
            n == s@.len(),
            i <= n,
            views(parts@).push(cur@) == split_on(s@.subrange(0, i as int), sep),
        decreases n - i,
    {
        let c = s.get_char(i);
        let ghost pre = s@.subrange(0, i as int);
        assert(s@.subrange(0, i + 1).drop_last() == pre);
        assert(s@.subrange(0, i + 1).last() == c);
        let ghost old_parts = parts@;
        let ghost old_cur = cur@;
        if c == sep {
            let done = cur;
            parts.push(done);
            cur = String::new();
            assert(views(parts@) =~= views(old_parts).push(old_cur));
        } else {
            push_char(&mut cur, c);
            assert(views(parts@).push(cur@) =~= views(old_parts).push(old_cur).update(
                old_parts.len() as int,
                old_cur.push(c),
            ));
        }
        i = i + 1;
    }
    assert(s@.subrange(0, n as int) == s@);
    let ghost old_parts = parts@;
    parts.push(cur);
    assert(views(parts@) =~= views(old_parts).push(cur@));
    parts
}

/// Index of the first character of `s` after its leading run of `c`.
fn skip_start(s: &str, c: char, from: usize, to: usize) -> (k: usize)
    requires
        from <= to <= s@.len(),
    ensures
        from <= k <= to,
        trim_start_char(s@.subrange(from as int, to as int), c) == s@.subrange(k as int, to as int),
{
    let mut k = from;
    while k < to && s.get_char(k) == c
        invariant
            from <= k <= to,
            to <= s@.len(),
            trim_start_char(s@.subrange(from as int, to as int), c) == trim_start_char(
                s@.subrange(k as int, to as int),
                c,
            ),
        decreases to - k,
    {
        assert(s@.subrange(k as int, to as int).drop_first() == s@.subrange(k + 1, to as int));
        k = k + 1;
    }
    k
}

/// End of `s` before its trailing run of `c`.
fn skip_end(s: &str, c: char, from: usize, to: usize) -> (k: usize)
    requires
        from <= to <= s@.len(),
    ensures
        from <= k <= to,
        trim_end_char(s@.subrange(from as int, to as int), c) == s@.subrange(from as int, k as int),
{
    let mut k = to;
    while k > from && s.get_char(k - 1) == c
        invariant
            from <= k <= to,
            to <= s@.len(),
            trim_end_char(s@.subrange(from as int, to as int), c) == trim_end_char(
                s@.subrange(from as int, k as int),
                c,
            ),
        decreases k,
    {
        assert(s@.subrange(from as int, k as int).drop_last() == s@.subrange(from as int, k - 1));
        k = k - 1;
    }
    k
}

/// The url of an entry's first piece.
fn url_of(part: &str) -> (r: String)
    ensures
        r@ == entry_url(part@),
{
    let n = part.unicode_len();
    assert(part@.subrange(0, n as int) == part@);
    let a = skip_start(part, ' ', 0, n);
    let b = skip_end(part, ' ', a, n);
    assert(part@.subrange(a as int, n as int).subrange(0, b - a) == part@.subrange(a as int, b as int));
    let c = skip_start(part, '<', a, b);
    let d = skip_end(part, '>', c, b);
    part.substring_char(c, d).to_owned()
}

/// Parses one entry.
fn entry(e: &str) -> (r: Option<Link>)
    ensures
        match r {
            Some(l) => parse_entry(e@) == Some((l.rel@, l.url@)),
            None => parse_entry(e@) is None,
        },
{
    let parts = split(e, ';');
    if parts.len() < 2 {
        return None;
    }
    assert(views(parts@)[1] == parts@[1]@);
    let quoted = split(parts[1].as_str(), '"');
    if quoted.len() < 2 {
        return None;
    }
    assert(views(quoted@)[1] == quoted@[1]@);
    assert(views(parts@)[0] == parts@[0]@);
    let url = url_of(parts[0].as_str());
    Some(Link { rel: quoted[1].clone(), url })
}

/// Parses a `Link` header value into its well-formed entries, in order.
pub fn parse_link_header(value: &str) -> (r: Vec<Link>)
    ensures
        link_views(r@) == links_of(value@),
{
    let pieces = split(value, ',');
    let mut out: Vec<Link> = Vec::new();
    let mut i: usize = 0;
    while i < pieces.len()
        invariant
            i <= pieces@.len(),
            views(pieces@) == split_on(value@, ','),
            link_views(out@) == entries_of(views(pieces@).subrange(0, i as int)),
        decreases pieces@.len() - i,
    {
        assert(views(pieces@).subrange(0, i + 1).drop_last() == views(pieces@).subrange(
            0,
            i as int,
        ));
        assert(views(pieces@)[i as int] == pieces@[i as int]@);
        let ghost before = out@;
        match entry(pieces[i].as_str()) {
            Some(l) => {
                out.push(l);
                assert(link_views(out@) =~= link_views(before).push(
                    parse_entry(pieces@[i as int]@)->Some_0,
                ));
            },
            None => {},
        }
        i = i + 1;
    }
    assert(views(pieces@).subrange(0, pieces@.len() as int) == views(pieces@));
    out
}

/// The url of the last entry whose relation is `rel`.
pub fn find_link(ls: &Vec<Link>, rel: &String) -> (r: Option<String>)
    ensures
        match r {
            Some(u) => find_rel(link_views(ls@), rel@) == Some(u@),
            None => find_rel(link_views(ls@), rel@) is None,
        },
{
    let mut i: usize = ls.len();
    assert(link_views(ls@).subrange(0, ls@.len() as int) == link_views(ls@));
    while i > 0
        invariant
            i <= ls@.len(),
            find_rel(link_views(ls@), rel@) == find_rel(link_views(ls@).subrange(0, i as int), rel@),
        decreases i,
    {
        assert(link_views(ls@).subrange(0, i as int).drop_last() == link_views(ls@).subrange(
            0,
            i - 1,
        ));
        if ls[i - 1].rel == *rel {
            return Some(ls[i - 1].url.clone());
        }
        i = i - 1;
    }
    None
}

/// The url that the `Link` header of a response gives for the next page.
pub fn next_link(headers: &Vec<Header>) -> (r: Option<String>)
    ensures
        match r {
            Some(u) => next_of(pairs(headers@)) == Some(u@),
            None => next_of(pairs(headers@)) is None,
        },
{
    match get_header(headers, &"link".to_owned()) {
        Some(v) => {
            let ls = parse_link_header(v.as_str());
            find_link(&ls, &"next".to_owned())
        },
        None => None,
    }
}

} // verus!

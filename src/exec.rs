//! Turning a built request into a result: the checks made before sending,
//! the decoding of a response, and the paginator that follows `next` links
//! and gathers the items of every page.
//!
//! Sending is left to the caller: these functions take what the transport
//! returned and say what to do next.
use vstd::prelude::*;
use crate::client::{BuildError, PendingRequest, QueryBuilder, RequestView};
use crate::graph::{endpoint, is_endpoint, Method};
use crate::headers::{copy_headers, pairs, Header};
use crate::links::{next_link, next_of};

verus! {

/// Why an execution failed.
#[derive(Debug)]
pub enum Error {
    /// The request could not be built.
    Build(BuildError),
    /// The transport failed (connection, TLS or protocol); its message.
    Transport(String),
    /// A non-empty body is not valid JSON; the decoder's message.
    Decode(String),
    /// The shared connection was already in use by another call.
    Borrow,
}

/// Whether serde_json accepts a byte string as one JSON value.
pub uninterp spec fn json_accepts(b: Seq<u8>) -> bool;

/// Relies on `serde_json::from_slice::<serde_json::Value>`: parses the bytes
/// as one JSON value. Whether it succeeds depends on the bytes alone; the
/// error is rendered with its `Display` impl.
#[verifier::external_body]
fn decode_json(b: &[u8]) -> (r: Result<serde_json::Value, String>)
    ensures
        r is Ok <==> json_accepts(b@),
{
    match serde_json::from_slice::<serde_json::Value>(b) {
        Ok(v) => Ok(v),
        Err(e) => Err(e.to_string()),
    }
}

/// What one execution returns: the response headers and status, verbatim,
/// and the decoded body where there was one.
pub struct ExecutionResult {
    pub headers: Vec<Header>,
    pub status: u16,
    pub payload: Option<serde_json::Value>,
}

/// The request to send for a builder, or why there is none: a failed build
/// fails with its own error, and a state that is no endpoint for the
/// request's method fails with `NotAnEndpoint`.
pub fn prepare(b: QueryBuilder) -> (r: Result<PendingRequest, Error>)
    ensures
        match b@.request {
            Err(e) => r == Err::<PendingRequest, Error>(Error::Build(e)),
            Ok(req) => if is_endpoint(req.method, b@.node) {
                r is Ok && r->Ok_0@ == req
            } else {
                r == Err::<PendingRequest, Error>(Error::Build(BuildError::NotAnEndpoint))
            },
        },
{
    let QueryBuilder { node, request } = b;
    match request {
        Err(e) => Err(Error::Build(e)),
        Ok(req) => if endpoint(req.method, node) {
            Ok(req)
        } else {
            Err(Error::Build(BuildError::NotAnEndpoint))
        },
    }
}

/// Builds the result of one execution from the decoder's outcome: `None`
/// for an empty body, which gives no payload; a decoding error is a hard
/// error.
pub fn assemble(headers: Vec<Header>, status: u16, decoded: Option<Result<serde_json::Value, String>>) -> (r: Result<ExecutionResult, Error>)
    ensures
        match decoded {
            None => r is Ok && r->Ok_0.payload is None,
            Some(Ok(v)) => r is Ok && r->Ok_0.payload == Some(v),
            Some(Err(m)) => r == Err::<ExecutionResult, Error>(Error::Decode(m)),
        },
        r is Ok ==> pairs(r->Ok_0.headers@) == pairs(headers@) && r->Ok_0.status == status,
{
    match decoded {
        None => Ok(ExecutionResult { headers, status, payload: None }),
        Some(Ok(v)) => Ok(ExecutionResult { headers, status, payload: Some(v) }),
        Some(Err(m)) => Err(Error::Decode(m)),
    }
}

/// The result of one execution from the response's headers, status and
/// body: an empty body gives no payload and never a decoding error; any
/// other body must be JSON. The status passes through unchanged, whatever
/// its value.
pub fn finish_response(headers: Vec<Header>, status: u16, body: &[u8]) -> (r: Result<
    ExecutionResult,
    Error,
>)
    ensures
        body@.len() == 0 ==> r is Ok && r->Ok_0.payload is None,
        body@.len() > 0 ==> (r is Ok <==> json_accepts(body@)),
        body@.len() > 0 && r is Ok ==> r->Ok_0.payload is Some,
        r is Err ==> r->Err_0 is Decode,
        r is Ok ==> pairs(r->Ok_0.headers@) == pairs(headers@) && r->Ok_0.status == status,
{
    if body.len() == 0 {
        assemble(headers, status, None)
    } else {
        let decoded = decode_json(body);
        assemble(headers, status, Some(decoded))
    }
}

/// One item of a paginated result, with the headers and status of the page
/// it came from.
pub struct PageItem<T> {
    pub headers: Vec<Header>,
    pub status: u16,
    pub item: T,
}

/// An item as plain values.
pub type ItemView<T> = (Seq<(Seq<char>, Seq<char>)>, u16, T);

pub open spec fn item_views<T>(v: Seq<PageItem<T>>) -> Seq<ItemView<T>> {
    v.map_values(|x: PageItem<T>| (pairs(x.headers@), x.status, x.item))
}

/// What the transport brought back for one page.
pub enum PageOutcome<T> {
    /// A response, with its items where the body held any.
    Page { headers: Vec<Header>, status: u16, items: Option<Vec<T>> },
    /// The execution of the page failed.
    Failed(Error),
}

/// A page outcome as plain values.
pub enum PageView<T> {
    Page(Seq<(Seq<char>, Seq<char>)>, u16, Option<Seq<T>>),
    Failed(Error),
}

impl<T> PageOutcome<T> {
    pub open spec fn spec_view(&self) -> PageView<T> {
        match self {
            PageOutcome::Page { headers, status, items } => PageView::Page(
                pairs(headers@),
                *status,
                match items {
                    Some(v) => Some(v@),
                    None => None,
                },
            ),
            PageOutcome::Failed(e) => PageView::Failed(*e),
        }
    }
}

/// The state of a paginated execution: the method and headers that every
/// follow-up request reuses, and the items gathered so far.
pub struct Paginator<T> {
    pub method: Method,
    pub headers: Vec<Header>,
    pub collected: Vec<PageItem<T>>,
}

pub struct PaginatorView<T> {
    pub method: Method,
    pub headers: Seq<(Seq<char>, Seq<char>)>,
    pub collected: Seq<ItemView<T>>,
}

impl<T> Paginator<T> {
    pub open spec fn spec_view(&self) -> PaginatorView<T> {
        PaginatorView {
            method: self.method,
            headers: pairs(self.headers@),
            collected: item_views(self.collected@),
        }
    }
}

/// What to do after a page.
pub enum PageStep<T> {
    /// Send this request for the next page, then report it to the paginator.
    Fetch(Paginator<T>, PendingRequest),
    /// Pagination is over, with every item in order, or with the error that
    /// ended it.
    Finished(Result<Vec<PageItem<T>>, Error>),
}

pub enum StepView<T> {
    Fetch(PaginatorView<T>, RequestView),
    Finished(Result<Seq<ItemView<T>>, Error>),
}

impl<T> PageStep<T> {
    pub open spec fn spec_view(&self) -> StepView<T> {
        match self {
            PageStep::Fetch(p, req) => StepView::Fetch(p.spec_view(), req@),
            PageStep::Finished(Ok(v)) => StepView::Finished(Ok(item_views(v@))),
            PageStep::Finished(Err(e)) => StepView::Finished(Err(*e)),
        }
    }
}

/// The items of one page, each tagged with the page's headers and status;
/// a page without payload contributes none.
pub open spec fn page_items<T>(
    headers: Seq<(Seq<char>, Seq<char>)>,
    status: u16,
    items: Option<Seq<T>>,
) -> Seq<ItemView<T>> {
    match items {
        Some(s) => Seq::new(s.len(), |i: int| (headers, status, s[i])),
        None => Seq::empty(),
    }
}

/// One step of pagination: a failure ends it with that error and nothing
/// else; a page adds its items, then a non-empty `next` link is fetched with
/// the first request's method and headers, and anything else ends it.
pub open spec fn page_step<T>(p: PaginatorView<T>, o: PageView<T>) -> StepView<T> {
    match o {
        PageView::Failed(e) => StepView::Finished(Err(e)),
        PageView::Page(hs, st, items) => {
            let acc = p.collected + page_items(hs, st, items);
            match next_of(hs) {
                Some(u) => if u.len() > 0 {
                    StepView::Fetch(
                        PaginatorView { collected: acc, ..p },
                        RequestView { method: p.method, url: u, headers: p.headers, body: Seq::empty() },
                    )
                } else {
                    StepView::Finished(Ok(acc))
                },
                None => StepView::Finished(Ok(acc)),
            }
        },
    }
}

impl<T> Paginator<T> {
    /// Starts paginating from the first request, which the caller sends.
    pub fn new(first: &PendingRequest) -> (r: Paginator<T>)
        ensures
            r.spec_view() == (PaginatorView::<T> {
                method: first.method,
                headers: pairs(first.headers@),
                collected: Seq::empty(),
            }),
    {
        let r = Paginator { method: first.method, headers: copy_headers(&first.headers), collected: Vec::new() };
        assert(item_views(r.collected@) =~= Seq::<ItemView<T>>::empty());
        r
    }

    /// Takes what the transport returned for the last request sent.
    pub fn on_outcome(self, outcome: PageOutcome<T>) -> (r: PageStep<T>)
        ensures
            r.spec_view() == page_step(self.spec_view(), outcome.spec_view()),
    {
        let ghost before = self.spec_view();
        let ghost o = outcome.spec_view();
        let Paginator { method, headers, mut collected } = self;
        match outcome {
            PageOutcome::Failed(e) => PageStep::Finished(Err(e)),
            PageOutcome::Page { headers: page_headers, status, items } => {
                match items {
                    Some(mut v) => {
                        let ghost vs = v@;
                        let ghost start = item_views(collected@);
                        let mut k: usize = 0;
                        let n = v.len();
                        while k < n
                            invariant
                                n == vs.len(),
                                k <= n,
                                v@ == vs.subrange(k as int, n as int),
                                item_views(collected@) == start + page_items(
                                    pairs(page_headers@),
                                    status,
                                    Some(vs.subrange(0, k as int)),
                                ),
                            decreases n - k,
                        {
                            let ghost prev = collected@;
                            let item = v.remove(0);
                            let hs = copy_headers(&page_headers);
                            collected.push(PageItem { headers: hs, status, item });
                            assert(v@ =~= vs.subrange(k + 1, n as int));
                            assert(item_views(collected@) =~= start + page_items(
                                pairs(page_headers@),
                                status,
                                Some(vs.subrange(0, k + 1)),
                            )) by {
                                assert(item_views(collected@) =~= item_views(prev).push(
                                    (pairs(page_headers@), status, item),
                                ));
                            }
                            k = k + 1;
                        }
                        assert(vs.subrange(0, n as int) =~= vs);
                    },
                    None => {
                        assert(item_views(collected@) =~= item_views(collected@) + page_items(
                            pairs(page_headers@),
                            status,
                            None::<Seq<T>>,
                        ));
                    },
                }
                match next_link(&page_headers) {
                    Some(u) => if !u.as_str().is_empty() {
                        let hs = copy_headers(&headers);
                        PageStep::Fetch(
                            Paginator { method, headers, collected },
                            PendingRequest { method, url: u, headers: hs, body: Vec::new() },
                        )
                    } else {
                        PageStep::Finished(Ok(collected))
                    },
                    None => PageStep::Finished(Ok(collected)),
                }
            },
        }
    }
}


/// Three pages where the first two link to a next page and the third to
/// none: the first two steps fetch exactly those links with the first
/// request's method and headers, and the third ends with the items of all
/// three pages in order, asking for no fourth page.
pub proof fn lemma_three_pages<T>(
    p: PaginatorView<T>,
    h1: Seq<(Seq<char>, Seq<char>)>,
    s1: u16,
    i1: Option<Seq<T>>,
    h2: Seq<(Seq<char>, Seq<char>)>,
    s2: u16,
    i2: Option<Seq<T>>,
    h3: Seq<(Seq<char>, Seq<char>)>,
    s3: u16,
    i3: Option<Seq<T>>,
)
    requires
        p.collected.len() == 0,
        next_of(h1) is Some && next_of(h1)->Some_0.len() > 0,
        next_of(h2) is Some && next_of(h2)->Some_0.len() > 0,
        next_of(h3) is None,
    ensures
        match page_step(p, PageView::Page(h1, s1, i1)) {
            StepView::Fetch(p1, r1) => {
                &&& r1.url == next_of(h1)->Some_0
                &&& r1.method == p.method
                &&& r1.headers == p.headers
                &&& match page_step(p1, PageView::Page(h2, s2, i2)) {
                    StepView::Fetch(p2, r2) => {
                        &&& r2.url == next_of(h2)->Some_0
                        &&& r2.method == p.method
                        &&& r2.headers == p.headers
                        &&& page_step(p2, PageView::Page(h3, s3, i3)) == StepView::<T>::Finished(
                            Ok(page_items(h1, s1, i1) + page_items(h2, s2, i2) + page_items(h3, s3, i3)),
                        )
                    },
                    StepView::Finished(_) => false,
                }
            },
            StepView::Finished(_) => false,
        },
{
    assert(p.collected + page_items(h1, s1, i1) =~= page_items(h1, s1, i1));
}

/// Feeds a run of page outcomes to the paginator, one per request it asks
/// for; the result is the step taken on the last outcome, or the end met
/// before it.
pub open spec fn drive<T>(p: PaginatorView<T>, os: Seq<PageView<T>>) -> StepView<T>
    recommends
        os.len() > 0,
    decreases os.len(),
{
    if os.len() <= 1 {
        page_step(p, os[0])
    } else {
        match page_step(p, os[0]) {
            StepView::Fetch(p1, _) => drive(p1, os.drop_first()),
            StepView::Finished(r) => StepView::Finished(r),
        }
    }
}

/// A page that links to a non-empty `next` url.
pub open spec fn links_on<T>(o: PageView<T>) -> bool {
    match o {
        PageView::Page(hs, _, _) => next_of(hs) is Some && next_of(hs)->Some_0.len() > 0,
        PageView::Failed(_) => false,
    }
}

/// A page that links nowhere further.
pub open spec fn last_page<T>(o: PageView<T>) -> bool {
    match o {
        PageView::Page(hs, _, _) => next_of(hs) is None,
        PageView::Failed(_) => false,
    }
}

/// The items of a run of pages, in order.
pub open spec fn all_items<T>(os: Seq<PageView<T>>) -> Seq<ItemView<T>>
    decreases os.len(),
{
    if os.len() == 0 {
        Seq::empty()
    } else {
        let first = match os[0] {
            PageView::Page(hs, st, items) => page_items(hs, st, items),
            PageView::Failed(_) => Seq::empty(),
        };
        first + all_items(os.drop_first())
    }
}

/// However many pages there are, when each but the last links to a next
/// page and the last to none, pagination ends with the items gathered so
/// far followed by every page's items in page order.
pub proof fn lemma_pages_concatenate<T>(p: PaginatorView<T>, os: Seq<PageView<T>>)
    requires
        os.len() > 0,
        forall|i: int| 0 <= i < os.len() - 1 ==> links_on(#[trigger] os[i]),
        last_page(os[os.len() - 1]),
    ensures
        drive(p, os) == StepView::<T>::Finished(Ok(p.collected + all_items(os))),
    decreases os.len(),
{
    let rest = os.drop_first();
    if os.len() == 1 {
        match os[0] {
            PageView::Page(hs, st, items) => {
                assert(all_items(os) =~= page_items(hs, st, items));
            },
            PageView::Failed(_) => {},
        }
    } else {
        assert(links_on(os[0]));
        match os[0] {
            PageView::Page(hs, st, items) => {
                let p1 = PaginatorView { collected: p.collected + page_items(hs, st, items), ..p };
                assert forall|i: int| 0 <= i < rest.len() - 1 implies links_on(#[trigger] rest[i]) by {
                    assert(rest[i] == os[i + 1]);
                }
                assert(rest[rest.len() - 1] == os[os.len() - 1]);
                lemma_pages_concatenate(p1, rest);
                assert(p1.collected + all_items(rest) =~= p.collected + all_items(os));
            },
            PageView::Failed(_) => {},
        }
    }
}

/// When a page fails after a run of pages that each linked onward,
/// pagination ends with that error alone, whatever was gathered before.
pub proof fn lemma_failure_ends_pagination<T>(p: PaginatorView<T>, os: Seq<PageView<T>>, e: Error)
    requires
        forall|i: int| 0 <= i < os.len() ==> links_on(#[trigger] os[i]),
    ensures
        drive(p, os.push(PageView::Failed(e))) == StepView::<T>::Finished(Err(e)),
    decreases os.len(),
{
    let all = os.push(PageView::Failed(e));
    if os.len() > 0 {
        assert(links_on(os[0]));
        assert(all[0] == os[0]);
        let rest = os.drop_first();
        assert(all.drop_first() =~= rest.push(PageView::Failed(e)));
        match os[0] {
            PageView::Page(hs, st, items) => {
                let p1 = PaginatorView { collected: p.collected + page_items(hs, st, items), ..p };
                assert forall|i: int| 0 <= i < rest.len() implies links_on(#[trigger] rest[i]) by {
                    assert(rest[i] == os[i + 1]);
                }
                lemma_failure_ends_pagination(p1, rest, e);
            },
            PageView::Failed(_) => {},
        }
    }
}

} // verus!

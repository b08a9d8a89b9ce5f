//! The pagination engine: a pull-driven state machine that turns a
//! page-numbered list endpoint into one lazy sequence of items.
//!
//! The machine never performs I/O. A pull either yields the next buffered
//! item, asks the caller to fetch one specific page, emits a pending
//! failure exactly once, or reports the end of the stream. The caller
//! performs the fetch it was asked for and hands the outcome back through
//! [`PageStream::provide_page`] or [`PageStream::provide_failure`]; at
//! most one page is ever outstanding, pages are requested strictly in
//! order starting from 1, and a stream that has ended never asks for
//! another page.
use vstd::prelude::*;

use crate::client::Client;
use crate::error::Error;
use crate::models::SearchTypeResult;
use crate::request::RequestSpec;
use crate::request::SearchTypesParams;

verus! {

/// The items of a sequence of pages, in page order and in-page order.
pub open spec fn concat_pages<T>(pages: Seq<Seq<T>>) -> Seq<T>
    decreases pages.len(),
{
    if pages.len() == 0 {
        Seq::<T>::empty()
    } else {
        concat_pages(pages.drop_last()) + pages.last()
    }
}

/// The outcome of one pull on a page stream.
pub enum PullOutcome<T> {
    /// The next item of the sequence.
    Item(T),
    /// The stream failed: the error, emitted exactly once as the terminal
    /// element of the sequence.
    Failure(Error),
    /// The stream needs the given page fetched before it can go on.
    NeedPage(i64),
    /// The stream is over.
    Done,
}

/// A pull-driven stream over the pages of a list endpoint.
///
/// The stream starts at page 1 with an empty buffer. It ends either when
/// a page comes back empty, when the reported total has been emitted, or
/// when a page fetch fails — in which case the failure is emitted exactly
/// once and the stream then ends. A fresh stream is independent of every
/// other stream.
#[verifier::reject_recursive_types(T)]
pub struct PageStream<T> {
    current_page: i64,
    buffer: Vec<T>,
    items_fetched: i64,
    total_items: Option<i64>,
    pending_error: Option<Error>,
    failed: bool,
    pages_g: Ghost<Seq<Seq<T>>>,
    emitted_g: Ghost<Seq<T>>,
}

impl<T> PageStream<T> {
    /// The items emitted so far, in order.
    pub closed spec fn emitted(&self) -> Seq<T> {
        self.emitted_g@
    }

    /// The item lists of the non-empty pages provided so far, in order.
    pub closed spec fn pages(&self) -> Seq<Seq<T>> {
        self.pages_g@
    }

    /// The buffered items of the current page, not yet emitted.
    pub closed spec fn buffer_view(&self) -> Seq<T> {
        self.buffer@
    }

    /// The page number the stream will ask for next.
    pub closed spec fn page_number(&self) -> i64 {
        self.current_page
    }

    /// The total reported by the service, once one page has answered.
    pub closed spec fn total_known(&self) -> Option<i64> {
        self.total_items
    }

    /// A failure handed to the stream and not yet emitted.
    pub closed spec fn pending(&self) -> Option<Error> {
        self.pending_error
    }

    /// Whether the stream has emitted a failure; it is then over.
    pub closed spec fn has_failed(&self) -> bool {
        self.failed
    }

    /// Whether the stream has ended without a failure: the reported total
    /// has been reached (an empty page reports the emitted count as the
    /// total, so it ends the stream here too).
    pub open spec fn is_exhausted(&self) -> bool {
        &&& self.pending() is None
        &&& !self.has_failed()
        &&& match self.total_known() {
            Some(t) => self.emitted().len() >= t,
            None => false,
        }
    }

    /// Whether the stream is over, by exhaustion or by an emitted failure.
    pub open spec fn is_over(&self) -> bool {
        self.is_exhausted() || (self.has_failed() && self.pending() is None)
    }

    /// Whether the stream is ready to have a page fetched: it is not
    /// over, no failure is pending, and the buffer is drained.
    pub open spec fn awaiting_page(&self) -> bool {
        &&& self.pending() is None
        &&& !self.has_failed()
        &&& !self.is_exhausted()
        &&& self.buffer_view().len() == 0
    }

    /// The internal invariant: the emitted items followed by the buffered
    /// items are exactly the items of the provided pages; the emitted
    /// count tracks them; page numbers advance one per non-empty page.
    pub closed spec fn wf(&self) -> bool {
        &&& self.items_fetched as int == self.emitted().len()
        &&& self.emitted() + self.buffer_view() == concat_pages(self.pages())
        &&& self.current_page as int == self.pages().len() + 1
        &&& self.emitted().len() + self.buffer_view().len() <= i64::MAX
    }

    /// The number of items emitted so far.
    pub fn emitted_count(&self) -> (n: i64)
        requires
            self.wf(),
        ensures
            n as int == self.emitted().len(),
    {
        self.items_fetched
    }

    /// Creates a fresh stream: page 1, nothing buffered, nothing emitted,
    /// no total known, no failure.
    pub fn new() -> (s: Self)
        ensures
            s.wf(),
            s.emitted() == Seq::<T>::empty(),
            s.pages() == Seq::<Seq<T>>::empty(),
            s.buffer_view() == Seq::<T>::empty(),
            s.page_number() == 1,
            s.total_known() is None,
            s.pending() is None,
            !s.has_failed(),
    {
        let s = PageStream {
            current_page: 1i64,
            buffer: Vec::new(),
            items_fetched: 0i64,
            total_items: None,
            pending_error: None,
            failed: false,
            pages_g: Ghost(Seq::<Seq<T>>::empty()),
            emitted_g: Ghost(Seq::<T>::empty()),
        };
        proof {
            assert(s.emitted() + s.buffer_view() =~= concat_pages(s.pages()));
        }
        s
    }

    /// Pulls the next element of the sequence.
    ///
    /// Exactly one of four things happens, decided by the state alone: a
    /// pending failure is emitted once and the stream ends; an ended
    /// stream reports `Done` and never asks for a page again; a buffered
    /// item is emitted, unless the reported total is already reached; or
    /// the caller is asked to fetch the next page in order.
    pub fn pull(&mut self) -> (r: PullOutcome<T>)
        requires
            old(self).wf(),
        ensures
            final(self).wf(),
            final(self).pages() == old(self).pages(),
            final(self).total_known() == old(self).total_known(),
            final(self).page_number() == old(self).page_number(),
            match r {
                PullOutcome::Failure(e) => {
                    &&& old(self).pending() == Some(e)
                    &&& final(self).pending() is None
                    &&& final(self).has_failed()
                    &&& final(self).is_over()
                    &&& final(self).emitted() == old(self).emitted()
                    &&& final(self).buffer_view() == old(self).buffer_view()
                },
                PullOutcome::Done => {
                    &&& old(self).pending() is None
                    &&& old(self).is_over()
                    &&& *final(self) == *old(self)
                },
                PullOutcome::Item(x) => {
                    &&& old(self).pending() is None
                    &&& !old(self).is_over()
                    &&& old(self).buffer_view().len() > 0
                    &&& x == old(self).buffer_view()[0]
                    &&& final(self).emitted() == old(self).emitted().push(x)
                    &&& final(self).buffer_view() == old(self).buffer_view().drop_first()
                    &&& !final(self).has_failed() && final(self).pending() is None
                },
                PullOutcome::NeedPage(p) => {
                    &&& old(self).pending() is None
                    &&& !old(self).is_over()
                    &&& old(self).buffer_view().len() == 0
                    &&& p == old(self).page_number()
                    &&& p as int == old(self).pages().len() + 1
                    &&& *final(self) == *old(self)
                    &&& final(self).awaiting_page()
                },
            },
    {
        if self.pending_error.is_some() {
            let mut taken: Option<Error> = None;
            core::mem::swap(&mut taken, &mut self.pending_error);
            self.failed = true;
            match taken {
                Some(e) => {
                    return PullOutcome::Failure(e);
                },
                None => {
                    // unreachable: the pending error was just checked
                    return PullOutcome::Done;
                },
            }
        }
        if self.failed {
            return PullOutcome::Done;
        }
        match self.total_items {
            Some(t) => {
                if self.items_fetched >= t {
                    return PullOutcome::Done;
                }
            },
            None => {},
        }
        if self.buffer.len() > 0 {
            let ghost old_emitted = self.emitted_g@;
            let ghost old_buffer = self.buffer@;
            let x = self.buffer.remove(0);
            self.items_fetched = self.items_fetched + 1;
            proof {
                self.emitted_g@ = old_emitted.push(x);
                assert(self.buffer@ =~= old_buffer.drop_first());
                assert(self.emitted_g@ + self.buffer@ =~= old_emitted + old_buffer);
            }
            PullOutcome::Item(x)
        } else {
            PullOutcome::NeedPage(self.current_page)
        }
    }

    /// Accepts the successful fetch of the page the stream asked for:
    /// the reported total and the page's items.
    ///
    /// The first answer fixes the reported total. An empty page ends the
    /// stream silently, whatever total was reported before: no error, no
    /// further page request. A non-empty page refills the buffer exactly
    /// with its items and advances the page number by one.
    pub fn provide_page(&mut self, count: i64, items: Vec<T>)
        requires
            old(self).wf(),
            old(self).awaiting_page(),
            old(self).emitted().len() + items@.len() <= i64::MAX,
            old(self).page_number() < i64::MAX,
        ensures
            final(self).wf(),
            final(self).emitted() == old(self).emitted(),
            final(self).pending() is None,
            !final(self).has_failed(),
            items@.len() == 0 ==> {
                &&& final(self).pages() == old(self).pages()
                &&& final(self).buffer_view() == old(self).buffer_view()
                &&& final(self).is_exhausted()
                &&& final(self).is_over()
                &&& final(self).page_number() == old(self).page_number()
            },
            items@.len() > 0 ==> {
                &&& final(self).pages() == old(self).pages().push(items@)
                &&& final(self).buffer_view() == items@
                &&& final(self).page_number() == old(self).page_number() + 1
                &&& final(self).total_known() == (if old(self).total_known() is Some {
                    old(self).total_known()
                } else {
                    Some(count)
                })
            },
    {
        if self.total_items.is_none() {
            self.total_items = Some(count);
        }
        if items.len() == 0 {
            self.total_items = Some(self.items_fetched);
            return ;
        }
        let ghost old_pages = self.pages_g@;
        self.buffer = items;
        self.current_page = self.current_page + 1;
        proof {
            self.pages_g@ = old_pages.push(self.buffer@);
            assert(self.pages_g@.drop_last() =~= old_pages);
            assert(self.pages_g@.last() == self.buffer@);
            assert(concat_pages(self.pages_g@) == concat_pages(old_pages) + self.buffer@);
            assert(self.emitted_g@ + Seq::<T>::empty() =~= self.emitted_g@);
            assert(self.emitted_g@ + self.buffer@ =~= concat_pages(self.pages_g@));
        }
    }

    /// Accepts the failed fetch of the page the stream asked for. The
    /// failure becomes the stream's next and last element: the following
    /// pull emits it, and the stream then ends with no further page
    /// request.
    pub fn provide_failure(&mut self, err: Error)
        requires
            old(self).wf(),
            old(self).awaiting_page(),
        ensures
            final(self).wf(),
            final(self).pending() == Some(err),
            !final(self).has_failed(),
            final(self).emitted() == old(self).emitted(),
            final(self).pages() == old(self).pages(),
            final(self).buffer_view() == old(self).buffer_view(),
            final(self).page_number() == old(self).page_number(),
    {
        self.total_items = Some(self.items_fetched);
        self.pending_error = Some(err);
    }
}

/// The items a stream emits are exactly a prefix of the items of its
/// pages, in page order and in-page order; a stream whose buffer is
/// drained has emitted every item of every page it was given.
pub proof fn lemma_emitted_is_prefix_of_pages<T>(s: &PageStream<T>)
    requires
        s.wf(),
    ensures
        s.emitted() == concat_pages(s.pages()).take(s.emitted().len() as int),
        s.buffer_view().len() == 0 ==> s.emitted() == concat_pages(s.pages()),
{
    assert(s.emitted() + s.buffer_view() == concat_pages(s.pages()));
    assert(s.emitted() =~= (s.emitted() + s.buffer_view()).take(s.emitted().len() as int));
    if s.buffer_view().len() == 0 {
        assert(s.emitted() =~= s.emitted() + s.buffer_view());
    }
}

/// A stream that is over stays over: it is never awaiting a page, so no
/// page can be provided to it and no further fetch ever happens on its
/// behalf.
pub proof fn lemma_over_stream_never_awaits<T>(s: &PageStream<T>)
    requires
        s.is_over(),
    ensures
        !s.awaiting_page(),
{
}

/// A stream over all types matching one search: the client configuration,
/// the search parameters, and the page machine, bundled so that the
/// caller can both drive the machine and compose each page's request.
pub struct TypeStream {
    client: Client,
    params: SearchTypesParams,
    stream: PageStream<SearchTypeResult>,
}

impl TypeStream {
    /// The underlying page machine.
    pub closed spec fn stream(&self) -> PageStream<SearchTypeResult> {
        self.stream
    }

    /// The client configuration the stream was started from.
    pub closed spec fn client(&self) -> Client {
        self.client
    }

    /// The search parameters the stream was started with.
    pub closed spec fn params(&self) -> SearchTypesParams {
        self.params
    }

    /// Pulls the next element; see [`PageStream::pull`].
    pub fn pull(&mut self) -> (r: PullOutcome<SearchTypeResult>)
        requires
            old(self).stream().wf(),
        ensures
            final(self).stream().wf(),
            final(self).client() == old(self).client(),
            final(self).params() == old(self).params(),
            ({
                let s0 = old(self).stream();
                let s1 = final(self).stream();
                &&& s1.pages() == s0.pages()
                &&& s1.total_known() == s0.total_known()
                &&& s1.page_number() == s0.page_number()
                &&& match r {
                    PullOutcome::Failure(e) => {
                        &&& s0.pending() == Some(e)
                        &&& s1.pending() is None
                        &&& s1.has_failed()
                        &&& s1.is_over()
                        &&& s1.emitted() == s0.emitted()
                        &&& s1.buffer_view() == s0.buffer_view()
                    },
                    PullOutcome::Done => {
                        &&& s0.pending() is None
                        &&& s0.is_over()
                        &&& s1 == s0
                    },
                    PullOutcome::Item(x) => {
                        &&& s0.pending() is None
                        &&& !s0.is_over()
                        &&& s0.buffer_view().len() > 0
                        &&& x == s0.buffer_view()[0]
                        &&& s1.emitted() == s0.emitted().push(x)
                        &&& s1.buffer_view() == s0.buffer_view().drop_first()
                        &&& !s1.has_failed() && s1.pending() is None
                    },
                    PullOutcome::NeedPage(p) => {
                        &&& s0.pending() is None
                        &&& !s0.is_over()
                        &&& s0.buffer_view().len() == 0
                        &&& p == s0.page_number()
                        &&& p as int == s0.pages().len() + 1
                        &&& s1 == s0
                        &&& s1.awaiting_page()
                    },
                }
            }),
    {
        self.stream.pull()
    }

    /// Composes the request for the page the stream asked for: the search
    /// parameters with that page number, merged with the configured
    /// language, under this client's headers.
    pub fn page_request(&self, page: i64) -> (r: RequestSpec)
        ensures
            r.url@ == self.client().base_url_view() + "/types"@,
            crate::request::query_view(r.headers@) == self.client().spec_headers(),
            crate::request::query_view(r.query@) == self.client().spec_lang_param()
                + (SearchTypesParams { page: Some(page), ..self.params() }).spec_query(),
            r.body is None,
    {
        self.client.search_types_request(&self.params, page)
    }

    /// The number of items emitted so far.
    pub fn emitted_count(&self) -> (n: i64)
        requires
            self.stream().wf(),
        ensures
            n as int == self.stream().emitted().len(),
    {
        self.stream.emitted_count()
    }

    /// Accepts a page; see [`PageStream::provide_page`].
    pub fn provide_page(&mut self, count: i64, items: Vec<SearchTypeResult>)
        requires
            old(self).stream().wf(),
            old(self).stream().awaiting_page(),
            old(self).stream().emitted().len() + items@.len() <= i64::MAX,
            old(self).stream().page_number() < i64::MAX,
        ensures
            final(self).stream().wf(),
            final(self).client() == old(self).client(),
            final(self).params() == old(self).params(),
            ({
                let s0 = old(self).stream();
                let s1 = final(self).stream();
                &&& s1.emitted() == s0.emitted()
                &&& s1.pending() is None
                &&& !s1.has_failed()
                &&& (items@.len() == 0 ==> s1.pages() == s0.pages() && s1.is_exhausted()
                    && s1.is_over())
                &&& (items@.len() > 0 ==> s1.pages() == s0.pages().push(items@)
                    && s1.buffer_view() == items@ && s1.page_number() == s0.page_number() + 1)
            }),
    {
        self.stream.provide_page(count, items)
    }

    /// Accepts a failure; see [`PageStream::provide_failure`].
    pub fn provide_failure(&mut self, err: Error)
        requires
            old(self).stream().wf(),
            old(self).stream().awaiting_page(),
        ensures
            final(self).stream().wf(),
            final(self).client() == old(self).client(),
            final(self).params() == old(self).params(),
            final(self).stream().pending() == Some(err),
            !final(self).stream().has_failed(),
            final(self).stream().emitted() == old(self).stream().emitted(),
            final(self).stream().pages() == old(self).stream().pages(),
    {
        self.stream.provide_failure(err)
    }
}

impl Client {
    /// Starts a stream over all types matching the search parameters.
    ///
    /// Each call starts a fresh, independent stream at page 1: a stream
    /// is never resumed mid-flight, only re-created.
    pub fn stream_all_types(&self, params: SearchTypesParams) -> (s: TypeStream)
        ensures
            s.client() == *self,
            s.params() == params,
            s.stream().wf(),
            s.stream().emitted() == Seq::<SearchTypeResult>::empty(),
            s.stream().pages() == Seq::<Seq<SearchTypeResult>>::empty(),
            s.stream().buffer_view() == Seq::<SearchTypeResult>::empty(),
            s.stream().page_number() == 1,
            s.stream().total_known() is None,
            s.stream().pending() is None,
            !s.stream().has_failed(),
    {
        TypeStream { client: self.clone(), params, stream: PageStream::new() }
    }
}

} // verus!

//! The paginated result stream: turns a page-by-page fetch capability into a
//! flat, deduplicated, order-preserving, lazily produced sequence of items.
//!
//! The stream performs no network call itself. A driver asks it what to do
//! next ([`PageStream::next_step`]): it either hands out the next buffered
//! item, asks the driver to fetch one specific page, or reports that it is
//! finished. When the driver has fetched a page it hands the decoded batch to
//! [`PageStream::on_page`]; on a fetch failure it calls
//! [`PageStream::on_fetch_error`]. This way the state machine holds under a
//! blocking driver and under a suspending one alike.
//!
//! Items already emitted are never emitted again, even when the service
//! returns overlapping pages: each batch is filtered against the identities
//! seen so far, in batch order, and the stream ends when a batch contributes
//! no previously unseen item.
//!
//! Failure policy: a fetch failure is terminal for the stream. The driver
//! surfaces the error to the consumer at the pull that triggered it; the
//! stream never advances to a further page and never re-delivers an already
//! consumed item, and every later pull reports the failure rather than a
//! silent end of stream.

use vstd::prelude::*;

verus! {

/// An item type with a designated identity: the subset of its content that
/// decides whether two items stand for the same real-world entity across
/// pages. The identity relation is deterministic (a spec function of the two
/// items alone) and symmetric.
pub trait DedupIdent: Sized {
    /// Whether two items carry the same identity.
    spec fn same_ident(self, other: Self) -> bool;

    /// The identity relation is symmetric.
    proof fn lemma_same_ident_symmetric(x: Self, y: Self)
        ensures
            x.same_ident(y) == y.same_ident(x),
    ;

    /// Decides the identity relation.
    fn is_duplicate(&self, other: &Self) -> (r: bool)
        ensures
            r == self.same_ident(*other),
    ;

    /// An exact copy; the stream keeps one for each accepted item.
    fn duplicate(&self) -> (r: Self)
        ensures
            r == *self,
    ;
}

/// Whether some item of `s` carries the same identity as `x`.
pub open spec fn contains_ident<T: DedupIdent>(s: Seq<T>, x: T) -> bool {
    exists|i: int| 0 <= i < s.len() && #[trigger] s[i].same_ident(x)
}

/// The items of `batch` that survive deduplication against `seen`: an item is
/// kept exactly when no earlier item — of `seen` or of the same batch — has
/// its identity, and the kept items stay in batch order.
pub open spec fn accept_batch<T: DedupIdent>(seen: Seq<T>, batch: Seq<T>) -> Seq<T>
    decreases batch.len(),
{
    if batch.len() == 0 {
        Seq::empty()
    } else if contains_ident(seen, batch[0]) {
        accept_batch(seen, batch.skip(1))
    } else {
        seq![batch[0]] + accept_batch(seen.push(batch[0]), batch.skip(1))
    }
}

/// Every page's accepted items, concatenated in page order.
pub open spec fn accepted_all<T: DedupIdent>(pages: Seq<Seq<T>>) -> Seq<T>
    decreases pages.len(),
{
    if pages.len() == 0 {
        Seq::empty()
    } else {
        let prev = accepted_all(pages.drop_last());
        prev + accept_batch(prev, pages.last())
    }
}

/// The items that page `i` contributed, after deduplication against all
/// earlier pages.
pub open spec fn page_accepted<T: DedupIdent>(pages: Seq<Seq<T>>, i: int) -> Seq<T>
    recommends
        0 <= i < pages.len(),
{
    accept_batch(accepted_all(pages.take(i)), pages[i])
}

/// No two items of `s` carry the same identity.
pub open spec fn distinct_idents<T: DedupIdent>(s: Seq<T>) -> bool {
    forall|i: int, j: int|
        0 <= i < j < s.len() ==> !(#[trigger] s[i].same_ident(#[trigger] s[j]))
}

/// What a driver must do next for a stream.
pub enum Step<T> {
    /// The next deduplicated item, in order.
    Item(T),
    /// Fetch this page (pages are numbered from 1) and report the outcome
    /// through `on_page` or `on_fetch_error`.
    Fetch(usize),
    /// The stream is exhausted: no more items, and no more fetches.
    Done,
    /// A fetch failed earlier; the stream is stopped on that failure.
    Failed,
}

/// A deduplicated, order-preserving, lazily produced view over pages of
/// items. See the module documentation for the driving protocol.
pub struct PageStream<T: DedupIdent> {
    /// One representative of every accepted item, in acceptance order.
    seen: Vec<T>,
    /// Accepted items not yet emitted, in emission order.
    buffer: Vec<T>,
    /// The page the next fetch will ask for.
    next_page: usize,
    /// How many fetch outcomes (pages or one failure) were reported.
    fetched: usize,
    /// No fetch will ever contribute a new item again.
    exhausted: bool,
    /// A fetch failed; the stream is stopped.
    failed: bool,
    /// The items emitted so far, in order.
    emitted_gh: Ghost<Seq<T>>,
    /// The batches received so far, in order.
    pages_gh: Ghost<Seq<Seq<T>>>,
}

/// Whether some item of `items` carries the same identity as `x`.
fn contains_dup<T: DedupIdent>(items: &Vec<T>, x: &T) -> (r: bool)
    ensures
        r == contains_ident(items@, *x),
{
    let mut k: usize = 0;
    while k < items.len()
        invariant
            0 <= k <= items@.len(),
            forall|m: int| 0 <= m < k ==> !(#[trigger] items@[m].same_ident(*x)),
        decreases items@.len() - k,
    {
        if items[k].is_duplicate(x) {
            assert(contains_ident(items@, *x));
            return true;
        }
        k = k + 1;
    }
    false
}

/// An identity occurs in a concatenation exactly when it occurs in one part.
proof fn lemma_contains_split<T: DedupIdent>(a: Seq<T>, b: Seq<T>, x: T)
    ensures
        contains_ident(a + b, x) == (contains_ident(a, x) || contains_ident(b, x)),
{
    if contains_ident(a, x) {
        let i = choose|i: int| 0 <= i < a.len() && #[trigger] a[i].same_ident(x);
        assert((a + b)[i].same_ident(x));
    }
    if contains_ident(b, x) {
        let i = choose|i: int| 0 <= i < b.len() && #[trigger] b[i].same_ident(x);
        assert((a + b)[a.len() + i].same_ident(x));
    }
    if contains_ident(a + b, x) {
        let i = choose|i: int| 0 <= i < (a + b).len() && #[trigger] (a + b)[i].same_ident(x);
        if i < a.len() {
            assert(a[i].same_ident(x));
        } else {
            assert(b[i - a.len()].same_ident(x));
        }
    }
}

/// Deduplication keeps identities pairwise distinct.
proof fn lemma_accept_batch_distinct<T: DedupIdent>(seen: Seq<T>, batch: Seq<T>)
    requires
        distinct_idents(seen),
    ensures
        distinct_idents(seen + accept_batch(seen, batch)),
    decreases batch.len(),
{
    if batch.len() == 0 {
        assert(seen + accept_batch(seen, batch) =~= seen);
    } else if contains_ident(seen, batch[0]) {
        lemma_accept_batch_distinct(seen, batch.skip(1));
    } else {
        let x = batch[0];
        let seen2 = seen.push(x);
        assert(distinct_idents(seen2)) by {
            assert forall|i: int, j: int| 0 <= i < j < seen2.len() implies !(
            #[trigger] seen2[i].same_ident(#[trigger] seen2[j])) by {
                if j == seen.len() {
                    assert(seen2[i] == seen[i]);
                    assert(seen2[j] == x);
                }
            }
        }
        lemma_accept_batch_distinct(seen2, batch.skip(1));
        assert(seen + accept_batch(seen, batch) =~= seen2 + accept_batch(seen2, batch.skip(1)));
    }
}

impl<T: DedupIdent> PageStream<T> {
    /// The items emitted so far, in order.
    pub closed spec fn emitted(&self) -> Seq<T> {
        self.emitted_gh@
    }

    /// Accepted items not yet emitted, in emission order.
    pub closed spec fn pending(&self) -> Seq<T> {
        self.buffer@
    }

    /// The batches received so far, in order.
    pub closed spec fn pages(&self) -> Seq<Seq<T>> {
        self.pages_gh@
    }

    /// Every item accepted so far: emitted first, then still pending.
    pub open spec fn accepted(&self) -> Seq<T> {
        self.emitted() + self.pending()
    }

    /// How many fetch outcomes (pages or one failure) were reported.
    pub closed spec fn fetch_count(&self) -> int {
        self.fetched as int
    }

    /// The page the next fetch will ask for (pages are numbered from 1).
    pub closed spec fn page_to_fetch(&self) -> int {
        self.next_page as int
    }

    /// Whether the stream has inferred completion from a batch that
    /// contributed no new item.
    pub closed spec fn is_exhausted(&self) -> bool {
        self.exhausted
    }

    /// Whether a fetch failure stopped the stream.
    pub closed spec fn has_failed(&self) -> bool {
        self.failed
    }

    /// Whether the stream is waiting for a fetch outcome: not stopped, and
    /// nothing buffered to emit.
    pub open spec fn awaiting_fetch(&self) -> bool {
        !self.is_exhausted() && !self.has_failed() && self.pending().len() == 0
    }

    /// The stream's invariant.
    pub closed spec fn wf(&self) -> bool {
        &&& self.seen@ == self.emitted_gh@ + self.buffer@
        &&& self.seen@ == accepted_all(self.pages_gh@)
        &&& distinct_idents(self.seen@)
        &&& (self.exhausted ==> self.buffer@.len() == 0)
        &&& (self.failed ==> self.buffer@.len() == 0)
        &&& !(self.exhausted && self.failed)
        &&& (self.exhausted ==> self.pages_gh@.len() > 0)
        &&& self.next_page as int == self.pages_gh@.len() + 1
        &&& self.fetched as int == self.pages_gh@.len() + (if self.failed {
            1int
        } else {
            0int
        })
        &&& (forall|i: int|
            0 <= i < self.pages_gh@.len() ==> ((#[trigger] page_accepted(self.pages_gh@, i).len()
                == 0) <==> (self.exhausted && i == self.pages_gh@.len() - 1)))
    }

    /// A fresh stream: nothing fetched, nothing emitted, page 1 up next.
    pub fn new() -> (s: Self)
        ensures
            s.wf(),
            s.emitted() == Seq::<T>::empty(),
            s.pending() == Seq::<T>::empty(),
            s.pages() == Seq::<Seq<T>>::empty(),
            s.fetch_count() == 0,
            s.page_to_fetch() == 1,
            !s.is_exhausted(),
            !s.has_failed(),
    {
        let s = PageStream {
            seen: Vec::new(),
            buffer: Vec::new(),
            next_page: 1usize,
            fetched: 0usize,
            exhausted: false,
            failed: false,
            emitted_gh: Ghost(Seq::empty()),
            pages_gh: Ghost(Seq::empty()),
        };
        proof {
            assert(s.seen@ =~= s.emitted_gh@ + s.buffer@);
        }
        s
    }

    /// What the driver should do next. Pulls the next buffered item if one is
    /// there; otherwise asks for a fetch, or reports the terminal state. The
    /// stream's pages, fetch count and terminal flags never change here: in
    /// particular, once exhausted or failed, no further fetch is ever
    /// requested.
    pub fn next_step(&mut self) -> (step: Step<T>)
        requires
            old(self).wf(),
        ensures
            final(self).wf(),
            final(self).pages() == old(self).pages(),
            final(self).fetch_count() == old(self).fetch_count(),
            final(self).page_to_fetch() == old(self).page_to_fetch(),
            final(self).is_exhausted() == old(self).is_exhausted(),
            final(self).has_failed() == old(self).has_failed(),
            (match step {
                Step::Item(it) => {
                    &&& !old(self).has_failed()
                    &&& old(self).pending().len() > 0
                    &&& it == old(self).pending()[0]
                    &&& final(self).emitted() == old(self).emitted().push(old(self).pending()[0])
                    &&& final(self).pending() == old(self).pending().skip(1)
                },
                Step::Fetch(p) => {
                    &&& !old(self).has_failed()
                    &&& !old(self).is_exhausted()
                    &&& old(self).pending().len() == 0
                    &&& p as int == old(self).page_to_fetch()
                    &&& final(self).emitted() == old(self).emitted()
                    &&& final(self).pending() == old(self).pending()
                },
                Step::Done => {
                    &&& !old(self).has_failed()
                    &&& old(self).is_exhausted()
                    &&& final(self).emitted() == old(self).emitted()
                    &&& final(self).pending() == old(self).pending()
                },
                Step::Failed => {
                    &&& old(self).has_failed()
                    &&& final(self).emitted() == old(self).emitted()
                    &&& final(self).pending() == old(self).pending()
                },
            }),
    {
        if self.failed {
            Step::Failed
        } else if self.buffer.len() > 0 {
            let it = self.buffer.remove(0);
            proof {
                assert(self.emitted_gh@.push(it) + self.buffer@ =~= self.seen@);
            }
            self.emitted_gh = Ghost(self.emitted_gh@.push(it));
            proof {
                assert(self.buffer@ =~= old(self).buffer@.skip(1));
            }
            Step::Item(it)
        } else if self.exhausted {
            Step::Done
        } else {
            Step::Fetch(self.next_page)
        }
    }

    /// Accepts the batch the driver fetched for the requested page: items
    /// whose identity was already seen are dropped, the rest are queued for
    /// emission in batch order and their identities recorded. A batch that
    /// contributes no new item exhausts the stream — the sole termination
    /// condition.
    pub fn on_page(&mut self, batch: Vec<T>)
        requires
            old(self).wf(),
            old(self).awaiting_fetch(),
            old(self).page_to_fetch() < usize::MAX as int,
        ensures
            final(self).wf(),
            final(self).pages() == old(self).pages().push(batch@),
            final(self).emitted() == old(self).emitted(),
            final(self).pending() == accept_batch(old(self).accepted(), batch@),
            final(self).page_to_fetch() == old(self).page_to_fetch() + 1,
            final(self).fetch_count() == old(self).fetch_count() + 1,
            !final(self).has_failed(),
            final(self).is_exhausted() == (accept_batch(old(self).accepted(), batch@).len() == 0),
    {
        let ghost seen0 = self.seen@;
        let ghost batch0 = batch@;
        let ghost pages0 = self.pages_gh@;
        proof {
            assert(self.emitted_gh@ + self.buffer@ =~= self.emitted_gh@);
            assert(seen0 == old(self).accepted());
        }
        let mut batch = batch;
        let mut fresh: Vec<T> = Vec::new();
        while batch.len() > 0
            invariant
                self.seen@ == seen0,
                accept_batch(seen0, batch0) == fresh@ + accept_batch(seen0 + fresh@, batch@),
            decreases batch@.len(),
        {
            let ghost pre = batch@;
            let x = batch.remove(0);
            proof {
                assert(batch@ =~= pre.skip(1));
            }
            let dup_seen = contains_dup(&self.seen, &x);
            let dup_fresh = contains_dup(&fresh, &x);
            proof {
                lemma_contains_split(seen0, fresh@, x);
            }
            if dup_seen || dup_fresh {
                assert(accept_batch(seen0 + fresh@, pre) == accept_batch(seen0 + fresh@, pre.skip(1)));
            } else {
                let ghost fr0 = fresh@;
                proof {
                    assert(accept_batch(seen0 + fr0, pre) == seq![x] + accept_batch(
                        (seen0 + fr0).push(x),
                        pre.skip(1),
                    ));
                    assert((seen0 + fr0).push(x) =~= seen0 + fr0.push(x));
                    assert(fr0 + (seq![x] + accept_batch(seen0 + fr0.push(x), pre.skip(1)))
                        =~= fr0.push(x) + accept_batch(seen0 + fr0.push(x), pre.skip(1)));
                }
                fresh.push(x);
            }
        }
        proof {
            assert(accept_batch(seen0 + fresh@, batch@) =~= Seq::<T>::empty());
            assert(fresh@ + accept_batch(seen0 + fresh@, batch@) =~= fresh@);
            assert(accept_batch(seen0, batch0) == fresh@);
        }
        let mut dups: Vec<T> = Vec::new();
        let mut k: usize = 0;
        while k < fresh.len()
            invariant
                0 <= k <= fresh@.len(),
                dups@ == fresh@.take(k as int),
            decreases fresh@.len() - k,
        {
            let d = fresh[k].duplicate();
            dups.push(d);
            proof {
                assert(fresh@.take(k + 1) =~= fresh@.take(k as int).push(fresh@[k as int]));
            }
            k = k + 1;
        }
        proof {
            assert(dups@ =~= fresh@);
        }
        self.seen.append(&mut dups);
        let fresh_empty = fresh.len() == 0;
        self.buffer = fresh;
        self.next_page = self.next_page + 1;
        self.fetched = self.fetched + 1;
        if fresh_empty {
            self.exhausted = true;
        }
        self.pages_gh = Ghost(pages0.push(batch0));
        proof {
            let pages1 = pages0.push(batch0);
            assert(pages1.drop_last() =~= pages0);
            assert(pages1.last() == batch0);
            assert(accepted_all(pages1) == accepted_all(pages0) + accept_batch(
                accepted_all(pages0),
                batch0,
            ));
            assert(self.seen@ == accepted_all(pages1));
            lemma_accept_batch_distinct(seen0, batch0);
            assert(self.emitted_gh@ + self.buffer@ =~= self.seen@);
            assert forall|i: int|
                0 <= i < pages1.len() implies ((#[trigger] page_accepted(pages1, i).len() == 0)
                <==> (self.exhausted && i == pages1.len() - 1)) by {
                if i < pages0.len() {
                    assert(pages1.take(i) =~= pages0.take(i));
                    assert(pages1[i] == pages0[i]);
                    assert(page_accepted(pages1, i) == page_accepted(pages0, i));
                    assert(page_accepted(pages0, i).len() > 0);
                } else {
                    assert(pages1.take(i) =~= pages0);
                    assert(pages1[i] == batch0);
                    assert(page_accepted(pages1, i) == accept_batch(seen0, batch0));
                }
            }
        }
    }

    /// Records that the fetch the driver attempted failed. The failure is
    /// terminal: the stream never advances to a further page. The driver
    /// surfaces the error itself to the consumer whose pull triggered the
    /// fetch.
    pub fn on_fetch_error(&mut self)
        requires
            old(self).wf(),
            old(self).awaiting_fetch(),
        ensures
            final(self).wf(),
            final(self).has_failed(),
            !final(self).is_exhausted(),
            final(self).emitted() == old(self).emitted(),
            final(self).pending() == old(self).pending(),
            final(self).pages() == old(self).pages(),
            final(self).page_to_fetch() == old(self).page_to_fetch(),
            final(self).fetch_count() == old(self).fetch_count() + 1,
    {
        self.failed = true;
        self.fetched = self.fetched + 1;
    }
}

/// No duplicates: the emitted sequence never holds two items with the same
/// identity, however the pages overlapped.
pub proof fn lemma_no_duplicate_emissions<T: DedupIdent>(s: &PageStream<T>, i: int, j: int)
    requires
        s.wf(),
        0 <= i < j < s.emitted().len(),
    ensures
        !s.emitted()[i].same_ident(s.emitted()[j]),
{
    assert(s.emitted()[i] == (s.emitted() + s.pending())[i]);
    assert(s.emitted()[j] == (s.emitted() + s.pending())[j]);
}

/// Order preservation: the emitted items, followed by the still-buffered
/// ones, are exactly the per-page accepted items in page order — so all of
/// page `N`'s contribution is emitted before any of page `N + 1`'s, and each
/// page's items keep their relative order.
pub proof fn lemma_order_preserved<T: DedupIdent>(s: &PageStream<T>)
    requires
        s.wf(),
    ensures
        s.emitted() + s.pending() == accepted_all(s.pages()),
        s.emitted() == accepted_all(s.pages()).take(s.emitted().len() as int),
{
    assert(s.emitted() =~= (s.emitted() + s.pending()).take(s.emitted().len() as int));
}

/// Whether `a` is `b` with zero or more elements left out, order kept.
pub open spec fn is_subseq_of<T>(a: Seq<T>, b: Seq<T>) -> bool
    decreases b.len(),
{
    if a.len() == 0 {
        true
    } else if b.len() == 0 {
        false
    } else {
        (a[0] == b[0] && is_subseq_of(a.skip(1), b.skip(1))) || is_subseq_of(a, b.skip(1))
    }
}

/// Within a page, relative order is preserved: a page's contribution is its
/// batch with the duplicates left out and nothing reordered.
pub proof fn lemma_within_page_order<T: DedupIdent>(seen: Seq<T>, batch: Seq<T>)
    ensures
        is_subseq_of(accept_batch(seen, batch), batch),
    decreases batch.len(),
{
    if batch.len() == 0 {
    } else if contains_ident(seen, batch[0]) {
        lemma_within_page_order(seen, batch.skip(1));
    } else {
        lemma_within_page_order(seen.push(batch[0]), batch.skip(1));
        let a = accept_batch(seen, batch);
        assert(a[0] == batch[0]);
        assert(a.skip(1) =~= accept_batch(seen.push(batch[0]), batch.skip(1)));
    }
}

/// The accepted items decompose page by page: each page appends exactly its
/// own contribution, in page order.
pub proof fn lemma_pages_in_order<T: DedupIdent>(pages: Seq<Seq<T>>, i: int)
    requires
        0 <= i < pages.len(),
    ensures
        accepted_all(pages.take(i + 1)) == accepted_all(pages.take(i)) + page_accepted(pages, i),
{
    let p = pages.take(i + 1);
    assert(p.drop_last() =~= pages.take(i));
    assert(p.last() == pages[i]);
}

/// Termination: once exhausted, nothing is left to emit and everything
/// accepted has been emitted; `next_step` then answers `Done` and never asks
/// for another fetch.
pub proof fn lemma_termination<T: DedupIdent>(s: &PageStream<T>)
    requires
        s.wf(),
        s.is_exhausted(),
    ensures
        s.pending().len() == 0,
        s.emitted() == accepted_all(s.pages()),
{
    assert(s.emitted() =~= s.emitted() + s.pending());
}

/// Fetch count: a stream that saw `k` pages with new items and then one
/// without has fetched exactly `k + 1` times — and, by `next_step`'s
/// contract, never fetches again, however many more items are pulled.
pub proof fn lemma_fetch_count<T: DedupIdent>(s: &PageStream<T>)
    requires
        s.wf(),
        s.is_exhausted(),
    ensures
        s.pages().len() >= 1,
        s.fetch_count() == s.pages().len(),
        page_accepted(s.pages(), s.pages().len() - 1).len() == 0,
        forall|i: int|
            0 <= i < s.pages().len() - 1 ==> #[trigger] page_accepted(s.pages(), i).len() > 0,
{
}

/// The identity relation every stream deduplicates by is deterministic — a
/// function of the two items alone — and symmetric.
pub proof fn lemma_identity_symmetric<T: DedupIdent>(a: T, b: T)
    ensures
        a.same_ident(b) == b.same_ident(a),
{
    T::lemma_same_ident_symmetric(a, b);
}

} // verus!

use vstd::prelude::*;

use crate::error::{SerpError, SerpResult};
use crate::query::{QueryView, SearchQueryBuilder};
use core::time::Duration;

verus! {

/// Message of the error returned for a page size outside 1..=100.
pub const PAGE_SIZE_RANGE_MESSAGE: &'static str = "page_size must be between 1 and 100";

/// Results per page of the default configuration.
pub const DEFAULT_PAGE_SIZE: u32 = 10;

/// Page budget of the default configuration.
pub const DEFAULT_MAX_PAGES: usize = 10;

/// Pause between pages of the default configuration, in milliseconds.
pub const DEFAULT_DELAY_MS: u64 = 100;

/// Number of distinct offsets a query can carry.
pub const OFFSET_MODULUS: u128 = 0x1_0000_0000;

/// Relies on Duration::from_millis, which builds a duration of that many
/// milliseconds and never fails.
pub assume_specification[ core::time::Duration::from_millis ](millis: u64) -> Duration;

/// How a paginated search walks through the results.
#[derive(Clone, Copy, Debug)]
pub struct StreamConfig {
    /// Results per page; valid values lie in 1..=100.
    pub page_size: u32,
    /// Largest number of pages fetched.
    pub max_pages: usize,
    /// Pause before every page but the first.
    pub delay_between_requests: Duration,
}

impl StreamConfig {
    /// The default configuration: ten pages of ten results, 100 ms apart.
    pub fn new() -> (r: StreamConfig)
        ensures
            r.page_size == DEFAULT_PAGE_SIZE,
            r.max_pages == DEFAULT_MAX_PAGES,
    {
        StreamConfig {
            page_size: DEFAULT_PAGE_SIZE,
            max_pages: DEFAULT_MAX_PAGES,
            delay_between_requests: Duration::from_millis(DEFAULT_DELAY_MS),
        }
    }

    /// Sets the number of results per page, which must lie in 1..=100.
    pub fn page_size(self, size: u32) -> (r: SerpResult<StreamConfig>)
        ensures
            r is Ok <==> 1 <= size <= 100,
            r matches Ok(c) ==> c == (StreamConfig { page_size: size, ..self }),
            r matches Err(e) ==> e matches SerpError::InvalidParameter(m) && m@ == PAGE_SIZE_RANGE_MESSAGE@,
    {
        if size == 0 || size > 100 {
            return Err(SerpError::InvalidParameter(String::from_str(PAGE_SIZE_RANGE_MESSAGE)));
        }
        Ok(StreamConfig { page_size: size, ..self })
    }

    /// Sets the largest number of pages fetched.
    pub fn max_pages(self, pages: usize) -> (r: StreamConfig)
        ensures
            r == (StreamConfig { max_pages: pages, ..self }),
    {
        StreamConfig { max_pages: pages, ..self }
    }

    /// Sets the pause before every page but the first.
    pub fn delay(self, delay: Duration) -> (r: StreamConfig)
        ensures
            r == (StreamConfig { delay_between_requests: delay, ..self }),
    {
        StreamConfig { delay_between_requests: delay, ..self }
    }
}

impl Default for StreamConfig {
    fn default() -> (r: StreamConfig)
        ensures
            r.page_size == DEFAULT_PAGE_SIZE,
            r.max_pages == DEFAULT_MAX_PAGES,
    {
        StreamConfig::new()
    }
}

/// The offset of page `page` when pages hold `page_size` results, as the
/// 32-bit offset parameter carries it.
pub open spec fn page_offset(page_size: u32, page: nat) -> u32 {
    ((page * page_size) % (OFFSET_MODULUS as int)) as u32
}

/// The query sent for page `page`: the base query with its result count set
/// to the page size (kept as it was when the page size is out of range) and
/// its offset set to `page * page_size`.
pub open spec fn page_view(base: QueryView, page_size: u32, page: nat) -> QueryView {
    QueryView {
        num: if 1 <= page_size <= 100 { Some(page_size) } else { base.num },
        start: Some(page_offset(page_size, page)),
        ..base
    }
}

/// The query for page `page` of a paginated search over `base`.
pub fn page_query(base: &SearchQueryBuilder, page_size: u32, page: usize) -> (r: SearchQueryBuilder)
    ensures
        r@ == page_view(base@, page_size, page as nat),
{
    let sized = match base.duplicate().limit(page_size) {
        Ok(b) => b,
        Err(_) => base.duplicate(),
    };
    let wide_page: u128 = page as u128;
    let wide_size: u128 = page_size as u128;
    assert(wide_page * wide_size <= 0xffff_ffff_ffff_ffff * 0xffff_ffff) by (nonlinear_arith)
        requires
            wide_page <= 0xffff_ffff_ffff_ffff,
            wide_size <= 0xffff_ffff,
    ;
    let offset: u128 = wide_page * wide_size % OFFSET_MODULUS;
    sized.offset(offset as u32)
}

/// Why a paginated search ended.
#[derive(PartialEq, Eq, Structural, Clone, Copy, Debug)]
pub enum StopReason {
    /// The page budget was used up.
    Exhausted,
    /// The caller's predicate matched the last page.
    PredicateMatched,
    /// The last page could not be fetched.
    Failed,
}

/// Whether a paginated search goes on.
#[derive(PartialEq, Eq, Structural, Clone, Copy, Debug)]
pub enum StreamState {
    /// More pages may follow.
    Running,
    /// No page follows.
    Stopped(StopReason),
}

/// The state after page `page` was fetched: the budget ends the search
/// first, then a failure, then a match of the caller's predicate.
pub open spec fn state_after(max_pages: nat, page: nat, succeeded: bool, matched: bool) -> StreamState {
    if page + 1 >= max_pages {
        StreamState::Stopped(StopReason::Exhausted)
    } else if !succeeded {
        StreamState::Stopped(StopReason::Failed)
    } else if matched {
        StreamState::Stopped(StopReason::PredicateMatched)
    } else {
        StreamState::Running
    }
}

/// The next page to fetch.
pub struct PageRequest {
    /// Index of the page, from zero.
    pub page: usize,
    /// The query to send for it.
    pub query: SearchQueryBuilder,
    /// The pause to take before sending it, if any.
    pub pause: Option<Duration>,
}

/// Walks a paginated search forward, one page at a time.
///
/// The caller asks for the next request, fetches it, emits the fetched page
/// and reports back whether it succeeded and whether its own stop predicate
/// matched it.
pub struct Paginator {
    base: SearchQueryBuilder,
    config: StreamConfig,
    page: usize,
    state: StreamState,
}

impl Paginator {
    /// The query every page is derived from.
    pub closed spec fn base(&self) -> QueryView {
        self.base@
    }

    /// The configuration of the search.
    pub closed spec fn config(&self) -> StreamConfig {
        self.config
    }

    /// Number of pages fetched so far, which is the index of the next one.
    pub closed spec fn page_index(&self) -> nat {
        self.page as nat
    }

    /// Whether the search goes on.
    pub closed spec fn state(&self) -> StreamState {
        self.state
    }

    /// The pager is consistent: it never goes past its page budget.
    pub closed spec fn wf(&self) -> bool {
        &&& self.page <= self.config.max_pages
        &&& self.state is Running ==> self.page < self.config.max_pages
    }

    /// A search over `base` that has fetched nothing yet; with a budget of
    /// zero pages it is over before it starts.
    pub fn new(base: SearchQueryBuilder, config: StreamConfig) -> (r: Paginator)
        ensures
            r.wf(),
            r.base() == base@,
            r.config() == config,
            r.page_index() == 0,
            r.state() == if config.max_pages == 0 {
                StreamState::Stopped(StopReason::Exhausted)
            } else {
                StreamState::Running
            },
    {
        let state = if config.max_pages == 0 {
            StreamState::Stopped(StopReason::Exhausted)
        } else {
            StreamState::Running
        };
        Paginator { base, config, page: 0, state }
    }

    /// The state of the search.
    pub fn current_state(&self) -> (r: StreamState)
        ensures
            r == self.state(),
    {
        self.state
    }

    /// The next page to fetch, or `None` once the search has stopped. Page
    /// `k` is the base query with the page size as result count and
    /// `k * page_size` as offset; every page but the first is preceded by
    /// the configured pause.
    pub fn next_request(&self) -> (r: Option<PageRequest>)
        requires
            self.wf(),
        ensures
            r is Some <==> self.state() is Running,
            r matches Some(req) ==> {
                &&& req.page == self.page_index()
                &&& req.page < self.config().max_pages
                &&& req.query@ == page_view(self.base(), self.config().page_size, self.page_index())
                &&& req.pause == if self.page_index() == 0 {
                    None
                } else {
                    Some(self.config().delay_between_requests)
                }
            },
    {
        match self.state {
            StreamState::Running => {
                let pause = if self.page == 0 {
                    None
                } else {
                    Some(self.config.delay_between_requests)
                };
                Some(
                    PageRequest {
                        page: self.page,
                        query: page_query(&self.base, self.config.page_size, self.page),
                        pause,
                    },
                )
            },
            StreamState::Stopped(_) => None,
        }
    }

    /// Records the outcome of the page last requested: whether it was
    /// fetched, and whether the caller's predicate matched it (which is only
    /// asked of fetched pages). Nothing changes once the search has stopped.
    pub fn record(&mut self, succeeded: bool, matched: bool)
        requires
            old(self).wf(),
        ensures
            final(self).wf(),
            final(self).base() == old(self).base(),
            final(self).config() == old(self).config(),
            old(self).state() is Running ==> {
                &&& final(self).page_index() == old(self).page_index() + 1
                &&& final(self).state() == state_after(
                    old(self).config().max_pages as nat,
                    old(self).page_index(),
                    succeeded,
                    matched,
                )
            },
            !(old(self).state() is Running) ==> *final(self) == *old(self),
    {
        match self.state {
            StreamState::Running => {
                let k = self.page;
                self.page = k + 1;
                self.state = if k + 1 >= self.config.max_pages {
                    StreamState::Stopped(StopReason::Exhausted)
                } else if !succeeded {
                    StreamState::Stopped(StopReason::Failed)
                } else if matched {
                    StreamState::Stopped(StopReason::PredicateMatched)
                } else {
                    StreamState::Running
                };
            },
            StreamState::Stopped(_) => {},
        }
    }
}

/// The items one fetched page contributes in flattened mode: its results in
/// order, none for a page without a result list, and a single error for a
/// page that failed.
pub open spec fn page_items<T>(fetched: Result<Option<Seq<T>>, SerpError>) -> Seq<Result<T, SerpError>> {
    match fetched {
        Ok(Some(items)) => items.map_values(|x: T| Ok::<T, SerpError>(x)),
        Ok(None) => Seq::empty(),
        Err(e) => seq![Err(e)],
    }
}

/// The items of one fetched page, one by one.
pub fn flatten_page<T>(fetched: Result<Option<Vec<T>>, SerpError>) -> (r: Vec<Result<T, SerpError>>)
    ensures
        r@ == page_items(
            match fetched {
                Ok(Some(v)) => Ok(Some(v@)),
                Ok(None) => Ok(None),
                Err(e) => Err(e),
            },
        ),
{
    match fetched {
        Ok(Some(v)) => {
            let ghost src = v@;
            let mut out: Vec<Result<T, SerpError>> = Vec::new();
            for x in it: v.into_iter()
                invariant
                    it.seq() == src,
                    out@ == src.take(it.index() as int).map_values(|y: T| Ok::<T, SerpError>(y)),
            {
                proof {
                    assert(src.take(it.index() + 1) == src.take(it.index() as int).push(x));
                }
                out.push(Ok(x));
                assert(out@ =~= src.take(it.index() + 1).map_values(|y: T| Ok::<T, SerpError>(y)));
            }
            assert(src.take(src.len() as int) =~= src);
            out
        },
        Ok(None) => Vec::new(),
        Err(e) => {
            let mut out: Vec<Result<T, SerpError>> = Vec::new();
            out.push(Err(e));
            assert(out@ =~= seq![Err::<T, SerpError>(e)]);
            out
        },
    }
}

/// Drains flattened items into one list, in order, or returns the first
/// error among them.
pub fn collect_items<T>(items: Vec<Result<T, SerpError>>) -> (r: Result<Vec<T>, SerpError>)
    ensures
        r is Ok <==> forall|i: int| 0 <= i < items@.len() ==> #[trigger] items@[i] is Ok,
        r matches Ok(v) ==> v@.len() == items@.len() && forall|i: int|
            0 <= i < items@.len() ==> items@[i] == Ok::<T, SerpError>(#[trigger] v@[i]),
        r matches Err(e) ==> exists|i: int|
            0 <= i < items@.len() && #[trigger] items@[i] == Err::<T, SerpError>(e) && forall|j: int|
                0 <= j < i ==> #[trigger] items@[j] is Ok,
{
    let ghost src = items@;
    let mut out: Vec<T> = Vec::new();
    for x in it: items.into_iter()
        invariant
            it.seq() == src,
            out@.len() == it.index(),
            forall|j: int| 0 <= j < it.index() ==> src[j] == Ok::<T, SerpError>(#[trigger] out@[j]),
    {
        match x {
            Ok(v) => {
                out.push(v);
            },
            Err(e) => {
                assert(src[it.index() as int] == Err::<T, SerpError>(e));
                assert forall|j: int| 0 <= j < it.index() implies #[trigger] src[j] is Ok by {
                    assert(src[j] == Ok::<T, SerpError>(out@[j]));
                }
                return Err(e);
            },
        }
    }
    assert(forall|i: int| 0 <= i < src.len() ==> #[trigger] src[i] is Ok) by {
        assert forall|i: int| 0 <= i < src.len() implies #[trigger] src[i] is Ok by {
            assert(src[i] == Ok::<T, SerpError>(out@[i]));
        }
    }
    Ok(out)
}

/// Whatever result count the base query carries, the request for every
/// page, the first included, carries the configured page size instead.
pub proof fn lemma_page_count_override(base: QueryView, count: u32, page_size: u32, page: nat)
    requires
        base.num == Some(count),
        1 <= page_size <= 100,
    ensures
        page_view(base, page_size, page).num == Some(page_size),
{
}

/// Page `k` starts at offset `k * page_size`, so consecutive pages never
/// overlap, while the offset fits its 32-bit parameter.
pub proof fn lemma_page_offsets(base: QueryView, page_size: u32, page: nat)
    requires
        (page + 1) * page_size < OFFSET_MODULUS,
    ensures
        page_view(base, page_size, page).start == Some((page * page_size) as u32),
        page_view(base, page_size, page + 1).start == Some(((page + 1) * page_size) as u32),
{
    assert(page * page_size <= (page + 1) * page_size) by (nonlinear_arith);
}

/// Number of pages a search with a budget of `max_pages` pages fetches,
/// counting from page `from`, when page `k` is fetched with outcome
/// `outcomes[k]`: whether it succeeded and whether the predicate matched it.
/// In page mode each fetched page is emitted exactly once, so this is also
/// the number of emitted items.
pub open spec fn pages_fetched(max_pages: nat, outcomes: Seq<(bool, bool)>, from: nat) -> nat
    decreases max_pages - from,
{
    if from >= max_pages {
        from
    } else if from < outcomes.len() && state_after(
        max_pages,
        from,
        outcomes[from as int].0,
        outcomes[from as int].1,
    ) is Running {
        pages_fetched(max_pages, outcomes, from + 1)
    } else {
        from + 1
    }
}

/// A search never fetches more pages than its budget.
pub proof fn lemma_page_budget(max_pages: nat, outcomes: Seq<(bool, bool)>)
    ensures
        pages_fetched(max_pages, outcomes, 0) <= max_pages,
{
    lemma_page_budget_from(max_pages, outcomes, 0);
}

proof fn lemma_page_budget_from(max_pages: nat, outcomes: Seq<(bool, bool)>, from: nat)
    requires
        from <= max_pages,
    ensures
        from <= pages_fetched(max_pages, outcomes, from) <= max_pages,
    decreases max_pages - from,
{
    if from < max_pages && from < outcomes.len() && state_after(
        max_pages,
        from,
        outcomes[from as int].0,
        outcomes[from as int].1,
    ) is Running {
        lemma_page_budget_from(max_pages, outcomes, from + 1);
    }
}

/// When pages before `k` succeed without matching, the search reaches page
/// `k`; it then fetches exactly `k + 1` pages if page `k` fails, or if the
/// predicate matches it: no later page is fetched.
pub proof fn lemma_first_stop(max_pages: nat, outcomes: Seq<(bool, bool)>, k: nat)
    requires
        k < max_pages,
        k < outcomes.len(),
        forall|j: int| 0 <= j < k ==> #[trigger] outcomes[j] == (true, false),
        !outcomes[k as int].0 || outcomes[k as int].1,
    ensures
        pages_fetched(max_pages, outcomes, 0) == k + 1,
{
    lemma_first_stop_from(max_pages, outcomes, k, 0);
}

proof fn lemma_first_stop_from(max_pages: nat, outcomes: Seq<(bool, bool)>, k: nat, from: nat)
    requires
        from <= k < max_pages,
        k < outcomes.len(),
        forall|j: int| 0 <= j < k ==> #[trigger] outcomes[j] == (true, false),
        !outcomes[k as int].0 || outcomes[k as int].1,
    ensures
        pages_fetched(max_pages, outcomes, from) == k + 1,
    decreases k - from,
{
    if from < k {
        assert(outcomes[from as int] == (true, false));
        lemma_first_stop_from(max_pages, outcomes, k, from + 1);
    }
}

} // verus!

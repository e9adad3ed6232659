//! Pagination over AiSEG2 list pages.
//!
//! Fetching a page is asynchronous outside work; a `PageCollection` decides which page to fetch
//! next, what to keep of each parsed page, and when to stop.
use crate::error::{AisegError, ParseError};
use crate::model::metrics::PowerStatusBreakdownMetric;
use vstd::prelude::*;

verus! {

/// Configuration for pagination behavior.
#[derive(Debug, Clone, Copy, PartialEq, Eq, Structural)]
pub struct PaginationConfig {
    /// Maximum number of pages to fetch
    pub max_pages: usize,
    /// Starting page number (usually 1)
    pub start_page: usize,
}

impl Default for PaginationConfig {
    /// Twenty pages, from page 1.
    fn default() -> (r: Self)
        ensures
            r.max_pages == 20,
            r.start_page == 1,
    {
        PaginationConfig { max_pages: 20, start_page: 1 }
    }
}

/// Items that can be collected across pages.
pub trait PageItem {
    /// The key that identifies the item when detecting that pagination has wrapped around.
    spec fn spec_dedup_key(&self) -> Seq<char>;

    /// The key that identifies the item when detecting that pagination has wrapped around.
    fn dedup_key(&self) -> (r: String)
        ensures
            r@ == self.spec_dedup_key(),
    ;
}

impl PageItem for PowerStatusBreakdownMetric {
    /// A consumption entry is identified by its device name.
    open spec fn spec_dedup_key(&self) -> Seq<char> {
        self.name@
    }

    fn dedup_key(&self) -> (r: String) {
        self.name.clone()
    }
}

/// The dedup keys of the items of a page, in order.
pub open spec fn page_keys<T: PageItem>(items: Seq<T>) -> Seq<Seq<char>> {
    items.map_values(|t: T| t.spec_dedup_key())
}

/// Where a collection across pages stands: the page to fetch next, how many pages may still be
/// fetched, whether it has stopped, the keys of the page kept last and the items kept so far.
pub struct PageRun<T> {
    pub next: int,
    pub remaining: int,
    pub finished: bool,
    pub last_keys: Seq<Seq<char>>,
    pub items: Seq<T>,
}

/// Whether a page is still to be fetched.
pub open spec fn run_pending<T>(r: PageRun<T>) -> bool {
    !r.finished && r.remaining > 0
}

/// Whether what parsing a page gave (`None` for a failure) stops the collection: a failure, an
/// empty page, or a page with the same keys in the same order as the page kept last.
pub open spec fn page_stops<T: PageItem>(r: PageRun<T>, parsed: Option<Seq<T>>) -> bool {
    match parsed {
        None => true,
        Some(p) => p.len() == 0 || (r.last_keys.len() != 0 && page_keys(p) == r.last_keys),
    }
}

/// The collection after what parsing its next page gave: stopped, keeping nothing of the page, or
/// with the page's items kept and one page fewer left to fetch.
pub open spec fn accepted<T: PageItem>(r: PageRun<T>, parsed: Option<Seq<T>>) -> PageRun<T> {
    if page_stops(r, parsed) {
        PageRun { finished: true, ..r }
    } else {
        let p = parsed->Some_0;
        PageRun {
            next: if r.remaining > 1 {
                r.next + 1
            } else {
                r.next
            },
            remaining: r.remaining - 1,
            finished: false,
            last_keys: page_keys(p),
            items: r.items + p,
        }
    }
}

/// A parse outcome taken as the page's items, `None` for a failure.
pub open spec fn parsed_items<T, E>(parsed: Result<Vec<T>, E>) -> Option<Seq<T>> {
    match parsed {
        Ok(v) => Some(v@),
        Err(_) => None,
    }
}

/// The progress of collecting items across pages.
pub struct PageCollection<T> {
    next: usize,
    remaining: usize,
    finished: bool,
    last_keys: Vec<String>,
    items: Vec<T>,
}

impl<T> PageCollection<T> {
    /// Page numbers up to the last one that may be fetched fit in a `usize`.
    #[verifier::type_invariant]
    closed spec fn page_numbers_fit(self) -> bool {
        self.next + self.remaining <= usize::MAX + 1
    }
}

impl<T: PageItem> PageCollection<T> {
    /// Where the collection stands.
    pub closed spec fn spec_run(self) -> PageRun<T> {
        PageRun {
            next: self.next as int,
            remaining: self.remaining as int,
            finished: self.finished,
            last_keys: self.last_keys@.map_values(|s: String| s@),
            items: self.items@,
        }
    }

    /// Whether a page is still to be fetched.
    pub open spec fn spec_pending(self) -> bool {
        run_pending(self.spec_run())
    }

    /// Starts collecting at page `config.start_page`, fetching at most `config.max_pages` pages:
    /// `start_page` to `start_page + max_pages - 1`.
    pub fn new(config: PaginationConfig) -> (r: Self)
        requires
            config.start_page + config.max_pages <= usize::MAX + 1,
        ensures
            r.spec_run() == (PageRun::<T> {
                next: config.start_page as int,
                remaining: config.max_pages as int,
                finished: false,
                last_keys: Seq::empty(),
                items: Seq::empty(),
            }),
    {
        let r = PageCollection {
            next: config.start_page,
            remaining: config.max_pages,
            finished: false,
            last_keys: Vec::new(),
            items: Vec::new(),
        };
        proof {
            assert(r.spec_run().last_keys =~= Seq::<Seq<char>>::empty());
        }
        r
    }

    /// The page to fetch next, or `None` when collection is over.
    pub fn next_page(&self) -> (r: Option<usize>)
        ensures
            self.spec_pending() ==> r == Some(self.spec_run().next as usize),
            !self.spec_pending() ==> r is None,
    {
        if !self.finished && self.remaining > 0 {
            Some(self.next)
        } else {
            None
        }
    }

    /// Records what parsing the fetched page gave. Collection stops, keeping nothing of the page,
    /// when parsing failed, when the page is empty, or when the page carries the same keys in the
    /// same order as the page kept last (pagination has wrapped around). Otherwise the items are
    /// kept and collection moves on to the next page, unless this was the last page allowed.
    pub fn accept_page<E>(&mut self, parsed: Result<Vec<T>, E>)
        requires
            old(self).spec_pending(),
        ensures
            final(self).spec_run() == accepted(old(self).spec_run(), parsed_items(parsed)),
    {
        proof {
            use_type_invariant(&*self);
        }
        match parsed {
            Err(_) => {
                self.finished = true;
            },
            Ok(page) => {
                if page.len() == 0 {
                    self.finished = true;
                    return ;
                }
                let keys = Self::keys_of(&page);
                if self.last_keys.len() != 0 && Self::same_keys(&self.last_keys, &keys) {
                    self.finished = true;
                    return ;
                }
                let mut page = page;
                let mut items: Vec<T> = Vec::new();
                std::mem::swap(&mut items, &mut self.items);
                items.append(&mut page);
                self.items = items;
                self.last_keys = keys;
                let more = self.remaining > 1;
                self.remaining = self.remaining - 1;
                if more {
                    self.next = self.next + 1;
                }
            },
        }
    }

    /// The items kept, pages in order.
    pub fn into_items(self) -> (r: Vec<T>)
        ensures
            r@ == self.spec_run().items,
    {
        self.items
    }

    /// The dedup keys of the items of a page.
    fn keys_of(page: &Vec<T>) -> (r: Vec<String>)
        ensures
            r@.map_values(|s: String| s@) == page_keys(page@),
    {
        let mut keys: Vec<String> = Vec::new();
        let mut i: usize = 0;
        while i < page.len()
            invariant
                i <= page@.len(),
                keys@.map_values(|s: String| s@) == page_keys(page@.take(i as int)),
            decreases page@.len() - i,
        {
            let k = page[i].dedup_key();
            let ghost before = keys@;
            keys.push(k);
            proof {
                assert(page@.take(i + 1) =~= page@.take(i as int).push(page@[i as int]));
                assert(keys@.map_values(|s: String| s@) =~= before.map_values(|s: String| s@).push(k@));
                assert(page_keys(page@.take(i + 1)) =~= page_keys(page@.take(i as int)).push(page@[i as int].spec_dedup_key()));
            }
            i += 1;
        }
        proof {
            assert(page@.take(page@.len() as int) =~= page@);
        }
        keys
    }

    /// Whether two key lists are equal, entry by entry.
    fn same_keys(a: &Vec<String>, b: &Vec<String>) -> (r: bool)
        ensures
            r == (a@.map_values(|s: String| s@) == b@.map_values(|s: String| s@)),
    {
        if a.len() != b.len() {
            proof {
                assert(a@.map_values(|s: String| s@).len() != b@.map_values(|s: String| s@).len());
            }
            return false;
        }
        let mut i: usize = 0;
        while i < a.len()
            invariant
                a@.len() == b@.len(),
                i <= a@.len(),
                forall|j: int| 0 <= j < i ==> a@[j]@ == b@[j]@,
            decreases a@.len() - i,
        {
            if a[i] != b[i] {
                proof {
                    assert(a@.map_values(|s: String| s@)[i as int] != b@.map_values(|s: String| s@)[i as int]);
                }
                return false;
            }
            i += 1;
        }
        proof {
            assert(a@.map_values(|s: String| s@) =~= b@.map_values(|s: String| s@));
        }
        true
    }
}

/// The page numbers a collection fetches from where it stands, in order, and where it ends, when
/// parsing page `k` gives `pages(k)` (`None` for a failure).
pub open spec fn drive<T: PageItem>(r: PageRun<T>, pages: spec_fn(int) -> Option<Seq<T>>) -> (Seq<int>, PageRun<T>)
    decreases r.remaining + if r.finished {
        0int
    } else {
        1int
    },
    when r.remaining >= 0
{
    if !run_pending(r) {
        (Seq::empty(), r)
    } else {
        let (fetched, end) = drive(accepted(r, pages(r.next)), pages);
        (seq![r.next] + fetched, end)
    }
}

/// Collecting pages `k`, `k + 1`, ... as a plain loop over at most `count` pages would: the pages
/// fetched, in order, and the items gathered, pages in order. A page stops the loop, adding
/// nothing, when parsing it failed, it is empty, or its keys repeat those of the page before
/// (`last`).
pub open spec fn collect_pages<T: PageItem>(
    k: int,
    count: nat,
    last: Seq<Seq<char>>,
    pages: spec_fn(int) -> Option<Seq<T>>,
) -> (Seq<int>, Seq<T>)
    decreases count,
{
    if count == 0 {
        (Seq::empty(), Seq::empty())
    } else {
        match pages(k) {
            None => (seq![k], Seq::empty()),
            Some(p) => if p.len() == 0 || (last.len() != 0 && page_keys(p) == last) {
                (seq![k], Seq::empty())
            } else {
                let (fetched, items) = collect_pages(k + 1, (count - 1) as nat, page_keys(p), pages);
                (seq![k] + fetched, p + items)
            },
        }
    }
}

proof fn lemma_drive_collects<T: PageItem>(r: PageRun<T>, pages: spec_fn(int) -> Option<Seq<T>>)
    requires
        !r.finished,
        r.remaining >= 0,
    ensures
        drive(r, pages).0 == collect_pages(r.next, r.remaining as nat, r.last_keys, pages).0,
        drive(r, pages).1.items == r.items + collect_pages(r.next, r.remaining as nat, r.last_keys, pages).1,
    decreases r.remaining,
{
    let c = collect_pages(r.next, r.remaining as nat, r.last_keys, pages);
    if r.remaining == 0 {
        assert(drive(r, pages) == (Seq::<int>::empty(), r));
        assert(c == (Seq::<int>::empty(), Seq::<T>::empty()));
        assert(r.items + Seq::<T>::empty() =~= r.items);
    } else {
        let r2 = accepted(r, pages(r.next));
        assert(run_pending(r));
        assert(drive(r, pages) == (seq![r.next] + drive(r2, pages).0, drive(r2, pages).1));
        if page_stops(r, pages(r.next)) {
            assert(r2.finished);
            assert(drive(r2, pages) == (Seq::<int>::empty(), r2));
            assert(c == (seq![r.next], Seq::<T>::empty()));
            assert(seq![r.next] + Seq::<int>::empty() =~= seq![r.next]);
            assert(r.items + Seq::<T>::empty() =~= r.items);
        } else {
            let p = pages(r.next)->Some_0;
            let rest = collect_pages(r.next + 1, (r.remaining - 1) as nat, page_keys(p), pages);
            assert(c == (seq![r.next] + rest.0, p + rest.1));
            if r.remaining > 1 {
                assert(r2.next == r.next + 1);
                lemma_drive_collects(r2, pages);
                assert(r.items + p + rest.1 =~= r.items + (p + rest.1));
            } else {
                assert(rest == (Seq::<int>::empty(), Seq::<T>::empty()));
                assert(!run_pending(r2));
                assert(drive(r2, pages) == (Seq::<int>::empty(), r2));
                assert(seq![r.next] + Seq::<int>::empty() =~= seq![r.next]);
                assert(r.items + p + Seq::<T>::empty() =~= r.items + (p + Seq::<T>::empty()));
            }
        }
    }
}

/// A collection started with `config` and driven by `next_page` and `accept_page` fetches the
/// pages `start_page`, `start_page + 1`, ... in order, once each, until a page stops it or
/// `max_pages` pages have been fetched, and ends with the items of the pages before the stop,
/// pages in order.
pub proof fn lemma_page_run<T: PageItem>(config: PaginationConfig, pages: spec_fn(int) -> Option<Seq<T>>)
    ensures
        ({
            let start = PageRun::<T> {
                next: config.start_page as int,
                remaining: config.max_pages as int,
                finished: false,
                last_keys: Seq::empty(),
                items: Seq::empty(),
            };
            let c = collect_pages(config.start_page as int, config.max_pages as nat, Seq::empty(), pages);
            &&& drive(start, pages).0 == c.0
            &&& drive(start, pages).1.items == c.1
        }),
{
    let start = PageRun::<T> {
        next: config.start_page as int,
        remaining: config.max_pages as int,
        finished: false,
        last_keys: Seq::empty(),
        items: Seq::empty(),
    };
    lemma_drive_collects(start, pages);
    let c = collect_pages(config.start_page as int, config.max_pages as nat, Seq::empty(), pages);
    assert(Seq::<T>::empty() + c.1 =~= c.1);
}

/// Without a stopping page, a collection fetches exactly `max_pages` pages: `start_page` to
/// `start_page + max_pages - 1`.
pub proof fn lemma_full_run_fetches_max_pages<T: PageItem>(k: int, count: nat, last: Seq<Seq<char>>, pages: spec_fn(int) -> Option<Seq<T>>)
    requires
        forall|j: int| k <= j < k + count ==> ((#[trigger] pages(j)) matches Some(p) && p.len() > 0),
        count > 0 ==> page_keys(pages(k)->Some_0) != last,
        forall|i: int, j: int|
            k <= i < j < k + count ==> page_keys((#[trigger] pages(i))->Some_0) != page_keys((#[trigger] pages(j))->Some_0),
    ensures
        collect_pages(k, count, last, pages).0 == Seq::new(count, |i: int| k + i),
    decreases count,
{
    if count > 0 {
        let p = pages(k)->Some_0;
        assert(pages(k) matches Some(q) && q.len() > 0);
        assert(page_keys(p) != last);
        lemma_full_run_fetches_max_pages(k + 1, (count - 1) as nat, page_keys(p), pages);
        assert(seq![k] + Seq::new((count - 1) as nat, |i: int| k + 1 + i) =~= Seq::new(count, |i: int| k + i));
    }
}

/// A paginator: its configuration with the functions that fetch a page and parse one.
pub struct Paginator<F, P> {
    config: PaginationConfig,
    fetch_fn: F,
    parse_fn: P,
}

impl<F, P> Paginator<F, P> {
    /// The configuration.
    pub closed spec fn spec_config(self) -> PaginationConfig {
        self.config
    }

    /// The function that fetches a page.
    pub closed spec fn spec_fetch_fn(self) -> F {
        self.fetch_fn
    }

    /// The function that parses a page.
    pub closed spec fn spec_parse_fn(self) -> P {
        self.parse_fn
    }

    /// Creates a new paginator with the given configuration and functions.
    pub fn new(config: PaginationConfig, fetch_fn: F, parse_fn: P) -> (r: Self)
        ensures
            r.spec_config() == config,
            r.spec_fetch_fn() == fetch_fn,
            r.spec_parse_fn() == parse_fn,
    {
        Paginator { config, fetch_fn, parse_fn }
    }

    /// The configuration.
    pub fn config(&self) -> (r: PaginationConfig)
        ensures
            r == self.spec_config(),
    {
        self.config
    }

    /// The function that fetches a page.
    pub fn fetch_fn(&self) -> (r: &F)
        ensures
            *r == self.spec_fetch_fn(),
    {
        &self.fetch_fn
    }

    /// The function that parses a page.
    pub fn parse_fn(&self) -> (r: &P)
        ensures
            *r == self.spec_parse_fn(),
    {
        &self.parse_fn
    }

    /// Starts a collection over the configured pages.
    pub fn start<T: PageItem>(&self) -> (r: PageCollection<T>)
        requires
            self.spec_config().start_page + self.spec_config().max_pages <= usize::MAX + 1,
        ensures
            r.spec_run() == (PageRun::<T> {
                next: self.spec_config().start_page as int,
                remaining: self.spec_config().max_pages as int,
                finished: false,
                last_keys: Seq::empty(),
                items: Seq::empty(),
            }),
    {
        PageCollection::new(self.config)
    }
}

/// Builder for paginators.
pub struct PaginatorBuilder<F, P> {
    config: PaginationConfig,
    fetch_fn: Option<F>,
    parse_fn: Option<P>,
}

impl<F, P> PaginatorBuilder<F, P> {
    /// The configuration so far.
    pub closed spec fn spec_config(self) -> PaginationConfig {
        self.config
    }

    /// The fetch function, if set.
    pub closed spec fn spec_fetch_fn(self) -> Option<F> {
        self.fetch_fn
    }

    /// The parse function, if set.
    pub closed spec fn spec_parse_fn(self) -> Option<P> {
        self.parse_fn
    }

    /// A builder with the default configuration and no functions.
    pub fn new() -> (r: Self)
        ensures
            r.spec_config().max_pages == 20,
            r.spec_config().start_page == 1,
            r.spec_fetch_fn() is None,
            r.spec_parse_fn() is None,
    {
        PaginatorBuilder { config: PaginationConfig::default(), fetch_fn: None, parse_fn: None }
    }

    /// Sets the last page number to fetch.
    pub fn max_pages(self, max_pages: usize) -> (r: Self)
        ensures
            r.spec_config() == (PaginationConfig { max_pages, ..self.spec_config() }),
            r.spec_fetch_fn() == self.spec_fetch_fn(),
            r.spec_parse_fn() == self.spec_parse_fn(),
    {
        PaginatorBuilder { config: PaginationConfig { max_pages, start_page: self.config.start_page }, ..self }
    }

    /// Sets the starting page number.
    pub fn start_page(self, start_page: usize) -> (r: Self)
        ensures
            r.spec_config() == (PaginationConfig { start_page, ..self.spec_config() }),
            r.spec_fetch_fn() == self.spec_fetch_fn(),
            r.spec_parse_fn() == self.spec_parse_fn(),
    {
        PaginatorBuilder { config: PaginationConfig { max_pages: self.config.max_pages, start_page }, ..self }
    }

    /// Sets the function that fetches a page.
    pub fn fetch_with(self, fetch_fn: F) -> (r: Self)
        ensures
            r.spec_config() == self.spec_config(),
            r.spec_fetch_fn() == Some(fetch_fn),
            r.spec_parse_fn() == self.spec_parse_fn(),
    {
        PaginatorBuilder { fetch_fn: Some(fetch_fn), ..self }
    }

    /// Sets the function that parses a page.
    pub fn parse_with(self, parse_fn: P) -> (r: Self)
        ensures
            r.spec_config() == self.spec_config(),
            r.spec_fetch_fn() == self.spec_fetch_fn(),
            r.spec_parse_fn() == Some(parse_fn),
    {
        PaginatorBuilder { parse_fn: Some(parse_fn), ..self }
    }

    /// Builds the paginator; fails when the fetch or the parse function was not set.
    pub fn build(self) -> (r: Result<Paginator<F, P>, AisegError>)
        ensures
            match (self.spec_fetch_fn(), self.spec_parse_fn()) {
                (Some(f), Some(p)) => r matches Ok(pg) && pg.spec_config() == self.spec_config() && pg.spec_fetch_fn()
                    == f && pg.spec_parse_fn() == p,
                (None, _) => r matches Err(AisegError::Parse(ParseError::UnexpectedStructure(m))) && m@
                    == "Fetch function not set"@,
                (Some(_), None) => r matches Err(AisegError::Parse(ParseError::UnexpectedStructure(m))) && m@
                    == "Parse function not set"@,
            },
    {
        match self.fetch_fn {
            None => Err(
                AisegError::Parse(ParseError::UnexpectedStructure(String::from_str("Fetch function not set"))),
            ),
            Some(fetch_fn) => match self.parse_fn {
                None => Err(
                    AisegError::Parse(ParseError::UnexpectedStructure(String::from_str("Parse function not set"))),
                ),
                Some(parse_fn) => Ok(Paginator { config: self.config, fetch_fn, parse_fn }),
            },
        }
    }
}

} // verus!

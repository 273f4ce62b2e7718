use vstd::prelude::*;

verus! {

/// Page number used when a request does not name one.
pub const DEFAULT_PAGE: i64 = 1;

/// Page size used when a request does not name one.
pub const DEFAULT_LIMIT: i64 = 10;

/// Largest page size a request may ask for.
pub const MAX_LIMIT: i64 = 100;

/// Query parameters of a paginated listing.
pub struct PaginationParams {
    pub page: Option<i64>,
    pub limit: Option<i64>,
    pub with_count: bool,
}

/// The page a request asks for, at least 1.
pub open spec fn resolved_page(page: Option<i64>) -> i64 {
    match page {
        Some(p) => if p < 1 { 1 } else { p },
        None => DEFAULT_PAGE,
    }
}

/// The page size a request asks for, clamped into `1..=100`.
pub open spec fn resolved_limit(limit: Option<i64>) -> i64 {
    match limit {
        Some(l) => if l < 1 { 1 } else if l > MAX_LIMIT { MAX_LIMIT } else { l },
        None => DEFAULT_LIMIT,
    }
}

/// Number of items that come before the resolved page.
pub open spec fn resolved_offset(page: Option<i64>, limit: Option<i64>) -> int {
    (resolved_page(page) - 1) * resolved_limit(limit)
}

impl PaginationParams {
    /// Resolves the requested page and page size: missing values take the
    /// defaults, the page is at least 1 and the size lies in `1..=100`.
    pub fn resolve(&self) -> (r: (i64, i64))
        ensures
            r.0 == resolved_page(self.page),
            r.1 == resolved_limit(self.limit),
            1 <= r.0,
            1 <= r.1 <= MAX_LIMIT,
    {
        let page = match self.page {
            Some(p) => if p < 1 { 1 } else { p },
            None => DEFAULT_PAGE,
        };
        let limit = match self.limit {
            Some(l) => if l < 1 { 1 } else if l > MAX_LIMIT { MAX_LIMIT } else { l },
            None => DEFAULT_LIMIT,
        };
        (page, limit)
    }

    /// Number of items to skip to reach the resolved page.
    pub fn offset(&self) -> (r: i64)
        requires
            resolved_offset(self.page, self.limit) <= i64::MAX,
        ensures
            r == resolved_offset(self.page, self.limit),
            r >= 0,
    {
        let (page, limit) = self.resolve();
        assert(0 <= (page - 1) * limit) by (nonlinear_arith)
            requires page >= 1, limit >= 1;
        (page - 1) * limit
    }

    /// The resolved page size.
    pub fn limit(&self) -> (r: i64)
        ensures
            r == resolved_limit(self.limit),
    {
        self.resolve().1
    }

    /// The resolved page number.
    pub fn page(&self) -> (r: i64)
        ensures
            r == resolved_page(self.page),
    {
        self.resolve().0
    }

    /// One more row than the page holds, to learn whether another page follows.
    pub fn fetch_limit(&self) -> (r: i64)
        ensures
            r == resolved_limit(self.limit) + 1,
    {
        self.limit() + 1
    }

    /// Whether the caller asked for the total number of items.
    pub fn include_count(&self) -> (r: bool)
        ensures
            r == self.with_count,
    {
        self.with_count
    }
}

/// The page a request names, or 1; used as given, without clamping.
pub open spec fn requested_page(p: PaginationParams) -> i64 {
    match p.page {
        Some(v) => v,
        None => DEFAULT_PAGE,
    }
}

/// The page size a request names, or 10; used as given, without clamping.
pub open spec fn requested_limit(p: PaginationParams) -> i64 {
    match p.limit {
        Some(v) => v,
        None => DEFAULT_LIMIT,
    }
}

impl PaginationParams {
    /// The page and page size of the request as given: missing values take
    /// the defaults, nothing is clamped.
    pub fn requested(&self) -> (r: (i64, i64))
        ensures
            r.0 == requested_page(*self),
            r.1 == requested_limit(*self),
    {
        let page: i64 = match self.page {
            Some(v) => v,
            None => DEFAULT_PAGE,
        };
        let limit: i64 = match self.limit {
            Some(v) => v,
            None => DEFAULT_LIMIT,
        };
        (page, limit)
    }
}

/// Facts about the window of a page that callers rely on.
pub struct PaginationMeta {
    pub page: i64,
    pub limit: i64,
    pub has_more: bool,
    pub total_items: Option<i64>,
}

/// One page of items together with its description.
pub struct PaginatedResponse<T> {
    pub items: Vec<T>,
    pub meta: PaginationMeta,
}

impl<T> PaginatedResponse<T> {
    /// A page of `items`, without a total count.
    pub fn new(items: Vec<T>, page: i64, limit: i64, has_more: bool) -> (r: Self)
        ensures
            r.items@ == items@,
            r.meta.page == page,
            r.meta.limit == limit,
            r.meta.has_more == has_more,
            r.meta.total_items is None,
    {
        PaginatedResponse {
            items,
            meta: PaginationMeta { page, limit, has_more, total_items: None },
        }
    }

    /// The same page, now carrying the total number of items.
    pub fn with_total(self, total: i64) -> (r: Self)
        ensures
            r.items@ == self.items@,
            r.meta.page == self.meta.page,
            r.meta.limit == self.meta.limit,
            r.meta.has_more == self.meta.has_more,
            r.meta.total_items == Some(total),
    {
        let mut s = self;
        s.meta.total_items = Some(total);
        s
    }
}

/// Consecutive pages of the same size are adjacent windows: page `p + 1`
/// starts exactly where page `p` ends.
pub proof fn lemma_pages_are_adjacent(page: i64, limit: Option<i64>)
    requires
        1 <= page < i64::MAX,
    ensures
        resolved_offset(Some((page + 1) as i64), limit) == resolved_offset(Some(page), limit)
            + resolved_limit(limit),
{
    let l = resolved_limit(limit);
    assert((page + 1 - 1) * l == (page - 1) * l + l) by (nonlinear_arith);
}

/// Distinct pages of the same size never overlap: an item position belongs
/// to at most one page.
pub proof fn lemma_pages_are_disjoint(p1: i64, p2: i64, limit: Option<i64>, pos: int)
    requires
        1 <= p1 < p2,
        resolved_offset(Some(p1), limit) <= pos < resolved_offset(Some(p1), limit)
            + resolved_limit(limit),
    ensures
        !(resolved_offset(Some(p2), limit) <= pos < resolved_offset(Some(p2), limit)
            + resolved_limit(limit)),
{
    let l = resolved_limit(limit);
    assert((p2 - 1) * l >= (p1 - 1) * l + l) by (nonlinear_arith)
        requires p1 < p2, l >= 1;
}

} // verus!

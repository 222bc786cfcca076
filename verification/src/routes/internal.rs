//! Paging of the listings of all bundles and all capture bases.

use vstd::prelude::*;

verus! {

/// The page shown when the request names none.
pub const DEFAULT_PAGE: usize = 1;

/// The page size used when the request names none.
pub const DEFAULT_LIMIT: usize = 100;

/// Query of the listing of all OCA bundles.
pub struct FetchAllOCABundleParams {
    pub page: Option<usize>,
    pub limit: Option<usize>,
}

/// Query of the listing of all capture bases.
pub struct FetchAllCaptureBaseParams {
    pub page: Option<usize>,
    pub limit: Option<usize>,
}

/// The requested value, or the default when none was given.
pub open spec fn or_default(value: Option<usize>, default: usize) -> usize {
    match value {
        Some(v) => v,
        None => default,
    }
}

/// A requested value is used as it is; only a missing one takes the
/// default.
pub proof fn lemma_requested_value_is_used(value: usize, default: usize)
    ensures
        or_default(Some(value), default) == value,
        or_default(None, default) == default,
{
}

impl FetchAllOCABundleParams {
    /// The page to list: the requested one, else the first.
    pub fn page(&self) -> (page: usize)
        ensures
            page == or_default(self.page, DEFAULT_PAGE),
            self.page matches Some(p) ==> page == p,
            self.page is None ==> page == 1,
    {
        match self.page {
            Some(p) => p,
            None => DEFAULT_PAGE,
        }
    }

    /// The page size: the requested one, else 100.
    pub fn limit(&self) -> (limit: usize)
        ensures
            limit == or_default(self.limit, DEFAULT_LIMIT),
            self.limit matches Some(l) ==> limit == l,
            self.limit is None ==> limit == 100,
    {
        match self.limit {
            Some(l) => l,
            None => DEFAULT_LIMIT,
        }
    }
}

impl FetchAllCaptureBaseParams {
    /// The page to list: the requested one, else the first.
    pub fn page(&self) -> (page: usize)
        ensures
            page == or_default(self.page, DEFAULT_PAGE),
            self.page matches Some(p) ==> page == p,
            self.page is None ==> page == 1,
    {
        match self.page {
            Some(p) => p,
            None => DEFAULT_PAGE,
        }
    }

    /// The page size: the requested one, else 100.
    pub fn limit(&self) -> (limit: usize)
        ensures
            limit == or_default(self.limit, DEFAULT_LIMIT),
            self.limit matches Some(l) ==> limit == l,
            self.limit is None ==> limit == 100,
    {
        match self.limit {
            Some(l) => l,
            None => DEFAULT_LIMIT,
        }
    }
}

} // verus!

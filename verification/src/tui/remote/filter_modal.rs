//! The remote query settings: the page size of a listing, kept between 10
//! and 100 in steps of 10.
use vstd::prelude::*;

use crate::remote::{RemoteQuery, same_query};

verus! {

/// Settings edited in the filter modal.
#[derive(Debug, Clone, Copy, Default)]
pub struct FilterState {
    /// Page size.
    pub limit: u32,
}

/// The page size after one increase: 10 more, at most 100.
pub open spec fn increased_limit(limit: u32) -> u32 {
    if limit + 10 <= 100 {
        (limit + 10) as u32
    } else {
        100
    }
}

/// The page size after one decrease: 10 less, at least 10.
pub open spec fn decreased_limit(limit: u32) -> u32 {
    if limit >= 20 {
        (limit - 10) as u32
    } else {
        10
    }
}

impl FilterState {
    /// The settings of `query`.
    pub fn from_query(query: &RemoteQuery) -> (r: FilterState)
        ensures
            r.limit == query.limit,
    {
        FilterState { limit: query.limit }
    }

    /// `base` with these settings applied.
    pub fn to_query(&self, base: &RemoteQuery) -> (r: RemoteQuery)
        ensures
            same_query(r, RemoteQuery { limit: self.limit, ..*base }),
    {
        let mut query = base.clone();
        query.limit = self.limit;
        query
    }

    /// Raises the page size by 10, to at most 100.
    pub fn increase_limit(&mut self)
        requires
            old(self).limit + 10 <= u32::MAX,
        ensures
            final(self).limit == increased_limit(old(self).limit),
    {
        let raised = self.limit + 10;
        self.limit = if raised < 100 {
            raised
        } else {
            100
        };
    }

    /// Lowers the page size by 10, to at least 10.
    pub fn decrease_limit(&mut self)
        ensures
            final(self).limit == decreased_limit(old(self).limit),
    {
        let lowered = self.limit.saturating_sub(10);
        self.limit = if lowered > 10 {
            lowered
        } else {
            10
        };
    }

    /// Whether a filter other than the page size is set: never, as only the
    /// page size can be set.
    pub fn has_active_filters(&self) -> (r: bool)
        ensures
            !r,
    {
        false
    }

    /// Back to the default page size, 100.
    pub fn clear(&mut self)
        ensures
            final(self).limit == 100,
    {
        self.limit = 100;
    }
}

/// Once within 10..=100, the page size stays there whatever is pressed.
pub proof fn lemma_limit_bounds(limit: u32)
    requires
        10 <= limit <= 100,
    ensures
        10 <= increased_limit(limit) <= 100,
        10 <= decreased_limit(limit) <= 100,
{
}

/// Raising then lowering the page size gives it back, below the maximum.
pub proof fn lemma_increase_then_decrease(limit: u32)
    requires
        10 <= limit <= 90,
    ensures
        decreased_limit(increased_limit(limit)) == limit,
{
}

/// Lowering then raising the page size gives it back, above the minimum.
pub proof fn lemma_decrease_then_increase(limit: u32)
    requires
        20 <= limit <= 100,
    ensures
        increased_limit(decreased_limit(limit)) == limit,
{
}

/// Opening the settings of a query and applying them unchanged gives the
/// same query back.
pub proof fn lemma_settings_roundtrip(query: RemoteQuery)
    ensures
        same_query(RemoteQuery { limit: query.limit, ..query }, query),
{
}

} // verus!

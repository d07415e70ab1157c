//! Assembling the restaurants of a region from the pages that were fetched.
//!
//! A page that could not be fetched or read does not stop the run: it is
//! recorded as a failure beside the restaurants already collected.
use vstd::prelude::*;
use crate::listing::RestaurantData;
use crate::models::{restaurants_view, Restaurant, RestaurantView};
use crate::page::{RestaurantPageData, RestaurantPageScraperError};
use crate::sources::{restaurant_from, RestaurantScrapedData};

verus! {

/// A listing entry whose page gave no restaurant, and why.
#[derive(Debug, Clone)]
pub struct PageFailure {
    pub url: String,
    pub error: RestaurantPageScraperError,
}

/// The restaurants collected so far and the pages that failed.
#[derive(Debug)]
pub struct CollectReport {
    pub restaurants: Vec<Restaurant>,
    pub failures: Vec<PageFailure>,
}

pub type PageOutcome = Result<RestaurantPageData, RestaurantPageScraperError>;

/// The restaurants that the successful pages give, in listing order.
pub open spec fn successes(entries: Seq<RestaurantData>, outcomes: Seq<PageOutcome>) -> Seq<RestaurantView>
    decreases entries.len(),
{
    if entries.len() == 0 || outcomes.len() == 0 {
        seq![]
    } else {
        let prev = successes(entries.drop_last(), outcomes.drop_last());
        match outcomes.last() {
            Ok(p) => prev.push(restaurant_from(entries.last()@, p@)),
            Err(_) => prev,
        }
    }
}

/// The address and error of each failed page, in listing order.
pub open spec fn failures(entries: Seq<RestaurantData>, outcomes: Seq<PageOutcome>) -> Seq<(Seq<char>, RestaurantPageScraperError)>
    decreases entries.len(),
{
    if entries.len() == 0 || outcomes.len() == 0 {
        seq![]
    } else {
        let prev = failures(entries.drop_last(), outcomes.drop_last());
        match outcomes.last() {
            Ok(_) => prev,
            Err(e) => prev.push((entries.last().crous_url@, e)),
        }
    }
}

pub open spec fn failures_view(v: Seq<PageFailure>) -> Seq<(Seq<char>, RestaurantPageScraperError)> {
    v.map_values(|f: PageFailure| (f.url@, f.error))
}

pub open spec fn ok_count(outcomes: Seq<PageOutcome>) -> nat
    decreases outcomes.len(),
{
    if outcomes.len() == 0 {
        0
    } else {
        ok_count(outcomes.drop_last()) + if outcomes.last() is Ok {
            1nat
        } else {
            0nat
        }
    }
}

/// No entry is lost: each gives either a restaurant or a failure, and the
/// restaurants are as many as the pages that were read.
pub proof fn lemma_every_entry_accounted(entries: Seq<RestaurantData>, outcomes: Seq<PageOutcome>)
    requires
        entries.len() == outcomes.len(),
    ensures
        successes(entries, outcomes).len() + failures(entries, outcomes).len() == entries.len(),
        successes(entries, outcomes).len() == ok_count(outcomes),
    decreases entries.len(),
{
    if entries.len() > 0 {
        lemma_every_entry_accounted(entries.drop_last(), outcomes.drop_last());
    }
}

impl CollectReport {
    pub fn new() -> (r: Self)
        ensures
            r.restaurants@.len() == 0,
            r.failures@.len() == 0,
    {
        CollectReport { restaurants: Vec::new(), failures: Vec::new() }
    }

    /// Records what the page of `entry` gave: a restaurant, or a failure
    /// under the entry's address.
    pub fn record(&mut self, entry: RestaurantData, outcome: PageOutcome)
        ensures
            match outcome {
                Ok(p) => {
                    &&& restaurants_view(final(self).restaurants@) == restaurants_view(
                        old(self).restaurants@,
                    ).push(restaurant_from(entry@, p@))
                    &&& final(self).failures@ == old(self).failures@
                },
                Err(e) => {
                    &&& final(self).restaurants@ == old(self).restaurants@
                    &&& failures_view(final(self).failures@) == failures_view(
                        old(self).failures@,
                    ).push((entry.crous_url@, e))
                },
            },
    {
        match outcome {
            Ok(page) => {
                let ghost prev = self.restaurants@;
                let restaurant = RestaurantScrapedData { page, description: entry }.into_restaurant();
                self.restaurants.push(restaurant);
                assert(restaurants_view(self.restaurants@) =~= restaurants_view(prev).push(
                    self.restaurants@.last()@,
                ));
            },
            Err(error) => {
                let ghost prev = self.failures@;
                self.failures.push(PageFailure { url: entry.crous_url, error });
                assert(failures_view(self.failures@) =~= failures_view(prev).push(
                    (entry.crous_url@, error),
                ));
            },
        }
    }

    /// Builds the report of a run from the listing entries and, for each,
    /// what its page gave.
    pub fn collect(entries: Vec<RestaurantData>, outcomes: Vec<PageOutcome>) -> (r: Self)
        requires
            entries@.len() == outcomes@.len(),
        ensures
            restaurants_view(r.restaurants@) == successes(entries@, outcomes@),
            failures_view(r.failures@) == failures(entries@, outcomes@),
    {
        let ghost all_entries = entries@;
        let ghost all_outcomes = outcomes@;
        let mut entries = entries;
        let mut outcomes = outcomes;
        let mut report = CollectReport::new();
        let n = entries.len();
        let mut k: usize = 0;
        assert(restaurants_view(report.restaurants@) =~= seq![]);
        assert(failures_view(report.failures@) =~= seq![]);
        while entries.len() > 0
            invariant
                n == all_entries.len() == all_outcomes.len(),
                k + entries@.len() == n,
                entries@.len() == outcomes@.len(),
                entries@ == all_entries.skip(k as int),
                outcomes@ == all_outcomes.skip(k as int),
                restaurants_view(report.restaurants@) == successes(
                    all_entries.take(k as int),
                    all_outcomes.take(k as int),
                ),
                failures_view(report.failures@) == failures(
                    all_entries.take(k as int),
                    all_outcomes.take(k as int),
                ),
            decreases entries@.len(),
        {
            let entry = entries.remove(0);
            let outcome = outcomes.remove(0);
            assert(entry == all_entries[k as int]);
            assert(outcome == all_outcomes[k as int]);
            assert(all_entries.take(k + 1).drop_last() =~= all_entries.take(k as int));
            assert(all_outcomes.take(k + 1).drop_last() =~= all_outcomes.take(k as int));
            assert(entries@ =~= all_entries.skip(k + 1));
            assert(outcomes@ =~= all_outcomes.skip(k + 1));
            report.record(entry, outcome);
            k = k + 1;
        }
        assert(all_entries.take(n as int) =~= all_entries);
        assert(all_outcomes.take(n as int) =~= all_outcomes);
        report
    }
}

} // verus!

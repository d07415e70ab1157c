//! The listing page of a region: one summary per restaurant.
use vstd::prelude::*;
use crate::text::{trim_text, trimmed};
use crate::html::{
    attr_at, attr_of, first_inner_html, first_inner_html_of, select_in, selected, selector_ok,
    selector_parses,
};

verus! {

/// Where the listing page of a region is found.
#[derive(Debug)]
pub struct RestaurantListScraper {
    pub url: String,
}

/// One restaurant as the listing page shows it.
#[derive(Debug, Clone)]
pub struct RestaurantData {
    pub name: String,
    pub city: String,
    pub crous_url: String,
}

pub struct RestaurantDataView {
    pub name: Seq<char>,
    pub city: Seq<char>,
    pub crous_url: Seq<char>,
}

impl View for RestaurantData {
    type V = RestaurantDataView;

    open spec fn view(&self) -> RestaurantDataView {
        RestaurantDataView { name: self.name@, city: self.city@, crous_url: self.crous_url@ }
    }
}

pub open spec fn listing_view(v: Seq<RestaurantData>) -> Seq<RestaurantDataView> {
    v.map_values(|e: RestaurantData| e@)
}

#[derive(Debug, Clone, Copy, PartialEq, Eq, Structural)]
pub enum RestaurantListScraperError {
    /// The listing page could not be fetched.
    RequestFailed,
    /// One of the listing's selectors is malformed.
    SelectorInvalid,
}

/// The links of the listing.
pub open spec fn link_selector() -> Seq<char> {
    ".vc_restaurants > ul:nth-child(3) a"@
}

/// The name inside a link.
pub open spec fn title_selector() -> Seq<char> {
    ".restaurant_title"@
}

/// The city inside a link.
pub open spec fn city_selector() -> Seq<char> {
    ".restaurant_area"@
}

/// The listing's selectors all parse.
pub open spec fn listing_selectors_parse() -> bool {
    selector_parses(link_selector()) && selector_parses(title_selector()) && selector_parses(
        city_selector(),
    )
}

/// What the listing shows for link element `i`: its title, its city and
/// its target, each empty when absent.
pub open spec fn candidate(page: Seq<char>, i: usize) -> RestaurantDataView {
    RestaurantDataView {
        name: first_inner_html(page, i, title_selector()),
        city: first_inner_html(page, i, city_selector()),
        crous_url: match attr_at(page, i, "href"@) {
            Some(h) => h,
            None => seq![],
        },
    }
}

/// The title, city and target are each non-empty once trimmed.
pub open spec fn is_complete(e: RestaurantDataView) -> bool {
    trimmed(e.name).len() > 0 && trimmed(e.city).len() > 0 && trimmed(e.crous_url).len() > 0
}

/// The complete candidates among `links`, in order.
pub open spec fn listing_from(page: Seq<char>, links: Seq<usize>) -> Seq<RestaurantDataView>
    decreases links.len(),
{
    if links.len() == 0 {
        seq![]
    } else {
        let prev = listing_from(page, links.drop_last());
        let c = candidate(page, links.last());
        if is_complete(c) {
            prev.push(c)
        } else {
            prev
        }
    }
}

/// The restaurants that a listing page shows.
pub open spec fn listing_of(page: Seq<char>) -> Seq<RestaurantDataView> {
    listing_from(page, selected(page, None, link_selector()))
}

/// Every summary drawn from a listing has a name, a city and a target, each
/// non-empty even once trimmed.
pub proof fn lemma_listing_entries_complete(page: Seq<char>, links: Seq<usize>)
    ensures
        forall|k: int|
            0 <= k < listing_from(page, links).len() ==> is_complete(
                #[trigger] listing_from(page, links)[k],
            ),
        forall|k: int|
            0 <= k < listing_from(page, links).len() ==> {
                let e = #[trigger] listing_from(page, links)[k];
                e.name.len() > 0 && e.city.len() > 0 && e.crous_url.len() > 0
            },
    decreases links.len(),
{
    if links.len() > 0 {
        let prev = listing_from(page, links.drop_last());
        lemma_listing_entries_complete(page, links.drop_last());
        assert forall|k: int| 0 <= k < listing_from(page, links).len() implies is_complete(
            #[trigger] listing_from(page, links)[k],
        ) by {
            if k < prev.len() {
                assert(is_complete(prev[k]));
            }
        }
    }
    assert forall|k: int| 0 <= k < listing_from(page, links).len() implies {
        let e = #[trigger] listing_from(page, links)[k];
        e.name.len() > 0 && e.city.len() > 0 && e.crous_url.len() > 0
    } by {
        let e = listing_from(page, links)[k];
        assert(is_complete(e));
    }
}

impl RestaurantListScraper {
    pub fn new(url: String) -> (r: Self)
        ensures
            r.url@ == url@,
    {
        Self { url }
    }

    /// Where the listing page is found.
    pub fn url(&self) -> (r: String)
        ensures
            r@ == self.url@,
    {
        self.url.clone()
    }

    /// Reads the restaurants of a listing page: for each link, its title,
    /// city and target. A link whose title, city or target is empty once
    /// trimmed is left out. A selector that does not parse fails the read.
    pub fn parse(page: &str) -> (r: Result<Vec<RestaurantData>, RestaurantListScraperError>)
        ensures
            listing_selectors_parse() ==> (r matches Ok(v) && listing_view(v@) == listing_of(
                page@,
            )),
            !listing_selectors_parse() ==> r == Err::<
                Vec<RestaurantData>,
                RestaurantListScraperError,
            >(RestaurantListScraperError::SelectorInvalid),
    {
        let link_sel = ".vc_restaurants > ul:nth-child(3) a";
        let title_sel = ".restaurant_title";
        let city_sel = ".restaurant_area";
        if !(selector_ok(link_sel) && selector_ok(title_sel) && selector_ok(city_sel)) {
            return Err(RestaurantListScraperError::SelectorInvalid);
        }
        let links = select_in(page, None, link_sel);
        let mut restaurants: Vec<RestaurantData> = Vec::new();
        let mut i: usize = 0;
        while i < links.len()
            invariant
                i <= links@.len(),
                links@ == selected(page@, None, link_selector()),
                title_sel@ == title_selector(),
                city_sel@ == city_selector(),
                listing_view(restaurants@) == listing_from(page@, links@.take(i as int)),
            decreases links@.len() - i,
        {
            let e = links[i];
            let link_target = match attr_of(page, e, "href") {
                Some(h) => h,
                None => String::new(),
            };
            let title = first_inner_html_of(page, e, title_sel);
            let city = first_inner_html_of(page, e, city_sel);
            let ghost prev = restaurants@;
            assert(links@.take(i + 1).drop_last() =~= links@.take(i as int));
            let complete = !trim_text(title.as_str()).as_str().is_empty()
                && !trim_text(city.as_str()).as_str().is_empty()
                && !trim_text(link_target.as_str()).as_str().is_empty();
            if complete {
                restaurants.push(RestaurantData { name: title, city, crous_url: link_target });
                assert(listing_view(restaurants@) =~= listing_view(prev).push(
                    candidate(page@, e),
                ));
            }
            i = i + 1;
        }
        assert(links@.take(links@.len() as int) =~= links@);
        Ok(restaurants)
    }
}

} // verus!

//! What the command line works with: the restaurants action, its outcome,
//! and the flat forms in which restaurants are shown and sent.
use vstd::prelude::*;
use crate::models::Restaurant;
use crate::text::opt_chars;

verus! {

/// Collect the restaurants of a target region, or only show them.
#[derive(Debug)]
pub struct RestaurantsAction {
    pub target: String,
    pub dry_run: bool,
}

#[derive(Debug)]
pub enum RestaurantsActionResult {
    Success,
    Failure(String),
}

/// A restaurant as a table row: a missing value reads `N/A`.
#[derive(Debug)]
pub struct DisplayableRestaurant {
    pub name: String,
    pub url: String,
    pub city: String,
    pub coordinates: String,
    pub opening_hours: String,
}

/// A restaurant as the storage service receives it.
#[derive(Debug)]
pub struct RestaurantSchema {
    pub name: String,
    pub url: String,
    pub city: Option<String>,
    pub coordinates: Option<String>,
    pub opening_hours: Option<String>,
}

#[derive(Debug)]
pub enum RestaurantClientError {
    PutRestaurantFailed(String),
}

/// A value, or `N/A` when there is none.
pub open spec fn or_not_available(o: Option<Seq<char>>) -> Seq<char> {
    match o {
        Some(s) => s,
        None => "N/A"@,
    }
}

fn or_not_available_text(o: &Option<String>) -> (r: String)
    ensures
        r@ == or_not_available(opt_chars(*o)),
{
    match o {
        Some(s) => s.clone(),
        None => "N/A".to_owned(),
    }
}

impl RestaurantsAction {
    pub fn new(target: String, dry_run: bool) -> (r: Self)
        ensures
            r.target@ == target@,
            r.dry_run == dry_run,
    {
        Self { target, dry_run }
    }
}

impl DisplayableRestaurant {
    pub fn from_restaurant(r: &Restaurant) -> (d: Self)
        ensures
            d.name@ == r.name@,
            d.url@ == r.url@,
            d.city@ == or_not_available(r@.city),
            d.coordinates@ == or_not_available(r@.coordinates),
            d.opening_hours@ == or_not_available(r@.opening_hours),
    {
        DisplayableRestaurant {
            name: r.name.clone(),
            url: r.url.clone(),
            city: or_not_available_text(&r.city),
            coordinates: or_not_available_text(&r.coordinates),
            opening_hours: or_not_available_text(&r.opening_hours),
        }
    }
}

impl RestaurantSchema {
    pub fn from_restaurant(r: Restaurant) -> (s: Self)
        ensures
            s.name@ == r.name@,
            s.url@ == r.url@,
            opt_chars(s.city) == r@.city,
            opt_chars(s.coordinates) == r@.coordinates,
            opt_chars(s.opening_hours) == r@.opening_hours,
    {
        RestaurantSchema {
            name: r.name,
            url: r.url,
            city: r.city,
            coordinates: r.coordinates,
            opening_hours: r.opening_hours,
        }
    }
}

} // verus!

//! The domain records that the storage layer keeps.
use vstd::prelude::*;
use chrono::NaiveDateTime;
use uuid::Uuid;
use crate::text::opt_chars;

verus! {

#[verifier::external_type_specification]
#[verifier::external_body]
pub struct ExUuid(Uuid);

#[verifier::external_type_specification]
#[verifier::external_body]
pub struct ExNaiveDateTime(NaiveDateTime);

/// Relies on `uuid::Uuid::new_v4`: a random identifier drawn from the
/// operating system's random source (the call panics only when that source
/// fails). Nothing is promised of its value.
#[verifier::external_body]
pub(crate) fn fresh_id() -> (r: Uuid) {
    Uuid::new_v4()
}

#[derive(Debug)]
pub struct Restaurant {
    pub restaurant_id: Uuid,
    pub name: String,
    pub url: String,
    pub city: Option<String>,
    /// The location written `lat,lon`.
    pub coordinates: Option<String>,
    pub opening_hours: Option<String>,
    /// Stamped by the storage layer.
    pub created_at: Option<NaiveDateTime>,
    /// Stamped by the storage layer.
    pub updated_at: Option<NaiveDateTime>,
}

/// A restaurant without its identifier.
pub struct RestaurantView {
    pub name: Seq<char>,
    pub url: Seq<char>,
    pub city: Option<Seq<char>>,
    pub coordinates: Option<Seq<char>>,
    pub opening_hours: Option<Seq<char>>,
    pub created_at: Option<NaiveDateTime>,
    pub updated_at: Option<NaiveDateTime>,
}

impl View for Restaurant {
    type V = RestaurantView;

    open spec fn view(&self) -> RestaurantView {
        RestaurantView {
            name: self.name@,
            url: self.url@,
            city: opt_chars(self.city),
            coordinates: opt_chars(self.coordinates),
            opening_hours: opt_chars(self.opening_hours),
            created_at: self.created_at,
            updated_at: self.updated_at,
        }
    }
}

pub open spec fn restaurants_view(v: Seq<Restaurant>) -> Seq<RestaurantView> {
    v.map_values(|r: Restaurant| r@)
}

/// One dish served on one day, in one category.
#[derive(Debug)]
pub struct Meal {
    pub meal_id: Uuid,
    /// The name of the dish's category.
    pub meal_type: String,
    /// The dish.
    pub foodies: Option<String>,
    pub date: Option<String>,
    pub scraped_at: Option<NaiveDateTime>,
    pub restaurant_id: Uuid,
}

/// A meal without its identifier.
pub struct MealView {
    pub meal_type: Seq<char>,
    pub foodies: Option<Seq<char>>,
    pub date: Option<Seq<char>>,
    pub scraped_at: Option<NaiveDateTime>,
    pub restaurant_id: Uuid,
}

impl View for Meal {
    type V = MealView;

    open spec fn view(&self) -> MealView {
        MealView {
            meal_type: self.meal_type@,
            foodies: opt_chars(self.foodies),
            date: opt_chars(self.date),
            scraped_at: self.scraped_at,
            restaurant_id: self.restaurant_id,
        }
    }
}

pub open spec fn meal_records_view(v: Seq<Meal>) -> Seq<MealView> {
    v.map_values(|m: Meal| m@)
}

#[derive(Debug)]
pub struct School {
    pub school_id: Uuid,
    pub long_name: String,
    /// The short name: the abbreviation, or the start of the long name.
    pub name: String,
    /// The location written `lat,lon`.
    pub coordinates: Option<String>,
}

/// A kind of keyword that a restaurant can be searched by.
#[derive(Clone, Copy, Debug, PartialEq, Eq, Structural)]
pub enum Category {
    Meal,
    Restaurant,
    Food,
}

/// The stored name of a keyword category.
pub open spec fn category_name(c: Category) -> Seq<char> {
    match c {
        Category::Meal => "meal"@,
        Category::Food => "food"@,
        Category::Restaurant => "restaurant"@,
    }
}

pub open spec fn is_category_name(s: Seq<char>) -> bool {
    s == "meal"@ || s == "food"@ || s == "restaurant"@
}

impl Category {
    /// Reads a stored category name.
    pub fn from_name(value: &String) -> (r: Category)
        requires
            is_category_name(value@),
        ensures
            category_name(r) == value@,
    {
        proof {
            reveal_strlit("meal");
            reveal_strlit("food");
            reveal_strlit("restaurant");
        }
        let meal = "meal".to_owned();
        let food = "food".to_owned();
        if *value == meal {
            Category::Meal
        } else if *value == food {
            Category::Food
        } else {
            Category::Restaurant
        }
    }

    /// The stored name of this category.
    pub fn name(self) -> (r: String)
        ensures
            r@ == category_name(self),
    {
        match self {
            Category::Meal => "meal".to_owned(),
            Category::Food => "food".to_owned(),
            Category::Restaurant => "restaurant".to_owned(),
        }
    }
}

/// Reading a category back from its stored name gives the same category.
pub proof fn lemma_category_round_trip(c: Category)
    ensures
        is_category_name(category_name(c)),
{
}

} // verus!

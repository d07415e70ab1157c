//! Turning what the extractors read into domain records.
use vstd::prelude::*;
use vstd::utf8::encode_utf8;
use vstd::utf8::is_char_boundary;
use uuid::Uuid;
use crate::html::selected;
use crate::geo::coordinates_text;
use crate::listing::{RestaurantData, RestaurantDataView};
use crate::models::{fresh_id, meal_records_view, Meal, MealView, Restaurant, RestaurantView, School};
use crate::page::{
    categories_view, meals_view, menus_view, CategoryView, FoodCategory, MealData, MealDataView,
    menu_selector, menus_of, MenuData, MenuView, PageView, RestaurantPageData,
};
use crate::school_api::ApiSchool;

verus! {

/// A restaurant page together with the restaurant it belongs to.
pub struct RestaurantPageScrapedData {
    pub restaurant: Restaurant,
    pub page: RestaurantPageData,
}

/// A restaurant page together with the listing entry that led to it.
pub struct RestaurantScrapedData {
    pub page: RestaurantPageData,
    pub description: RestaurantData,
}

/// One registry entry.
pub struct SchoolApiScrapedData {
    pub api_data: ApiSchool,
}

/// The record of one dish.
pub open spec fn meal_record(date: Seq<char>, category: Seq<char>, dish: Seq<char>, rid: Uuid) -> MealView {
    MealView {
        meal_type: category,
        foodies: Some(dish),
        date: Some(date),
        scraped_at: None,
        restaurant_id: rid,
    }
}

/// One record per dish of a category.
pub open spec fn dish_records(date: Seq<char>, c: CategoryView, rid: Uuid) -> Seq<MealView> {
    c.dishes.map_values(|d: Seq<char>| meal_record(date, c.name, d, rid))
}

pub open spec fn category_records(date: Seq<char>, cats: Seq<CategoryView>, rid: Uuid) -> Seq<MealView>
    decreases cats.len(),
{
    if cats.len() == 0 {
        seq![]
    } else {
        category_records(date, cats.drop_last(), rid) + dish_records(date, cats.last(), rid)
    }
}

pub open spec fn meal_records(date: Seq<char>, meals: Seq<MealDataView>, rid: Uuid) -> Seq<MealView>
    decreases meals.len(),
{
    if meals.len() == 0 {
        seq![]
    } else {
        meal_records(date, meals.drop_last(), rid) + category_records(
            date,
            meals.last().categories,
            rid,
        )
    }
}

/// One record per dish of a page, in document order: menu, meal,
/// category, dish.
pub open spec fn menu_records(menus: Seq<MenuView>, rid: Uuid) -> Seq<MealView>
    decreases menus.len(),
{
    if menus.len() == 0 {
        seq![]
    } else {
        menu_records(menus.drop_last(), rid) + meal_records(
            menus.last().date,
            menus.last().meals,
            rid,
        )
    }
}

pub open spec fn category_dish_count(cats: Seq<CategoryView>) -> nat
    decreases cats.len(),
{
    if cats.len() == 0 {
        0
    } else {
        category_dish_count(cats.drop_last()) + cats.last().dishes.len()
    }
}

pub open spec fn meal_dish_count(meals: Seq<MealDataView>) -> nat
    decreases meals.len(),
{
    if meals.len() == 0 {
        0
    } else {
        meal_dish_count(meals.drop_last()) + category_dish_count(meals.last().categories)
    }
}

/// The number of dishes over all menus, meals and categories.
pub open spec fn menu_dish_count(menus: Seq<MenuView>) -> nat
    decreases menus.len(),
{
    if menus.len() == 0 {
        0
    } else {
        menu_dish_count(menus.drop_last()) + meal_dish_count(menus.last().meals)
    }
}

proof fn lemma_category_count(date: Seq<char>, cats: Seq<CategoryView>, rid: Uuid)
    ensures
        category_records(date, cats, rid).len() == category_dish_count(cats),
    decreases cats.len(),
{
    if cats.len() > 0 {
        lemma_category_count(date, cats.drop_last(), rid);
    }
}

proof fn lemma_meal_count(date: Seq<char>, meals: Seq<MealDataView>, rid: Uuid)
    ensures
        meal_records(date, meals, rid).len() == meal_dish_count(meals),
    decreases meals.len(),
{
    if meals.len() > 0 {
        lemma_meal_count(date, meals.drop_last(), rid);
        lemma_category_count(date, meals.last().categories, rid);
    }
}

/// Flattening keeps every dish and adds none: the number of records is the
/// number of dishes summed over menus, meals and categories.
pub proof fn lemma_one_record_per_dish(menus: Seq<MenuView>, rid: Uuid)
    ensures
        menu_records(menus, rid).len() == menu_dish_count(menus),
    decreases menus.len(),
{
    if menus.len() > 0 {
        lemma_one_record_per_dish(menus.drop_last(), rid);
        lemma_meal_count(menus.last().date, menus.last().meals, rid);
    }
}

/// A page with no menu blocks has no menus, and so gives no meal records;
/// whether it is read at all depends on its hours and coordinates alone.
pub proof fn lemma_no_menus_no_records(page: Seq<char>, rid: Uuid)
    requires
        selected(page, None, menu_selector()).len() == 0,
    ensures
        menus_of(page).len() == 0,
        menu_records(menus_of(page), rid).len() == 0,
{
}

/// Flattening the same page twice for the same restaurant gives the same
/// records, identifiers aside.
pub proof fn lemma_flatten_repeatable(page: PageView, rid: Uuid, first: Seq<Meal>, second: Seq<Meal>)
    requires
        meal_records_view(first) == menu_records(page.menus, rid),
        meal_records_view(second) == menu_records(page.menus, rid),
    ensures
        meal_records_view(first) == meal_records_view(second),
        first.len() == second.len(),
        forall|k: int| 0 <= k < first.len() ==> (#[trigger] first[k])@ == second[k]@,
{
    assert(meal_records_view(first).len() == first.len());
    assert(meal_records_view(second).len() == second.len());
    assert forall|k: int| 0 <= k < first.len() implies (#[trigger] first[k])@ == second[k]@ by {
        assert(meal_records_view(first)[k] == first[k]@);
        assert(meal_records_view(second)[k] == second[k]@);
    }
}

fn push_dishes(out: &mut Vec<Meal>, date: &String, category: &FoodCategory, rid: Uuid)
    ensures
        meal_records_view(final(out)@) == meal_records_view(old(out)@) + dish_records(
            date@,
            category@,
            rid,
        ),
{
    let ghost start = meal_records_view(out@);
    let ghost f = |d: Seq<char>| meal_record(date@, category.name@, d, rid);
    let mut i: usize = 0;
    while i < category.dishes.len()
        invariant
            i <= category.dishes@.len(),
            f == (|d: Seq<char>| meal_record(date@, category.name@, d, rid)),
            meal_records_view(out@) == start + category@.dishes.take(i as int).map_values(f),
        decreases category.dishes@.len() - i,
    {
        let ghost prev = out@;
        out.push(
            Meal {
                meal_id: fresh_id(),
                meal_type: category.name.clone(),
                foodies: Some(category.dishes[i].clone()),
                date: Some(date.clone()),
                scraped_at: None,
                restaurant_id: rid,
            },
        );
        assert(category@.dishes[i as int] == category.dishes@[i as int]@);
        assert(category@.dishes.take(i + 1).map_values(f) =~= category@.dishes.take(
            i as int,
        ).map_values(f).push(f(category@.dishes[i as int])));
        assert(meal_records_view(out@) =~= meal_records_view(prev).push(out@.last()@));
        i = i + 1;
    }
    assert(category@.dishes.take(category@.dishes.len() as int) =~= category@.dishes);
}

fn push_categories(out: &mut Vec<Meal>, date: &String, categories: &Vec<FoodCategory>, rid: Uuid)
    ensures
        meal_records_view(final(out)@) == meal_records_view(old(out)@) + category_records(
            date@,
            categories_view(categories@),
            rid,
        ),
{
    let ghost start = meal_records_view(out@);
    let ghost cats = categories_view(categories@);
    let mut i: usize = 0;
    while i < categories.len()
        invariant
            i <= categories@.len(),
            cats == categories_view(categories@),
            meal_records_view(out@) == start + category_records(date@, cats.take(i as int), rid),
        decreases categories@.len() - i,
    {
        push_dishes(out, date, &categories[i], rid);
        assert(cats.take(i + 1).drop_last() =~= cats.take(i as int));
        assert(cats.take(i + 1).last() == categories@[i as int]@);
        i = i + 1;
    }
    assert(cats.take(cats.len() as int) =~= cats);
}

fn push_meals(out: &mut Vec<Meal>, date: &String, meals: &Vec<MealData>, rid: Uuid)
    ensures
        meal_records_view(final(out)@) == meal_records_view(old(out)@) + meal_records(
            date@,
            meals_view(meals@),
            rid,
        ),
{
    let ghost start = meal_records_view(out@);
    let ghost ms = meals_view(meals@);
    let mut i: usize = 0;
    while i < meals.len()
        invariant
            i <= meals@.len(),
            ms == meals_view(meals@),
            meal_records_view(out@) == start + meal_records(date@, ms.take(i as int), rid),
        decreases meals@.len() - i,
    {
        push_categories(out, date, &meals[i].categories, rid);
        assert(ms.take(i + 1).drop_last() =~= ms.take(i as int));
        assert(ms.take(i + 1).last() == meals@[i as int]@);
        i = i + 1;
    }
    assert(ms.take(ms.len() as int) =~= ms);
}

fn flatten_menus(menus: &Vec<MenuData>, rid: Uuid) -> (r: Vec<Meal>)
    ensures
        meal_records_view(r@) == menu_records(menus_view(menus@), rid),
{
    let ghost ms = menus_view(menus@);
    let mut out: Vec<Meal> = Vec::new();
    let mut i: usize = 0;
    assert(meal_records_view(out@) =~= seq![]);
    while i < menus.len()
        invariant
            i <= menus@.len(),
            ms == menus_view(menus@),
            meal_records_view(out@) == menu_records(ms.take(i as int), rid),
        decreases menus@.len() - i,
    {
        push_meals(&mut out, &menus[i].date, &menus[i].meals, rid);
        assert(ms.take(i + 1).drop_last() =~= ms.take(i as int));
        assert(ms.take(i + 1).last() == menus@[i as int]@);
        i = i + 1;
    }
    assert(ms.take(ms.len() as int) =~= ms);
    out
}

/// The restaurant that a listing entry and its page describe.
pub open spec fn restaurant_from(d: RestaurantDataView, p: PageView) -> RestaurantView {
    RestaurantView {
        name: d.name,
        url: d.crous_url,
        city: Some(d.city),
        coordinates: Some(coordinates_text(p.coordinates)),
        opening_hours: Some(p.hours),
        created_at: None,
        updated_at: None,
    }
}

/// The entry has a non-empty abbreviation, which then serves as its short
/// name; otherwise the short name is the first four bytes of the long name.
pub open spec fn has_abbreviation(s: ApiSchool) -> bool {
    s.sigle matches Some(a) && a@.len() > 0
}

/// The long name can be cut after its fourth byte.
pub open spec fn cuttable_name(s: ApiSchool) -> bool {
    is_char_boundary(encode_utf8(s.nom@), 4)
}

impl RestaurantPageScrapedData {
    /// One meal record per dish of the page, in document order, each dated
    /// with its menu's date and typed with its category's name.
    pub fn into_meals(self) -> (r: Vec<Meal>)
        ensures
            meal_records_view(r@) == menu_records(self.page@.menus, self.restaurant.restaurant_id),
    {
        flatten_menus(&self.page.menus, self.restaurant.restaurant_id)
    }
}

impl RestaurantScrapedData {
    /// The restaurant record, under a fresh identifier.
    pub fn into_restaurant(self) -> (r: Restaurant)
        ensures
            r@ == restaurant_from(self.description@, self.page@),
    {
        let coordinates = self.page.coordinates.to_coordinates();
        Restaurant {
            restaurant_id: fresh_id(),
            name: self.description.name,
            url: self.description.crous_url,
            city: Some(self.description.city),
            coordinates: Some(coordinates),
            opening_hours: Some(self.page.hours),
            created_at: None,
            updated_at: None,
        }
    }
}

impl SchoolApiScrapedData {
    /// The school record, under a fresh identifier. Without an abbreviation
    /// the short name is the long name's first four bytes, so the long name
    /// must then be cut-able there.
    pub fn into_school(self) -> (r: School)
        requires
            !has_abbreviation(self.api_data) ==> cuttable_name(self.api_data),
        ensures
            r.long_name@ == self.api_data.nom@,
            has_abbreviation(self.api_data) ==> Some(r.name) == self.api_data.sigle,
            !has_abbreviation(self.api_data) ==> encode_utf8(r.name@) == encode_utf8(
                self.api_data.nom@,
            ).subrange(0, 4),
            r.coordinates matches Some(c) && c@ == coordinates_text(self.api_data.point_geo@),
    {
        let coordinates = self.api_data.point_geo.to_coordinates();
        let abbreviation = match self.api_data.sigle {
            Some(a) => if a.as_str().is_empty() {
                None
            } else {
                Some(a)
            },
            None => None,
        };
        let name = match abbreviation {
            Some(a) => a,
            None => {
                let (head, _) = self.api_data.nom.as_str().split_at(4);
                head.to_owned()
            },
        };
        School {
            school_id: fresh_id(),
            long_name: self.api_data.nom,
            name,
            coordinates: Some(coordinates),
        }
    }
}

} // verus!

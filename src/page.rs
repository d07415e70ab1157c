//! The page of one restaurant: dated menus, opening hours and location.
//!
//! Menus are read leniently: a menu without a date, a meal without a title
//! or a category without a name is left out. Opening hours and coordinates
//! are required: a page that lacks either is refused.
use vstd::prelude::*;
use crate::html::{
    attr_at, attr_of, first_inner_html, first_inner_html_of, first_of, first_text_at, first_text_of,
    select_first, select_in, selected, selector_ok, selector_parses, text_at, text_of,
    inner_html_at, inner_html_of,
};
use crate::geo::PointGeo;
use crate::text::{
    contains_text, has_substring, is_float_literal, is_float_text, opt_chars, strings_view, trim_text,
    trimmed,
};

verus! {

/// Where the page of one restaurant is found.
#[derive(Debug)]
pub struct RestaurantPageScraper {
    pub url: String,
}

/// What a restaurant page says.
#[derive(Debug, Clone)]
pub struct RestaurantPageData {
    pub menus: Vec<MenuData>,
    pub hours: String,
    pub coordinates: PointGeo,
}

/// The meals of one day.
#[derive(Debug, Clone)]
pub struct MenuData {
    pub date: String,
    pub meals: Vec<MealData>,
}

/// One service of a day (lunch, dinner), grouped in categories.
#[derive(Debug, Clone)]
pub struct MealData {
    pub title: String,
    pub categories: Vec<FoodCategory>,
}

/// A named group of dishes.
#[derive(Debug, Clone)]
pub struct FoodCategory {
    pub name: String,
    pub dishes: Vec<String>,
}

/// A fact that a restaurant page must give.
#[derive(Debug, Clone, Copy, PartialEq, Eq, Structural)]
pub enum RequiredField {
    OpeningHours,
    Coordinates,
}

#[derive(Debug, Clone, Copy, PartialEq, Eq, Structural)]
pub enum RestaurantPageScraperError {
    /// The page could not be fetched.
    RequestFailed,
    /// One of the page's selectors is malformed.
    SelectorInvalid,
    /// The page lacks its opening hours or its coordinates.
    MissingRequiredField(RequiredField),
}

pub struct CategoryView {
    pub name: Seq<char>,
    pub dishes: Seq<Seq<char>>,
}

pub struct MealDataView {
    pub title: Seq<char>,
    pub categories: Seq<CategoryView>,
}

pub struct MenuView {
    pub date: Seq<char>,
    pub meals: Seq<MealDataView>,
}

pub struct PageView {
    pub menus: Seq<MenuView>,
    pub hours: Seq<char>,
    pub coordinates: (Seq<char>, Seq<char>),
}

impl View for FoodCategory {
    type V = CategoryView;

    open spec fn view(&self) -> CategoryView {
        CategoryView { name: self.name@, dishes: strings_view(self.dishes@) }
    }
}

pub open spec fn categories_view(v: Seq<FoodCategory>) -> Seq<CategoryView> {
    v.map_values(|c: FoodCategory| c@)
}

impl View for MealData {
    type V = MealDataView;

    open spec fn view(&self) -> MealDataView {
        MealDataView { title: self.title@, categories: categories_view(self.categories@) }
    }
}

pub open spec fn meals_view(v: Seq<MealData>) -> Seq<MealDataView> {
    v.map_values(|m: MealData| m@)
}

impl View for MenuData {
    type V = MenuView;

    open spec fn view(&self) -> MenuView {
        MenuView { date: self.date@, meals: meals_view(self.meals@) }
    }
}

pub open spec fn menus_view(v: Seq<MenuData>) -> Seq<MenuView> {
    v.map_values(|m: MenuData| m@)
}

impl View for RestaurantPageData {
    type V = PageView;

    open spec fn view(&self) -> PageView {
        PageView {
            menus: menus_view(self.menus@),
            hours: self.hours@,
            coordinates: self.coordinates@,
        }
    }
}

pub open spec fn menu_selector() -> Seq<char> {
    "section.menus div.menu"@
}

pub open spec fn date_selector() -> Seq<char> {
    "time.menu_date_title"@
}

pub open spec fn meal_selector() -> Seq<char> {
    "div.meal"@
}

pub open spec fn meal_title_selector() -> Seq<char> {
    "div.meal_title"@
}

pub open spec fn category_selector() -> Seq<char> {
    "ul.meal_foodies > li"@
}

pub open spec fn dish_selector() -> Seq<char> {
    "ul > li"@
}

pub open spec fn info_selector() -> Seq<char> {
    "section.infos div.info"@
}

pub open spec fn info_title_selector() -> Seq<char> {
    "div.info_title"@
}

pub open spec fn paragraph_selector() -> Seq<char> {
    "p"@
}

pub open spec fn map_selector() -> Seq<char> {
    "div#map"@
}

/// The page's selectors all parse.
pub open spec fn page_selectors_parse() -> bool {
    &&& selector_parses(menu_selector())
    &&& selector_parses(date_selector())
    &&& selector_parses(meal_selector())
    &&& selector_parses(meal_title_selector())
    &&& selector_parses(category_selector())
    &&& selector_parses(dish_selector())
    &&& selector_parses(info_selector())
    &&& selector_parses(info_title_selector())
    &&& selector_parses(paragraph_selector())
    &&& selector_parses(map_selector())
}

/// The word that marks the block of opening hours.
pub open spec fn hours_marker() -> Seq<char> {
    "Horaires"@
}

/// The non-empty trimmed dish names among `nodes`, in order.
pub open spec fn dishes_from(page: Seq<char>, nodes: Seq<usize>) -> Seq<Seq<char>>
    decreases nodes.len(),
{
    if nodes.len() == 0 {
        seq![]
    } else {
        let prev = dishes_from(page, nodes.drop_last());
        let d = trimmed(inner_html_at(page, nodes.last()));
        if d.len() > 0 {
            prev.push(d)
        } else {
            prev
        }
    }
}

/// Category element `c`: its own first text, trimmed, and its dishes.
pub open spec fn category_of(page: Seq<char>, c: usize) -> CategoryView {
    CategoryView {
        name: trimmed(first_text_at(page, c)),
        dishes: dishes_from(page, selected(page, Some(c), dish_selector())),
    }
}

/// The named categories among `nodes`, in order.
pub open spec fn categories_from(page: Seq<char>, nodes: Seq<usize>) -> Seq<CategoryView>
    decreases nodes.len(),
{
    if nodes.len() == 0 {
        seq![]
    } else {
        let prev = categories_from(page, nodes.drop_last());
        let c = category_of(page, nodes.last());
        if c.name.len() > 0 {
            prev.push(c)
        } else {
            prev
        }
    }
}

/// Meal element `m`: its title and its categories.
pub open spec fn meal_of(page: Seq<char>, m: usize) -> MealDataView {
    MealDataView {
        title: first_inner_html(page, m, meal_title_selector()),
        categories: categories_from(page, selected(page, Some(m), category_selector())),
    }
}

/// The titled meals among `nodes`, in order.
pub open spec fn meals_from(page: Seq<char>, nodes: Seq<usize>) -> Seq<MealDataView>
    decreases nodes.len(),
{
    if nodes.len() == 0 {
        seq![]
    } else {
        let prev = meals_from(page, nodes.drop_last());
        let m = meal_of(page, nodes.last());
        if m.title.len() > 0 {
            prev.push(m)
        } else {
            prev
        }
    }
}

/// Menu element `m`: its date and its meals.
pub open spec fn menu_of(page: Seq<char>, m: usize) -> MenuView {
    MenuView {
        date: first_inner_html(page, m, date_selector()),
        meals: meals_from(page, selected(page, Some(m), meal_selector())),
    }
}

/// The dated menus among `nodes`, in order.
pub open spec fn menus_from(page: Seq<char>, nodes: Seq<usize>) -> Seq<MenuView>
    decreases nodes.len(),
{
    if nodes.len() == 0 {
        seq![]
    } else {
        let prev = menus_from(page, nodes.drop_last());
        let m = menu_of(page, nodes.last());
        if m.date.len() > 0 {
            prev.push(m)
        } else {
            prev
        }
    }
}

/// The menus of a page.
pub open spec fn menus_of(page: Seq<char>) -> Seq<MenuView> {
    menus_from(page, selected(page, None, menu_selector()))
}

/// Info block `i` gives opening hours when its first title mentions the
/// marker and it holds a paragraph: the hours are that paragraph's text.
pub open spec fn info_hours(page: Seq<char>, i: usize) -> Option<Seq<char>> {
    match first_of(selected(page, Some(i), info_title_selector())) {
        Some(t) => if has_substring(text_at(page, t), hours_marker()) {
            match first_of(selected(page, Some(i), paragraph_selector())) {
                Some(p) => Some(trimmed(text_at(page, p))),
                None => None,
            }
        } else {
            None
        },
        None => None,
    }
}

/// The hours that the first suitable block among `nodes` gives.
pub open spec fn hours_from(page: Seq<char>, nodes: Seq<usize>) -> Option<Seq<char>>
    decreases nodes.len(),
{
    if nodes.len() == 0 {
        None
    } else {
        match hours_from(page, nodes.drop_last()) {
            Some(h) => Some(h),
            None => info_hours(page, nodes.last()),
        }
    }
}

/// The opening hours of a page.
pub open spec fn hours_of(page: Seq<char>) -> Option<Seq<char>> {
    hours_from(page, selected(page, None, info_selector()))
}

/// The coordinates of a page: the `data-lat` and `data-lon` attributes of
/// its first map element, when both are written in the syntax that
/// floating-point parsing accepts.
pub open spec fn coordinates_of(page: Seq<char>) -> Option<(Seq<char>, Seq<char>)> {
    match first_of(selected(page, None, map_selector())) {
        Some(m) => match (attr_at(page, m, "data-lat"@), attr_at(page, m, "data-lon"@)) {
            (Some(lat), Some(lon)) => if is_float_literal(lat) && is_float_literal(lon) {
                Some((lat, lon))
            } else {
                None
            },
            _ => None,
        },
        None => None,
    }
}

/// The selector texts that a restaurant page is read with.
struct PageSelectors {
    menu: &'static str,
    date: &'static str,
    meal: &'static str,
    meal_title: &'static str,
    category: &'static str,
    dish: &'static str,
    info: &'static str,
    info_title: &'static str,
    paragraph: &'static str,
    map: &'static str,
}

impl PageSelectors {
    spec fn wf(&self) -> bool {
        &&& self.menu@ == menu_selector()
        &&& self.date@ == date_selector()
        &&& self.meal@ == meal_selector()
        &&& self.meal_title@ == meal_title_selector()
        &&& self.category@ == category_selector()
        &&& self.dish@ == dish_selector()
        &&& self.info@ == info_selector()
        &&& self.info_title@ == info_title_selector()
        &&& self.paragraph@ == paragraph_selector()
        &&& self.map@ == map_selector()
    }

    fn new() -> (r: Self)
        ensures
            r.wf(),
    {
        PageSelectors {
            menu: "section.menus div.menu",
            date: "time.menu_date_title",
            meal: "div.meal",
            meal_title: "div.meal_title",
            category: "ul.meal_foodies > li",
            dish: "ul > li",
            info: "section.infos div.info",
            info_title: "div.info_title",
            paragraph: "p",
            map: "div#map",
        }
    }

    fn all_parse(&self) -> (r: bool)
        requires
            self.wf(),
        ensures
            r == page_selectors_parse(),
    {
        selector_ok(self.menu) && selector_ok(self.date) && selector_ok(self.meal) && selector_ok(
            self.meal_title,
        ) && selector_ok(self.category) && selector_ok(self.dish) && selector_ok(self.info)
            && selector_ok(self.info_title) && selector_ok(self.paragraph) && selector_ok(self.map)
    }
}

fn read_dishes(page: &str, c: usize, sels: &PageSelectors) -> (r: Vec<String>)
    requires
        sels.wf(),
    ensures
        strings_view(r@) == dishes_from(page@, selected(page@, Some(c), dish_selector())),
{
    let nodes = select_in(page, Some(c), sels.dish);
    let mut dishes: Vec<String> = Vec::new();
    let mut i: usize = 0;
    while i < nodes.len()
        invariant
            i <= nodes@.len(),
            nodes@ == selected(page@, Some(c), dish_selector()),
            strings_view(dishes@) == dishes_from(page@, nodes@.take(i as int)),
        decreases nodes@.len() - i,
    {
        let d = trim_text(inner_html_of(page, nodes[i]).as_str());
        let ghost prev = dishes@;
        assert(nodes@.take(i + 1).drop_last() =~= nodes@.take(i as int));
        if !d.as_str().is_empty() {
            dishes.push(d);
            assert(strings_view(dishes@) =~= strings_view(prev).push(d@));
        }
        i = i + 1;
    }
    assert(nodes@.take(nodes@.len() as int) =~= nodes@);
    dishes
}

fn read_categories(page: &str, m: usize, sels: &PageSelectors) -> (r: Vec<FoodCategory>)
    requires
        sels.wf(),
    ensures
        categories_view(r@) == categories_from(page@, selected(page@, Some(m), category_selector())),
{
    let nodes = select_in(page, Some(m), sels.category);
    let mut categories: Vec<FoodCategory> = Vec::new();
    let mut i: usize = 0;
    while i < nodes.len()
        invariant
            i <= nodes@.len(),
            sels.wf(),
            nodes@ == selected(page@, Some(m), category_selector()),
            categories_view(categories@) == categories_from(page@, nodes@.take(i as int)),
        decreases nodes@.len() - i,
    {
        let c = nodes[i];
        let name = trim_text(first_text_of(page, c).as_str());
        let dishes = read_dishes(page, c, sels);
        let ghost prev = categories@;
        assert(nodes@.take(i + 1).drop_last() =~= nodes@.take(i as int));
        if !name.as_str().is_empty() {
            categories.push(FoodCategory { name, dishes });
            assert(categories_view(categories@) =~= categories_view(prev).push(
                category_of(page@, c),
            ));
        }
        i = i + 1;
    }
    assert(nodes@.take(nodes@.len() as int) =~= nodes@);
    categories
}

fn read_meals(page: &str, menu: usize, sels: &PageSelectors) -> (r: Vec<MealData>)
    requires
        sels.wf(),
    ensures
        meals_view(r@) == meals_from(page@, selected(page@, Some(menu), meal_selector())),
{
    let nodes = select_in(page, Some(menu), sels.meal);
    let mut meals: Vec<MealData> = Vec::new();
    let mut i: usize = 0;
    while i < nodes.len()
        invariant
            i <= nodes@.len(),
            sels.wf(),
            nodes@ == selected(page@, Some(menu), meal_selector()),
            meals_view(meals@) == meals_from(page@, nodes@.take(i as int)),
        decreases nodes@.len() - i,
    {
        let m = nodes[i];
        let title = first_inner_html_of(page, m, sels.meal_title);
        let categories = read_categories(page, m, sels);
        let ghost prev = meals@;
        assert(nodes@.take(i + 1).drop_last() =~= nodes@.take(i as int));
        if !title.as_str().is_empty() {
            meals.push(MealData { title, categories });
            assert(meals_view(meals@) =~= meals_view(prev).push(meal_of(page@, m)));
        }
        i = i + 1;
    }
    assert(nodes@.take(nodes@.len() as int) =~= nodes@);
    meals
}

fn read_menus(page: &str, sels: &PageSelectors) -> (r: Vec<MenuData>)
    requires
        sels.wf(),
    ensures
        menus_view(r@) == menus_of(page@),
{
    let nodes = select_in(page, None, sels.menu);
    let mut menus: Vec<MenuData> = Vec::new();
    let mut i: usize = 0;
    while i < nodes.len()
        invariant
            i <= nodes@.len(),
            sels.wf(),
            nodes@ == selected(page@, None, menu_selector()),
            menus_view(menus@) == menus_from(page@, nodes@.take(i as int)),
        decreases nodes@.len() - i,
    {
        let m = nodes[i];
        let date = first_inner_html_of(page, m, sels.date);
        let meals = read_meals(page, m, sels);
        let ghost prev = menus@;
        assert(nodes@.take(i + 1).drop_last() =~= nodes@.take(i as int));
        if !date.as_str().is_empty() {
            menus.push(MenuData { date, meals });
            assert(menus_view(menus@) =~= menus_view(prev).push(menu_of(page@, m)));
        }
        i = i + 1;
    }
    assert(nodes@.take(nodes@.len() as int) =~= nodes@);
    menus
}

fn read_info_hours(page: &str, i: usize, sels: &PageSelectors) -> (r: Option<String>)
    requires
        sels.wf(),
    ensures
        opt_chars(r) == info_hours(page@, i),
{
    match select_first(page, Some(i), sels.info_title) {
        Some(t) => {
            let title = text_of(page, t);
            if contains_text(title.as_str(), "Horaires") {
                match select_first(page, Some(i), sels.paragraph) {
                    Some(p) => Some(trim_text(text_of(page, p).as_str())),
                    None => None,
                }
            } else {
                None
            }
        },
        None => None,
    }
}

fn read_hours(page: &str, sels: &PageSelectors) -> (r: Option<String>)
    requires
        sels.wf(),
    ensures
        opt_chars(r) == hours_of(page@),
{
    let nodes = select_in(page, None, sels.info);
    let mut hours: Option<String> = None;
    let mut i: usize = 0;
    while i < nodes.len()
        invariant
            i <= nodes@.len(),
            sels.wf(),
            nodes@ == selected(page@, None, info_selector()),
            opt_chars(hours) == hours_from(page@, nodes@.take(i as int)),
        decreases nodes@.len() - i,
    {
        assert(nodes@.take(i + 1).drop_last() =~= nodes@.take(i as int));
        if hours.is_none() {
            hours = read_info_hours(page, nodes[i], sels);
        }
        i = i + 1;
    }
    assert(nodes@.take(nodes@.len() as int) =~= nodes@);
    hours
}

fn read_coordinates(page: &str, sels: &PageSelectors) -> (r: Option<PointGeo>)
    requires
        sels.wf(),
    ensures
        match r {
            Some(p) => coordinates_of(page@) == Some(p@),
            None => coordinates_of(page@) is None,
        },
{
    match select_first(page, None, sels.map) {
        Some(m) => {
            let lat = attr_of(page, m, "data-lat");
            let lon = attr_of(page, m, "data-lon");
            match (lat, lon) {
                (Some(lat), Some(lon)) => {
                    if is_float_text(lat.as_str()) && is_float_text(lon.as_str()) {
                        Some(PointGeo { lat, lon })
                    } else {
                        None
                    }
                },
                _ => None,
            }
        },
        None => None,
    }
}

/// What a page gives: its menus, hours and coordinates, or the first of
/// hours and coordinates that it lacks.
pub open spec fn page_result(page: Seq<char>, r: Result<RestaurantPageData, RestaurantPageScraperError>) -> bool {
    match (hours_of(page), coordinates_of(page)) {
        (Some(h), Some(c)) => r matches Ok(p) && p@ == (PageView {
            menus: menus_of(page),
            hours: h,
            coordinates: c,
        }),
        (None, _) => r == Err::<RestaurantPageData, RestaurantPageScraperError>(
            RestaurantPageScraperError::MissingRequiredField(RequiredField::OpeningHours),
        ),
        (Some(_), None) => r == Err::<RestaurantPageData, RestaurantPageScraperError>(
            RestaurantPageScraperError::MissingRequiredField(RequiredField::Coordinates),
        ),
    }
}

impl RestaurantPageScraper {
    pub fn new(url: String) -> (r: Self)
        ensures
            r.url@ == url@,
    {
        Self { url }
    }

    /// Where the page is found.
    pub fn url(&self) -> (r: String)
        ensures
            r@ == self.url@,
    {
        self.url.clone()
    }

    /// Reads a restaurant page: its dated menus, its opening hours and its
    /// coordinates. A selector that does not parse fails the read.
    pub fn parse(page: &str) -> (r: Result<RestaurantPageData, RestaurantPageScraperError>)
        ensures
            page_selectors_parse() ==> page_result(page@, r),
            !page_selectors_parse() ==> r == Err::<RestaurantPageData, RestaurantPageScraperError>(
                RestaurantPageScraperError::SelectorInvalid,
            ),
    {
        let sels = PageSelectors::new();
        if !sels.all_parse() {
            return Err(RestaurantPageScraperError::SelectorInvalid);
        }
        let menus = read_menus(page, &sels);
        let hours = read_hours(page, &sels);
        let coordinates = read_coordinates(page, &sels);
        let hours = match hours {
            Some(h) => h,
            None => {
                return Err(RestaurantPageScraperError::MissingRequiredField(RequiredField::OpeningHours));
            },
        };
        let coordinates = match coordinates {
            Some(c) => c,
            None => {
                return Err(RestaurantPageScraperError::MissingRequiredField(RequiredField::Coordinates));
            },
        };
        Ok(RestaurantPageData { menus, hours, coordinates })
    }
}

} // verus!

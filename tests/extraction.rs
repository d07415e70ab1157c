use crous_scraper::listing::RestaurantListScraper;
use crous_scraper::page::{RequiredField, RestaurantPageScraper, RestaurantPageScraperError};
use crous_scraper::text::{contains_text, is_float_text};

const LISTING: &str = r#"<!DOCTYPE html>
<html><body>
<div class="vc_restaurants">
  <p>intro</p>
  <h2>Restaurants</h2>
  <ul>
    <li><a href="https://example.com/r1"><span class="restaurant_title">Resto U Esplanade</span><span class="restaurant_area">Strasbourg</span></a></li>
    <li><a href=""><span class="restaurant_title">No link</span><span class="restaurant_area">Colmar</span></a></li>
    <li><a href="https://example.com/promo"><span class="restaurant_title">Promotion</span></a></li>
    <li><a href="https://example.com/blank"><span class="restaurant_title">   </span><span class="restaurant_area">Nancy</span></a></li>
    <li><a class="card" href="https://example.com/r4"><span class="restaurant_title">Cafet Illkirch</span><span class="restaurant_area">Illkirch</span></a></li>
  </ul>
  <ul>
    <li><a href="https://example.com/elsewhere"><span class="restaurant_title">Elsewhere</span><span class="restaurant_area">Mulhouse</span></a></li>
  </ul>
</div>
</body></html>"#;

#[test]
fn listing_keeps_only_complete_entries() {
    let list = RestaurantListScraper::parse(LISTING).unwrap();
    assert_eq!(list.len(), 2);
    assert_eq!(list[0].name, "Resto U Esplanade");
    assert_eq!(list[0].city, "Strasbourg");
    assert_eq!(list[0].crous_url, "https://example.com/r1");
    assert_eq!(list[1].name, "Cafet Illkirch");
    assert_eq!(list[1].city, "Illkirch");
    assert_eq!(list[1].crous_url, "https://example.com/r4");
}

#[test]
fn listing_of_an_empty_page_is_empty() {
    assert!(RestaurantListScraper::parse("<html><body></body></html>").unwrap().is_empty());
}

const MENUS: &str = r#"<section class="menus">
  <div class="menu">
    <time class="menu_date_title">2024-06-01</time>
    <div class="meal">
      <div class="meal_title">Lunch</div>
      <ul class="meal_foodies">
        <li>Main Course<ul><li> Spaghetti </li><li>Pizza</li><li>   </li></ul></li>
        <li>Dessert<ul><li>Ice Cream</li></ul></li>
        <li>
          <ul><li>Orphan dish</li></ul></li>
      </ul>
    </div>
    <div class="meal"><ul class="meal_foodies"><li>Untitled<ul><li>Soup</li></ul></li></ul></div>
  </div>
  <div class="menu"><div class="meal"><div class="meal_title">Dinner</div></div></div>
  <div class="menu"><time class="menu_date_title">2024-06-02</time></div>
</section>"#;

fn page(menus: bool, hours_title: &str, map: &str) -> String {
    format!(
        r#"<!DOCTYPE html><html><body>{}
<section class="infos">
  <div class="info"><div class="info_title">Accès</div><p>Tram A</p></div>
  <div class="info"><div class="info_title">{}</div><p>  11h30 - 14h00 </p></div>
</section>
{}
</body></html>"#,
        if menus { MENUS } else { "" },
        hours_title,
        map
    )
}

const MAP: &str = r#"<div id="map" data-lat="48.5734" data-lon="7.7521"></div>"#;

#[test]
fn page_reads_menus_hours_and_coordinates() {
    let data = RestaurantPageScraper::parse(&page(true, "Horaires d'ouverture", MAP)).unwrap();
    assert_eq!(data.hours, "11h30 - 14h00");
    assert_eq!(data.coordinates.lat, "48.5734");
    assert_eq!(data.coordinates.lon, "7.7521");
    assert_eq!(data.menus.len(), 2);
    assert_eq!(data.menus[0].date, "2024-06-01");
    assert_eq!(data.menus[1].date, "2024-06-02");
    assert!(data.menus[1].meals.is_empty());
    let meals = &data.menus[0].meals;
    assert_eq!(meals.len(), 1);
    assert_eq!(meals[0].title, "Lunch");
    let categories = &meals[0].categories;
    assert_eq!(categories.len(), 2);
    assert_eq!(categories[0].name, "Main Course");
    assert_eq!(categories[0].dishes, vec!["Spaghetti".to_string(), "Pizza".to_string()]);
    assert_eq!(categories[1].name, "Dessert");
    assert_eq!(categories[1].dishes, vec!["Ice Cream".to_string()]);
}

#[test]
fn page_without_menus_has_no_menus() {
    let data = RestaurantPageScraper::parse(&page(false, "Horaires", MAP)).unwrap();
    assert!(data.menus.is_empty());
}

#[test]
fn page_without_hours_is_refused() {
    let result = RestaurantPageScraper::parse(&page(true, "Contact", MAP));
    assert!(matches!(
        result,
        Err(RestaurantPageScraperError::MissingRequiredField(RequiredField::OpeningHours))
    ));
}

#[test]
fn page_without_map_is_refused() {
    let result = RestaurantPageScraper::parse(&page(true, "Horaires", ""));
    assert!(matches!(
        result,
        Err(RestaurantPageScraperError::MissingRequiredField(RequiredField::Coordinates))
    ));
}

#[test]
fn page_with_unreadable_latitude_is_refused() {
    let map = r#"<div id="map" data-lat="north" data-lon="7.7521"></div>"#;
    let result = RestaurantPageScraper::parse(&page(true, "Horaires", map));
    assert!(matches!(
        result,
        Err(RestaurantPageScraperError::MissingRequiredField(RequiredField::Coordinates))
    ));
}

#[test]
fn page_with_exponent_coordinates_is_read() {
    let map = r#"<div id="map" data-lat="1e1" data-lon="7"></div>"#;
    let data = RestaurantPageScraper::parse(&page(false, "Horaires", map)).unwrap();
    assert!(data.menus.is_empty());
    assert_eq!(data.coordinates.lat, "1e1");
    assert_eq!(data.coordinates.lon, "7");
}

#[test]
fn float_syntax_is_recognised() {
    for good in [
        "48.5734", "7", "-1.5", "+3", "5.", ".5", "1e1", "1E10", "2.5e-3", "-.5E+2", "inf",
        "-Infinity", "NaN", "+nan", "INF",
    ] {
        assert!(is_float_text(good), "{}", good);
    }
    for bad in ["", "+", ".", "e5", "1e", "1e+", "1.2.3", "infin", "abc", " 1", "1 ", "0x10", "--1"] {
        assert!(!is_float_text(bad), "{}", bad);
    }
}

#[test]
fn substring_search() {
    assert!(contains_text("Horaires d'ouverture", "Horaires"));
    assert!(contains_text("Les Horaires", "Horaires"));
    assert!(contains_text("abc", ""));
    assert!(!contains_text("horaires", "Horaires"));
    assert!(!contains_text("Hor", "Horaires"));
}

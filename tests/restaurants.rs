use crous_scraper::actions::{DisplayableRestaurant, RestaurantSchema, RestaurantsAction};
use crous_scraper::geo::PointGeo;
use crous_scraper::listing::RestaurantData;
use crous_scraper::models::{Category, Restaurant};
use crous_scraper::page::{
    FoodCategory, MealData, MenuData, RestaurantPageData, RestaurantPageScraperError,
};
use crous_scraper::pipeline::CollectReport;
use crous_scraper::sources::RestaurantScrapedData;
use uuid::Uuid;

fn page(hours: &str, lat: &str, lon: &str) -> RestaurantPageData {
    RestaurantPageData {
        menus: vec![],
        hours: hours.to_string(),
        coordinates: PointGeo { lat: lat.to_string(), lon: lon.to_string() },
    }
}

fn entry(name: &str, city: &str, url: &str) -> RestaurantData {
    RestaurantData { name: name.to_string(), city: city.to_string(), crous_url: url.to_string() }
}

#[test]
fn test_restaurant_conversion() {
    let restaurant_page_data = RestaurantPageData {
        menus: vec![MenuData {
            date: "2024-06-01".to_string(),
            meals: vec![MealData {
                title: "Lunch".to_string(),
                categories: vec![
                    FoodCategory {
                        name: "Main Course".to_string(),
                        dishes: vec!["Spaghetti".to_string(), "Pizza".to_string()],
                    },
                    FoodCategory {
                        name: "Dessert".to_string(),
                        dishes: vec!["Ice Cream".to_string()],
                    },
                ],
            }],
        }],
        hours: "12:00 - 14:00".to_string(),
        coordinates: PointGeo { lat: "48.5734".to_string(), lon: "7.7521".to_string() },
    };

    let restaurant_data = RestaurantData {
        name: "Test Restaurant".to_string(),
        city: "Strasbourg".to_string(),
        crous_url: "https://example.com/restaurant".to_string(),
    };

    let scraped = RestaurantScrapedData { page: restaurant_page_data, description: restaurant_data };

    let restaurant: Restaurant = scraped.into_restaurant();
    assert_eq!(restaurant.name, "Test Restaurant");
    assert_eq!(restaurant.url, "https://example.com/restaurant");
    assert_eq!(restaurant.city, Some("Strasbourg".to_string()));
    assert_eq!(restaurant.coordinates, Some("48.5734,7.7521".to_string()));
    assert_eq!(restaurant.opening_hours, Some("12:00 - 14:00".to_string()));
}

#[test]
fn restaurant_conversion_leaves_timestamps_to_storage() {
    let restaurant = RestaurantScrapedData {
        page: page("8h", "-1.5", "+3"),
        description: entry("A", "B", "C"),
    }
    .into_restaurant();
    assert_eq!(restaurant.coordinates, Some("-1.5,+3".to_string()));
    assert!(restaurant.created_at.is_none());
    assert!(restaurant.updated_at.is_none());
    assert_ne!(restaurant.restaurant_id, Uuid::nil());
}

#[test]
fn coordinates_keep_every_digit() {
    let p = PointGeo { lat: "48.5734".to_string(), lon: "7.7521".to_string() };
    assert_eq!(p.to_coordinates(), "48.5734,7.7521");
    assert_eq!(p.display(), "(48.5734,7.7521)");
    let q = PointGeo { lat: "43.610000".to_string(), lon: "3.8767".to_string() };
    assert_eq!(q.to_coordinates(), "43.610000,3.8767");
}

#[test]
fn one_failed_page_keeps_the_other_restaurants() {
    let entries = vec![
        entry("First", "Strasbourg", "https://example.com/1"),
        entry("Second", "Strasbourg", "https://example.com/2"),
        entry("Third", "Colmar", "https://example.com/3"),
    ];
    let outcomes = vec![
        Ok(page("11h - 14h", "48.1", "7.1")),
        Err(RestaurantPageScraperError::RequestFailed),
        Ok(page("18h - 20h", "48.3", "7.3")),
    ];
    let report = CollectReport::collect(entries, outcomes);
    assert_eq!(report.restaurants.len(), 2);
    assert_eq!(report.failures.len(), 1);
    assert_eq!(report.restaurants[0].name, "First");
    assert_eq!(report.restaurants[1].name, "Third");
    assert_eq!(report.restaurants[1].coordinates, Some("48.3,7.3".to_string()));
    assert_eq!(report.failures[0].url, "https://example.com/2");
    assert_eq!(report.failures[0].error, RestaurantPageScraperError::RequestFailed);
}

#[test]
fn recording_one_outcome_at_a_time() {
    let mut report = CollectReport::new();
    report.record(
        entry("Only", "Metz", "https://example.com/m"),
        Err(RestaurantPageScraperError::MissingRequiredField(
            crous_scraper::page::RequiredField::Coordinates,
        )),
    );
    assert!(report.restaurants.is_empty());
    assert_eq!(report.failures.len(), 1);
    report.record(entry("Next", "Metz", "https://example.com/n"), Ok(page("9h", "1", "2")));
    assert_eq!(report.restaurants.len(), 1);
    assert_eq!(report.restaurants[0].city, Some("Metz".to_string()));
}

#[test]
fn displayable_restaurant_fills_missing_values() {
    let r = Restaurant {
        restaurant_id: Uuid::from_u128(7),
        name: "Resto".to_string(),
        url: "https://example.com/r".to_string(),
        city: None,
        coordinates: Some("1,2".to_string()),
        opening_hours: None,
        created_at: None,
        updated_at: None,
    };
    let d = DisplayableRestaurant::from_restaurant(&r);
    assert_eq!(d.name, "Resto");
    assert_eq!(d.city, "N/A");
    assert_eq!(d.coordinates, "1,2");
    assert_eq!(d.opening_hours, "N/A");
    let s = RestaurantSchema::from_restaurant(r);
    assert_eq!(s.city, None);
    assert_eq!(s.coordinates, Some("1,2".to_string()));
}

#[test]
fn restaurants_action_holds_its_options() {
    let a = RestaurantsAction::new("montpellier".to_string(), true);
    assert_eq!(a.target, "montpellier");
    assert!(a.dry_run);
}

#[test]
fn keyword_categories_round_trip() {
    for c in [Category::Meal, Category::Food, Category::Restaurant] {
        assert_eq!(Category::from_name(&c.name()), c);
    }
    assert_eq!(Category::Food.name(), "food");
    assert_eq!(Category::from_name(&"restaurant".to_string()), Category::Restaurant);
}

use crous_scraper::geo::PointGeo;
use crous_scraper::school_api::{ApiSchool, SchoolApiScraper, SchoolApiScraperError};
use crous_scraper::sources::SchoolApiScrapedData;
use uuid::Uuid;

fn school(nom: &str, sigle: Option<&str>, statut: &str) -> ApiSchool {
    ApiSchool {
        code_uai: "0340000A".to_string(),
        ndeg_siret: None,
        type_d_etablissement: "Université".to_string(),
        nom: nom.to_string(),
        sigle: sigle.map(|s| s.to_string()),
        statut: statut.to_string(),
        tutelle: None,
        universite: None,
        boite_postale: None,
        adresse: "163 rue Auguste Broussonnet".to_string(),
        cp: "34090".to_string(),
        commune: "Montpellier".to_string(),
        telephone: "04 67 00 00 00".to_string(),
        debut_portes_ouvertes: None,
        fin_portes_ouvertes: None,
        commentaires_portes_ouvertes: None,
        lien_site_onisep_fr: "https://www.onisep.fr/".to_string(),
        point_geo: PointGeo { lat: "43.6312".to_string(), lon: "3.8609".to_string() },
    }
}

#[test]
fn registry_keeps_public_entries_in_page_order() {
    let first = vec![school("Alpha", None, "Public"), school("Beta", None, "Privé")];
    let second = vec![school("Gamma", None, "Public sous contrat")];
    let merged = SchoolApiScraper::merge_pages(Ok(first), Ok(second)).unwrap();
    let names: Vec<&str> = merged.iter().map(|s| s.nom.as_str()).collect();
    assert_eq!(names, vec!["Alpha", "Gamma"]);
}

#[test]
fn registry_fails_when_a_page_fails() {
    let page = || vec![school("Alpha", None, "Public")];
    assert_eq!(
        SchoolApiScraper::merge_pages(Err(SchoolApiScraperError::RequestFailed), Ok(page())).unwrap_err(),
        SchoolApiScraperError::RequestFailed
    );
    assert_eq!(
        SchoolApiScraper::merge_pages(Ok(page()), Err(SchoolApiScraperError::ParsingFailed)).unwrap_err(),
        SchoolApiScraperError::ParsingFailed
    );
    assert_eq!(
        SchoolApiScraper::merge_pages(
            Err(SchoolApiScraperError::ParsingFailed),
            Err(SchoolApiScraperError::RequestFailed)
        )
        .unwrap_err(),
        SchoolApiScraperError::ParsingFailed
    );
}

#[test]
fn registry_of_empty_pages_is_empty() {
    assert!(SchoolApiScraper::merge_pages(Ok(vec![]), Ok(vec![])).unwrap().is_empty());
}

#[test]
fn school_takes_its_abbreviation() {
    let s = SchoolApiScrapedData { api_data: school("Université de Montpellier", Some("UM"), "Public") }
        .into_school();
    assert_eq!(s.long_name, "Université de Montpellier");
    assert_eq!(s.name, "UM");
    assert_eq!(s.coordinates, Some("43.6312,3.8609".to_string()));
    assert_ne!(s.school_id, Uuid::nil());
}

#[test]
fn school_without_abbreviation_takes_four_bytes() {
    let s = SchoolApiScrapedData { api_data: school("Polytech Montpellier", None, "Public") }.into_school();
    assert_eq!(s.name, "Poly");
    let s = SchoolApiScrapedData { api_data: school("École des Mines", Some(""), "Public") }.into_school();
    assert_eq!(s.name, "Éco");
}

#[test]
fn registry_scraper_holds_its_address() {
    let s = SchoolApiScraper::new("https://data.example.org/records".to_string());
    assert_eq!(s.url(), "https://data.example.org/records");
}

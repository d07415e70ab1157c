//! Extraction and normalization of university dining data: restaurant
//! listings, restaurant pages with their dated menus, and a registry of
//! schools, turned into flat domain records.
use vstd::prelude::*;

pub mod actions;
pub mod geo;
pub mod html;
pub mod listing;
pub mod models;
pub mod page;
pub mod pipeline;
pub mod school_api;
pub mod sources;
pub mod text;

verus! {

/// Why a page could not be had.
#[derive(Debug, Clone, PartialEq, Eq)]
pub enum ScraperError {
    RequestFailed,
    ParsingFailed(String),
}

} // verus!

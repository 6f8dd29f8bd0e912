//! An image scraper's decision logic: command-line options, URL
//! classification, provider requests, file naming and save locations.
//! The network and filesystem work lives with the caller.

pub mod error;
pub mod filename;
pub mod json;
pub mod media;
pub mod options;
pub mod pattern;
pub mod plan;
pub mod provider;
pub mod text;
pub mod web;

//! Verified core of the navigation tooling: calendar dates and scrape tasks.

pub mod builder;
pub mod calendar;
pub mod client;
pub mod date;
pub mod http;
pub mod models;
pub mod routing;
pub mod scraping;
pub mod telemetry;
pub mod text;
pub mod types;

pub use client::ApiClient;

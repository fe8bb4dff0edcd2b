//! Latency probing of HTTP routes: configuration, OAuth token caching, and the
//! decisions of the scraper, with their behaviour stated as contracts and proved.
pub mod auth;
pub mod config;
pub mod hot_reload;
pub mod keycloak_client;
pub mod metrics;
pub mod scraper;
pub mod string_map;
pub mod supervisor;
pub mod text;
pub mod time;

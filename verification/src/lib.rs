//! Shared building blocks of the service: IP geolocation with a bounded,
//! time-limited cache, country and data-region rules, error values and
//! request tracing helpers.

pub mod cache;
pub mod constants;
pub mod country_utils;
pub mod error;
pub mod geolocation;
pub mod headers;
pub mod location;
pub mod logging;
pub mod providers;
pub mod region_utils;
pub mod shared_models;
pub mod text;
pub mod utils;

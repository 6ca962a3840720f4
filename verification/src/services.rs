//! Builders for the addresses of third-party badge and card services.

pub mod urls;

//! Sampling of host and container resource usage, and the metric series
//! that expose the samples to a scraper.
//!
//! The collectors in [`metrics`] turn what was read from the container
//! runtime and from the process table into samples. [`server`] owns the
//! long-lived series, folds the samples of one scrape into them and renders
//! the text snapshot. [`config`] settles the address to listen on.

pub mod config;
pub mod metrics;
pub mod series;
pub mod server;
mod text;

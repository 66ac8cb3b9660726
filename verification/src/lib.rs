//! The core of a terminal dashboard that tracks market symbols: the price
//! series and its indicators, the window selection for display, and the state
//! machine that owns what the dashboard shows and edits.
//!
//! Prices are an abstract type `P` throughout. The arithmetic on prices is
//! supplied by the caller as closures, and every contract here says which
//! values a closure was applied to and where its result went.

pub mod text;
pub mod config;
pub mod error;
pub mod persistence;
pub mod stock_data;
pub mod data;
pub mod analysis;
pub mod event;
pub mod aggregator;
pub mod app;
pub mod layout;

//! A small HTTP backend: a static index page, a fixed product listing,
//! and a partially implemented article store backed by SQLite.
//!
//! The request/response decisions live in [`http`], the data model in
//! [`article`] and [`product`], and the storage layer in [`db`]. Network
//! wiring (routing, listening) is left to the binary around this crate.

pub mod article;
pub mod db;
pub mod http;
pub mod product;

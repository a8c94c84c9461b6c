//! Query, pagination, search and sort core of a blogging content API.
//!
//! The crate turns loosely-typed client parameters into validated page
//! requests, composes the parameterized count/fetch query pairs that a
//! relational store executes, materializes raw rows into post, tag and
//! user read-models (with batched tag resolution), and wraps results in
//! a uniform pagination envelope.  All I/O — HTTP handling, connection
//! pooling, query execution — lives outside this crate; it hands rows in
//! and takes responses back as plain values.

pub mod config;
pub mod error;
pub mod listing;
pub mod materialize;
pub mod model;
pub mod params;
pub mod query;
pub mod response;
pub mod sort;
pub mod text;

//! A quote service without I/O of its own.
//!
//! The service answers HTTP requests for short quotes and their images. It
//! holds no store and performs no lookup. [`http::handle`] takes a request
//! and either gives the response or names a lookup; the host performs the
//! lookup and hands the answer to [`http::proceed`], which again gives the
//! response or names the next lookup. No request needs more than two.
//!
//! - [`models`]: the quote and the payloads sent to clients
//! - [`json`]: the JSON text of the payloads
//! - [`rows`]: reading the rows that the record store answers with
//! - [`db`]: the record store gateway, its statements and what their rows mean
//! - [`blobs`]: the blob store gateway, the key of an image
//! - [`params`]: reading an identifier from a path
//! - [`service`]: the operations, as exchanges of lookups and answers
//! - [`http`]: routes and responses
//! - [`laws`]: what holds of all this against any store
//! - [`text`]: characters and decimal numbers

pub mod blobs;
pub mod db;
pub mod http;
pub mod json;
pub mod laws;
pub mod models;
pub mod params;
pub mod rows;
pub mod service;
pub mod text;

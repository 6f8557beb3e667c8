//! A record-keeping service for users, products and reviews.
//!
//! The service keeps three kinds of records in ordered stores, each under an
//! identifier that an allocator hands out once and never again. A request to
//! make, change or remove a record is checked against all three stores before
//! anything is written: formats, roles, uniqueness, ranges, references and
//! ownership. Removing a product removes its reviews with it.
//!
//! - [`registry`] holds the service and its operations.
//! - [`model`] says what the service holds and what each request does to it,
//!   as mathematics; the operations are specified by it.
//! - [`laws`] proves what follows from the model for every state and request.
//! - [`store`] holds the stores and the allocators, [`regions`] the regions
//!   of memory they live in, [`records`] the records and the payloads,
//!   [`error`] the errors and their messages.
//! - [`storage`] and [`pattern`] are the boundaries to the stable structures
//!   and to the regular expressions: what is stated there is not proved.
//! - [`listing`] and [`text`] hold what the others share.

pub mod error;
pub mod laws;
pub mod listing;
pub mod model;
pub mod pattern;
pub mod records;
pub mod regions;
pub mod registry;
pub mod storage;
pub mod store;
pub mod text;

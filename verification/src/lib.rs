//! Core of a small API backend: a cookie-carried authentication gateway
//! (signed-token issue/verify) and a listing query engine (parameter
//! normalization, bounded SQL construction, bigram similarity ranking,
//! pagination metadata and navigation links).
//!
//! Everything that decides or computes lives here and is verified; the
//! surrounding HTTP wiring and the store calls live outside the library.

pub mod accounts;
pub mod dtos;
pub mod gateway;
pub mod listing;
pub mod models;
pub mod numfmt;
pub mod requests;
pub mod responses;
pub mod similarity;
pub mod sqlgen;
pub mod token;

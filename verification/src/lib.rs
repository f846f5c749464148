//! Request validation and error mapping for a recipe store: identifiers are
//! checked before any lookup, and every store outcome is turned into exactly
//! one externally visible response.

pub mod db;
pub mod errors;
pub mod helpers;
pub mod models;
pub mod repository;
pub mod routes;

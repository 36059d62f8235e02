//! An inventory of bicycle records with optimistic versioning.
//!
//! The entity model and its text encoding live in `model`; the repository
//! contract, an in-memory store that meets it and the laws that hold of the
//! store live in `repository`, `memory` and `laws`; `api` is the façade that
//! forwards one request to one repository call; `protocol` decides each step
//! of a write transaction against a SQL store, whose driver only runs the
//! statements it is told to.
use vstd::prelude::*;

pub mod model;
pub mod repository;
pub mod memory;
pub mod laws;
pub mod api;
pub mod protocol;

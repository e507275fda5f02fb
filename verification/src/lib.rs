//! An in-memory collection of named records with the decisions of a small
//! create/read/update/delete service around it.

pub mod item;
pub mod laws;
pub mod model;
pub mod service;
pub mod store;

//! Font identity records, their inference from host descriptors, and the
//! registry that hands them to the typesetting engine.
pub mod book;
pub mod error;
pub mod faces;
pub mod infer;
pub mod info;
pub mod searcher;
pub mod web;

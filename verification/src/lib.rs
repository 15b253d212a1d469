//! Font metadata resolution and artifact export planning for a document
//! typesetting engine.
//!
//! The crate infers typed font identity from the loosely structured names a
//! host hands over, keeps a registry of faces together with their lazy
//! loaders, selects the exporters of a compile run, and plans the rendering of
//! a stored artifact.
pub mod export;
pub mod font;
pub mod order;
pub mod render;
pub mod text;

//! A declarative UI toolkit core: element trees, the builder that assembles
//! them, the callback registry, and the state machine of a window that shows
//! a tree inside an embedded web view.
//!
//! Apart from reading the clock for fresh identifiers, the crate does no
//! I/O. The native event loop, the web view and the host runtime live
//! outside it; they hand plain values in and carry the returned commands
//! out.

pub mod builder;
pub mod color;
pub mod element;
pub mod ident;
pub mod page;
pub mod record;
pub mod registry;
pub mod tree;
pub mod window;

//! A runtime language registry for a syntax-tree pattern-matching engine.
//!
//! The registry resolves a textual language tag ("python", "rust", ...) to a
//! dynamically loaded grammar and exposes that grammar to the rest of the
//! engine. Grammar artifacts are fetched by the host through an asynchronous,
//! fallible load; the registry itself holds the synchronous decision logic:
//! which tag is selected, whether the parsing runtime still needs its
//! one-time initialization, and which grammar is currently published.

pub mod lang;
pub mod registry;

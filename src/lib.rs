//! Response resolution for a template-driven HTTP server.
//!
//! A request becomes a [`context::Context`]; a template renders it into a body and a
//! [`value::StateBag`] of the values it set; the bag selects one strategy, and the
//! strategy yields either a reply made here or an outbound request whose upstream
//! answer is relayed as it came.
//!
//! The values a template may set, as JSON shapes:
//!
//! ```text
//! proxy / redirect: { method?: string, url: string, headers?: {string: string},
//!                     body?: bytes | string | [byte] }
//! modify:           { status?: uint16, headers?: {string: string} }
//! ```
//!
//! A `proxy` wins over a `redirect`, and either over a direct reply. A value that is
//! there but malformed fails the request, except `modify`, which is then ignored.
pub mod value;
pub mod directive;
pub mod headers;
pub mod context;
pub mod error;
pub mod engine;
pub mod paths;
pub mod io;
pub mod assets;
pub mod config;
pub mod filters;
pub mod laws;

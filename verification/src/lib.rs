//! Generates the text of a version-info source module from build metadata.
//!
//! The crate has two halves: a template store that holds the embedded
//! template text, and a render engine that compiles that text once and then
//! substitutes the fields of an [`AppVersion`] record into it on each render.

pub mod clock;
pub mod engine;
pub mod grammar;
pub mod laws;
pub mod numtext;
pub mod record;
pub mod store;

pub use clock::as_unix_ts_millis;
pub use engine::TemplateEngine;
pub use record::AppVersion;
pub use store::Templates;

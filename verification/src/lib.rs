//! A formatting engine for structured trace telemetry: span lifecycle
//! notifications and point-in-time events are rendered into colorized,
//! single-line text, specialized for async-runtime instrumentation.
//!
//! The core pieces are a field recorder that accumulates name/value pairs
//! and memoizes their joined rendering, a classifier that maps span and
//! event identities to a closed kind enumeration driving color selection,
//! a per-span cache of a one-shot rendered string, a scope renderer that
//! concatenates the cached renderings of a span's ancestors, and an event
//! formatter that assembles the final output line.

pub mod classify;
pub mod clock;
pub mod event;
pub mod fields;
pub mod layer;
pub mod span;
pub mod style;
pub mod text;

pub use layer::layer;
pub use layer::Layer;

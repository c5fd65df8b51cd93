//! Browsing of HTTP request/response traces captured by a local collector:
//! a redaction pass that strips sensitive span attributes, a summary
//! formatter that turns traces into selectable label/selector pairs, and a
//! renderer that serialises a redacted trace as a fenced pretty-printed
//! JSON block.
//!
//! The host that registers editor commands performs the actual network
//! fetches and JSON decoding; everything here works on plain values and is
//! verified.

pub mod commands;
pub mod model;
pub mod redact;
pub mod render;
pub mod summary;
pub mod text;

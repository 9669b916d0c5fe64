//! The SearXNG search backend: what to ask a SearXNG instance, and what its
//! JSON answer yields (results and engine warnings).
pub mod json;
pub mod text;
pub mod status;
pub mod searxng;
pub mod laws;

//! Proxy subscription links as configuration documents.
//!
//! A subscription link describes one proxy server. The decoders of this
//! crate read the links of seven protocols into one model, and the renderer
//! writes proxies of that model as a configuration document: a fresh one, or
//! a template with the proxies merged into it. Every function is specified
//! by a function on mathematical values and proved to compute it.

pub mod codec;
pub mod document;
pub mod laws;
pub mod merge;
pub mod model;
pub mod pipeline;
pub mod render;
pub mod subscription;
pub mod text;
pub mod uri;
pub mod wireguard;
pub mod wrapped;
pub mod yaml;

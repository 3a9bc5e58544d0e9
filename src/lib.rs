//! A document store core: a JSON payload is written once under a freshly
//! generated external identifier, read back by that identifier, and
//! returned in a canonical JSON form.

pub mod document;
pub mod error;
pub mod ident;
pub mod json;
pub mod pool;
pub mod readback;
pub mod render;
pub mod session;

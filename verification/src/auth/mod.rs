//! Authentication: credential cookies, access-token claims, refresh-token rotation, and the
//! checks every authenticated request passes.

pub mod cookies;
pub mod dto;
pub mod error;
pub mod extractor;
pub mod session;
pub mod token;
pub mod uuid_text;

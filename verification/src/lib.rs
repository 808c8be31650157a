//! Session-credential lifecycle: issuing signed access/refresh token pairs,
//! a single-use store of refresh records, the rotation protocol that detects
//! replay, and attribute-correct transport cookies.

pub mod cookies;
pub mod errors;
pub mod issuer;
pub mod jwt;
pub mod provider;
pub mod redirect;
pub mod rotation;
pub mod store;
pub mod strutil;

pub use errors::ErrorKind;

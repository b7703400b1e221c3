//! Authenticated request layer of a command-line client for a content API:
//! the credential record and its file format, the response envelope, the
//! error taxonomy and the construction of every API request.

pub mod api;
pub mod cli;
pub mod codec;
pub mod error;
mod outside;
pub mod payload;
pub mod response;
pub mod store;
pub mod text;

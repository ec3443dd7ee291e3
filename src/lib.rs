//! A client for a gist host: the requests of its four operations, the
//! classification of every answer, the decoding of gists from JSON, the
//! rehydration of truncated files, the credential cache's text, and the
//! rendering of listings and files.

pub mod api;
pub mod auth;
pub mod decode;
pub mod entity;
pub mod headers;
pub mod json;
pub mod render;
pub mod resolve;
pub mod text;

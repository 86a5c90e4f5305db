//! The request-building and redirect-following rules of the `fetch` global:
//! which method and headers a (possibly redirected) request carries, when two
//! URIs share an origin, how fetch options are read and checked, and the state
//! machine that follows redirect responses.

pub mod error;
pub mod headers;
pub mod method;
pub mod options;
pub mod redirect;
pub mod request;
pub mod text;
pub mod uri;

//! A client-side core for a paged remote catalog: a cursor-based pagination
//! engine and a tag-driven decoder for polymorphic catalog resources.
//!
//! `pagination` draws a remote collection page by page behind a
//! monotonically advancing cursor; `feed` decodes one raw catalog object
//! into exactly one member of a closed variant set; `search`, `media` and
//! `review` hold the option bags and wire shapes around them.  Transport,
//! sessions and URL construction are a collaborator's business and live
//! outside this crate.

pub mod common;
pub mod error;
pub mod feed;
pub mod json;
pub mod media;
pub mod pagination;
pub mod review;
pub mod search;
pub mod text;
pub mod urlquery;

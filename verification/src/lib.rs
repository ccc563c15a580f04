//! spools is a content-scraping library for a social network's undocumented
//! GraphQL/HTML API. It reconstructs a typed object model — users, posts,
//! media — out of partially-shaped JSON documents: it resolves short post
//! codes to numeric ids by scanning an HTML page, builds the parameterized
//! GraphQL requests, walks the returned JSON trees into `User`, `Post`,
//! `Author` and `Media` records, and partitions flat thread listings into
//! parents, target and direct replies.
//!
//! The request transport itself (HTTP, headers, the connection pool) is left
//! to the embedding program; everything here works on plain values and is
//! verified against the contracts stated on each function.
pub mod client;
pub mod error;
pub mod json;
pub mod mapper;
pub mod media;
pub mod partition;
pub mod post;
pub mod query;
pub mod resolve;
pub mod user;

pub use error::SpoolsError;
pub use error::Types;
pub use json::Json;
pub use media::Media;
pub use media::MediaKind;
pub use post::Post;
pub use post::Subpost;
pub use user::Author;
pub use user::User;

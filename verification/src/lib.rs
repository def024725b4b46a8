//! Decisions of an object-retrieval interception handler: which byte range to
//! fetch, how the fetched text is transformed, and what is written back.

pub mod error;
pub mod handler;
pub mod headers;
pub mod machine;
pub mod model;
pub mod runs;
pub mod text;

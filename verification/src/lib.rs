//! Post records for a Markdown blog: the front matter codec, slugs for new
//! posts, and the rules by which a content directory is listed, read and
//! written.

pub mod clock;
pub mod config;
pub mod error;
pub mod frontmatter;
pub mod listing;
pub mod matter;
pub mod post;
pub mod slug;
pub mod store;
pub mod sync;
pub mod text;

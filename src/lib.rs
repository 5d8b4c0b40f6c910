//! Watches a forum listing page: extracts post records from its HTML,
//! remembers the posts already seen, and picks out the new ones.

pub mod db;
pub mod extract;
pub mod meta;
pub mod post;
pub mod sync;
pub mod timestamp;

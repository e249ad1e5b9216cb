//! The logic of a single-page "link in bio" site on atproto: the page record,
//! the records that linked services keep for a user, the URLs and request
//! bodies the site sends, and the Markdown rendering of descriptions.
use vstd::prelude::*;

pub mod helper;
pub mod pages;
pub mod resources;
pub mod text;

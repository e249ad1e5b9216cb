//! Formatting helpers: Markdown to HTML, service URLs, hosts, icons and times.
pub mod md;
pub mod url;
pub mod utils;

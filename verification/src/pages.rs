//! The decisions behind the site's pages: what each page shows and how its
//! forms change the page record.
pub mod atpage;
pub mod auth;
pub mod home;
pub mod tpage;

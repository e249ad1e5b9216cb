//! The services whose records can show on a page, one module each.
pub mod frontpage;
pub mod grain;
pub mod leaflet;
pub mod nooki;
pub mod pinksea;
pub mod popfeed;
pub mod recipe;
pub mod ruthub;
pub mod smokesignal;
pub mod whitewind;

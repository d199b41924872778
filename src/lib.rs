//! Wallpaper picking: building the search request, reading the image catalog
//! out of the search response, sampling images, naming downloaded files and
//! keeping the configured download directory.

pub mod catalog;
pub mod directory;
pub mod download;
pub mod json;
pub mod query;
pub mod select;

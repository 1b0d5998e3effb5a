//! Paginated thumbnails for image directories: content-based format
//! classification, naturally ordered listings, pixel downscaling, a
//! directory-backed thumbnail cache and the decisions of a batch request.
//!
//! Reading and writing files and the JPEG codec are left to the caller: the
//! library decides, step by step, what is to be read, decoded, encoded or
//! written (see `cache::next_action`), and assembles the answer.
pub mod cache;
pub mod codec;
pub mod gallery;
pub mod media;
pub mod natural;

//! Opens a zip-packaged book, finds and parses its package document, and
//! gives typed access to each content item by reading-order position or by
//! reference path.

pub mod content_opf;
pub mod epub;
pub mod epub_path;
pub mod error;
pub mod manifest;
pub mod media_type;
pub mod opf_model;
pub mod repository;
pub mod text;
pub mod use_case;
pub mod viewer;
pub mod xml;
pub mod zip_utils;

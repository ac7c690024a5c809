//! A client library for a cloud OCR service that performs document text
//! detection on raster images.
//!
//! The heart of the library is the response data model: a payload returned by
//! the service is held as a [`json::Json`] value, and the two accessors of
//! [`response::Response`] project it into either a flat list of
//! [`annotation::TextAnnotation`]s or a hierarchical
//! [`document::FullTextAnnotation`] tree. Bounding-box geometry lives in
//! [`geometry`], and the outbound request shape in [`client`].

pub mod annotation;
pub mod client;
pub mod document;
pub mod error;
pub mod geometry;
pub mod json;
pub mod response;

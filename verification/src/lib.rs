//! Server-side rendering core for an infinite-scroll image gallery.
//!
//! The library holds the pure logic of the gallery: parsing navigation
//! directions and image references out of query-parameter strings, the
//! counter that varies the placeholder image URLs, and the renderers that
//! produce the HTML fragments served over HTTP. The HTTP server itself
//! lives outside the library and only moves plain strings in and out.

pub mod counter;
pub mod direction;
pub mod numbers;
pub mod refparse;
pub mod render;

//! Pixel analysis for RGBA sprite buffers: alpha bounding boxes, colour
//! classification and histograms, edge density, material triage, sprite
//! triage and edge cleaning. Every ratio is reported as an exact fraction.

pub mod pixels;
pub mod fraction;
pub mod bounds;
pub mod color;
pub mod histogram;
pub mod edges;
pub mod material;
pub mod summary;
pub mod engine;
pub mod clean;
pub mod sprite;
pub mod laws;

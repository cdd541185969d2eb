//! A tiny CPU-only 2D rasterizer core.
//!
//! The crate covers the numerically delicate heart of a software vector
//! renderer: clipping line segments against the render target while
//! preserving winding order, integer sizes for pixel buffers, and the
//! construction of gradient shader stages for a raster pipeline. Device
//! coordinates and color channels are exact fixed-point scalars (see
//! [`geom`]), so every geometric and colorimetric statement proved here is
//! exact rather than approximate.

pub mod color;
pub mod geom;
pub mod int_rect;
pub mod int_size;
pub mod line_clipper;
pub mod raster_pipeline;
pub mod shaders;

//! Point-in-region queries over polygonal geographic regions: an exact
//! ray-casting containment test, and a two-tier query that consults a
//! hexagonal-cell spatial index first and the exact test second.
//!
//! Coordinates are carried as the IEEE-754 bit patterns of `f64` degrees
//! (see [`polygon::Coord`]); the geometry primitives reinterpret them.

pub mod error;
pub mod geojson_utils;
pub mod laws;
pub mod polygon;
pub mod spatial_index;

pub use error::GeoContainsError;
pub use geojson_utils::{convert_coordinates_to_polygon, point_in_polygons};
pub use polygon::{Coord, Polygon};
pub use spatial_index::SpatialIndex;

pub mod composite;
pub mod context;
pub mod error;
pub mod fixed;
pub mod geometry;
pub mod iri;
pub mod length;
pub mod lighting;
pub mod primitive;
pub mod rect;
pub mod srgb;
pub mod surface;
pub mod xml;

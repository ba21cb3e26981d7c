pub mod bodies;

pub use bodies::{BodyType, PixelPlanet};

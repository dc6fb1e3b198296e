//! A small 2D flight / landing simulation engine.
//!
//! All geometry is carried in fixed-point integers: a coordinate is a whole
//! number of milli-units (1/1000 of a world unit), and the trigonometric
//! table stores sines and cosines scaled by 10_000.  Every public operation
//! carries a contract describing its exact effect on that integer model.

pub mod engine;
pub mod geom;
pub mod levels;
pub mod rand;

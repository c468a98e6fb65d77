//! Evenly spread points on a sphere by the golden-angle spiral, and the
//! seeded random stream that drives reproducible perturbations of them.
pub mod rng;
pub mod spiral;

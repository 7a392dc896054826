//! Control core of a two-rank collective transport that stripes each logical
//! message over several independent byte streams.

pub mod exchange;
pub mod fabric;
pub mod reduce;
pub mod stripe;

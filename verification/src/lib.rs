//! Matching of two recorded trajectories: decoding of location histories into
//! time-ordered points, and the selection of the closest pairs of points of
//! two records.

pub mod compute;
pub mod decoders;
pub mod errors;
pub mod process;
pub mod utils;

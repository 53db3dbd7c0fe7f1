pub mod errors;
pub mod fileutils;

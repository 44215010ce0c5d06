//! Conversion of a single numeric literal given on the command line.
pub mod hex;
pub mod render;
pub mod cli;

//! Generator for `solve.py` exploitation-script stubs.
//!
//! The library resolves a script template (a built-in default or a
//! user-supplied one), binds a small set of path-derived variables, renders
//! the template, and decides the write-once step for the output file. All
//! filesystem work is left to the surrounding program; the functions here
//! compute on plain values.

pub mod opts;
pub mod solvepy;

//! Scaffolding library for new Casper smart-contract projects.
//!
//! The library resolves command-line tokens into a configuration, renders the
//! dependency declarations and manifest patch sections for the generated
//! packages, and assembles the full list of directories and files that a new
//! project skeleton consists of.  Writing those files to disk is left to the
//! thin binary around the library.

pub mod args;
pub mod common;
pub mod contract_package;
pub mod dependency;
pub mod driver;
pub mod makefile;
pub mod tests_package;
pub mod travis_yml;
pub mod wrapper;

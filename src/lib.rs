//! Projection of Cargo build units into CMake import directives, and selection of the link
//! driver used when Rust code is linked together with other compiled languages.

pub mod platform;
pub mod target;
pub mod text;
pub mod directive;
pub mod emit;
pub mod stream_laws;
pub mod linker;
pub mod generate;
pub mod cargo_build;
pub mod bridge;
pub mod integrator;

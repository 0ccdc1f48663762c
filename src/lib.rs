//! Library side of a command-line front end for security-tooling containers:
//! the configuration record with its defaulting, loading and update rules,
//! the container and image metadata model, and small validation helpers.

pub mod config;
pub mod container;
pub mod ident;
pub mod image;
pub mod output;
pub mod paths;
pub mod utils;

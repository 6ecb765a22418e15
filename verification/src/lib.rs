pub mod accounts;
pub mod args;
pub mod cli;
pub mod codegen;
pub mod config;
pub mod emitter;
pub mod error;
pub mod laws;
pub mod mock;
pub mod paths;
pub mod resolution;
pub mod resolver;
pub mod scan;
pub mod schema;
pub mod seeds;
pub mod shapes;
pub mod syntax;
pub mod text;
pub mod workspace;

//! Detection of Nx monorepos and synthesis of the build and start commands
//! of the application they target.

pub mod json;
pub mod text;
pub mod schema;
pub mod workspace;
pub mod nx;
pub mod laws;

//! What is read of a source tree and of the environment: a snapshot that the
//! caller takes before asking anything of it.

use vstd::prelude::*;

verus! {

/// The name of the environment variable that names the application.
pub const NX_APP_NAME_ENV_VAR: &'static str = "NX_APP_NAME";

/// One subdirectory of the root `apps` directory.
#[derive(Debug, PartialEq, Eq)]
pub struct AppDir {
    /// The directory's name, which is the application's name.
    pub name: String,
    /// The text of its `project.json`, where that file exists.
    pub project_json: Option<String>,
    /// The text of its `package.json`, where that file exists.
    pub package_json: Option<String>,
}

/// A source tree.
#[derive(Debug, PartialEq, Eq)]
pub struct App {
    /// The text of `nx.json` at the root, where that file exists.
    pub nx_json: Option<String>,
    /// The subdirectories of the root `apps` directory, in any order, where
    /// that directory exists.
    pub apps: Option<Vec<AppDir>>,
    /// The package manager's command that runs a package without installing
    /// it (`npx`, `pnpm dlx`, `yarn dlx`, `bunx`).
    pub dlx_command: String,
}

/// The configuration variables of the build.
#[derive(Debug, PartialEq, Eq)]
pub struct Environment {
    /// The value of the variable named by `NX_APP_NAME_ENV_VAR`, where it is set.
    pub nx_app_name: Option<String>,
}

} // verus!

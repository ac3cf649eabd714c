use vstd::prelude::*;

verus! {

/// Startup failure: the environment file could not be read, or named
/// variables are missing from the environment.
#[derive(Debug, PartialEq, Eq)]
pub enum AppError {
    EnvFile,
    EnvVarsMissing { var: Vec<String> },
}

} // verus!

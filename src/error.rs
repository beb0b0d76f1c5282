use vstd::prelude::*;
use crate::toolchain::Toolchain;

verus! {

/// Why a build did not run.
#[derive(Debug)]
pub enum BuildError {
    /// The manifest file or one of `src/`, `include/`, `build/` is missing.
    InvalidDirectory,
    /// The manifest text is malformed or lacks a required field.
    InvalidManifest,
    /// The manifest names a compiler that builds cannot run with.
    UnsupportedCompiler(Toolchain),
    /// Reading the manifest or a directory failed; holds the system's message.
    IoError(String),
    /// The compiler could not be started; holds the system's message.
    ProcessSpawnFailure(String),
}

impl BuildError {
    /// The text shown for this error.
    pub fn message(&self) -> (r: String)
        ensures
            match self {
                BuildError::InvalidDirectory => r@ == "Error: Project has invalid structure.\n"@,
                BuildError::InvalidManifest => r@ == "Error: Manifest is invalid.\n"@,
                BuildError::UnsupportedCompiler(_) => r@
                    == "Error: Compiler given in the manifest is invalid.\n"@,
                BuildError::IoError(e) => r@ == "Error: "@ + e@ + "\n"@,
                BuildError::ProcessSpawnFailure(e) => r@ == "Error: Failed to start compiler: "@
                    + e@ + "\n"@,
            },
    {
        match self {
            BuildError::InvalidDirectory => "Error: Project has invalid structure.\n".to_owned(),
            BuildError::InvalidManifest => "Error: Manifest is invalid.\n".to_owned(),
            BuildError::UnsupportedCompiler(_) => {
                "Error: Compiler given in the manifest is invalid.\n".to_owned()
            },
            BuildError::IoError(e) => "Error: ".to_owned().concat(e.as_str()).concat("\n"),
            BuildError::ProcessSpawnFailure(e) => "Error: Failed to start compiler: ".to_owned().concat(
                e.as_str(),
            ).concat("\n"),
        }
    }
}

} // verus!

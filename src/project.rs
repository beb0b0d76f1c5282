use vstd::prelude::*;
use crate::layout::{all_present, validate_layout};
use crate::manifest::{manifest_of, Manifest};
use crate::toolchain::{Toolchain, toolchain_of};

verus! {

/// The quoted, escaped form in which Rust's `Debug` shows a string.
pub uninterp spec fn debug_quoted(s: Seq<char>) -> Seq<char>;

/// Relies on `<str as Debug>::fmt`: a string in double quotes with its
/// quotes, backslashes and unprintable characters escaped. The result
/// depends on the string alone.
#[verifier::external_body]
fn quoted(s: &str) -> (r: String)
    ensures
        r@ == debug_quoted(s@),
{
    format!("{:?}", s)
}

/// Why a project could not be opened or set up.
#[derive(Debug)]
pub enum ProjectError {
    /// The manifest file or one of `src/`, `include/`, `build/` is missing.
    InvalidDirectory,
    /// The manifest is missing or invalid.
    InvalidManifest,
    /// The manifest names a compiler that builds cannot run with.
    UnsupportedCompiler(Toolchain),
    /// The given path does not exist; holds the path.
    InvalidPath(String),
    /// A filesystem operation failed; holds the system's message.
    IoError(String),
    /// The given path is not empty; holds the path.
    NonEmptyPath(String),
}

impl ProjectError {
    /// The text shown for this error.
    pub fn message(&self) -> (r: String)
        ensures
            match self {
                ProjectError::InvalidDirectory => r@ == "Error: Project has invalid structure.\n"@,
                ProjectError::InvalidManifest => r@
                    == "Error: Manifest is either invalid, failed to be created, or does not exist.\n"@,
                ProjectError::UnsupportedCompiler(_) => r@
                    == "Error: Compiler given in the manifest is invalid.\n"@,
                ProjectError::InvalidPath(s) => r@ == "Error: Invalid path given. \n "@
                    + debug_quoted(s@) + "\n"@,
                ProjectError::IoError(e) => r@ == "Error: Project caused an std::io::Error. \n "@
                    + e@ + "\n"@,
                ProjectError::NonEmptyPath(s) => r@ == "Error: Path given is not empty. \n "@
                    + s@ + "\n"@,
            },
    {
        match self {
            ProjectError::InvalidDirectory => "Error: Project has invalid structure.\n".to_owned(),
            ProjectError::InvalidManifest => {
                "Error: Manifest is either invalid, failed to be created, or does not exist.\n".to_owned()
            },
            ProjectError::UnsupportedCompiler(_) => {
                "Error: Compiler given in the manifest is invalid.\n".to_owned()
            },
            ProjectError::InvalidPath(s) => "Error: Invalid path given. \n ".to_owned().concat(
                quoted(s.as_str()).as_str(),
            ).concat("\n"),
            ProjectError::IoError(e) => "Error: Project caused an std::io::Error. \n ".to_owned().concat(
                e.as_str(),
            ).concat("\n"),
            ProjectError::NonEmptyPath(s) => "Error: Path given is not empty. \n ".to_owned().concat(
                s.as_str(),
            ).concat("\n"),
        }
    }
}

/// A project opened from an existing root.
pub struct Project {
    pub manifest: Manifest,
    pub path: String,
}

impl Project {
    /// Opens the project at `path`. `found[i]` tells whether the `i`-th
    /// path of `layout::layout_paths(path)` exists (the manifest, `src`,
    /// `include`, `build`); `manifest_text` is the manifest's text, where it
    /// could be read. The layout is checked first: unless all four exist,
    /// this fails with `InvalidDirectory`, whatever the manifest holds. Then
    /// a missing or invalid manifest fails with `InvalidManifest`, and one
    /// whose compiler no build can run with fails with `UnsupportedCompiler`.
    pub fn build(path: &str, found: &Vec<bool>, manifest_text: Option<String>) -> (r: Result<
        Project,
        ProjectError,
    >)
        ensures
            !all_present(found@) ==> r matches Err(ProjectError::InvalidDirectory),
            all_present(found@) ==> match manifest_text {
                None => r matches Err(ProjectError::InvalidManifest),
                Some(t) => match manifest_of(t@) {
                    None => r matches Err(ProjectError::InvalidManifest),
                    Some(mv) => match toolchain_of(mv.compiler) {
                        Toolchain::Gcc => r matches Ok(pr) && pr.manifest@ == mv && pr.path@
                            == path@,
                        tc => r matches Err(ProjectError::UnsupportedCompiler(u)) && u == tc,
                    },
                },
            },
    {
        if validate_layout(found).is_err() {
            return Err(ProjectError::InvalidDirectory);
        }
        let text = match manifest_text {
            None => {
                return Err(ProjectError::InvalidManifest);
            },
            Some(t) => t,
        };
        let manifest = match Manifest::parse(text.as_str()) {
            Ok(m) => m,
            Err(_) => {
                return Err(ProjectError::InvalidManifest);
            },
        };
        let tc = Toolchain::resolve(manifest.build.compiler.as_str());
        match tc {
            Toolchain::Gcc => Ok(Project { manifest, path: path.to_owned() }),
            _ => Err(ProjectError::UnsupportedCompiler(tc)),
        }
    }
}

} // verus!

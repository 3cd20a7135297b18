//! The directory into which layer blobs are written.
use vstd::prelude::*;

verus! {

/// A file system path, carried through unchanged.
#[verifier::external_type_specification]
#[verifier::external_body]
pub struct ExPathBuf(std::path::PathBuf);

/// The output directory to which downloaded content is written.
#[derive(Debug, PartialEq, Eq, Hash)]
pub struct OutputDir {
    /// Whether the path was created as a temporary directory.
    pub is_temporary: bool,
    /// The absolute path to the directory.
    pub path: std::path::PathBuf,
}

/// Why a user-supplied output location is refused.
#[derive(Debug, PartialEq, Eq, Hash)]
pub enum OutputDirError {
    /// The canonical path already exists and is a regular file.
    IsFile(std::path::PathBuf),
}

impl OutputDir {
    /// Accepts a user-supplied location, given its canonical path and whether a regular file
    /// stands there: a file is refused, anything else (a directory, empty or not, or
    /// nothing) is accepted.
    pub fn from_canonical(path: std::path::PathBuf, is_file: bool) -> (r: Result<
        OutputDir,
        OutputDirError,
    >)
        ensures
            is_file <==> r is Err,
            r matches Ok(d) ==> d.path == path && !d.is_temporary,
            r matches Err(OutputDirError::IsFile(p)) ==> p == path,
    {
        if is_file {
            Err(OutputDirError::IsFile(path))
        } else {
            Ok(OutputDir { is_temporary: false, path })
        }
    }

    /// A freshly created temporary directory, which this library never deletes.
    pub fn temporary(path: std::path::PathBuf) -> (r: OutputDir)
        ensures
            r.path == path,
            r.is_temporary,
    {
        OutputDir { is_temporary: true, path }
    }
}

} // verus!

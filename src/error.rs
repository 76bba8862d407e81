use vstd::prelude::*;

verus! {

/// Why an install step failed.
#[derive(Debug, Clone, PartialEq, Eq)]
pub enum InstallError {
    /// The request itself is unusable: the install directory does not exist.
    Validation(String),
    /// A transport failure while talking to a metadata service or a mirror.
    Network(String),
    /// A document did not have the expected shape.
    Decode(String),
    /// A library name is not of the form `group:artifact:version`.
    CoordinateParse(String),
    /// A library path cannot be written relative to the bundle's directory.
    Path(String),
    /// A file could not be read, written or created.
    Io(String),
    /// A mirror answered an artifact request with a non-success status.
    Download { status: u16 },
}

} // verus!

use vstd::prelude::*;

use crate::paths::DirKind;

verus! {

/// The I/O error of a failed filesystem call, carried through unread.
#[verifier::external_type_specification]
#[verifier::external_body]
pub struct ExIoError(std::io::Error);

/// A directory that could not be created, with the cause.
#[derive(Debug)]
pub enum CreateError {
    Config(std::io::Error),
    Cache(std::io::Error),
    Data(std::io::Error),
}

/// A directory that could not be removed, with the cause.
#[derive(Debug)]
pub enum RemoveError {
    Config(std::io::Error),
    Cache(std::io::Error),
    Data(std::io::Error),
}

impl CreateError {
    pub open spec fn failed_dir(&self) -> DirKind {
        match self {
            CreateError::Cache(_) => DirKind::Cache,
            CreateError::Config(_) => DirKind::Config,
            CreateError::Data(_) => DirKind::Data,
        }
    }

    /// The directory that could not be created.
    pub fn kind(&self) -> (r: DirKind)
        ensures
            r == self.failed_dir(),
    {
        match self {
            CreateError::Cache(_) => DirKind::Cache,
            CreateError::Config(_) => DirKind::Config,
            CreateError::Data(_) => DirKind::Data,
        }
    }
}

impl RemoveError {
    pub open spec fn failed_dir(&self) -> DirKind {
        match self {
            RemoveError::Cache(_) => DirKind::Cache,
            RemoveError::Config(_) => DirKind::Config,
            RemoveError::Data(_) => DirKind::Data,
        }
    }

    /// The directory that could not be removed.
    pub fn kind(&self) -> (r: DirKind)
        ensures
            r == self.failed_dir(),
    {
        match self {
            RemoveError::Cache(_) => DirKind::Cache,
            RemoveError::Config(_) => DirKind::Config,
            RemoveError::Data(_) => DirKind::Data,
        }
    }
}

} // verus!

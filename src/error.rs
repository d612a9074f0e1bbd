//! Every way a load can fail, and the checks that pick the failure.
use vstd::prelude::*;
use std::path::PathBuf;
use crate::container::ContainerType;

verus! {

/// Errors of the discovery of the files that make up a model.
#[derive(Debug)]
pub enum FindAllModelFilesError {
    /// The model's path has no parent directory to search.
    NoParentPath {
        /// The path without a parent.
        path: PathBuf,
    },
    /// Listing the directory failed.
    IO(std::io::Error),
}

/// Errors encountered during the loading process.
#[derive(Debug)]
pub enum LoadError {
    /// A file failed to open.
    OpenFileFailed {
        /// The original error.
        source: std::io::Error,
        /// The path that failed.
        path: PathBuf,
    },
    /// There is no parent path for a given path.
    NoParentPath {
        /// The path without a parent.
        path: PathBuf,
    },
    /// Reading exactly `bytes` from a file failed.
    ReadExactFailed {
        /// The original error.
        source: std::io::Error,
        /// The number of bytes that were attempted to be read.
        bytes: usize,
    },
    /// A non-specific I/O error.
    Io(std::io::Error),
    /// One of the strings encountered was not valid UTF-8.
    InvalidUtf8(std::string::FromUtf8Error),
    /// One of the integers encountered could not be converted to a more appropriate type.
    InvalidIntegerConversion(core::num::TryFromIntError),
    /// The storage-format field of the header had an invalid value.
    UnsupportedFileType(i32),
    /// An invalid magic number was encountered during the loading process.
    InvalidMagic {
        /// The path that failed.
        path: PathBuf,
        /// The magic number that was encountered.
        magic: u32,
    },
    /// The version of the container format is not supported.
    InvalidFormatVersion {
        /// The format that was encountered.
        container_type: ContainerType,
        /// The version that was encountered.
        version: u32,
    },
    /// The `f16` hyperparameter had an invalid value.
    HyperparametersF16Invalid {
        /// The format type that was encountered.
        ftype: i32,
    },
    /// The tensor `tensor_name` was encountered during the loading of `path`, but was not
    /// declared in the model prelude.
    UnknownTensor {
        /// The name of the tensor.
        tensor_name: String,
        /// The path that failed.
        path: PathBuf,
    },
    /// The tensor `tensor_name` did not match its expected size.
    TensorWrongSize {
        /// The name of the tensor.
        tensor_name: String,
        /// The path that failed.
        path: PathBuf,
    },
    /// The tensor `tensor_name` did not have a supported format type.
    UnsupportedElementType {
        /// The name of the tensor.
        tensor_name: String,
        /// The format type that was encountered.
        ftype: i32,
        /// The path that failed.
        path: PathBuf,
    },
    /// An internal consistency check failed.
    InvariantBroken {
        /// The path that failed.
        path: PathBuf,
        /// The invariant that was broken.
        invariant: String,
    },
    /// The model could not be created: there were no tensors in it to be loaded.
    ModelNotCreated {
        /// The path that failed.
        path: PathBuf,
    },
    /// Multiple parts of the model were found; only single-file models are supported.
    MultipartNotSupported {
        /// The paths that were found.
        paths: Vec<PathBuf>,
    },
}

/// The load error that a file-discovery error becomes.
pub open spec fn absorbed(e: FindAllModelFilesError) -> LoadError {
    match e {
        FindAllModelFilesError::NoParentPath { path } => LoadError::NoParentPath { path },
        FindAllModelFilesError::IO(err) => LoadError::Io(err),
    }
}

impl From<FindAllModelFilesError> for LoadError {
    fn from(value: FindAllModelFilesError) -> (r: LoadError)
        ensures
            r == absorbed(value),
    {
        match value {
            FindAllModelFilesError::NoParentPath { path } => LoadError::NoParentPath { path },
            FindAllModelFilesError::IO(err) => LoadError::Io(err),
        }
    }
}

impl vstd::std_specs::convert::FromSpecImpl<FindAllModelFilesError> for LoadError {
    open spec fn obeys_from_spec() -> bool {
        true
    }

    open spec fn from_spec(v: FindAllModelFilesError) -> LoadError {
        absorbed(v)
    }
}

/// Each file-discovery error becomes exactly one load error, `NoParentPath` or `Io`,
/// keeping what it carries.
pub proof fn lemma_absorption(e: FindAllModelFilesError)
    ensures
        absorbed(e) is NoParentPath || absorbed(e) is Io,
        e matches FindAllModelFilesError::NoParentPath { path } ==> absorbed(e) == (
        LoadError::NoParentPath { path }),
        e matches FindAllModelFilesError::IO(err) ==> absorbed(e) == LoadError::Io(err),
{
}

impl From<std::io::Error> for LoadError {
    fn from(value: std::io::Error) -> (r: LoadError)
        ensures
            r == LoadError::Io(value),
    {
        LoadError::Io(value)
    }
}

impl vstd::std_specs::convert::FromSpecImpl<std::io::Error> for LoadError {
    open spec fn obeys_from_spec() -> bool {
        true
    }

    open spec fn from_spec(v: std::io::Error) -> LoadError {
        LoadError::Io(v)
    }
}

impl From<std::string::FromUtf8Error> for LoadError {
    fn from(value: std::string::FromUtf8Error) -> (r: LoadError)
        ensures
            r == LoadError::InvalidUtf8(value),
    {
        LoadError::InvalidUtf8(value)
    }
}

impl vstd::std_specs::convert::FromSpecImpl<std::string::FromUtf8Error> for LoadError {
    open spec fn obeys_from_spec() -> bool {
        true
    }

    open spec fn from_spec(v: std::string::FromUtf8Error) -> LoadError {
        LoadError::InvalidUtf8(v)
    }
}

impl From<core::num::TryFromIntError> for LoadError {
    fn from(value: core::num::TryFromIntError) -> (r: LoadError)
        ensures
            r == LoadError::InvalidIntegerConversion(value),
    {
        LoadError::InvalidIntegerConversion(value)
    }
}

impl vstd::std_specs::convert::FromSpecImpl<core::num::TryFromIntError> for LoadError {
    open spec fn obeys_from_spec() -> bool {
        true
    }

    open spec fn from_spec(v: core::num::TryFromIntError) -> LoadError {
        LoadError::InvalidIntegerConversion(v)
    }
}

} // verus!

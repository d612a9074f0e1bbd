//! The container that wraps a model file: its magic number and format version.
use vstd::prelude::*;

verus! {

/// Magic number of a versioned GGML container (`ggmf`).
pub const FILE_MAGIC_GGMF: u32 = 0x67676d66;

/// Magic number of an mmap-able GGML container (`ggjt`).
pub const FILE_MAGIC_GGJT: u32 = 0x67676a74;

/// The only format version this loader reads, for either container.
pub const SUPPORTED_FORMAT_VERSION: u32 = 1;

/// The family of container a model file is stored in.
#[derive(Debug, PartialEq, Eq, Structural, Clone, Copy)]
pub enum ContainerType {
    /// A versioned GGML container.
    Ggmf,
    /// An mmap-able GGML container, with aligned tensor data.
    Ggjt,
}

/// The container a magic number identifies, if any.
pub open spec fn container_of_magic(magic: u32) -> Option<ContainerType> {
    if magic == FILE_MAGIC_GGMF {
        Some(ContainerType::Ggmf)
    } else if magic == FILE_MAGIC_GGJT {
        Some(ContainerType::Ggjt)
    } else {
        None
    }
}

/// The magic number of a container.
pub open spec fn magic_of(c: ContainerType) -> u32 {
    match c {
        ContainerType::Ggmf => FILE_MAGIC_GGMF,
        ContainerType::Ggjt => FILE_MAGIC_GGJT,
    }
}

/// Whether this loader reads `version` of container `c`.
pub open spec fn is_supported_version(c: ContainerType, version: u32) -> bool {
    version == SUPPORTED_FORMAT_VERSION
}

impl ContainerType {
    /// The container identified by `magic`, or `None` for an unrecognized value.
    pub fn from_magic(magic: u32) -> (r: Option<ContainerType>)
        ensures
            r == container_of_magic(magic),
    {
        if magic == FILE_MAGIC_GGMF {
            Some(ContainerType::Ggmf)
        } else if magic == FILE_MAGIC_GGJT {
            Some(ContainerType::Ggjt)
        } else {
            None
        }
    }

    /// The magic number that opens a file in this container.
    pub fn magic(&self) -> (r: u32)
        ensures
            r == magic_of(*self),
    {
        match self {
            ContainerType::Ggmf => FILE_MAGIC_GGMF,
            ContainerType::Ggjt => FILE_MAGIC_GGJT,
        }
    }

    /// Whether this loader reads `version` of this container.
    pub fn supports_version(&self, version: u32) -> (r: bool)
        ensures
            r == is_supported_version(*self, version),
    {
        version == SUPPORTED_FORMAT_VERSION
    }
}

} // verus!

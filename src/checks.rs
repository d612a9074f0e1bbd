//! The checks a loader makes on what it reads, each failing fast with the one
//! load error that names what was wrong.
use vstd::prelude::*;
use std::path::PathBuf;
use crate::container::{ContainerType, container_of_magic, is_supported_version};
use crate::error::{FindAllModelFilesError, LoadError, absorbed};
use crate::file_type::{FileType, is_valid_code, tag_of};

verus! {

/// Decodes the storage-format field of a model's header.
pub fn check_file_type(ftype: i32) -> (r: Result<FileType, LoadError>)
    ensures
        is_valid_code(ftype as int) ==> r == Ok::<FileType, LoadError>(tag_of(ftype as int).unwrap()),
        !is_valid_code(ftype as int) ==> r == Err::<FileType, LoadError>(LoadError::UnsupportedFileType(ftype)),
{
    match FileType::try_from(ftype) {
        Ok(t) => Ok(t),
        Err(()) => Err(LoadError::UnsupportedFileType(ftype)),
    }
}

/// Decodes the legacy float-width hyperparameter.
pub fn check_f16_hyperparameter(ftype: i32) -> (r: Result<FileType, LoadError>)
    ensures
        is_valid_code(ftype as int) ==> r == Ok::<FileType, LoadError>(tag_of(ftype as int).unwrap()),
        !is_valid_code(ftype as int) ==> r == Err::<FileType, LoadError>(
            LoadError::HyperparametersF16Invalid { ftype },
        ),
{
    match FileType::try_from(ftype) {
        Ok(t) => Ok(t),
        Err(()) => Err(LoadError::HyperparametersF16Invalid { ftype }),
    }
}

/// Decodes the storage format that tensor `tensor_name` of `path` declares.
pub fn check_element_type(tensor_name: String, ftype: i32, path: PathBuf) -> (r: Result<
    FileType,
    LoadError,
>)
    ensures
        is_valid_code(ftype as int) ==> r == Ok::<FileType, LoadError>(tag_of(ftype as int).unwrap()),
        !is_valid_code(ftype as int) ==> r == Err::<FileType, LoadError>(
            LoadError::UnsupportedElementType { tensor_name, ftype, path },
        ),
{
    match FileType::try_from(ftype) {
        Ok(t) => Ok(t),
        Err(()) => Err(LoadError::UnsupportedElementType { tensor_name, ftype, path }),
    }
}

/// Identifies the container of the file at `path` from the magic number it opens with.
pub fn check_magic(path: PathBuf, magic: u32) -> (r: Result<ContainerType, LoadError>)
    ensures
        container_of_magic(magic) matches Some(c) ==> r == Ok::<ContainerType, LoadError>(c),
        container_of_magic(magic) is None ==> r == Err::<ContainerType, LoadError>(
            LoadError::InvalidMagic { path, magic },
        ),
{
    match ContainerType::from_magic(magic) {
        Some(c) => Ok(c),
        None => Err(LoadError::InvalidMagic { path, magic }),
    }
}

/// Checks that this loader reads `version` of `container_type`.
pub fn check_format_version(container_type: ContainerType, version: u32) -> (r: Result<
    (),
    LoadError,
>)
    ensures
        is_supported_version(container_type, version) ==> r == Ok::<(), LoadError>(()),
        !is_supported_version(container_type, version) ==> r == Err::<(), LoadError>(
            LoadError::InvalidFormatVersion { container_type, version },
        ),
{
    if container_type.supports_version(version) {
        Ok(())
    } else {
        Err(LoadError::InvalidFormatVersion { container_type, version })
    }
}

/// Takes the one file that file discovery found for a model; a model made of
/// any other number of files is refused with all the paths found.
pub fn single_model_file(paths: Vec<PathBuf>) -> (r: Result<PathBuf, LoadError>)
    ensures
        paths@.len() == 1 ==> r == Ok::<PathBuf, LoadError>(paths@[0]),
        paths@.len() != 1 ==> (r matches Err(LoadError::MultipartNotSupported { paths: found })
            && found@ == paths@),
{
    if paths.len() == 1 {
        let mut paths = paths;
        let p = paths.pop();
        match p {
            Some(p) => Ok(p),
            None => Err(LoadError::MultipartNotSupported { paths }),
        }
    } else {
        Err(LoadError::MultipartNotSupported { paths })
    }
}

/// Turns the outcome of file discovery into the single file to load: a discovery
/// error is absorbed, and more than one file is refused.
pub fn discover_single_file(found: Result<Vec<PathBuf>, FindAllModelFilesError>) -> (r: Result<
    PathBuf,
    LoadError,
>)
    ensures
        found matches Err(e) ==> r == Err::<PathBuf, LoadError>(absorbed(e)),
        found matches Ok(paths) ==> (paths@.len() == 1 ==> r == Ok::<PathBuf, LoadError>(
            paths@[0],
        )),
        found matches Ok(paths) ==> (paths@.len() != 1 ==> (r matches Err(
            LoadError::MultipartNotSupported { paths: p },
        ) && p@ == paths@)),
{
    match found {
        Ok(paths) => single_model_file(paths),
        Err(e) => Err(LoadError::from(e)),
    }
}

/// Checks that the manifest of the file at `path` declared at least one tensor.
pub fn check_tensor_count(path: PathBuf, tensor_count: usize) -> (r: Result<(), LoadError>)
    ensures
        tensor_count > 0 ==> r == Ok::<(), LoadError>(()),
        tensor_count == 0 ==> r == Err::<(), LoadError>(LoadError::ModelNotCreated { path }),
{
    if tensor_count > 0 {
        Ok(())
    } else {
        Err(LoadError::ModelNotCreated { path })
    }
}

/// The position of `tensor_name` among the tensors that the manifest declared.
pub fn find_declared_tensor(declared: &Vec<String>, tensor_name: String, path: PathBuf) -> (r:
    Result<usize, LoadError>)
    ensures
        r matches Ok(i) ==> i < declared@.len() && declared@[i as int]@ == tensor_name@ && (
        forall|j: int| 0 <= j < i ==> declared@[j]@ != tensor_name@),
        r is Err <==> (forall|j: int| 0 <= j < declared@.len() ==> declared@[j]@ != tensor_name@),
        r is Err ==> r == Err::<usize, LoadError>(LoadError::UnknownTensor { tensor_name, path }),
{
    let mut i: usize = 0;
    while i < declared.len()
        invariant
            i <= declared@.len(),
            forall|j: int| 0 <= j < i ==> declared@[j]@ != tensor_name@,
        decreases declared@.len() - i,
    {
        if declared[i] == tensor_name {
            return Ok(i);
        }
        i = i + 1;
    }
    Err(LoadError::UnknownTensor { tensor_name, path })
}

/// Checks that tensor `tensor_name` of `path` holds the number of bytes that its
/// shape and storage format call for.
pub fn check_tensor_size(tensor_name: String, path: PathBuf, expected: usize, actual: usize) -> (r:
    Result<(), LoadError>)
    ensures
        expected == actual ==> r == Ok::<(), LoadError>(()),
        expected != actual ==> r == Err::<(), LoadError>(
            LoadError::TensorWrongSize { tensor_name, path },
        ),
{
    if expected == actual {
        Ok(())
    } else {
        Err(LoadError::TensorWrongSize { tensor_name, path })
    }
}

} // verus!

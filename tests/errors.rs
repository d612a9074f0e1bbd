use std::path::PathBuf;

use llama_loader::checks::{
    check_element_type, check_f16_hyperparameter, check_file_type, check_format_version,
    check_magic, check_tensor_count, check_tensor_size, discover_single_file,
    find_declared_tensor, single_model_file,
};
use llama_loader::container::{FILE_MAGIC_GGJT, FILE_MAGIC_GGMF};
use llama_loader::{ContainerType, FileType, FindAllModelFilesError, LoadError};

#[test]
fn unsupported_file_type_scenario() {
    match check_file_type(99) {
        Err(LoadError::UnsupportedFileType(v)) => assert_eq!(v, 99),
        other => panic!("unexpected {:?}", other),
    }
    assert!(matches!(check_file_type(2), Ok(FileType::MostlyQ4_0)));
}

#[test]
fn f16_hyperparameter_invalid() {
    match check_f16_hyperparameter(-3) {
        Err(LoadError::HyperparametersF16Invalid { ftype }) => assert_eq!(ftype, -3),
        other => panic!("unexpected {:?}", other),
    }
    assert!(matches!(check_f16_hyperparameter(1), Ok(FileType::MostlyF16)));
}

#[test]
fn unsupported_element_type() {
    match check_element_type("tok".to_string(), 42, PathBuf::from("m.bin")) {
        Err(LoadError::UnsupportedElementType { tensor_name, ftype, path }) => {
            assert_eq!(tensor_name, "tok");
            assert_eq!(ftype, 42);
            assert_eq!(path, PathBuf::from("m.bin"));
        }
        other => panic!("unexpected {:?}", other),
    }
    assert!(matches!(
        check_element_type("tok".to_string(), 0, PathBuf::from("m.bin")),
        Ok(FileType::F32)
    ));
}

#[test]
fn magic_mismatch_scenario() {
    let bytes = *b"PK\x03\x04";
    let magic = u32::from_le_bytes(bytes);
    match check_magic(PathBuf::from("/models/7B/model.bin"), magic) {
        Err(LoadError::InvalidMagic { path, magic: m }) => {
            assert_eq!(path, PathBuf::from("/models/7B/model.bin"));
            assert_eq!(m, magic);
        }
        other => panic!("unexpected {:?}", other),
    }
}

#[test]
fn recognized_magics() {
    assert!(matches!(check_magic(PathBuf::from("a"), 0x67676d66), Ok(ContainerType::Ggmf)));
    assert!(matches!(check_magic(PathBuf::from("a"), 0x67676a74), Ok(ContainerType::Ggjt)));
    assert_eq!(ContainerType::Ggmf.magic(), FILE_MAGIC_GGMF);
    assert_eq!(ContainerType::Ggjt.magic(), FILE_MAGIC_GGJT);
    assert_eq!(ContainerType::from_magic(0x67676d6c), None);
}

#[test]
fn format_version_checked() {
    assert!(check_format_version(ContainerType::Ggjt, 1).is_ok());
    match check_format_version(ContainerType::Ggjt, 3) {
        Err(LoadError::InvalidFormatVersion { container_type, version }) => {
            assert_eq!(container_type, ContainerType::Ggjt);
            assert_eq!(version, 3);
        }
        other => panic!("unexpected {:?}", other),
    }
}

#[test]
fn multipart_rejection_scenario() {
    let found = vec![PathBuf::from("model.bin"), PathBuf::from("model.bin.1")];
    match single_model_file(found.clone()) {
        Err(LoadError::MultipartNotSupported { paths }) => assert_eq!(paths, found),
        other => panic!("unexpected {:?}", other),
    }
    match discover_single_file(Ok(found.clone())) {
        Err(LoadError::MultipartNotSupported { paths }) => assert_eq!(paths, found),
        other => panic!("unexpected {:?}", other),
    }
}

#[test]
fn single_file_is_taken() {
    let p = single_model_file(vec![PathBuf::from("only.bin")]).unwrap();
    assert_eq!(p, PathBuf::from("only.bin"));
    assert!(matches!(
        single_model_file(vec![]),
        Err(LoadError::MultipartNotSupported { paths }) if paths.is_empty()
    ));
}

#[test]
fn discovery_errors_are_absorbed() {
    let e = FindAllModelFilesError::NoParentPath { path: PathBuf::from("/") };
    match LoadError::from(e) {
        LoadError::NoParentPath { path } => assert_eq!(path, PathBuf::from("/")),
        other => panic!("unexpected {:?}", other),
    }
    let io = std::io::Error::new(std::io::ErrorKind::NotFound, "gone");
    match LoadError::from(FindAllModelFilesError::IO(io)) {
        LoadError::Io(err) => assert_eq!(err.kind(), std::io::ErrorKind::NotFound),
        other => panic!("unexpected {:?}", other),
    }
    let e = FindAllModelFilesError::NoParentPath { path: PathBuf::from("") };
    assert!(matches!(discover_single_file(Err(e)), Err(LoadError::NoParentPath { .. })));
}

#[test]
fn lower_level_causes_are_wrapped() {
    let io = std::io::Error::new(std::io::ErrorKind::UnexpectedEof, "short");
    assert!(matches!(LoadError::from(io), LoadError::Io(_)));
    let utf8 = String::from_utf8(vec![0xff, 0xfe]).unwrap_err();
    assert!(matches!(LoadError::from(utf8), LoadError::InvalidUtf8(_)));
    let narrow = u8::try_from(300i32).unwrap_err();
    assert!(matches!(LoadError::from(narrow), LoadError::InvalidIntegerConversion(_)));
}

#[test]
fn zero_tensors_scenario() {
    match check_tensor_count(PathBuf::from("empty.bin"), 0) {
        Err(LoadError::ModelNotCreated { path }) => assert_eq!(path, PathBuf::from("empty.bin")),
        other => panic!("unexpected {:?}", other),
    }
    assert!(check_tensor_count(PathBuf::from("full.bin"), 291).is_ok());
}

#[test]
fn unknown_tensor_is_reported() {
    let declared = vec!["tok_embeddings.weight".to_string(), "norm.weight".to_string()];
    assert_eq!(
        find_declared_tensor(&declared, "norm.weight".to_string(), PathBuf::from("m")).unwrap(),
        1
    );
    match find_declared_tensor(&declared, "output.weight".to_string(), PathBuf::from("m")) {
        Err(LoadError::UnknownTensor { tensor_name, path }) => {
            assert_eq!(tensor_name, "output.weight");
            assert_eq!(path, PathBuf::from("m"));
        }
        other => panic!("unexpected {:?}", other),
    }
}

#[test]
fn tensor_size_is_checked() {
    assert!(check_tensor_size("w".to_string(), PathBuf::from("m"), 4096, 4096).is_ok());
    match check_tensor_size("w".to_string(), PathBuf::from("m"), 4096, 2048) {
        Err(LoadError::TensorWrongSize { tensor_name, path }) => {
            assert_eq!(tensor_name, "w");
            assert_eq!(path, PathBuf::from("m"));
        }
        other => panic!("unexpected {:?}", other),
    }
}

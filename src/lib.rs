//! Contract layer for loading a quantized model file: the storage-format tag,
//! the progress events a loader emits, and the errors a load can end in.
pub mod checks;
pub mod container;
pub mod error;
pub mod file_type;
pub mod progress;
pub mod std_types;

pub use container::ContainerType;
pub use error::{FindAllModelFilesError, LoadError};
pub use file_type::FileType;
pub use progress::{Hyperparameters, LoadProgress, ProgressStage};

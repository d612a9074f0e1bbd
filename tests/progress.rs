use std::path::Path;

use llama_loader::progress::check_progress_order;
use llama_loader::{FileType, Hyperparameters, LoadProgress, ProgressStage};

fn hparams() -> Hyperparameters {
    Hyperparameters {
        n_vocab: 32000,
        n_ctx: 512,
        n_embd: 4096,
        n_mult: 256,
        n_head: 32,
        n_layer: 32,
        n_rot: 128,
        file_type: FileType::MostlyQ4_0,
    }
}

fn simulated_load<'a>(
    h: &'a Hyperparameters,
    file: &'a Path,
    tensors: &[usize],
    count: usize,
) -> Vec<LoadProgress<'a>> {
    let mut events = vec![
        LoadProgress::HyperparametersLoaded(h),
        LoadProgress::ContextSize { bytes: 1 << 20 },
        LoadProgress::PartLoading { file, current_part: 0, total_parts: 1 },
    ];
    for t in tensors {
        events.push(LoadProgress::PartTensorLoaded {
            file,
            current_tensor: *t,
            tensor_count: count,
        });
    }
    events.push(LoadProgress::PartLoaded { file, byte_size: 4096, tensor_count: count });
    events
}

#[test]
fn single_part_load_is_in_order() {
    let h = hparams();
    let file = Path::new("model.bin");
    assert!(check_progress_order(&simulated_load(&h, file, &[0, 1, 2], 3)));
    assert!(check_progress_order(&simulated_load(&h, file, &[], 0)));
}

#[test]
fn repeated_or_skipped_tensor_is_out_of_order() {
    let h = hparams();
    let file = Path::new("model.bin");
    assert!(!check_progress_order(&simulated_load(&h, file, &[0, 0, 1], 3)));
    assert!(!check_progress_order(&simulated_load(&h, file, &[0, 2], 3)));
    assert!(!check_progress_order(&simulated_load(&h, file, &[0, 1], 3)));
}

#[test]
fn milestones_must_come_in_order() {
    let h = hparams();
    let file = Path::new("model.bin");
    let mut events = simulated_load(&h, file, &[0], 1);
    events.swap(0, 1);
    assert!(!check_progress_order(&events));
    let mut events = simulated_load(&h, file, &[0], 1);
    events.remove(2);
    assert!(!check_progress_order(&events));
    let mut events = simulated_load(&h, file, &[0], 1);
    events.pop();
    assert!(!check_progress_order(&events));
}

#[test]
fn two_sequential_parts_are_in_order() {
    let h = hparams();
    let a = Path::new("model.bin");
    let b = Path::new("model.bin.1");
    let events = vec![
        LoadProgress::HyperparametersLoaded(&h),
        LoadProgress::ContextSize { bytes: 64 },
        LoadProgress::PartLoading { file: a, current_part: 0, total_parts: 2 },
        LoadProgress::PartTensorLoaded { file: a, current_tensor: 0, tensor_count: 1 },
        LoadProgress::PartLoaded { file: a, byte_size: 10, tensor_count: 1 },
        LoadProgress::PartLoading { file: b, current_part: 1, total_parts: 2 },
        LoadProgress::PartLoaded { file: b, byte_size: 0, tensor_count: 0 },
    ];
    assert!(check_progress_order(&events));
    assert!(!check_progress_order(&events[..5].to_vec()));
}

#[test]
fn stage_advances_step_by_step() {
    let h = hparams();
    let s = ProgressStage::Start;
    let s = s.advance(&LoadProgress::HyperparametersLoaded(&h)).unwrap();
    assert_eq!(s, ProgressStage::Hyperparameters);
    assert_eq!(s.advance(&LoadProgress::HyperparametersLoaded(&h)), None);
    let s = s.advance(&LoadProgress::ContextSize { bytes: 8 }).unwrap();
    assert_eq!(s, ProgressStage::Context);
    assert!(!s.is_complete());
}

#[test]
fn events_compare_by_contents() {
    let h = hparams();
    let a = LoadProgress::PartLoading { file: Path::new("m"), current_part: 0, total_parts: 1 };
    let b = LoadProgress::PartLoading { file: Path::new("m"), current_part: 0, total_parts: 1 };
    assert_eq!(a, b);
    assert_ne!(a, LoadProgress::HyperparametersLoaded(&h));
    assert_eq!(Hyperparameters::default().file_type, FileType::MostlyF16);
}

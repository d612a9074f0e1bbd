//! Progress events a loader emits, and the order in which it must emit them.
use vstd::prelude::*;
use std::path::Path;
use crate::file_type::FileType;

verus! {

/// The architecture-defining scalars of a model, read before its tensors.
#[derive(Debug, Default, PartialEq, Eq, Structural, Clone, Copy)]
pub struct Hyperparameters {
    /// Size of the vocabulary.
    pub n_vocab: usize,
    /// Size of the context.
    pub n_ctx: usize,
    /// Size of an embedding.
    pub n_embd: usize,
    /// Multiplier that sets the feed-forward size.
    pub n_mult: usize,
    /// Number of attention heads.
    pub n_head: usize,
    /// Number of layers.
    pub n_layer: usize,
    /// Number of rotary dimensions.
    pub n_rot: usize,
    /// How the tensors are stored.
    pub file_type: FileType,
}

/// Each variant represents a step within the process of loading the model.
/// These can be used to report progress to the user. An event borrows what it
/// describes, and is valid only while it is being delivered.
#[derive(Debug, Clone, PartialEq, Eq)]
pub enum LoadProgress<'a> {
    /// The hyperparameters have been loaded from the model.
    HyperparametersLoaded(&'a Hyperparameters),
    /// The context has been created.
    ContextSize {
        /// The size of the context.
        bytes: usize,
    },
    /// A part of the model is being loaded.
    PartLoading {
        /// The path to the model part.
        file: &'a Path,
        /// The current part (0-indexed).
        current_part: usize,
        /// The number of total parts.
        total_parts: usize,
    },
    /// A tensor from the current part has been loaded.
    PartTensorLoaded {
        /// The path to the model part.
        file: &'a Path,
        /// The current tensor (0-indexed).
        current_tensor: usize,
        /// The number of total tensors.
        tensor_count: usize,
    },
    /// A model part has finished fully loading.
    PartLoaded {
        /// The path to the model part.
        file: &'a Path,
        /// The number of bytes in the part.
        byte_size: usize,
        /// The number of tensors in the part.
        tensor_count: usize,
    },
}

/// How far a stream of progress events has come. The stream must follow
/// `HyperparametersLoaded, ContextSize, (PartLoading, PartTensorLoaded*, PartLoaded)+`.
#[derive(Debug, PartialEq, Eq, Structural, Clone, Copy)]
pub enum ProgressStage {
    /// Nothing has been seen yet.
    Start,
    /// The hyperparameters have been reported.
    Hyperparameters,
    /// The context size has been reported.
    Context,
    /// Part `part` of `total_parts` is loading; `loaded` of its tensors are reported,
    /// and `tensor_count` is the count that its tensor events carry, once one has come.
    InPart { part: usize, total_parts: usize, loaded: usize, tensor_count: Option<usize> },
    /// Part `part` of `total_parts` has finished.
    PartDone { part: usize, total_parts: usize },
}

/// The stage after `event`, or `None` where the event is out of order.
pub open spec fn next_stage(stage: ProgressStage, event: LoadProgress) -> Option<ProgressStage> {
    match (stage, event) {
        (ProgressStage::Start, LoadProgress::HyperparametersLoaded(_)) => Some(
            ProgressStage::Hyperparameters,
        ),
        (ProgressStage::Hyperparameters, LoadProgress::ContextSize { .. }) => Some(
            ProgressStage::Context,
        ),
        (ProgressStage::Context, LoadProgress::PartLoading { current_part, total_parts, .. }) => {
            if current_part == 0 && total_parts > 0 {
                Some(ProgressStage::InPart { part: 0, total_parts, loaded: 0, tensor_count: None })
            } else {
                None
            }
        },
        (
            ProgressStage::PartDone { part, total_parts: total },
            LoadProgress::PartLoading { current_part, total_parts, .. },
        ) => {
            if current_part == part + 1 && total_parts == total && current_part < total_parts {
                Some(
                    ProgressStage::InPart {
                        part: current_part,
                        total_parts,
                        loaded: 0,
                        tensor_count: None,
                    },
                )
            } else {
                None
            }
        },
        (
            ProgressStage::InPart { part, total_parts, loaded, tensor_count: count },
            LoadProgress::PartTensorLoaded { current_tensor, tensor_count, .. },
        ) => {
            if current_tensor == loaded && current_tensor < tensor_count && (count is None
                || count == Some(tensor_count)) {
                Some(
                    ProgressStage::InPart {
                        part,
                        total_parts,
                        loaded: (loaded + 1) as usize,
                        tensor_count: Some(tensor_count),
                    },
                )
            } else {
                None
            }
        },
        (
            ProgressStage::InPart { part, total_parts, loaded, tensor_count: count },
            LoadProgress::PartLoaded { tensor_count, .. },
        ) => {
            if tensor_count == loaded && (count is None || count == Some(tensor_count)) {
                Some(ProgressStage::PartDone { part, total_parts })
            } else {
                None
            }
        },
        _ => None,
    }
}

/// The stage after all of `events`, from `stage`; `None` once one is out of order.
pub open spec fn run_stages(stage: ProgressStage, events: Seq<LoadProgress>) -> Option<
    ProgressStage,
>
    decreases events.len(),
{
    if events.len() == 0 {
        Some(stage)
    } else {
        match run_stages(stage, events.drop_last()) {
            Some(s) => next_stage(s, events.last()),
            None => None,
        }
    }
}

/// Whether a stage ends a load: the last part has finished.
pub open spec fn is_complete(stage: ProgressStage) -> bool {
    stage matches ProgressStage::PartDone { part, total_parts } && part + 1 == total_parts
}

/// Whether `events` is the whole event stream of a load, in order.
pub open spec fn is_complete_stream(events: Seq<LoadProgress>) -> bool {
    run_stages(ProgressStage::Start, events) matches Some(s) && is_complete(s)
}

impl ProgressStage {
    /// The stage after `event`, or `None` where the event is out of order.
    pub fn advance(&self, event: &LoadProgress) -> (r: Option<ProgressStage>)
        ensures
            r == next_stage(*self, *event),
    {
        match (self, event) {
            (ProgressStage::Start, LoadProgress::HyperparametersLoaded(_)) => Some(
                ProgressStage::Hyperparameters,
            ),
            (ProgressStage::Hyperparameters, LoadProgress::ContextSize { .. }) => Some(
                ProgressStage::Context,
            ),
            (
                ProgressStage::Context,
                LoadProgress::PartLoading { current_part, total_parts, .. },
            ) => {
                if *current_part == 0 && *total_parts > 0 {
                    Some(
                        ProgressStage::InPart {
                            part: 0,
                            total_parts: *total_parts,
                            loaded: 0,
                            tensor_count: None,
                        },
                    )
                } else {
                    None
                }
            },
            (
                ProgressStage::PartDone { part, total_parts: total },
                LoadProgress::PartLoading { current_part, total_parts, .. },
            ) => {
                if *part < *total && *current_part == *part + 1 && *total_parts == *total
                    && *current_part < *total_parts {
                    Some(
                        ProgressStage::InPart {
                            part: *current_part,
                            total_parts: *total_parts,
                            loaded: 0,
                            tensor_count: None,
                        },
                    )
                } else {
                    None
                }
            },
            (
                ProgressStage::InPart { part, total_parts, loaded, tensor_count: count },
                LoadProgress::PartTensorLoaded { current_tensor, tensor_count, .. },
            ) => {
                let count_agrees = match count {
                    None => true,
                    Some(c) => *c == *tensor_count,
                };
                if *current_tensor == *loaded && *current_tensor < *tensor_count && count_agrees {
                    Some(
                        ProgressStage::InPart {
                            part: *part,
                            total_parts: *total_parts,
                            loaded: *loaded + 1,
                            tensor_count: Some(*tensor_count),
                        },
                    )
                } else {
                    None
                }
            },
            (
                ProgressStage::InPart { part, total_parts, loaded, tensor_count: count },
                LoadProgress::PartLoaded { tensor_count, .. },
            ) => {
                let count_agrees = match count {
                    None => true,
                    Some(c) => *c == *tensor_count,
                };
                if *tensor_count == *loaded && count_agrees {
                    Some(ProgressStage::PartDone { part: *part, total_parts: *total_parts })
                } else {
                    None
                }
            },
            _ => None,
        }
    }

    /// Whether this stage ends a load: the last part has finished.
    pub fn is_complete(&self) -> (r: bool)
        ensures
            r == is_complete(*self),
    {
        match self {
            ProgressStage::PartDone { part, total_parts } => *part < *total_parts && *part + 1
                == *total_parts,
            _ => false,
        }
    }
}

/// Whether `events` is the whole event stream of a load, in order.
pub fn check_progress_order(events: &Vec<LoadProgress>) -> (r: bool)
    ensures
        r == is_complete_stream(events@),
{
    let mut stage = ProgressStage::Start;
    let mut i: usize = 0;
    while i < events.len()
        invariant
            i <= events@.len(),
            run_stages(ProgressStage::Start, events@.take(i as int)) == Some(stage),
        decreases events@.len() - i,
    {
        assert(events@.take(i + 1).drop_last() =~= events@.take(i as int));
        match stage.advance(&events[i]) {
            Some(s) => stage = s,
            None => {
                proof {
                    lemma_rejected_stays_rejected(events@.take(i + 1), events@);
                }
                return false;
            },
        }
        i = i + 1;
    }
    assert(events@.take(i as int) =~= events@);
    stage.is_complete()
}

/// Once a prefix of a stream is out of order, so is the whole stream.
proof fn lemma_rejected_stays_rejected(prefix: Seq<LoadProgress>, events: Seq<LoadProgress>)
    requires
        prefix.len() <= events.len(),
        prefix == events.take(prefix.len() as int),
        run_stages(ProgressStage::Start, prefix) is None,
    ensures
        run_stages(ProgressStage::Start, events) is None,
    decreases events.len(),
{
    if events.len() > prefix.len() {
        assert(events.drop_last().take(prefix.len() as int) =~= prefix);
        lemma_rejected_stays_rejected(prefix, events.drop_last());
    } else {
        assert(events =~= prefix);
    }
}

/// The events of the tensors of one part with `tensor_count` tensors, of which the
/// first `k` are reported, in order.
pub open spec fn tensor_events<'a>(file: &'a Path, k: nat, tensor_count: usize) -> Seq<
    LoadProgress<'a>,
> {
    Seq::new(
        k,
        |i: int| LoadProgress::PartTensorLoaded { file, current_tensor: i as usize, tensor_count },
    )
}

/// The event stream of a load of a single file with `tensor_count` tensors.
pub open spec fn single_part_events<'a>(
    hyperparameters: &'a Hyperparameters,
    context_bytes: usize,
    file: &'a Path,
    byte_size: usize,
    tensor_count: usize,
) -> Seq<LoadProgress<'a>> {
    seq![
        LoadProgress::HyperparametersLoaded(hyperparameters),
        LoadProgress::ContextSize { bytes: context_bytes },
        LoadProgress::PartLoading { file, current_part: 0, total_parts: 1 },
    ] + tensor_events(file, tensor_count as nat, tensor_count) + seq![
        LoadProgress::PartLoaded { file, byte_size, tensor_count },
    ]
}

/// Running two streams one after the other is running their concatenation.
proof fn lemma_run_concat(stage: ProgressStage, a: Seq<LoadProgress>, b: Seq<LoadProgress>)
    ensures
        run_stages(stage, a + b) == (match run_stages(stage, a) {
            Some(s) => run_stages(s, b),
            None => None,
        }),
    decreases b.len(),
{
    if b.len() == 0 {
        assert(a + b =~= a);
    } else {
        assert((a + b).drop_last() =~= a + b.drop_last());
        lemma_run_concat(stage, a, b.drop_last());
    }
}

/// Reporting the first `k` tensors of a part in order leaves `k` of them loaded.
proof fn lemma_run_tensors(
    file: &Path,
    part: usize,
    total_parts: usize,
    k: nat,
    tensor_count: usize,
)
    requires
        k <= tensor_count,
    ensures
        run_stages(
            ProgressStage::InPart { part, total_parts, loaded: 0, tensor_count: None },
            tensor_events(file, k, tensor_count),
        ) == Some(
            ProgressStage::InPart {
                part,
                total_parts,
                loaded: k as usize,
                tensor_count: if k == 0 {
                    None
                } else {
                    Some(tensor_count)
                },
            },
        ),
    decreases k,
{
    if k > 0 {
        assert(tensor_events(file, k, tensor_count).drop_last() =~= tensor_events(
            file,
            (k - 1) as nat,
            tensor_count,
        ));
        lemma_run_tensors(file, part, total_parts, (k - 1) as nat, tensor_count);
    }
}

/// A load of a single file reports its hyperparameters, its context, the start of
/// the part, each tensor once with indices `0, 1, ..., tensor_count - 1`, and the end
/// of the part; that stream is complete and in order.
pub proof fn lemma_single_part_stream_complete<'a>(
    hyperparameters: &'a Hyperparameters,
    context_bytes: usize,
    file: &'a Path,
    byte_size: usize,
    tensor_count: usize,
)
    ensures
        is_complete_stream(
            single_part_events(hyperparameters, context_bytes, file, byte_size, tensor_count),
        ),
{
    let head = seq![
        LoadProgress::HyperparametersLoaded(hyperparameters),
        LoadProgress::ContextSize { bytes: context_bytes },
        LoadProgress::PartLoading { file, current_part: 0, total_parts: 1 },
    ];
    let tensors = tensor_events(file, tensor_count as nat, tensor_count);
    let tail = seq![LoadProgress::PartLoaded { file, byte_size, tensor_count }];
    let h1 = head.drop_last().drop_last();
    let h2 = head.drop_last();
    assert(h1.drop_last() =~= Seq::<LoadProgress>::empty());
    assert(run_stages(ProgressStage::Start, h1.drop_last()) == Some(ProgressStage::Start));
    assert(run_stages(ProgressStage::Start, h1) == Some(ProgressStage::Hyperparameters));
    assert(h2.drop_last() =~= h1);
    assert(run_stages(ProgressStage::Start, h2) == Some(ProgressStage::Context));
    let in_part = ProgressStage::InPart { part: 0, total_parts: 1, loaded: 0, tensor_count: None };
    assert(run_stages(ProgressStage::Start, head) == Some(in_part));
    lemma_run_tensors(file, 0, 1, tensor_count as nat, tensor_count);
    lemma_run_concat(ProgressStage::Start, head, tensors);
    lemma_run_concat(ProgressStage::Start, head + tensors, tail);
    assert(tail.drop_last() =~= Seq::<LoadProgress>::empty());
    assert(run_stages(in_part, tensors) matches Some(s) && run_stages(s, tail.drop_last()) == Some(
        s,
    ));
    assert(head + tensors + tail == single_part_events(
        hyperparameters,
        context_bytes,
        file,
        byte_size,
        tensor_count,
    ));
}

/// What the first `k` events of `events` must look like to have led to `stage`.
spec fn prefix_shape(events: Seq<LoadProgress>, k: int, stage: ProgressStage) -> bool {
    match stage {
        ProgressStage::Start => k == 0,
        ProgressStage::Hyperparameters => k == 1 && events[0] is HyperparametersLoaded,
        ProgressStage::Context => k == 2 && events[0] is HyperparametersLoaded
            && events[1] is ContextSize,
        ProgressStage::InPart { part, total_parts, loaded, tensor_count } => {
            &&& k >= 3
            &&& events[2] matches LoadProgress::PartLoading { total_parts: t, .. }
            &&& t == total_parts
            &&& part == 0 ==> {
                &&& k == 3 + loaded
                &&& events[0] is HyperparametersLoaded
                &&& events[1] is ContextSize
                &&& (loaded == 0 <==> tensor_count is None)
                &&& forall|i: int|
                    0 <= i < loaded ==> (#[trigger] events[3 + i] matches
                    LoadProgress::PartTensorLoaded { current_tensor, tensor_count: c, .. }
                        && current_tensor == i && tensor_count == Some(c))
            }
        },
        ProgressStage::PartDone { part, total_parts } => {
            &&& k >= 4
            &&& events[2] matches LoadProgress::PartLoading { total_parts: t, .. }
            &&& t == total_parts
            &&& part == 0 ==> single_part_shape(events.take(k))
        },
    }
}

/// Whether `events` has the shape of a load of a single file: hyperparameters,
/// context, the start of the part, each tensor once with indices
/// `0, 1, ..., n - 1` and count `n`, and the end of the part with count `n`.
pub open spec fn single_part_shape(events: Seq<LoadProgress>) -> bool {
    let n = events.len() - 4;
    &&& events.len() >= 4
    &&& events[0] is HyperparametersLoaded
    &&& events[1] is ContextSize
    &&& events[2] is PartLoading
    &&& forall|i: int|
        0 <= i < n ==> (#[trigger] events[3 + i] matches LoadProgress::PartTensorLoaded {
            current_tensor,
            tensor_count,
            ..
        } && current_tensor == i && tensor_count == n)
    &&& events[3 + n] matches LoadProgress::PartLoaded { tensor_count, .. } && tensor_count == n
}

/// Each prefix of a stream that is in order has the shape of the stage it led to.
proof fn lemma_prefix_shape(events: Seq<LoadProgress>, k: int)
    requires
        0 <= k <= events.len(),
        run_stages(ProgressStage::Start, events.take(k)) is Some,
    ensures
        prefix_shape(events, k, run_stages(ProgressStage::Start, events.take(k)).unwrap()),
    decreases k,
{
    if k > 0 {
        let p = events.take(k);
        assert(p.drop_last() =~= events.take(k - 1));
        lemma_prefix_shape(events, k - 1);
        let prev = run_stages(ProgressStage::Start, events.take(k - 1)).unwrap();
        let next = run_stages(ProgressStage::Start, p).unwrap();
        assert(p.last() == events[k - 1]);
        if next is PartDone {
            if next->PartDone_part == 0 {
                let q = events.take(k);
                let n = k - 4;
                assert(prev matches ProgressStage::InPart { loaded, .. } && loaded == n);
                assert forall|i: int| 0 <= i < n implies (#[trigger] q[3 + i] matches
                    LoadProgress::PartTensorLoaded { current_tensor, tensor_count, .. }
                    && current_tensor == i && tensor_count == n) by {
                    assert(q[3 + i] == events[3 + i]);
                }
            }
        }
    }
}

/// A complete stream whose part announces one part in all is exactly the stream
/// of a load of a single file: each milestone once, and the tensors reported with
/// indices `0, 1, ..., n - 1`, no index repeated or skipped.
pub proof fn lemma_single_part_stream_shape(events: Seq<LoadProgress>)
    requires
        is_complete_stream(events),
        events.len() >= 3,
        events[2] matches LoadProgress::PartLoading { total_parts, .. } && total_parts == 1,
    ensures
        single_part_shape(events),
{
    assert(events.take(events.len() as int) =~= events);
    lemma_prefix_shape(events, events.len() as int);
}

} // verus!

//! The fan-out of layer downloads and the join of their outcomes.
//!
//! Streams are opened one layer at a time, in manifest order; each opened stream is copied
//! to disk by a task of its own. Every spawned task is waited for, none is cancelled, and
//! the failure reported is the one of the lowest layer index among those observed.
use vstd::prelude::*;
use crate::text::{layer_file_name, layer_file_name_spec, progress_prefix, progress_prefix_spec};

verus! {

/// A layer of the image manifest, as the fetch needs it.
#[derive(Clone, Debug, PartialEq, Eq, Hash)]
pub struct LayerDescriptor {
    /// The content digest of the layer blob, such as `sha256:abcd1234`.
    pub digest: String,
    /// The size of the blob in bytes, where the manifest gives it.
    pub size: Option<u64>,
}

/// One unit of download work: where a layer goes and how its progress is labelled.
#[derive(Clone, Debug, PartialEq, Eq, Hash)]
pub struct DownloadTask {
    /// The 1-based index of the task, in manifest order.
    pub index: usize,
    /// The total number of tasks shown: two for each layer.
    pub task_count: usize,
    /// The name of the file written inside the output directory.
    pub file_name: String,
    /// The label shown in front of the task's progress indicator.
    pub prefix: String,
}

/// The tasks planned for `layers`: task `i` is numbered `i + 1` of `2 * n`, and writes the
/// file named after the digest of layer `i`.
pub open spec fn task_matches(
    layers: Seq<LayerDescriptor>,
    tasks: Seq<DownloadTask>,
    i: int,
) -> bool {
    let n = layers.len();
    &&& tasks[i].index == i + 1
    &&& tasks[i].task_count == 2 * n
    &&& tasks[i].file_name@ == layer_file_name_spec(layers[i].digest@)
    &&& tasks[i].prefix@ == progress_prefix_spec((i + 1) as nat, 2 * n)
}

/// Plans one download task per layer, in manifest order.
pub fn plan_downloads(layers: &Vec<LayerDescriptor>) -> (r: Vec<DownloadTask>)
    requires
        2 * layers@.len() <= usize::MAX,
    ensures
        r@.len() == layers@.len(),
        forall|i: int| 0 <= i < r@.len() ==> task_matches(layers@, r@, i),
{
    let n = layers.len();
    let task_count = 2 * n;
    let mut r: Vec<DownloadTask> = Vec::new();
    let mut i: usize = 0;
    while i < n
        invariant
            n == layers@.len(),
            task_count == 2 * n,
            i <= n,
            r@.len() == i,
            forall|j: int| 0 <= j < i ==> task_matches(layers@, r@, j),
        decreases n - i,
    {
        let task = DownloadTask {
            index: i + 1,
            task_count,
            file_name: layer_file_name(layers[i].digest.as_str()),
            prefix: progress_prefix(i + 1, task_count),
        };
        let ghost prev = r@;
        r.push(task);
        assert(task_matches(layers@, r@, i as int));
        assert forall|j: int| 0 <= j < i + 1 implies task_matches(layers@, r@, j) by {
            if j < i {
                assert(task_matches(layers@, prev, j));
                assert(r@[j] == prev[j]);
            }
        }
        i = i + 1;
    }
    r
}

/// Layers with the same digest are written to the same file: the fetch does not tell them
/// apart, and whichever task writes last decides what the file holds.
pub proof fn lemma_same_digest_same_file(
    layers: Seq<LayerDescriptor>,
    tasks: Seq<DownloadTask>,
    i: int,
    j: int,
)
    requires
        0 <= i < tasks.len(),
        0 <= j < tasks.len(),
        task_matches(layers, tasks, i),
        task_matches(layers, tasks, j),
        layers[i].digest@ == layers[j].digest@,
    ensures
        tasks[i].file_name@ == tasks[j].file_name@,
{
}

/// The step at which the download of a layer failed.
#[derive(Clone, Copy, Debug, PartialEq, Eq, Hash)]
pub enum FetchStage {
    /// Opening the blob stream at the registry.
    OpenStream,
    /// Creating the destination file.
    CreateFile,
    /// Copying the stream into the file.
    Copy,
    /// Flushing the file.
    Flush,
}

/// The failure of one layer's download.
#[derive(Clone, Copy, Debug, PartialEq, Eq, Hash)]
pub struct LayerFailure {
    /// The 0-based index of the layer in the manifest.
    pub layer: usize,
    /// The step that failed.
    pub stage: FetchStage,
}

/// What the driver of a fetch is to do next.
#[derive(Clone, Copy, Debug, PartialEq, Eq, Hash)]
pub enum FetchAction {
    /// Open the blob stream of this layer; on success spawn its copy task.
    OpenStream(usize),
    /// Wait for the next spawned task to finish.
    JoinNext,
    /// Every spawned task has finished: the fetch failed with this failure, or succeeded.
    Finish(Option<LayerFailure>),
}

/// The state of a fetch of `layer_count` layers.
pub struct FetchJoin {
    /// The number of layers in the manifest.
    pub layer_count: usize,
    /// The number of streams opened so far; they are the layers `0..opened`.
    pub opened: usize,
    /// The number of spawned tasks not yet joined.
    pub running: usize,
    /// The failure of the lowest layer index observed so far.
    pub failure: Option<LayerFailure>,
    /// The outcome of every layer that is done: `None` for a written file, or the step
    /// that failed.
    pub outcomes: Ghost<Map<nat, Option<FetchStage>>>,
    /// The layers whose copy task was spawned and not yet joined.
    pub pending: Ghost<Set<nat>>,
}

/// `f` is the failure with the lowest layer index in `outcomes`.
pub open spec fn is_lowest_failure(
    outcomes: Map<nat, Option<FetchStage>>,
    f: LayerFailure,
) -> bool {
    &&& outcomes.dom().contains(f.layer as nat)
    &&& outcomes[f.layer as nat] == Some(f.stage)
    &&& forall|i: nat| #[trigger] outcomes.dom().contains(i) && outcomes[i] is Some ==> f.layer <= i
}

/// `outcomes` records no failure.
pub open spec fn no_failure(outcomes: Map<nat, Option<FetchStage>>) -> bool {
    forall|i: nat| #[trigger] outcomes.dom().contains(i) ==> outcomes[i] is None
}

/// The failure reported once `f` is observed, where `old` was the one reported before: the
/// lower layer index wins.
pub open spec fn lower_failure(old: Option<LayerFailure>, f: LayerFailure) -> LayerFailure {
    match old {
        Some(g) => if g.layer <= f.layer { g } else { f },
        None => f,
    }
}

impl FetchJoin {
    pub open spec fn wf(&self) -> bool {
        &&& self.opened <= self.layer_count
        &&& self.running <= self.opened
        &&& forall|i: nat| #[trigger]
            self.outcomes@.dom().contains(i) ==> i < self.layer_count && (i < self.opened || (i
                == self.opened && self.failure is Some))
        &&& self.pending@.finite()
        &&& self.pending@.len() == self.running
        &&& forall|i: nat| #[trigger]
            self.pending@.contains(i) ==> i < self.opened && !self.outcomes@.dom().contains(i)
        &&& forall|i: nat|
            i < self.opened ==> #[trigger] self.outcomes@.dom().contains(i)
                || self.pending@.contains(i)
        &&& match self.failure {
            None => no_failure(self.outcomes@),
            Some(f) => is_lowest_failure(self.outcomes@, f),
        }
    }

    /// The action that `next_action` returns in this state.
    pub open spec fn next_action_spec(&self) -> FetchAction {
        if self.failure is None && self.opened < self.layer_count {
            FetchAction::OpenStream(self.opened)
        } else if self.running > 0 {
            FetchAction::JoinNext
        } else {
            FetchAction::Finish(self.failure)
        }
    }

    /// A fetch of `layer_count` layers before any stream is opened.
    pub fn new(layer_count: usize) -> (r: FetchJoin)
        ensures
            r.wf(),
            r.layer_count == layer_count,
            r.opened == 0,
            r.running == 0,
            r.failure is None,
            r.outcomes@ == Map::<nat, Option<FetchStage>>::empty(),
            r.pending@ == Set::<nat>::empty(),
    {
        FetchJoin {
            layer_count,
            opened: 0,
            running: 0,
            failure: None,
            outcomes: Ghost(Map::empty()),
            pending: Ghost(Set::empty()),
        }
    }

    /// What to do next: open the next stream while no failure has been seen, then join the
    /// running tasks, then finish with the lowest-index failure, if any.
    pub fn next_action(&self) -> (r: FetchAction)
        requires
            self.wf(),
        ensures
            r == self.next_action_spec(),
    {
        if self.failure.is_none() && self.opened < self.layer_count {
            FetchAction::OpenStream(self.opened)
        } else if self.running > 0 {
            FetchAction::JoinNext
        } else {
            FetchAction::Finish(self.failure)
        }
    }

    /// The stream of the next layer was opened, and its copy task spawned.
    pub fn stream_opened(&mut self)
        requires
            old(self).wf(),
            old(self).next_action_spec() is OpenStream,
        ensures
            final(self).wf(),
            final(self).layer_count == old(self).layer_count,
            final(self).opened == old(self).opened + 1,
            final(self).running == old(self).running + 1,
            final(self).failure == old(self).failure,
            final(self).outcomes == old(self).outcomes,
            final(self).pending@ == old(self).pending@.insert(old(self).opened as nat),
    {
        assert(!self.pending@.contains(self.opened as nat));
        self.pending = Ghost(self.pending@.insert(self.opened as nat));
        self.opened = self.opened + 1;
        self.running = self.running + 1;
    }

    /// Opening the stream of the next layer failed: no further stream is opened, and the
    /// tasks already running are still waited for.
    pub fn stream_failed(&mut self)
        requires
            old(self).wf(),
            old(self).next_action_spec() is OpenStream,
        ensures
            final(self).wf(),
            final(self).layer_count == old(self).layer_count,
            final(self).opened == old(self).opened,
            final(self).running == old(self).running,
            final(self).failure == Some(
                LayerFailure { layer: old(self).opened, stage: FetchStage::OpenStream },
            ),
            final(self).outcomes@ == old(self).outcomes@.insert(
                old(self).opened as nat,
                Some(FetchStage::OpenStream),
            ),
            final(self).pending == old(self).pending,
    {
        let f = LayerFailure { layer: self.opened, stage: FetchStage::OpenStream };
        self.failure = Some(f);
        let ghost key = self.opened as nat;
        self.outcomes = Ghost(self.outcomes@.insert(key, Some(FetchStage::OpenStream)));
    }

    /// The copy task of `layer` finished, having written its file (`None`) or failed at
    /// the given step.
    pub fn task_finished(&mut self, layer: usize, outcome: Option<FetchStage>)
        requires
            old(self).wf(),
            old(self).running > 0,
            old(self).pending@.contains(layer as nat),
        ensures
            final(self).wf(),
            final(self).layer_count == old(self).layer_count,
            final(self).opened == old(self).opened,
            final(self).running == old(self).running - 1,
            final(self).outcomes@ == old(self).outcomes@.insert(layer as nat, outcome),
            final(self).pending@ == old(self).pending@.remove(layer as nat),
            final(self).failure == match outcome {
                None => old(self).failure,
                Some(stage) => Some(
                    lower_failure(old(self).failure, LayerFailure { layer, stage }),
                ),
            },
    {
        self.running = self.running - 1;
        self.pending = Ghost(self.pending@.remove(layer as nat));
        let ghost prev = self.outcomes@;
        self.outcomes = Ghost(self.outcomes@.insert(layer as nat, outcome));
        match outcome {
            None => {},
            Some(stage) => {
                let f = LayerFailure { layer, stage };
                match self.failure {
                    Some(g) => {
                        if layer < g.layer {
                            self.failure = Some(f);
                        }
                    },
                    None => {
                        self.failure = Some(f);
                    },
                }
            },
        }
        assert(forall|i: nat| #[trigger]
            self.outcomes@.dom().contains(i) && i != layer ==> prev.dom().contains(i)
                && self.outcomes@[i] == prev[i]);
    }
}

/// A fetch finishes without error only when every layer's stream was opened and every
/// layer's task was joined having written its file; once any layer has failed it finishes
/// with the failure of the lowest layer index observed. It never finishes while a spawned
/// task is still running.
pub proof fn lemma_finish_reports_failure(s: FetchJoin)
    requires
        s.wf(),
    ensures
        s.next_action_spec() is Finish ==> s.running == 0 && s.pending@.is_empty(),
        s.next_action_spec() == FetchAction::Finish(None) ==> s.opened == s.layer_count
            && s.running == 0 && forall|i: nat|
            i < s.layer_count ==> #[trigger] s.outcomes@.dom().contains(i) && s.outcomes@[i]
            is None,
        (exists|i: nat| #[trigger] s.outcomes@.dom().contains(i) && s.outcomes@[i] is Some)
            ==> s.failure is Some,
        s.next_action_spec() matches FetchAction::Finish(Some(f)) ==> is_lowest_failure(
            s.outcomes@,
            f,
        ),
{
    if s.next_action_spec() is Finish {
        if exists|i: nat| s.pending@.contains(i) {
            let i = choose|i: nat| s.pending@.contains(i);
            assert(s.pending@.len() != 0);
        }
    }
    if s.next_action_spec() == FetchAction::Finish(None) {
        assert forall|i: nat| i < s.layer_count implies #[trigger] s.outcomes@.dom().contains(i)
            && s.outcomes@[i] is None by {
            if s.pending@.contains(i) {
                assert(s.pending@.len() != 0);
            }
        }
    }
}

} // verus!

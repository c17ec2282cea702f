use crate::error::GpuError;
use vstd::prelude::*;

verus! {

/// Where a run stands. Each stage waits for the outcome of one piece of
/// device work.
#[derive(Clone, Copy, Debug, PartialEq, Eq, Structural)]
pub enum Stage {
    AwaitingAdapter,
    AwaitingDevice,
    AwaitingPipeline,
    AwaitingMap,
    Reading,
    Finished,
    Failed(GpuError),
}

/// What the device work reported.
#[derive(Clone, Copy, Debug, PartialEq, Eq, Structural)]
pub enum Outcome {
    AdapterAcquired,
    AdapterMissing,
    DeviceAcquired,
    DeviceRejected,
    PipelineBuilt,
    PipelineRejected,
    MapCompleted,
    MapFailed,
    ImageWritten,
    PixelsMalformed,
    EncodeFailed,
}

/// What to do next on the device.
#[derive(Clone, Copy, Debug, PartialEq, Eq, Structural)]
pub enum Action {
    /// Ask the adapter for a logical device and its queue.
    RequestDevice,
    /// Allocate the buffers and build the pipeline.
    BuildPipeline,
    /// Submit the command sequence, request the map and wait for its completion.
    SubmitAndMap,
    /// Read the mapped bytes and hand them to the encoder.
    ReadAndEncode,
    /// Release the mapped view; the run is over.
    Unmap,
    /// Stop with this error.
    Abort(GpuError),
}

/// The order of a run. A success moves to the next stage; a failure ends the
/// run with the error of the stage it happened in. An outcome that the stage
/// does not wait for, and any outcome after the end, has no next step.
pub open spec fn next_step(stage: Stage, outcome: Outcome) -> Option<(Stage, Action)> {
    match (stage, outcome) {
        (Stage::AwaitingAdapter, Outcome::AdapterAcquired) => Some(
            (Stage::AwaitingDevice, Action::RequestDevice),
        ),
        (Stage::AwaitingAdapter, Outcome::AdapterMissing) => Some(failure(GpuError::AdapterNotFound)),
        (Stage::AwaitingDevice, Outcome::DeviceAcquired) => Some(
            (Stage::AwaitingPipeline, Action::BuildPipeline),
        ),
        (Stage::AwaitingDevice, Outcome::DeviceRejected) => Some(
            failure(GpuError::DeviceRequestFailed),
        ),
        (Stage::AwaitingPipeline, Outcome::PipelineBuilt) => Some(
            (Stage::AwaitingMap, Action::SubmitAndMap),
        ),
        (Stage::AwaitingPipeline, Outcome::PipelineRejected) => Some(
            failure(GpuError::PipelineValidationFailed),
        ),
        (Stage::AwaitingMap, Outcome::MapCompleted) => Some((Stage::Reading, Action::ReadAndEncode)),
        (Stage::AwaitingMap, Outcome::MapFailed) => Some(failure(GpuError::BufferMapFailed)),
        (Stage::Reading, Outcome::ImageWritten) => Some((Stage::Finished, Action::Unmap)),
        (Stage::Reading, Outcome::PixelsMalformed) => Some(
            failure(GpuError::MalformedPixelBuffer),
        ),
        (Stage::Reading, Outcome::EncodeFailed) => Some(failure(GpuError::ImageEncodeFailed)),
        _ => None,
    }
}

/// The end of a run on an error.
pub open spec fn failure(error: GpuError) -> (Stage, Action) {
    (Stage::Failed(error), Action::Abort(error))
}

/// Position of a stage in the order of a run.
pub open spec fn rank(stage: Stage) -> nat {
    match stage {
        Stage::AwaitingAdapter => 0,
        Stage::AwaitingDevice => 1,
        Stage::AwaitingPipeline => 2,
        Stage::AwaitingMap => 3,
        Stage::Reading => 4,
        Stage::Finished => 5,
        Stage::Failed(_) => 6,
    }
}

/// Whether the command sequence has been submitted by the time of `stage`.
pub open spec fn submitted(stage: Stage) -> bool {
    stage is AwaitingMap || stage is Reading || stage is Finished
}

/// A run only moves forward: no stage is entered twice.
pub proof fn lemma_never_reentered(stage: Stage, outcome: Outcome)
    requires
        next_step(stage, outcome) is Some,
    ensures
        rank(next_step(stage, outcome).unwrap().0) > rank(stage),
{
}

/// A run that ended stays ended: nothing follows success or failure.
pub proof fn lemma_end_is_final(stage: Stage, outcome: Outcome)
    requires
        stage is Finished || stage is Failed,
    ensures
        next_step(stage, outcome) is None,
{
}

/// Commands are submitted only once the pipeline has been built; a rejected
/// pipeline ends the run with a validation failure while nothing has been
/// submitted.
pub proof fn lemma_submit_after_validation(stage: Stage, outcome: Outcome)
    ensures
        (next_step(stage, outcome) is Some && next_step(stage, outcome).unwrap().1
            == Action::SubmitAndMap) <==> (stage == Stage::AwaitingPipeline && outcome
            == Outcome::PipelineBuilt),
        (next_step(stage, outcome) is Some && outcome == Outcome::PipelineRejected) ==> {
            &&& !submitted(stage)
            &&& next_step(stage, outcome).unwrap() == failure(GpuError::PipelineValidationFailed)
        },
{
}

/// The mapped bytes are read only after the map's completion was reported.
pub proof fn lemma_read_after_completion(stage: Stage, outcome: Outcome)
    ensures
        (next_step(stage, outcome) is Some && next_step(stage, outcome).unwrap().1
            == Action::ReadAndEncode) <==> (stage == Stage::AwaitingMap && outcome
            == Outcome::MapCompleted),
{
}

/// The stage reached from the start by a whole history of outcomes, or
/// `None` once an outcome came out of turn or after the end.
pub open spec fn stage_after(outcomes: Seq<Outcome>) -> Option<Stage>
    decreases outcomes.len(),
{
    if outcomes.len() == 0 {
        Some(Stage::AwaitingAdapter)
    } else {
        match stage_after(outcomes.drop_last()) {
            Some(stage) => match next_step(stage, outcomes.last()) {
                Some(next) => Some(next.0),
                None => None,
            },
            None => None,
        }
    }
}

/// Every earlier point of a history was a stage no later than its last one.
pub proof fn lemma_history_moves_forward(outcomes: Seq<Outcome>, n: int)
    requires
        0 <= n <= outcomes.len(),
        stage_after(outcomes) is Some,
    ensures
        stage_after(outcomes.take(n)) is Some,
        rank(stage_after(outcomes.take(n)).unwrap()) <= rank(stage_after(outcomes).unwrap()),
    decreases outcomes.len(),
{
    if n == outcomes.len() {
        assert(outcomes.take(n) =~= outcomes);
    } else {
        let before = outcomes.drop_last();
        lemma_never_reentered(stage_after(before).unwrap(), outcomes.last());
        lemma_history_moves_forward(before, n);
        assert(before.take(n) =~= outcomes.take(n));
    }
}

/// A run that ended on a rejected pipeline never submitted anything: at no
/// point of its history had the command sequence been handed to the queue.
pub proof fn lemma_rejected_pipeline_never_submits(outcomes: Seq<Outcome>, n: int)
    requires
        0 <= n <= outcomes.len(),
        stage_after(outcomes) == Some(Stage::Failed(GpuError::PipelineValidationFailed)),
    ensures
        stage_after(outcomes.take(n)) is Some,
        !submitted(stage_after(outcomes.take(n)).unwrap()),
{
    if n == outcomes.len() {
        assert(outcomes.take(n) =~= outcomes);
    } else {
        let before = outcomes.drop_last();
        assert(stage_after(before) == Some(Stage::AwaitingPipeline));
        lemma_history_moves_forward(before, n);
        assert(before.take(n) =~= outcomes.take(n));
    }
}

fn fail(error: GpuError) -> (end: Option<(Stage, Action)>)
    ensures
        end == Some(failure(error)),
{
    Some((Stage::Failed(error), Action::Abort(error)))
}

/// Decides the next stage and the next piece of device work.
pub fn step(stage: Stage, outcome: Outcome) -> (next: Option<(Stage, Action)>)
    ensures
        next == next_step(stage, outcome),
{
    match stage {
        Stage::AwaitingAdapter => match outcome {
            Outcome::AdapterAcquired => Some((Stage::AwaitingDevice, Action::RequestDevice)),
            Outcome::AdapterMissing => fail(GpuError::AdapterNotFound),
            _ => None,
        },
        Stage::AwaitingDevice => match outcome {
            Outcome::DeviceAcquired => Some((Stage::AwaitingPipeline, Action::BuildPipeline)),
            Outcome::DeviceRejected => fail(GpuError::DeviceRequestFailed),
            _ => None,
        },
        Stage::AwaitingPipeline => match outcome {
            Outcome::PipelineBuilt => Some((Stage::AwaitingMap, Action::SubmitAndMap)),
            Outcome::PipelineRejected => fail(GpuError::PipelineValidationFailed),
            _ => None,
        },
        Stage::AwaitingMap => match outcome {
            Outcome::MapCompleted => Some((Stage::Reading, Action::ReadAndEncode)),
            Outcome::MapFailed => fail(GpuError::BufferMapFailed),
            _ => None,
        },
        Stage::Reading => match outcome {
            Outcome::ImageWritten => Some((Stage::Finished, Action::Unmap)),
            Outcome::PixelsMalformed => fail(GpuError::MalformedPixelBuffer),
            Outcome::EncodeFailed => fail(GpuError::ImageEncodeFailed),
            _ => None,
        },
        Stage::Finished => None,
        Stage::Failed(_) => None,
    }
}

} // verus!

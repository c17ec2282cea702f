use crate::buffers::byte_size;
use crate::buffers::plan_for;
use crate::commands::Command;
use crate::commands::planned_sequence;
use crate::dispatch::dispatch_for;
use crate::dispatch::WorkgroupCount;
use crate::driver::Action;
use crate::driver::next_step;
use crate::driver::Outcome;
use crate::driver::Stage;
use crate::driver::step;
use crate::error::GpuError;
use crate::pixels::PixelGrid;
use crate::plan::IMAGE_HEIGHT;
use crate::plan::IMAGE_WIDTH;
use crate::plan::LOCAL_GROUP_SIZE;
use crate::plan::plan_run;
use crate::plan::RunPlan;
use crate::readback::MapEvent;
use crate::readback::MapState;
use crate::readback::StagingBuffer;
use vstd::prelude::*;

verus! {

/// What a `Gpu` stands for: the image it renders, what was planned for it,
/// the stage of the run and the state of the staging buffer.
pub struct GpuView {
    pub width: nat,
    pub height: nat,
    pub size: nat,
    pub grid: WorkgroupCount,
    pub commands: Seq<Command>,
    pub stage: Stage,
    pub map_state: MapState,
}

/// The host's side of one run: the plan, the stage the run is in and the
/// record of the staging buffer. It owns every decision of the run; the
/// caller performs the device work it asks for and reports how that went.
#[derive(Debug)]
pub struct Gpu {
    plan: RunPlan,
    stage: Stage,
    staging: StagingBuffer,
}

/// The staging buffer's state that goes with each stage: a map is pending
/// exactly while its completion is awaited, the bytes are mapped exactly
/// while they are read, and a run that failed holds no mapped view.
pub open spec fn linked(stage: Stage, map_state: MapState) -> bool {
    match stage {
        Stage::AwaitingMap => map_state == MapState::Pending,
        Stage::Reading => map_state == MapState::Mapped,
        Stage::Failed(_) => map_state != MapState::Mapped,
        _ => map_state == MapState::Unmapped,
    }
}

/// The staging buffer's state on entering `stage`, given its state before.
pub open spec fn map_state_on(stage: Stage, before: MapState) -> MapState {
    match stage {
        Stage::AwaitingMap => MapState::Pending,
        Stage::Reading => MapState::Mapped,
        Stage::Finished => MapState::Unmapped,
        Stage::Failed(_) => if before == MapState::Mapped {
            MapState::Unmapped
        } else {
            before
        },
        _ => before,
    }
}

impl View for Gpu {
    type V = GpuView;

    closed spec fn view(&self) -> GpuView {
        GpuView {
            width: self.plan.width as nat,
            height: self.plan.height as nat,
            size: self.plan.buffers.staging.size as nat,
            grid: self.plan.grid,
            commands: self.plan.commands@,
            stage: self.stage,
            map_state: self.staging@.state,
        }
    }
}

impl Gpu {
    /// What holds of every `Gpu` between calls: the plan is the plan of its
    /// image, and the staging buffer's state is the one of the stage.
    pub closed spec fn wf(&self) -> bool {
        &&& self@.width > 0
        &&& self@.height > 0
        &&& self@.size == byte_size(self@.width, self@.height)
        &&& self@.grid == dispatch_for(self@.width, self@.height, LOCAL_GROUP_SIZE as nat)
        &&& self@.commands == planned_sequence(self@.grid, self.plan.buffers.output.size)
        &&& self.plan.buffers == plan_for(self@.width, self@.height)
        &&& self.plan.buffers.output.size == self@.size
        &&& self.staging@.size == self@.size
        &&& linked(self@.stage, self@.map_state)
    }

    /// What `wf` says of the view.
    pub proof fn lemma_wf(&self)
        requires
            self.wf(),
        ensures
            self@.width > 0,
            self@.height > 0,
            self@.size == byte_size(self@.width, self@.height),
            self@.grid == dispatch_for(self@.width, self@.height, LOCAL_GROUP_SIZE as nat),
            self@.commands == planned_sequence(self@.grid, self@.size as u64),
            linked(self@.stage, self@.map_state),
    {
    }

    /// The start of a run for the 256 by 256 image: everything is planned,
    /// nothing has been asked of the device, the staging buffer is unmapped.
    pub fn new() -> (gpu: Gpu)
        ensures
            gpu.wf(),
            gpu@.width == IMAGE_WIDTH,
            gpu@.height == IMAGE_HEIGHT,
            gpu@.size == byte_size(IMAGE_WIDTH as nat, IMAGE_HEIGHT as nat),
            gpu@.grid == dispatch_for(
                IMAGE_WIDTH as nat,
                IMAGE_HEIGHT as nat,
                LOCAL_GROUP_SIZE as nat,
            ),
            gpu@.commands == planned_sequence(gpu@.grid, gpu@.size as u64),
            gpu@.stage == Stage::AwaitingAdapter,
            gpu@.map_state == MapState::Unmapped,
    {
        assert(byte_size(256, 256) == 262144);
        let plan = plan_run(IMAGE_WIDTH, IMAGE_HEIGHT, LOCAL_GROUP_SIZE).unwrap();
        let staging = StagingBuffer::new(plan.buffers.staging.size);
        Gpu { plan, stage: Stage::AwaitingAdapter, staging }
    }

    /// Takes the outcome of the device work that was asked for last, moves
    /// to the next stage and says what to do next. The staging buffer's state
    /// follows the stage. An outcome out of turn changes nothing and gives
    /// `None`.
    pub fn run(&mut self, outcome: Outcome) -> (action: Option<Action>)
        requires
            old(self).wf(),
        ensures
            final(self).wf(),
            final(self)@.width == old(self)@.width,
            final(self)@.height == old(self)@.height,
            final(self)@.size == old(self)@.size,
            final(self)@.grid == old(self)@.grid,
            final(self)@.commands == old(self)@.commands,
            match next_step(old(self)@.stage, outcome) {
                Some(next) => {
                    &&& action == Some(next.1)
                    &&& final(self)@.stage == next.0
                    &&& final(self)@.map_state == map_state_on(next.0, old(self)@.map_state)
                },
                None => action.is_none() && final(self)@ == old(self)@,
            },
    {
        match step(self.stage, outcome) {
            None => None,
            Some((next, action)) => {
                match action {
                    Action::SubmitAndMap => {
                        let _ = self.staging.apply(MapEvent::Requested);
                    },
                    Action::ReadAndEncode => {
                        let _ = self.staging.apply(MapEvent::Completed);
                    },
                    Action::Unmap => {
                        let _ = self.staging.apply(MapEvent::Released);
                    },
                    Action::Abort(_) => {
                        if self.staging.readable() {
                            let _ = self.staging.apply(MapEvent::Released);
                        }
                    },
                    _ => {},
                }
                self.stage = next;
                Some(action)
            },
        }
    }

    /// The stage the run is in.
    pub fn stage(&self) -> (stage: Stage)
        ensures
            stage == self@.stage,
    {
        self.stage
    }

    /// The plan of the run.
    pub fn plan(&self) -> (plan: &RunPlan)
        requires
            self.wf(),
        ensures
            plan.width == self@.width,
            plan.height == self@.height,
            plan.buffers == plan_for(self@.width, self@.height),
            plan.buffers.staging.size == self@.size,
            plan.grid == self@.grid,
            plan.commands@ == self@.commands,
    {
        &self.plan
    }

    /// Whether the mapped bytes may be read now: only while the run is
    /// reading, that is after the map's completion and before the unmap.
    pub fn readable(&self) -> (yes: bool)
        requires
            self.wf(),
        ensures
            yes == (self@.stage == Stage::Reading),
            yes == (self@.map_state == MapState::Mapped),
    {
        self.staging.readable()
    }

    /// Takes the bytes copied out of the mapped view and assembles the image.
    /// Outside the reading stage this is a failed map. While reading, the
    /// bytes must be exactly four per texel of the planned image.
    pub fn read(&self, bytes: Vec<u8>) -> (image: Result<PixelGrid, GpuError>)
        requires
            self.wf(),
        ensures
            self@.stage != Stage::Reading ==> image.is_err() && image.unwrap_err()
                == GpuError::BufferMapFailed,
            self@.stage == Stage::Reading && bytes@.len() != self@.size ==> image.is_err()
                && image.unwrap_err() == GpuError::MalformedPixelBuffer,
            self@.stage == Stage::Reading && bytes@.len() == self@.size ==> {
                &&& image.is_ok()
                &&& image.unwrap().bytes() == bytes@
                &&& image.unwrap().columns() == self@.width
                &&& image.unwrap().rows() == self@.height
            },
    {
        match self.staging.read_mapped(bytes) {
            Ok(read) => PixelGrid::assemble(self.plan.width, self.plan.height, read),
            Err(e) => Err(e),
        }
    }
}

} // verus!

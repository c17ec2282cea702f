use crate::dispatch::WorkgroupCount;
use vstd::prelude::*;

verus! {

/// One recorded device operation.
#[derive(Clone, Copy, Debug, PartialEq, Eq, Structural)]
pub enum Command {
    BeginComputePass,
    SetPipeline,
    SetBindGroup { index: u32 },
    Dispatch { x: u32, y: u32, z: u32 },
    EndComputePass,
    CopyBufferToBuffer { src_offset: u64, dst_offset: u64, size: u64 },
}

/// What the recording rules depend on: whether a compute pass is open, and
/// what has been bound in it.
#[derive(Clone, Copy, Debug, PartialEq, Eq, Structural)]
pub struct PassState {
    pub in_pass: bool,
    pub pipeline_set: bool,
    pub group_set: bool,
}

/// The state of a recording that holds no command yet.
pub open spec fn idle() -> PassState {
    PassState { in_pass: false, pipeline_set: false, group_set: false }
}

/// The recording rules. Binding and dispatching need an open pass, a dispatch
/// needs both the pipeline and bind group 0, and a copy is valid only while
/// no pass is open. `None` where the command is not allowed.
pub open spec fn after(state: PassState, command: Command) -> Option<PassState> {
    match command {
        Command::BeginComputePass => if state.in_pass {
            None
        } else {
            Some(PassState { in_pass: true, pipeline_set: false, group_set: false })
        },
        Command::SetPipeline => if state.in_pass {
            Some(PassState { pipeline_set: true, ..state })
        } else {
            None
        },
        Command::SetBindGroup { index } => if state.in_pass {
            Some(PassState { group_set: state.group_set || index == 0, ..state })
        } else {
            None
        },
        Command::Dispatch { x, y, z } => if state.in_pass && state.pipeline_set
            && state.group_set {
            Some(state)
        } else {
            None
        },
        Command::EndComputePass => if state.in_pass {
            Some(idle())
        } else {
            None
        },
        Command::CopyBufferToBuffer { src_offset, dst_offset, size } => if state.in_pass {
            None
        } else {
            Some(state)
        },
    }
}

/// The state after a whole sequence, or `None` once a command was not allowed.
pub open spec fn recorded(commands: Seq<Command>) -> Option<PassState>
    decreases commands.len(),
{
    if commands.len() == 0 {
        Some(idle())
    } else {
        match recorded(commands.drop_last()) {
            Some(state) => after(state, commands.last()),
            None => None,
        }
    }
}

/// A sequence may be finalized and submitted when every command was allowed
/// and no pass is left open.
pub open spec fn well_formed(commands: Seq<Command>) -> bool {
    match recorded(commands) {
        Some(state) => !state.in_pass,
        None => false,
    }
}

/// The command sequence of one run: a compute pass that binds the pipeline
/// and bind group 0 and dispatches `grid`, and after the pass a copy of the
/// first `size` bytes of the output buffer to the start of the staging buffer.
pub open spec fn planned_sequence(grid: WorkgroupCount, size: u64) -> Seq<Command> {
    seq![
        Command::BeginComputePass,
        Command::SetPipeline,
        Command::SetBindGroup { index: 0 },
        Command::Dispatch { x: grid.x, y: grid.y, z: grid.z },
        Command::EndComputePass,
        Command::CopyBufferToBuffer { src_offset: 0, dst_offset: 0, size },
    ]
}

/// Appending a command continues from the state reached so far.
pub proof fn lemma_recorded_push(commands: Seq<Command>, command: Command)
    ensures
        recorded(commands.push(command)) == match recorded(commands) {
            Some(state) => after(state, command),
            None => None,
        },
{
    assert(commands.push(command).drop_last() =~= commands);
    assert(commands.push(command).last() == command);
}

/// Once a prefix has broken the rules, no continuation mends it.
pub proof fn lemma_broken_stays_broken(commands: Seq<Command>, n: int)
    requires
        0 <= n <= commands.len(),
        recorded(commands.take(n)) is None,
    ensures
        recorded(commands) is None,
    decreases commands.len() - n,
{
    if n < commands.len() {
        assert(commands.take(n + 1).drop_last() =~= commands.take(n));
        lemma_broken_stays_broken(commands, n + 1);
    } else {
        assert(commands.take(n) =~= commands);
    }
}

/// A copy is never allowed while a compute pass is open: a well-formed
/// sequence has closed every pass before each of its copies.
pub proof fn lemma_copy_outside_pass(commands: Seq<Command>, n: int)
    requires
        0 <= n < commands.len(),
        recorded(commands) is Some,
        commands[n] is CopyBufferToBuffer,
    ensures
        recorded(commands.take(n)) is Some,
        !recorded(commands.take(n)).unwrap().in_pass,
{
    if recorded(commands.take(n + 1)) is None {
        lemma_broken_stays_broken(commands, n + 1);
    }
    assert(commands.take(n + 1).drop_last() =~= commands.take(n));
    assert(commands.take(n + 1).last() == commands[n]);
}

/// The planned sequence obeys the recording rules.
pub proof fn lemma_planned_well_formed(grid: WorkgroupCount, size: u64)
    ensures
        well_formed(planned_sequence(grid, size)),
{
    let s0 = Seq::<Command>::empty();
    let s1 = s0.push(Command::BeginComputePass);
    let s2 = s1.push(Command::SetPipeline);
    let s3 = s2.push(Command::SetBindGroup { index: 0 });
    let s4 = s3.push(Command::Dispatch { x: grid.x, y: grid.y, z: grid.z });
    let s5 = s4.push(Command::EndComputePass);
    let s6 = s5.push(Command::CopyBufferToBuffer { src_offset: 0, dst_offset: 0, size });
    assert(recorded(s0) == Some(idle()));
    lemma_recorded_push(s0, Command::BeginComputePass);
    lemma_recorded_push(s1, Command::SetPipeline);
    lemma_recorded_push(s2, Command::SetBindGroup { index: 0 });
    lemma_recorded_push(s3, Command::Dispatch { x: grid.x, y: grid.y, z: grid.z });
    lemma_recorded_push(s4, Command::EndComputePass);
    lemma_recorded_push(s5, Command::CopyBufferToBuffer { src_offset: 0, dst_offset: 0, size });
    assert(s6 =~= planned_sequence(grid, size));
}

/// One step of the recording rules.
pub fn advance_pass(state: PassState, command: Command) -> (next: Option<PassState>)
    ensures
        next == after(state, command),
{
    match command {
        Command::BeginComputePass => if state.in_pass {
            None
        } else {
            Some(PassState { in_pass: true, pipeline_set: false, group_set: false })
        },
        Command::SetPipeline => if state.in_pass {
            Some(
                PassState {
                    in_pass: state.in_pass,
                    pipeline_set: true,
                    group_set: state.group_set,
                },
            )
        } else {
            None
        },
        Command::SetBindGroup { index } => if state.in_pass {
            Some(
                PassState {
                    in_pass: state.in_pass,
                    pipeline_set: state.pipeline_set,
                    group_set: state.group_set || index == 0,
                },
            )
        } else {
            None
        },
        Command::Dispatch { x: _, y: _, z: _ } => if state.in_pass && state.pipeline_set
            && state.group_set {
            Some(state)
        } else {
            None
        },
        Command::EndComputePass => if state.in_pass {
            Some(PassState { in_pass: false, pipeline_set: false, group_set: false })
        } else {
            None
        },
        Command::CopyBufferToBuffer { src_offset: _, dst_offset: _, size: _ } => if state.in_pass {
            None
        } else {
            Some(state)
        },
    }
}

/// Whether a command sequence may be finalized and submitted.
pub fn check_sequence(commands: &Vec<Command>) -> (ok: bool)
    ensures
        ok == well_formed(commands@),
{
    let mut state = PassState { in_pass: false, pipeline_set: false, group_set: false };
    let mut i: usize = 0;
    assert(commands@.take(0) =~= Seq::<Command>::empty());
    while i < commands.len()
        invariant
            i <= commands@.len(),
            recorded(commands@.take(i as int)) == Some(state),
        decreases commands@.len() - i,
    {
        proof {
            assert(commands@.take(i + 1).drop_last() =~= commands@.take(i as int));
            assert(commands@.take(i + 1).last() == commands@[i as int]);
        }
        match advance_pass(state, commands[i]) {
            Some(next) => {
                state = next;
            },
            None => {
                proof {
                    lemma_broken_stays_broken(commands@, i + 1);
                }
                return false;
            },
        }
        i = i + 1;
    }
    assert(commands@.take(i as int) =~= commands@);
    !state.in_pass
}

/// Records the commands of one run, in order.
pub fn record_commands(grid: WorkgroupCount, size: u64) -> (commands: Vec<Command>)
    ensures
        commands@ == planned_sequence(grid, size),
        well_formed(commands@),
{
    let mut commands: Vec<Command> = Vec::new();
    commands.push(Command::BeginComputePass);
    commands.push(Command::SetPipeline);
    commands.push(Command::SetBindGroup { index: 0 });
    commands.push(Command::Dispatch { x: grid.x, y: grid.y, z: grid.z });
    commands.push(Command::EndComputePass);
    commands.push(Command::CopyBufferToBuffer { src_offset: 0, dst_offset: 0, size });
    proof {
        assert(commands@ =~= planned_sequence(grid, size));
        lemma_planned_well_formed(grid, size);
    }
    commands
}

} // verus!

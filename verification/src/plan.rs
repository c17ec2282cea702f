use crate::buffers::byte_size;
use crate::buffers::plan_buffers;
use crate::buffers::plan_for;
use crate::buffers::BufferPlan;
use crate::commands::planned_sequence;
use crate::commands::record_commands;
use crate::commands::well_formed;
use crate::commands::Command;
use crate::dispatch::dispatch_for;
use crate::dispatch::dispatch_size;
use crate::dispatch::WorkgroupCount;
use vstd::prelude::*;

verus! {

/// Width of the image, in texels.
pub const IMAGE_WIDTH: u32 = 256;

/// Height of the image, in texels.
pub const IMAGE_HEIGHT: u32 = 256;

/// Side of the kernel's square workgroup.
pub const LOCAL_GROUP_SIZE: u32 = 8;

/// Everything that is decided before the device is touched.
#[derive(Debug)]
pub struct RunPlan {
    pub width: u32,
    pub height: u32,
    pub buffers: BufferPlan,
    pub grid: WorkgroupCount,
    pub commands: Vec<Command>,
}

/// Plans one run: the two buffers, the workgroup counts and the command
/// sequence for a `width` by `height` image. `None` only when the buffers
/// would not fit a 64-bit address.
pub fn plan_run(width: u32, height: u32, local_size: u32) -> (plan: Option<RunPlan>)
    requires
        width > 0,
        height > 0,
        local_size > 0,
    ensures
        plan.is_some() <==> byte_size(width as nat, height as nat) <= u64::MAX,
        plan.is_some() ==> {
            let p = plan.unwrap();
            &&& p.width == width
            &&& p.height == height
            &&& p.buffers == plan_for(width as nat, height as nat)
            &&& p.grid == dispatch_for(width as nat, height as nat, local_size as nat)
            &&& p.commands@ == planned_sequence(p.grid, p.buffers.output.size)
            &&& well_formed(p.commands@)
        },
{
    match plan_buffers(width, height) {
        None => None,
        Some(buffers) => {
            let grid = dispatch_size(width, height, local_size);
            let commands = record_commands(grid, buffers.output.size);
            Some(RunPlan { width, height, buffers, grid, commands })
        },
    }
}

} // verus!

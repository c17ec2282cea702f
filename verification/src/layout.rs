use crate::error::GpuError;
use vstd::prelude::*;

verus! {

/// The pipeline stage that may read or write a slot.
#[derive(Clone, Copy, Debug, PartialEq, Eq, Structural)]
pub enum ShaderStage {
    Vertex,
    Fragment,
    Compute,
}

/// The kind of resource a slot holds.
#[derive(Clone, Copy, Debug, PartialEq, Eq, Structural)]
pub enum SlotKind {
    StorageBuffer { read_only: bool },
    UniformBuffer,
}

/// One resource slot of a binding layout.
#[derive(Clone, Copy, Debug, PartialEq, Eq, Structural)]
pub struct BindingSlot {
    pub binding: u32,
    pub visibility: ShaderStage,
    pub kind: SlotKind,
}

/// The single slot of the kernel: a read-write storage buffer at binding 0,
/// visible to the compute stage.
pub open spec fn output_slot() -> BindingSlot {
    BindingSlot {
        binding: 0,
        visibility: ShaderStage::Compute,
        kind: SlotKind::StorageBuffer { read_only: false },
    }
}

/// The ordered resource slots that a pipeline declares.
#[derive(Debug)]
pub struct BindingLayout {
    pub slots: Vec<BindingSlot>,
}

impl View for BindingLayout {
    type V = Seq<BindingSlot>;

    open spec fn view(&self) -> Seq<BindingSlot> {
        self.slots@
    }
}

/// What a compute program consumes: its entry point and, in order, its slots.
#[derive(Debug)]
pub struct ShaderInterface {
    pub entry_point: &'static str,
    pub slots: Vec<BindingSlot>,
}

impl View for ShaderInterface {
    type V = Seq<BindingSlot>;

    open spec fn view(&self) -> Seq<BindingSlot> {
        self.slots@
    }
}

/// A validated pipeline description: the layout and the entry point to run.
#[derive(Debug)]
pub struct PipelineDesc {
    pub layout: BindingLayout,
    pub entry_point: &'static str,
}

/// The name of the kernel's entry point.
pub fn entry_point_name() -> (name: &'static str)
    ensures
        name@ == "compute_main"@,
{
    "compute_main"
}

fn make_output_slot() -> (slot: BindingSlot)
    ensures
        slot == output_slot(),
{
    BindingSlot {
        binding: 0,
        visibility: ShaderStage::Compute,
        kind: SlotKind::StorageBuffer { read_only: false },
    }
}

impl BindingLayout {
    /// A layout with no slots.
    pub fn empty() -> (layout: BindingLayout)
        ensures
            layout@ == Seq::<BindingSlot>::empty(),
    {
        BindingLayout { slots: Vec::new() }
    }

    /// The layout of the gradient kernel: exactly `output_slot()`.
    pub fn storage_output() -> (layout: BindingLayout)
        ensures
            layout@ == seq![output_slot()],
    {
        let mut slots: Vec<BindingSlot> = Vec::new();
        slots.push(make_output_slot());
        assert(slots@ =~= seq![output_slot()]);
        BindingLayout { slots }
    }

    /// Number of declared slots.
    pub fn slot_count(&self) -> (n: usize)
        ensures
            n == self@.len(),
    {
        self.slots.len()
    }
}

impl ShaderInterface {
    /// The interface of the gradient kernel: entry point `compute_main`, one
    /// read-write storage buffer at binding 0.
    pub fn gradient() -> (shader: ShaderInterface)
        ensures
            shader@ == seq![output_slot()],
            shader.entry_point@ == "compute_main"@,
    {
        let mut slots: Vec<BindingSlot> = Vec::new();
        slots.push(make_output_slot());
        assert(slots@ =~= seq![output_slot()]);
        ShaderInterface { entry_point: entry_point_name(), slots }
    }
}

/// Whether two slot lists agree: same number of slots, each equal in order.
pub fn same_slots(declared: &Vec<BindingSlot>, expected: &Vec<BindingSlot>) -> (same: bool)
    ensures
        same == (declared@ == expected@),
{
    if declared.len() != expected.len() {
        return false;
    }
    let mut i: usize = 0;
    while i < declared.len()
        invariant
            declared@.len() == expected@.len(),
            i <= declared@.len(),
            forall|j: int| 0 <= j < i ==> declared@[j] == expected@[j],
        decreases declared@.len() - i,
    {
        if declared[i] != expected[i] {
            return false;
        }
        i = i + 1;
    }
    assert(declared@ =~= expected@);
    true
}

/// Checks a declared layout against what the program consumes. The layout is
/// accepted exactly when its slots are the program's slots, in order.
pub fn validate_layout(layout: &BindingLayout, shader: &ShaderInterface) -> (checked: Result<
    (),
    GpuError,
>)
    ensures
        checked.is_ok() <==> layout@ == shader@,
        checked.is_err() ==> checked == Err::<(), GpuError>(GpuError::PipelineValidationFailed),
{
    if same_slots(&layout.slots, &shader.slots) {
        Ok(())
    } else {
        Err(GpuError::PipelineValidationFailed)
    }
}

/// Builds the pipeline description, or rejects a layout that does not match
/// the program. Nothing is built from a mismatched layout.
pub fn build_pipeline(layout: BindingLayout, shader: &ShaderInterface) -> (built: Result<
    PipelineDesc,
    GpuError,
>)
    ensures
        built.is_ok() <==> layout@ == shader@,
        built.is_ok() ==> built.unwrap().layout@ == layout@ && built.unwrap().entry_point@
            == shader.entry_point@,
        built.is_err() ==> built.unwrap_err() == GpuError::PipelineValidationFailed,
{
    match validate_layout(&layout, shader) {
        Ok(()) => Ok(PipelineDesc { layout, entry_point: shader.entry_point }),
        Err(e) => Err(e),
    }
}

} // verus!

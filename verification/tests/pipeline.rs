use gradient_compute::driver::step;
use gradient_compute::driver::Action;
use gradient_compute::driver::Outcome;
use gradient_compute::driver::Stage;
use gradient_compute::error::GpuError;
use gradient_compute::layout::build_pipeline;
use gradient_compute::layout::entry_point_name;
use gradient_compute::layout::same_slots;
use gradient_compute::layout::validate_layout;
use gradient_compute::layout::BindingLayout;
use gradient_compute::layout::BindingSlot;
use gradient_compute::layout::ShaderInterface;
use gradient_compute::layout::ShaderStage;
use gradient_compute::layout::SlotKind;

fn all_outcomes() -> Vec<Outcome> {
    vec![
        Outcome::AdapterAcquired,
        Outcome::AdapterMissing,
        Outcome::DeviceAcquired,
        Outcome::DeviceRejected,
        Outcome::PipelineBuilt,
        Outcome::PipelineRejected,
        Outcome::MapCompleted,
        Outcome::MapFailed,
        Outcome::ImageWritten,
        Outcome::PixelsMalformed,
        Outcome::EncodeFailed,
    ]
}

fn all_stages() -> Vec<Stage> {
    vec![
        Stage::AwaitingAdapter,
        Stage::AwaitingDevice,
        Stage::AwaitingPipeline,
        Stage::AwaitingMap,
        Stage::Reading,
        Stage::Finished,
        Stage::Failed(GpuError::BufferMapFailed),
    ]
}

fn position(stage: Stage) -> u32 {
    match stage {
        Stage::AwaitingAdapter => 0,
        Stage::AwaitingDevice => 1,
        Stage::AwaitingPipeline => 2,
        Stage::AwaitingMap => 3,
        Stage::Reading => 4,
        Stage::Finished => 5,
        Stage::Failed(_) => 6,
    }
}

#[test]
fn storage_layout_matches_the_kernel() {
    let layout = BindingLayout::storage_output();
    assert_eq!(layout.slot_count(), 1);
    assert_eq!(
        layout.slots,
        vec![BindingSlot {
            binding: 0,
            visibility: ShaderStage::Compute,
            kind: SlotKind::StorageBuffer { read_only: false },
        }]
    );
    let shader = ShaderInterface::gradient();
    assert_eq!(shader.entry_point, "compute_main");
    assert_eq!(entry_point_name(), "compute_main");
    assert_eq!(validate_layout(&layout, &shader), Ok(()));
    let built = build_pipeline(layout, &shader).unwrap();
    assert_eq!(built.entry_point, "compute_main");
    assert_eq!(built.layout.slots, shader.slots);
}

#[test]
fn empty_layout_fails_validation_before_any_submission() {
    let shader = ShaderInterface::gradient();
    let layout = BindingLayout::empty();
    assert_eq!(layout.slot_count(), 0);
    assert_eq!(validate_layout(&layout, &shader), Err(GpuError::PipelineValidationFailed));
    let built = build_pipeline(layout, &shader);
    assert_eq!(built.unwrap_err(), GpuError::PipelineValidationFailed);

    let (stage, action) = step(Stage::AwaitingPipeline, Outcome::PipelineRejected).unwrap();
    assert_eq!(stage, Stage::Failed(GpuError::PipelineValidationFailed));
    assert_eq!(action, Action::Abort(GpuError::PipelineValidationFailed));
    for outcome in all_outcomes() {
        assert_eq!(step(stage, outcome), None);
    }
}

#[test]
fn mismatched_slots_fail_validation() {
    let shader = ShaderInterface::gradient();
    let good = BindingSlot {
        binding: 0,
        visibility: ShaderStage::Compute,
        kind: SlotKind::StorageBuffer { read_only: false },
    };
    let variants = vec![
        BindingSlot { binding: 1, ..good },
        BindingSlot { visibility: ShaderStage::Fragment, ..good },
        BindingSlot { visibility: ShaderStage::Vertex, ..good },
        BindingSlot { kind: SlotKind::StorageBuffer { read_only: true }, ..good },
        BindingSlot { kind: SlotKind::UniformBuffer, ..good },
    ];
    for slot in variants {
        let layout = BindingLayout { slots: vec![slot] };
        assert_eq!(validate_layout(&layout, &shader), Err(GpuError::PipelineValidationFailed));
    }
    let two = BindingLayout { slots: vec![good, good] };
    assert_eq!(validate_layout(&two, &shader), Err(GpuError::PipelineValidationFailed));
    assert!(same_slots(&vec![good, good], &vec![good, good]));
    assert!(!same_slots(&vec![good], &vec![good, good]));
    assert!(same_slots(&Vec::new(), &Vec::new()));
}

#[test]
fn a_successful_run_walks_every_stage_once() {
    let mut stage = Stage::AwaitingAdapter;
    let script = vec![
        (Outcome::AdapterAcquired, Stage::AwaitingDevice, Action::RequestDevice),
        (Outcome::DeviceAcquired, Stage::AwaitingPipeline, Action::BuildPipeline),
        (Outcome::PipelineBuilt, Stage::AwaitingMap, Action::SubmitAndMap),
        (Outcome::MapCompleted, Stage::Reading, Action::ReadAndEncode),
        (Outcome::ImageWritten, Stage::Finished, Action::Unmap),
    ];
    for (outcome, expected_stage, expected_action) in script {
        let (next, action) = step(stage, outcome).unwrap();
        assert_eq!(next, expected_stage);
        assert_eq!(action, expected_action);
        stage = next;
    }
    for outcome in all_outcomes() {
        assert_eq!(step(stage, outcome), None);
    }
}

#[test]
fn each_failure_ends_the_run_with_its_error() {
    let cases = vec![
        (Stage::AwaitingAdapter, Outcome::AdapterMissing, GpuError::AdapterNotFound),
        (Stage::AwaitingDevice, Outcome::DeviceRejected, GpuError::DeviceRequestFailed),
        (Stage::AwaitingPipeline, Outcome::PipelineRejected, GpuError::PipelineValidationFailed),
        (Stage::AwaitingMap, Outcome::MapFailed, GpuError::BufferMapFailed),
        (Stage::Reading, Outcome::PixelsMalformed, GpuError::MalformedPixelBuffer),
        (Stage::Reading, Outcome::EncodeFailed, GpuError::ImageEncodeFailed),
    ];
    for (stage, outcome, error) in cases {
        assert_eq!(step(stage, outcome), Some((Stage::Failed(error), Action::Abort(error))));
    }
}

#[test]
fn steps_only_move_forward() {
    let mut taken = 0;
    for stage in all_stages() {
        for outcome in all_outcomes() {
            if let Some((next, action)) = step(stage, outcome) {
                taken += 1;
                assert!(position(next) > position(stage));
                if action == Action::SubmitAndMap {
                    assert_eq!((stage, outcome), (Stage::AwaitingPipeline, Outcome::PipelineBuilt));
                }
                if action == Action::ReadAndEncode {
                    assert_eq!((stage, outcome), (Stage::AwaitingMap, Outcome::MapCompleted));
                }
            }
        }
    }
    assert_eq!(taken, 11);
}

#[test]
fn outcomes_out_of_turn_have_no_next_step() {
    assert_eq!(step(Stage::AwaitingAdapter, Outcome::MapCompleted), None);
    assert_eq!(step(Stage::AwaitingDevice, Outcome::AdapterAcquired), None);
    assert_eq!(step(Stage::AwaitingPipeline, Outcome::ImageWritten), None);
    assert_eq!(step(Stage::AwaitingMap, Outcome::PipelineBuilt), None);
    assert_eq!(step(Stage::Reading, Outcome::MapCompleted), None);
}

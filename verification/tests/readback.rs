use gradient_compute::error::GpuError;
use gradient_compute::readback::advance;
use gradient_compute::readback::MapEvent;
use gradient_compute::readback::MapState;
use gradient_compute::readback::StagingBuffer;

#[test]
fn map_lifecycle_in_order() {
    let mut staging = StagingBuffer::new(16);
    assert_eq!(staging.size(), 16);
    assert_eq!(staging.state(), MapState::Unmapped);
    assert!(!staging.readable());
    assert_eq!(staging.apply(MapEvent::Requested), Ok(()));
    assert_eq!(staging.state(), MapState::Pending);
    assert!(!staging.readable());
    assert_eq!(staging.apply(MapEvent::Completed), Ok(()));
    assert_eq!(staging.state(), MapState::Mapped);
    assert!(staging.readable());
    assert_eq!(staging.apply(MapEvent::Released), Ok(()));
    assert_eq!(staging.state(), MapState::Unmapped);
    assert!(!staging.readable());
    assert_eq!(staging.size(), 16);
}

#[test]
fn bytes_are_not_readable_before_completion() {
    let mut staging = StagingBuffer::new(8);
    assert_eq!(staging.read_mapped(vec![0u8; 8]), Err(GpuError::BufferMapFailed));
    staging.apply(MapEvent::Requested).unwrap();
    assert_eq!(staging.read_mapped(vec![0u8; 8]), Err(GpuError::BufferMapFailed));
    staging.apply(MapEvent::Completed).unwrap();
    assert_eq!(staging.read_mapped(vec![7u8; 8]), Ok(vec![7u8; 8]));
}

#[test]
fn view_is_invalid_after_unmap() {
    let mut staging = StagingBuffer::new(4);
    staging.apply(MapEvent::Requested).unwrap();
    staging.apply(MapEvent::Completed).unwrap();
    assert_eq!(staging.read_mapped(vec![1, 2, 3, 4]), Ok(vec![1, 2, 3, 4]));
    staging.apply(MapEvent::Released).unwrap();
    assert_eq!(staging.read_mapped(vec![1, 2, 3, 4]), Err(GpuError::BufferMapFailed));
    // Only a new request and completion opens the view again.
    assert_eq!(staging.apply(MapEvent::Completed), Err(GpuError::BufferMapFailed));
    staging.apply(MapEvent::Requested).unwrap();
    staging.apply(MapEvent::Completed).unwrap();
    assert!(staging.readable());
}

#[test]
fn read_length_equals_buffer_size() {
    let mut staging = StagingBuffer::new(262144);
    staging.apply(MapEvent::Requested).unwrap();
    staging.apply(MapEvent::Completed).unwrap();
    let read = staging.read_mapped(vec![9u8; 262144]).unwrap();
    assert_eq!(read.len(), 262144);
    assert_eq!(staging.read_mapped(vec![9u8; 262143]), Err(GpuError::MalformedPixelBuffer));
    assert_eq!(staging.read_mapped(vec![9u8; 262148]), Err(GpuError::MalformedPixelBuffer));
    assert_eq!(staging.read_mapped(Vec::new()), Err(GpuError::MalformedPixelBuffer));
}

#[test]
fn map_error_is_a_failed_map() {
    let mut staging = StagingBuffer::new(4);
    staging.apply(MapEvent::Requested).unwrap();
    assert_eq!(staging.apply(MapEvent::Failed), Err(GpuError::BufferMapFailed));
    assert_eq!(staging.state(), MapState::Pending);
    assert!(!staging.readable());
}

#[test]
fn protocol_violations_leave_the_record_unchanged() {
    let mut staging = StagingBuffer::new(4);
    assert_eq!(staging.apply(MapEvent::Released), Err(GpuError::BufferMapFailed));
    assert_eq!(staging.apply(MapEvent::Completed), Err(GpuError::BufferMapFailed));
    assert_eq!(staging.state(), MapState::Unmapped);
    staging.apply(MapEvent::Requested).unwrap();
    assert_eq!(staging.apply(MapEvent::Requested), Err(GpuError::BufferMapFailed));
    assert_eq!(staging.apply(MapEvent::Released), Err(GpuError::BufferMapFailed));
    assert_eq!(staging.state(), MapState::Pending);
    staging.apply(MapEvent::Completed).unwrap();
    assert_eq!(staging.apply(MapEvent::Requested), Err(GpuError::BufferMapFailed));
    assert_eq!(staging.apply(MapEvent::Completed), Err(GpuError::BufferMapFailed));
    assert_eq!(staging.state(), MapState::Mapped);
}

#[test]
fn advance_table() {
    let states = [MapState::Unmapped, MapState::Pending, MapState::Mapped];
    let events = [MapEvent::Requested, MapEvent::Completed, MapEvent::Failed, MapEvent::Released];
    for state in states {
        for event in events {
            let expected = match (state, event) {
                (MapState::Unmapped, MapEvent::Requested) => Ok(MapState::Pending),
                (MapState::Pending, MapEvent::Completed) => Ok(MapState::Mapped),
                (MapState::Mapped, MapEvent::Released) => Ok(MapState::Unmapped),
                _ => Err(GpuError::BufferMapFailed),
            };
            assert_eq!(advance(state, event), expected);
        }
    }
}

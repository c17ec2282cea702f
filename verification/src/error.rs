use vstd::prelude::*;

verus! {

/// The ways a run can fail. Each one is fatal: nothing is retried and no
/// partial output is produced.
#[derive(Clone, Copy, Debug, PartialEq, Eq, Structural)]
pub enum GpuError {
    /// No adapter with compute support was offered by the system.
    AdapterNotFound,
    /// The driver rejected the request for a logical device and queue.
    DeviceRequestFailed,
    /// The declared binding layout differs from what the compute program consumes.
    PipelineValidationFailed,
    /// Mapping the staging buffer failed, or its bytes were touched outside the
    /// window between a completed map and the unmap.
    BufferMapFailed,
    /// The byte buffer does not hold exactly one 4-byte pixel per texel.
    MalformedPixelBuffer,
    /// The image codec could not write the file.
    ImageEncodeFailed,
}

impl GpuError {
    /// The text shown for each error.
    pub open spec fn message_text(self) -> Seq<char> {
        match self {
            GpuError::AdapterNotFound => "no compute-capable adapter found"@,
            GpuError::DeviceRequestFailed => "device request failed"@,
            GpuError::PipelineValidationFailed => "pipeline validation failed"@,
            GpuError::BufferMapFailed => "buffer map failed"@,
            GpuError::MalformedPixelBuffer => "malformed pixel buffer"@,
            GpuError::ImageEncodeFailed => "image encode failed"@,
        }
    }

    /// A short description for the user.
    pub fn message(&self) -> (text: &'static str)
        ensures
            text@ == self.message_text(),
    {
        match self {
            GpuError::AdapterNotFound => "no compute-capable adapter found",
            GpuError::DeviceRequestFailed => "device request failed",
            GpuError::PipelineValidationFailed => "pipeline validation failed",
            GpuError::BufferMapFailed => "buffer map failed",
            GpuError::MalformedPixelBuffer => "malformed pixel buffer",
            GpuError::ImageEncodeFailed => "image encode failed",
        }
    }
}

} // verus!

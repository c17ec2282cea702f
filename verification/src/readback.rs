use crate::error::GpuError;
use vstd::prelude::*;

verus! {

/// Where the staging buffer stands in its mapping lifecycle.
#[derive(Clone, Copy, Debug, PartialEq, Eq, Structural)]
pub enum MapState {
    /// Not mapped: the device owns the bytes.
    Unmapped,
    /// A map was requested; its completion has not been signalled yet.
    Pending,
    /// The completion was signalled with success: the host may read.
    Mapped,
}

/// What can happen to the staging buffer.
#[derive(Clone, Copy, Debug, PartialEq, Eq, Structural)]
pub enum MapEvent {
    /// The host asked for the full range to be mapped for reading.
    Requested,
    /// The completion notification fired with success.
    Completed,
    /// The completion notification carried a map error.
    Failed,
    /// The host released the mapped view.
    Released,
}

/// The lifecycle: request, then completion, then release. Every other pair
/// of state and event breaks the protocol and has no next state.
pub open spec fn next_state(state: MapState, event: MapEvent) -> Option<MapState> {
    match (state, event) {
        (MapState::Unmapped, MapEvent::Requested) => Some(MapState::Pending),
        (MapState::Pending, MapEvent::Completed) => Some(MapState::Mapped),
        (MapState::Mapped, MapEvent::Released) => Some(MapState::Unmapped),
        _ => None,
    }
}

/// The state after a whole history of events on a fresh buffer, or `None`
/// once any event broke the protocol.
pub open spec fn replay(events: Seq<MapEvent>) -> Option<MapState>
    decreases events.len(),
{
    if events.len() == 0 {
        Some(MapState::Unmapped)
    } else {
        match replay(events.drop_last()) {
            Some(state) => next_state(state, events.last()),
            None => None,
        }
    }
}

/// A buffer becomes readable only by a successful completion of a pending map.
pub proof fn lemma_mapped_only_by_completion(state: MapState, event: MapEvent)
    ensures
        next_state(state, event) == Some(MapState::Mapped) <==> (state == MapState::Pending
            && event == MapEvent::Completed),
{
}

/// Whatever happened before, a buffer is readable only if the last event was
/// the successful completion: never before it fires, and never after a release.
pub proof fn lemma_readable_means_just_completed(events: Seq<MapEvent>)
    requires
        replay(events) == Some(MapState::Mapped),
    ensures
        events.len() > 0,
        events.last() == MapEvent::Completed,
        replay(events.drop_last()) == Some(MapState::Pending),
{
}

/// Releasing a mapped buffer ends the view at once: the buffer is unmapped,
/// and nothing but a new request and completion makes it readable again.
pub proof fn lemma_release_ends_view(events: Seq<MapEvent>)
    ensures
        replay(events.push(MapEvent::Released)) != Some(MapState::Mapped),
        replay(events) == Some(MapState::Mapped) ==> replay(events.push(MapEvent::Released))
            == Some(MapState::Unmapped),
{
    let after = events.push(MapEvent::Released);
    assert(after.drop_last() =~= events);
    assert(after.last() == MapEvent::Released);
}

/// One step of the lifecycle. A step that breaks the protocol, and a map
/// error from the device, are reported as a failed buffer map.
pub fn advance(state: MapState, event: MapEvent) -> (next: Result<MapState, GpuError>)
    ensures
        match next_state(state, event) {
            Some(s) => next == Ok::<MapState, GpuError>(s),
            None => next == Err::<MapState, GpuError>(GpuError::BufferMapFailed),
        },
{
    match state {
        MapState::Unmapped => match event {
            MapEvent::Requested => Ok(MapState::Pending),
            _ => Err(GpuError::BufferMapFailed),
        },
        MapState::Pending => match event {
            MapEvent::Completed => Ok(MapState::Mapped),
            _ => Err(GpuError::BufferMapFailed),
        },
        MapState::Mapped => match event {
            MapEvent::Released => Ok(MapState::Unmapped),
            _ => Err(GpuError::BufferMapFailed),
        },
    }
}

/// What a staging buffer record stands for: how many bytes the buffer holds
/// and where it is in its lifecycle.
pub struct StagingView {
    pub size: nat,
    pub state: MapState,
}

/// The host's record of the staging buffer. Its state changes only through
/// `apply`, so it always is the result of a history of events.
#[derive(Clone, Copy, Debug, PartialEq, Eq, Structural)]
pub struct StagingBuffer {
    size: u64,
    state: MapState,
}

impl View for StagingBuffer {
    type V = StagingView;

    closed spec fn view(&self) -> StagingView {
        StagingView { size: self.size as nat, state: self.state }
    }
}

impl StagingBuffer {
    /// A fresh, unmapped staging buffer of `size` bytes.
    pub fn new(size: u64) -> (buffer: StagingBuffer)
        ensures
            buffer@.size == size,
            buffer@.state == MapState::Unmapped,
    {
        StagingBuffer { size, state: MapState::Unmapped }
    }

    /// Bytes held by the buffer.
    pub fn size(&self) -> (size: u64)
        ensures
            size == self@.size,
    {
        self.size
    }

    /// Where the buffer stands.
    pub fn state(&self) -> (state: MapState)
        ensures
            state == self@.state,
    {
        self.state
    }

    /// Applies one event. On a protocol violation or a map error the record
    /// is left as it was and the failure is returned.
    pub fn apply(&mut self, event: MapEvent) -> (done: Result<(), GpuError>)
        ensures
            final(self)@.size == old(self)@.size,
            match next_state(old(self)@.state, event) {
                Some(s) => done.is_ok() && final(self)@.state == s,
                None => done == Err::<(), GpuError>(GpuError::BufferMapFailed)
                    && final(self)@.state == old(self)@.state,
            },
    {
        match advance(self.state, event) {
            Ok(next) => {
                self.state = next;
                Ok(())
            },
            Err(e) => Err(e),
        }
    }

    /// Whether the mapped bytes may be read now.
    pub fn readable(&self) -> (yes: bool)
        ensures
            yes == (self@.state == MapState::Mapped),
    {
        match self.state {
            MapState::Mapped => true,
            _ => false,
        }
    }

    /// Accepts the bytes copied out of the mapped view. Outside the mapped
    /// window this is a failed map; inside it, the bytes must be exactly as
    /// many as the buffer holds, and they are handed on unchanged.
    pub fn read_mapped(&self, bytes: Vec<u8>) -> (read: Result<Vec<u8>, GpuError>)
        ensures
            self@.state != MapState::Mapped ==> read.is_err() && read.unwrap_err()
                == GpuError::BufferMapFailed,
            self@.state == MapState::Mapped && bytes@.len() != self@.size ==> read.is_err()
                && read.unwrap_err() == GpuError::MalformedPixelBuffer,
            self@.state == MapState::Mapped && bytes@.len() == self@.size ==> read.is_ok()
                && read.unwrap()@ == bytes@,
    {
        if !self.readable() {
            return Err(GpuError::BufferMapFailed);
        }
        let given: usize = bytes.len();
        if given as u64 != self.size {
            return Err(GpuError::MalformedPixelBuffer);
        }
        Ok(bytes)
    }
}

} // verus!

use vstd::prelude::*;
use crate::error::{CaptureError, Resource};
use crate::layout::{dims_valid, BufferDimensions};

verus! {

/// Where a capture stands: the step it performs next, or how it ended.
#[derive(Clone, Copy, Debug, PartialEq, Eq, Structural)]
pub enum Phase {
    CreateBuffer,
    CreateTexture,
    Submit,
    RequestMap,
    AwaitMap,
    Read,
    Unmap,
    Finished,
    Aborted(CaptureError),
}

/// What the caller does next on the device.
#[derive(Clone, Copy, Debug, PartialEq, Eq, Structural)]
pub enum Action {
    /// Create the host-readable readback buffer (copy destination, map-read) of `size` bytes.
    CreateBuffer { size: u64 },
    /// Create the RGBA8 render target (render attachment, copy source), one mip level, one sample.
    CreateTexture { width: u32, height: u32 },
    /// Record a render pass that clears the texture, then a copy of the whole
    /// texture into the buffer with rows `bytes_per_row` apart; submit both as one job.
    SubmitClearAndCopy { width: u32, height: u32, bytes_per_row: u32 },
    /// Request a read-mapping of the first `size` bytes of the buffer.
    RequestMap { size: u64 },
    /// Drive the device forward; with `wait`, block until its queued work is done.
    PollDevice { wait: bool },
    /// Open a view of the mapped range, encode it, and release the view.
    ReadMapped,
    /// Unmap the buffer; no view of it is alive any more.
    Unmap,
    /// The capture is complete.
    Done,
    /// The capture was abandoned for this reason.
    Abort(CaptureError),
}

/// How the last action went, as the caller saw it.
#[derive(Clone, Copy, Debug, PartialEq, Eq, Structural)]
pub enum Event {
    /// The action took effect; after a poll, the mapping has resolved.
    Completed,
    /// After a poll: the mapping has not resolved yet.
    Pending,
    /// The device or the encoder rejected the action.
    Failed,
}

/// What a capture session holds, as contracts see it.
#[derive(Clone, Copy, Debug)]
pub struct SessionState {
    pub dims: BufferDimensions,
    pub phase: Phase,
    /// The clear-and-copy job has been handed to the queue.
    pub copy_submitted: bool,
    /// The device has reported, by resolving the mapping, that the copy is done.
    pub copy_completed: bool,
    /// An error to report once the mapping has been released.
    pub failure: Option<CaptureError>,
}

/// One capture, from the allocation of its resources to the release of the
/// mapping. Only `start` makes one and only `advance` moves it on, so every
/// session has passed through the phases in order.
#[derive(Clone, Copy, Debug)]
pub struct CaptureSession {
    dims: BufferDimensions,
    phase: Phase,
    copy_submitted: bool,
    copy_completed: bool,
    failure: Option<CaptureError>,
}

impl View for CaptureSession {
    type V = SessionState;

    closed spec fn view(&self) -> SessionState {
        SessionState {
            dims: self.dims,
            phase: self.phase,
            copy_submitted: self.copy_submitted,
            copy_completed: self.copy_completed,
            failure: self.failure,
        }
    }
}

impl SessionState {
    pub open spec fn wf(&self) -> bool {
        &&& self.dims.wf()
        &&& self.copy_completed ==> self.copy_submitted
        &&& (self.phase == Phase::CreateBuffer || self.phase == Phase::CreateTexture || self.phase
            == Phase::Submit) ==> !self.copy_submitted
        &&& (self.phase == Phase::RequestMap || self.phase == Phase::AwaitMap) ==> (
        self.copy_submitted && !self.copy_completed)
        &&& (self.phase == Phase::Read || self.phase == Phase::Unmap || self.phase
            == Phase::Finished) ==> self.copy_completed
        &&& self.failure is Some ==> (self.phase == Phase::Unmap && self.failure == Some(
            CaptureError::EncodeFailed,
        ))
    }

    /// The action that the session asks for in its current phase.
    pub open spec fn action(&self) -> Action {
        match self.phase {
            Phase::CreateBuffer => Action::CreateBuffer { size: self.dims.buffer_len() as u64 },
            Phase::CreateTexture => Action::CreateTexture {
                width: self.dims.width as u32,
                height: self.dims.height as u32,
            },
            Phase::Submit => Action::SubmitClearAndCopy {
                width: self.dims.width as u32,
                height: self.dims.height as u32,
                bytes_per_row: self.dims.padded_bytes_per_row as u32,
            },
            Phase::RequestMap => Action::RequestMap { size: self.dims.buffer_len() as u64 },
            Phase::AwaitMap => Action::PollDevice { wait: true },
            Phase::Read => Action::ReadMapped,
            Phase::Unmap => Action::Unmap,
            Phase::Finished => Action::Done,
            Phase::Aborted(e) => Action::Abort(e),
        }
    }

    /// The session after the caller reports `event` for the current action.
    pub open spec fn after(self, event: Event) -> SessionState {
        match (self.phase, event) {
            (Phase::CreateBuffer, Event::Completed) => SessionState {
                phase: Phase::CreateTexture,
                ..self
            },
            (Phase::CreateBuffer, Event::Failed) => SessionState {
                phase: Phase::Aborted(CaptureError::AllocationFailed(Resource::Buffer)),
                ..self
            },
            (Phase::CreateTexture, Event::Completed) => SessionState {
                phase: Phase::Submit,
                ..self
            },
            (Phase::CreateTexture, Event::Failed) => SessionState {
                phase: Phase::Aborted(CaptureError::AllocationFailed(Resource::Texture)),
                ..self
            },
            (Phase::Submit, Event::Completed) => SessionState {
                phase: Phase::RequestMap,
                copy_submitted: true,
                ..self
            },
            (Phase::Submit, Event::Failed) => SessionState {
                phase: Phase::Aborted(CaptureError::InvalidLayout),
                ..self
            },
            (Phase::RequestMap, Event::Completed) => SessionState {
                phase: Phase::AwaitMap,
                ..self
            },
            (Phase::RequestMap, Event::Failed) => SessionState {
                phase: Phase::Aborted(CaptureError::MapFailed),
                ..self
            },
            (Phase::AwaitMap, Event::Completed) => SessionState {
                phase: Phase::Read,
                copy_completed: true,
                ..self
            },
            (Phase::AwaitMap, Event::Failed) => SessionState {
                phase: Phase::Aborted(CaptureError::MapFailed),
                ..self
            },
            (Phase::Read, Event::Completed) => SessionState { phase: Phase::Unmap, ..self },
            (Phase::Read, Event::Failed) => SessionState {
                phase: Phase::Unmap,
                failure: Some(CaptureError::EncodeFailed),
                ..self
            },
            (Phase::Unmap, Event::Completed) | (Phase::Unmap, Event::Failed) => SessionState {
                phase: match self.failure {
                    Some(e) => Phase::Aborted(e),
                    None => Phase::Finished,
                },
                failure: None,
                ..self
            },
            _ => self,
        }
    }
}

impl CaptureSession {
    /// Starts a capture of `width` x `height`. Dimensions that cannot be
    /// captured are refused here, before any device resource is asked for.
    pub fn start(width: usize, height: usize) -> (r: Result<CaptureSession, CaptureError>)
        ensures
            dims_valid(width as nat, height as nat, 256) <==> r is Ok,
            r matches Err(e) ==> e == CaptureError::InvalidDimensions,
            r matches Ok(s) ==> {
                &&& s@.wf()
                &&& s@.phase == Phase::CreateBuffer
                &&& s@.dims.width == width
                &&& s@.dims.height == height
                &&& s@.dims.align == 256
                &&& !s@.copy_submitted
                &&& s@.failure is None
            },
    {
        match BufferDimensions::new(width, height) {
            Ok(dims) => Ok(
                CaptureSession {
                    dims,
                    phase: Phase::CreateBuffer,
                    copy_submitted: false,
                    copy_completed: false,
                    failure: None,
                },
            ),
            Err(e) => Err(e),
        }
    }

    /// The action to perform next.
    pub fn next_action(&self) -> (r: Action)
        requires
            self@.wf(),
        ensures
            r == self@.action(),
            r is ReadMapped ==> self@.copy_submitted && self@.copy_completed,
    {
        match self.phase {
            Phase::CreateBuffer => Action::CreateBuffer { size: self.dims.buffer_size() as u64 },
            Phase::CreateTexture => Action::CreateTexture {
                width: self.dims.width as u32,
                height: self.dims.height as u32,
            },
            Phase::Submit => Action::SubmitClearAndCopy {
                width: self.dims.width as u32,
                height: self.dims.height as u32,
                bytes_per_row: self.dims.padded_bytes_per_row as u32,
            },
            Phase::RequestMap => Action::RequestMap { size: self.dims.buffer_size() as u64 },
            Phase::AwaitMap => Action::PollDevice { wait: true },
            Phase::Read => Action::ReadMapped,
            Phase::Unmap => Action::Unmap,
            Phase::Finished => Action::Done,
            Phase::Aborted(e) => Action::Abort(e),
        }
    }

    /// Records how the last action went and moves to the next phase.
    pub fn advance(&mut self, event: Event)
        requires
            old(self)@.wf(),
        ensures
            final(self)@.wf(),
            final(self)@ == old(self)@.after(event),
    {
        let next = match (self.phase, event) {
            (Phase::CreateBuffer, Event::Completed) => Phase::CreateTexture,
            (Phase::CreateBuffer, Event::Failed) => Phase::Aborted(
                CaptureError::AllocationFailed(Resource::Buffer),
            ),
            (Phase::CreateTexture, Event::Completed) => Phase::Submit,
            (Phase::CreateTexture, Event::Failed) => Phase::Aborted(
                CaptureError::AllocationFailed(Resource::Texture),
            ),
            (Phase::Submit, Event::Completed) => {
                self.copy_submitted = true;
                Phase::RequestMap
            },
            (Phase::Submit, Event::Failed) => Phase::Aborted(CaptureError::InvalidLayout),
            (Phase::RequestMap, Event::Completed) => Phase::AwaitMap,
            (Phase::RequestMap, Event::Failed) => Phase::Aborted(CaptureError::MapFailed),
            (Phase::AwaitMap, Event::Completed) => {
                self.copy_completed = true;
                Phase::Read
            },
            (Phase::AwaitMap, Event::Failed) => Phase::Aborted(CaptureError::MapFailed),
            (Phase::Read, Event::Completed) => Phase::Unmap,
            (Phase::Read, Event::Failed) => {
                self.failure = Some(CaptureError::EncodeFailed);
                Phase::Unmap
            },
            (Phase::Unmap, Event::Completed) | (Phase::Unmap, Event::Failed) => {
                let ended = match self.failure {
                    Some(e) => Phase::Aborted(e),
                    None => Phase::Finished,
                };
                self.failure = None;
                ended
            },
            _ => self.phase,
        };
        self.phase = next;
    }

    /// The layout of the capture.
    pub fn dims(&self) -> (r: BufferDimensions)
        ensures
            r == self@.dims,
    {
        self.dims
    }

    /// The current phase.
    pub fn phase(&self) -> (r: Phase)
        ensures
            r == self@.phase,
    {
        self.phase
    }

    /// Whether the clear-and-copy job has been submitted.
    pub fn copy_submitted(&self) -> (r: bool)
        ensures
            r == self@.copy_submitted,
    {
        self.copy_submitted
    }

    /// Whether the device has reported the copy done.
    pub fn copy_completed(&self) -> (r: bool)
        ensures
            r == self@.copy_completed,
    {
        self.copy_completed
    }
}

/// The mapped memory is read only after the device has reported, through the
/// resolution of the mapping, that the submitted copy is done.
pub proof fn lemma_read_after_completion(s: SessionState)
    requires
        s.wf(),
        s.action() is ReadMapped,
    ensures
        s.copy_submitted,
        s.copy_completed,
{
}

/// The copy counts as done only through the device's completion signal: the
/// resolution of a mapping that was requested after the copy was submitted.
pub proof fn lemma_completion_from_mapping(s: SessionState, event: Event)
    requires
        s.wf(),
        !s.copy_completed,
        s.after(event).copy_completed,
    ensures
        s.phase == Phase::AwaitMap,
        s.copy_submitted,
        event == Event::Completed,
{
}

/// The buffer is unmapped only after its mapping resolved and its view was released.
pub proof fn lemma_unmap_after_read(s: SessionState, event: Event)
    requires
        s.wf(),
        s.phase != Phase::Unmap,
        s.after(event).phase == Phase::Unmap,
    ensures
        s.phase == Phase::Read,
        s.copy_completed,
{
}

} // verus!

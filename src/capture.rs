//! The per-frame capture state machine. Every decision of a capture cycle is
//! a step from the current state and one input (an event from the compositor,
//! or the completion of an action) to the next state and one action for the
//! caller to carry out; the caller owns all I/O.

use crate::dmabuf::{spec_wire_request, wire_request, PlaneLayout, WireBufferRequest};
use crate::fourcc::{abgr8888, spec_abgr8888, spec_xrgb8888, xrgb8888};
use crate::registry::{is_first_named, none_named, OutputRecord, OutputRegistry};
use vstd::prelude::*;

verus! {

/// Why capture setup or a capture cycle did not succeed.
#[derive(Clone, Copy, Debug, PartialEq, Eq, Structural)]
pub enum CaptureError {
    /// No compositor could be reached.
    ConnectionError,
    /// The requested output was not announced by the end of discovery.
    OutputNotFound,
    /// The compositor offers no screen-copy manager or no dma-buf factory.
    GlobalMissing,
    /// The compositor refused this cycle; the session stays usable.
    CaptureFailed,
    /// The negotiated format cannot be used.
    UnsupportedFormat,
    /// A GPU extension entry point could not be resolved.
    ExtensionUnavailable,
    /// The platform refused to create or export the GPU image.
    ImportRejected,
}

/// The output a session captures, fixed for the session's lifetime.
#[derive(Clone, Debug)]
pub struct CaptureTarget {
    /// Registry name of the output global.
    pub output: u32,
    pub name: Option<String>,
    pub width: Option<i32>,
    pub height: Option<i32>,
}

/// A dma-buf format offer of the compositor for the current frame.
#[derive(Clone, Copy, Debug, PartialEq, Eq, Structural)]
pub struct FormatOffer {
    pub fourcc: u32,
    pub width: u32,
    pub height: u32,
}

/// The negotiated buffer: advertised format, size and memory layout.
#[derive(Clone, Copy, Debug, PartialEq, Eq, Structural)]
pub struct BufferDescriptor {
    pub fourcc: u32,
    pub width: u32,
    pub height: u32,
    pub layout: PlaneLayout,
}

/// What the session is waiting for.
#[derive(Clone, Copy, Debug, PartialEq, Eq, Structural)]
pub enum Phase {
    /// No cycle in progress.
    Idle,
    /// The capture request was sent; its round trip has not completed.
    Requested,
    /// The GPU image is being allocated and exported (first cycle only).
    Allocating,
    /// The wire buffer is being created (first cycle only).
    Binding,
    /// The copy waits for the compositor to release the previous one.
    AwaitingBuffer,
    /// The copy was requested; the frame is not ready yet.
    Copying,
    /// The frame is ready and its request object is being destroyed.
    Destroying,
    /// The frame is done; the compositor still holds the wire buffer.
    Releasing,
    /// Setup failed; no further capture is possible.
    Fatal(CaptureError),
}

/// One input of the state machine.
#[derive(Clone, Copy, Debug, PartialEq, Eq, Structural)]
pub enum Input {
    /// The caller asks for a new frame.
    Start,
    /// The last action was carried out, with the events of its round trip fed first.
    Done,
    /// The frame's dma-buf format offer.
    Format { fourcc: u32, width: u32, height: u32 },
    /// The compositor could not capture the frame.
    Failed,
    /// The frame's contents are in the wire buffer.
    Ready,
    /// The compositor no longer uses the wire buffer.
    Released,
    /// The GPU image was allocated and exported with this layout.
    Imported(PlaneLayout),
    /// The GPU image could not be made (`ExtensionUnavailable` or `ImportRejected`).
    ImportFailed(CaptureError),
    /// An event this machine does not act on.
    Other,
}

/// One action for the caller.
#[derive(Clone, Copy, Debug, PartialEq, Eq, Structural)]
pub enum Action {
    /// Dispatch the next batch of events and feed them.
    Wait,
    /// Ask for a frame of `output`, then round-trip.
    RequestCapture { output: u32, overlay_cursor: bool },
    /// Allocate a GPU image of this size, export it, and feed the outcome.
    AllocateImage { width: u32, height: u32 },
    /// Create the wire buffer over the exported plane, then round-trip.
    CreateWireBuffer(WireBufferRequest),
    /// Copy the frame into the wire buffer, then flush.
    Copy,
    /// Destroy the frame request, then flush.
    DestroyFrame,
    /// The cycle succeeded: the texture over this buffer holds the frame.
    Deliver(BufferDescriptor),
    /// The cycle ended with this error.
    Fail(CaptureError),
}

/// A capture session over one output, holding at most one negotiated buffer.
#[derive(Debug)]
pub struct CaptureSession {
    pub target: CaptureTarget,
    pub phase: Phase,
    /// The dma-buf offer of the current frame, if one arrived.
    pub offer: Option<FormatOffer>,
    /// Whether the current frame failed.
    pub failed: bool,
    /// Whether a copy was requested and its buffer not released since.
    pub busy: bool,
    /// The buffer, once negotiated; it is kept for the whole session.
    pub buffer: Option<BufferDescriptor>,
}

/// The target for an output record.
pub open spec fn target_of(r: OutputRecord) -> CaptureTarget {
    CaptureTarget { output: r.id, name: r.name, width: r.width, height: r.height }
}

/// No output matches the request: none carries the name, or, without a name,
/// none was announced at all.
pub open spec fn no_target(outputs: Seq<OutputRecord>, output_name: Option<&String>) -> bool {
    match output_name {
        Some(n) => none_named(outputs, n@),
        None => outputs.len() == 0,
    }
}

/// A session that has not captured anything yet.
pub open spec fn initial(target: CaptureTarget) -> CaptureSession {
    CaptureSession {
        target,
        phase: Phase::Idle,
        offer: None,
        failed: false,
        busy: false,
        buffer: None,
    }
}

/// The buffer negotiated from an offer and the exported layout.
pub open spec fn descriptor(offer: FormatOffer, layout: PlaneLayout) -> BufferDescriptor {
    BufferDescriptor {
        fourcc: spec_xrgb8888(),
        width: offer.width,
        height: offer.height,
        layout,
    }
}

/// Copy into the bound buffer unless the frame failed; if the compositor
/// still holds the buffer, wait for its release first.
pub open spec fn proceed_to_copy(s: CaptureSession) -> (CaptureSession, Action) {
    if s.failed {
        (CaptureSession { phase: Phase::Idle, ..s }, Action::Fail(CaptureError::CaptureFailed))
    } else if s.busy {
        (CaptureSession { phase: Phase::AwaitingBuffer, ..s }, Action::Wait)
    } else {
        (CaptureSession { phase: Phase::Copying, busy: true, ..s }, Action::Copy)
    }
}

/// The decision once the capture request's round trip is complete.
pub open spec fn after_request(s: CaptureSession) -> (CaptureSession, Action) {
    if s.failed {
        (CaptureSession { phase: Phase::Idle, ..s }, Action::Fail(CaptureError::CaptureFailed))
    } else if s.buffer is Some {
        proceed_to_copy(s)
    } else {
        match s.offer {
            Some(o) => if o.fourcc == spec_xrgb8888() {
                (
                    CaptureSession { phase: Phase::Allocating, ..s },
                    Action::AllocateImage { width: o.width, height: o.height },
                )
            } else {
                (
                    CaptureSession { phase: Phase::Fatal(CaptureError::UnsupportedFormat), ..s },
                    Action::Fail(CaptureError::UnsupportedFormat),
                )
            },
            None => (
                CaptureSession { phase: Phase::Fatal(CaptureError::UnsupportedFormat), ..s },
                Action::Fail(CaptureError::UnsupportedFormat),
            ),
        }
    }
}

/// One step of the state machine.
pub open spec fn next(s: CaptureSession, input: Input) -> (CaptureSession, Action) {
    match input {
        Input::Start => match s.phase {
            Phase::Idle => (
                CaptureSession { phase: Phase::Requested, offer: None, failed: false, ..s },
                Action::RequestCapture { output: s.target.output, overlay_cursor: true },
            ),
            Phase::Fatal(e) => (s, Action::Fail(e)),
            _ => (s, Action::Wait),
        },
        Input::Done => match s.phase {
            Phase::Requested => after_request(s),
            Phase::Binding => proceed_to_copy(s),
            Phase::Destroying => if s.busy {
                (CaptureSession { phase: Phase::Releasing, ..s }, Action::Wait)
            } else {
                (CaptureSession { phase: Phase::Idle, ..s }, Action::Deliver(s.buffer->0))
            },
            _ => (s, Action::Wait),
        },
        Input::Format { fourcc, width, height } => if s.phase == Phase::Requested {
            (
                CaptureSession { offer: Some(FormatOffer { fourcc, width, height }), ..s },
                Action::Wait,
            )
        } else {
            (s, Action::Wait)
        },
        Input::Failed => match s.phase {
            Phase::Requested | Phase::Allocating | Phase::Binding => (
                CaptureSession { failed: true, ..s },
                Action::Wait,
            ),
            Phase::AwaitingBuffer | Phase::Copying => (
                CaptureSession { phase: Phase::Idle, failed: true, ..s },
                Action::Fail(CaptureError::CaptureFailed),
            ),
            _ => (s, Action::Wait),
        },
        Input::Ready => if s.phase == Phase::Copying {
            (CaptureSession { phase: Phase::Destroying, ..s }, Action::DestroyFrame)
        } else {
            (s, Action::Wait)
        },
        Input::Released => match s.phase {
            Phase::AwaitingBuffer => (
                CaptureSession { phase: Phase::Copying, busy: true, ..s },
                Action::Copy,
            ),
            Phase::Releasing => (
                CaptureSession { phase: Phase::Idle, busy: false, ..s },
                Action::Deliver(s.buffer->0),
            ),
            _ => (CaptureSession { busy: false, ..s }, Action::Wait),
        },
        Input::Imported(layout) => if s.phase == Phase::Allocating {
            if layout.fourcc == spec_abgr8888() {
                let d = descriptor(s.offer->0, layout);
                (
                    CaptureSession { phase: Phase::Binding, buffer: Some(d), ..s },
                    Action::CreateWireBuffer(spec_wire_request(layout, d.width, d.height)),
                )
            } else {
                (
                    CaptureSession { phase: Phase::Fatal(CaptureError::UnsupportedFormat), ..s },
                    Action::Fail(CaptureError::UnsupportedFormat),
                )
            }
        } else {
            (s, Action::Wait)
        },
        Input::ImportFailed(e) => if s.phase == Phase::Allocating {
            (CaptureSession { phase: Phase::Fatal(e), ..s }, Action::Fail(e))
        } else {
            (s, Action::Wait)
        },
        Input::Other => (s, Action::Wait),
    }
}

impl CaptureSession {
    /// The phases agree with what is known of the offer and the buffer.
    pub open spec fn wf(&self) -> bool {
        &&& self.phase == Phase::Allocating ==> self.buffer is None && self.offer is Some
        &&& (self.phase == Phase::Binding || self.phase == Phase::AwaitingBuffer || self.phase
            == Phase::Copying || self.phase == Phase::Destroying || self.phase == Phase::Releasing)
            ==> self.buffer is Some
    }

    /// Starts a session on the output chosen from the discovered globals: the
    /// earliest bound output named `output_name`, or the earliest bound output
    /// when no name is given. A name that no output carries, or no output at
    /// all, is `OutputNotFound`; a missing screen-copy manager or dma-buf
    /// factory is `GlobalMissing`.
    pub fn new(registry: &OutputRegistry, output_name: Option<&String>) -> (r: Result<
        CaptureSession,
        CaptureError,
    >)
        ensures
            r == Err::<CaptureSession, CaptureError>(CaptureError::OutputNotFound) <==> no_target(
                registry.outputs@,
                output_name,
            ),
            r == Err::<CaptureSession, CaptureError>(CaptureError::GlobalMissing) <==> !no_target(
                registry.outputs@,
                output_name,
            ) && (registry.manager is None || registry.dmabuf_factory is None),
            r matches Err(e) ==> e == CaptureError::OutputNotFound || e
                == CaptureError::GlobalMissing,
            r matches Ok(s) ==> s.wf() && match output_name {
                Some(n) => exists|i: int|
                    is_first_named(registry.outputs@, n@, i) && s == initial(
                        target_of(#[trigger] registry.outputs@[i]),
                    ),
                None => s == initial(target_of(registry.outputs@[0])),
            },
    {
        let index = match output_name {
            Some(n) => match registry.find_named(n) {
                Some(i) => i,
                None => {
                    return Err(CaptureError::OutputNotFound);
                },
            },
            None => {
                if registry.outputs.len() == 0 {
                    return Err(CaptureError::OutputNotFound);
                }
                0
            },
        };
        if registry.manager.is_none() || registry.dmabuf_factory.is_none() {
            return Err(CaptureError::GlobalMissing);
        }
        let record = &registry.outputs[index];
        let name = match &record.name {
            Some(n) => Some(n.clone()),
            None => None,
        };
        let target = CaptureTarget {
            output: record.id,
            name,
            width: record.width,
            height: record.height,
        };
        Ok(
            CaptureSession {
                target,
                phase: Phase::Idle,
                offer: None,
                failed: false,
                busy: false,
                buffer: None,
            },
        )
    }

    /// Size of the captured output, from its current mode, if one arrived.
    pub fn resolution(&self) -> (r: Option<(u32, u32)>)
        ensures
            r == (match (self.target.width, self.target.height) {
                (Some(w), Some(h)) => Some((w as u32, h as u32)),
                _ => None,
            }),
    {
        match (self.target.width, self.target.height) {
            (Some(w), Some(h)) => Some(
                (#[verifier::truncate] (w as u32), #[verifier::truncate] (h as u32)),
            ),
            _ => None,
        }
    }

    fn proceed_to_copy(&mut self) -> (r: Action)
        ensures
            (*final(self), r) == proceed_to_copy(*old(self)),
    {
        if self.failed {
            self.phase = Phase::Idle;
            Action::Fail(CaptureError::CaptureFailed)
        } else if self.busy {
            self.phase = Phase::AwaitingBuffer;
            Action::Wait
        } else {
            self.phase = Phase::Copying;
            self.busy = true;
            Action::Copy
        }
    }

    fn after_request(&mut self) -> (r: Action)
        ensures
            (*final(self), r) == after_request(*old(self)),
    {
        if self.failed {
            self.phase = Phase::Idle;
            return Action::Fail(CaptureError::CaptureFailed);
        }
        if self.buffer.is_some() {
            return self.proceed_to_copy();
        }
        match self.offer {
            Some(o) => {
                if o.fourcc == xrgb8888() {
                    self.phase = Phase::Allocating;
                    Action::AllocateImage { width: o.width, height: o.height }
                } else {
                    self.phase = Phase::Fatal(CaptureError::UnsupportedFormat);
                    Action::Fail(CaptureError::UnsupportedFormat)
                }
            },
            None => {
                self.phase = Phase::Fatal(CaptureError::UnsupportedFormat);
                Action::Fail(CaptureError::UnsupportedFormat)
            },
        }
    }

    /// Feeds one input to the session and returns the action it calls for.
    pub fn step(&mut self, input: Input) -> (r: Action)
        requires
            old(self).wf(),
        ensures
            final(self).wf(),
            (*final(self), r) == next(*old(self), input),
    {
        match input {
            Input::Start => match self.phase {
                Phase::Idle => {
                    self.phase = Phase::Requested;
                    self.offer = None;
                    self.failed = false;
                    Action::RequestCapture { output: self.target.output, overlay_cursor: true }
                },
                Phase::Fatal(e) => Action::Fail(e),
                _ => Action::Wait,
            },
            Input::Done => match self.phase {
                Phase::Requested => self.after_request(),
                Phase::Binding => self.proceed_to_copy(),
                Phase::Destroying => {
                    if self.busy {
                        self.phase = Phase::Releasing;
                        Action::Wait
                    } else {
                        self.phase = Phase::Idle;
                        Action::Deliver(self.buffer.unwrap())
                    }
                },
                _ => Action::Wait,
            },
            Input::Format { fourcc, width, height } => {
                if self.phase == Phase::Requested {
                    self.offer = Some(FormatOffer { fourcc, width, height });
                }
                Action::Wait
            },
            Input::Failed => match self.phase {
                Phase::Requested | Phase::Allocating | Phase::Binding => {
                    self.failed = true;
                    Action::Wait
                },
                Phase::AwaitingBuffer | Phase::Copying => {
                    self.phase = Phase::Idle;
                    self.failed = true;
                    Action::Fail(CaptureError::CaptureFailed)
                },
                _ => Action::Wait,
            },
            Input::Ready => {
                if self.phase == Phase::Copying {
                    self.phase = Phase::Destroying;
                    Action::DestroyFrame
                } else {
                    Action::Wait
                }
            },
            Input::Released => match self.phase {
                Phase::AwaitingBuffer => {
                    self.phase = Phase::Copying;
                    self.busy = true;
                    Action::Copy
                },
                Phase::Releasing => {
                    self.phase = Phase::Idle;
                    self.busy = false;
                    Action::Deliver(self.buffer.unwrap())
                },
                _ => {
                    self.busy = false;
                    Action::Wait
                },
            },
            Input::Imported(layout) => {
                if self.phase == Phase::Allocating {
                    if layout.fourcc == abgr8888() {
                        let offer = self.offer.unwrap();
                        let d = BufferDescriptor {
                            fourcc: xrgb8888(),
                            width: offer.width,
                            height: offer.height,
                            layout,
                        };
                        self.phase = Phase::Binding;
                        self.buffer = Some(d);
                        Action::CreateWireBuffer(wire_request(layout, d.width, d.height))
                    } else {
                        self.phase = Phase::Fatal(CaptureError::UnsupportedFormat);
                        Action::Fail(CaptureError::UnsupportedFormat)
                    }
                } else {
                    Action::Wait
                }
            },
            Input::ImportFailed(e) => {
                if self.phase == Phase::Allocating {
                    self.phase = Phase::Fatal(e);
                    Action::Fail(e)
                } else {
                    Action::Wait
                }
            },
            Input::Other => Action::Wait,
        }
    }
}

/// The state and the actions after feeding `inputs` one by one.
pub open spec fn run(s: CaptureSession, inputs: Seq<Input>) -> (CaptureSession, Seq<Action>)
    decreases inputs.len(),
{
    if inputs.len() == 0 {
        (s, Seq::<Action>::empty())
    } else {
        let prev = run(s, inputs.drop_last());
        let last = next(prev.0, inputs.last());
        (last.0, prev.1.push(last.1))
    }
}

/// Every step keeps a session well formed.
pub proof fn lemma_next_wf(s: CaptureSession, input: Input)
    requires
        s.wf(),
    ensures
        next(s, input).0.wf(),
{
}

/// What holds after any inputs fed to a fresh session.
spec fn history_inv(s: CaptureSession, inputs: Seq<Input>, acts: Seq<Action>) -> bool {
    &&& s.wf()
    &&& acts.len() == inputs.len()
    &&& forall|i: int|
        0 <= i < acts.len() && #[trigger] acts[i] is AllocateImage ==> s.buffer is Some || s.phase
            == Phase::Allocating || s.phase is Fatal
    &&& forall|i: int, j: int|
        0 <= i < j < acts.len() && #[trigger] acts[i] is AllocateImage ==> !(
        #[trigger] acts[j] is AllocateImage)
    &&& forall|i: int| 0 <= i < acts.len() && #[trigger] acts[i] is CreateWireBuffer ==> s.buffer is Some
    &&& forall|i: int, j: int|
        0 <= i < j < acts.len() && #[trigger] acts[i] is CreateWireBuffer ==> !(
        #[trigger] acts[j] is CreateWireBuffer)
    &&& forall|i: int|
        0 <= i < acts.len() && #[trigger] acts[i] is Deliver ==> s.buffer == Some(
            acts[i]->Deliver_0,
        )
    &&& s.buffer is Some ==> exists|k: int| 0 <= k < acts.len() && #[trigger] acts[k] is CreateWireBuffer
    &&& forall|i: int|
        0 <= i < acts.len() && #[trigger] acts[i] is Deliver ==> exists|k: int|
            0 <= k < i && #[trigger] acts[k] is CreateWireBuffer
    &&& forall|i: int|
        0 <= i < acts.len() && #[trigger] acts[i] is Copy ==> exists|k: int|
            0 <= k < i && #[trigger] acts[k] is CreateWireBuffer
    &&& forall|i: int|
        0 <= i < acts.len() && #[trigger] acts[i] is Copy && (forall|k: int|
            i < k < inputs.len() ==> !(#[trigger] inputs[k] is Released)) ==> s.busy
    &&& forall|i: int, j: int|
        0 <= i < j < acts.len() && #[trigger] acts[i] is Copy && #[trigger] acts[j] is Copy
            ==> exists|k: int| i < k <= j && #[trigger] inputs[k] is Released
}

proof fn lemma_history(target: CaptureTarget, inputs: Seq<Input>)
    ensures
        history_inv(run(initial(target), inputs).0, inputs, run(initial(target), inputs).1),
    decreases inputs.len(),
{
    if inputs.len() > 0 {
        let prev_inputs = inputs.drop_last();
        lemma_history(target, prev_inputs);
        let (p, acts) = run(initial(target), prev_inputs);
        let input = inputs.last();
        let (q, a) = next(p, input);
        let n = acts.len() as int;
        let all = acts.push(a);
        lemma_next_wf(p, input);
        assert(run(initial(target), inputs) == (q, all));
        assert forall|i: int| 0 <= i < n implies all[i] == acts[i] && inputs[i] == prev_inputs[i] by {}
        assert(all[n] == a && inputs[n] == input);
        if q.buffer is Some {
            if p.buffer is Some {
                let k = choose|k: int| 0 <= k < acts.len() && #[trigger] acts[k] is CreateWireBuffer;
                assert(all[k] is CreateWireBuffer);
            } else {
                assert(all[n] is CreateWireBuffer);
            }
        }
        if a is Copy {
            assert(p.buffer is Some);
            let k = choose|k: int| 0 <= k < acts.len() && #[trigger] acts[k] is CreateWireBuffer;
            assert(all[k] is CreateWireBuffer);
            assert forall|i: int| 0 <= i < n && #[trigger] all[i] is Copy implies exists|k: int|
                i < k <= n && #[trigger] inputs[k] is Released by {
                if !(input is Released) {
                    assert(!p.busy);
                    assert(all[i] == acts[i]);
                    assert(!(forall|k: int| i < k < prev_inputs.len() ==> !(#[trigger] prev_inputs[k] is Released)));
                    let k = choose|k: int| i < k < prev_inputs.len() && #[trigger] prev_inputs[k] is Released;
                    assert(inputs[k] is Released);
                } else {
                    assert(inputs[n] is Released);
                }
            }
        }
        assert forall|i: int|
            0 <= i < all.len() && #[trigger] all[i] is Copy && (forall|k: int|
                i < k < inputs.len() ==> !(#[trigger] inputs[k] is Released)) implies q.busy by {
            if i < n {
                assert(acts[i] is Copy);
                assert forall|k: int| i < k < prev_inputs.len() implies !(#[trigger] prev_inputs[k] is Released) by {
                    assert(inputs[k] == prev_inputs[k]);
                }
                assert(!(input is Released));
            }
        }
        assert forall|i: int, j: int|
            0 <= i < j < all.len() && #[trigger] all[i] is Copy && #[trigger] all[j] is Copy
                implies exists|k: int| i < k <= j && #[trigger] inputs[k] is Released by {
            if j < n {
                assert(acts[i] is Copy && acts[j] is Copy);
                let k = choose|k: int| i < k <= j && #[trigger] prev_inputs[k] is Released;
                assert(inputs[k] is Released);
            }
        }
        assert forall|i: int|
            0 <= i < all.len() && #[trigger] all[i] is Copy implies exists|k: int|
                0 <= k < i && #[trigger] all[k] is CreateWireBuffer by {
            if i < n {
                assert(acts[i] is Copy);
                let k = choose|k: int| 0 <= k < i && #[trigger] acts[k] is CreateWireBuffer;
                assert(all[k] is CreateWireBuffer);
            }
        }
        if a is Deliver {
            assert(p.buffer is Some);
            let k = choose|k: int| 0 <= k < acts.len() && #[trigger] acts[k] is CreateWireBuffer;
            assert(all[k] is CreateWireBuffer);
        }
        assert forall|i: int|
            0 <= i < all.len() && #[trigger] all[i] is Deliver implies exists|k: int|
                0 <= k < i && #[trigger] all[k] is CreateWireBuffer by {
            if i < n {
                assert(acts[i] is Deliver);
                let k = choose|k: int| 0 <= k < i && #[trigger] acts[k] is CreateWireBuffer;
                assert(all[k] is CreateWireBuffer);
            }
        }
    }
}

/// Over any inputs fed to a fresh session, at most one GPU image is allocated
/// and at most one wire buffer is created; every delivered frame comes after
/// that wire buffer was created, and in that one buffer, which the session
/// still holds.
pub proof fn lemma_single_buffer(target: CaptureTarget, inputs: Seq<Input>)
    ensures
        ({
            let (s, acts) = run(initial(target), inputs);
            &&& acts.len() == inputs.len()
            &&& forall|i: int, j: int|
                0 <= i < j < acts.len() && #[trigger] acts[i] is AllocateImage ==> !(
                #[trigger] acts[j] is AllocateImage)
            &&& forall|i: int, j: int|
                0 <= i < j < acts.len() && #[trigger] acts[i] is CreateWireBuffer ==> !(
                #[trigger] acts[j] is CreateWireBuffer)
            &&& forall|i: int|
                0 <= i < acts.len() && #[trigger] acts[i] is Deliver ==> s.buffer == Some(
                    acts[i]->Deliver_0,
                )
            &&& forall|i: int|
                0 <= i < acts.len() && #[trigger] acts[i] is Deliver ==> exists|k: int|
                    0 <= k < i && #[trigger] acts[k] is CreateWireBuffer
        }),
{
    lemma_history(target, inputs);
}

/// Over any inputs fed to a fresh session, every copy comes after the wire
/// buffer was created, and between two copies the compositor released the
/// buffer: at most one copy is outstanding at a time.
pub proof fn lemma_copy_discipline(target: CaptureTarget, inputs: Seq<Input>)
    ensures
        ({
            let (s, acts) = run(initial(target), inputs);
            &&& acts.len() == inputs.len()
            &&& forall|i: int|
                0 <= i < acts.len() && #[trigger] acts[i] is Copy ==> exists|k: int|
                    0 <= k < i && #[trigger] acts[k] is CreateWireBuffer
            &&& forall|i: int, j: int|
                0 <= i < j < acts.len() && #[trigger] acts[i] is Copy && #[trigger] acts[j] is Copy
                    ==> exists|k: int| i < k <= j && #[trigger] inputs[k] is Released
        }),
{
    lemma_history(target, inputs);
}

/// While a capture request's round trip is pending, no input but its
/// completion moves the session on.
proof fn lemma_pending_request(s: CaptureSession, pending: Seq<Input>)
    requires
        s.wf(),
        s.phase == Phase::Requested,
        forall|i: int| 0 <= i < pending.len() ==> pending[i] != Input::Done,
    ensures
        ({
            let (q, acts) = run(s, pending);
            &&& q.wf()
            &&& q.phase == Phase::Requested
            &&& q.buffer == s.buffer
            &&& q.target == s.target
            &&& (pending.contains(Input::Failed) || s.failed ==> q.failed)
            &&& acts.len() == pending.len()
            &&& forall|i: int| 0 <= i < acts.len() ==> acts[i] == Action::Wait
        }),
    decreases pending.len(),
{
    if pending.len() > 0 {
        let prev = pending.drop_last();
        assert forall|i: int| 0 <= i < prev.len() implies prev[i] != Input::Done by {
            assert(prev[i] == pending[i]);
        }
        lemma_pending_request(s, prev);
        let p = run(s, prev).0;
        lemma_next_wf(p, pending.last());
        if pending.contains(Input::Failed) && !s.failed && pending.last() != Input::Failed {
            let k = choose|k: int| 0 <= k < pending.len() && pending[k] == Input::Failed;
            assert(prev[k] == Input::Failed);
            assert(prev.contains(Input::Failed));
        }
    }
}

/// If the frame fails before the capture request's round trip completes, the
/// cycle ends in `CaptureFailed` with no image allocated, no buffer created
/// and no copy requested; the negotiated buffer is kept and the next capture
/// starts at once.
pub proof fn lemma_failed_cycle(s: CaptureSession, pending: Seq<Input>)
    requires
        s.wf(),
        s.phase == Phase::Requested,
        pending.contains(Input::Failed),
        forall|i: int| 0 <= i < pending.len() ==> pending[i] != Input::Done,
    ensures
        ({
            let (q, acts) = run(s, pending.push(Input::Done));
            &&& acts.len() == pending.len() + 1
            &&& acts.last() == Action::Fail(CaptureError::CaptureFailed)
            &&& forall|i: int| 0 <= i < pending.len() ==> acts[i] == Action::Wait
            &&& q.wf()
            &&& q.phase == Phase::Idle
            &&& q.buffer == s.buffer
            &&& next(q, Input::Start).1 == Action::RequestCapture {
                output: s.target.output,
                overlay_cursor: true,
            }
        }),
{
    let all = pending.push(Input::Done);
    assert(all.drop_last() =~= pending);
    lemma_pending_request(s, pending);
    let p = run(s, pending).0;
    lemma_next_wf(p, Input::Done);
    let acts = run(s, pending).1;
    assert forall|i: int| 0 <= i < pending.len() implies run(s, all).1[i] == Action::Wait by {
        assert(run(s, all).1[i] == acts[i]);
    }
}

} // verus!

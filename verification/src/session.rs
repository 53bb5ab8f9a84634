//! The capture session: the negotiation state machine, its error
//! taxonomy, and the event-drain discipline that feeds it.

use vstd::prelude::*;

use crate::descriptor::BufferDescriptor;
use crate::pixel::PixelFormat;
use crate::registry::{BindDirective, RegistryState};

verus! {

/// The session's place in the capture protocol.
#[derive(Clone, Copy, Debug, PartialEq, Eq, Structural)]
pub enum Phase {
    Idle,
    RequestSent,
    FormatNegotiated,
    BufferAttached,
    Presenting,
    Failed,
}

/// Why a session operation was refused. The first four are the fatal
/// error kinds of the protocol client; `OutOfOrder` is the local
/// rejection of a transition attempted before its prerequisite state,
/// which leaves the session unchanged.
#[derive(Clone, Copy, Debug, PartialEq, Eq, Structural)]
pub enum SessionError {
    /// A required capability was never bound by the registry exchange.
    NotReady,
    /// No shared-memory-compatible format was offered for the capture.
    Negotiation,
    /// An I/O failure on the display-server connection; fatal, no retry.
    Transport,
    /// The backing memory does not match the negotiated byte size.
    Resource,
    /// An attach or commit attempted before its prerequisite transition.
    OutOfOrder,
}

/// The capture request the transport must issue: target the bound
/// output, with the cursor-overlay flag fixed off.
#[derive(Clone, Copy, Debug, PartialEq, Eq, Structural)]
pub struct CaptureRequest {
    pub output: u32,
    pub overlay_cursor: bool,
}

/// An event delivered on the capture frame object. Only the
/// shared-memory buffer-format variant carries data this client
/// consumes; every other frame event is `Other` and ignored.
#[derive(Clone, Copy, Debug, PartialEq, Eq, Structural)]
pub enum FrameEvent {
    Buffer { format: PixelFormat, width: u32, height: u32, stride: u32 },
    Other,
}

/// One event drained from the transport queue, as a plain value.
#[derive(Clone, Debug, PartialEq, Eq)]
pub enum QueueEvent {
    Global { name: u32, interface: String, version: u32 },
    Frame(FrameEvent),
    Ignored,
}

/// The mathematical view of a queue event: the interface name becomes a
/// character sequence.
pub enum EventView {
    Global { name: u32, interface: Seq<char>, version: u32 },
    Frame(FrameEvent),
    Ignored,
}

impl View for QueueEvent {
    type V = EventView;

    open spec fn view(&self) -> EventView {
        match self {
            QueueEvent::Global { name, interface, version } => EventView::Global {
                name: *name,
                interface: interface@,
                version: *version,
            },
            QueueEvent::Frame(fe) => EventView::Frame(*fe),
            QueueEvent::Ignored => EventView::Ignored,
        }
    }
}

pub open spec fn views_of(evs: Seq<QueueEvent>) -> Seq<EventView> {
    evs.map_values(|e: QueueEvent| e@)
}

/// All session state: the resolved registry, the protocol phase, and the
/// negotiated descriptor once one exists.
#[derive(Clone, Copy, Debug, PartialEq, Eq)]
pub struct Session {
    pub registry: RegistryState,
    pub phase: Phase,
    pub descriptor: Option<BufferDescriptor>,
}

impl Session {
    pub open spec fn init_spec() -> Session {
        Session { registry: RegistryState::init_spec(), phase: Phase::Idle, descriptor: None }
    }

    /// Well-formedness: a negotiated descriptor is always valid, every
    /// phase past negotiation holds one, and every phase past `Idle`
    /// (other than `Failed`) was entered with a ready registry.
    pub open spec fn wf(self) -> bool {
        &&& (self.descriptor matches Some(d) ==> d.valid_spec())
        &&& ((self.phase == Phase::FormatNegotiated || self.phase == Phase::BufferAttached
            || self.phase == Phase::Presenting) ==> self.descriptor is Some)
        &&& ((self.phase == Phase::RequestSent || self.phase == Phase::FormatNegotiated
            || self.phase == Phase::BufferAttached || self.phase == Phase::Presenting)
            ==> self.registry.ready_spec())
    }

    pub fn new() -> (s: Session)
        ensures
            s == Session::init_spec(),
            s.wf(),
    {
        Session { registry: RegistryState::new(), phase: Phase::Idle, descriptor: None }
    }

    pub fn is_ready(&self) -> (r: bool)
        ensures
            r == self.registry.ready_spec(),
    {
        self.registry.is_ready()
    }

    /// Consume one "global announced" event (see
    /// `RegistryState::handle_global`); the phase and any negotiated
    /// descriptor are untouched.
    pub fn handle_global(&mut self, name: u32, interface: &str, version: u32) -> (r: Option<
        BindDirective,
    >)
        requires
            old(self).wf(),
        ensures
            final(self).wf(),
            final(self).registry == old(self).registry.record_spec(name, interface@),
            final(self).phase == old(self).phase,
            final(self).descriptor == old(self).descriptor,
            r == old(self).registry.directive_spec(name, interface@, version),
    {
        proof {
            old(self).registry.lemma_record_monotone(name, interface@);
        }
        self.registry.handle_global(name, interface, version)
    }

    /// Issue the capture request. With a ready registry the session
    /// enters `RequestSent` and the returned request targets the bound
    /// output with the cursor overlay off; otherwise the session fails
    /// with `NotReady` and no capture is attempted.
    pub fn start_capture(&mut self) -> (r: Result<CaptureRequest, SessionError>)
        requires
            old(self).wf(),
            old(self).phase == Phase::Idle,
        ensures
            final(self).wf(),
            final(self).registry == old(self).registry,
            final(self).descriptor == old(self).descriptor,
            old(self).registry.ready_spec() ==> {
                &&& final(self).phase == Phase::RequestSent
                &&& r == Ok::<CaptureRequest, SessionError>(
                    CaptureRequest {
                        output: old(self).registry.output.unwrap(),
                        overlay_cursor: false,
                    },
                )
            },
            !old(self).registry.ready_spec() ==> {
                &&& final(self).phase == Phase::Failed
                &&& r == Err::<CaptureRequest, SessionError>(SessionError::NotReady)
            },
    {
        if self.registry.is_ready() {
            let output = self.registry.output.unwrap();
            self.phase = Phase::RequestSent;
            Ok(CaptureRequest { output, overlay_cursor: false })
        } else {
            self.phase = Phase::Failed;
            Err(SessionError::NotReady)
        }
    }

    /// The session after one frame event: a shared-memory buffer-format
    /// offer received in `RequestSent`, with a format this client
    /// supports and a geometry it can back, negotiates the descriptor;
    /// everything else is ignored by design.
    pub open spec fn frame_step_spec(self, ev: FrameEvent) -> Session {
        match ev {
            FrameEvent::Buffer { format, width, height, stride } => {
                let d = BufferDescriptor { format, width, height, stride };
                if self.phase == Phase::RequestSent && d.valid_spec() {
                    Session { phase: Phase::FormatNegotiated, descriptor: Some(d), ..self }
                } else {
                    self
                }
            },
            FrameEvent::Other => self,
        }
    }

    /// Consume one event delivered on the capture frame object.
    pub fn handle_frame_event(&mut self, ev: FrameEvent)
        requires
            old(self).wf(),
        ensures
            final(self).wf(),
            *final(self) == old(self).frame_step_spec(ev),
    {
        match ev {
            FrameEvent::Buffer { format, width, height, stride } => {
                let d = BufferDescriptor::new(format, width, height, stride);
                if matches!(self.phase, Phase::RequestSent) && d.valid() {
                    self.descriptor = Some(d);
                    self.phase = Phase::FormatNegotiated;
                }
            },
            FrameEvent::Other => {},
        }
    }

    /// The checkpoint after the negotiation round-trip: in
    /// `FormatNegotiated` the negotiated descriptor is returned and the
    /// session is untouched; still in `RequestSent` — no usable format
    /// was offered — the session fails with `Negotiation`.
    pub fn finish_negotiation(&mut self) -> (r: Result<BufferDescriptor, SessionError>)
        requires
            old(self).wf(),
            old(self).phase == Phase::RequestSent || old(self).phase == Phase::FormatNegotiated,
        ensures
            final(self).wf(),
            final(self).registry == old(self).registry,
            final(self).descriptor == old(self).descriptor,
            old(self).phase == Phase::FormatNegotiated ==> *final(self) == *old(self) && r == Ok::<
                BufferDescriptor,
                SessionError,
            >(old(self).descriptor.unwrap()),
            old(self).phase == Phase::RequestSent ==> final(self).phase == Phase::Failed && r
                == Err::<BufferDescriptor, SessionError>(SessionError::Negotiation),
    {
        if matches!(self.phase, Phase::FormatNegotiated) {
            let d = self.descriptor.unwrap();
            Ok(d)
        } else {
            self.phase = Phase::Failed;
            Err(SessionError::Negotiation)
        }
    }

    /// Attach the backing memory to the session. Succeeds exactly when
    /// the format has been negotiated and `region_len` equals the
    /// descriptor's byte size. An attempt before `FormatNegotiated` is
    /// rejected with `OutOfOrder` and changes nothing; a size mismatch
    /// in `FormatNegotiated` is a fatal `Resource` failure.
    pub fn attach(&mut self, region_len: usize) -> (r: Result<(), SessionError>)
        requires
            old(self).wf(),
        ensures
            final(self).wf(),
            final(self).registry == old(self).registry,
            final(self).descriptor == old(self).descriptor,
            r is Ok <==> old(self).phase == Phase::FormatNegotiated && region_len == old(
                self,
            ).descriptor.unwrap().byte_size_spec(),
            r is Ok ==> final(self).phase == Phase::BufferAttached,
            old(self).phase != Phase::FormatNegotiated ==> *final(self) == *old(self) && r
                == Err::<(), SessionError>(SessionError::OutOfOrder),
            old(self).phase == Phase::FormatNegotiated && region_len != old(
                self,
            ).descriptor.unwrap().byte_size_spec() ==> final(self).phase == Phase::Failed && r
                == Err::<(), SessionError>(SessionError::Resource),
    {
        if !matches!(self.phase, Phase::FormatNegotiated) {
            return Err(SessionError::OutOfOrder);
        }
        let d = self.descriptor.unwrap();
        let sz: u64 = d.byte_size();
        if region_len as u64 == sz {
            self.phase = Phase::BufferAttached;
            Ok(())
        } else {
            self.phase = Phase::Failed;
            Err(SessionError::Resource)
        }
    }

    /// Commit the surface. The first commit is allowed only after the
    /// first attach (`BufferAttached` → `Presenting`); later commits
    /// re-commit from `Presenting`. Any earlier attempt is rejected with
    /// `OutOfOrder` and changes nothing.
    pub fn commit(&mut self) -> (r: Result<(), SessionError>)
        requires
            old(self).wf(),
        ensures
            final(self).wf(),
            final(self).registry == old(self).registry,
            final(self).descriptor == old(self).descriptor,
            (old(self).phase == Phase::BufferAttached || old(self).phase == Phase::Presenting)
                ==> final(self).phase == Phase::Presenting && r == Ok::<(), SessionError>(()),
            !(old(self).phase == Phase::BufferAttached || old(self).phase == Phase::Presenting)
                ==> *final(self) == *old(self) && r == Err::<(), SessionError>(
                SessionError::OutOfOrder,
            ),
    {
        if matches!(self.phase, Phase::BufferAttached) || matches!(self.phase, Phase::Presenting) {
            self.phase = Phase::Presenting;
            Ok(())
        } else {
            Err(SessionError::OutOfOrder)
        }
    }

    /// Record the outcome of one transport operation: a failure is fatal
    /// and moves the session to `Failed` from any phase; a success
    /// changes nothing.
    pub fn observe_transport(&mut self, ok: bool) -> (r: Result<(), SessionError>)
        requires
            old(self).wf(),
        ensures
            final(self).wf(),
            final(self).registry == old(self).registry,
            final(self).descriptor == old(self).descriptor,
            ok ==> *final(self) == *old(self) && r == Ok::<(), SessionError>(()),
            !ok ==> final(self).phase == Phase::Failed && r == Err::<(), SessionError>(
                SessionError::Transport,
            ),
    {
        if ok {
            Ok(())
        } else {
            self.phase = Phase::Failed;
            Err(SessionError::Transport)
        }
    }

    /// The session after one drained event.
    pub open spec fn step_spec(self, ev: EventView) -> Session {
        match ev {
            EventView::Global { name, interface, version: _ } => Session {
                registry: self.registry.record_spec(name, interface),
                ..self
            },
            EventView::Frame(fe) => self.frame_step_spec(fe),
            EventView::Ignored => self,
        }
    }

    /// The bind directive one drained event produces, if any.
    pub open spec fn step_directive_spec(self, ev: EventView) -> Option<BindDirective> {
        match ev {
            EventView::Global { name, interface, version } => self.registry.directive_spec(
                name,
                interface,
                version,
            ),
            EventView::Frame(_) => None,
            EventView::Ignored => None,
        }
    }

    /// The session after draining a whole queue, left to right.
    pub open spec fn drain_spec(self, evs: Seq<EventView>) -> Session
        decreases evs.len(),
    {
        if evs.len() == 0 {
            self
        } else {
            self.drain_spec(evs.drop_last()).step_spec(evs.last())
        }
    }

    /// The bind directives a whole drained queue produces, in order.
    pub open spec fn drain_directives_spec(self, evs: Seq<EventView>) -> Seq<BindDirective>
        decreases evs.len(),
    {
        if evs.len() == 0 {
            Seq::empty()
        } else {
            let prefix = self.drain_directives_spec(evs.drop_last());
            match self.drain_spec(evs.drop_last()).step_directive_spec(evs.last()) {
                Some(d) => prefix.push(d),
                None => prefix,
            }
        }
    }

    /// A non-blocking drain: consume every already-queued event, in
    /// order, and hand back the bind directives the transport must carry
    /// out. A drain with no pending events changes nothing, however
    /// often it is repeated.
    pub fn drain_events(&mut self, events: &Vec<QueueEvent>) -> (binds: Vec<BindDirective>)
        requires
            old(self).wf(),
        ensures
            final(self).wf(),
            *final(self) == old(self).drain_spec(views_of(events@)),
            binds@ == old(self).drain_directives_spec(views_of(events@)),
            events@.len() == 0 ==> *final(self) == *old(self) && binds@.len() == 0,
    {
        let ghost evs = views_of(events@);
        let mut binds: Vec<BindDirective> = Vec::new();
        let mut i: usize = 0;
        while i < events.len()
            invariant
                i <= events.len(),
                evs == views_of(events@),
                evs.len() == events@.len(),
                self.wf(),
                *self == old(self).drain_spec(evs.take(i as int)),
                binds@ == old(self).drain_directives_spec(evs.take(i as int)),
            decreases events.len() - i,
        {
            proof {
                assert(evs.take(i + 1).drop_last() =~= evs.take(i as int));
                assert(evs.take(i + 1).last() == evs[i as int]);
                assert(evs[i as int] == events@[i as int]@);
            }
            match &events[i] {
                QueueEvent::Global { name, interface, version } => {
                    let r = self.handle_global(*name, interface.as_str(), *version);
                    if let Some(d) = r {
                        binds.push(d);
                    }
                },
                QueueEvent::Frame(fe) => {
                    self.handle_frame_event(*fe);
                },
                QueueEvent::Ignored => {},
            }
            i += 1;
        }
        proof {
            assert(evs.take(events@.len() as int) =~= evs);
        }
        binds
    }
}

} // verus!

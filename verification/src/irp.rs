//! Dispatch of the requests that reach the device: open and close, reads of
//! the queue, and the two control requests that set up and tear down the
//! shared-memory mapping.
//!
//! Nothing in this module touches the system. Where a request needs the
//! system to reference an object or to map a section, the handler says so
//! and is told the outcome, so that this slow work is never done while the
//! caller holds the lock on the device state. A mapping that leaves the
//! device state is always handed back to the caller, never given up here,
//! so that its teardown runs after the lock was let go.

use vstd::prelude::*;
use crate::error::{
    is_success, nt_success, outcome, RuntimeError, STATUS_DEVICE_BUSY,
    STATUS_INVALID_DEVICE_REQUEST, STATUS_INVALID_PARAMETER, STATUS_SUCCESS,
};
use crate::ioctl::{MemoryInitialize, IOCTL_MEMORY_CLEANUP, IOCTL_MEMORY_INITIALIZE};
use crate::ring::SharedMemory;
use crate::state::{granted, DeviceState, MemoryMap};

verus! {

pub const IRP_MJ_CREATE: u8 = 0x00;

pub const IRP_MJ_CLOSE: u8 = 0x02;

pub const IRP_MJ_READ: u8 = 0x03;

pub const IRP_MJ_DEVICE_CONTROL: u8 = 0x0e;

pub const IRP_MJ_CLEANUP: u8 = 0x12;

/// The rights asked for on the section: to map it for reading and writing.
pub const SECTION_ACCESS: u32 = 0x0000_0006;

/// The rights asked for on the event: to set it and to wait on it.
pub const EVENT_ACCESS: u32 = 0x0010_0002;

/// What a request says about itself.
#[derive(Debug, Clone, Copy, PartialEq, Eq, Structural)]
pub struct IoStackLocation {
    pub major_function: u8,
    /// Number of bytes that a read request asks for.
    pub read_length: u32,
    /// Code of a control request.
    pub io_control_code: u32,
    /// Size of the input of a control request.
    pub input_buffer_length: u32,
}

/// Handles the request that opens the device.
pub struct CreateHandler {}

impl CreateHandler {
    pub fn new() -> (r: Result<Self, RuntimeError>)
        ensures
            r is Ok,
    {
        Ok(CreateHandler {  })
    }

    /// There is nothing to do, and that cannot fail.
    pub fn handle(&mut self) -> (r: Result<(), RuntimeError>)
        ensures
            r == Ok::<(), RuntimeError>(()),
    {
        Ok(())
    }
}

/// Handles the request that closes the device.
pub struct CloseHandler {}

impl CloseHandler {
    pub fn new() -> (r: Result<Self, RuntimeError>)
        ensures
            r is Ok,
    {
        Ok(CloseHandler {  })
    }

    /// There is nothing to do, and that cannot fail.
    pub fn handle(&mut self) -> (r: Result<(), RuntimeError>)
        ensures
            r == Ok::<(), RuntimeError>(()),
    {
        Ok(())
    }
}

/// Handles the request that follows the last close of a handle.
pub struct CleanupHandler {}

impl CleanupHandler {
    pub fn new() -> (r: Result<Self, RuntimeError>)
        ensures
            r is Ok,
    {
        Ok(CleanupHandler {  })
    }

    /// There is nothing to do, and that cannot fail.
    pub fn handle(&mut self) -> (r: Result<(), RuntimeError>)
        ensures
            r == Ok::<(), RuntimeError>(()),
    {
        Ok(())
    }
}

/// Handles the control request that lets go of the mapping.
pub struct MemoryCleanupHandler {}

impl MemoryCleanupHandler {
    pub fn new() -> (r: Result<Self, RuntimeError>)
        ensures
            r is Ok,
    {
        Ok(MemoryCleanupHandler {  })
    }

    /// Takes the mapping out of the device state and hands it to the caller
    /// for teardown. Without a mapping this changes nothing. It never fails.
    pub fn handle(&mut self, state: &mut DeviceState) -> (r: Result<
        Option<MemoryMap>,
        RuntimeError,
    >)
        ensures
            r == Ok::<Option<MemoryMap>, RuntimeError>(old(state).memmap),
            final(state).memmap is None,
            final(state).queue == old(state).queue,
    {
        Ok(state.take_mapping())
    }
}

/// How far the setup of a mapping has come.
#[derive(Debug, Clone, Copy, PartialEq, Eq, Structural)]
pub enum InitPhase {
    /// Nothing was looked at yet.
    Created,
    /// The system was asked to reference the section.
    AwaitSection,
    /// The system was asked to reference the event.
    AwaitEvent,
    /// The system was asked to map the section.
    AwaitView,
    /// The mapping was built and handed out.
    Installed,
    /// A step failed.
    Failed,
}

/// What the caller tells the handler.
pub enum InitEvent {
    /// The request arrived, with its input if it has any.
    Start(Option<MemoryInitialize>),
    /// The system answered a request for a reference: its status and the
    /// address of the object.
    Referenced { status: i32, object: usize },
    /// The system answered the request for a view: its status, the view, and
    /// the size that was mapped in the end.
    Mapped { status: i32, base: Option<Box<SharedMemory>>, view_size: u64 },
}

/// What the handler tells the caller to do next.
pub enum InitStep {
    /// Reference the section behind `handle` with these rights.
    ReferenceSection { handle: usize, access: u32 },
    /// Reference the event behind `handle` with these rights.
    ReferenceEvent { handle: usize, access: u32 },
    /// Map `view_size` bytes of the referenced section into system space.
    MapView { section: usize, view_size: u64 },
    /// Swap this mapping into the device state under the lock, and tear the
    /// previous one down after the lock was let go.
    Install(MemoryMap),
    /// Release what `on_failure` lists and complete the request with this
    /// error.
    Fail(RuntimeError),
}

/// Handles the control request that sets a mapping up.
pub struct MemoryInitializeHandler {
    pub input_length: usize,
    /// The input of the request, once it was accepted.
    pub input: MemoryInitialize,
    /// Address of the referenced section, zero while none is held.
    pub section: usize,
    /// Address of the referenced event, zero while none is held.
    pub event: usize,
    pub phase: InitPhase,
}

impl MemoryInitializeHandler {
    /// The handler of a request whose input has `input_buffer_length` bytes.
    pub open spec fn fresh(input_buffer_length: u32) -> Self {
        MemoryInitializeHandler {
            input_length: input_buffer_length as usize,
            input: MemoryInitialize { section: 0, event: 0, view_size: 0 },
            section: 0,
            event: 0,
            phase: InitPhase::Created,
        }
    }

    /// The references that the handler holds, in the order in which they
    /// are to be released: the event before the section.
    pub open spec fn held(self) -> Seq<usize> {
        (if self.event != 0 {
            seq![self.event]
        } else {
            Seq::<usize>::empty()
        }) + (if self.section != 0 {
            seq![self.section]
        } else {
            Seq::<usize>::empty()
        })
    }

    /// Whether `event` is what the handler waits for. A view comes with a
    /// status that reports success, and only with such a status.
    pub open spec fn expects(self, event: InitEvent) -> bool {
        match event {
            InitEvent::Start(_) => self.phase == InitPhase::Created,
            InitEvent::Referenced { .. } => self.phase == InitPhase::AwaitSection || self.phase
                == InitPhase::AwaitEvent,
            InitEvent::Mapped { status, base, .. } => self.phase == InitPhase::AwaitView && (
            is_success(status) <==> base is Some),
        }
    }

    /// Whether the input of a request is accepted: it has the size of the
    /// input structure, it is there, and the view it asks for can hold the
    /// ring.
    pub open spec fn accepts(self, input: Option<MemoryInitialize>) -> bool {
        &&& self.input_length == vstd::layout::size_of::<MemoryInitialize>()
        &&& input matches Some(i)
        &&& i.view_size >= vstd::layout::size_of::<SharedMemory>()
    }

    /// The handler with another phase.
    pub open spec fn at(self, phase: InitPhase) -> Self {
        MemoryInitializeHandler { phase, ..self }
    }

    /// The handler after `event`.
    pub open spec fn next(self, event: InitEvent) -> Self {
        match event {
            InitEvent::Start(input) => if self.accepts(input) {
                MemoryInitializeHandler {
                    input: input->Some_0,
                    phase: InitPhase::AwaitSection,
                    ..self
                }
            } else {
                self.at(InitPhase::Failed)
            },
            InitEvent::Referenced { status, object } => if !is_success(status) {
                self.at(InitPhase::Failed)
            } else if self.phase == InitPhase::AwaitSection {
                MemoryInitializeHandler { section: object, phase: InitPhase::AwaitEvent, ..self }
            } else {
                MemoryInitializeHandler { event: object, phase: InitPhase::AwaitView, ..self }
            },
            InitEvent::Mapped { status, .. } => if !is_success(status) {
                self.at(InitPhase::Failed)
            } else {
                MemoryInitializeHandler {
                    section: 0,
                    event: 0,
                    phase: InitPhase::Installed,
                    ..self
                }
            },
        }
    }

    /// Whether `step` is what the handler asks for after `event`.
    pub open spec fn asks(self, event: InitEvent, step: InitStep) -> bool {
        match event {
            InitEvent::Start(input) => if self.accepts(input) {
                step == (InitStep::ReferenceSection {
                    handle: input->Some_0.section,
                    access: SECTION_ACCESS,
                })
            } else {
                step == InitStep::Fail(RuntimeError::Failure(STATUS_INVALID_PARAMETER))
            },
            InitEvent::Referenced { status, object } => if !is_success(status) {
                step == InitStep::Fail(RuntimeError::Failure(status))
            } else if self.phase == InitPhase::AwaitSection {
                step == (InitStep::ReferenceEvent {
                    handle: self.input.event,
                    access: EVENT_ACCESS,
                })
            } else {
                step == (InitStep::MapView { section: self.section, view_size: self.input.view_size })
            },
            InitEvent::Mapped { status, base, view_size } => if !is_success(status) {
                step == InitStep::Fail(RuntimeError::Failure(status))
            } else {
                &&& step matches InitStep::Install(map)
                &&& map.section == self.section
                &&& map.event == self.event
                &&& map.view_size == view_size
                &&& map.mapped_base.read == 0
                &&& map.mapped_base.write == 0
                &&& map.mapped_base.buffer@ == Seq::new(4096, |i: int| 0u8)
                &&& map.mapped_base@ == Seq::<u8>::empty()
                &&& map.wf()
            },
        }
    }

    pub fn new(input_buffer_length: u32) -> (r: Result<Self, RuntimeError>)
        ensures
            r == Ok::<Self, RuntimeError>(Self::fresh(input_buffer_length)),
    {
        Ok(
            MemoryInitializeHandler {
                input_length: input_buffer_length as usize,
                input: MemoryInitialize { section: 0, event: 0, view_size: 0 },
                section: 0,
                event: 0,
                phase: InitPhase::Created,
            },
        )
    }

    /// Tells whether `event` is what the handler waits for.
    pub fn awaits(&self, event: &InitEvent) -> (ok: bool)
        ensures
            ok == self.expects(*event),
    {
        match event {
            InitEvent::Start(_) => self.phase == InitPhase::Created,
            InitEvent::Referenced { .. } => self.phase == InitPhase::AwaitSection || self.phase
                == InitPhase::AwaitEvent,
            InitEvent::Mapped { status, base, .. } => self.phase == InitPhase::AwaitView
                && nt_success(*status) == base.is_some(),
        }
    }

    /// Takes the outcome of the last step and decides on the next one.
    pub fn handle(&mut self, event: InitEvent) -> (step: InitStep)
        requires
            old(self).expects(event),
        ensures
            *final(self) == old(self).next(event),
            old(self).asks(event, step),
    {
        match event {
            InitEvent::Start(input) => {
                if self.input_length != core::mem::size_of::<MemoryInitialize>() {
                    self.phase = InitPhase::Failed;
                    return InitStep::Fail(RuntimeError::Failure(STATUS_INVALID_PARAMETER));
                }
                let input = match input {
                    Some(input) => input,
                    None => {
                        self.phase = InitPhase::Failed;
                        return InitStep::Fail(RuntimeError::Failure(STATUS_INVALID_PARAMETER));
                    },
                };
                let needed = core::mem::size_of::<SharedMemory>();
                if input.view_size < needed as u64 {
                    self.phase = InitPhase::Failed;
                    return InitStep::Fail(RuntimeError::Failure(STATUS_INVALID_PARAMETER));
                }
                self.input = input;
                self.phase = InitPhase::AwaitSection;
                InitStep::ReferenceSection { handle: input.section, access: SECTION_ACCESS }
            },
            InitEvent::Referenced { status, object } => {
                if !nt_success(status) {
                    self.phase = InitPhase::Failed;
                    return InitStep::Fail(RuntimeError::Failure(status));
                }
                match self.phase {
                    InitPhase::AwaitSection => {
                        self.section = object;
                        self.phase = InitPhase::AwaitEvent;
                        InitStep::ReferenceEvent { handle: self.input.event, access: EVENT_ACCESS }
                    },
                    _ => {
                        self.event = object;
                        self.phase = InitPhase::AwaitView;
                        InitStep::MapView { section: self.section, view_size: self.input.view_size }
                    },
                }
            },
            InitEvent::Mapped { status, base, view_size } => {
                match base {
                    Some(base) => {
                        let map = MemoryMap::initialize(self.section, self.event, base, view_size);
                        self.section = 0;
                        self.event = 0;
                        self.phase = InitPhase::Installed;
                        InitStep::Install(map)
                    },
                    None => {
                        self.phase = InitPhase::Failed;
                        InitStep::Fail(RuntimeError::Failure(status))
                    },
                }
            },
        }
    }

    /// What is to be released after `step`: everything that the handler
    /// holds if the step reports a failure, and nothing otherwise.
    pub open spec fn owed(self, step: InitStep) -> Seq<usize> {
        if step is Fail {
            self.held()
        } else {
            Seq::<usize>::empty()
        }
    }

    /// Cleans up after a step: when the step reports a failure, the
    /// references that the handler holds are listed for release and
    /// forgotten; after any other step the handler keeps what it holds.
    pub fn settle(&mut self, step: &InitStep) -> (release: Vec<usize>)
        ensures
            release@ == old(self).owed(*step),
            step is Fail ==> final(self).section == 0 && final(self).event == 0,
            !(step is Fail) ==> final(self).section == old(self).section && final(self).event
                == old(self).event,
            final(self).phase == old(self).phase,
            final(self).input == old(self).input,
            final(self).input_length == old(self).input_length,
    {
        match step {
            InitStep::Fail(_) => self.on_failure(),
            _ => Vec::new(),
        }
    }

    /// Gives up the references that the handler holds: lists them in the
    /// order of their release and forgets them.
    pub fn on_failure(&mut self) -> (release: Vec<usize>)
        ensures
            release@ == old(self).held(),
            final(self).section == 0,
            final(self).event == 0,
            final(self).phase == old(self).phase,
            final(self).input == old(self).input,
            final(self).input_length == old(self).input_length,
    {
        let mut release: Vec<usize> = Vec::new();
        if self.event != 0 {
            release.push(self.event);
            self.event = 0;
        }
        if self.section != 0 {
            release.push(self.section);
            self.section = 0;
        }
        assert(release@ =~= old(self).held());
        release
    }
}

/// The end of a request.
pub struct Completion {
    /// The status that completes the request.
    pub status: i32,
    /// The bytes for the caller's buffer; their number is what the request
    /// reports as transferred.
    pub data: Vec<u8>,
    /// A mapping that left the device state: tear it down once the lock on
    /// the state was let go.
    pub retired: Option<MemoryMap>,
}

impl Completion {
    /// Success for a status that reports it, the status as an error
    /// otherwise.
    pub fn result(&self) -> (r: Result<(), RuntimeError>)
        ensures
            is_success(self.status) ==> r == Ok::<(), RuntimeError>(()),
            !is_success(self.status) ==> r == Err::<(), RuntimeError>(
                RuntimeError::Failure(self.status),
            ),
    {
        outcome(self.status)
    }
}

/// Where a request went.
pub enum Routed {
    /// The request is done.
    Complete(Completion),
    /// The request sets a mapping up: drive this handler, without holding
    /// the lock, until it asks to install a mapping or fails.
    Initialize(MemoryInitializeHandler),
}

/// `routed` completes a request with this status, these bytes and this
/// mapping to tear down.
pub open spec fn completes(
    routed: Routed,
    status: i32,
    data: Seq<u8>,
    retired: Option<MemoryMap>,
) -> bool {
    &&& routed matches Routed::Complete(c)
    &&& c.status == status
    &&& c.data@ == data
    &&& c.retired == retired
}

/// What a control request does to the device state, and where it goes. An
/// unknown code is turned down; a known one needs the device.
pub open spec fn controlled(
    before: Option<DeviceState>,
    location: IoStackLocation,
    after: Option<DeviceState>,
    routed: Routed,
) -> bool {
    if location.io_control_code == IOCTL_MEMORY_INITIALIZE {
        &&& after == before
        &&& match before {
            Some(_) => routed == Routed::Initialize(
                MemoryInitializeHandler::fresh(location.input_buffer_length),
            ),
            None => completes(routed, STATUS_DEVICE_BUSY, Seq::empty(), None),
        }
    } else if location.io_control_code == IOCTL_MEMORY_CLEANUP {
        match before {
            Some(s) => {
                &&& after matches Some(t)
                &&& t.memmap is None
                &&& t.queue == s.queue
                &&& completes(routed, STATUS_SUCCESS, Seq::empty(), s.memmap)
            },
            None => after is None && completes(routed, STATUS_DEVICE_BUSY, Seq::empty(), None),
        }
    } else {
        after == before && completes(routed, STATUS_INVALID_DEVICE_REQUEST, Seq::empty(), None)
    }
}

/// What a request does to the device state, and where it goes. Opening and
/// closing need no device. A read takes the oldest bytes of the queue, and
/// a request that needs the device while it cannot be reached is answered
/// as busy. A request of a kind that the device does not know is turned
/// down.
pub open spec fn dispatched(
    before: Option<DeviceState>,
    irpsp: Option<IoStackLocation>,
    after: Option<DeviceState>,
    routed: Routed,
) -> bool {
    match irpsp {
        None => after == before && completes(routed, STATUS_INVALID_PARAMETER, Seq::empty(), None),
        Some(location) => if location.major_function == IRP_MJ_CREATE || location.major_function
            == IRP_MJ_CLOSE || location.major_function == IRP_MJ_CLEANUP {
            after == before && completes(routed, STATUS_SUCCESS, Seq::empty(), None)
        } else if location.major_function == IRP_MJ_READ {
            match before {
                Some(s) => {
                    let count = granted(location.read_length as int, s.queue@.len() as int);
                    &&& after matches Some(t)
                    &&& t.queue@ == s.queue@.skip(count)
                    &&& t.memmap == s.memmap
                    &&& completes(routed, STATUS_SUCCESS, s.queue@.take(count), None)
                },
                None => after is None && completes(routed, STATUS_DEVICE_BUSY, Seq::empty(), None),
            }
        } else if location.major_function == IRP_MJ_DEVICE_CONTROL {
            controlled(before, location, after, routed)
        } else {
            after == before && completes(routed, STATUS_INVALID_DEVICE_REQUEST, Seq::empty(), None)
        },
    }
}

/// Letting go of the mapping twice in a row is the same as letting go of it
/// once: both requests succeed, and the second finds nothing to tear down
/// and leaves the device state as it found it.
pub proof fn lemma_cleanup_is_idempotent(
    start: DeviceState,
    location: IoStackLocation,
    middle: DeviceState,
    first: Routed,
    end: DeviceState,
    second: Routed,
)
    requires
        location.major_function == IRP_MJ_DEVICE_CONTROL,
        location.io_control_code == IOCTL_MEMORY_CLEANUP,
        dispatched(Some(start), Some(location), Some(middle), first),
        dispatched(Some(middle), Some(location), Some(end), second),
    ensures
        completes(first, STATUS_SUCCESS, Seq::empty(), start.memmap),
        completes(second, STATUS_SUCCESS, Seq::empty(), None),
        end == middle,
{
}

/// A step that fails neither takes a reference nor loses one: what
/// `on_failure` lists afterwards is what the handler held before the step.
pub proof fn lemma_failed_step_keeps_references(handler: MemoryInitializeHandler, event: InitEvent)
    requires
        handler.expects(event),
        handler.next(event).phase == InitPhase::Failed,
    ensures
        handler.next(event).held() == handler.held(),
        handler.next(event).section == handler.section,
        handler.next(event).event == handler.event,
{
}

/// When the handler hands a mapping out, the mapping owns the two
/// references and the handler holds none, so that nothing is released
/// twice.
pub proof fn lemma_install_moves_references(
    handler: MemoryInitializeHandler,
    event: InitEvent,
    step: InitStep,
)
    requires
        handler.expects(event),
        handler.asks(event, step),
        step is Install,
    ensures
        step->Install_0.section == handler.section,
        step->Install_0.event == handler.event,
        handler.next(event).held() == Seq::<usize>::empty(),
        handler.next(event).phase == InitPhase::Installed,
{
    assert(handler.next(event).held() =~= Seq::<usize>::empty());
}

/// A completion without bytes and without a mapping to tear down.
fn bare(status: i32) -> (routed: Routed)
    ensures
        completes(routed, status, Seq::empty(), None),
{
    Routed::Complete(Completion { status, data: Vec::new(), retired: None })
}

/// Routes a control request by its code.
pub fn _ioctl_handler(state: Option<&mut DeviceState>, irpsp: &IoStackLocation) -> (routed: Routed)
    ensures
        match state {
            Some(s) => controlled(Some(*s), *irpsp, Some(*final(s)), routed),
            None => controlled(None, *irpsp, None, routed),
        },
{
    let code = irpsp.io_control_code;
    if code == IOCTL_MEMORY_INITIALIZE {
        match state {
            Some(_) => match MemoryInitializeHandler::new(irpsp.input_buffer_length) {
                Ok(handler) => Routed::Initialize(handler),
                Err(e) => bare(e.status()),
            },
            None => bare(STATUS_DEVICE_BUSY),
        }
    } else if code == IOCTL_MEMORY_CLEANUP {
        match state {
            Some(s) => {
                let retired = s.take_mapping();
                Routed::Complete(Completion { status: STATUS_SUCCESS, data: Vec::new(), retired })
            },
            None => bare(STATUS_DEVICE_BUSY),
        }
    } else {
        bare(STATUS_INVALID_DEVICE_REQUEST)
    }
}

/// Routes a request by its major function. `state` is the device state
/// under its lock, if the device can be reached; `irpsp` is what the request
/// says about itself, if it says anything.
pub fn irp_handler(state: Option<&mut DeviceState>, irpsp: Option<&IoStackLocation>) -> (routed:
    Routed)
    ensures
        match state {
            Some(s) => dispatched(
                Some(*s),
                match irpsp {
                    Some(l) => Some(*l),
                    None => None,
                },
                Some(*final(s)),
                routed,
            ),
            None => dispatched(
                None,
                match irpsp {
                    Some(l) => Some(*l),
                    None => None,
                },
                None,
                routed,
            ),
        },
{
    let location = match irpsp {
        Some(location) => location,
        None => {
            return bare(STATUS_INVALID_PARAMETER);
        },
    };
    let major = location.major_function;
    if major == IRP_MJ_CREATE || major == IRP_MJ_CLOSE || major == IRP_MJ_CLEANUP {
        bare(STATUS_SUCCESS)
    } else if major == IRP_MJ_READ {
        match state {
            Some(s) => {
                let data = s.drain(location.read_length as usize);
                Routed::Complete(Completion { status: STATUS_SUCCESS, data, retired: None })
            },
            None => bare(STATUS_DEVICE_BUSY),
        }
    } else if major == IRP_MJ_DEVICE_CONTROL {
        _ioctl_handler(state, location)
    } else {
        bare(STATUS_INVALID_DEVICE_REQUEST)
    }
}

} // verus!

use logdrv::error::{
    nt_success, outcome, RuntimeError, STATUS_DEVICE_BUSY, STATUS_INVALID_DEVICE_REQUEST,
    STATUS_INVALID_PARAMETER, STATUS_SUCCESS, STATUS_UNSUCCESSFUL,
};
use logdrv::ioctl::{
    MemoryInitialize, _ctl_code, FILE_ANY_ACCESS, FILE_DEVICE_UNKNOWN, IOCTL_MEMORY_CLEANUP,
    IOCTL_MEMORY_INITIALIZE, METHOD_BUFFERED,
};
use logdrv::irp::{
    irp_handler, CleanupHandler, CloseHandler, Completion, CreateHandler, InitEvent, InitPhase,
    InitStep, IoStackLocation, MemoryCleanupHandler, MemoryInitializeHandler, Routed, _ioctl_handler,
    EVENT_ACCESS, IRP_MJ_CLEANUP, IRP_MJ_CLOSE, IRP_MJ_CREATE, IRP_MJ_DEVICE_CONTROL, IRP_MJ_READ,
    SECTION_ACCESS,
};
use logdrv::irql::irql_requires;
use logdrv::lifetime::Lifetime;
use logdrv::mutex::{acquire, Acquire, SpinLockGuard, Unlock, DISPATCH_LEVEL, PASSIVE_LEVEL};
use logdrv::ring::SharedMemory;
use logdrv::state::{DeviceState, MemoryMap};

fn location(major_function: u8) -> IoStackLocation {
    IoStackLocation { major_function, read_length: 0, io_control_code: 0, input_buffer_length: 0 }
}

fn control(code: u32, input_buffer_length: u32) -> IoStackLocation {
    IoStackLocation {
        major_function: IRP_MJ_DEVICE_CONTROL,
        read_length: 0,
        io_control_code: code,
        input_buffer_length,
    }
}

fn completed(routed: Routed) -> Completion {
    match routed {
        Routed::Complete(completion) => completion,
        Routed::Initialize(_) => panic!("the request was not completed"),
    }
}

fn input_size() -> u32 {
    std::mem::size_of::<MemoryInitialize>() as u32
}

fn ring_size() -> u64 {
    std::mem::size_of::<SharedMemory>() as u64
}

fn started() -> MemoryInitializeHandler {
    let mut handler = MemoryInitializeHandler::new(input_size()).unwrap();
    let input = MemoryInitialize { section: 0x11, event: 0x22, view_size: ring_size() };
    let step = handler.handle(InitEvent::Start(Some(input)));
    assert!(matches!(step, InitStep::ReferenceSection { handle: 0x11, access: SECTION_ACCESS }));
    handler
}

#[test]
fn control_codes_have_their_values() {
    assert_eq!(IOCTL_MEMORY_INITIALIZE, 0x222000);
    assert_eq!(IOCTL_MEMORY_CLEANUP, 0x222004);
    assert_eq!(
        _ctl_code(FILE_DEVICE_UNKNOWN, 0x800, METHOD_BUFFERED, FILE_ANY_ACCESS),
        IOCTL_MEMORY_INITIALIZE
    );
    assert_eq!(
        _ctl_code(FILE_DEVICE_UNKNOWN, 0x801, METHOD_BUFFERED, FILE_ANY_ACCESS),
        IOCTL_MEMORY_CLEANUP
    );
    assert_eq!(_ctl_code(1, 2, 3, 1), 0x1400B);
}

#[test]
fn status_codes_and_outcomes() {
    assert!(nt_success(STATUS_SUCCESS));
    assert!(nt_success(1));
    assert!(!nt_success(STATUS_INVALID_PARAMETER));
    assert_eq!(STATUS_UNSUCCESSFUL as u32, 0xC0000001);
    assert_eq!(STATUS_INVALID_PARAMETER as u32, 0xC000000D);
    assert_eq!(STATUS_INVALID_DEVICE_REQUEST as u32, 0xC0000010);
    assert_eq!(STATUS_DEVICE_BUSY as u32, 0x80000011);
    assert_eq!(outcome(STATUS_SUCCESS), Ok(()));
    assert_eq!(outcome(STATUS_DEVICE_BUSY), Err(RuntimeError::Failure(STATUS_DEVICE_BUSY)));
    assert_eq!(RuntimeError::Failure(-5).status(), -5);
    assert_eq!(RuntimeError::InvalidIRQL(2).status(), STATUS_UNSUCCESSFUL);
}

#[test]
fn irql_check() {
    assert_eq!(irql_requires(0, 0), Ok(()));
    assert_eq!(irql_requires(1, 2), Ok(()));
    assert_eq!(irql_requires(2, 0), Err(RuntimeError::InvalidIRQL(2)));
    assert_eq!(irql_requires(255, 254), Err(RuntimeError::InvalidIRQL(255)));
}

#[test]
fn lock_from_below_raises_and_restores() {
    assert_eq!(acquire(PASSIVE_LEVEL), Acquire::RaiseToDpc);
    assert_eq!(acquire(1), Acquire::RaiseToDpc);
    let guard = SpinLockGuard::new(acquire(1), 1);
    assert_eq!(guard.old_irql, Some(1));
    assert_eq!(guard.release(), Unlock::Restore(1));
}

#[test]
fn lock_at_dispatch_level_leaves_the_level() {
    assert_eq!(acquire(DISPATCH_LEVEL), Acquire::AtDpcLevel);
    assert_eq!(acquire(5), Acquire::AtDpcLevel);
    let guard = SpinLockGuard::new(acquire(DISPATCH_LEVEL), 0);
    assert_eq!(guard.old_irql, None);
    assert_eq!(guard.release(), Unlock::FromDpcLevel);
}

#[test]
fn lifetime_wraps_and_unwraps() {
    let wrapped = Lifetime::new(41u32);
    assert_eq!(wrapped.into_inner(), 41);
}

#[test]
fn open_close_and_cleanup_succeed() {
    let mut state = DeviceState::new();
    state.enqueue(&[1, 2, 3]);
    for major in [IRP_MJ_CREATE, IRP_MJ_CLOSE, IRP_MJ_CLEANUP] {
        let completion = completed(irp_handler(Some(&mut state), Some(&location(major))));
        assert_eq!(completion.status, STATUS_SUCCESS);
        assert!(completion.data.is_empty());
        assert!(completion.retired.is_none());
        assert_eq!(completion.result(), Ok(()));
        let completion = completed(irp_handler(None, Some(&location(major))));
        assert_eq!(completion.status, STATUS_SUCCESS);
    }
    assert_eq!(state.queue.len(), 3);
    assert_eq!(CreateHandler::new().ok().unwrap().handle(), Ok(()));
    assert_eq!(CloseHandler::new().ok().unwrap().handle(), Ok(()));
    assert_eq!(CleanupHandler::new().ok().unwrap().handle(), Ok(()));
}

#[test]
fn read_drains_up_to_the_requested_length() {
    let mut state = DeviceState::new();
    state.enqueue(&[1, 2, 3, 4, 5]);
    let mut request = location(IRP_MJ_READ);
    request.read_length = 2;
    let completion = completed(irp_handler(Some(&mut state), Some(&request)));
    assert_eq!(completion.status, STATUS_SUCCESS);
    assert_eq!(completion.data, vec![1, 2]);
    request.read_length = 4096;
    let completion = completed(irp_handler(Some(&mut state), Some(&request)));
    assert_eq!(completion.data, vec![3, 4, 5]);
    let completion = completed(irp_handler(Some(&mut state), Some(&request)));
    assert_eq!(completion.status, STATUS_SUCCESS);
    assert!(completion.data.is_empty());
}

#[test]
fn read_without_device_is_answered_as_busy() {
    let mut request = location(IRP_MJ_READ);
    request.read_length = 16;
    let completion = completed(irp_handler(None, Some(&request)));
    assert_eq!(completion.status, STATUS_DEVICE_BUSY);
    assert!(completion.data.is_empty());
    assert!(completion.retired.is_none());
    assert_eq!(completion.result(), Err(RuntimeError::Failure(STATUS_DEVICE_BUSY)));
}

#[test]
fn settle_releases_after_a_failure_only() {
    let mut handler = started();
    let step = handler.handle(InitEvent::Referenced { status: STATUS_SUCCESS, object: 0xA0 });
    assert_eq!(handler.settle(&step), Vec::<usize>::new());
    assert_eq!(handler.section, 0xA0);
    let step = handler.handle(InitEvent::Referenced { status: STATUS_SUCCESS, object: 0xB0 });
    assert_eq!(handler.settle(&step), Vec::<usize>::new());
    let step = handler.handle(InitEvent::Mapped { status: -1073741801, base: None, view_size: 0 });
    assert_eq!(handler.settle(&step), vec![0xB0, 0xA0]);
    assert_eq!((handler.section, handler.event), (0, 0));
    assert_eq!(handler.settle(&step), Vec::<usize>::new());
}

#[test]
fn unknown_requests_are_turned_down() {
    let mut state = DeviceState::new();
    let completion = completed(irp_handler(Some(&mut state), Some(&location(0x04))));
    assert_eq!(completion.status, STATUS_INVALID_DEVICE_REQUEST);
    assert_eq!(completion.result(), Err(RuntimeError::Failure(STATUS_INVALID_DEVICE_REQUEST)));
    let completion = completed(irp_handler(Some(&mut state), None));
    assert_eq!(completion.status, STATUS_INVALID_PARAMETER);
    let completion = completed(irp_handler(Some(&mut state), Some(&control(0x222008, 0))));
    assert_eq!(completion.status, STATUS_INVALID_DEVICE_REQUEST);
    let completion = completed(_ioctl_handler(None, &control(0x222008, 0)));
    assert_eq!(completion.status, STATUS_INVALID_DEVICE_REQUEST);
}

#[test]
fn control_requests_need_the_device() {
    let completion = completed(irp_handler(None, Some(&control(IOCTL_MEMORY_INITIALIZE, 24))));
    assert_eq!(completion.status, STATUS_DEVICE_BUSY);
    let completion = completed(irp_handler(None, Some(&control(IOCTL_MEMORY_CLEANUP, 0))));
    assert_eq!(completion.status, STATUS_DEVICE_BUSY);
}

#[test]
fn cleanup_twice_is_cleanup_once() {
    let mut state = DeviceState::new();
    state.enqueue(&[1, 2]);
    state.replace_mapping(MemoryMap::initialize(3, 4, Box::new(SharedMemory::new()), 4112));
    let request = control(IOCTL_MEMORY_CLEANUP, 0);
    let first = completed(irp_handler(Some(&mut state), Some(&request)));
    assert_eq!(first.status, STATUS_SUCCESS);
    let retired = first.retired.unwrap();
    assert_eq!((retired.section, retired.event), (3, 4));
    assert!(state.memmap.is_none());
    let second = completed(irp_handler(Some(&mut state), Some(&request)));
    assert_eq!(second.status, STATUS_SUCCESS);
    assert!(second.retired.is_none());
    assert!(state.memmap.is_none());
    assert_eq!(state.queue.len(), 2);
    let mut handler = MemoryCleanupHandler::new().ok().unwrap();
    assert!(matches!(handler.handle(&mut state), Ok(None)));
}

#[test]
fn initialize_request_is_handed_to_its_handler() {
    let mut state = DeviceState::new();
    let routed = irp_handler(Some(&mut state), Some(&control(IOCTL_MEMORY_INITIALIZE, 24)));
    match routed {
        Routed::Initialize(handler) => {
            assert_eq!(handler.input_length, 24);
            assert_eq!(handler.phase, InitPhase::Created);
            assert_eq!((handler.section, handler.event), (0, 0));
        }
        Routed::Complete(_) => panic!("the request needs the system"),
    }
    assert!(state.memmap.is_none());
}

#[test]
fn initialize_runs_through_to_the_mapping() {
    let mut handler = started();
    assert_eq!(handler.phase, InitPhase::AwaitSection);
    let step = handler.handle(InitEvent::Referenced { status: STATUS_SUCCESS, object: 0xA0 });
    assert!(matches!(step, InitStep::ReferenceEvent { handle: 0x22, access: EVENT_ACCESS }));
    let step = handler.handle(InitEvent::Referenced { status: STATUS_SUCCESS, object: 0xB0 });
    match step {
        InitStep::MapView { section, view_size } => {
            assert_eq!(section, 0xA0);
            assert_eq!(view_size, ring_size());
        }
        _ => panic!("the section is mapped after both references"),
    }
    let mut stale = Box::new(SharedMemory::new());
    stale.write(&[1, 2, 3]);
    let step = handler.handle(InitEvent::Mapped {
        status: STATUS_SUCCESS,
        base: Some(stale),
        view_size: 8192,
    });
    let map = match step {
        InitStep::Install(map) => map,
        _ => panic!("a mapped view is installed"),
    };
    assert_eq!((map.section, map.event, map.view_size), (0xA0, 0xB0, 8192));
    assert_eq!((map.mapped_base.read, map.mapped_base.write), (0, 0));
    assert!(map.mapped_base.buffer.iter().all(|b| *b == 0));
    assert_eq!(handler.phase, InitPhase::Installed);
    assert_eq!(handler.on_failure(), Vec::<usize>::new());
    let mut state = DeviceState::new();
    assert!(state.replace_mapping(map).is_none());
}

#[test]
fn handler_tells_what_it_waits_for() {
    let handler = MemoryInitializeHandler::new(input_size()).unwrap();
    assert!(handler.awaits(&InitEvent::Start(None)));
    assert!(!handler.awaits(&InitEvent::Referenced { status: 0, object: 1 }));
    let mut handler = started();
    assert!(!handler.awaits(&InitEvent::Start(None)));
    assert!(handler.awaits(&InitEvent::Referenced { status: 0, object: 1 }));
    assert!(!handler.awaits(&InitEvent::Mapped { status: -1, base: None, view_size: 0 }));
    handler.handle(InitEvent::Referenced { status: 0, object: 1 });
    handler.handle(InitEvent::Referenced { status: 0, object: 2 });
    assert!(handler.awaits(&InitEvent::Mapped { status: -1, base: None, view_size: 0 }));
    assert!(!handler.awaits(&InitEvent::Mapped { status: 0, base: None, view_size: 0 }));
    assert!(!handler.awaits(&InitEvent::Mapped {
        status: -1,
        base: Some(Box::new(SharedMemory::new())),
        view_size: 0
    }));
    assert!(handler.awaits(&InitEvent::Mapped {
        status: 0,
        base: Some(Box::new(SharedMemory::new())),
        view_size: 4112
    }));
}

#[test]
fn initialize_rejects_bad_input() {
    let input = MemoryInitialize { section: 1, event: 2, view_size: ring_size() };
    let mut handler = MemoryInitializeHandler::new(input_size() + 1).unwrap();
    let step = handler.handle(InitEvent::Start(Some(input)));
    assert!(matches!(step, InitStep::Fail(RuntimeError::Failure(STATUS_INVALID_PARAMETER))));
    assert_eq!(handler.phase, InitPhase::Failed);
    assert_eq!(handler.on_failure(), Vec::<usize>::new());

    let mut handler = MemoryInitializeHandler::new(input_size()).unwrap();
    let step = handler.handle(InitEvent::Start(None));
    assert!(matches!(step, InitStep::Fail(RuntimeError::Failure(STATUS_INVALID_PARAMETER))));

    let small = MemoryInitialize { section: 1, event: 2, view_size: ring_size() - 1 };
    let mut handler = MemoryInitializeHandler::new(input_size()).unwrap();
    let step = handler.handle(InitEvent::Start(Some(small)));
    assert!(matches!(step, InitStep::Fail(RuntimeError::Failure(STATUS_INVALID_PARAMETER))));
    assert_eq!(handler.on_failure(), Vec::<usize>::new());
}

#[test]
fn failed_section_reference_releases_nothing() {
    let mut handler = started();
    let step = handler.handle(InitEvent::Referenced { status: -1073741816, object: 0 });
    assert!(matches!(step, InitStep::Fail(RuntimeError::Failure(-1073741816))));
    assert_eq!(handler.on_failure(), Vec::<usize>::new());
}

#[test]
fn failed_event_reference_releases_the_section() {
    let mut handler = started();
    handler.handle(InitEvent::Referenced { status: STATUS_SUCCESS, object: 0xA0 });
    let step = handler.handle(InitEvent::Referenced { status: -1073741790, object: 0 });
    assert!(matches!(step, InitStep::Fail(RuntimeError::Failure(-1073741790))));
    assert_eq!(handler.on_failure(), vec![0xA0]);
    assert_eq!(handler.on_failure(), Vec::<usize>::new());
}

#[test]
fn failed_mapping_releases_event_then_section() {
    let mut handler = started();
    handler.handle(InitEvent::Referenced { status: STATUS_SUCCESS, object: 0xA0 });
    handler.handle(InitEvent::Referenced { status: STATUS_SUCCESS, object: 0xB0 });
    let step = handler.handle(InitEvent::Mapped { status: -1073741801, base: None, view_size: 0 });
    assert!(matches!(step, InitStep::Fail(RuntimeError::Failure(-1073741801))));
    assert_eq!(handler.phase, InitPhase::Failed);
    assert_eq!(handler.on_failure(), vec![0xB0, 0xA0]);
    assert_eq!((handler.section, handler.event), (0, 0));
}

use mudrv::call::DriverCall;
use mudrv::context::{ApplyFrame, ApplyStep, Context, CurrentCtx, Device, NoCtxError};
use mudrv::event::{BenchAction, Event};
use mudrv::memory::{array_size, memcpy_d2d, memcpy_d2h, memcpy_h2d, DevSlice, HostSlice};
use mudrv::stream::Stream;
use mudrv::{device_count, init, init_outcome, version, DriverStatus, NoDevice};

fn current() -> CurrentCtx {
    CurrentCtx::from_raw(0x5000)
}

#[test]
fn test_bindings() {
    assert_eq!(init(), DriverCall::Init { flags: 0 });
    assert_eq!(version(), DriverCall::DriverGetVersion);
    assert_eq!(device_count(), DriverCall::DeviceGetCount);
}

#[test]
fn init_outcome_tells_no_device_apart() {
    assert_eq!(init_outcome(DriverStatus::Success), Ok(()));
    assert_eq!(init_outcome(DriverStatus::NoDevice), Err(NoDevice));
}

#[test]
fn device_context_is_created_then_popped() {
    let dev = Device::new(3);
    assert_eq!(dev.as_raw(), 3);
    let (create, pop) = dev.context_calls();
    assert_eq!(create, DriverCall::CtxCreate { flags: 0, dev: 3 });
    assert_eq!(pop, DriverCall::CtxPopCurrent);
    let ctx = dev.context(0x1000);
    assert_eq!(ctx.as_raw(), 0x1000);
    assert!(!ctx.is_primary());
    assert_eq!(ctx.device(), Device::new(3));
}

#[test]
fn primary_context_is_retained_on_its_device() {
    let dev = Device::new(1);
    assert_eq!(dev.retain_primary_call(), DriverCall::DevicePrimaryCtxRetain { dev: 1 });
    let ctx = dev.retain_primary(0x2000);
    assert_eq!(ctx.as_raw(), 0x2000);
    assert!(ctx.is_primary());
    assert_eq!(ctx.device().as_raw(), 1);
}

#[test]
fn context_release_destroys_or_releases() {
    let dev = Device::new(2);
    let made: Context = dev.context(0x1000);
    assert_eq!(made.release(), DriverCall::CtxDestroy { ctx: 0x1000 });
    let primary: Context = dev.retain_primary(0x3000);
    assert_eq!(primary.release(), DriverCall::DevicePrimaryCtxRelease { dev: 2 });
}

#[test]
fn apply_pushes_runs_and_pops_the_same_context() {
    let ctx = Device::new(0).context(0x4000);
    let mut frame: ApplyFrame<u32> = ctx.apply();
    assert_eq!(frame.next(), Some(ApplyStep::Call(DriverCall::CtxPushCurrent { ctx: 0x4000 })));
    assert_eq!(frame.next(), Some(ApplyStep::Run(CurrentCtx::from_raw(0x4000))));
    assert_eq!(frame.next(), None);
    frame.ran(42);
    assert_eq!(frame.next(), Some(ApplyStep::Call(DriverCall::CtxPopCurrent)));
    assert_eq!(frame.next(), None);
    assert!(frame.popped_matches(0x4000));
    assert!(!frame.popped_matches(0x4001));
    assert_eq!(frame.finish(0x4000), 42);
}

#[test]
fn status_codes() {
    assert_eq!(DriverStatus::from_code(0), DriverStatus::Success);
    assert_eq!(DriverStatus::from_code(100), DriverStatus::NoDevice);
    assert_eq!(DriverStatus::from_code(1), DriverStatus::Failed(1));
}

#[test]
fn test_primary() {
    let dev = Device::new(0);
    assert_eq!(dev.retain_primary_call(), DriverCall::DevicePrimaryCtxRetain { dev: 0 });
    let pctx = dev.retain_primary(0x2000);
    assert!(pctx.is_primary());
    assert_ne!(pctx.as_raw(), 0);
    assert_eq!(pctx.device(), dev);
    assert_eq!(CurrentCtx::current_call(), DriverCall::CtxGetCurrent);
    assert_eq!(CurrentCtx::apply_current(0, |c: &CurrentCtx| c.as_raw()), Err(NoCtxError));
    assert_eq!(pctx.release(), DriverCall::DevicePrimaryCtxRelease { dev: 0 });
}

#[test]
fn test_behavior() {
    assert_eq!(init_outcome(DriverStatus::NoDevice), Err(NoDevice));
    let ctx = Device::new(0).context(0x1000);
    let mut frame: ApplyFrame<()> = ctx.apply();
    assert_eq!(frame.next(), Some(ApplyStep::Call(DriverCall::CtxPushCurrent { ctx: 0x1000 })));
    let cur = match frame.next() {
        Some(ApplyStep::Run(cur)) => cur,
        other => panic!("expected the run step, got {other:?}"),
    };
    assert_eq!(cur.malloc_host_call::<u8>(128), DriverCall::MemHostAlloc { bytes: 128, flags: 0 });
    let mem = cur.malloc_host::<u8>(128, 0x7000);
    assert_eq!(mem.release(), DriverCall::MemFreeHost { ptr: 0x7000 });
    frame.ran(());
    assert_eq!(frame.next(), Some(ApplyStep::Call(DriverCall::CtxPopCurrent)));
    frame.finish(0x1000);
    let null = cur.malloc_host::<u8>(128, 0);
    assert_eq!(null.release(), DriverCall::MemFreeHost { ptr: 0 });
}

#[test]
fn current_context_queries() {
    let cur = current();
    assert_eq!(cur.as_raw(), 0x5000);
    assert_eq!(cur.dev_call(), DriverCall::CtxGetDevice);
    assert_eq!(cur.dev(7), Device::new(7));
    assert_eq!(cur.synchronize(), DriverCall::CtxSynchronize);
    assert_eq!(CurrentCtx::current_call(), DriverCall::CtxGetCurrent);
}

#[test]
fn apply_current_needs_a_current_context() {
    let none = CurrentCtx::apply_current(0, |c: &CurrentCtx| c.as_raw());
    assert_eq!(none, Err(NoCtxError));
    let some = CurrentCtx::apply_current(0x6000, |c: &CurrentCtx| c.as_raw() + 1);
    assert_eq!(some, Ok(0x6001));
    let direct = CurrentCtx::apply_current_unchecked(0x7000, |c: &CurrentCtx| c.as_raw() * 2);
    assert_eq!(direct, 0xe000);
}

#[test]
fn lock_and_unlock_the_same_pages() {
    let data = [0u64; 4];
    let slice = HostSlice::from_slice(&data, 0x9000);
    assert_eq!(slice, HostSlice { ptr: 0x9000, len: 32 });
    let cur = current();
    assert_eq!(
        cur.lock_page(slice),
        DriverCall::MemHostRegister { ptr: 0x9000, bytes: 32, flags: 0 }
    );
    assert_eq!(cur.unlock_page(slice), DriverCall::MemHostUnregister { ptr: 0x9000 });
}

#[test]
fn host_slice_counts_bytes() {
    let data = [1u32, 2, 3];
    assert_eq!(HostSlice::from_slice(&data, 0x100).len, 12);
    let empty: [u16; 0] = [];
    assert_eq!(HostSlice::from_slice(&empty, 0x100).len, 0);
}

#[test]
fn array_size_is_count_times_size() {
    assert_eq!(array_size::<u32>(3), Some(12));
    assert_eq!(array_size::<u8>(0), Some(0));
    assert_eq!(array_size::<()>(usize::MAX), Some(0));
    assert_eq!(array_size::<u8>(isize::MAX as usize), Some(isize::MAX as usize));
    assert_eq!(array_size::<u8>(isize::MAX as usize + 1), None);
    assert_eq!(array_size::<u64>(usize::MAX / 4), None);
}

#[test]
fn copies_move_exactly_the_bytes_of_both_sides() {
    let host = HostSlice { ptr: 0x100, len: 16 };
    let dev = DevSlice { ptr: 0xd000, len: 16 };
    let dev2 = DevSlice { ptr: 0xe000, len: 16 };
    assert_eq!(memcpy_d2h(host, dev), DriverCall::MemcpyDtoH { dst: 0x100, src: 0xd000, bytes: 16 });
    assert_eq!(memcpy_h2d(dev, host), DriverCall::MemcpyHtoD { dst: 0xd000, src: 0x100, bytes: 16 });
    assert_eq!(memcpy_d2d(dev2, dev), DriverCall::MemcpyDtoD { dst: 0xe000, src: 0xd000, bytes: 16 });
    let stream = current().stream(0x8000);
    assert_eq!(
        stream.memcpy_h2d(dev, host),
        DriverCall::MemcpyHtoDAsync { dst: 0xd000, src: 0x100, bytes: 16, stream: 0x8000 }
    );
    assert_eq!(
        stream.memcpy_d2d(dev2, dev),
        DriverCall::MemcpyDtoDAsync { dst: 0xe000, src: 0xd000, bytes: 16, stream: 0x8000 }
    );
}

#[test]
fn malloc_allocates_the_array_size() {
    let cur = current();
    assert_eq!(cur.malloc_call::<u32>(5), DriverCall::MemAlloc { bytes: 20 });
    let mem = cur.malloc::<u32>(5, 0xd000);
    assert_eq!(mem.len(), 20);
    assert!(!mem.is_empty());
    assert_eq!(mem.as_raw(), 0xd000);
    assert_eq!(mem.ctx().as_raw(), 0x5000);
    assert_eq!(mem.as_slice(), Some(DevSlice { ptr: 0xd000, len: 20 }));
    assert_eq!(mem.release(), DriverCall::MemFree { ptr: 0xd000 });
}

#[test]
fn empty_device_memory_is_the_empty_slice() {
    let mem = current().malloc::<u64>(0, 0);
    assert!(mem.is_empty());
    assert_eq!(mem.len(), 0);
    assert_eq!(mem.as_slice(), None);
}

#[test]
fn from_host_allocates_and_fills() {
    let cur = current();
    let src = HostSlice { ptr: 0x700, len: 24 };
    assert_eq!(cur.from_host_call(src), DriverCall::MemAlloc { bytes: 24 });
    let (mem, copy) = cur.from_host(src, 0xd100);
    assert_eq!(mem.len(), 24);
    assert_eq!(mem.as_raw(), 0xd100);
    assert_eq!(copy, DriverCall::MemcpyHtoD { dst: 0xd100, src: 0x700, bytes: 24 });
    assert_eq!(mem.release(), DriverCall::MemFree { ptr: 0xd100 });
}

#[test]
fn dev_mem_spore_round_trip() {
    let cur = current();
    let spore = cur.malloc::<u16>(8, 0xd200).sporulate();
    assert_eq!(spore.len(), 16);
    assert!(!spore.is_empty());
    assert_eq!(spore.as_raw(), 0xd200);
    assert_eq!(spore.sprout_ref(&cur).len(), 16);
    let mut spore = spore;
    assert_eq!(spore.sprout_mut(&cur).as_raw(), 0xd200);
    let mem = spore.sprout(&cur);
    assert_eq!(mem, cur.malloc::<u16>(8, 0xd200));
    let empty = cur.malloc::<u16>(0, 0).sporulate();
    assert!(empty.is_empty());
    assert_eq!(empty.len(), 0);
}

#[test]
fn host_mem_allocation_and_spores() {
    let cur = current();
    assert_eq!(cur.malloc_host_call::<f32>(4), DriverCall::MemHostAlloc { bytes: 16, flags: 0 });
    let mem = cur.malloc_host::<f32>(4, 0x8800);
    assert_eq!(mem.as_raw(), 0x8800);
    assert_eq!(mem.as_slice(), HostSlice { ptr: 0x8800, len: 16 });
    assert_eq!(mem.ctx().as_raw(), 0x5000);
    assert_eq!(mem.release(), DriverCall::MemFreeHost { ptr: 0x8800 });
    let spore = mem.sporulate();
    assert_eq!(spore.as_slice(), HostSlice { ptr: 0x8800, len: 16 });
    let back = spore.sprout(&cur);
    assert_eq!(back, cur.malloc_host::<f32>(4, 0x8800));
}

#[test]
fn stream_lifecycle() {
    let cur = current();
    assert_eq!(cur.stream_call(), DriverCall::StreamCreate);
    let stream: Stream = cur.stream(0x8000);
    assert_eq!(stream.as_raw(), 0x8000);
    assert_eq!(stream.ctx().as_raw(), 0x5000);
    assert_eq!(stream.synchronize(), DriverCall::StreamSynchronize { stream: 0x8000 });
    assert_eq!(
        stream.release(),
        (
            DriverCall::StreamSynchronize { stream: 0x8000 },
            DriverCall::StreamDestroy { stream: 0x8000 }
        )
    );
    let spore = stream.sporulate();
    assert_eq!(spore.as_raw(), 0x8000);
    assert_eq!(spore.sprout(&cur), cur.stream(0x8000));
}

#[test]
fn events_on_a_stream() {
    let cur = current();
    let stream = cur.stream(0x8000);
    assert_eq!(stream.record_call(), DriverCall::EventCreate { flags: 0 });
    let start: Event = stream.record(0xa000);
    let end: Event = stream.record(0xa100);
    assert_eq!(start.ctx().as_raw(), 0x5000);
    assert_eq!(
        stream.wait_for(&end),
        DriverCall::StreamWaitEvent { stream: 0x8000, event: 0xa100, flags: 0 }
    );
    assert_eq!(end.synchronize(), DriverCall::EventSynchronize { event: 0xa100 });
    assert_eq!(end.elapse_from(&start), DriverCall::EventElapsedTime { start: 0xa000, end: 0xa100 });
    assert_eq!(end.release(), DriverCall::EventDestroy { event: 0xa100 });
    assert_eq!(start.as_raw(), 0xa000);
    let spore = start.sporulate();
    assert_eq!(spore.sprout(&cur), stream.record(0xa000));
}

#[test]
fn bench_follows_its_schedule() {
    let stream = current().stream(0x8000);
    let mut bench = stream.bench(3, 2);
    let mut seen = Vec::new();
    while let Some(action) = bench.next() {
        seen.push(action);
    }
    assert_eq!(
        seen,
        vec![
            BenchAction::Run(0),
            BenchAction::Run(1),
            BenchAction::RecordStart,
            BenchAction::Run(0),
            BenchAction::Run(1),
            BenchAction::Run(2),
            BenchAction::RecordEnd,
            BenchAction::SynchronizeEnd,
            BenchAction::Report(3),
        ]
    );
    assert_eq!(bench.next(), None);
}

#[test]
fn bench_without_warm_up_or_runs() {
    let stream = current().stream(0x8000);
    let mut bench = stream.bench(0, 0);
    assert_eq!(bench.next(), Some(BenchAction::RecordStart));
    assert_eq!(bench.next(), Some(BenchAction::RecordEnd));
    assert_eq!(bench.next(), Some(BenchAction::SynchronizeEnd));
    assert_eq!(bench.next(), Some(BenchAction::Report(0)));
    assert_eq!(bench.next(), None);
}

//! The part of the driver's documented behaviour that the laws of this
//! library speak of: the calling thread's stack of current contexts, the
//! device each context belongs to, how often each device's primary context is
//! retained, the page-locked host ranges, and the bytes of host and device
//! memory.
//!
//! Nothing in the library runs this model; the laws take it as the meaning of
//! the driver calls the library makes, and state what the library's sequences
//! of calls come to under it.
use vstd::prelude::*;

use crate::call::DriverCall;
use crate::memory::{memcpy_d2d_spec, memcpy_d2h_spec, memcpy_h2d_spec, DevSlice, HostSlice};
use crate::stream::Stream;

verus! {

/// What a driver call answers.
pub enum Answer {
    /// Success, and nothing more.
    Done,
    /// A context (null when there is none).
    Handle(usize),
    /// A device ordinal.
    Int(i32),
    /// The driver refused the call.
    Error,
}

/// The driver's state, as far as the laws need it.
pub struct DriverModel {
    /// The calling thread's stack of current contexts; the last is current.
    pub stack: Seq<usize>,
    /// The device of each context.
    pub device_of: Map<usize, i32>,
    /// How many retains of each device's primary context are unreleased.
    pub primary_retains: Map<i32, nat>,
    /// The page-locked host ranges: their sizes, by first address.
    pub locked: Map<usize, usize>,
    /// The bytes of host memory, by address.
    pub host: spec_fn(int) -> u8,
    /// The bytes of device memory, by device address.
    pub dev: spec_fn(int) -> u8,
}

/// The current context: the top of the stack, or null when it is empty.
pub open spec fn current_of(s: DriverModel) -> usize {
    if s.stack.len() > 0 {
        s.stack.last()
    } else {
        0
    }
}

/// How many retains of the primary context of `dev` are unreleased.
pub open spec fn primary_count(s: DriverModel, dev: i32) -> nat {
    if s.primary_retains.contains_key(dev) {
        s.primary_retains[dev]
    } else {
        0
    }
}

/// Memory `mem` after `bytes` bytes from `src` (read from `from`) were copied
/// to `dst`.
pub open spec fn copied(mem: spec_fn(int) -> u8, from: spec_fn(int) -> u8, dst: int, src: int, bytes: int) -> spec_fn(int) -> u8 {
    |a: int|
        if dst <= a < dst + bytes {
            from(src + (a - dst))
        } else {
            mem(a)
        }
}

/// What `call` does to `s` and what it answers; `fresh` is the handle the
/// driver gives a context that the call creates or retains.  A copy queued on
/// a stream is taken with the effect it has once the stream runs it.  Calls
/// that touch none of the modelled state (synchronisations, allocations,
/// streams, events) leave it alone.
pub open spec fn perform(s: DriverModel, call: DriverCall, fresh: usize) -> (DriverModel, Answer) {
    match call {
        DriverCall::CtxCreate { dev, .. } => (
            DriverModel {
                stack: s.stack.push(fresh),
                device_of: s.device_of.insert(fresh, dev),
                ..s
            },
            Answer::Handle(fresh),
        ),
        DriverCall::DevicePrimaryCtxRetain { dev } => (
            DriverModel {
                device_of: s.device_of.insert(fresh, dev),
                primary_retains: s.primary_retains.insert(dev, primary_count(s, dev) + 1),
                ..s
            },
            Answer::Handle(fresh),
        ),
        DriverCall::DevicePrimaryCtxRelease { dev } => if primary_count(s, dev) > 0 {
            (
                DriverModel {
                    primary_retains: s.primary_retains.insert(dev, (primary_count(s, dev) - 1) as nat),
                    ..s
                },
                Answer::Done,
            )
        } else {
            (s, Answer::Error)
        },
        DriverCall::CtxDestroy { ctx } => (
            DriverModel {
                stack: if current_of(s) == ctx && s.stack.len() > 0 {
                    s.stack.drop_last()
                } else {
                    s.stack
                },
                device_of: s.device_of.remove(ctx),
                ..s
            },
            Answer::Done,
        ),
        DriverCall::CtxPushCurrent { ctx } => (
            DriverModel { stack: s.stack.push(ctx), ..s },
            Answer::Done,
        ),
        DriverCall::CtxPopCurrent => if s.stack.len() > 0 {
            (DriverModel { stack: s.stack.drop_last(), ..s }, Answer::Handle(s.stack.last()))
        } else {
            (s, Answer::Error)
        },
        DriverCall::CtxGetCurrent => (s, Answer::Handle(current_of(s))),
        DriverCall::CtxGetDevice => if s.stack.len() > 0 && s.device_of.contains_key(current_of(s)) {
            (s, Answer::Int(s.device_of[current_of(s)]))
        } else {
            (s, Answer::Error)
        },
        DriverCall::MemHostRegister { ptr, bytes, .. } => if s.locked.contains_key(ptr) {
            (s, Answer::Error)
        } else {
            (DriverModel { locked: s.locked.insert(ptr, bytes), ..s }, Answer::Done)
        },
        DriverCall::MemHostUnregister { ptr } => if s.locked.contains_key(ptr) {
            (DriverModel { locked: s.locked.remove(ptr), ..s }, Answer::Done)
        } else {
            (s, Answer::Error)
        },
        DriverCall::MemcpyHtoD { dst, src, bytes } => (
            DriverModel { dev: copied(s.dev, s.host, dst as int, src as int, bytes as int), ..s },
            Answer::Done,
        ),
        DriverCall::MemcpyHtoDAsync { dst, src, bytes, .. } => (
            DriverModel { dev: copied(s.dev, s.host, dst as int, src as int, bytes as int), ..s },
            Answer::Done,
        ),
        DriverCall::MemcpyDtoD { dst, src, bytes } => (
            DriverModel { dev: copied(s.dev, s.dev, dst as int, src as int, bytes as int), ..s },
            Answer::Done,
        ),
        DriverCall::MemcpyDtoDAsync { dst, src, bytes, .. } => (
            DriverModel { dev: copied(s.dev, s.dev, dst as int, src as int, bytes as int), ..s },
            Answer::Done,
        ),
        DriverCall::MemcpyDtoH { dst, src, bytes } => (
            DriverModel { host: copied(s.host, s.dev, dst as int, src as int, bytes as int), ..s },
            Answer::Done,
        ),
        _ => (s, Answer::Done),
    }
}

/// Work that leaves the context stack as it found it and the device of every
/// context it found as it was.
pub open spec fn balanced(work: spec_fn(DriverModel) -> DriverModel) -> bool {
    &&& forall|t: DriverModel| (#[trigger] work(t)).stack == t.stack
    &&& forall|t: DriverModel, k: usize|
        t.device_of.contains_key(k) ==> #[trigger] work(t).device_of.contains_key(k)
            && work(t).device_of[k] == t.device_of[k]
}

/// Work that makes no driver call.
pub open spec fn no_driver_work() -> spec_fn(DriverModel) -> DriverModel {
    |t: DriverModel| t
}

/// Work that makes no driver call is balanced.
pub proof fn lemma_no_driver_work_balanced()
    ensures
        balanced(no_driver_work()),
{
    assert forall|t: DriverModel| (#[trigger] no_driver_work()(t)).stack == t.stack by {}
    assert forall|t: DriverModel, k: usize| t.device_of.contains_key(k) implies #[trigger] no_driver_work()(
        t,
    ).device_of.contains_key(k) && no_driver_work()(t).device_of[k] == t.device_of[k] by {}
}

/// The state once the context `ctx` has been pushed.
pub open spec fn pushed(s: DriverModel, ctx: usize) -> DriverModel {
    perform(s, DriverCall::CtxPushCurrent { ctx }, 0).0
}

/// Work run inside an apply of the context `ctx` (push, work, pop): the
/// state after the pop, and what the pop answered.
pub open spec fn applied(ctx: usize, work: spec_fn(DriverModel) -> DriverModel, s: DriverModel) -> (
    DriverModel,
    Answer,
) {
    perform(work(pushed(s, ctx)), DriverCall::CtxPopCurrent, 0)
}

/// Balanced work inside an apply finds the applied context on top of the
/// stack, and the pop then answers it and leaves the stack as it was before
/// the push; the devices of the contexts are kept.
pub proof fn lemma_applied(ctx: usize, work: spec_fn(DriverModel) -> DriverModel, s: DriverModel)
    requires
        balanced(work),
    ensures
        work(pushed(s, ctx)).stack == s.stack.push(ctx),
        current_of(work(pushed(s, ctx))) == ctx,
        applied(ctx, work, s).1 == Answer::Handle(ctx),
        applied(ctx, work, s).0.stack == s.stack,
        forall|k: usize|
            s.device_of.contains_key(k) ==> applied(ctx, work, s).0.device_of.contains_key(k)
                && applied(ctx, work, s).0.device_of[k] == s.device_of[k],
{
    let t1 = pushed(s, ctx);
    let t2 = work(t1);
    assert(t2.stack == t1.stack);
    assert(t2.stack.drop_last() =~= s.stack);
    assert(t1.device_of == s.device_of);
    assert forall|k: usize| s.device_of.contains_key(k) implies applied(ctx, work, s).0.device_of.contains_key(k)
        && applied(ctx, work, s).0.device_of[k] == s.device_of[k] by {
        assert(t2.device_of.contains_key(k));
    }
}

/// Work inside an apply of the context `ctx`, taken as work itself.
pub open spec fn apply_work(ctx: usize, work: spec_fn(DriverModel) -> DriverModel) -> spec_fn(
    DriverModel,
) -> DriverModel {
    |t: DriverModel| applied(ctx, work, t).0
}

/// Applying a context to balanced work is itself balanced work: applies,
/// nested or not, restore the stack they find.
pub proof fn lemma_applied_balanced(ctx: usize, work: spec_fn(DriverModel) -> DriverModel)
    requires
        balanced(work),
    ensures
        balanced(apply_work(ctx, work)),
{
    assert forall|t: DriverModel| (#[trigger] apply_work(ctx, work)(t)).stack == t.stack by {
        lemma_applied(ctx, work, t);
    }
    assert forall|t: DriverModel, k: usize| t.device_of.contains_key(k) implies #[trigger] apply_work(
        ctx,
        work,
    )(t).device_of.contains_key(k) && apply_work(ctx, work)(t).device_of[k] == t.device_of[k] by {
        lemma_applied(ctx, work, t);
    }
}

/// The state after copying `src` into `dev`.
pub open spec fn after_h2d(s: DriverModel, dev: DevSlice, src: HostSlice) -> DriverModel {
    perform(s, memcpy_h2d_spec(dev, src), 0).0
}

/// The state after copying `src` into `dev` and then `dev` into `dst`.
pub open spec fn after_round_trip(s: DriverModel, dev: DevSlice, src: HostSlice, dst: HostSlice) -> DriverModel {
    perform(after_h2d(s, dev, src), memcpy_d2h_spec(dst, dev), 0).0
}

/// Copying host memory to device memory and back gives back the bytes: after
/// `memcpy_h2d(dev, src)` and then `memcpy_d2h(dst, dev)`, with all three of
/// the same size, `dst` holds the bytes that `src` held, `dev` holds them
/// too, and the copy back leaves device memory as it was.
pub proof fn law_copy_round_trip(s: DriverModel, dev: DevSlice, src: HostSlice, dst: HostSlice)
    requires
        src.len == dev.len,
        dst.len == dev.len,
    ensures
        forall|a: int|
            dst.ptr <= a < dst.ptr + dev.len ==> #[trigger] (after_round_trip(s, dev, src, dst).host)(a)
                == (s.host)(src.ptr + (a - dst.ptr)),
        forall|a: int|
            dev.ptr <= a < dev.ptr + dev.len ==> #[trigger] (after_h2d(s, dev, src).dev)(a) == (s.host)(
                src.ptr + (a - dev.ptr)),
        after_round_trip(s, dev, src, dst).dev == after_h2d(s, dev, src).dev,
{
}

/// Copying device memory to device memory, directly or queued on a stream,
/// and copying host memory to device memory queued on a stream, give the
/// destination the source's bytes and leave the rest of device memory and all
/// of host memory alone.
pub proof fn law_device_copies(s: DriverModel, stream: Stream, dst: DevSlice, src: DevSlice, host: HostSlice)
    requires
        dst.len == src.len,
        host.len == dst.len,
    ensures
        perform(s, memcpy_d2d_spec(dst, src), 0).0.dev == copied(s.dev, s.dev, dst.ptr as int, src.ptr as int, dst.len as int),
        perform(s, stream.memcpy_d2d_spec(dst, src), 0).0.dev == copied(s.dev, s.dev, dst.ptr as int, src.ptr as int, dst.len as int),
        perform(s, stream.memcpy_h2d_spec(dst, host), 0).0.dev == copied(s.dev, s.host, dst.ptr as int, host.ptr as int, dst.len as int),
        perform(s, memcpy_d2d_spec(dst, src), 0).0.host == s.host,
        perform(s, stream.memcpy_d2d_spec(dst, src), 0).0.host == s.host,
        perform(s, stream.memcpy_h2d_spec(dst, host), 0).0.host == s.host,
        forall|a: int|
            dst.ptr <= a < dst.ptr + dst.len ==> #[trigger] (perform(s, memcpy_d2d_spec(dst, src), 0).0.dev)(a)
                == (s.dev)(src.ptr + (a - dst.ptr)),
{
}

} // verus!

//! The driver entry points that the library asks its caller to perform.
//!
//! Every operation of the library is written without touching the driver
//! itself: it computes the exact call (and its arguments) that the driver must
//! receive, and it interprets the driver's reply.  Handles are carried as plain
//! integers: a context, stream, event or host address is the value of the
//! pointer, a device address is the driver's 64-bit device pointer and a device
//! is its ordinal.
use vstd::prelude::*;

verus! {

/// `MUSA_SUCCESS`, the result code of a call that succeeded.
pub const MUSA_SUCCESS: u32 = 0;

/// `MUSA_ERROR_NO_DEVICE`, the result code of a driver that found no device.
pub const MUSA_ERROR_NO_DEVICE: u32 = 100;

/// The flag word that `muInit` receives.
pub const INIT_FLAGS: u32 = 0;

/// The flag word that a context is created with.
pub const CTX_CREATE_FLAGS: u32 = 0;

/// `MU_STREAM_DEFAULT`, the flag word that events are created with.
pub const MU_STREAM_DEFAULT: u32 = 0;

/// The flag word of `muStreamWaitEvent`.
pub const WAIT_EVENT_FLAGS: u32 = 0;

/// The flag word of `muMemHostRegister`.
pub const HOST_REGISTER_FLAGS: u32 = 0;

/// The flag word of `muMemHostAlloc`.
pub const HOST_ALLOC_FLAGS: u32 = 0;

/// One call into the MUSA driver (or, for stream creation, its runtime).
#[derive(Clone, Copy, Debug, PartialEq, Eq, Structural)]
pub enum DriverCall {
    /// `muInit(flags)`.
    Init { flags: u32 },
    /// `muDriverGetVersion`: the reply is the driver version.
    DriverGetVersion,
    /// `muDeviceGetCount`: the reply is the number of devices.
    DeviceGetCount,
    /// `muCtxCreate_v2(flags, dev)`: the reply is the new context, which is pushed.
    CtxCreate { flags: u32, dev: i32 },
    /// `muCtxPopCurrent_v2`: pops the current context; the reply is the popped context.
    CtxPopCurrent,
    /// `muCtxPushCurrent_v2(ctx)`.
    CtxPushCurrent { ctx: usize },
    /// `muCtxDestroy_v2(ctx)`.
    CtxDestroy { ctx: usize },
    /// `muDevicePrimaryCtxRetain(dev)`: the reply is the primary context.
    DevicePrimaryCtxRetain { dev: i32 },
    /// `muDevicePrimaryCtxRelease_v2(dev)`.
    DevicePrimaryCtxRelease { dev: i32 },
    /// `muCtxGetDevice`: the reply is the device of the current context.
    CtxGetDevice,
    /// `muCtxSynchronize`.
    CtxSynchronize,
    /// `muCtxGetCurrent`: the reply is the current context, or null.
    CtxGetCurrent,
    /// `muMemHostRegister_v2(ptr, bytes, flags)`.
    MemHostRegister { ptr: usize, bytes: usize, flags: u32 },
    /// `muMemHostUnregister(ptr)`.
    MemHostUnregister { ptr: usize },
    /// `musaStreamCreate`: the reply is the new stream.
    StreamCreate,
    /// `muStreamSynchronize(stream)`.
    StreamSynchronize { stream: usize },
    /// `muStreamDestroy_v2(stream)`.
    StreamDestroy { stream: usize },
    /// `muStreamWaitEvent(stream, event, flags)`.
    StreamWaitEvent { stream: usize, event: usize, flags: u32 },
    /// `muEventCreate(flags)`: the reply is the new event.
    EventCreate { flags: u32 },
    /// `muEventDestroy_v2(event)`.
    EventDestroy { event: usize },
    /// `muEventSynchronize(event)`.
    EventSynchronize { event: usize },
    /// `muEventElapsedTime(start, end)`: the reply is the time in milliseconds.
    EventElapsedTime { start: usize, end: usize },
    /// `muMemcpyDtoH_v2(dst, src, bytes)`.
    MemcpyDtoH { dst: usize, src: u64, bytes: usize },
    /// `muMemcpyHtoD_v2(dst, src, bytes)`.
    MemcpyHtoD { dst: u64, src: usize, bytes: usize },
    /// `muMemcpyDtoD_v2(dst, src, bytes)`.
    MemcpyDtoD { dst: u64, src: u64, bytes: usize },
    /// `muMemcpyHtoDAsync_v2(dst, src, bytes, stream)`.
    MemcpyHtoDAsync { dst: u64, src: usize, bytes: usize, stream: usize },
    /// `muMemcpyDtoDAsync_v2(dst, src, bytes, stream)`.
    MemcpyDtoDAsync { dst: u64, src: u64, bytes: usize, stream: usize },
    /// `muMemAlloc_v2(bytes)`: the reply is the device address.
    MemAlloc { bytes: usize },
    /// `muMemFree_v2(ptr)`.
    MemFree { ptr: u64 },
    /// `muMemHostAlloc(bytes, flags)`: the reply is the host address.
    MemHostAlloc { bytes: usize, flags: u32 },
    /// `muMemFreeHost(ptr)`.
    MemFreeHost { ptr: usize },
}

} // verus!

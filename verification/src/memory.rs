//! Device and host memory: copies between them, allocations, and the
//! resource/spore pairs that hold allocations across context switches.
use vstd::prelude::*;

use crate::call::{self, DriverCall};
use crate::context::CurrentCtx;
use crate::stream::Stream;

verus! {

broadcast use vstd::layout::layout_of_slices;

/// One byte of device memory.
#[derive(Clone, Copy, Debug, PartialEq, Eq, Structural)]
pub struct DevByte(u8);

/// A stretch of host memory, by its first address and its size in bytes.
#[derive(Clone, Copy, Debug, PartialEq, Eq, Structural)]
pub struct HostSlice {
    /// The first address.
    pub ptr: usize,
    /// The size in bytes.
    pub len: usize,
}

/// A stretch of device memory ([`DevByte`]s), by its first device address and
/// its size in bytes.
#[derive(Clone, Copy, Debug, PartialEq, Eq, Structural)]
pub struct DevSlice {
    /// The first device address.
    pub ptr: u64,
    /// The size in bytes.
    pub len: usize,
}

/// The raw form of an allocation: where it starts and how many bytes it has.
#[derive(Clone, Copy, Debug, PartialEq, Eq, Structural)]
pub struct Blob<P> {
    /// The first address.
    pub ptr: P,
    /// The size in bytes.
    pub len: usize,
}

impl HostSlice {
    /// The host memory that `slice` occupies, given the address of its first
    /// element: `size_of_val(slice)` bytes from `ptr` on.
    pub fn from_slice<T>(slice: &[T], ptr: usize) -> (r: HostSlice)
        ensures
            r.ptr == ptr,
            r.len == slice@.len() * vstd::layout::size_of::<T>(),
    {
        let len = core::mem::size_of_val(slice);
        HostSlice { ptr, len }
    }
}

/// Whether an array of `len` values of `T` has a size that a layout can
/// describe: at most `isize::MAX` bytes.
pub open spec fn array_fits<T>(len: usize) -> bool {
    len * vstd::layout::size_of::<T>() <= isize::MAX
}

/// The size in bytes of an array of `len` values of `T`.
pub open spec fn array_bytes<T>(len: usize) -> usize {
    (len * vstd::layout::size_of::<T>()) as usize
}

/// The size in bytes of an array of `len` values of `T`, or `None` where the
/// array could not be described by a layout.
pub fn array_size<T>(len: usize) -> (r: Option<usize>)
    ensures
        r == (if array_fits::<T>(len) {
            Some(array_bytes::<T>(len))
        } else {
            None::<usize>
        }),
{
    let size = core::mem::size_of::<T>();
    match len.checked_mul(size) {
        Some(bytes) => {
            if bytes <= isize::MAX as usize {
                Some(bytes)
            } else {
                None
            }
        },
        None => {
            assert(len * size > isize::MAX) by (nonlinear_arith)
                requires
                    len * size > usize::MAX,
                    usize::MAX >= isize::MAX,
            ;
            None
        },
    }
}

/// The copy from device memory `src` to host memory `dst`: all the bytes of `dst`.
pub open spec fn memcpy_d2h_spec(dst: HostSlice, src: DevSlice) -> DriverCall {
    DriverCall::MemcpyDtoH { dst: dst.ptr, src: src.ptr, bytes: dst.len }
}

/// The copy from host memory `src` to device memory `dst`: all the bytes of `src`.
pub open spec fn memcpy_h2d_spec(dst: DevSlice, src: HostSlice) -> DriverCall {
    DriverCall::MemcpyHtoD { dst: dst.ptr, src: src.ptr, bytes: src.len }
}

/// The copy from device memory `src` to host memory `dst`.  Both sides must
/// have the same size: that many bytes are copied.
pub fn memcpy_d2h(dst: HostSlice, src: DevSlice) -> (r: DriverCall)
    requires
        dst.len == src.len,
    ensures
        r == memcpy_d2h_spec(dst, src),
        r == (DriverCall::MemcpyDtoH { dst: dst.ptr, src: src.ptr, bytes: dst.len }),
{
    DriverCall::MemcpyDtoH { dst: dst.ptr, src: src.ptr, bytes: dst.len }
}

/// The copy from host memory `src` to device memory `dst`.  Both sides must
/// have the same size: that many bytes are copied.
pub fn memcpy_h2d(dst: DevSlice, src: HostSlice) -> (r: DriverCall)
    requires
        dst.len == src.len,
    ensures
        r == memcpy_h2d_spec(dst, src),
        r == (DriverCall::MemcpyHtoD { dst: dst.ptr, src: src.ptr, bytes: src.len }),
{
    DriverCall::MemcpyHtoD { dst: dst.ptr, src: src.ptr, bytes: src.len }
}

/// The copy from device memory `src` to device memory `dst`: all the bytes of `src`.
pub open spec fn memcpy_d2d_spec(dst: DevSlice, src: DevSlice) -> DriverCall {
    DriverCall::MemcpyDtoD { dst: dst.ptr, src: src.ptr, bytes: src.len }
}

/// The copy from device memory `src` to device memory `dst`.  Both sides must
/// have the same size: that many bytes are copied.
pub fn memcpy_d2d(dst: DevSlice, src: DevSlice) -> (r: DriverCall)
    requires
        dst.len == src.len,
    ensures
        r == memcpy_d2d_spec(dst, src),
        r == (DriverCall::MemcpyDtoD { dst: dst.ptr, src: src.ptr, bytes: src.len }),
{
    DriverCall::MemcpyDtoD { dst: dst.ptr, src: src.ptr, bytes: src.len }
}

impl Stream {
    /// The copy from host memory `src` to device memory `dst`, queued on this
    /// stream: all the bytes of `src`.
    pub open spec fn memcpy_h2d_spec(&self, dst: DevSlice, src: HostSlice) -> DriverCall {
        DriverCall::MemcpyHtoDAsync { dst: dst.ptr, src: src.ptr, bytes: src.len, stream: self.raw_spec() }
    }

    /// The copy from device memory `src` to device memory `dst`, queued on this
    /// stream: all the bytes of `src`.
    pub open spec fn memcpy_d2d_spec(&self, dst: DevSlice, src: DevSlice) -> DriverCall {
        DriverCall::MemcpyDtoDAsync { dst: dst.ptr, src: src.ptr, bytes: src.len, stream: self.raw_spec() }
    }

    /// The copy from host memory `src` to device memory `dst`, queued on this
    /// stream.  Both sides must have the same size: that many bytes are copied.
    pub fn memcpy_h2d(&self, dst: DevSlice, src: HostSlice) -> (r: DriverCall)
        requires
            dst.len == src.len,
        ensures
            r == self.memcpy_h2d_spec(dst, src),
            r == (DriverCall::MemcpyHtoDAsync {
                dst: dst.ptr,
                src: src.ptr,
                bytes: src.len,
                stream: self.raw_spec(),
            }),
    {
        DriverCall::MemcpyHtoDAsync { dst: dst.ptr, src: src.ptr, bytes: src.len, stream: self.as_raw() }
    }

    /// The copy from device memory `src` to device memory `dst`, queued on this
    /// stream.  Both sides must have the same size: that many bytes are copied.
    pub fn memcpy_d2d(&self, dst: DevSlice, src: DevSlice) -> (r: DriverCall)
        requires
            dst.len == src.len,
        ensures
            r == self.memcpy_d2d_spec(dst, src),
            r == (DriverCall::MemcpyDtoDAsync {
                dst: dst.ptr,
                src: src.ptr,
                bytes: src.len,
                stream: self.raw_spec(),
            }),
    {
        DriverCall::MemcpyDtoDAsync { dst: dst.ptr, src: src.ptr, bytes: src.len, stream: self.as_raw() }
    }
}

/// Device memory allocated in a context.
#[derive(Debug, PartialEq, Eq, Structural)]
pub struct DevMem {
    ctx: usize,
    rss: Blob<u64>,
}

/// Device memory held while its context is not current; it can only be turned
/// back into device memory on the context that allocated it.
#[derive(Debug, PartialEq, Eq, Structural)]
pub struct DevMemSpore {
    res: DevMem,
}

/// Page-locked host memory allocated in a context.
#[derive(Debug, PartialEq, Eq, Structural)]
pub struct HostMem {
    ctx: usize,
    rss: Blob<usize>,
}

/// Page-locked host memory held while its context is not current.
#[derive(Debug, PartialEq, Eq, Structural)]
pub struct HostMemSpore {
    res: HostMem,
}

impl CurrentCtx {
    /// The call that allocates device memory for `len` values of `T`.
    pub fn malloc_call<T: Copy>(&self, len: usize) -> (r: DriverCall)
        requires
            array_fits::<T>(len),
        ensures
            r == (DriverCall::MemAlloc { bytes: array_bytes::<T>(len) }),
    {
        let bytes = len * core::mem::size_of::<T>();
        DriverCall::MemAlloc { bytes }
    }

    /// The device memory for `len` values of `T`, given the device address
    /// that the driver answered to [`CurrentCtx::malloc_call`].
    pub closed spec fn malloc_spec<T>(&self, len: usize, ptr: u64) -> DevMem {
        DevMem { ctx: self.raw_spec(), rss: Blob { ptr, len: array_bytes::<T>(len) } }
    }

    /// The device memory for `len` values of `T`, given the device address
    /// that the driver answered to [`CurrentCtx::malloc_call`]: it belongs to
    /// this context and has the array's size in bytes.
    pub fn malloc<T: Copy>(&self, len: usize, ptr: u64) -> (r: DevMem)
        requires
            array_fits::<T>(len),
        ensures
            r == self.malloc_spec::<T>(len, ptr),
            r.ctx_spec() == self.raw_spec(),
            r.ptr_spec() == ptr,
            r.len_spec() == array_bytes::<T>(len),
    {
        let bytes = len * core::mem::size_of::<T>();
        DevMem { ctx: self.as_raw(), rss: Blob { ptr, len: bytes } }
    }

    /// The call that allocates device memory for a copy of `src`.
    pub fn from_host_call(&self, src: HostSlice) -> (r: DriverCall)
        ensures
            r == (DriverCall::MemAlloc { bytes: src.len }),
    {
        DriverCall::MemAlloc { bytes: src.len }
    }

    /// The device copy of `src`, given the device address that the driver
    /// answered to [`CurrentCtx::from_host_call`]: the memory, which has the
    /// size of `src`, and the call that fills it with `src`.
    pub closed spec fn from_host_spec(&self, src: HostSlice, ptr: u64) -> DevMem {
        DevMem { ctx: self.raw_spec(), rss: Blob { ptr, len: src.len } }
    }

    /// The device copy of `src`, given the device address that the driver
    /// answered to [`CurrentCtx::from_host_call`]: the memory, which has the
    /// size of `src`, and the call that fills it with `src`.
    pub fn from_host(&self, src: HostSlice, ptr: u64) -> (r: (DevMem, DriverCall))
        ensures
            r.0 == self.from_host_spec(src, ptr),
            r.0.ctx_spec() == self.raw_spec(),
            r.0.ptr_spec() == ptr,
            r.0.len_spec() == src.len,
            r.1 == (DriverCall::MemcpyHtoD { dst: ptr, src: src.ptr, bytes: src.len }),
    {
        let mem = DevMem { ctx: self.as_raw(), rss: Blob { ptr, len: src.len } };
        let dst = DevSlice { ptr, len: src.len };
        (mem, memcpy_h2d(dst, src))
    }

    /// The call that allocates page-locked host memory for `len` values of `T`.
    pub fn malloc_host_call<T: Copy>(&self, len: usize) -> (r: DriverCall)
        requires
            array_fits::<T>(len),
        ensures
            r == (DriverCall::MemHostAlloc {
                bytes: array_bytes::<T>(len),
                flags: call::HOST_ALLOC_FLAGS,
            }),
    {
        let bytes = len * core::mem::size_of::<T>();
        DriverCall::MemHostAlloc { bytes, flags: call::HOST_ALLOC_FLAGS }
    }

    /// The host memory for `len` values of `T`, given the host address that
    /// the driver answered to [`CurrentCtx::malloc_host_call`].
    pub closed spec fn malloc_host_spec<T>(&self, len: usize, ptr: usize) -> HostMem {
        HostMem { ctx: self.raw_spec(), rss: Blob { ptr, len: array_bytes::<T>(len) } }
    }

    /// The host memory for `len` values of `T`, given the host address that
    /// the driver answered to [`CurrentCtx::malloc_host_call`].
    pub fn malloc_host<T: Copy>(&self, len: usize, ptr: usize) -> (r: HostMem)
        requires
            array_fits::<T>(len),
        ensures
            r == self.malloc_host_spec::<T>(len, ptr),
            r.ctx_spec() == self.raw_spec(),
            r.ptr_spec() == ptr,
            r.len_spec() == array_bytes::<T>(len),
    {
        let bytes = len * core::mem::size_of::<T>();
        HostMem { ctx: self.as_raw(), rss: Blob { ptr, len: bytes } }
    }
}

impl DevMem {
    /// The context the memory was allocated in.
    pub closed spec fn ctx_spec(&self) -> usize {
        self.ctx
    }

    /// The first device address of the memory.
    pub closed spec fn ptr_spec(&self) -> u64 {
        self.rss.ptr
    }

    /// The size of the memory in bytes.
    pub closed spec fn len_spec(&self) -> usize {
        self.rss.len
    }

    /// The context the memory was allocated in.
    pub fn ctx(&self) -> (r: CurrentCtx)
        ensures
            r.raw_spec() == self.ctx_spec(),
    {
        CurrentCtx::from_raw(self.ctx)
    }

    /// The first device address of the memory.
    pub fn as_raw(&self) -> (r: u64)
        ensures
            r == self.ptr_spec(),
    {
        self.rss.ptr
    }

    /// The size of the memory in bytes.
    pub fn len(&self) -> (r: usize)
        ensures
            r == self.len_spec(),
    {
        self.rss.len
    }

    /// Whether the memory has no bytes.
    pub fn is_empty(&self) -> (r: bool)
        ensures
            r == (self.len_spec() == 0),
    {
        self.rss.len == 0
    }

    /// The bytes of the memory, or `None` where it has none (it is then seen
    /// as the empty slice, whatever address the driver gave it).
    pub fn as_slice(&self) -> (r: Option<DevSlice>)
        ensures
            r == (if self.len_spec() == 0 {
                None::<DevSlice>
            } else {
                Some(DevSlice { ptr: self.ptr_spec(), len: self.len_spec() })
            }),
    {
        if self.rss.len == 0 {
            None
        } else {
            Some(DevSlice { ptr: self.rss.ptr, len: self.rss.len })
        }
    }

    /// The call that frees the memory when it is dropped.
    pub open spec fn release_spec(&self) -> DriverCall {
        DriverCall::MemFree { ptr: self.ptr_spec() }
    }

    /// The call that frees the memory when it is dropped.
    pub fn release(&self) -> (r: DriverCall)
        ensures
            r == self.release_spec(),
    {
        DriverCall::MemFree { ptr: self.rss.ptr }
    }

    /// The spore that keeps this memory.
    pub closed spec fn sporulate_spec(self) -> DevMemSpore {
        DevMemSpore { res: self }
    }

    /// Keeps the memory while its context is switched out.
    pub fn sporulate(self) -> (r: DevMemSpore)
        ensures
            r == self.sporulate_spec(),
            r.ctx_spec() == self.ctx_spec(),
            r.ptr_spec() == self.ptr_spec(),
            r.len_spec() == self.len_spec(),
    {
        DevMemSpore { res: self }
    }
}

impl DevMemSpore {
    /// The device memory that this spore keeps.
    pub closed spec fn sprout_spec(self) -> DevMem {
        self.res
    }

    /// The context the spore's resource belongs to.
    pub fn ctx(&self) -> (r: CurrentCtx)
        ensures
            r.raw_spec() == self.ctx_spec(),
    {
        self.res.ctx()
    }

    /// The context the memory was allocated in.
    pub closed spec fn ctx_spec(&self) -> usize {
        self.res.ctx_spec()
    }

    /// The first device address of the memory.
    pub closed spec fn ptr_spec(&self) -> u64 {
        self.res.ptr_spec()
    }

    /// The size of the memory in bytes.
    pub closed spec fn len_spec(&self) -> usize {
        self.res.len_spec()
    }

    /// The first device address of the memory.
    pub fn as_raw(&self) -> (r: u64)
        ensures
            r == self.ptr_spec(),
    {
        self.res.as_raw()
    }

    /// The size of the memory in bytes.
    pub fn len(&self) -> (r: usize)
        ensures
            r == self.len_spec(),
    {
        self.res.len()
    }

    /// Whether the memory has no bytes.
    pub fn is_empty(&self) -> (r: bool)
        ensures
            r == (self.len_spec() == 0),
    {
        self.res.is_empty()
    }

    /// Turns the spore back into the device memory, on the context that allocated it.
    pub fn sprout(self, ctx: &CurrentCtx) -> (r: DevMem)
        requires
            ctx.raw_spec() == self.ctx_spec(),
        ensures
            r == self.sprout_spec(),
    {
        self.res
    }

    /// Lends the device memory, on the context that allocated it.
    pub fn sprout_ref<'a>(&'a self, ctx: &CurrentCtx) -> (r: &'a DevMem)
        requires
            ctx.raw_spec() == self.ctx_spec(),
        ensures
            *r == self.sprout_spec(),
    {
        &self.res
    }

    /// Lends the device memory for change, on the context that allocated it.
    pub fn sprout_mut<'a>(&'a mut self, ctx: &CurrentCtx) -> (r: &'a mut DevMem)
        requires
            ctx.raw_spec() == old(self).ctx_spec(),
        ensures
            *r == old(self).sprout_spec(),
            final(self).sprout_spec() == *final(r),
    {
        &mut self.res
    }
}

impl HostMem {
    /// The context the memory was allocated in.
    pub closed spec fn ctx_spec(&self) -> usize {
        self.ctx
    }

    /// The first host address of the memory.
    pub closed spec fn ptr_spec(&self) -> usize {
        self.rss.ptr
    }

    /// The size of the memory in bytes.
    pub closed spec fn len_spec(&self) -> usize {
        self.rss.len
    }

    /// The context the memory was allocated in.
    pub fn ctx(&self) -> (r: CurrentCtx)
        ensures
            r.raw_spec() == self.ctx_spec(),
    {
        CurrentCtx::from_raw(self.ctx)
    }

    /// The first host address of the memory.
    pub fn as_raw(&self) -> (r: usize)
        ensures
            r == self.ptr_spec(),
    {
        self.rss.ptr
    }

    /// The bytes of the memory.
    pub fn as_slice(&self) -> (r: HostSlice)
        ensures
            r == (HostSlice { ptr: self.ptr_spec(), len: self.len_spec() }),
    {
        HostSlice { ptr: self.rss.ptr, len: self.rss.len }
    }

    /// The call that frees the memory when it is dropped.
    pub open spec fn release_spec(&self) -> DriverCall {
        DriverCall::MemFreeHost { ptr: self.ptr_spec() }
    }

    /// The call that frees the memory when it is dropped.
    pub fn release(&self) -> (r: DriverCall)
        ensures
            r == self.release_spec(),
    {
        DriverCall::MemFreeHost { ptr: self.rss.ptr }
    }

    /// The spore that keeps this memory.
    pub closed spec fn sporulate_spec(self) -> HostMemSpore {
        HostMemSpore { res: self }
    }

    /// Keeps the memory while its context is switched out.
    pub fn sporulate(self) -> (r: HostMemSpore)
        ensures
            r == self.sporulate_spec(),
            r.ctx_spec() == self.ctx_spec(),
            r.ptr_spec() == self.ptr_spec(),
            r.len_spec() == self.len_spec(),
    {
        HostMemSpore { res: self }
    }
}

impl HostMemSpore {
    /// The host memory that this spore keeps.
    pub closed spec fn sprout_spec(self) -> HostMem {
        self.res
    }

    /// The context the spore's resource belongs to.
    pub fn ctx(&self) -> (r: CurrentCtx)
        ensures
            r.raw_spec() == self.ctx_spec(),
    {
        self.res.ctx()
    }

    /// The context the memory was allocated in.
    pub closed spec fn ctx_spec(&self) -> usize {
        self.res.ctx_spec()
    }

    /// The first host address of the memory.
    pub closed spec fn ptr_spec(&self) -> usize {
        self.res.ptr_spec()
    }

    /// The size of the memory in bytes.
    pub closed spec fn len_spec(&self) -> usize {
        self.res.len_spec()
    }

    /// The bytes of the memory: a spore's host memory stays readable.
    pub fn as_slice(&self) -> (r: HostSlice)
        ensures
            r == (HostSlice { ptr: self.ptr_spec(), len: self.len_spec() }),
    {
        self.res.as_slice()
    }

    /// Turns the spore back into the host memory, on the context that allocated it.
    pub fn sprout(self, ctx: &CurrentCtx) -> (r: HostMem)
        requires
            ctx.raw_spec() == self.ctx_spec(),
        ensures
            r == self.sprout_spec(),
    {
        self.res
    }

    /// Lends the host memory, on the context that allocated it.
    pub fn sprout_ref<'a>(&'a self, ctx: &CurrentCtx) -> (r: &'a HostMem)
        requires
            ctx.raw_spec() == self.ctx_spec(),
        ensures
            *r == self.sprout_spec(),
    {
        &self.res
    }

    /// Lends the host memory for change, on the context that allocated it.
    pub fn sprout_mut<'a>(&'a mut self, ctx: &CurrentCtx) -> (r: &'a mut HostMem)
        requires
            ctx.raw_spec() == old(self).ctx_spec(),
        ensures
            *r == old(self).sprout_spec(),
            final(self).sprout_spec() == *final(r),
    {
        &mut self.res
    }
}

/// Memory is freed the way it was allocated, at the address the driver gave
/// it: device memory, whether allocated for an array or for a copy of host
/// memory, with `muMemFree_v2`, and page-locked host memory with
/// `muMemFreeHost`.
pub proof fn law_free_undoes_alloc<T>(ctx: CurrentCtx, len: usize, src: HostSlice, ptr: u64, host_ptr: usize)
    ensures
        ctx.malloc_spec::<T>(len, ptr).release_spec() == (DriverCall::MemFree { ptr }),
        ctx.from_host_spec(src, ptr).release_spec() == (DriverCall::MemFree { ptr }),
        ctx.malloc_host_spec::<T>(len, host_ptr).release_spec() == (DriverCall::MemFreeHost {
            ptr: host_ptr,
        }),
{
}

/// Turning memory into a spore and back gives the same memory, and the other
/// way round; the context, the address and the size travel unchanged.
pub proof fn law_sprout_undoes_sporulate(dev: DevMem, dev_spore: DevMemSpore, host: HostMem, host_spore: HostMemSpore)
    ensures
        dev.sporulate_spec().sprout_spec() == dev,
        dev_spore.sprout_spec().sporulate_spec() == dev_spore,
        host.sporulate_spec().sprout_spec() == host,
        host_spore.sprout_spec().sporulate_spec() == host_spore,
        dev.sporulate_spec().ctx_spec() == dev.ctx_spec(),
        host.sporulate_spec().ctx_spec() == host.ctx_spec(),
{
}

} // verus!

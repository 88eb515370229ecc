//! Streams: queues of work on a context.
use vstd::prelude::*;

use crate::call::DriverCall;
use crate::context::CurrentCtx;

verus! {

/// A stream created in a context.
#[derive(Debug, PartialEq, Eq, Structural)]
pub struct Stream {
    ctx: usize,
    raw: usize,
}

/// A stream held while its context is not current; it can only be turned
/// back into a stream on the context that created it.
#[derive(Debug, PartialEq, Eq, Structural)]
pub struct StreamSpore {
    res: Stream,
}

impl CurrentCtx {
    /// The call that creates a stream on the current context.
    pub fn stream_call(&self) -> (r: DriverCall)
        ensures
            r == DriverCall::StreamCreate,
    {
        DriverCall::StreamCreate
    }

    /// The stream that [`CurrentCtx::stream_call`] created, given the
    /// driver's reply: it belongs to this context.
    pub closed spec fn stream_spec(&self, created: usize) -> Stream {
        Stream { ctx: self.raw_spec(), raw: created }
    }

    /// The stream that [`CurrentCtx::stream_call`] created, given the
    /// driver's reply: it belongs to this context.
    pub fn stream(&self, created: usize) -> (r: Stream)
        ensures
            r == self.stream_spec(created),
            r.ctx_spec() == self.raw_spec(),
            r.raw_spec() == created,
    {
        Stream { ctx: self.as_raw(), raw: created }
    }
}

impl Stream {
    /// The context the stream was created in.
    pub closed spec fn ctx_spec(&self) -> usize {
        self.ctx
    }

    /// The driver handle of the stream.
    pub closed spec fn raw_spec(&self) -> usize {
        self.raw
    }

    /// The context the stream was created in.
    pub fn ctx(&self) -> (r: CurrentCtx)
        ensures
            r.raw_spec() == self.ctx_spec(),
    {
        CurrentCtx::from_raw(self.ctx)
    }

    /// The driver handle of the stream.
    #[verifier::when_used_as_spec(raw_spec)]
    pub fn as_raw(&self) -> (r: usize)
        ensures
            r == self.raw_spec(),
    {
        self.raw
    }

    /// The call that waits until all work queued on the stream is done.
    pub fn synchronize(&self) -> (r: DriverCall)
        ensures
            r == (DriverCall::StreamSynchronize { stream: self.raw_spec() }),
    {
        DriverCall::StreamSynchronize { stream: self.raw }
    }

    /// The calls that give the stream back when it is dropped: it is first
    /// synchronised, then destroyed.
    pub open spec fn release_spec(&self) -> (DriverCall, DriverCall) {
        (
            DriverCall::StreamSynchronize { stream: self.raw_spec() },
            DriverCall::StreamDestroy { stream: self.raw_spec() },
        )
    }

    /// The calls that give the stream back when it is dropped: it is first
    /// synchronised, then destroyed.
    pub fn release(&self) -> (r: (DriverCall, DriverCall))
        ensures
            r == self.release_spec(),
    {
        (self.synchronize(), DriverCall::StreamDestroy { stream: self.raw })
    }

    /// The spore that keeps this stream.
    pub closed spec fn sporulate_spec(self) -> StreamSpore {
        StreamSpore { res: self }
    }

    /// Keeps the stream while its context is switched out.
    pub fn sporulate(self) -> (r: StreamSpore)
        ensures
            r == self.sporulate_spec(),
            r.ctx_spec() == self.ctx_spec(),
            r.raw_spec() == self.raw_spec(),
    {
        StreamSpore { res: self }
    }
}

impl StreamSpore {
    /// The stream that this spore keeps.
    pub closed spec fn sprout_spec(self) -> Stream {
        self.res
    }

    /// The context the spore's resource belongs to.
    pub fn ctx(&self) -> (r: CurrentCtx)
        ensures
            r.raw_spec() == self.ctx_spec(),
    {
        self.res.ctx()
    }

    /// The context the stream was created in.
    pub closed spec fn ctx_spec(&self) -> usize {
        self.res.ctx_spec()
    }

    /// The driver handle of the stream.
    pub closed spec fn raw_spec(&self) -> usize {
        self.res.raw_spec()
    }

    /// The driver handle of the stream.
    pub fn as_raw(&self) -> (r: usize)
        ensures
            r == self.raw_spec(),
    {
        self.res.as_raw()
    }

    /// Turns the spore back into the stream, on the context that created it.
    pub fn sprout(self, ctx: &CurrentCtx) -> (r: Stream)
        requires
            ctx.raw_spec() == self.ctx_spec(),
        ensures
            r == self.sprout_spec(),
    {
        self.res
    }

    /// Lends the stream, on the context that created it.
    pub fn sprout_ref<'a>(&'a self, ctx: &CurrentCtx) -> (r: &'a Stream)
        requires
            ctx.raw_spec() == self.ctx_spec(),
        ensures
            *r == self.sprout_spec(),
    {
        &self.res
    }

    /// Lends the stream for change, on the context that created it.
    pub fn sprout_mut<'a>(&'a mut self, ctx: &CurrentCtx) -> (r: &'a mut Stream)
        requires
            ctx.raw_spec() == old(self).ctx_spec(),
        ensures
            *r == old(self).sprout_spec(),
            final(self).sprout_spec() == *final(r),
    {
        &mut self.res
    }
}

/// A stream is given back by waiting for it and then destroying the very
/// stream the driver created; a stream's spore turns back into the same stream.
pub proof fn law_stream_release_and_spores(ctx: CurrentCtx, created: usize, stream: Stream, spore: StreamSpore)
    ensures
        ctx.stream_spec(created).release_spec() == (
            DriverCall::StreamSynchronize { stream: created },
            DriverCall::StreamDestroy { stream: created },
        ),
        ctx.stream_spec(created).ctx_spec() == ctx.raw_spec(),
        stream.sporulate_spec().sprout_spec() == stream,
        spore.sprout_spec().sporulate_spec() == spore,
{
}

} // verus!

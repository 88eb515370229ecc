//! Devices, contexts and the current context.
use vstd::prelude::*;

use crate::call::{self, DriverCall};
use crate::memory::HostSlice;
use crate::model::{
    applied, apply_work, balanced, lemma_applied, lemma_applied_balanced,
    lemma_no_driver_work_balanced, no_driver_work, perform, primary_count, pushed, Answer,
    DriverModel,
};

verus! {

/// A device, known by its ordinal.
#[derive(Clone, Copy, Debug, PartialEq, Eq, Hash, Structural)]
pub struct Device {
    raw: i32,
}

/// A context that this binding created or retained on a device.
#[derive(Debug, PartialEq, Eq, Hash, Structural)]
pub struct Context {
    ctx: usize,
    dev: i32,
    primary: bool,
}

/// The context that is current on the calling thread.
#[derive(Debug, PartialEq, Eq, Structural)]
pub struct CurrentCtx {
    raw: usize,
}

/// There is no current context.
#[derive(Clone, Copy, PartialEq, Eq, Hash, Debug, Structural)]
pub struct NoCtxError;

/// One step of applying work to a context.
#[derive(Debug, PartialEq, Eq, Structural)]
pub enum ApplyStep {
    /// Make this driver call.
    Call(DriverCall),
    /// Run the work, once, on this current context, and hand its value to
    /// [`ApplyFrame::ran`].
    Run(CurrentCtx),
}

/// Where an [`ApplyFrame`] stands.
#[derive(Debug)]
pub enum ApplyPhase<T> {
    /// The context is still to be pushed.
    Push,
    /// The work is still to be run.
    Run,
    /// The work is running; the frame waits for its value.
    Wait,
    /// The work returned this value; the context is still to be popped.
    Pop(T),
    /// The context has been popped; the popped context is still to be
    /// compared with the pushed one, and then the work's value is returned.
    Check(T),
}

/// Work applied to a context, one step at a time: the context is pushed, the
/// work runs on it once, the context is popped, the popped context must be the
/// pushed one, and the work's value is the result.
#[derive(Debug)]
pub struct ApplyFrame<T> {
    ctx: usize,
    phase: ApplyPhase<T>,
}

impl Device {
    /// The ordinal of the device.
    pub closed spec fn raw_spec(&self) -> i32 {
        self.raw
    }

    /// The device with the given ordinal.
    pub fn new(raw: i32) -> (r: Device)
        ensures
            r.raw_spec() == raw,
    {
        Device { raw }
    }

    /// The ordinal of the device.
    #[verifier::when_used_as_spec(raw_spec)]
    pub fn as_raw(&self) -> (r: i32)
        ensures
            r == self.raw_spec(),
    {
        self.raw
    }

    /// The calls that create a new context on this device: `muCtxCreate_v2`,
    /// whose reply is the new context, then `muCtxPopCurrent_v2`, which takes
    /// the new context off the calling thread again.
    pub open spec fn context_calls_spec(&self) -> (DriverCall, DriverCall) {
        (DriverCall::CtxCreate { flags: call::CTX_CREATE_FLAGS, dev: self.raw_spec() }, DriverCall::CtxPopCurrent)
    }

    /// The calls that create a new context on this device: `muCtxCreate_v2`,
    /// whose reply is the new context, then `muCtxPopCurrent_v2`, which takes
    /// the new context off the calling thread again.
    pub fn context_calls(&self) -> (r: (DriverCall, DriverCall))
        ensures
            r == self.context_calls_spec(),
            r.0 == (DriverCall::CtxCreate { flags: call::CTX_CREATE_FLAGS, dev: self.raw_spec() }),
            r.1 == DriverCall::CtxPopCurrent,
    {
        (DriverCall::CtxCreate { flags: call::CTX_CREATE_FLAGS, dev: self.raw }, DriverCall::CtxPopCurrent)
    }

    /// The context that [`Device::context_calls`] created, given the driver's
    /// reply to the creation: an ordinary (not primary) context of this device.
    pub closed spec fn context_spec(&self, created: usize) -> Context {
        Context { ctx: created, dev: self.raw, primary: false }
    }

    /// The context that [`Device::context_calls`] created, given the driver's
    /// reply to the creation.
    pub fn context(&self, created: usize) -> (r: Context)
        ensures
            r == self.context_spec(created),
            r.ctx_spec() == created,
            r.dev_spec() == self.raw_spec(),
            !r.is_primary_spec(),
    {
        Context { ctx: created, dev: self.raw, primary: false }
    }

    /// The call that retains the primary context of this device.
    pub open spec fn retain_primary_call_spec(&self) -> DriverCall {
        DriverCall::DevicePrimaryCtxRetain { dev: self.raw_spec() }
    }

    /// The call that retains the primary context of this device.
    pub fn retain_primary_call(&self) -> (r: DriverCall)
        ensures
            r == self.retain_primary_call_spec(),
            r == (DriverCall::DevicePrimaryCtxRetain { dev: self.raw_spec() }),
    {
        DriverCall::DevicePrimaryCtxRetain { dev: self.raw }
    }

    /// The primary context of this device, given the driver's reply to
    /// [`Device::retain_primary_call`].
    pub closed spec fn retain_primary_spec(&self, retained: usize) -> Context {
        Context { ctx: retained, dev: self.raw, primary: true }
    }

    /// The primary context of this device, given the driver's reply to
    /// [`Device::retain_primary_call`].
    pub fn retain_primary(&self, retained: usize) -> (r: Context)
        ensures
            r == self.retain_primary_spec(retained),
            r.ctx_spec() == retained,
            r.dev_spec() == self.raw_spec(),
            r.is_primary_spec(),
    {
        Context { ctx: retained, dev: self.raw, primary: true }
    }
}

impl Context {
    /// The driver handle of the context.
    pub closed spec fn ctx_spec(&self) -> usize {
        self.ctx
    }

    /// The device the context belongs to.
    pub closed spec fn dev_spec(&self) -> i32 {
        self.dev
    }

    /// Whether the context is the device's primary context.
    pub closed spec fn is_primary_spec(&self) -> bool {
        self.primary
    }

    /// The driver handle of the context.
    #[verifier::when_used_as_spec(ctx_spec)]
    pub fn as_raw(&self) -> (r: usize)
        ensures
            r == self.ctx_spec(),
    {
        self.ctx
    }

    /// Whether the context is the device's primary context.
    #[verifier::when_used_as_spec(is_primary_spec)]
    pub fn is_primary(&self) -> (r: bool)
        ensures
            r == self.is_primary_spec(),
    {
        self.primary
    }

    /// The device the context belongs to.
    pub fn device(&self) -> (r: Device)
        ensures
            r.raw_spec() == self.dev_spec(),
    {
        Device::new(self.dev)
    }

    /// The call that gives the context back when it is dropped: a primary
    /// context is released on its device, any other context is destroyed.
    pub open spec fn release_spec(&self) -> DriverCall {
        if self.is_primary_spec() {
            DriverCall::DevicePrimaryCtxRelease { dev: self.dev_spec() }
        } else {
            DriverCall::CtxDestroy { ctx: self.ctx_spec() }
        }
    }

    /// The call that gives the context back when it is dropped.
    pub fn release(&self) -> (r: DriverCall)
        ensures
            r == self.release_spec(),
    {
        if self.primary {
            DriverCall::DevicePrimaryCtxRelease { dev: self.dev }
        } else {
            DriverCall::CtxDestroy { ctx: self.ctx }
        }
    }

    /// The frame in which work runs on this context, before its first step.
    pub closed spec fn apply_spec<T>(&self) -> ApplyFrame<T> {
        ApplyFrame { ctx: self.ctx, phase: ApplyPhase::Push }
    }

    /// Opens the frame in which work runs on this context.
    pub fn apply<T>(&self) -> (r: ApplyFrame<T>)
        ensures
            r == self.apply_spec::<T>(),
            r.ctx_spec() == self.ctx_spec(),
    {
        ApplyFrame { ctx: self.ctx, phase: ApplyPhase::Push }
    }
}

impl<T> ApplyFrame<T> {
    /// The context the frame runs work on.
    pub closed spec fn ctx_spec(&self) -> usize {
        self.ctx
    }

    /// Whether the work is running and the frame waits for its value.
    pub closed spec fn waiting(&self) -> bool {
        self.phase is Wait
    }

    /// Whether the context has been popped and the frame waits for the
    /// popped context, to compare it with the pushed one.
    pub closed spec fn checking(&self) -> bool {
        self.phase is Check
    }

    /// The value that the work returned, once it has.
    pub closed spec fn value_spec(&self) -> T {
        match self.phase {
            ApplyPhase::Pop(v) => v,
            ApplyPhase::Check(v) => v,
            _ => arbitrary(),
        }
    }

    /// The frame and the step that come from one step of this frame: the push,
    /// then the run, then nothing until the work's value is in, then the pop,
    /// then nothing until the popped context is in.
    pub closed spec fn step_spec(self) -> (ApplyFrame<T>, Option<ApplyStep>) {
        match self.phase {
            ApplyPhase::Push => (
                ApplyFrame { ctx: self.ctx, phase: ApplyPhase::Run },
                Some(ApplyStep::Call(DriverCall::CtxPushCurrent { ctx: self.ctx })),
            ),
            ApplyPhase::Run => (
                ApplyFrame { ctx: self.ctx, phase: ApplyPhase::Wait },
                Some(ApplyStep::Run(CurrentCtx { raw: self.ctx })),
            ),
            ApplyPhase::Pop(v) => (
                ApplyFrame { ctx: self.ctx, phase: ApplyPhase::Check(v) },
                Some(ApplyStep::Call(DriverCall::CtxPopCurrent)),
            ),
            _ => (self, None),
        }
    }

    /// The frame once the work has returned `value`.
    pub closed spec fn ran_spec(self, value: T) -> ApplyFrame<T> {
        ApplyFrame { ctx: self.ctx, phase: ApplyPhase::Pop(value) }
    }

    /// The next step, or `None` while the frame waits for the work's value or
    /// for the popped context.
    pub fn next(&mut self) -> (r: Option<ApplyStep>)
        ensures
            (*final(self), r) == old(self).step_spec(),
    {
        let mut phase = ApplyPhase::Wait;
        std::mem::swap(&mut phase, &mut self.phase);
        match phase {
            ApplyPhase::Push => {
                self.phase = ApplyPhase::Run;
                Some(ApplyStep::Call(DriverCall::CtxPushCurrent { ctx: self.ctx }))
            },
            ApplyPhase::Run => {
                self.phase = ApplyPhase::Wait;
                Some(ApplyStep::Run(CurrentCtx { raw: self.ctx }))
            },
            ApplyPhase::Pop(v) => {
                self.phase = ApplyPhase::Check(v);
                Some(ApplyStep::Call(DriverCall::CtxPopCurrent))
            },
            other => {
                self.phase = other;
                None
            },
        }
    }

    /// Hands the frame the value that the work returned.
    pub fn ran(&mut self, value: T)
        requires
            old(self).waiting(),
        ensures
            *final(self) == old(self).ran_spec(value),
    {
        self.phase = ApplyPhase::Pop(value);
    }

    /// Whether the context that the closing pop returned is the one the frame
    /// pushed; anything else means the work left the context stack unbalanced.
    pub open spec fn matches_spec(&self, popped: usize) -> bool {
        popped == self.ctx_spec()
    }

    /// Whether the context that the closing pop returned is the one the frame
    /// pushed; anything else means the work left the context stack unbalanced.
    pub fn popped_matches(&self, popped: usize) -> (r: bool)
        ensures
            r == self.matches_spec(popped),
    {
        popped == self.ctx
    }

    /// Closes the frame, given the context that the pop returned, which must
    /// be the one the frame pushed: the result is the work's value.
    pub fn finish(self, popped: usize) -> (r: T)
        requires
            self.checking(),
            self.matches_spec(popped),
        ensures
            r == self.value_spec(),
    {
        match self.phase {
            ApplyPhase::Check(v) => v,
            ApplyPhase::Pop(v) => v,
            _ => {
                // `checking()` rules this arm out.
                loop
                    invariant
                        false,
                    decreases 0nat,
                {
                }
            },
        }
    }
}

impl CurrentCtx {
    /// The driver handle of the current context.
    pub closed spec fn raw_spec(&self) -> usize {
        self.raw
    }

    /// The current context with the given driver handle.
    pub closed spec fn from_raw_spec(raw: usize) -> CurrentCtx {
        CurrentCtx { raw }
    }

    /// Designates `raw` as the current context; the caller answers for it
    /// being the context that is current on the calling thread.
    pub fn from_raw(raw: usize) -> (r: CurrentCtx)
        ensures
            r == Self::from_raw_spec(raw),
            r.raw_spec() == raw,
    {
        CurrentCtx { raw }
    }

    /// The driver handle of the current context.
    #[verifier::when_used_as_spec(raw_spec)]
    pub fn as_raw(&self) -> (r: usize)
        ensures
            r == self.raw_spec(),
    {
        self.raw
    }

    /// The call that asks for the device of the current context.
    pub open spec fn dev_call_spec() -> DriverCall {
        DriverCall::CtxGetDevice
    }

    /// The call that asks for the device of the current context.
    pub fn dev_call(&self) -> (r: DriverCall)
        ensures
            r == Self::dev_call_spec(),
            r == DriverCall::CtxGetDevice,
    {
        DriverCall::CtxGetDevice
    }

    /// The device of the current context, given the driver's reply to
    /// [`CurrentCtx::dev_call`].
    pub fn dev(&self, reported: i32) -> (r: Device)
        ensures
            r.raw_spec() == reported,
    {
        Device::new(reported)
    }

    /// The call that waits for all work on the current context.
    pub fn synchronize(&self) -> (r: DriverCall)
        ensures
            r == DriverCall::CtxSynchronize,
    {
        DriverCall::CtxSynchronize
    }

    /// The call that asks which context is current.
    pub open spec fn current_call_spec() -> DriverCall {
        DriverCall::CtxGetCurrent
    }

    /// The call that asks which context is current.
    pub fn current_call() -> (r: DriverCall)
        ensures
            r == Self::current_call_spec(),
            r == DriverCall::CtxGetCurrent,
    {
        DriverCall::CtxGetCurrent
    }

    /// Runs `f` on the current context, given the driver's reply to
    /// [`CurrentCtx::current_call`]: a null reply means that there is none.
    pub fn apply_current<T, F: FnOnce(&CurrentCtx) -> T>(raw: usize, f: F) -> (r: Result<
        T,
        NoCtxError,
    >)
        requires
            raw != 0 ==> f.requires((&Self::from_raw_spec(raw),)),
        ensures
            r is Ok <==> raw != 0,
            r is Err ==> r == Err::<T, NoCtxError>(NoCtxError),
            forall|v: T| r == Ok::<T, NoCtxError>(v) ==> f.ensures((&Self::from_raw_spec(raw),), v),
    {
        if raw != 0 {
            let current = Self::from_raw(raw);
            Ok(f(&current))
        } else {
            Err(NoCtxError)
        }
    }

    /// Runs `f` on the context `raw`, which the caller answers for being current.
    pub fn apply_current_unchecked<T, F: FnOnce(&CurrentCtx) -> T>(raw: usize, f: F) -> (r: T)
        requires
            f.requires((&Self::from_raw_spec(raw),)),
        ensures
            f.ensures((&Self::from_raw_spec(raw),), r),
    {
        let current = Self::from_raw(raw);
        f(&current)
    }

    /// The call that page-locks the host memory of `slice`: all of its bytes,
    /// from its first address on.
    pub open spec fn lock_page_spec(slice: HostSlice) -> DriverCall {
        DriverCall::MemHostRegister { ptr: slice.ptr, bytes: slice.len, flags: call::HOST_REGISTER_FLAGS }
    }

    /// The call that undoes [`CurrentCtx::lock_page`] on `slice`.
    pub open spec fn unlock_page_spec(slice: HostSlice) -> DriverCall {
        DriverCall::MemHostUnregister { ptr: slice.ptr }
    }

    /// The call that page-locks the host memory of `slice`: all of its bytes,
    /// from its first address on.
    pub fn lock_page(&self, slice: HostSlice) -> (r: DriverCall)
        ensures
            r == Self::lock_page_spec(slice),
            r == (DriverCall::MemHostRegister { ptr: slice.ptr, bytes: slice.len, flags: 0 }),
    {
        DriverCall::MemHostRegister { ptr: slice.ptr, bytes: slice.len, flags: call::HOST_REGISTER_FLAGS }
    }

    /// The call that undoes [`CurrentCtx::lock_page`] on `slice`.
    pub fn unlock_page(&self, slice: HostSlice) -> (r: DriverCall)
        ensures
            r == Self::unlock_page_spec(slice),
    {
        DriverCall::MemHostUnregister { ptr: slice.ptr }
    }
}

/// A context is given back the way it was obtained: one that a device created
/// is destroyed, and a device's primary context is released on that device.
pub proof fn law_release_undoes_creation(dev: Device, created: usize)
    ensures
        dev.context_spec(created).release_spec() == (DriverCall::CtxDestroy { ctx: created }),
        dev.retain_primary_spec(created).release_spec() == (DriverCall::DevicePrimaryCtxRelease {
            dev: dev.raw_spec(),
        }),
{
}

/// Work applied to a context goes in this order, and no other: the context is
/// pushed; the work runs, once, on that context; the frame waits for its
/// value; the context is popped; the frame waits for the popped context,
/// which must be the one pushed; the result is the work's value.
pub proof fn law_apply_order<T>(ctx: Context, value: T, popped: usize)
    ensures
        ctx.apply_spec::<T>().step_spec().1 == Some(
            ApplyStep::Call(DriverCall::CtxPushCurrent { ctx: ctx.ctx_spec() }),
        ),
        ctx.apply_spec::<T>().step_spec().0.step_spec().1 == Some(
            ApplyStep::Run(CurrentCtx::from_raw_spec(ctx.ctx_spec())),
        ),
        ctx.apply_spec::<T>().step_spec().0.step_spec().0.waiting(),
        ctx.apply_spec::<T>().step_spec().0.step_spec().0.step_spec() == (
            ctx.apply_spec::<T>().step_spec().0.step_spec().0,
            None::<ApplyStep>,
        ),
        ctx.apply_spec::<T>().step_spec().0.step_spec().0.ran_spec(value).step_spec().1 == Some(
            ApplyStep::Call(DriverCall::CtxPopCurrent),
        ),
        ctx.apply_spec::<T>().step_spec().0.step_spec().0.ran_spec(value).step_spec().0.checking(),
        ctx.apply_spec::<T>().step_spec().0.step_spec().0.ran_spec(value).step_spec().0.step_spec()
            == (
            ctx.apply_spec::<T>().step_spec().0.step_spec().0.ran_spec(value).step_spec().0,
            None::<ApplyStep>,
        ),
        ctx.apply_spec::<T>().step_spec().0.step_spec().0.ran_spec(value).step_spec().0.value_spec()
            == value,
        ctx.apply_spec::<T>().step_spec().0.step_spec().0.ran_spec(value).step_spec().0.matches_spec(
            popped,
        ) <==> popped == ctx.ctx_spec(),
{
}

/// Unlocking a slice unregisters the very address that locking it registered.
pub proof fn law_unlock_undoes_lock(slice: HostSlice)
    ensures
        CurrentCtx::lock_page_spec(slice) matches DriverCall::MemHostRegister { ptr, .. }
            && CurrentCtx::unlock_page_spec(slice) == (DriverCall::MemHostUnregister { ptr }),
{
}

/// Under the driver's documented behaviour, an apply restores the stack it
/// finds: when the work run inside it (pushed by the frame's first step,
/// popped by its last, see [`law_apply_order`]) leaves the stack as it found
/// it, the pop answers the applied context, which the frame accepts, and the
/// stack is back as before the push.  An apply of such work is such work
/// itself, so this holds of nested applies too.
pub proof fn law_apply_restores_stack<T>(ctx: Context, work: spec_fn(DriverModel) -> DriverModel, s: DriverModel)
    requires
        balanced(work),
    ensures
        applied(ctx.ctx_spec(), work, s).1 == Answer::Handle(ctx.ctx_spec()),
        ctx.apply_spec::<T>().matches_spec(ctx.ctx_spec()),
        applied(ctx.ctx_spec(), work, s).0.stack == s.stack,
        balanced(apply_work(ctx.ctx_spec(), work)),
{
    lemma_applied(ctx.ctx_spec(), work, s);
    lemma_applied_balanced(ctx.ctx_spec(), work);
}

/// Under the driver's documented behaviour, the current-context query made
/// inside an apply, after balanced work (such as nested applies), answers the
/// applied context: the same context the frame hands the work.  For a
/// context with a non-null handle (every context the driver hands out),
/// [`CurrentCtx::apply_current`] on that answer is therefore `Ok`.
pub proof fn law_current_inside_apply(ctx: Context, work: spec_fn(DriverModel) -> DriverModel, s: DriverModel)
    requires
        balanced(work),
    ensures
        perform(work(pushed(s, ctx.ctx_spec())), CurrentCtx::current_call_spec(), 0).1 == Answer::Handle(
            ctx.ctx_spec(),
        ),
        perform(work(pushed(s, ctx.ctx_spec())), CurrentCtx::current_call_spec(), 0).0 == work(
            pushed(s, ctx.ctx_spec()),
        ),
{
    lemma_applied(ctx.ctx_spec(), work, s);
}

/// The state after a device created a context with handle `fresh` and the
/// creation's pop.
pub open spec fn after_context(dev: Device, fresh: usize, s: DriverModel) -> DriverModel {
    perform(perform(s, dev.context_calls_spec().0, fresh).0, dev.context_calls_spec().1, 0).0
}

/// The state after a device retained its primary context with handle `fresh`.
pub open spec fn after_retain(dev: Device, fresh: usize, s: DriverModel) -> DriverModel {
    perform(s, dev.retain_primary_call_spec(), fresh).0
}

/// Under the driver's documented behaviour, the device query made inside an
/// apply of a context that a device created or retained, after balanced
/// work, answers that device, which is also the context's own device; the
/// query leaves the state alone, and creating a context leaves the stack as
/// it was.
pub proof fn law_device_query(dev: Device, fresh: usize, s: DriverModel, work: spec_fn(DriverModel) -> DriverModel)
    requires
        balanced(work),
    ensures
        after_context(dev, fresh, s).stack == s.stack,
        perform(
            work(pushed(after_context(dev, fresh, s), dev.context_spec(fresh).ctx_spec())),
            CurrentCtx::dev_call_spec(),
            0,
        ).1 == Answer::Int(dev.raw_spec()),
        dev.context_spec(fresh).dev_spec() == dev.raw_spec(),
        perform(
            work(pushed(after_retain(dev, fresh, s), dev.retain_primary_spec(fresh).ctx_spec())),
            CurrentCtx::dev_call_spec(),
            0,
        ).1 == Answer::Int(dev.raw_spec()),
        dev.retain_primary_spec(fresh).dev_spec() == dev.raw_spec(),
        forall|t: DriverModel| perform(t, CurrentCtx::dev_call_spec(), 0).0 == t,
{
    let s1 = perform(s, dev.context_calls_spec().0, fresh).0;
    assert(s1.stack.drop_last() =~= s.stack);
    let s2 = after_context(dev, fresh, s);
    assert(s2.device_of.contains_key(fresh) && s2.device_of[fresh] == dev.raw_spec());
    lemma_applied(fresh, work, s2);
    let p2 = pushed(s2, fresh);
    assert(p2.device_of == s2.device_of);
    assert(work(p2).device_of.contains_key(fresh));
    let s3 = after_retain(dev, fresh, s);
    lemma_applied(fresh, work, s3);
    let p3 = pushed(s3, fresh);
    assert(p3.device_of == s3.device_of);
    assert(work(p3).device_of.contains_key(fresh));
}

/// Under the driver's documented behaviour, an apply of `outer` whose work
/// applies `inner` (with work that makes no driver call) and then asks for the
/// current context gets, in order: the inner pop answering `inner`, the query
/// answering `outer`, a non-null answer wherever `outer`'s handle is non-null
/// (so that [`CurrentCtx::apply_current`] is `Ok`), and the outer pop
/// answering `outer` with the stack back as it was found.
pub proof fn law_nested_apply(outer: Context, inner: Context, s: DriverModel)
    ensures
        applied(inner.ctx_spec(), no_driver_work(), pushed(s, outer.ctx_spec())).1 == Answer::Handle(
            inner.ctx_spec(),
        ),
        perform(
            apply_work(inner.ctx_spec(), no_driver_work())(pushed(s, outer.ctx_spec())),
            CurrentCtx::current_call_spec(),
            0,
        ).1 == Answer::Handle(outer.ctx_spec()),
        outer.ctx_spec() != 0 ==> perform(
            apply_work(inner.ctx_spec(), no_driver_work())(pushed(s, outer.ctx_spec())),
            CurrentCtx::current_call_spec(),
            0,
        ).1 != Answer::Handle(0),
        applied(outer.ctx_spec(), apply_work(inner.ctx_spec(), no_driver_work()), s).1 == Answer::Handle(
            outer.ctx_spec(),
        ),
        applied(outer.ctx_spec(), apply_work(inner.ctx_spec(), no_driver_work()), s).0.stack == s.stack,
{
    lemma_no_driver_work_balanced();
    let p = pushed(s, outer.ctx_spec());
    lemma_applied(inner.ctx_spec(), no_driver_work(), p);
    lemma_applied_balanced(inner.ctx_spec(), no_driver_work());
    lemma_applied(outer.ctx_spec(), apply_work(inner.ctx_spec(), no_driver_work()), s);
    assert(apply_work(inner.ctx_spec(), no_driver_work())(p).stack == p.stack);
}

/// Under the driver's documented behaviour, retaining a device's primary
/// context counts one more retain, and dropping the retained context releases
/// it, which brings the count back to what it was; in particular a primary
/// context that no one had retained is inactive again.
pub proof fn law_release_restores_primary_count(dev: Device, fresh: usize, s: DriverModel)
    ensures
        primary_count(perform(s, dev.retain_primary_call_spec(), fresh).0, dev.raw_spec())
            == primary_count(s, dev.raw_spec()) + 1,
        perform(
            perform(s, dev.retain_primary_call_spec(), fresh).0,
            dev.retain_primary_spec(fresh).release_spec(),
            0,
        ).1 == Answer::Done,
        primary_count(
            perform(
                perform(s, dev.retain_primary_call_spec(), fresh).0,
                dev.retain_primary_spec(fresh).release_spec(),
                0,
            ).0,
            dev.raw_spec(),
        ) == primary_count(s, dev.raw_spec()),
{
}

/// Under the driver's documented behaviour, locking the pages of a slice that
/// is not locked adds its range, and unlocking the slice then removes it
/// again: the set of locked ranges is back as it was.
pub proof fn law_unlock_restores_locked(slice: HostSlice, s: DriverModel)
    requires
        !s.locked.contains_key(slice.ptr),
    ensures
        perform(s, CurrentCtx::lock_page_spec(slice), 0).1 == Answer::Done,
        perform(s, CurrentCtx::lock_page_spec(slice), 0).0.locked == s.locked.insert(slice.ptr, slice.len),
        perform(perform(s, CurrentCtx::lock_page_spec(slice), 0).0, CurrentCtx::unlock_page_spec(slice), 0).1
            == Answer::Done,
        perform(perform(s, CurrentCtx::lock_page_spec(slice), 0).0, CurrentCtx::unlock_page_spec(slice), 0).0.locked
            == s.locked,
{
    assert(s.locked.insert(slice.ptr, slice.len).remove(slice.ptr) =~= s.locked);
}

/// Page-locking registers exactly the slice, from its first address and for
/// all its bytes, with the flag word 0 whatever the slice: no slice, of any
/// size or address, is registered read-only or with any other option, and
/// two slices are registered with the same flags.
pub proof fn law_lock_page_registers_plainly(slice: HostSlice, other: HostSlice)
    ensures
        CurrentCtx::lock_page_spec(slice) == (DriverCall::MemHostRegister {
            ptr: slice.ptr,
            bytes: slice.len,
            flags: 0,
        }),
        CurrentCtx::lock_page_spec(slice) matches DriverCall::MemHostRegister { flags: f1, .. }
            && CurrentCtx::lock_page_spec(other) matches DriverCall::MemHostRegister { flags: f2, .. }
            && f1 == f2,
        CurrentCtx::unlock_page_spec(slice) == (DriverCall::MemHostUnregister { ptr: slice.ptr }),
{
}

} // verus!

//! A driver binding for MUSA devices, written so that every decision it takes
//! is verified: which driver call each operation makes, with which arguments,
//! and what it makes of the driver's reply.  The calls themselves are performed
//! by the caller (see [`call::DriverCall`]).
use vstd::prelude::*;

pub mod call;
pub mod context;
pub mod event;
pub mod memory;
pub mod model;
pub mod stream;

use crate::call::DriverCall;

pub use crate::context::{Context, CurrentCtx, Device, NoCtxError};

verus! {

/// What the driver answered to a call, as far as the library tells answers apart.
#[derive(Clone, Copy, Debug, PartialEq, Eq, Structural)]
pub enum DriverStatus {
    /// `MUSA_SUCCESS`.
    Success,
    /// `MUSA_ERROR_NO_DEVICE`.
    NoDevice,
    /// Any other error code.
    Failed(u32),
}

impl DriverStatus {
    /// What a result code of the driver means.
    pub open spec fn from_code_spec(code: u32) -> DriverStatus {
        if code == call::MUSA_SUCCESS {
            DriverStatus::Success
        } else if code == call::MUSA_ERROR_NO_DEVICE {
            DriverStatus::NoDevice
        } else {
            DriverStatus::Failed(code)
        }
    }

    /// What a result code of the driver means: success, no device, or
    /// another failure with that code.
    pub fn from_code(code: u32) -> (r: DriverStatus)
        ensures
            r == Self::from_code_spec(code),
            r == DriverStatus::Success <==> code == 0,
            r == DriverStatus::NoDevice <==> code == 100,
            code != 0 && code != 100 ==> r == DriverStatus::Failed(code),
    {
        if code == call::MUSA_SUCCESS {
            DriverStatus::Success
        } else if code == call::MUSA_ERROR_NO_DEVICE {
            DriverStatus::NoDevice
        } else {
            DriverStatus::Failed(code)
        }
    }
}

/// The driver found no device.
#[derive(Clone, Copy, Debug, PartialEq, Eq, Hash, Structural)]
pub struct NoDevice;

/// The call that initialises the driver: `muInit(0)`.
pub fn init() -> (r: DriverCall)
    ensures
        r == (DriverCall::Init { flags: call::INIT_FLAGS }),
{
    DriverCall::Init { flags: call::INIT_FLAGS }
}

/// What initialisation comes to, given the driver's answer to [`init`]:
/// `Ok` on success, `Err(NoDevice)` when the driver has no device.
/// Any other answer is a driver fault, which the binding does not continue past.
pub fn init_outcome(status: DriverStatus) -> (r: Result<(), NoDevice>)
    requires
        !(status is Failed),
    ensures
        status == DriverStatus::Success ==> r == Ok::<(), NoDevice>(()),
        status == DriverStatus::NoDevice ==> r == Err::<(), NoDevice>(NoDevice),
{
    match status {
        DriverStatus::Success => Ok(()),
        _ => Err(NoDevice),
    }
}

/// The call that asks for the driver version; its reply is the version.
pub fn version() -> (r: DriverCall)
    ensures
        r == DriverCall::DriverGetVersion,
{
    DriverCall::DriverGetVersion
}

/// The call that asks for the number of devices; its reply is the count.
pub fn device_count() -> (r: DriverCall)
    ensures
        r == DriverCall::DeviceGetCount,
{
    DriverCall::DeviceGetCount
}

/// A driver result code means success only when it is `MUSA_SUCCESS` (0) and
/// no device only when it is `MUSA_ERROR_NO_DEVICE` (100); every other code
/// is a failure that carries that code, and distinct failing codes stay
/// distinct.  So initialisation is `Ok` only on code 0 and reports
/// `NoDevice` only on code 100.
pub proof fn law_status_codes(code: u32, other: u32)
    ensures
        DriverStatus::from_code_spec(code) == DriverStatus::Success <==> code == 0,
        DriverStatus::from_code_spec(code) == DriverStatus::NoDevice <==> code == 100,
        code != 0 && code != 100 ==> DriverStatus::from_code_spec(code) == DriverStatus::Failed(code),
        DriverStatus::from_code_spec(code) is Failed <==> (code != 0 && code != 100),
        DriverStatus::from_code_spec(code) == DriverStatus::from_code_spec(other) ==> code == other,
{
}

} // verus!

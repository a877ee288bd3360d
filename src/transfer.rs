use vstd::prelude::*;

use crate::error::I2cError;

verus! {

/// A timeout, in ticks, that makes a native call wait for as long as it takes.
pub const BLOCK: u32 = 0xffff_ffff;

/// The timeout argument of the native calls: the tick count read as a signed
/// 32-bit number, so that `BLOCK` becomes -1.
pub open spec fn native_timeout_spec(timeout: u32) -> i32 {
    if timeout <= 0x7fff_ffff {
        timeout as i32
    } else {
        (timeout - 0x1_0000_0000) as i32
    }
}

pub fn native_timeout(timeout: u32) -> (r: i32)
    ensures
        r == native_timeout_spec(timeout),
{
    if timeout <= 0x7fff_ffff {
        timeout as i32
    } else {
        (timeout as i64 - 0x1_0000_0000i64) as i32
    }
}

/// A transfer with one device, by the lengths of its buffers.
#[derive(PartialEq, Eq, Structural, Clone, Copy, Debug)]
pub enum Request {
    Read { len: usize },
    Write { len: usize },
    WriteRead { out_len: usize, in_len: usize },
}

/// One call into the native driver, as the library asks for it. Handles are the
/// native handles, carried as opaque numbers.
#[derive(PartialEq, Eq, Structural, Clone, Copy, Debug)]
pub enum NativeCall {
    Receive { device: u64, len: usize, timeout: i32 },
    Transmit { device: u64, len: usize, timeout: i32 },
    TransmitReceive { device: u64, out_len: usize, in_len: usize, timeout: i32 },
    Probe { bus: u64, address: u16, timeout: i32 },
    SlaveReceive { device: u64, len: usize },
    SlaveTransmit { device: u64, count: i32, timeout: i32 },
}

/// The native call that carries out `request` on the device with handle `device`.
pub open spec fn call_spec(device: u64, request: Request, timeout: u32) -> NativeCall {
    match request {
        Request::Read { len } => NativeCall::Receive { device, len, timeout: native_timeout_spec(timeout) },
        Request::Write { len } => NativeCall::Transmit { device, len, timeout: native_timeout_spec(timeout) },
        Request::WriteRead { out_len, in_len } => NativeCall::TransmitReceive {
            device,
            out_len,
            in_len,
            timeout: native_timeout_spec(timeout),
        },
    }
}

pub fn call_for(device: u64, request: Request, timeout: u32) -> (r: NativeCall)
    ensures
        r == call_spec(device, request, timeout),
{
    let t = native_timeout(timeout);
    match request {
        Request::Read { len } => NativeCall::Receive { device, len, timeout: t },
        Request::Write { len } => NativeCall::Transmit { device, len, timeout: t },
        Request::WriteRead { out_len, in_len } => NativeCall::TransmitReceive { device, out_len, in_len, timeout: t },
    }
}

/// Where an asynchronous transfer stands.
#[derive(PartialEq, Eq, Structural, Clone, Copy, Debug)]
pub enum Phase {
    /// No transfer.
    Idle,
    /// Waiting for the bus lock; the native call to make once it is held.
    Acquiring(NativeCall),
    /// Lock held; the completion callback is being registered.
    Arming(NativeCall),
    /// Callback registered; the native call is being made.
    Issuing,
    /// The native call was accepted; waiting for the completion interrupt.
    Awaiting,
    /// Completion seen; the callback is being unregistered.
    Disarming,
    /// The native call failed; the callback is being unregistered before the error is returned.
    RollingBack(I2cError),
}

/// What the code that runs a transfer reports back to the library.
#[derive(PartialEq, Eq, Structural, Clone, Copy, Debug)]
pub enum Event {
    /// The caller asks for a transfer.
    Start(Request, u32),
    /// The task woke after the bus lock was released.
    Retry,
    /// The status of registering the completion callback.
    Registered(i32),
    /// The status of the native call.
    Issued(i32),
    /// The task woke after the completion interrupt may have fired.
    Woken,
    /// The status of unregistering the completion callback.
    Unregistered(i32),
}

/// What the code that runs a transfer is to do next.
#[derive(PartialEq, Eq, Structural, Clone, Copy, Debug)]
pub enum Action {
    /// Suspend until the bus lock is released, then report `Retry`.
    Yield,
    /// Register the completion callback with the port's notifier, then report `Registered`.
    Register,
    /// Make the native call, then report `Issued`.
    Issue(NativeCall),
    /// Suspend until the port's notifier is signaled, then report `Woken`.
    Wait,
    /// Unregister the completion callback, then report `Unregistered`.
    Unregister,
    /// The transfer is over and succeeded.
    Done,
    /// The transfer is over and failed with this error.
    Failed(I2cError),
    /// A callback that cannot be unregistered leaves the driver unusable: stop.
    Fatal(I2cError),
    /// The event does not fit the transfer's phase; nothing changed.
    Ignored,
}

/// The action that ends a transfer with `result`.
pub open spec fn finish(result: Result<(), I2cError>) -> Action {
    match result {
        Ok(()) => Action::Done,
        Err(e) => Action::Failed(e),
    }
}

} // verus!

//! Asynchronous I2C transfers over an interrupt-driven native driver, as verified
//! state machines: a shared bus lock, a per-port completion notifier, and the
//! arm / issue / await / disarm protocol of each transfer. The native calls
//! themselves are made by the caller, who reports their outcome back.
use vstd::prelude::*;

pub mod blocking;
pub mod bus;
pub mod config;
pub mod device;
pub mod error;
pub mod notifier;
pub mod owned;
pub mod slave;
pub mod transfer;

verus! {

} // verus!

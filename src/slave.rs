use vstd::prelude::*;

use crate::error::{I2cError, ESP_OK};
use crate::notifier::Notifier;
use crate::transfer::{native_timeout, native_timeout_spec, Action, Event, NativeCall, Phase};

verus! {

/// The native code for an operation the driver does not offer.
pub const ESP_ERR_NOT_SUPPORTED: i32 = 0x106;

/// The peripheral in slave mode. The receive callback is armed for the driver's
/// whole lifetime; an asynchronous receive issues the native call and waits for
/// the port's notifier. Transmitting is one blocking native call.
pub struct I2cSlaveDriver {
    pub i2c: u8,
    pub handle: u64,
    pub notifier: Notifier,
    pub phase: Phase,
}

impl I2cSlaveDriver {
    /// The notifier is the port's and armed; a signal is held only while a receive
    /// has been asked for.
    pub open spec fn wf(&self) -> bool {
        &&& self.notifier.wf()
        &&& self.notifier.port == self.i2c
        &&& self.notifier.armed
        &&& self.notifier.signaled ==> !(self.phase is Idle)
        &&& (self.phase is Idle || self.phase is Issuing || self.phase is Awaiting)
    }

    /// The slave on `port` with native handle `handle`; arms the port's notifier.
    pub fn new(port: u8, handle: u64, notifier: Notifier) -> (r: I2cSlaveDriver)
        requires
            notifier.wf(),
            notifier.port == port,
            !notifier.armed,
            !notifier.signaled,
        ensures
            r.wf(),
            r.i2c == port,
            r.handle == handle,
            r.phase == Phase::Idle,
    {
        let mut n = notifier;
        n.arm();
        I2cSlaveDriver { i2c: port, handle, notifier: n, phase: Phase::Idle }
    }

    pub fn port(&self) -> (r: u8)
        ensures
            r == self.i2c,
    {
        self.i2c
    }

    /// Blocking receive is not offered: no way to wait for a receive without a task
    /// exists, so this always fails, and no native call is made.
    pub fn read(&mut self, buffer: &mut [u8], _timeout: u32) -> (r: Result<usize, I2cError>)
        ensures
            r == Err::<usize, I2cError>(I2cError { code: ESP_ERR_NOT_SUPPORTED }),
            *final(self) == *old(self),
            final(buffer)@ == old(buffer)@,
    {
        Err(I2cError::from_code(ESP_ERR_NOT_SUPPORTED))
    }

    /// Starts an asynchronous receive into `buffer`; continue it with `step`.
    pub fn async_read(&mut self, buffer: &mut [u8]) -> (r: Action)
        requires
            old(self).wf(),
        ensures
            final(self).wf(),
            final(buffer)@ == old(buffer)@,
            old(self).phase is Idle ==> r == Action::Issue(NativeCall::SlaveReceive {
                device: old(self).handle,
                len: old(buffer)@.len() as usize,
            }) && final(self).phase == Phase::Issuing && final(self).notifier == old(self).notifier,
            !(old(self).phase is Idle) ==> r == Action::Ignored && *final(self) == *old(self),
    {
        if matches!(self.phase, Phase::Idle) {
            self.phase = Phase::Issuing;
            Action::Issue(NativeCall::SlaveReceive { device: self.handle, len: buffer.len() })
        } else {
            Action::Ignored
        }
    }

    /// Advances a receive by one event: a failed native call ends it with its
    /// error; else it waits until the notifier holds the signal and takes it.
    pub fn step(&mut self, event: Event) -> (r: Action)
        requires
            old(self).wf(),
        ensures
            final(self).wf(),
            final(self).i2c == old(self).i2c,
            final(self).handle == old(self).handle,
            match (old(self).phase, event) {
                (Phase::Issuing, Event::Issued(code)) => if code == ESP_OK {
                    r == Action::Wait && final(self).phase == Phase::Awaiting && final(self).notifier
                        == old(self).notifier
                } else {
                    &&& r == Action::Failed(I2cError { code })
                    &&& final(self).phase == Phase::Idle
                    &&& final(self).notifier.returned == old(self).notifier.returned
                },
                (Phase::Awaiting, Event::Woken) => if old(self).notifier.signaled {
                    &&& r == Action::Done
                    &&& final(self).phase == Phase::Idle
                    &&& old(self).notifier.consumed_as(final(self).notifier)
                } else {
                    r == Action::Wait && *final(self) == *old(self)
                },
                _ => r == Action::Ignored && *final(self) == *old(self),
            },
    {
        match (self.phase, event) {
            (Phase::Issuing, Event::Issued(code)) => {
                if code == ESP_OK {
                    self.phase = Phase::Awaiting;
                    Action::Wait
                } else {
                    self.notifier.discard();
                    self.phase = Phase::Idle;
                    Action::Failed(I2cError::from_code(code))
                }
            },
            (Phase::Awaiting, Event::Woken) => {
                if self.notifier.poll() {
                    self.phase = Phase::Idle;
                    Action::Done
                } else {
                    Action::Wait
                }
            },
            _ => Action::Ignored,
        }
    }

    /// The receive interrupt fired; the signal is taken only while a receive was asked for.
    pub fn on_interrupt(&mut self) -> (r: bool)
        requires
            old(self).wf(),
        ensures
            final(self).wf(),
            r == (!(old(self).phase is Idle) && !old(self).notifier.signaled),
            final(self).phase == old(self).phase,
            final(self).notifier.signaled == (old(self).notifier.signaled || r),
    {
        if matches!(self.phase, Phase::Idle) {
            false
        } else {
            self.notifier.notify()
        }
    }

    /// The blocking native call that sends `bytes`; a buffer longer than the native
    /// length type can count is refused as an invalid argument.
    pub fn write(&mut self, bytes: &[u8], timeout: u32) -> (r: Result<NativeCall, I2cError>)
        ensures
            *final(self) == *old(self),
            r.is_ok() <==> bytes@.len() <= i32::MAX,
            r matches Ok(c) ==> c == (NativeCall::SlaveTransmit {
                device: old(self).handle,
                count: bytes@.len() as i32,
                timeout: native_timeout_spec(timeout),
            }),
            r matches Err(e) ==> e == I2cError::invalid_argument_spec(),
    {
        if bytes.len() > 0x7fff_ffff {
            return Err(I2cError::invalid_argument());
        }
        Ok(NativeCall::SlaveTransmit { device: self.handle, count: bytes.len() as i32, timeout: native_timeout(timeout) })
    }

    /// Disarms the notifier and hands it back, once no receive is under way.
    pub fn release(self) -> (r: Notifier)
        requires
            self.wf(),
            self.phase == Phase::Idle,
        ensures
            r.wf(),
            r.port == self.i2c,
            !r.armed,
    {
        let mut n = self.notifier;
        n.disarm();
        n
    }
}

} // verus!

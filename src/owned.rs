use vstd::prelude::*;

use crate::bus::AsyncI2cDriver;
use crate::config::{device_config_ok, DeviceConfig};
use crate::notifier::Notifier;
use crate::error::{I2cError, ESP_ERR_NO_MEM, ESP_OK};
use crate::transfer::{call_for, call_spec, Action, Event, Phase, Request};

verus! {

/// A device that owns its bus. The completion callback is armed when it is made and
/// stays armed until it is released, so a transfer only issues the native call and
/// waits; no lock is taken, since no other device can reach the bus.
pub struct OwnedAsyncI2cDeviceDriver {
    pub driver: AsyncI2cDriver,
    pub id: u64,
    pub handle: u64,
    pub phase: Phase,
}

impl OwnedAsyncI2cDeviceDriver {
    pub open spec fn wf(&self) -> bool {
        &&& self.driver.base_wf()
        &&& self.driver.holder.is_none()
        &&& self.driver.notifier.armed
        &&& self.driver.devices == 1
        &&& match self.phase {
            Phase::Idle => self.driver.pending.is_none(),
            Phase::Issuing | Phase::Awaiting => self.driver.pending == Some(self.id),
            _ => false,
        }
    }

    /// A new bus on `port` (native handle `bus_handle`, the port's notifier) moved
    /// into a device with native handle `device_handle`; fails as `wrap` does.
    pub fn new(
        port: u8,
        bus_handle: u64,
        notifier: Notifier,
        device_config: &DeviceConfig,
        device_handle: u64,
    ) -> (r: Result<OwnedAsyncI2cDeviceDriver, I2cError>)
        requires
            notifier.wf(),
            notifier.port == port,
            !notifier.armed,
        ensures
            r.is_ok() <==> device_config_ok(*device_config),
            r matches Ok(d) ==> d.wf() && d.handle == device_handle && d.phase == Phase::Idle
                && d.driver.port == port && d.driver.handle == bus_handle,
            r matches Err(e) ==> e == I2cError::invalid_argument_spec(),
    {
        let driver = AsyncI2cDriver::new(port, bus_handle, notifier);
        OwnedAsyncI2cDeviceDriver::wrap(driver, device_config, device_handle)
    }

    /// Attaches a device with native handle `handle` to `driver` and arms the
    /// callback; fails when the configuration is refused (a clock above 1 MHz).
    pub fn wrap(driver: AsyncI2cDriver, device_config: &DeviceConfig, handle: u64) -> (r: Result<
        OwnedAsyncI2cDeviceDriver,
        I2cError,
    >)
        requires
            driver.wf(),
            driver.holder.is_none(),
            driver.devices == 0,
        ensures
            r.is_ok() <==> device_config_ok(*device_config) && driver.next_device < u64::MAX,
            r matches Ok(d) ==> d.wf() && d.handle == handle && d.phase == Phase::Idle && d.driver.port
                == driver.port && d.driver.handle == driver.handle && d.driver.notifier.armed,
            r matches Err(e) ==> (!device_config_ok(*device_config) ==> e == I2cError::invalid_argument_spec())
                && (device_config_ok(*device_config) ==> e.code == ESP_ERR_NO_MEM),
    {
        let mut driver = driver;
        let id = driver.attach(device_config)?;
        driver.notifier.arm();
        Ok(OwnedAsyncI2cDeviceDriver { driver, id, handle, phase: Phase::Idle })
    }

    /// Disarms the callback and gives the bus back, free for new devices.
    pub fn release(self) -> (r: AsyncI2cDriver)
        requires
            self.wf(),
            self.phase == Phase::Idle,
        ensures
            r.wf(),
            r.port == self.driver.port,
            r.handle == self.driver.handle,
            r.holder.is_none(),
            r.pending.is_none(),
            r.devices == 0,
            !r.notifier.armed,
    {
        let mut driver = self.driver;
        driver.notifier.disarm();
        driver.devices = 0;
        driver
    }

    /// The completion interrupt of the port fired; see `AsyncI2cDriver::on_interrupt`.
    pub fn on_interrupt(&mut self) -> (r: bool)
        requires
            old(self).wf(),
        ensures
            final(self).wf(),
            r == (old(self).driver.pending.is_some() && !old(self).driver.notifier.signaled),
            final(self).phase == old(self).phase,
            final(self).driver.notifier.signaled == (old(self).driver.notifier.signaled || r),
    {
        self.driver.on_interrupt()
    }

    /// Starts a transfer that fills `buffer`; continue it with `step`.
    pub fn read(&mut self, buffer: &mut [u8], timeout: u32) -> (r: Action)
        requires
            old(self).wf(),
        ensures
            final(self).wf(),
            final(buffer)@ == old(buffer)@,
            old(self).phase is Idle ==> r == Action::Issue(call_spec(old(self).handle, Request::Read { len: old(buffer)@.len() as usize }, timeout))
                && final(self).phase == Phase::Issuing,
            !(old(self).phase is Idle) ==> r == Action::Ignored && *final(self) == *old(self),
    {
        self.step(Event::Start(Request::Read { len: buffer.len() }, timeout))
    }

    /// Starts a transfer that sends `bytes`; continue it with `step`.
    pub fn write(&mut self, bytes: &[u8], timeout: u32) -> (r: Action)
        requires
            old(self).wf(),
        ensures
            final(self).wf(),
            old(self).phase is Idle ==> r == Action::Issue(call_spec(old(self).handle, Request::Write { len: bytes@.len() as usize }, timeout))
                && final(self).phase == Phase::Issuing,
            !(old(self).phase is Idle) ==> r == Action::Ignored && *final(self) == *old(self),
    {
        self.step(Event::Start(Request::Write { len: bytes.len() }, timeout))
    }

    /// Starts a transfer that sends `bytes` and then fills `buffer`; continue it with `step`.
    pub fn write_read(&mut self, bytes: &[u8], buffer: &mut [u8], timeout: u32) -> (r: Action)
        requires
            old(self).wf(),
        ensures
            final(self).wf(),
            final(buffer)@ == old(buffer)@,
            old(self).phase is Idle ==> r == Action::Issue(
                call_spec(old(self).handle, Request::WriteRead { out_len: bytes@.len() as usize, in_len: old(buffer)@.len() as usize }, timeout),
            ) && final(self).phase == Phase::Issuing,
            !(old(self).phase is Idle) ==> r == Action::Ignored && *final(self) == *old(self),
    {
        self.step(Event::Start(Request::WriteRead { out_len: bytes.len(), in_len: buffer.len() }, timeout))
    }

    /// Advances a transfer by one event: issue the native call, then wait until
    /// the notifier holds the signal and take it. A failed call ends the transfer
    /// with its error; the callback stays armed either way.
    pub fn step(&mut self, event: Event) -> (r: Action)
        requires
            old(self).wf(),
        ensures
            final(self).wf(),
            final(self).id == old(self).id,
            final(self).handle == old(self).handle,
            final(self).driver.port == old(self).driver.port,
            final(self).driver.handle == old(self).driver.handle,
            final(self).driver.notifier.accepted == old(self).driver.notifier.accepted,
            match (old(self).phase, event) {
                (Phase::Idle, Event::Start(req, t)) => {
                    &&& r == Action::Issue(call_spec(old(self).handle, req, t))
                    &&& final(self).phase == Phase::Issuing
                    &&& final(self).driver.notifier.returned == old(self).driver.notifier.returned
                },
                (Phase::Issuing, Event::Issued(code)) => if code == ESP_OK {
                    &&& r == Action::Wait
                    &&& final(self).phase == Phase::Awaiting
                    &&& final(self).driver.notifier == old(self).driver.notifier
                } else {
                    &&& r == Action::Failed(I2cError { code })
                    &&& final(self).phase == Phase::Idle
                    &&& !final(self).driver.notifier.signaled
                    &&& final(self).driver.notifier.returned == old(self).driver.notifier.returned
                },
                (Phase::Awaiting, Event::Woken) => if old(self).driver.notifier.signaled {
                    &&& r == Action::Done
                    &&& final(self).phase == Phase::Idle
                    &&& old(self).driver.notifier.consumed_as(final(self).driver.notifier)
                } else {
                    &&& r == Action::Wait
                    &&& *final(self) == *old(self)
                },
                _ => r == Action::Ignored && *final(self) == *old(self),
            },
    {
        match (self.phase, event) {
            (Phase::Idle, Event::Start(req, t)) => {
                let call = call_for(self.handle, req, t);
                self.driver.pending = Some(self.id);
                self.phase = Phase::Issuing;
                Action::Issue(call)
            },
            (Phase::Issuing, Event::Issued(code)) => {
                if code == ESP_OK {
                    self.phase = Phase::Awaiting;
                    Action::Wait
                } else {
                    self.driver.notifier.discard();
                    self.driver.pending = None;
                    self.phase = Phase::Idle;
                    Action::Failed(I2cError::from_code(code))
                }
            },
            (Phase::Awaiting, Event::Woken) => {
                if self.driver.notifier.poll() {
                    self.driver.pending = None;
                    self.phase = Phase::Idle;
                    Action::Done
                } else {
                    Action::Wait
                }
            },
            _ => Action::Ignored,
        }
    }
}

impl AsyncI2cDriver {
    /// Moves the bus into a device that owns it; see `OwnedAsyncI2cDeviceDriver::wrap`.
    pub fn owned_device(self, config: &DeviceConfig, handle: u64) -> (r: Result<OwnedAsyncI2cDeviceDriver, I2cError>)
        requires
            self.wf(),
            self.holder.is_none(),
            self.devices == 0,
        ensures
            r.is_ok() <==> device_config_ok(*config) && self.next_device < u64::MAX,
            r matches Ok(d) ==> d.wf() && d.handle == handle && d.phase == Phase::Idle && d.driver.port
                == self.port && d.driver.handle == self.handle,
            r matches Err(e) ==> (!device_config_ok(*config) ==> e == I2cError::invalid_argument_spec())
                && (device_config_ok(*config) ==> e.code == ESP_ERR_NO_MEM),
    {
        OwnedAsyncI2cDeviceDriver::wrap(self, config, handle)
    }
}

} // verus!

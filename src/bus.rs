use vstd::prelude::*;

use crate::config::{device_config_ok, DeviceAddress, DeviceConfig};
use crate::error::{I2cError, ESP_ERR_NO_MEM};
use crate::notifier::Notifier;
use crate::transfer::{native_timeout, native_timeout_spec, NativeCall};

verus! {

/// A master bus driven by blocking calls only.
pub struct I2cDriver {
    pub port: u8,
    pub handle: u64,
}

impl I2cDriver {
    /// The bus on `port` whose native handle is `handle`.
    pub fn new(port: u8, handle: u64) -> (r: I2cDriver)
        ensures
            r.port == port,
            r.handle == handle,
    {
        I2cDriver { port, handle }
    }

    pub fn port(&self) -> (r: u8)
        ensures
            r == self.port,
    {
        self.port
    }

    /// The zero-length transaction that tests whether a device answers at `address`.
    pub fn probe_device(&self, address: DeviceAddress, timeout: u32) -> (r: NativeCall)
        ensures
            r == (NativeCall::Probe {
                bus: self.handle,
                address: address.value(),
                timeout: native_timeout_spec(timeout),
            }),
    {
        NativeCall::Probe { bus: self.handle, address: address.address(), timeout: native_timeout(timeout) }
    }
}

/// A master bus shared by devices that transfer asynchronously.
///
/// `holder` is the device that holds the bus lock; `pending` is the device whose
/// native transfer has been asked for and has not completed. Devices are named
/// by the identifiers the bus gave them; `devices` counts those still attached.
pub struct AsyncI2cDriver {
    pub port: u8,
    pub handle: u64,
    pub notifier: Notifier,
    pub holder: Option<u64>,
    pub pending: Option<u64>,
    pub next_device: u64,
    pub devices: u64,
}

/// What tearing down a bus came to.
pub enum Teardown {
    /// The lock was free: free the native bus handle, and give the notifier back.
    Free { handle: u64, notifier: Notifier },
    /// A transfer holds the lock, or a device is still attached: try again.
    Busy(AsyncI2cDriver),
}

impl AsyncI2cDriver {
    /// The state every bus keeps: the notifier belongs to the bus's port, a signal
    /// is only ever held for a pending transfer, and a pending transfer's callback is armed.
    pub open spec fn base_wf(&self) -> bool {
        &&& self.notifier.wf()
        &&& self.notifier.port == self.port
        &&& self.notifier.signaled ==> self.pending.is_some()
        &&& self.pending.is_some() ==> self.notifier.armed
    }

    /// A bus shared by borrowing devices: only the lock holder may have a transfer
    /// pending or the callback armed.
    pub open spec fn wf(&self) -> bool {
        &&& self.base_wf()
        &&& self.pending.is_some() ==> self.holder == self.pending
        &&& self.notifier.armed ==> self.holder.is_some()
        &&& self.holder matches Some(h) ==> h < self.next_device
    }

    /// A bus on `port` with native handle `handle`, using that port's notifier.
    pub fn new(port: u8, handle: u64, notifier: Notifier) -> (r: AsyncI2cDriver)
        requires
            notifier.wf(),
            notifier.port == port,
            !notifier.armed,
        ensures
            r.wf(),
            r.port == port,
            r.handle == handle,
            r.notifier == notifier,
            r.holder.is_none(),
            r.pending.is_none(),
            r.next_device == 0,
            r.devices == 0,
    {
        AsyncI2cDriver { port, handle, notifier, holder: None, pending: None, next_device: 0, devices: 0 }
    }

    pub fn port(&self) -> (r: u8)
        ensures
            r == self.port,
    {
        self.port
    }

    /// Registers one more device; fails when the configuration is refused (its clock
    /// is above 1 MHz), or when the bus has handed out every identifier.
    pub fn attach(&mut self, config: &DeviceConfig) -> (r: Result<u64, I2cError>)
        requires
            old(self).wf(),
        ensures
            final(self).wf(),
            r.is_ok() <==> device_config_ok(*config) && old(self).next_device < u64::MAX
                && old(self).devices < u64::MAX,
            r matches Ok(id) ==> id == old(self).next_device && *final(self) == (AsyncI2cDriver {
                next_device: (old(self).next_device + 1) as u64,
                devices: (old(self).devices + 1) as u64,
                ..*old(self)
            }),
            r matches Err(e) ==> *final(self) == *old(self) && (!device_config_ok(*config)
                ==> e == I2cError::invalid_argument_spec()) && (device_config_ok(*config) ==> e.code
                == ESP_ERR_NO_MEM),
    {
        if !(config.baudrate <= crate::config::MAX_BAUDRATE) {
            return Err(I2cError::invalid_argument());
        }
        if self.next_device == u64::MAX || self.devices == u64::MAX {
            return Err(I2cError::from_code(ESP_ERR_NO_MEM));
        }
        let id = self.next_device;
        self.next_device = self.next_device + 1;
        self.devices = self.devices + 1;
        Ok(id)
    }

    /// Whether a device may be removed now: only while no transfer holds the lock.
    /// On `true` the device no longer counts as attached, and its native handle is to be removed.
    pub fn detach(&mut self) -> (r: bool)
        requires
            old(self).wf(),
            old(self).devices > 0,
        ensures
            final(self).wf(),
            r == old(self).holder.is_none(),
            r ==> *final(self) == (AsyncI2cDriver { devices: (old(self).devices - 1) as u64, ..*old(self) }),
            !r ==> *final(self) == *old(self),
    {
        if self.holder.is_none() {
            self.devices = self.devices - 1;
            true
        } else {
            false
        }
    }

    /// The completion interrupt of the port fired. The signal is taken only while a
    /// transfer is pending; the result is what the interrupt handler reports.
    pub fn on_interrupt(&mut self) -> (r: bool)
        requires
            old(self).base_wf(),
        ensures
            final(self).base_wf(),
            old(self).wf() ==> final(self).wf(),
            r == (old(self).pending.is_some() && !old(self).notifier.signaled),
            final(self).notifier.signaled == (old(self).notifier.signaled || r),
            final(self).notifier.accepted@ == old(self).notifier.accepted@ + if r { 1nat } else { 0nat },
            final(self).notifier.armed == old(self).notifier.armed,
            final(self).notifier.returned == old(self).notifier.returned,
            final(self).notifier.discarded == old(self).notifier.discarded,
            final(self).notifier.port == old(self).notifier.port,
            final(self).port == old(self).port,
            final(self).handle == old(self).handle,
            final(self).holder == old(self).holder,
            final(self).pending == old(self).pending,
            final(self).next_device == old(self).next_device,
            final(self).devices == old(self).devices,
    {
        if self.pending.is_some() {
            self.notifier.notify()
        } else {
            false
        }
    }

    /// Tears the bus down once no device is attached and no transfer holds the lock;
    /// else hands the bus back, to be tried again. The native handle comes out
    /// exactly once, since the bus is consumed with it.
    pub fn teardown(self) -> (r: Teardown)
        requires
            self.wf(),
        ensures
            (self.holder.is_none() && self.devices == 0) <==> r is Free,
            r matches Teardown::Free { handle, notifier } ==> handle == self.handle && notifier.wf()
                && notifier.port == self.port && !notifier.armed,
            r matches Teardown::Busy(b) ==> b == self,
    {
        if self.holder.is_none() && self.devices == 0 {
            let AsyncI2cDriver { handle, notifier, .. } = self;
            Teardown::Free { handle, notifier }
        } else {
            Teardown::Busy(self)
        }
    }
}

} // verus!

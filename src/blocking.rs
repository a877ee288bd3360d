use vstd::prelude::*;

use crate::bus::I2cDriver;
use crate::config::{device_config_ok, DeviceConfig};
use crate::error::I2cError;
use crate::transfer::{native_timeout, native_timeout_spec, NativeCall};

verus! {

/// A device on a bus driven by blocking calls: each transfer is one native call
/// that returns when the transfer is over, so no lock or notifier is involved.
pub struct I2cDeviceDriver {
    pub port: u8,
    pub handle: u64,
}

impl I2cDeviceDriver {
    /// A device with native handle `handle` on `driver`; a clock above 1 MHz is refused.
    pub fn new(driver: &I2cDriver, config: &DeviceConfig, handle: u64) -> (r: Result<I2cDeviceDriver, I2cError>)
        ensures
            r.is_ok() <==> device_config_ok(*config),
            r matches Ok(d) ==> d.port == driver.port && d.handle == handle,
            r matches Err(e) ==> e == I2cError::invalid_argument_spec(),
    {
        if config.baudrate > crate::config::MAX_BAUDRATE {
            return Err(I2cError::invalid_argument());
        }
        Ok(I2cDeviceDriver { port: driver.port, handle })
    }

    /// The native call that fills `buffer` from the device.
    pub fn read(&mut self, buffer: &mut [u8], timeout: u32) -> (r: NativeCall)
        ensures
            r == (NativeCall::Receive {
                device: old(self).handle,
                len: old(buffer)@.len() as usize,
                timeout: native_timeout_spec(timeout),
            }),
            *final(self) == *old(self),
            final(buffer)@ == old(buffer)@,
    {
        NativeCall::Receive { device: self.handle, len: buffer.len(), timeout: native_timeout(timeout) }
    }

    /// The native call that sends `bytes` to the device.
    pub fn write(&mut self, bytes: &[u8], timeout: u32) -> (r: NativeCall)
        ensures
            r == (NativeCall::Transmit {
                device: old(self).handle,
                len: bytes@.len() as usize,
                timeout: native_timeout_spec(timeout),
            }),
            *final(self) == *old(self),
    {
        NativeCall::Transmit { device: self.handle, len: bytes.len(), timeout: native_timeout(timeout) }
    }

    /// The native call that sends `bytes` and then fills `buffer`, in one transaction.
    pub fn write_read(&mut self, bytes: &[u8], buffer: &mut [u8], timeout: u32) -> (r: NativeCall)
        ensures
            r == (NativeCall::TransmitReceive {
                device: old(self).handle,
                out_len: bytes@.len() as usize,
                in_len: old(buffer)@.len() as usize,
                timeout: native_timeout_spec(timeout),
            }),
            *final(self) == *old(self),
            final(buffer)@ == old(buffer)@,
    {
        NativeCall::TransmitReceive {
            device: self.handle,
            out_len: bytes.len(),
            in_len: buffer.len(),
            timeout: native_timeout(timeout),
        }
    }
}

impl I2cDriver {
    /// Attaches a device with native handle `handle`; see `I2cDeviceDriver::new`.
    pub fn device(&mut self, config: &DeviceConfig, handle: u64) -> (r: Result<I2cDeviceDriver, I2cError>)
        ensures
            *final(self) == *old(self),
            r.is_ok() <==> device_config_ok(*config),
            r matches Ok(d) ==> d.port == old(self).port && d.handle == handle,
            r matches Err(e) ==> e == I2cError::invalid_argument_spec(),
    {
        I2cDeviceDriver::new(self, config, handle)
    }
}

} // verus!

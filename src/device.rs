use vstd::prelude::*;

use crate::bus::AsyncI2cDriver;
use crate::config::{device_config_ok, DeviceConfig};
use crate::error::{result_of, I2cError, ESP_ERR_NO_MEM, ESP_OK};
use crate::transfer::{call_for, call_spec, finish, Action, Event, NativeCall, Phase, Request};

verus! {

/// A device on a shared bus; its transfers take the bus lock and arm the port's
/// notifier for their own duration.
pub struct AsyncI2cDeviceDriver {
    pub id: u64,
    pub handle: u64,
    pub port: u8,
    pub phase: Phase,
}

/// How a device's phase stands with the bus it is attached to: from the moment it
/// holds the lock to the moment it lets go, it alone decides what the bus holds.
pub open spec fn consistent(bus: AsyncI2cDriver, dev: AsyncI2cDeviceDriver) -> bool {
    &&& dev.port == bus.port
    &&& dev.id < bus.next_device
    &&& match dev.phase {
        Phase::Idle | Phase::Acquiring(_) => bus.holder != Some(dev.id),
        Phase::Arming(_) => bus.holder == Some(dev.id) && !bus.notifier.armed && bus.pending.is_none(),
        Phase::Issuing | Phase::Awaiting => bus.holder == Some(dev.id) && bus.notifier.armed
            && bus.pending == Some(dev.id),
        Phase::Disarming => bus.holder == Some(dev.id) && bus.notifier.armed && bus.pending.is_none(),
        Phase::RollingBack(_) => bus.holder == Some(dev.id) && !bus.notifier.armed && bus.pending.is_none(),
    }
}

/// One step of the transfer protocol of device `d0` on bus `b0`: on event `ev`
/// the bus becomes `b1`, the device `d1`, and `act` is to be done.
///
/// Acquire the lock (or yield); arm the callback; issue the native call, which
/// from then on is pending; wait until the notifier holds the signal and take it;
/// disarm; let go of the lock and report. A failed arm lets go at once; a failed
/// call disarms first and then reports its own error.
pub open spec fn next(
    b0: AsyncI2cDriver,
    d0: AsyncI2cDeviceDriver,
    ev: Event,
    b1: AsyncI2cDriver,
    d1: AsyncI2cDeviceDriver,
    act: Action,
) -> bool {
    let id = d0.id;
    let d_to = |p: Phase| AsyncI2cDeviceDriver { phase: p, ..d0 };
    match (d0.phase, ev) {
        (Phase::Idle, Event::Start(req, t)) => acquire(b0, d0, call_spec(d0.handle, req, t), b1, d1, act),
        (Phase::Acquiring(call), Event::Retry) => acquire(b0, d0, call, b1, d1, act),
        (Phase::Arming(call), Event::Registered(code)) => if code == ESP_OK {
            &&& b0.notifier.armed_as(b1.notifier)
            &&& b1 == AsyncI2cDriver { pending: Some(id), notifier: b1.notifier, ..b0 }
            &&& d1 == d_to(Phase::Issuing)
            &&& act == Action::Issue(call)
        } else {
            &&& b1 == AsyncI2cDriver { holder: None, ..b0 }
            &&& d1 == d_to(Phase::Idle)
            &&& act == Action::Failed(I2cError { code })
        },
        (Phase::Issuing, Event::Issued(code)) => if code == ESP_OK {
            &&& b1 == b0
            &&& d1 == d_to(Phase::Awaiting)
            &&& act == Action::Wait
        } else {
            &&& b1.notifier.port == b0.notifier.port
            &&& !b1.notifier.armed && !b1.notifier.signaled
            &&& b1.notifier.accepted == b0.notifier.accepted
            &&& b1.notifier.returned == b0.notifier.returned
            &&& b1.notifier.discarded@ == b0.notifier.discarded@ + if b0.notifier.signaled { 1nat } else { 0nat }
            &&& b1 == AsyncI2cDriver { pending: None, notifier: b1.notifier, ..b0 }
            &&& d1 == d_to(Phase::RollingBack(I2cError { code }))
            &&& act == Action::Unregister
        },
        (Phase::Awaiting, Event::Woken) => if b0.notifier.signaled {
            &&& b0.notifier.consumed_as(b1.notifier)
            &&& b1 == AsyncI2cDriver { pending: None, notifier: b1.notifier, ..b0 }
            &&& d1 == d_to(Phase::Disarming)
            &&& act == Action::Unregister
        } else {
            &&& b1 == b0
            &&& d1 == d0
            &&& act == Action::Wait
        },
        (Phase::Disarming, Event::Unregistered(code)) => {
            &&& b0.notifier.disarmed_as(b1.notifier)
            &&& b1 == AsyncI2cDriver { holder: None, notifier: b1.notifier, ..b0 }
            &&& d1 == d_to(Phase::Idle)
            &&& act == finish(result_of(code))
        },
        (Phase::RollingBack(e), Event::Unregistered(code)) => {
            &&& b1 == AsyncI2cDriver { holder: None, ..b0 }
            &&& d1 == d_to(Phase::Idle)
            &&& act == if code == ESP_OK { Action::Failed(e) } else { Action::Fatal(I2cError { code }) }
        },
        _ => b1 == b0 && d1 == d0 && act == Action::Ignored,
    }
}

/// The acquire step: take the lock if it is free, else yield and keep the call for later.
pub open spec fn acquire(
    b0: AsyncI2cDriver,
    d0: AsyncI2cDeviceDriver,
    call: NativeCall,
    b1: AsyncI2cDriver,
    d1: AsyncI2cDeviceDriver,
    act: Action,
) -> bool {
    if b0.holder.is_none() {
        &&& b1 == AsyncI2cDriver { holder: Some(d0.id), ..b0 }
        &&& d1 == AsyncI2cDeviceDriver { phase: Phase::Arming(call), ..d0 }
        &&& act == Action::Register
    } else {
        &&& b1 == b0
        &&& d1 == AsyncI2cDeviceDriver { phase: Phase::Acquiring(call), ..d0 }
        &&& act == Action::Yield
    }
}

/// Transfers on one bus are strictly serialized. Whatever event a device's transfer
/// takes, the bus stays well formed and every other device stays consistent with it;
/// a native call is only ever asked for by the lock holder while no other call is
/// pending; and a pending call always belongs to the lock holder.
pub proof fn lemma_transfers_serialized(
    b0: AsyncI2cDriver,
    a0: AsyncI2cDeviceDriver,
    other: AsyncI2cDeviceDriver,
    ev: Event,
    b1: AsyncI2cDriver,
    a1: AsyncI2cDeviceDriver,
    act: Action,
)
    requires
        b0.wf(),
        consistent(b0, a0),
        consistent(b0, other),
        a0.id != other.id,
        next(b0, a0, ev, b1, a1, act),
    ensures
        b1.wf(),
        consistent(b1, a1),
        consistent(b1, other),
        act is Issue ==> b0.pending.is_none() && b0.holder == Some(a0.id) && b1.pending == Some(a0.id),
        b1.pending matches Some(p) ==> b1.holder == Some(p),
{
}

/// Whether a device is between taking the bus lock and letting go of it.
pub open spec fn in_transfer(dev: AsyncI2cDeviceDriver) -> bool {
    !(dev.phase is Idle || dev.phase is Acquiring)
}

/// Devices with distinct identifiers, all consistent with one well-formed bus.
pub open spec fn all_consistent(bus: AsyncI2cDriver, devs: Seq<AsyncI2cDeviceDriver>) -> bool {
    &&& bus.wf()
    &&& forall|i: int| 0 <= i < devs.len() ==> consistent(bus, #[trigger] devs[i])
    &&& forall|i: int, j: int| 0 <= i < devs.len() && 0 <= j < devs.len() && i != j ==> #[trigger] devs[i].id != #[trigger] devs[j].id
}

/// However the steps of the devices sharing one bus interleave, at most one of
/// them is ever between taking the lock and letting go of it. A step of any one
/// device keeps every device consistent with the bus, and asks for a native call
/// only while none is pending.
pub proof fn lemma_interleaving_exclusive(
    b0: AsyncI2cDriver,
    devs0: Seq<AsyncI2cDeviceDriver>,
    k: int,
    ev: Event,
    b1: AsyncI2cDriver,
    d1: AsyncI2cDeviceDriver,
    act: Action,
)
    requires
        all_consistent(b0, devs0),
        0 <= k < devs0.len(),
        d1.id == devs0[k].id,
        next(b0, devs0[k], ev, b1, d1, act),
    ensures
        all_consistent(b1, devs0.update(k, d1)),
        forall|i: int, j: int|
            0 <= i < devs0.len() && 0 <= j < devs0.len() && i != j && in_transfer(#[trigger] devs0.update(k, d1)[i])
                ==> !in_transfer(#[trigger] devs0.update(k, d1)[j]),
        act is Issue ==> b0.pending.is_none(),
{
    let devs1 = devs0.update(k, d1);
    lemma_transfers_serialized_self(b0, devs0[k], ev, b1, d1, act);
    assert forall|i: int| 0 <= i < devs1.len() implies consistent(b1, #[trigger] devs1[i]) by {
        if i != k {
            lemma_transfers_serialized(b0, devs0[k], devs0[i], ev, b1, d1, act);
        }
    }
    assert forall|i: int, j: int|
        0 <= i < devs1.len() && 0 <= j < devs1.len() && i != j && in_transfer(#[trigger] devs1[i]) implies !in_transfer(
        #[trigger] devs1[j]) by {
        assert(consistent(b1, devs1[i]));
        assert(consistent(b1, devs1[j]));
        assert(devs1[i].id != devs1[j].id);
    }
}

/// The completion interrupt changes nothing a device's phase depends on.
pub proof fn lemma_interrupt_keeps_devices(b0: AsyncI2cDriver, b1: AsyncI2cDriver, d: AsyncI2cDeviceDriver)
    requires
        consistent(b0, d),
        b1.port == b0.port,
        b1.holder == b0.holder,
        b1.pending == b0.pending,
        b1.next_device == b0.next_device,
        b1.notifier.armed == b0.notifier.armed,
    ensures
        consistent(b1, d),
{
}

/// A wait returns exactly once per transfer that was armed and issued: the count of
/// waits that returned grows by one when, and only when, an awaiting transfer
/// leaves its wait, and it never outgrows the count of signals taken.
pub proof fn lemma_one_wake_per_transfer(
    b0: AsyncI2cDriver,
    d0: AsyncI2cDeviceDriver,
    ev: Event,
    b1: AsyncI2cDriver,
    d1: AsyncI2cDeviceDriver,
    act: Action,
)
    requires
        b0.wf(),
        consistent(b0, d0),
        next(b0, d0, ev, b1, d1, act),
    ensures
        d0.phase is Awaiting && !(d1.phase is Awaiting) ==> d1.phase is Disarming && b1.notifier.returned@
            == b0.notifier.returned@ + 1,
        !(d0.phase is Awaiting && !(d1.phase is Awaiting)) ==> b1.notifier.returned == b0.notifier.returned,
        d1.phase is Awaiting ==> b1.pending == Some(d0.id),
        d0.phase is Issuing && ev == Event::Issued(ESP_OK) ==> d1.phase is Awaiting,
        b1.notifier.returned@ <= b1.notifier.accepted@,
{
    lemma_transfers_serialized_self(b0, d0, ev, b1, d1, act);
}

proof fn lemma_transfers_serialized_self(
    b0: AsyncI2cDriver,
    d0: AsyncI2cDeviceDriver,
    ev: Event,
    b1: AsyncI2cDriver,
    d1: AsyncI2cDeviceDriver,
    act: Action,
)
    requires
        b0.wf(),
        consistent(b0, d0),
        next(b0, d0, ev, b1, d1, act),
    ensures
        b1.wf(),
        consistent(b1, d1),
{
}

impl AsyncI2cDriver {
    /// Attaches a device with native handle `handle`; fails as `attach` does.
    pub fn device(&mut self, config: &DeviceConfig, handle: u64) -> (r: Result<AsyncI2cDeviceDriver, I2cError>)
        requires
            old(self).wf(),
        ensures
            final(self).wf(),
            r.is_ok() <==> device_config_ok(*config) && old(self).next_device < u64::MAX
                && old(self).devices < u64::MAX,
            r matches Ok(d) ==> d == (AsyncI2cDeviceDriver {
                id: old(self).next_device,
                handle,
                port: old(self).port,
                phase: Phase::Idle,
            }) && consistent(*final(self), d) && final(self).devices == old(self).devices + 1,
            r matches Err(e) ==> *final(self) == *old(self) && (!device_config_ok(*config)
                ==> e == I2cError::invalid_argument_spec()) && (device_config_ok(*config) ==> e.code
                == ESP_ERR_NO_MEM),
    {
        AsyncI2cDeviceDriver::new(self, config, handle)
    }
}

impl AsyncI2cDeviceDriver {
    fn new(bus: &mut AsyncI2cDriver, config: &DeviceConfig, handle: u64) -> (r: Result<AsyncI2cDeviceDriver, I2cError>)
        requires
            old(bus).wf(),
        ensures
            final(bus).wf(),
            r.is_ok() <==> device_config_ok(*config) && old(bus).next_device < u64::MAX
                && old(bus).devices < u64::MAX,
            r matches Ok(d) ==> d == (AsyncI2cDeviceDriver {
                id: old(bus).next_device,
                handle,
                port: old(bus).port,
                phase: Phase::Idle,
            }) && consistent(*final(bus), d) && final(bus).devices == old(bus).devices + 1,
            r matches Err(e) ==> *final(bus) == *old(bus) && (!device_config_ok(*config)
                ==> e == I2cError::invalid_argument_spec()) && (device_config_ok(*config) ==> e.code
                == ESP_ERR_NO_MEM),
    {
        let id = bus.attach(config)?;
        Ok(AsyncI2cDeviceDriver { id, handle, port: bus.port, phase: Phase::Idle })
    }

    /// Advances the transfer protocol by one event; see `next`.
    pub fn step(&mut self, bus: &mut AsyncI2cDriver, event: Event) -> (r: Action)
        requires
            old(bus).wf(),
            consistent(*old(bus), *old(self)),
        ensures
            final(bus).wf(),
            consistent(*final(bus), *final(self)),
            next(*old(bus), *old(self), event, *final(bus), *final(self), r),
    {
        match (self.phase, event) {
            (Phase::Idle, Event::Start(req, t)) => {
                let call = call_for(self.handle, req, t);
                self.acquire(bus, call)
            },
            (Phase::Acquiring(call), Event::Retry) => self.acquire(bus, call),
            (Phase::Arming(call), Event::Registered(code)) => {
                if code == ESP_OK {
                    bus.notifier.arm();
                    bus.pending = Some(self.id);
                    self.phase = Phase::Issuing;
                    Action::Issue(call)
                } else {
                    bus.holder = None;
                    self.phase = Phase::Idle;
                    Action::Failed(I2cError::from_code(code))
                }
            },
            (Phase::Issuing, Event::Issued(code)) => {
                if code == ESP_OK {
                    self.phase = Phase::Awaiting;
                    Action::Wait
                } else {
                    bus.notifier.disarm();
                    bus.pending = None;
                    self.phase = Phase::RollingBack(I2cError::from_code(code));
                    Action::Unregister
                }
            },
            (Phase::Awaiting, Event::Woken) => {
                if bus.notifier.poll() {
                    bus.pending = None;
                    self.phase = Phase::Disarming;
                    Action::Unregister
                } else {
                    Action::Wait
                }
            },
            (Phase::Disarming, Event::Unregistered(code)) => {
                bus.notifier.disarm();
                bus.holder = None;
                self.phase = Phase::Idle;
                if code == ESP_OK {
                    Action::Done
                } else {
                    Action::Failed(I2cError::from_code(code))
                }
            },
            (Phase::RollingBack(e), Event::Unregistered(code)) => {
                bus.holder = None;
                self.phase = Phase::Idle;
                if code == ESP_OK {
                    Action::Failed(e)
                } else {
                    Action::Fatal(I2cError::from_code(code))
                }
            },
            _ => Action::Ignored,
        }
    }

    /// Starts a transfer that fills `buffer`; continue it with `step`.
    pub fn read(&mut self, bus: &mut AsyncI2cDriver, buffer: &mut [u8], timeout: u32) -> (r: Action)
        requires
            old(bus).wf(),
            consistent(*old(bus), *old(self)),
        ensures
            final(bus).wf(),
            consistent(*final(bus), *final(self)),
            final(buffer)@ == old(buffer)@,
            next(*old(bus), *old(self), Event::Start(Request::Read { len: old(buffer)@.len() as usize }, timeout), *final(bus), *final(self), r),
    {
        self.step(bus, Event::Start(Request::Read { len: buffer.len() }, timeout))
    }

    /// Starts a transfer that sends `bytes`; continue it with `step`.
    pub fn write(&mut self, bus: &mut AsyncI2cDriver, bytes: &[u8], timeout: u32) -> (r: Action)
        requires
            old(bus).wf(),
            consistent(*old(bus), *old(self)),
        ensures
            final(bus).wf(),
            consistent(*final(bus), *final(self)),
            next(*old(bus), *old(self), Event::Start(Request::Write { len: bytes@.len() as usize }, timeout), *final(bus), *final(self), r),
    {
        self.step(bus, Event::Start(Request::Write { len: bytes.len() }, timeout))
    }

    /// Starts a transfer that sends `bytes` and then fills `buffer`; continue it with `step`.
    pub fn write_read(&mut self, bus: &mut AsyncI2cDriver, bytes: &[u8], buffer: &mut [u8], timeout: u32) -> (r: Action)
        requires
            old(bus).wf(),
            consistent(*old(bus), *old(self)),
        ensures
            final(bus).wf(),
            consistent(*final(bus), *final(self)),
            final(buffer)@ == old(buffer)@,
            next(
                *old(bus),
                *old(self),
                Event::Start(Request::WriteRead { out_len: bytes@.len() as usize, in_len: old(buffer)@.len() as usize }, timeout),
                *final(bus),
                *final(self),
                r,
            ),
    {
        self.step(bus, Event::Start(Request::WriteRead { out_len: bytes.len(), in_len: buffer.len() }, timeout))
    }

    fn acquire(&mut self, bus: &mut AsyncI2cDriver, call: NativeCall) -> (r: Action)
        requires
            old(bus).wf(),
            consistent(*old(bus), *old(self)),
            old(self).phase is Idle || old(self).phase is Acquiring,
        ensures
            final(bus).wf(),
            consistent(*final(bus), *final(self)),
            acquire(*old(bus), *old(self), call, *final(bus), *final(self), r),
    {
        if bus.holder.is_none() {
            bus.holder = Some(self.id);
            self.phase = Phase::Arming(call);
            Action::Register
        } else {
            self.phase = Phase::Acquiring(call);
            Action::Yield
        }
    }
}

} // verus!

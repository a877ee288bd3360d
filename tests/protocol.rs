use esp_i2c::blocking::I2cDeviceDriver;
use esp_i2c::bus::{AsyncI2cDriver, I2cDriver, Teardown};
use esp_i2c::config::{Config, DeviceAddress, DeviceConfig, SourceClock};
use esp_i2c::device::AsyncI2cDeviceDriver;
use esp_i2c::error::{check, ErrorKind, ESP_ERR_INVALID_ARG, ESP_ERR_NO_MEM, ESP_FAIL, ESP_OK};
use esp_i2c::notifier::{Notifier, NotifierTable};
use esp_i2c::owned::OwnedAsyncI2cDeviceDriver;
use esp_i2c::slave::{I2cSlaveDriver, ESP_ERR_NOT_SUPPORTED};
use esp_i2c::transfer::{Action, Event, NativeCall, Phase, BLOCK};

fn bus_on(port: u8) -> AsyncI2cDriver {
    let mut table = NotifierTable::new(2);
    AsyncI2cDriver::new(port, 0x1000, table.take(port).unwrap())
}

fn attach(bus: &mut AsyncI2cDriver, addr: u8, handle: u64) -> AsyncI2cDeviceDriver {
    match bus.device(&config_at(addr), handle) {
        Ok(d) => d,
        Err(_) => panic!("a 100 kHz device was refused"),
    }
}

fn config_at(addr: u8) -> DeviceConfig {
    DeviceConfig::new(DeviceAddress::SevenBit(addr)).baudrate(100_000)
}

#[test]
fn write_runs_one_arm_issue_await_disarm_cycle() {
    let c = Config::new();
    assert!(c.pullup_enabled);
    assert_eq!(c.source_clock, SourceClock::APB);
    let mut bus = bus_on(0);
    let mut dev = attach(&mut bus, 0x23, 0x2000);
    let mut trace = Vec::new();
    let mut act = dev.write(&mut bus, &[0xAA, 0xBB], BLOCK);
    loop {
        trace.push(act);
        let ev = match act {
            Action::Register => Event::Registered(ESP_OK),
            Action::Issue(_) => Event::Issued(ESP_OK),
            Action::Wait => {
                assert!(bus.on_interrupt());
                Event::Woken
            }
            Action::Unregister => Event::Unregistered(ESP_OK),
            _ => break,
        };
        act = dev.step(&mut bus, ev);
    }
    assert_eq!(
        trace,
        vec![
            Action::Register,
            Action::Issue(NativeCall::Transmit { device: 0x2000, len: 2, timeout: -1 }),
            Action::Wait,
            Action::Unregister,
            Action::Done,
        ]
    );
    assert_eq!(dev.phase, Phase::Idle);
    assert!(bus.holder.is_none());
    assert!(!bus.notifier.is_armed());
}

#[test]
fn probe_of_absent_device_is_no_acknowledge() {
    let bus = I2cDriver::new(0, 0x1000);
    let call = bus.probe_device(DeviceAddress::SevenBit(0x77), 50);
    assert_eq!(call, NativeCall::Probe { bus: 0x1000, address: 0x77, timeout: 50 });
    assert_eq!(check(ESP_FAIL).unwrap_err().kind(), ErrorKind::NoAcknowledge);
}

#[test]
fn second_device_waits_until_first_transfer_ends() {
    let mut bus = bus_on(1);
    let mut a = attach(&mut bus, 0x10, 0xa);
    let mut b = attach(&mut bus, 0x11, 0xb);
    assert_ne!(a.id, b.id);
    let mut buf = [0u8; 4];
    assert_eq!(a.read(&mut bus, &mut buf, 10), Action::Register);
    assert_eq!(b.write(&mut bus, &[1], 10), Action::Yield);
    assert!(matches!(a.step(&mut bus, Event::Registered(ESP_OK)), Action::Issue(_)));
    assert_eq!(b.step(&mut bus, Event::Retry), Action::Yield);
    assert_eq!(a.step(&mut bus, Event::Issued(ESP_OK)), Action::Wait);
    assert_eq!(bus.pending, Some(a.id));
    assert_eq!(b.step(&mut bus, Event::Retry), Action::Yield);
    assert!(bus.on_interrupt());
    assert_eq!(a.step(&mut bus, Event::Woken), Action::Unregister);
    assert_eq!(a.step(&mut bus, Event::Unregistered(ESP_OK)), Action::Done);
    assert_eq!(b.step(&mut bus, Event::Retry), Action::Register);
    assert_eq!(bus.holder, Some(b.id));
    assert_eq!(
        b.step(&mut bus, Event::Registered(ESP_OK)),
        Action::Issue(NativeCall::Transmit { device: 0xb, len: 1, timeout: 10 })
    );
}

#[test]
fn failed_register_releases_lock_with_error() {
    let mut bus = bus_on(0);
    let mut d = attach(&mut bus, 0x10, 1);
    d.write(&mut bus, &[1, 2, 3], 5);
    assert_eq!(d.step(&mut bus, Event::Registered(ESP_ERR_NO_MEM)), Action::Failed(check(ESP_ERR_NO_MEM).unwrap_err()));
    assert!(bus.holder.is_none());
    assert_eq!(d.phase, Phase::Idle);
}

#[test]
fn failed_issue_disarms_then_reports_its_error() {
    let mut bus = bus_on(0);
    let mut d = attach(&mut bus, 0x10, 1);
    let mut out = [0u8; 2];
    d.write_read(&mut bus, &[9], &mut out, 5);
    d.step(&mut bus, Event::Registered(ESP_OK));
    assert_eq!(d.step(&mut bus, Event::Issued(ESP_FAIL)), Action::Unregister);
    assert_eq!(bus.pending, None);
    let r = d.step(&mut bus, Event::Unregistered(ESP_OK));
    assert_eq!(r, Action::Failed(check(ESP_FAIL).unwrap_err()));
    assert!(bus.holder.is_none());
}

#[test]
fn failed_rollback_is_fatal() {
    let mut bus = bus_on(0);
    let mut d = attach(&mut bus, 0x10, 1);
    d.write(&mut bus, &[1], 5);
    d.step(&mut bus, Event::Registered(ESP_OK));
    d.step(&mut bus, Event::Issued(ESP_FAIL));
    assert_eq!(d.step(&mut bus, Event::Unregistered(ESP_ERR_INVALID_ARG)), Action::Fatal(check(ESP_ERR_INVALID_ARG).unwrap_err()));
}

#[test]
fn failed_disarm_after_completion_is_reported() {
    let mut bus = bus_on(0);
    let mut d = attach(&mut bus, 0x10, 1);
    d.write(&mut bus, &[1], 5);
    d.step(&mut bus, Event::Registered(ESP_OK));
    d.step(&mut bus, Event::Issued(ESP_OK));
    bus.on_interrupt();
    d.step(&mut bus, Event::Woken);
    assert_eq!(d.step(&mut bus, Event::Unregistered(0x103)), Action::Failed(check(0x103).unwrap_err()));
}

#[test]
fn wake_without_signal_keeps_waiting() {
    let mut bus = bus_on(0);
    let mut d = attach(&mut bus, 0x10, 1);
    d.write(&mut bus, &[1], 5);
    d.step(&mut bus, Event::Registered(ESP_OK));
    d.step(&mut bus, Event::Issued(ESP_OK));
    assert_eq!(d.step(&mut bus, Event::Woken), Action::Wait);
    assert_eq!(d.phase, Phase::Awaiting);
    assert!(bus.on_interrupt());
    assert!(!bus.on_interrupt());
    assert_eq!(d.step(&mut bus, Event::Woken), Action::Unregister);
    assert_eq!(d.step(&mut bus, Event::Woken), Action::Ignored);
}

#[test]
fn out_of_place_event_is_ignored() {
    let mut bus = bus_on(0);
    let mut d = attach(&mut bus, 0x10, 1);
    assert_eq!(d.step(&mut bus, Event::Woken), Action::Ignored);
    assert_eq!(d.step(&mut bus, Event::Issued(ESP_OK)), Action::Ignored);
    assert_eq!(d.phase, Phase::Idle);
}

#[test]
fn interrupt_without_pending_transfer_is_dropped() {
    let mut bus = bus_on(0);
    assert!(!bus.on_interrupt());
    assert!(!bus.notifier.signaled);
}

#[test]
fn notifier_takes_one_signal_while_armed() {
    let mut n = Notifier::new(0);
    assert!(!n.notify());
    assert!(!n.poll());
    n.arm();
    assert!(n.notify());
    assert!(!n.notify());
    assert!(n.poll());
    assert!(!n.poll());
    assert!(n.notify());
    n.disarm();
    assert!(!n.poll());
    assert_eq!(n.port(), 0);
}

#[test]
fn notifier_table_hands_each_port_out_once() {
    let mut t = NotifierTable::new(1);
    assert!(t.take(1).is_none());
    let n = t.take(0).unwrap();
    assert!(t.take(0).is_none());
    t.give_back(n);
    assert_eq!(t.take(0).unwrap().port(), 0);
}

#[test]
fn bus_teardown_waits_for_lock_and_devices() {
    let mut bus = bus_on(0);
    let mut d = attach(&mut bus, 0x10, 1);
    d.write(&mut bus, &[1], 5);
    assert!(!bus.detach());
    let bus = match bus.teardown() {
        Teardown::Busy(b) => b,
        Teardown::Free { .. } => panic!("freed while a transfer holds the lock"),
    };
    let mut bus = bus;
    d.step(&mut bus, Event::Registered(ESP_ERR_NO_MEM));
    assert!(bus.detach());
    match bus.teardown() {
        Teardown::Free { handle, notifier } => {
            assert_eq!(handle, 0x1000);
            assert!(!notifier.is_armed());
        }
        Teardown::Busy(_) => panic!("lock is free and no device is attached"),
    }
}

#[test]
fn device_refuses_fast_clock() {
    let mut bus = bus_on(0);
    let e = match bus.device(&config_at(0x10).baudrate(2_000_000), 1) {
        Err(e) => e,
        Ok(_) => panic!("a 2 MHz device was accepted"),
    };
    assert_eq!(e.kind(), ErrorKind::InvalidArgument);
    assert_eq!(bus.devices, 0);
    let sync_bus = I2cDriver::new(0, 7);
    assert!(I2cDeviceDriver::new(&sync_bus, &config_at(0x10).baudrate(2_000_000), 1).is_err());
}

#[test]
fn blocking_device_describes_native_calls() {
    let mut bus = I2cDriver::new(1, 7);
    assert_eq!(bus.port(), 1);
    let mut d = bus.device(&config_at(0x10).baudrate(400_000), 42).unwrap();
    let mut buf = [0u8; 3];
    assert_eq!(d.read(&mut buf, 100), NativeCall::Receive { device: 42, len: 3, timeout: 100 });
    assert_eq!(d.write(&[1, 2], BLOCK), NativeCall::Transmit { device: 42, len: 2, timeout: -1 });
    assert_eq!(
        d.write_read(&[1], &mut buf, 9),
        NativeCall::TransmitReceive { device: 42, out_len: 1, in_len: 3, timeout: 9 }
    );
}

#[test]
fn owned_device_stays_armed_across_transfers() {
    let mut table = NotifierTable::new(2);
    let mut d = match OwnedAsyncI2cDeviceDriver::new(1, 0x1000, table.take(1).unwrap(), &config_at(0x23), 0x30) {
        Ok(d) => d,
        Err(_) => panic!("a 100 kHz device was refused"),
    };
    for _ in 0..2 {
        assert_eq!(d.write(&[0xAA, 0xBB], BLOCK), Action::Issue(NativeCall::Transmit { device: 0x30, len: 2, timeout: -1 }));
        assert_eq!(d.step(Event::Issued(ESP_OK)), Action::Wait);
        assert!(d.on_interrupt());
        assert_eq!(d.step(Event::Woken), Action::Done);
        assert!(d.driver.notifier.is_armed());
    }
    let mut buf = [0u8; 1];
    d.read(&mut buf, 1);
    assert_eq!(d.step(Event::Issued(ESP_FAIL)), Action::Failed(check(ESP_FAIL).unwrap_err()));
    let bus = d.release();
    assert!(!bus.notifier.is_armed());
    assert_eq!(bus.devices, 0);
    assert!(matches!(bus.teardown(), Teardown::Free { .. }));
}

#[test]
fn owned_device_refuses_fast_clock() {
    let bus = bus_on(0);
    let e = match bus.owned_device(&config_at(0x23).baudrate(2_000_000), 1) {
        Err(e) => e,
        Ok(_) => panic!("a 2 MHz device was accepted"),
    };
    assert_eq!(e.kind(), ErrorKind::InvalidArgument);
}

#[test]
fn slave_receives_asynchronously_and_refuses_blocking_read() {
    let mut table = NotifierTable::new(1);
    let mut s = I2cSlaveDriver::new(0, 0x55, table.take(0).unwrap());
    assert_eq!(s.port(), 0);
    let mut buf = [0u8; 8];
    assert_eq!(s.read(&mut buf, BLOCK), Err(check(ESP_ERR_NOT_SUPPORTED).unwrap_err()));
    assert!(!s.on_interrupt());
    assert_eq!(s.async_read(&mut buf), Action::Issue(NativeCall::SlaveReceive { device: 0x55, len: 8 }));
    assert_eq!(s.step(Event::Issued(ESP_OK)), Action::Wait);
    assert!(s.on_interrupt());
    assert_eq!(s.step(Event::Woken), Action::Done);
    assert_eq!(s.write(&[1, 2, 3], 20), Ok(NativeCall::SlaveTransmit { device: 0x55, count: 3, timeout: 20 }));
    let n = s.release();
    assert!(!n.is_armed());
}

#[test]
fn async_device_ids_and_port() {
    let mut bus = bus_on(1);
    assert_eq!(bus.port(), 1);
    let d: AsyncI2cDeviceDriver = attach(&mut bus, 0x10, 3);
    assert_eq!(d.port, 1);
    assert_eq!(d.handle, 3);
    assert_eq!(bus.devices, 1);
}

use esp_i2c::config::{
    device_params, master_bus_params, slave_params, ClockSources, Config, DeviceAddress,
    DeviceConfig, SlaveDeviceConfig, SourceClock,
};
use esp_i2c::error::{check, ErrorKind, I2cError, ESP_ERR_INVALID_ARG, ESP_ERR_NO_MEM, ESP_FAIL};
use esp_i2c::transfer::{native_timeout, BLOCK};

#[test]
fn seven_bit_address_reads_back() {
    let a = DeviceAddress::SevenBit(0x50);
    assert_eq!(a.address(), 80);
    assert!(!a.is_ten_bit());
}

#[test]
fn ten_bit_address_reads_back() {
    let a = DeviceAddress::TenBit(0x321);
    assert_eq!(a.address(), 801);
    assert!(a.is_ten_bit());
}

#[test]
fn baudrate_above_one_megahertz_is_refused() {
    let c = DeviceConfig::new(DeviceAddress::SevenBit(0x23)).baudrate(2_000_000);
    let e = device_params(&c).unwrap_err();
    assert_eq!(e.kind(), ErrorKind::InvalidArgument);
    assert_eq!(e.code(), ESP_ERR_INVALID_ARG);
}

#[test]
fn baudrate_of_400_khz_is_accepted() {
    let c = DeviceConfig::new(DeviceAddress::SevenBit(0x23)).baudrate(400_000);
    let p = device_params(&c).unwrap();
    assert_eq!(p.scl_speed_hz, 400_000);
    assert_eq!(p.device_address, 0x23);
    assert!(!p.ten_bit);
}

#[test]
fn baudrate_of_exactly_one_megahertz_is_accepted() {
    let c = DeviceConfig::new(DeviceAddress::TenBit(0x3ff));
    assert_eq!(c.baudrate, 1_000_000);
    let p = device_params(&c).unwrap();
    assert_eq!(p.device_address, 0x3ff);
    assert!(p.ten_bit);
}

#[test]
fn bus_config_defaults_and_builders() {
    let c = Config::new();
    assert!(c.pullup_enabled);
    assert_eq!(c.source_clock, SourceClock::APB);
    assert_eq!(c.glitch_ignore_cnt, 7);
    assert_eq!(Config::default(), c);
    let c = c.enable_pullup(false).source_clock(SourceClock::RC_FAST).glitch_ignore_count(255);
    assert!(!c.pullup_enabled);
    assert_eq!(c.source_clock, SourceClock::RC_FAST);
    assert_eq!(c.glitch_ignore_cnt, 255);
}

#[test]
fn master_bus_params_follow_config() {
    let c = Config::new().glitch_ignore_count(3);
    let p = master_bus_params(1, 21, 22, &c, 1);
    assert_eq!(p.port, 1);
    assert_eq!(p.sda_io_num, 21);
    assert_eq!(p.scl_io_num, 22);
    assert!(p.enable_internal_pullup);
    assert_eq!(p.glitch_ignore_cnt, 3);
    assert_eq!(p.intr_priority, 0);
    assert_eq!(p.trans_queue_depth, 1);
    assert_eq!(master_bus_params(0, 1, 2, &c, 0).trans_queue_depth, 0);
}

#[test]
fn slave_config_defaults_and_params() {
    let c = SlaveDeviceConfig::new();
    assert_eq!(c.source_clock, SourceClock::APB);
    assert!(!c.broadcast_enable);
    assert_eq!(c.send_buffer_depth, 0);
    assert_eq!(SlaveDeviceConfig::default(), c);
    let c = c.enable_broadcast(true).set_send_buffer_depth(64).source_clock(SourceClock::RC_FAST);
    let p = slave_params(0, 4, 5, DeviceAddress::TenBit(0x155), &c);
    assert!(p.broadcast_en);
    assert!(!p.stretch_en);
    assert_eq!(p.send_buf_depth, 64);
    assert_eq!(p.slave_addr, 0x155);
    assert!(p.ten_bit);
    assert_eq!(p.clk_source, SourceClock::RC_FAST);
}

#[test]
fn source_clock_from_raw_selector() {
    let s = ClockSources { xtal: 5, rc_fast: 9 };
    assert_eq!(SourceClock::from_raw(5, &s), Some(SourceClock::APB));
    assert_eq!(SourceClock::from_raw(9, &s), Some(SourceClock::RC_FAST));
    assert_eq!(SourceClock::from_raw(7, &s), None);
    assert_eq!(s.raw_of(SourceClock::RC_FAST), 9);
    assert_eq!(SourceClock::default(), SourceClock::APB);
}

#[test]
fn native_codes_map_to_error_kinds() {
    assert_eq!(check(0), Ok(()));
    assert_eq!(check(ESP_FAIL).unwrap_err().kind(), ErrorKind::NoAcknowledge);
    assert_eq!(check(ESP_ERR_INVALID_ARG).unwrap_err().kind(), ErrorKind::InvalidArgument);
    assert_eq!(check(ESP_ERR_NO_MEM).unwrap_err().kind(), ErrorKind::ResourceExhausted);
    assert_eq!(check(0x107).unwrap_err().kind(), ErrorKind::Other);
    assert_eq!(check(0x107).unwrap_err().code(), 0x107);
    assert_eq!(I2cError::from_code(-1).kind(), ErrorKind::NoAcknowledge);
}

#[test]
fn timeouts_become_signed_ticks() {
    assert_eq!(native_timeout(BLOCK), -1);
    assert_eq!(native_timeout(0), 0);
    assert_eq!(native_timeout(1000), 1000);
    assert_eq!(native_timeout(0x7fff_ffff), i32::MAX);
    assert_eq!(native_timeout(0x8000_0000), i32::MIN);
}

use vstd::prelude::*;

use crate::error::I2cError;

verus! {

/// The fastest SCL clock a device may be driven at, in hertz.
pub const MAX_BAUDRATE: u32 = 1_000_000;

/// The SCL clock a device gets when none is chosen, in hertz.
pub const DEFAULT_BAUDRATE: u32 = 1_000_000;

/// The glitch filter length a bus gets when none is chosen.
pub const DEFAULT_GLITCH_IGNORE_COUNT: u8 = 7;

/// The clock that feeds the I2C peripheral.
#[allow(non_camel_case_types)]
#[derive(PartialEq, Eq, Structural, Copy, Clone, Debug)]
pub enum SourceClock {
    APB,
    RC_FAST,
}

/// The raw clock selectors of the target chip, as its native headers number them.
#[derive(PartialEq, Eq, Structural, Copy, Clone, Debug)]
pub struct ClockSources {
    pub xtal: u32,
    pub rc_fast: u32,
}

impl ClockSources {
    pub open spec fn distinct(&self) -> bool {
        self.xtal != self.rc_fast
    }

    pub open spec fn raw(&self, clock: SourceClock) -> u32 {
        match clock {
            SourceClock::APB => self.xtal,
            SourceClock::RC_FAST => self.rc_fast,
        }
    }

    /// The raw selector of a clock.
    pub fn raw_of(&self, clock: SourceClock) -> (r: u32)
        ensures
            r == self.raw(clock),
    {
        match clock {
            SourceClock::APB => self.xtal,
            SourceClock::RC_FAST => self.rc_fast,
        }
    }
}

impl SourceClock {
    /// The default clock of the peripheral: the crystal-derived one.
    pub fn default() -> (r: SourceClock)
        ensures
            r == SourceClock::APB,
    {
        SourceClock::APB
    }

    /// The clock a raw selector names, if it names one.
    pub fn from_raw(source_clock: u32, sources: &ClockSources) -> (r: Option<SourceClock>)
        requires
            sources.distinct(),
        ensures
            source_clock == sources.xtal ==> r == Some(SourceClock::APB),
            source_clock == sources.rc_fast ==> r == Some(SourceClock::RC_FAST),
            source_clock != sources.xtal && source_clock != sources.rc_fast ==> r.is_none(),
            r matches Some(c) ==> sources.raw(c) == source_clock,
    {
        if source_clock == sources.xtal {
            Some(SourceClock::APB)
        } else if source_clock == sources.rc_fast {
            Some(SourceClock::RC_FAST)
        } else {
            None
        }
    }
}

/// Configuration of a master bus.
#[derive(PartialEq, Eq, Structural, Clone, Copy, Debug)]
pub struct Config {
    pub pullup_enabled: bool,
    pub source_clock: SourceClock,
    pub glitch_ignore_cnt: u8,
}

impl Config {
    /// Pull-ups on, default clock, a glitch filter of seven cycles.
    pub fn new() -> (r: Config)
        ensures
            r.pullup_enabled,
            r.source_clock == SourceClock::APB,
            r.glitch_ignore_cnt == DEFAULT_GLITCH_IGNORE_COUNT,
    {
        Config {
            pullup_enabled: true,
            source_clock: SourceClock::default(),
            glitch_ignore_cnt: DEFAULT_GLITCH_IGNORE_COUNT,
        }
    }

    #[must_use]
    pub fn enable_pullup(self, enable: bool) -> (r: Config)
        ensures
            r == (Config { pullup_enabled: enable, ..self }),
    {
        Config { pullup_enabled: enable, ..self }
    }

    #[must_use]
    pub fn source_clock(self, source_clock: SourceClock) -> (r: Config)
        ensures
            r == (Config { source_clock, ..self }),
    {
        Config { source_clock, ..self }
    }

    #[must_use]
    pub fn glitch_ignore_count(self, count: u8) -> (r: Config)
        ensures
            r == (Config { glitch_ignore_cnt: count, ..self }),
    {
        Config { glitch_ignore_cnt: count, ..self }
    }
}

impl Default for Config {
    fn default() -> (r: Config)
        ensures
            r == (Config {
                pullup_enabled: true,
                source_clock: SourceClock::APB,
                glitch_ignore_cnt: DEFAULT_GLITCH_IGNORE_COUNT,
            }),
    {
        Config::new()
    }
}

/// A device address, in 7-bit or in 10-bit addressing mode.
#[derive(PartialEq, Eq, Structural, Clone, Copy, Debug)]
pub enum DeviceAddress {
    SevenBit(u8),
    TenBit(u16),
}

impl DeviceAddress {
    pub open spec fn value(&self) -> u16 {
        match self {
            DeviceAddress::SevenBit(a) => *a as u16,
            DeviceAddress::TenBit(a) => *a,
        }
    }

    /// Whether the address fits its mode: below 128 in 7-bit mode, below 1024 in 10-bit mode.
    pub open spec fn in_range(&self) -> bool {
        match self {
            DeviceAddress::SevenBit(a) => *a < 128,
            DeviceAddress::TenBit(a) => *a < 1024,
        }
    }

    /// The numeric address.
    pub fn address(&self) -> (r: u16)
        ensures
            r == self.value(),
    {
        match self {
            DeviceAddress::SevenBit(a) => *a as u16,
            DeviceAddress::TenBit(a) => *a,
        }
    }

    /// Whether the address uses 10-bit mode: the width flag handed to the native layer.
    pub fn is_ten_bit(&self) -> (r: bool)
        ensures
            r == (self is TenBit),
    {
        match self {
            DeviceAddress::SevenBit(_) => false,
            DeviceAddress::TenBit(_) => true,
        }
    }
}

/// Configuration of a device on a master bus.
#[derive(PartialEq, Eq, Structural, Clone, Copy, Debug)]
pub struct DeviceConfig {
    pub address: DeviceAddress,
    pub baudrate: u32,
}

impl DeviceConfig {
    /// A device at the given address, clocked at 1 MHz.
    pub fn new(address: DeviceAddress) -> (r: DeviceConfig)
        ensures
            r.address == address,
            r.baudrate == DEFAULT_BAUDRATE,
    {
        DeviceConfig { address, baudrate: DEFAULT_BAUDRATE }
    }

    #[must_use]
    pub fn baudrate(self, baudrate: u32) -> (r: DeviceConfig)
        ensures
            r == (DeviceConfig { baudrate, ..self }),
    {
        DeviceConfig { baudrate, ..self }
    }
}

/// Configuration of the peripheral in slave mode.
#[derive(PartialEq, Eq, Structural, Clone, Copy, Debug)]
pub struct SlaveDeviceConfig {
    pub source_clock: SourceClock,
    pub broadcast_enable: bool,
    pub send_buffer_depth: u32,
}

impl SlaveDeviceConfig {
    /// Default clock, broadcast off, no send buffer.
    pub fn new() -> (r: SlaveDeviceConfig)
        ensures
            r.source_clock == SourceClock::APB,
            !r.broadcast_enable,
            r.send_buffer_depth == 0,
    {
        SlaveDeviceConfig {
            source_clock: SourceClock::default(),
            broadcast_enable: false,
            send_buffer_depth: 0,
        }
    }

    #[must_use]
    pub fn source_clock(self, source_clock: SourceClock) -> (r: SlaveDeviceConfig)
        ensures
            r == (SlaveDeviceConfig { source_clock, ..self }),
    {
        SlaveDeviceConfig { source_clock, ..self }
    }

    #[must_use]
    pub fn enable_broadcast(self, enable: bool) -> (r: SlaveDeviceConfig)
        ensures
            r == (SlaveDeviceConfig { broadcast_enable: enable, ..self }),
    {
        SlaveDeviceConfig { broadcast_enable: enable, ..self }
    }

    #[must_use]
    pub fn set_send_buffer_depth(self, depth: u32) -> (r: SlaveDeviceConfig)
        ensures
            r == (SlaveDeviceConfig { send_buffer_depth: depth, ..self }),
    {
        SlaveDeviceConfig { send_buffer_depth: depth, ..self }
    }
}

impl Default for SlaveDeviceConfig {
    fn default() -> (r: SlaveDeviceConfig)
        ensures
            r == (SlaveDeviceConfig {
                source_clock: SourceClock::APB,
                broadcast_enable: false,
                send_buffer_depth: 0,
            }),
    {
        SlaveDeviceConfig::new()
    }
}

/// What the native layer is handed to create a master bus.
#[derive(PartialEq, Eq, Structural, Clone, Copy, Debug)]
pub struct MasterBusParams {
    pub port: u8,
    pub sda_io_num: i32,
    pub scl_io_num: i32,
    pub clk_source: SourceClock,
    pub enable_internal_pullup: bool,
    pub glitch_ignore_cnt: u8,
    pub intr_priority: i32,
    pub trans_queue_depth: usize,
}

/// The parameters of a master bus on `port`, with a transfer queue of
/// `max_device_count` entries (0 for blocking use only).
pub fn master_bus_params(
    port: u8,
    sda: i32,
    scl: i32,
    config: &Config,
    max_device_count: usize,
) -> (r: MasterBusParams)
    ensures
        r == (MasterBusParams {
            port,
            sda_io_num: sda,
            scl_io_num: scl,
            clk_source: config.source_clock,
            enable_internal_pullup: config.pullup_enabled,
            glitch_ignore_cnt: config.glitch_ignore_cnt,
            intr_priority: 0,
            trans_queue_depth: max_device_count,
        }),
{
    MasterBusParams {
        port,
        sda_io_num: sda,
        scl_io_num: scl,
        clk_source: config.source_clock,
        enable_internal_pullup: config.pullup_enabled,
        glitch_ignore_cnt: config.glitch_ignore_cnt,
        intr_priority: 0,
        trans_queue_depth: max_device_count,
    }
}

/// What the native layer is handed to attach a device to a bus.
#[derive(PartialEq, Eq, Structural, Clone, Copy, Debug)]
pub struct DeviceParams {
    pub device_address: u16,
    pub ten_bit: bool,
    pub scl_speed_hz: u32,
}

/// Whether a device configuration is accepted: its clock is at most 1 MHz.
pub open spec fn device_config_ok(config: DeviceConfig) -> bool {
    config.baudrate <= MAX_BAUDRATE
}

/// The parameters of a device; a clock above 1 MHz is refused as an invalid argument.
pub fn device_params(config: &DeviceConfig) -> (r: Result<DeviceParams, I2cError>)
    ensures
        device_config_ok(*config) <==> r.is_ok(),
        r matches Ok(p) ==> p == (DeviceParams {
            device_address: config.address.value(),
            ten_bit: config.address is TenBit,
            scl_speed_hz: config.baudrate,
        }),
        r matches Err(e) ==> e == I2cError::invalid_argument_spec(),
{
    if config.baudrate > MAX_BAUDRATE {
        return Err(I2cError::invalid_argument());
    }
    Ok(DeviceParams {
        device_address: config.address.address(),
        ten_bit: config.address.is_ten_bit(),
        scl_speed_hz: config.baudrate,
    })
}

/// What the native layer is handed to put a port in slave mode.
#[derive(PartialEq, Eq, Structural, Clone, Copy, Debug)]
pub struct SlaveParams {
    pub port: u8,
    pub sda_io_num: i32,
    pub scl_io_num: i32,
    pub clk_source: SourceClock,
    pub stretch_en: bool,
    pub broadcast_en: bool,
    pub intr_priority: i32,
    pub slave_addr: u16,
    pub ten_bit: bool,
    pub send_buf_depth: u32,
}

/// The parameters of a slave on `port` answering at `address`; clock stretching stays off.
pub fn slave_params(
    port: u8,
    sda: i32,
    scl: i32,
    address: DeviceAddress,
    config: &SlaveDeviceConfig,
) -> (r: SlaveParams)
    ensures
        r == (SlaveParams {
            port,
            sda_io_num: sda,
            scl_io_num: scl,
            clk_source: config.source_clock,
            stretch_en: false,
            broadcast_en: config.broadcast_enable,
            intr_priority: 0,
            slave_addr: address.value(),
            ten_bit: address is TenBit,
            send_buf_depth: config.send_buffer_depth,
        }),
{
    SlaveParams {
        port,
        sda_io_num: sda,
        scl_io_num: scl,
        clk_source: config.source_clock,
        stretch_en: false,
        broadcast_en: config.broadcast_enable,
        intr_priority: 0,
        slave_addr: address.address(),
        ten_bit: address.is_ten_bit(),
        send_buf_depth: config.send_buffer_depth,
    }
}

} // verus!

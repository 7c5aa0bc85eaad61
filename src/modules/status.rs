//! The status block: identity, capabilities, version, temperature and reset.
use vstd::prelude::*;
use crate::common::{hardware_id_code, module_id, reg, HardwareId, Modules};
use crate::driver::{read_ops, read_u32, read_u8, write_ops, write_u8, BusOp, Transaction};
use crate::bytes::be_bytes;
use crate::SeesawError;

verus! {

/// Function id of the hardware id register (1 byte, read).
pub const HW_ID: u8 = 0x01;

/// Function id of the version word register (4 bytes, read).
pub const VERSION: u8 = 0x02;

/// Function id of the capability word register (4 bytes, read).
pub const OPTIONS: u8 = 0x03;

/// Function id of the temperature register (4 bytes, read).
pub const TEMP: u8 = 0x04;

/// Function id of the software reset register (1 byte, write).
pub const SWRST: u8 = 0x7F;

/// The byte that, written to the reset register, restarts the firmware.
pub const RESET_COMMAND: u8 = 0xFF;

/// How long, in microseconds, the peripheral needs to restart after a reset.
pub const RESET_DELAY_MICROS: u32 = 125_000;

/// The address of the status register `function`.
pub open spec fn status_reg(function: u8) -> Seq<u8> {
    seq![module_id(Modules::Status), function]
}

/// Reads the hardware id byte; decode the reply with `decode_u8`.
pub fn hardware_id(addr: u8) -> (r: Transaction)
    ensures
        r@ == read_ops(addr, status_reg(HW_ID), 1),
{
    read_u8(addr, &reg(Modules::Status, HW_ID))
}

/// Reads the capability word; decode the reply with `decode_u32` and
/// `DeviceCapabilities::from`.
pub fn capabilities(addr: u8) -> (r: Transaction)
    ensures
        r@ == read_ops(addr, status_reg(OPTIONS), 4),
{
    read_u32(addr, &reg(Modules::Status, OPTIONS))
}

/// Reads the version word; decode the reply with `decode_u32` and
/// `ProductDateCode::from`.
pub fn product_info(addr: u8) -> (r: Transaction)
    ensures
        r@ == read_ops(addr, status_reg(VERSION), 4),
{
    read_u32(addr, &reg(Modules::Status, VERSION))
}

/// Reads the temperature word, a fixed-point number of degrees Celsius with
/// 16 fractional bits; decode the reply with `decode_u32`.
pub fn temp(addr: u8) -> (r: Transaction)
    ensures
        r@ == read_ops(addr, status_reg(TEMP), 4),
{
    read_u32(addr, &reg(Modules::Status, TEMP))
}

/// The steps of a reset: the reset command, then the wait for the restart.
pub open spec fn reset_ops(addr: u8) -> Seq<BusOp> {
    write_ops(addr, status_reg(SWRST), be_bytes(RESET_COMMAND as nat, 1)).push(
        BusOp::Delay { micros: RESET_DELAY_MICROS },
    )
}

/// Restarts the peripheral's firmware and waits for it to come back.
pub fn reset(addr: u8) -> (r: Transaction)
    ensures
        r@ == reset_ops(addr),
{
    let mut t = write_u8(addr, &reg(Modules::Status, SWRST), RESET_COMMAND);
    t.delay(RESET_DELAY_MICROS);
    t
}

/// Resets the peripheral, then reads its hardware id; check the one-byte
/// reply with `verify_hardware_id`.
pub fn reset_and_verify_seesaw(addr: u8) -> (r: Transaction)
    ensures
        r@ == reset_ops(addr) + read_ops(addr, status_reg(HW_ID), 1),
{
    let mut t = reset(addr);
    t.append(hardware_id(addr));
    t
}

/// Whether the hardware id read back after a reset is the one `expected`:
/// success when it is, the invalid-hardware-id error carrying the byte read
/// when it is not.
pub fn verify_hardware_id<E>(expected: HardwareId, reply: &[u8]) -> (r: Result<(), SeesawError<E>>)
    requires
        reply@.len() == 1,
    ensures
        reply@[0] == hardware_id_code(expected) ==> r == Ok::<(), SeesawError<E>>(()),
        reply@[0] != hardware_id_code(expected) ==> r == Err::<(), SeesawError<E>>(
            SeesawError::InvalidHardwareId(reply@[0]),
        ),
{
    let current_id = reply[0];
    if current_id == expected.into_u8() {
        Ok(())
    } else {
        Err(SeesawError::InvalidHardwareId(current_id))
    }
}

/// Which register blocks a device reports that it implements.
#[derive(Copy, Clone, Debug, PartialEq, Eq, Structural)]
pub struct DeviceCapabilities {
    pub adc: bool,
    pub dac: bool,
    pub dap: bool,
    pub eeprom: bool,
    pub encoder: bool,
    pub gpio: bool,
    pub interrupt: bool,
    pub keypad: bool,
    pub neopixel: bool,
    pub sercom0: bool,
    pub spectrum: bool,
    pub status: bool,
    pub timer: bool,
    pub touch: bool,
}

/// Whether `word` announces the block `m`: the bit at `m`'s block id is set.
pub open spec fn announces(word: u32, m: Modules) -> bool {
    (word >> module_id(m)) & 1 == 1
}

/// The capabilities that the capability word `word` announces.
pub open spec fn capabilities_of(word: u32) -> DeviceCapabilities {
    DeviceCapabilities {
        adc: announces(word, Modules::Adc),
        dac: announces(word, Modules::Dac),
        dap: announces(word, Modules::Dap),
        eeprom: announces(word, Modules::Eeprom),
        encoder: announces(word, Modules::Encoder),
        gpio: announces(word, Modules::Gpio),
        interrupt: announces(word, Modules::Interrupt),
        keypad: announces(word, Modules::Keypad),
        neopixel: announces(word, Modules::Neopixel),
        sercom0: announces(word, Modules::Sercom0),
        spectrum: announces(word, Modules::Spectrum),
        status: announces(word, Modules::Status),
        timer: announces(word, Modules::Timer),
        touch: announces(word, Modules::Touch),
    }
}

fn announced(word: u32, m: Modules) -> (r: bool)
    ensures
        r == announces(word, m),
{
    word >> m.into_u8() & 1 == 1
}

impl From<u32> for DeviceCapabilities {
    fn from(value: u32) -> (r: Self) {
        DeviceCapabilities {
            adc: announced(value, Modules::Adc),
            dac: announced(value, Modules::Dac),
            dap: announced(value, Modules::Dap),
            eeprom: announced(value, Modules::Eeprom),
            encoder: announced(value, Modules::Encoder),
            gpio: announced(value, Modules::Gpio),
            interrupt: announced(value, Modules::Interrupt),
            keypad: announced(value, Modules::Keypad),
            neopixel: announced(value, Modules::Neopixel),
            sercom0: announced(value, Modules::Sercom0),
            spectrum: announced(value, Modules::Spectrum),
            status: announced(value, Modules::Status),
            timer: announced(value, Modules::Timer),
            touch: announced(value, Modules::Touch),
        }
    }
}

impl vstd::std_specs::convert::FromSpecImpl<u32> for DeviceCapabilities {
    open spec fn obeys_from_spec() -> bool {
        true
    }

    open spec fn from_spec(v: u32) -> Self {
        capabilities_of(v)
    }
}

/// The product id and build date that a device reports in its version word,
/// decoded as reported: nothing holds the fields to the calendar.
#[derive(Copy, Clone, Debug, PartialEq, Eq, Structural)]
pub struct ProductDateCode {
    pub id: u16,
    pub year: u16,
    pub month: u8,
    pub day: u8,
}

/// The fields of the version word `word`: the product id in bits 16 to 31,
/// the day in bits 11 to 15, the month in bits 7 to 10, and the year less
/// 2000 in bits 0 to 5.
pub open spec fn date_code_of(word: u32) -> ProductDateCode {
    ProductDateCode {
        id: (word >> 16) as u16,
        year: (2000 + (word & 0x3F)) as u16,
        month: ((word >> 7) & 0xF) as u8,
        day: ((word >> 11) & 0x1F) as u8,
    }
}

impl From<u32> for ProductDateCode {
    fn from(vers: u32) -> (r: Self) {
        assert(vers & 0x3F <= 0x3F) by (bit_vector);
        assert(vers >> 16 <= 0xFFFF) by (bit_vector);
        assert((vers >> 7) & 0xF <= 0xF) by (bit_vector);
        assert((vers >> 11) & 0x1F <= 0x1F) by (bit_vector);
        Self {
            id: (vers >> 16) as u16,
            year: ((vers & 0x3F) + 2000) as u16,
            month: ((vers >> 7) & 0xF) as u8,
            day: ((vers >> 11) & 0x1F) as u8,
        }
    }
}

impl vstd::std_specs::convert::FromSpecImpl<u32> for ProductDateCode {
    open spec fn obeys_from_spec() -> bool {
        true
    }

    open spec fn from_spec(v: u32) -> Self {
        date_code_of(v)
    }
}

} // verus!

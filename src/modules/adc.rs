//! The analog-to-digital converter block.
use vstd::prelude::*;
use crate::common::{module_id, reg, HardwareId, Modules};
use crate::driver::{read_ops, read_u16, Transaction};

verus! {

/// Function id of the register that holds the reading of channel 0; channel
/// `k` follows at `CHANNEL_0 + k` (2 bytes each, read).
pub const CHANNEL_0: u8 = 0x07;

/// The channel offset that serves logical pin `pin` on the silicon `hardware_id`:
/// the pin itself on the ATtiny817; on the SAMD09, pins 2, 3, 4 and 5 are
/// channels 0, 1, 2 and 3, and any other pin falls back to channel 0.
pub open spec fn pin_offset_of(hardware_id: HardwareId, pin: u8) -> u8 {
    match hardware_id {
        HardwareId::ATTINY817 => pin,
        HardwareId::SAMD09 => if 2 <= pin <= 5 {
            (pin - 2) as u8
        } else {
            0
        },
    }
}

/// Maps a logical pin to its channel offset on the silicon `hardware_id`.
pub fn pin_offset(hardware_id: HardwareId, pin: u8) -> (r: u8)
    ensures
        r == pin_offset_of(hardware_id, pin),
{
    match hardware_id {
        HardwareId::ATTINY817 => pin,
        HardwareId::SAMD09 => match pin {
            2 => 0,
            3 => 1,
            4 => 2,
            5 => 3,
            _ => 0,
        },
    }
}

/// Whether the channel register of `pin` has a function id that fits in a byte.
pub open spec fn has_channel(hardware_id: HardwareId, pin: u8) -> bool {
    CHANNEL_0 + pin_offset_of(hardware_id, pin) <= 0xFF
}

/// Reads the 10-bit conversion of the channel that serves `pin`; decode the
/// reply with `decode_u16`.
pub fn analog_read(hardware_id: HardwareId, addr: u8, pin: u8) -> (r: Transaction)
    requires
        has_channel(hardware_id, pin),
    ensures
        r@ == read_ops(
            addr,
            seq![module_id(Modules::Adc), (CHANNEL_0 + pin_offset_of(hardware_id, pin)) as u8],
            2,
        ),
{
    let offset = pin_offset(hardware_id, pin);
    read_u16(addr, &reg(Modules::Adc, CHANNEL_0 + offset))
}

} // verus!

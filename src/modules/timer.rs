//! The PWM block.
use vstd::prelude::*;
use crate::bytes::be_bytes;
use crate::common::{module_id, reg, HardwareId, Modules};
use crate::driver::{write_ops, write_u16, Transaction};
use crate::modules::adc::{pin_offset, pin_offset_of};

verus! {

/// Function id of the PWM value register: the output's number, then its
/// duty cycle (2 bytes, write).
pub const PWM_VAL: u8 = 0x01;

/// Sets the duty cycle of the PWM output that serves `pin`, numbered on the
/// silicon `hardware_id` as the ADC numbers its channels.
pub fn analog_write(hardware_id: HardwareId, addr: u8, pin: u8, value: u8) -> (r: Transaction)
    ensures
        r@ == write_ops(
            addr,
            seq![module_id(Modules::Timer), PWM_VAL],
            seq![pin_offset_of(hardware_id, pin), value],
        ),
{
    let mapped_pin = pin_offset(hardware_id, pin);
    let word: u16 = mapped_pin as u16 * 256 + value as u16;
    proof {
        reveal_with_fuel(be_bytes, 3);
        assert(be_bytes(word as nat, 2) =~= seq![mapped_pin, value]);
    }
    write_u16(addr, &reg(Modules::Timer, PWM_VAL), word)
}

} // verus!

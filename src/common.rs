//! Identifiers shared by every register block: module ids, silicon variants and
//! the two-byte register address.
use vstd::prelude::*;

verus! {

/// A register address: the id of the register block followed by the function id
/// inside that block.
pub type Reg = [u8; 2];

/// The register blocks ("modules") that a Seesaw peripheral may implement.
#[derive(Copy, Clone, Debug, PartialEq, Eq, Structural)]
pub enum Modules {
    Status,
    Gpio,
    Sercom0,
    Timer,
    Adc,
    Dac,
    Interrupt,
    Dap,
    Eeprom,
    Neopixel,
    Touch,
    Keypad,
    Encoder,
    Spectrum,
}

/// The block id that addresses `m` on the wire, and the bit that announces `m`
/// in the capability word.
pub open spec fn module_id(m: Modules) -> u8 {
    match m {
        Modules::Status => 0x00,
        Modules::Gpio => 0x01,
        Modules::Sercom0 => 0x02,
        Modules::Timer => 0x08,
        Modules::Adc => 0x09,
        Modules::Dac => 0x0A,
        Modules::Interrupt => 0x0B,
        Modules::Dap => 0x0C,
        Modules::Eeprom => 0x0D,
        Modules::Neopixel => 0x0E,
        Modules::Touch => 0x0F,
        Modules::Keypad => 0x10,
        Modules::Encoder => 0x11,
        Modules::Spectrum => 0x12,
    }
}

impl Modules {
    pub fn into_u8(self) -> (r: u8)
        ensures
            r == module_id(self),
    {
        match self {
            Modules::Status => 0x00,
            Modules::Gpio => 0x01,
            Modules::Sercom0 => 0x02,
            Modules::Timer => 0x08,
            Modules::Adc => 0x09,
            Modules::Dac => 0x0A,
            Modules::Interrupt => 0x0B,
            Modules::Dap => 0x0C,
            Modules::Eeprom => 0x0D,
            Modules::Neopixel => 0x0E,
            Modules::Touch => 0x0F,
            Modules::Keypad => 0x10,
            Modules::Encoder => 0x11,
            Modules::Spectrum => 0x12,
        }
    }
}

/// The silicon variants that run the Seesaw firmware. The variant decides how
/// logical pins are numbered on the ADC and PWM blocks.
#[allow(non_camel_case_types)]
#[derive(Copy, Clone, Debug, PartialEq, Eq, Structural)]
pub enum HardwareId {
    ATTINY817,
    SAMD09,
}

/// The byte that the status block reports as the hardware id of `h`.
pub open spec fn hardware_id_code(h: HardwareId) -> u8 {
    match h {
        HardwareId::ATTINY817 => 0x87,
        HardwareId::SAMD09 => 0x55,
    }
}

impl HardwareId {
    pub fn into_u8(self) -> (r: u8)
        ensures
            r == hardware_id_code(self),
    {
        match self {
            HardwareId::ATTINY817 => 0x87,
            HardwareId::SAMD09 => 0x55,
        }
    }
}

impl From<HardwareId> for u8 {
    fn from(h: HardwareId) -> (r: u8) {
        h.into_u8()
    }
}

impl vstd::std_specs::convert::FromSpecImpl<HardwareId> for u8 {
    open spec fn obeys_from_spec() -> bool {
        true
    }

    open spec fn from_spec(h: HardwareId) -> u8 {
        hardware_id_code(h)
    }
}

/// The register `function` of the block `module`.
pub fn reg(module: Modules, function: u8) -> (r: Reg)
    ensures
        r@ == seq![module_id(module), function],
{
    [module.into_u8(), function]
}

} // verus!

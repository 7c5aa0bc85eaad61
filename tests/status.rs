use adafruit_seesaw::driver::{decode_u32, decode_u8, BusStep};
use adafruit_seesaw::modules::status::{
    capabilities, hardware_id, product_info, reset, reset_and_verify_seesaw, temp,
    verify_hardware_id,
};
use adafruit_seesaw::{DeviceCapabilities, HardwareId, Modules, ProductDateCode, SeesawError};

const ADDR: u8 = 0x36;

fn none() -> DeviceCapabilities {
    DeviceCapabilities {
        adc: false,
        dac: false,
        dap: false,
        eeprom: false,
        encoder: false,
        gpio: false,
        interrupt: false,
        keypad: false,
        neopixel: false,
        sercom0: false,
        spectrum: false,
        status: false,
        timer: false,
        touch: false,
    }
}

#[test]
fn capabilities_of_zero_are_all_false() {
    assert_eq!(DeviceCapabilities::from(0), none());
}

#[test]
fn capabilities_with_only_the_neopixel_bit() {
    let word = 1u32 << Modules::Neopixel.into_u8();
    assert_eq!(word, 1 << 14);
    let mut expected = none();
    expected.neopixel = true;
    assert_eq!(DeviceCapabilities::from(word), expected);
}

#[test]
fn capabilities_read_each_module_bit() {
    let c = DeviceCapabilities::from((1 << 0x09) | (1 << 0x01) | (1 << 0x11));
    let mut expected = none();
    expected.adc = true;
    expected.gpio = true;
    expected.encoder = true;
    assert_eq!(c, expected);
    let all = DeviceCapabilities::from(u32::MAX);
    assert!(all.adc && all.dac && all.dap && all.eeprom && all.encoder && all.gpio);
    assert!(all.interrupt && all.keypad && all.neopixel && all.sercom0 && all.spectrum);
    assert!(all.status && all.timer && all.touch);
}

#[test]
fn product_date_code_decodes_a_literal_word() {
    let word: u32 = (5678 << 16) | (17 << 11) | (9 << 7) | 23;
    assert_eq!(
        ProductDateCode::from(word),
        ProductDateCode { id: 5678, year: 2023, month: 9, day: 17 }
    );
}

#[test]
fn product_date_code_is_not_checked_against_the_calendar() {
    let word: u32 = 0x0000_FFFF;
    let code = ProductDateCode::from(word);
    assert_eq!(code.id, 0);
    assert_eq!(code.year, 2063);
    assert_eq!(code.month, 15);
    assert_eq!(code.day, 31);
}

#[test]
fn status_reads_address_their_registers() {
    assert_eq!(hardware_id(ADDR).steps[0], BusStep::Write { addr: ADDR, bytes: vec![0x00, 0x01] });
    assert_eq!(hardware_id(ADDR).steps[2], BusStep::Read { addr: ADDR, len: 1 });
    assert_eq!(product_info(ADDR).steps[0], BusStep::Write { addr: ADDR, bytes: vec![0x00, 0x02] });
    assert_eq!(capabilities(ADDR).steps[0], BusStep::Write { addr: ADDR, bytes: vec![0x00, 0x03] });
    assert_eq!(temp(ADDR).steps[0], BusStep::Write { addr: ADDR, bytes: vec![0x00, 0x04] });
    assert_eq!(temp(ADDR).steps[2], BusStep::Read { addr: ADDR, len: 4 });
}

#[test]
fn reset_writes_the_command_then_waits_for_the_restart() {
    assert_eq!(
        reset(ADDR).steps,
        vec![
            BusStep::Write { addr: ADDR, bytes: vec![0x00, 0x7F, 0xFF] },
            BusStep::Delay { micros: 125 },
            BusStep::Delay { micros: 125_000 },
        ]
    );
}

#[test]
fn reset_and_verify_resets_then_reads_the_id() {
    assert_eq!(
        reset_and_verify_seesaw(ADDR).steps,
        vec![
            BusStep::Write { addr: ADDR, bytes: vec![0x00, 0x7F, 0xFF] },
            BusStep::Delay { micros: 125 },
            BusStep::Delay { micros: 125_000 },
            BusStep::Write { addr: ADDR, bytes: vec![0x00, 0x01] },
            BusStep::Delay { micros: 125 },
            BusStep::Read { addr: ADDR, len: 1 },
        ]
    );
}

#[test]
fn verify_hardware_id_accepts_the_expected_id() {
    assert!(matches!(verify_hardware_id::<()>(HardwareId::SAMD09, &[0x55]), Ok(())));
    assert!(matches!(verify_hardware_id::<()>(HardwareId::ATTINY817, &[0x87]), Ok(())));
}

#[test]
fn verify_hardware_id_reports_the_byte_read() {
    assert!(matches!(
        verify_hardware_id::<()>(HardwareId::SAMD09, &[0x87]),
        Err(SeesawError::InvalidHardwareId(0x87))
    ));
    assert!(matches!(
        verify_hardware_id::<()>(HardwareId::ATTINY817, &[0x00]),
        Err(SeesawError::InvalidHardwareId(0x00))
    ));
}

#[test]
fn bus_errors_convert_into_the_i2c_case() {
    let e: SeesawError<u32> = SeesawError::from(7u32);
    assert!(matches!(e, SeesawError::I2c(7)));
}

#[test]
fn hardware_id_reply_is_the_byte_read() {
    assert_eq!(decode_u8(&[0x55]), HardwareId::SAMD09.into_u8());
}

#[test]
fn temperature_word_one_is_one_degree() {
    let raw = decode_u32(&[0x00, 0x01, 0x00, 0x00]);
    assert_eq!(raw, 1 << 16);
    let celsius = raw as f32 / (1u32 << 16) as f32;
    assert_eq!(celsius, 1.0);
}

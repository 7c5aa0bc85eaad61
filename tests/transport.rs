use adafruit_seesaw::driver::{
    decode_i16, decode_i32, decode_i64, decode_i8, decode_u16, decode_u32, decode_u64, decode_u8,
    read_i16, read_i32, read_i64, read_i8, read_u16, read_u32, read_u64, read_u8, register_read,
    register_write, write_i16, write_i32, write_i64, write_i8, write_u16, write_u32, write_u64,
    write_u8, BusStep, Transaction, DELAY_TIME_MICROS,
};
use adafruit_seesaw::bytes::{decode_be, encode_be};

const ADDR: u8 = 0x49;
const REG: [u8; 2] = [0x0E, 0x04];

/// A bus that keeps the payload of the last register write and hands it back
/// to the next read. Returns the bytes read.
fn run_echo(memory: &mut Vec<u8>, t: &Transaction) -> Vec<u8> {
    let mut reply = Vec::new();
    for step in &t.steps {
        match step {
            BusStep::Write { addr, bytes } => {
                assert_eq!(*addr, ADDR);
                if bytes.len() > 2 {
                    *memory = bytes[2..].to_vec();
                }
            }
            BusStep::Read { addr, len } => {
                assert_eq!(*addr, ADDR);
                reply.extend_from_slice(&memory[..*len]);
            }
            BusStep::Delay { .. } => {}
        }
    }
    reply
}

#[test]
fn register_read_addresses_waits_then_reads() {
    let t = register_read(ADDR, &[0x00, 0x01], 4);
    assert_eq!(
        t.steps,
        vec![
            BusStep::Write { addr: ADDR, bytes: vec![0x00, 0x01] },
            BusStep::Delay { micros: 125 },
            BusStep::Read { addr: ADDR, len: 4 },
        ]
    );
}

#[test]
fn register_write_is_one_framed_write() {
    let t = register_write(ADDR, &REG, &[1, 2, 3]);
    assert_eq!(
        t.steps,
        vec![
            BusStep::Write { addr: ADDR, bytes: vec![0x0E, 0x04, 1, 2, 3] },
            BusStep::Delay { micros: DELAY_TIME_MICROS },
        ]
    );
}

#[test]
fn register_write_with_no_payload_sends_address_only() {
    let t = register_write(ADDR, &[0x0E, 0x05], &[]);
    assert_eq!(
        t.steps,
        vec![
            BusStep::Write { addr: ADDR, bytes: vec![0x0E, 0x05] },
            BusStep::Delay { micros: 125 },
        ]
    );
}

#[test]
fn writes_are_big_endian() {
    let t = write_u16(ADDR, &REG, 0x1234);
    assert_eq!(t.steps[0], BusStep::Write { addr: ADDR, bytes: vec![0x0E, 0x04, 0x12, 0x34] });
    let t = write_u32(ADDR, &REG, 0xDEADBEEF);
    assert_eq!(t.steps[0], BusStep::Write { addr: ADDR, bytes: vec![0x0E, 0x04, 0xDE, 0xAD, 0xBE, 0xEF] });
    let t = write_i16(ADDR, &REG, -2);
    assert_eq!(t.steps[0], BusStep::Write { addr: ADDR, bytes: vec![0x0E, 0x04, 0xFF, 0xFE] });
    let t = write_u8(ADDR, &REG, 0xAB);
    assert_eq!(t.steps[0], BusStep::Write { addr: ADDR, bytes: vec![0x0E, 0x04, 0xAB] });
}

#[test]
fn reads_ask_for_the_width_of_the_type() {
    assert_eq!(read_u8(ADDR, &REG).steps[2], BusStep::Read { addr: ADDR, len: 1 });
    assert_eq!(read_i8(ADDR, &REG).steps[2], BusStep::Read { addr: ADDR, len: 1 });
    assert_eq!(read_u16(ADDR, &REG).steps[2], BusStep::Read { addr: ADDR, len: 2 });
    assert_eq!(read_i16(ADDR, &REG).steps[2], BusStep::Read { addr: ADDR, len: 2 });
    assert_eq!(read_u32(ADDR, &REG).steps[2], BusStep::Read { addr: ADDR, len: 4 });
    assert_eq!(read_i32(ADDR, &REG).steps[2], BusStep::Read { addr: ADDR, len: 4 });
    assert_eq!(read_u64(ADDR, &REG).steps[2], BusStep::Read { addr: ADDR, len: 8 });
    assert_eq!(read_i64(ADDR, &REG).steps[2], BusStep::Read { addr: ADDR, len: 8 });
}

#[test]
fn decoders_read_big_endian() {
    assert_eq!(decode_u8(&[0x7F]), 0x7F);
    assert_eq!(decode_i8(&[0xFF]), -1);
    assert_eq!(decode_u16(&[0x12, 0x34]), 0x1234);
    assert_eq!(decode_i16(&[0xFF, 0xFE]), -2);
    assert_eq!(decode_u32(&[0x00, 0x01, 0x00, 0x00]), 1 << 16);
    assert_eq!(decode_i32(&[0x80, 0, 0, 0]), i32::MIN);
    assert_eq!(decode_u64(&[1, 2, 3, 4, 5, 6, 7, 8]), 0x0102030405060708);
    assert_eq!(decode_i64(&[0xFF; 8]), -1);
}

#[test]
fn encode_and_decode_be_agree() {
    assert_eq!(encode_be(0x0102, 2), vec![1, 2]);
    assert_eq!(encode_be(0x0102, 3), vec![0, 1, 2]);
    assert_eq!(encode_be(0x0102, 1), vec![2]);
    assert_eq!(encode_be(7, 0), Vec::<u8>::new());
    assert_eq!(decode_be(&[]), 0);
    assert_eq!(decode_be(&[0xFF; 8]), u64::MAX);
}

#[test]
fn unsigned_values_round_trip_through_an_echo_bus() {
    let mut memory = Vec::new();
    for v in [0u8, 1, 0x80, u8::MAX] {
        run_echo(&mut memory, &write_u8(ADDR, &REG, v));
        assert_eq!(decode_u8(&run_echo(&mut memory, &read_u8(ADDR, &REG))), v);
    }
    for v in [0u16, 1, 0x1234, u16::MAX] {
        run_echo(&mut memory, &write_u16(ADDR, &REG, v));
        assert_eq!(decode_u16(&run_echo(&mut memory, &read_u16(ADDR, &REG))), v);
    }
    for v in [0u32, 1, 0xDEADBEEF, u32::MAX] {
        run_echo(&mut memory, &write_u32(ADDR, &REG, v));
        assert_eq!(decode_u32(&run_echo(&mut memory, &read_u32(ADDR, &REG))), v);
    }
    for v in [0u64, 1, 0x0123456789ABCDEF, u64::MAX] {
        run_echo(&mut memory, &write_u64(ADDR, &REG, v));
        assert_eq!(decode_u64(&run_echo(&mut memory, &read_u64(ADDR, &REG))), v);
    }
}

#[test]
fn signed_values_round_trip_through_an_echo_bus() {
    let mut memory = Vec::new();
    for v in [0i8, -1, i8::MIN, i8::MAX] {
        run_echo(&mut memory, &write_i8(ADDR, &REG, v));
        assert_eq!(decode_i8(&run_echo(&mut memory, &read_i8(ADDR, &REG))), v);
    }
    for v in [0i16, -2, i16::MIN, i16::MAX] {
        run_echo(&mut memory, &write_i16(ADDR, &REG, v));
        assert_eq!(decode_i16(&run_echo(&mut memory, &read_i16(ADDR, &REG))), v);
    }
    for v in [0i32, -123456, i32::MIN, i32::MAX] {
        run_echo(&mut memory, &write_i32(ADDR, &REG, v));
        assert_eq!(decode_i32(&run_echo(&mut memory, &read_i32(ADDR, &REG))), v);
    }
    for v in [0i64, -1, i64::MIN, i64::MAX] {
        run_echo(&mut memory, &write_i64(ADDR, &REG, v));
        assert_eq!(decode_i64(&run_echo(&mut memory, &read_i64(ADDR, &REG))), v);
    }
}

#[test]
fn transactions_append_in_order() {
    let mut t = Transaction::new();
    t.write(ADDR, vec![1]);
    t.delay(10);
    let mut u = Transaction::new();
    u.read(ADDR, 2);
    t.append(u);
    assert_eq!(
        t.steps,
        vec![
            BusStep::Write { addr: ADDR, bytes: vec![1] },
            BusStep::Delay { micros: 10 },
            BusStep::Read { addr: ADDR, len: 2 },
        ]
    );
}

//! The addressable LED block.
use vstd::prelude::*;
use crate::bytes::be_bytes;
use crate::common::{module_id, reg, Modules};
use crate::driver::{
    register_write, write_ops, write_u16, write_u8, BusOp, Transaction, DELAY_TIME_MICROS,
};

verus! {

/// Function id of the output pin register (1 byte, write).
pub const SET_PIN: u8 = 0x01;

/// Function id of the protocol speed register (1 byte, write).
pub const SET_SPEED: u8 = 0x02;

/// Function id of the buffer length register, in bytes (2 bytes, write).
pub const SET_LEN: u8 = 0x03;

/// Function id of the pixel buffer: a 2-byte start offset, then the data.
pub const SET_BUF: u8 = 0x04;

/// Function id of the command that shows the buffer (no data).
pub const SHOW: u8 = 0x05;

/// How long, in microseconds, the block needs to settle after a setting changes.
pub const SETTLE_DELAY_MICROS: u32 = 10_000;

/// The most LEDs whose buffer length, 3 bytes each, the length register holds.
pub const MAX_LEDS: u16 = 21845;

/// The protocol speed of the LED string.
#[derive(Copy, Clone, Debug, PartialEq, Eq, Structural)]
pub enum NeopixelSpeed {
    Khz400,
    Khz800,
}

impl Default for NeopixelSpeed {
    fn default() -> (r: Self)
        ensures
            r == NeopixelSpeed::Khz800,
    {
        NeopixelSpeed::Khz800
    }
}

/// The byte that selects `speed` in the speed register.
pub open spec fn speed_bit(speed: NeopixelSpeed) -> u8 {
    match speed {
        NeopixelSpeed::Khz400 => 0,
        NeopixelSpeed::Khz800 => 1,
    }
}

/// The address of the LED register `function`.
pub open spec fn neopixel_reg(function: u8) -> Seq<u8> {
    seq![module_id(Modules::Neopixel), function]
}

/// The wait that follows a change of setting.
pub open spec fn settle() -> BusOp {
    BusOp::Delay { micros: SETTLE_DELAY_MICROS }
}

/// Sets the output pin to `pin` and the buffer length to 3 bytes for each of
/// `n_leds` LEDs, letting the block settle after each.
pub fn enable_neopixel(addr: u8, pin: u8, n_leds: u16) -> (r: Transaction)
    requires
        n_leds <= MAX_LEDS,
    ensures
        r@ == write_ops(addr, neopixel_reg(SET_PIN), be_bytes(pin as nat, 1)).push(settle())
            + write_ops(addr, neopixel_reg(SET_LEN), be_bytes(3 * n_leds as nat, 2)).push(settle()),
{
    let mut t = write_u8(addr, &reg(Modules::Neopixel, SET_PIN), pin);
    t.delay(SETTLE_DELAY_MICROS);
    t.append(write_u16(addr, &reg(Modules::Neopixel, SET_LEN), 3 * n_leds));
    t.delay(SETTLE_DELAY_MICROS);
    t
}

/// Sets the protocol speed, letting the block settle after it.
pub fn set_neopixel_speed(addr: u8, speed: NeopixelSpeed) -> (r: Transaction)
    ensures
        r@ == write_ops(addr, neopixel_reg(SET_SPEED), seq![speed_bit(speed)]).push(settle()),
{
    let speed_bit: u8 = match speed {
        NeopixelSpeed::Khz400 => 0,
        NeopixelSpeed::Khz800 => 1,
    };
    proof {
        reveal_with_fuel(be_bytes, 2);
    }
    let mut t = write_u8(addr, &reg(Modules::Neopixel, SET_SPEED), speed_bit);
    t.delay(SETTLE_DELAY_MICROS);
    t
}

/// The write that puts `color` into the buffer slot of LED `n`: the slot's
/// offset, 3 bytes per LED, then red, green, blue and a zero byte.
pub open spec fn pixel_ops(addr: u8, n: nat, color: (u8, u8, u8)) -> Seq<BusOp> {
    let frame = be_bytes(3 * n, 2) + seq![color.0, color.1, color.2, 0u8];
    write_ops(addr, neopixel_reg(SET_BUF), frame)
}

/// The writes that put `colors` into the buffer, LED 0 first.
pub open spec fn pixels_ops(addr: u8, colors: Seq<(u8, u8, u8)>) -> Seq<BusOp>
    decreases colors.len(),
{
    if colors.len() == 0 {
        Seq::empty()
    } else {
        pixels_ops(addr, colors.drop_last()) + pixel_ops(
            addr,
            (colors.len() - 1) as nat,
            colors.last(),
        )
    }
}

/// Puts the color (`r`, `g`, `b`) into the buffer slot of LED `n`, one of the
/// `n_leds` LEDs of the device.
pub fn set_nth_neopixel_color(addr: u8, n_leds: u16, n: u16, r: u8, g: u8, b: u8) -> (t:
    Transaction)
    requires
        n < n_leds <= MAX_LEDS,
    ensures
        t@ == pixel_ops(addr, n as nat, (r, g, b)),
{
    let offset: u16 = 3 * n;
    let zero: u8 = (offset / 256) as u8;
    let one: u8 = (offset % 256) as u8;
    proof {
        reveal_with_fuel(be_bytes, 3);
        assert(seq![zero, one] =~= be_bytes(offset as nat, 2));
    }
    let frame: [u8; 6] = [zero, one, r, g, b, 0x00];
    let t = register_write(addr, &reg(Modules::Neopixel, SET_BUF), &frame);
    assert(frame@ =~= be_bytes(3 * n as nat, 2) + seq![r, g, b, 0u8]);
    t
}

/// Puts the color (`r`, `g`, `b`) into the buffer slot of the first LED.
pub fn set_neopixel_color(addr: u8, n_leds: u16, r: u8, g: u8, b: u8) -> (t: Transaction)
    requires
        0 < n_leds <= MAX_LEDS,
    ensures
        t@ == pixel_ops(addr, 0, (r, g, b)),
{
    set_nth_neopixel_color(addr, n_leds, 0, r, g, b)
}

/// Puts `colors[k]` into the buffer slot of LED `k`, for every LED in order.
pub fn set_neopixel_colors(addr: u8, colors: &[(u8, u8, u8)]) -> (t: Transaction)
    requires
        colors@.len() <= MAX_LEDS,
    ensures
        t@ == pixels_ops(addr, colors@),
{
    let n_leds = colors.len() as u16;
    let mut t = Transaction::new();
    let mut n: u16 = 0;
    while n < n_leds
        invariant
            n <= n_leds == colors@.len() <= MAX_LEDS,
            t@ == pixels_ops(addr, colors@.take(n as int)),
        decreases n_leds - n,
    {
        let color = colors[n as usize];
        t.append(set_nth_neopixel_color(addr, n_leds, n, color.0, color.1, color.2));
        assert(colors@.take(n + 1).drop_last() =~= colors@.take(n as int));
        n = n + 1;
    }
    assert(colors@.take(n as int) =~= colors@);
    t
}

/// Shows the buffer on the LEDs.
pub fn sync_neopixel(addr: u8) -> (t: Transaction)
    ensures
        t@ == write_ops(addr, neopixel_reg(SHOW), Seq::empty()).push(
            BusOp::Delay { micros: DELAY_TIME_MICROS },
        ),
{
    let none: [u8; 0] = [];
    let mut t = register_write(addr, &reg(Modules::Neopixel, SHOW), &none);
    assert(none@ =~= Seq::<u8>::empty());
    t.delay(DELAY_TIME_MICROS);
    t
}

} // verus!

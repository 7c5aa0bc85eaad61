//! Register transport and capability modules for Seesaw I/O expanders.
//!
//! Every register operation is described as a [`driver::Transaction`]: the exact
//! sequence of bus writes, bus reads and delays that the peripheral expects.
//! Running a transaction on a bus is left to the caller, blocking or
//! asynchronous; decoding what the bus answered is done here.
use vstd::prelude::*;

pub mod bytes;
pub mod common;
pub mod driver;
pub mod modules;

pub use common::{HardwareId, Modules, Reg};
pub use modules::neopixel::NeopixelSpeed;
pub use modules::status::{DeviceCapabilities, ProductDateCode};

verus! {

/// Owns the delay that every device on one bus shares.
pub struct Seesaw<DELAY> {
    delay: DELAY,
}

/// A delay lent by a [`Seesaw`] together with a bus handle: what a device
/// needs to run its transactions. Holding the delay exclusively, it keeps two
/// transactions from interleaving.
pub struct SeesawBorrowed<'a, DELAY, I2C> {
    delay: &'a mut DELAY,
    i2c: I2C,
}

impl<DELAY> Seesaw<DELAY> {
    /// The delay held.
    pub closed spec fn spec_delay(&self) -> DELAY {
        self.delay
    }

    pub fn new(delay: DELAY) -> (r: Self)
        ensures
            r.spec_delay() == delay,
    {
        Seesaw { delay }
    }

    /// Lends the delay, for as long as the result lives, to run transactions
    /// on the blocking bus `i2c`.
    pub fn borrow_i2c<I2C>(&mut self, i2c: I2C) -> (r: SeesawBorrowed<'_, DELAY, I2C>)
        ensures
            r.spec_i2c() == i2c,
            r.spec_delay() == old(self).spec_delay(),
    {
        let Self { delay } = self;
        SeesawBorrowed { delay, i2c }
    }

    /// Lends the delay, for as long as the result lives, to run transactions
    /// on the asynchronous bus `i2c`.
    pub fn borrow_i2c_async<I2C>(&mut self, i2c: I2C) -> (r: SeesawBorrowed<'_, DELAY, I2C>)
        ensures
            r.spec_i2c() == i2c,
            r.spec_delay() == old(self).spec_delay(),
    {
        let Self { delay } = self;
        SeesawBorrowed { delay, i2c }
    }
}

impl<'a, DELAY, I2C> SeesawBorrowed<'a, DELAY, I2C> {
    /// The bus handle held.
    pub closed spec fn spec_i2c(&self) -> I2C {
        self.i2c
    }

    /// The delay lent.
    pub closed spec fn spec_delay(&self) -> DELAY {
        *self.delay
    }

    pub fn delay(&mut self) -> (r: &mut DELAY)
        ensures
            *r == old(self).spec_delay(),
            final(self).spec_delay() == *final(r),
            final(self).spec_i2c() == old(self).spec_i2c(),
    {
        self.delay
    }

    pub fn i2c(&mut self) -> (r: &mut I2C)
        ensures
            *r == old(self).spec_i2c(),
            final(self).spec_i2c() == *final(r),
            final(self).spec_delay() == old(self).spec_delay(),
    {
        &mut self.i2c
    }
}

/// The error of a device operation.
#[derive(Copy, Clone, Debug)]
pub enum SeesawError<E> {
    /// The bus reported an error.
    I2c(E),
    /// The hardware id read after a reset is not the device's own.
    InvalidHardwareId(u8),
}

impl<E> From<E> for SeesawError<E> {
    fn from(value: E) -> (r: Self) {
        SeesawError::I2c(value)
    }
}

impl<E> vstd::std_specs::convert::FromSpecImpl<E> for SeesawError<E> {
    open spec fn obeys_from_spec() -> bool {
        true
    }

    open spec fn from_spec(v: E) -> Self {
        SeesawError::I2c(v)
    }
}

} // verus!

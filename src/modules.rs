//! The register blocks that a device may implement. Each function builds the
//! transaction of one operation; what a read brings back is decoded by the
//! function that names that reply.
pub mod adc;
pub mod encoder;
pub mod neopixel;
pub mod status;
pub mod timer;

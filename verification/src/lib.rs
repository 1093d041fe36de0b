//! A verified, transport-agnostic driver core for the HRS3300 optical
//! heart-rate and ambient-light sensor.
//!
//! The sensor sits on a two-wire serial bus. This crate holds everything the
//! driver knows and decides, and performs no bus traffic itself:
//!
//! - [`register`] names the registers and the bits in them.
//! - [`types`] holds the settings and the error type.
//! - [`codec`] is the register codec: where each setting lives inside its
//!   control register, and how a measurement is put together from the bytes
//!   of the data registers.
//! - [`exchange`] is the transaction sequencer: each operation of the driver
//!   is a short conversation with the device, given as a state machine that
//!   names the next bus transaction and takes its outcome.
//! - [`device`] is the handle that owns the bus and starts the operations.
//! - [`model`] states what each operation does to the registers of the
//!   device, and proves that the conversations do just that.
//!
//! Whoever owns the bus performs the transactions an [`Exchange`] asks for
//! and feeds the outcomes back until the exchange is finished:
//!
//! ```ignore
//! let mut exchange = sensor.set_gain(Gain::Four);
//! let result = loop {
//!     let mut buffer = [0u8; 2];
//!     let outcome = match exchange.request() {
//!         Request::Write { register, value } => bus.write(DEV_ADDR, &[register, value]),
//!         Request::Read { register, count } => {
//!             bus.write_read(DEV_ADDR, &[register], &mut buffer[..count])
//!         }
//!     };
//!     match exchange.advance(outcome.map(|()| buffer)) {
//!         Step::Continue(next) => exchange = next,
//!         Step::Finished(result) => break result,
//!     }
//! };
//! ```

pub mod codec;
pub mod device;
pub mod exchange;
pub mod model;
pub mod register;
pub mod types;

pub use device::Hrs3300;
pub use exchange::{Exchange, Operation, Output, Progress, Request, Step};
pub use types::{AlsResolution, ConversionDelay, Error, Gain, LedCurrent};

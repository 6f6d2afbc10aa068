//! Driver core for the IS31FL3731 matrix LED controller.
//!
//! The driver never touches a bus. Each operation yields the exact sequence
//! of bus writes and pauses that the chip needs, and the owner of the bus
//! performs them one by one, reporting back how each went.
//!
//! - `registers` numbers the chip's registers, `action` is one step on the
//!   bus, and `script` defines every operation as a list of such steps.
//! - `driver` builds those lists, `sequence` walks through one, and `wiring`
//!   maps the places of a board's grid to the chip's LEDs.
//! - `chip` models the chip's registers. `order`, `effects` and `mirror`
//!   prove what the operations send, what that does to the chip, and that
//!   the driver's record of the frame shown agrees with the chip.

pub mod action;
pub mod chip;
pub mod driver;
pub mod effects;
pub mod error;
pub mod mirror;
pub mod order;
pub mod registers;
pub mod script;
pub mod sequence;
pub mod wiring;

pub use action::Action;
pub use driver::IS31FL3731;
pub use error::Error;
pub use sequence::Sequence;
pub use sequence::Step;
pub use wiring::CharlieBonnet;
pub use wiring::PixelMap;

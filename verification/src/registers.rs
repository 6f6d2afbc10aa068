//! Register map of the IS31FL3731, as the datasheet numbers it.
//!
//! The chip pages its registers into banks. Banks 0 to 7 hold one display
//! frame each: 18 LED enable registers, 18 blink registers and 144 PWM
//! registers. The configuration bank holds the function registers.

use vstd::prelude::*;

verus! {

/// Function register: display mode.
pub const MODE_REGISTER: u8 = 0x00;

/// Function register: frame shown in picture mode.
pub const FRAME: u8 = 0x01;

/// Function register: first auto-play control register.
pub const AUTOPLAY1: u8 = 0x02;

/// Function register: second auto-play control register.
pub const AUTOPLAY2: u8 = 0x03;

/// Function register: blink period and enable.
pub const BLINK: u8 = 0x05;

/// Function register: audio synchronisation.
pub const AUDIOSYNC: u8 = 0x06;

/// Function register: first breath control register.
pub const BREATH1: u8 = 0x08;

/// Function register: second breath control register.
pub const BREATH2: u8 = 0x09;

/// Function register: software shutdown (0 sleeps, 1 runs).
pub const SHUTDOWN: u8 = 0x0A;

/// Function register: audio gain control.
pub const GAIN: u8 = 0x0B;

/// Function register: audio sampling rate.
pub const ADC: u8 = 0x0C;

/// Bank that holds the function registers.
pub const CONFIG_BANK: u8 = 0x0B;

/// Command register: the value written here selects the bank.
pub const BANK_ADDRESS: u8 = 0xFD;

/// Mode value: show one frame.
pub const PICTURE_MODE: u8 = 0x00;

/// Mode value: play frames in turn.
pub const AUTOPLAY_MODE: u8 = 0x08;

/// Mode value: let the audio input pick the frame.
pub const AUDIOPLAY_MODE: u8 = 0x18;

/// First LED enable register of a frame bank.
pub const ENABLE_OFFSET: u8 = 0x00;

/// First blink register of a frame bank.
pub const BLINK_OFFSET: u8 = 0x12;

/// First PWM register of a frame bank.
pub const COLOR_OFFSET: u8 = 0x24;

/// Bus address of a chip whose address pin is tied to ground.
pub const DEFAULT_ADDRESS: u8 = 0x74;

/// Time the chip needs to settle after it was sent to sleep, in milliseconds.
pub const SETTLE_MS: u8 = 10;

/// Number of frames the chip stores.
pub const FRAMES: u8 = 8;

/// Number of LEDs, and so of PWM registers, in one frame.
pub const PIXELS: u8 = 144;

/// Number of enable registers, and of blink registers, in one frame: one bit per LED.
pub const MASK_REGISTERS: u8 = 18;

/// Number of PWM registers that one bulk write covers.
pub const ROW_REGISTERS: u8 = 24;

/// Number of bulk writes that cover the PWM registers of one frame.
pub const ROWS: u8 = 6;

} // verus!

//! The register protocol, as sequences of actions.
//!
//! Every operation of the driver is defined here as the list of bus writes
//! and pauses that the chip must see, in order. The driver's functions build
//! exactly these lists.

use vstd::prelude::*;
use crate::action::Action;
use crate::registers::{
    AUDIOSYNC, BANK_ADDRESS, BLINK_OFFSET, COLOR_OFFSET, CONFIG_BANK, ENABLE_OFFSET, FRAME, FRAMES,
    MASK_REGISTERS, MODE_REGISTER, PICTURE_MODE, ROWS, ROW_REGISTERS, SETTLE_MS, SHUTDOWN,
};

verus! {

/// The write that selects `bank` for the register writes that follow.
pub open spec fn select(address: u8, bank: u8) -> Action {
    Action::Write { address, register: BANK_ADDRESS, value: bank, count: 1 }
}

/// The write that stores `value` in one register of the selected bank.
pub open spec fn store(address: u8, register: u8, value: u8) -> Action {
    Action::Write { address, register, value, count: 1 }
}

/// The pause the chip needs after it was sent to sleep.
pub open spec fn settle() -> Action {
    Action::DelayMs { ms: SETTLE_MS }
}

/// Selecting a bank is one write.
pub open spec fn bank_script(address: u8, bank: u8) -> Seq<Action> {
    seq![select(address, bank)]
}

/// Writing a register is two writes: the bank is selected anew each time,
/// then the value is stored.
pub open spec fn write_register_script(address: u8, bank: u8, register: u8, value: u8) -> Seq<
    Action,
> {
    seq![select(address, bank), store(address, register, value)]
}

/// Setting the display mode.
pub open spec fn mode_script(address: u8, mode: u8) -> Seq<Action> {
    write_register_script(address, CONFIG_BANK, MODE_REGISTER, mode)
}

/// Switching audio synchronisation on or off.
pub open spec fn audio_sync_script(address: u8, yes: bool) -> Seq<Action> {
    write_register_script(address, CONFIG_BANK, AUDIOSYNC, if yes { 1u8 } else { 0u8 })
}

/// Sending the chip to sleep, or waking it. The shutdown register holds 0
/// while the chip sleeps.
pub open spec fn sleep_script(address: u8, yes: bool) -> Seq<Action> {
    write_register_script(address, CONFIG_BANK, SHUTDOWN, if yes { 0u8 } else { 1u8 })
}

/// Choosing the frame that the chip shows.
pub open spec fn frame_script(address: u8, frame: u8) -> Seq<Action> {
    write_register_script(address, CONFIG_BANK, FRAME, frame)
}

/// The bulk write that sets the PWM registers of one row to `brightness`.
pub open spec fn color_row(address: u8, brightness: u8, row: int) -> Action {
    Action::Write {
        address,
        register: (COLOR_OFFSET + ROW_REGISTERS * row) as u8,
        value: brightness,
        count: ROW_REGISTERS,
    }
}

/// The bulk writes for the first `rows` rows, in order.
pub open spec fn color_script(address: u8, brightness: u8, rows: nat) -> Seq<Action> {
    Seq::new(rows, |row: int| color_row(address, brightness, row))
}

/// Writing `value` to the first `count` registers from `first` on in
/// `bank`, one register write after the other.
pub open spec fn mask_script(address: u8, bank: u8, first: u8, value: u8, count: nat) -> Seq<
    Action,
> {
    Seq::new(
        2 * count,
        |i: int|
            if i % 2 == 0 {
                select(address, bank)
            } else {
                store(address, (first + i / 2) as u8, value)
            },
    )
}

/// The byte that sets, or clears, the blink bit of eight LEDs at once.
pub open spec fn blink_mask(blink: bool) -> u8 {
    if blink {
        0xFFu8
    } else {
        0x00u8
    }
}

/// The blink registers of a frame, written only where a choice was made.
pub open spec fn blink_script(address: u8, blink: Option<bool>, frame: u8) -> Seq<Action> {
    match blink {
        Some(on) => mask_script(
            address,
            frame,
            BLINK_OFFSET,
            blink_mask(on),
            MASK_REGISTERS as nat,
        ),
        None => Seq::empty(),
    }
}

/// Filling a frame: its bank is selected once, six bulk writes set all PWM
/// registers, and the blink registers follow if asked for.
pub open spec fn fill_script(address: u8, brightness: u8, blink: Option<bool>, frame: u8) -> Seq<
    Action,
> {
    bank_script(address, frame) + color_script(address, brightness, ROWS as nat) + blink_script(
        address,
        blink,
        frame,
    )
}

/// Switching on every LED of a frame.
pub open spec fn enable_script(address: u8, frame: u8) -> Seq<Action> {
    mask_script(address, frame, ENABLE_OFFSET, 0xFF, MASK_REGISTERS as nat)
}

/// Bringing one frame to its initial state: dark, not blinking, every LED
/// switched on.
pub open spec fn clear_script(address: u8, frame: u8) -> Seq<Action> {
    fill_script(address, 0, Some(false), frame) + enable_script(address, frame)
}

/// Bringing the first `frames` frames to their initial state, frame 0 first.
pub open spec fn clear_all_script(address: u8, frames: nat) -> Seq<Action>
    decreases frames,
{
    if frames == 0 {
        Seq::empty()
    } else {
        clear_all_script(address, (frames - 1) as nat) + clear_script(
            address,
            (frames - 1) as u8,
        )
    }
}

/// What comes before the frames are cleared when the chip is brought up:
/// sleep, settle, picture mode, frame 0.
pub open spec fn setup_head(address: u8) -> Seq<Action> {
    sleep_script(address, true) + seq![settle()] + mode_script(address, PICTURE_MODE)
        + frame_script(address, 0)
}

/// Bringing the chip up from any state.
pub open spec fn setup_script(address: u8) -> Seq<Action> {
    setup_head(address) + clear_all_script(address, FRAMES as nat) + audio_sync_script(
        address,
        false,
    ) + sleep_script(address, false)
}

/// Restarting the chip: sleep, settle, wake. The frames keep what they hold.
pub open spec fn reset_script(address: u8) -> Seq<Action> {
    sleep_script(address, true) + seq![settle()] + sleep_script(address, false)
}

/// Setting one pixel: a register write to the PWM register of LED `index` in
/// `frame`.
pub open spec fn pixel_script(address: u8, frame: u8, index: int, brightness: u8) -> Seq<Action> {
    write_register_script(address, frame, (COLOR_OFFSET + index) as u8, brightness)
}

} // verus!

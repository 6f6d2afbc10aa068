//! What each operation sends, write by write.

use vstd::prelude::*;
use crate::action::Action;
use crate::registers::{
    BLINK_OFFSET, COLOR_OFFSET, CONFIG_BANK, ENABLE_OFFSET, FRAME, FRAMES, MASK_REGISTERS,
    PICTURE_MODE, ROWS, ROW_REGISTERS, SHUTDOWN,
};
use crate::script::{
    audio_sync_script, blink_mask, blink_script, clear_all_script, clear_script, color_row,
    enable_script, fill_script, frame_script, mask_script, mode_script, pixel_script,
    reset_script, select, setup_head, setup_script, sleep_script, store,
};
use crate::wiring::PixelMap;

verus! {

/// Number of actions that fill a frame and set its blink registers.
pub open spec fn fill_len() -> int {
    1 + ROWS + 2 * MASK_REGISTERS
}

/// Number of actions that bring one frame to its initial state.
pub open spec fn clear_len() -> int {
    fill_len() + 2 * MASK_REGISTERS
}

/// A run of register writes is twice as long as the number of registers,
/// and each register gets its own pair: the bank is selected, then the value
/// is stored in the register.
pub proof fn mask_writes_each_register(
    address: u8,
    bank: u8,
    first: u8,
    value: u8,
    count: nat,
    col: int,
)
    requires
        0 <= col < count,
        first + count <= 256,
    ensures
        mask_script(address, bank, first, value, count).len() == 2 * count,
        mask_script(address, bank, first, value, count)[2 * col] == select(address, bank),
        mask_script(address, bank, first, value, count)[2 * col + 1] == store(
            address,
            (first + col) as u8,
            value,
        ),
        mask_script(address, bank, first, value, count)[2 * col + 1].wire() == seq![
            (first + col) as u8,
            value,
        ],
{
    let s = mask_script(address, bank, first, value, count);
    assert(s[2 * col + 1].wire() =~= seq![(first + col) as u8, value]);
}

/// Filling a frame without a choice on blinking takes seven writes: the
/// frame's bank is selected, then six bulk writes follow. The bulk write for
/// row `row` carries 25 bytes: the register `COLOR_OFFSET + 24 * row`, then
/// the brightness 24 times. No write stores anything in a blink register.
pub proof fn fill_without_blink(address: u8, brightness: u8, frame: u8)
    ensures
        fill_script(address, brightness, None, frame).len() == 1 + ROWS,
        fill_script(address, brightness, None, frame)[0] == select(address, frame),
        forall|row: int|
            0 <= row < ROWS ==> {
                let bulk = #[trigger] fill_script(address, brightness, None, frame)[1 + row];
                &&& bulk == color_row(address, brightness, row)
                &&& bulk.wire().len() == 1 + ROW_REGISTERS
                &&& bulk.wire()[0] == COLOR_OFFSET + ROW_REGISTERS * row
                &&& forall|k: int| 1 <= k <= ROW_REGISTERS ==> bulk.wire()[k] == brightness
            },
        forall|i: int|
            0 <= i < 1 + ROWS ==> !(#[trigger] fill_script(address, brightness, None, frame)[i])
                .touches(BLINK_OFFSET as int, BLINK_OFFSET + MASK_REGISTERS),
{
    let s = fill_script(address, brightness, None, frame);
    assert(s.len() == 1 + ROWS);
    assert forall|row: int| 0 <= row < ROWS implies {
        let bulk = #[trigger] s[1 + row];
        &&& bulk == color_row(address, brightness, row)
        &&& bulk.wire().len() == 1 + ROW_REGISTERS
        &&& bulk.wire()[0] == COLOR_OFFSET + ROW_REGISTERS * row
        &&& forall|k: int| 1 <= k <= ROW_REGISTERS ==> bulk.wire()[k] == brightness
    } by {
        assert(s[1 + row] == color_row(address, brightness, row));
    }
    assert forall|i: int| 0 <= i < 1 + ROWS implies !(#[trigger] s[i]).touches(
        BLINK_OFFSET as int,
        BLINK_OFFSET + MASK_REGISTERS,
    ) by {
        if i >= 1 {
            assert(s[i] == color_row(address, brightness, i - 1));
        }
    }
}

/// Filling a frame with a choice on blinking sends what filling without one
/// sends, and then 18 register writes more: blink register `col` of the
/// frame, for each `col` from 0 to 17 in turn, gets `0xFF` where the pixels
/// are to blink and `0x00` where they are not.
pub proof fn fill_with_blink(address: u8, brightness: u8, on: bool, frame: u8, col: int)
    requires
        0 <= col < MASK_REGISTERS,
    ensures
        fill_script(address, brightness, Some(on), frame) == fill_script(
            address,
            brightness,
            None,
            frame,
        ) + blink_script(address, Some(on), frame),
        fill_script(address, brightness, Some(on), frame).len() == fill_len(),
        blink_script(address, Some(on), frame).len() == 2 * MASK_REGISTERS,
        blink_script(address, Some(on), frame)[2 * col] == select(address, frame),
        blink_script(address, Some(on), frame)[2 * col + 1] == store(
            address,
            (BLINK_OFFSET + col) as u8,
            if on {
                0xFFu8
            } else {
                0x00u8
            },
        ),
{
    assert(fill_script(address, brightness, Some(on), frame) =~= fill_script(
        address,
        brightness,
        None,
        frame,
    ) + blink_script(address, Some(on), frame));
    mask_writes_each_register(
        address,
        frame,
        BLINK_OFFSET,
        blink_mask(on),
        MASK_REGISTERS as nat,
        col,
    );
}

/// Restarting the chip is five actions, whatever frame is shown and whatever
/// the frames hold: the two writes that send the chip to sleep, a pause of
/// ten milliseconds, and the two writes that wake it.
pub proof fn reset_is_sleep_settle_wake(address: u8)
    ensures
        reset_script(address) == seq![
            select(address, CONFIG_BANK),
            store(address, SHUTDOWN, 0),
            Action::DelayMs { ms: 10 },
            select(address, CONFIG_BANK),
            store(address, SHUTDOWN, 1),
        ],
{
    assert(reset_script(address) =~= seq![
        select(address, CONFIG_BANK),
        store(address, SHUTDOWN, 0),
        Action::DelayMs { ms: 10 },
        select(address, CONFIG_BANK),
        store(address, SHUTDOWN, 1),
    ]);
}

/// Bringing a frame to its initial state is 79 actions: the 43 that fill it
/// with brightness 0 and clear its blink registers, then 18 register writes
/// that set enable register `col` of the frame to `0xFF`, for each `col`
/// from 0 to 17 in turn.
pub proof fn clear_is_fill_then_enable(address: u8, frame: u8, col: int)
    requires
        0 <= col < MASK_REGISTERS,
    ensures
        clear_script(address, frame).len() == clear_len(),
        clear_script(address, frame).subrange(0, fill_len()) == fill_script(
            address,
            0,
            Some(false),
            frame,
        ),
        clear_script(address, frame).subrange(fill_len(), clear_len()) == enable_script(
            address,
            frame,
        ),
        enable_script(address, frame)[2 * col] == select(address, frame),
        enable_script(address, frame)[2 * col + 1] == store(
            address,
            (ENABLE_OFFSET + col) as u8,
            0xFF,
        ),
{
    let fill = fill_script(address, 0, Some(false), frame);
    let enable = enable_script(address, frame);
    assert(fill.len() == fill_len());
    assert(enable.len() == 2 * MASK_REGISTERS);
    assert((fill + enable).subrange(0, fill_len()) =~= fill);
    assert((fill + enable).subrange(fill_len(), clear_len()) =~= enable);
}

/// The frames are brought to their initial state one after the other, frame
/// 0 first: the actions for frame `frame` stand `79 * frame` actions into
/// the list.
pub proof fn clear_all_is_frame_by_frame(address: u8, frames: nat, frame: int)
    requires
        0 <= frame < frames <= 256,
    ensures
        clear_all_script(address, frames).len() == clear_len() * frames,
        clear_all_script(address, frames).subrange(
            clear_len() * frame,
            clear_len() * (frame + 1),
        ) == clear_script(address, frame as u8),
    decreases frames,
{
    assert(clear_len() == 79);
    let all = clear_all_script(address, frames);
    let before = clear_all_script(address, (frames - 1) as nat);
    let last = clear_script(address, (frames - 1) as u8);
    clear_is_fill_then_enable(address, (frames - 1) as u8, 0);
    clear_all_len(address, (frames - 1) as nat);
    if frame == frames - 1 {
        assert(all.subrange(clear_len() * frame, clear_len() * (frame + 1)) =~= last);
    } else {
        clear_all_is_frame_by_frame(address, (frames - 1) as nat, frame);
        assert(all.subrange(clear_len() * frame, clear_len() * (frame + 1)) =~= before.subrange(
            clear_len() * frame,
            clear_len() * (frame + 1),
        ));
    }
}

/// Every frame takes the same number of actions.
pub proof fn clear_all_len(address: u8, frames: nat)
    requires
        frames <= 256,
    ensures
        clear_all_script(address, frames).len() == clear_len() * frames,
    decreases frames,
{
    assert(clear_len() == 79);
    if frames > 0 {
        clear_all_len(address, (frames - 1) as nat);
        clear_is_fill_then_enable(address, (frames - 1) as u8, 0);
    }
}

/// Place in the bring-up at which the frames begin.
pub open spec fn setup_frames_at() -> int {
    7
}

/// Place in the bring-up at which the frames are done.
pub open spec fn setup_frames_end() -> int {
    setup_frames_at() + clear_len() * FRAMES
}

/// The bring-up is 643 actions in this order: the two writes that send the
/// chip to sleep; a pause of ten milliseconds; the two writes that set
/// picture mode; the two writes that select frame 0; for each frame from 0
/// to 7 in turn, the 79 actions that bring it to its initial state; the two
/// writes that switch audio synchronisation off; the two writes that wake
/// the chip.
pub proof fn setup_order(address: u8, frame: int)
    requires
        0 <= frame < FRAMES,
    ensures
        setup_script(address).len() == setup_frames_end() + 4,
        setup_script(address).subrange(0, 2) == sleep_script(address, true),
        setup_script(address)[2] == (Action::DelayMs { ms: 10 }),
        setup_script(address).subrange(3, 5) == mode_script(address, PICTURE_MODE),
        setup_script(address).subrange(5, 7) == frame_script(address, 0),
        setup_script(address).subrange(
            setup_frames_at() + clear_len() * frame,
            setup_frames_at() + clear_len() * (frame + 1),
        ) == clear_script(address, frame as u8),
        setup_script(address).subrange(setup_frames_end(), setup_frames_end() + 2)
            == audio_sync_script(address, false),
        setup_script(address).subrange(setup_frames_end() + 2, setup_frames_end() + 4)
            == sleep_script(address, false),
{
    assert(clear_len() == 79);
    let s = setup_script(address);
    let head = setup_head(address);
    let frames = clear_all_script(address, FRAMES as nat);
    clear_all_is_frame_by_frame(address, FRAMES as nat, frame);
    assert(head.len() == 7);
    assert(s.subrange(0, 2) =~= sleep_script(address, true));
    assert(s.subrange(3, 5) =~= mode_script(address, PICTURE_MODE));
    assert(s.subrange(5, 7) =~= frame_script(address, 0));
    assert(s.subrange(
        setup_frames_at() + clear_len() * frame,
        setup_frames_at() + clear_len() * (frame + 1),
    ) =~= frames.subrange(clear_len() * frame, clear_len() * (frame + 1)));
    assert(s.subrange(setup_frames_end(), setup_frames_end() + 2) =~= audio_sync_script(
        address,
        false,
    ));
    assert(s.subrange(setup_frames_end() + 2, setup_frames_end() + 4) =~= sleep_script(
        address,
        false,
    ));
}

/// The write after which the driver takes a new frame as shown is the write
/// that stores that frame in the chip's frame register: the last action of
/// a frame selection, and the last action before the frames are cleared in
/// the bring-up.
pub proof fn frame_is_taken_at_its_write(address: u8, frame: u8)
    ensures
        frame_script(address, frame)[frame_script(address, frame).len() - 1] == store(
            address,
            FRAME,
            frame,
        ),
        setup_script(address)[setup_head(address).len() - 1] == store(address, FRAME, 0),
        setup_head(address).len() - 1 < setup_script(address).len(),
{
}

/// Two different places of the grid never share a PWM register: setting one
/// pixel leaves every other pixel of the grid as it was.
pub proof fn pixels_have_their_own_register<M: PixelMap>(
    wiring: M,
    address: u8,
    frame: u8,
    x1: u8,
    y1: u8,
    x2: u8,
    y2: u8,
    brightness: u8,
)
    requires
        x1 < wiring.width(),
        y1 < wiring.height(),
        x2 < wiring.width(),
        y2 < wiring.height(),
        x1 != x2 || y1 != y2,
    ensures
        pixel_script(address, frame, wiring.index(x1, y1), brightness)[1] != pixel_script(
            address,
            frame,
            wiring.index(x2, y2),
            brightness,
        )[1],
        pixel_script(address, frame, wiring.index(x1, y1), brightness)[1] == store(
            address,
            (COLOR_OFFSET + wiring.index(x1, y1)) as u8,
            brightness,
        ),
        COLOR_OFFSET <= COLOR_OFFSET + wiring.index(x1, y1) < COLOR_OFFSET + ROWS * ROW_REGISTERS,
{
    wiring.index_on_chip(x1, y1);
    wiring.index_on_chip(x2, y2);
    if wiring.index(x1, y1) == wiring.index(x2, y2) {
        wiring.index_injective(x1, y1, x2, y2);
    }
}

} // verus!

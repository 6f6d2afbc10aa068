//! The driver's record of the frame shown, held against the chip.
//!
//! The chip cannot be asked which frame it shows. The driver keeps its own
//! record and changes it when the write to the frame register has
//! succeeded. What is proved here says that this is the only moment at
//! which the chip's frame register changes, however far an operation gets.

use vstd::prelude::*;
use crate::action::Action;
use crate::chip::{take_all_in_turn, take_all_keeps_address, take_all_of_one, Chip};
use crate::effects::{bank_selects, reset_wakes_the_chip, write_register_stores};
use crate::registers::{
    AUDIOSYNC, BANK_ADDRESS, BLINK_OFFSET, COLOR_OFFSET, CONFIG_BANK, ENABLE_OFFSET, FRAME, FRAMES,
    MASK_REGISTERS, MODE_REGISTER, PICTURE_MODE, PIXELS, ROWS, SHUTDOWN,
};
use crate::sequence::Sequence;
use crate::script::{
    audio_sync_script, bank_script, blink_mask, blink_script, clear_all_script, color_row,
    color_script, enable_script, fill_script, frame_script, mask_script, mode_script,
    pixel_script, reset_script, select, settle, setup_head, setup_script, sleep_script,
    write_register_script,
};

verus! {

/// Whether the chip at `address` keeps what its frame register holds
/// through `script`, wherever the script stops.
pub open spec fn spares_frame(address: u8, script: Seq<Action>) -> bool {
    forall|chip: Chip, settled: int|
        chip.address == address && 0 <= settled <= script.len() ==> (#[trigger] chip.take_all(
            script.take(settled),
        )).shown() == chip.shown()
}

/// Nothing performed, nothing changed.
pub proof fn nothing_spares_frame(address: u8)
    ensures
        spares_frame(address, Seq::<Action>::empty()),
{
    let script = Seq::<Action>::empty();
    assert forall|chip: Chip, settled: int|
        chip.address == address && 0 <= settled <= script.len() implies (#[trigger] chip.take_all(
        script.take(settled),
    )).shown() == chip.shown() by {
        assert(script.take(settled) =~= script);
    }
}

/// Two scripts that spare the frame register, one after the other, spare
/// it.
pub proof fn both_spare_frame(address: u8, first: Seq<Action>, then: Seq<Action>)
    requires
        spares_frame(address, first),
        spares_frame(address, then),
    ensures
        spares_frame(address, first + then),
{
    let script = first + then;
    assert forall|chip: Chip, settled: int|
        chip.address == address && 0 <= settled <= script.len() implies (#[trigger] chip.take_all(
        script.take(settled),
    )).shown() == chip.shown() by {
        if settled <= first.len() {
            assert(script.take(settled) =~= first.take(settled));
            assert(chip.take_all(first.take(settled)).shown() == chip.shown());
        } else {
            let rest = settled - first.len();
            assert(script.take(settled) =~= first + then.take(rest));
            take_all_in_turn(chip, first, then.take(rest));
            assert(first.take(first.len() as int) =~= first);
            let middle = chip.take_all(first.take(first.len() as int));
            assert(middle.shown() == chip.shown());
            take_all_keeps_address(chip, first);
            assert(middle.take_all(then.take(rest)).shown() == middle.shown());
        }
    }
}

/// A single action spares the frame register if it is a pause, a write to
/// another chip, or a write that does not reach the register with the frame
/// register's number.
pub proof fn one_spares_frame(address: u8, action: Action)
    requires
        !action.touches(FRAME as int, FRAME + 1),
    ensures
        spares_frame(address, seq![action]),
{
    let script = seq![action];
    assert forall|chip: Chip, settled: int|
        chip.address == address && 0 <= settled <= script.len() implies (#[trigger] chip.take_all(
        script.take(settled),
    )).shown() == chip.shown() by {
        if settled == 0 {
            assert(script.take(settled) =~= Seq::<Action>::empty());
        } else {
            assert(script.take(settled) =~= script);
            take_all_of_one(chip, action);
        }
    }
}

/// A register write spares the frame register unless it is aimed at it.
pub proof fn write_register_spares_frame(address: u8, bank: u8, register: u8, value: u8)
    requires
        bank != CONFIG_BANK || register != FRAME,
        register < BANK_ADDRESS,
    ensures
        spares_frame(address, write_register_script(address, bank, register, value)),
{
    let script = write_register_script(address, bank, register, value);
    assert forall|chip: Chip, settled: int|
        chip.address == address && 0 <= settled <= script.len() implies (#[trigger] chip.take_all(
        script.take(settled),
    )).shown() == chip.shown() by {
        if settled == 0 {
            assert(script.take(settled) =~= Seq::<Action>::empty());
        } else if settled == 1 {
            assert(script.take(settled) =~= bank_script(address, bank));
            bank_selects(chip, bank);
        } else {
            assert(script.take(settled) =~= script);
            write_register_stores(chip, bank, register, value);
        }
    }
}

/// A run of register writes spares the frame register unless one of them
/// is aimed at it.
pub proof fn mask_spares_frame(address: u8, bank: u8, first: u8, value: u8, count: nat)
    requires
        bank != CONFIG_BANK || first > FRAME,
        first + count <= BANK_ADDRESS,
    ensures
        spares_frame(address, mask_script(address, bank, first, value, count)),
    decreases count,
{
    if count == 0 {
        assert(mask_script(address, bank, first, value, count) =~= Seq::<Action>::empty());
        nothing_spares_frame(address);
    } else {
        let last = (first + count - 1) as u8;
        let before = mask_script(address, bank, first, value, (count - 1) as nat);
        let pair = write_register_script(address, bank, last, value);
        assert(mask_script(address, bank, first, value, count) =~= before + pair);
        mask_spares_frame(address, bank, first, value, (count - 1) as nat);
        write_register_spares_frame(address, bank, last, value);
        both_spare_frame(address, before, pair);
    }
}

/// The bulk writes to the PWM registers spare the frame register.
pub proof fn color_spares_frame(address: u8, brightness: u8, rows: nat)
    requires
        rows <= ROWS,
    ensures
        spares_frame(address, color_script(address, brightness, rows)),
    decreases rows,
{
    if rows == 0 {
        assert(color_script(address, brightness, rows) =~= Seq::<Action>::empty());
        nothing_spares_frame(address);
    } else {
        let before = color_script(address, brightness, (rows - 1) as nat);
        let row = color_row(address, brightness, rows - 1);
        assert(color_script(address, brightness, rows) =~= before + seq![row]);
        color_spares_frame(address, brightness, (rows - 1) as nat);
        one_spares_frame(address, row);
        both_spare_frame(address, before, seq![row]);
    }
}

/// Filling a frame spares the frame register.
pub proof fn fill_spares_frame(address: u8, brightness: u8, blink: Option<bool>, frame: u8)
    ensures
        spares_frame(address, fill_script(address, brightness, blink, frame)),
{
    let bank = bank_script(address, frame);
    let colors = color_script(address, brightness, ROWS as nat);
    let blinks = blink_script(address, blink, frame);
    one_spares_frame(address, select(address, frame));
    color_spares_frame(address, brightness, ROWS as nat);
    match blink {
        Some(on) => {
            mask_spares_frame(address, frame, BLINK_OFFSET, blink_mask(on), MASK_REGISTERS as nat);
        },
        None => {
            nothing_spares_frame(address);
        },
    }
    both_spare_frame(address, bank, colors);
    both_spare_frame(address, bank + colors, blinks);
}

/// Bringing the first frames to their initial state spares the frame
/// register.
pub proof fn clear_all_spares_frame(address: u8, frames: nat)
    requires
        frames <= CONFIG_BANK,
    ensures
        spares_frame(address, clear_all_script(address, frames)),
    decreases frames,
{
    if frames == 0 {
        nothing_spares_frame(address);
    } else {
        let frame = (frames - 1) as u8;
        let before = clear_all_script(address, (frames - 1) as nat);
        let fill = fill_script(address, 0, Some(false), frame);
        let enable = enable_script(address, frame);
        clear_all_spares_frame(address, (frames - 1) as nat);
        fill_spares_frame(address, 0, Some(false), frame);
        mask_spares_frame(address, frame, ENABLE_OFFSET, 0xFF, MASK_REGISTERS as nat);
        both_spare_frame(address, fill, enable);
        both_spare_frame(address, before, fill + enable);
    }
}

/// What the frame register holds once the first `settled` actions of an
/// operation have succeeded, if it held `before` when the operation began
/// and the operation writes `frame` to it at place `at`.
pub open spec fn frame_after(select: Option<(int, u8)>, before: Option<u8>, settled: int)
    -> Option<u8> {
    match select {
        Some((at, frame)) => if at < settled {
            Some(frame)
        } else {
            before
        },
        None => before,
    }
}

/// However far filling a frame gets, the chip shows the frame it showed.
pub proof fn fill_keeps_the_frame_shown(
    chip: Chip,
    brightness: u8,
    blink: Option<bool>,
    frame: u8,
    settled: int,
)
    requires
        0 <= settled <= fill_script(chip.address, brightness, blink, frame).len(),
    ensures
        chip.take_all(fill_script(chip.address, brightness, blink, frame).take(settled)).shown()
            == frame_after(None, chip.shown(), settled),
{
    fill_spares_frame(chip.address, brightness, blink, frame);
}

/// However far setting a pixel gets, the chip shows the frame it showed.
pub proof fn pixel_keeps_the_frame_shown(
    chip: Chip,
    frame: u8,
    index: int,
    brightness: u8,
    settled: int,
)
    requires
        0 <= index < PIXELS,
        0 <= settled <= pixel_script(chip.address, frame, index, brightness).len(),
    ensures
        chip.take_all(pixel_script(chip.address, frame, index, brightness).take(settled)).shown()
            == frame_after(None, chip.shown(), settled),
{
    write_register_spares_frame(chip.address, frame, (COLOR_OFFSET + index) as u8, brightness);
}

/// However far a restart gets, the chip shows the frame it showed.
pub proof fn reset_keeps_the_frame_shown(chip: Chip, settled: int)
    requires
        0 <= settled <= reset_script(chip.address).len(),
    ensures
        chip.take_all(reset_script(chip.address).take(settled)).shown() == frame_after(
            None,
            chip.shown(),
            settled,
        ),
{
    reset_wakes_the_chip(chip, settled);
}

/// The chip shows the new frame from the moment the last write of a frame
/// selection has succeeded, and the old one until then.
pub proof fn frame_changes_with_its_write(chip: Chip, frame: u8, settled: int)
    requires
        0 <= settled <= frame_script(chip.address, frame).len(),
    ensures
        chip.take_all(frame_script(chip.address, frame).take(settled)).shown() == frame_after(
            Some((frame_script(chip.address, frame).len() - 1, frame)),
            chip.shown(),
            settled,
        ),
{
    let address = chip.address;
    let script = frame_script(address, frame);
    if settled == 0 {
        assert(script.take(settled) =~= Seq::<Action>::empty());
    } else if settled == 1 {
        assert(script.take(settled) =~= bank_script(address, CONFIG_BANK));
        bank_selects(chip, CONFIG_BANK);
    } else {
        assert(script.take(settled) =~= script);
        write_register_stores(chip, CONFIG_BANK, FRAME, frame);
    }
}

/// In the bring-up the chip shows frame 0 from the moment the write to the
/// frame register has succeeded, and the frame it showed until then.
pub proof fn setup_changes_frame_with_its_write(chip: Chip, settled: int)
    requires
        0 <= settled <= setup_script(chip.address).len(),
    ensures
        chip.take_all(setup_script(chip.address).take(settled)).shown() == frame_after(
            Some((setup_head(chip.address).len() - 1, 0u8)),
            chip.shown(),
            settled,
        ),
{
    let address = chip.address;
    let script = setup_script(address);
    let sleep = sleep_script(address, true);
    let pause = seq![settle()];
    let mode = mode_script(address, PICTURE_MODE);
    let show = frame_script(address, 0);
    let before = sleep + pause + mode;
    let head = setup_head(address);
    let rest = clear_all_script(address, FRAMES as nat) + audio_sync_script(address, false)
        + sleep_script(address, false);
    assert(head == before + show);
    assert(script =~= head + rest);

    write_register_spares_frame(address, CONFIG_BANK, SHUTDOWN, 0);
    one_spares_frame(address, settle());
    write_register_spares_frame(address, CONFIG_BANK, MODE_REGISTER, PICTURE_MODE);
    both_spare_frame(address, sleep, pause);
    both_spare_frame(address, sleep + pause, mode);

    clear_all_spares_frame(address, FRAMES as nat);
    write_register_spares_frame(address, CONFIG_BANK, AUDIOSYNC, 0);
    write_register_spares_frame(address, CONFIG_BANK, SHUTDOWN, 1);
    both_spare_frame(
        address,
        clear_all_script(address, FRAMES as nat),
        audio_sync_script(address, false),
    );
    both_spare_frame(
        address,
        clear_all_script(address, FRAMES as nat) + audio_sync_script(address, false),
        sleep_script(address, false),
    );

    if settled <= before.len() {
        assert(script.take(settled) =~= before.take(settled));
    } else if settled <= head.len() {
        let part = settled - before.len();
        assert(script.take(settled) =~= before + show.take(part));
        take_all_in_turn(chip, before, show.take(part));
        assert(before.take(before.len() as int) =~= before);
        let middle = chip.take_all(before.take(before.len() as int));
        take_all_keeps_address(chip, before);
        frame_changes_with_its_write(middle, 0, part);
    } else {
        let part = settled - head.len();
        assert(script.take(settled) =~= head + rest.take(part));
        take_all_in_turn(chip, head, rest.take(part));
        take_all_in_turn(chip, before, show);
        assert(before.take(before.len() as int) =~= before);
        let middle = chip.take_all(before.take(before.len() as int));
        take_all_keeps_address(chip, before);
        take_all_keeps_address(chip, head);
        frame_changes_with_its_write(middle, 0, 2);
        assert(show.take(2) =~= show);
        let shown = chip.take_all(head);
        assert(shown.shown() == Some(0u8));
        assert(shown.take_all(rest.take(part)).shown() == shown.shown());
    }
}

/// The driver's record moves as the frame register does. If the record
/// agrees with the frame register when the current action of an operation
/// is due, and that action succeeds, then the record that the driver keeps
/// after it agrees with the frame register again.
pub proof fn record_follows_the_chip(seq: Sequence, began_with: Option<u8>, record: u8)
    requires
        seq.in_flight(),
        Some(record) == frame_after(seq.frame_select(), began_with, seq.position() as int),
    ensures
        Some(
            match seq.selects() {
                Some(frame) => frame,
                None => record,
            },
        ) == frame_after(seq.frame_select(), began_with, seq.position() as int + 1),
{
}

} // verus!

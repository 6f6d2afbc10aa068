//! What each operation does to the chip when all its actions succeed.

use vstd::prelude::*;
use crate::action::Action;
use crate::chip::{
    filled, held, take_all_in_turn, take_all_keeps_address, take_all_of_one, Chip, Power,
};
use crate::registers::{
    AUDIOSYNC, BANK_ADDRESS, BLINK_OFFSET, COLOR_OFFSET, CONFIG_BANK, ENABLE_OFFSET, FRAME, FRAMES,
    MASK_REGISTERS, MODE_REGISTER, PICTURE_MODE, PIXELS, ROWS, ROW_REGISTERS, SHUTDOWN,
};
use crate::script::{
    audio_sync_script, bank_script, blink_mask, blink_script, clear_all_script, clear_script,
    color_row, color_script, enable_script, fill_script, frame_script, mask_script, mode_script,
    pixel_script, reset_script, select, settle, setup_head, setup_script, sleep_script, store,
    write_register_script,
};
use crate::wiring::PixelMap;

verus! {

/// Selecting a bank changes the bank and nothing else.
pub proof fn bank_selects(chip: Chip, bank: u8)
    ensures
        chip.take_all(bank_script(chip.address, bank)) == (Chip { bank: Some(bank), ..chip }),
{
    take_all_of_one(chip, select(chip.address, bank));
    let after = chip.take(select(chip.address, bank));
    assert(after.registers =~= chip.registers);
}

/// A register write selects the bank and stores the value in that register
/// of it. Every other register keeps what it held.
pub proof fn write_register_stores(chip: Chip, bank: u8, register: u8, value: u8)
    requires
        register < BANK_ADDRESS,
    ensures
        chip.take_all(write_register_script(chip.address, bank, register, value)) == (Chip {
            bank: Some(bank),
            registers: chip.registers.insert((bank, register), value),
            ..chip
        }),
{
    let script = write_register_script(chip.address, bank, register, value);
    bank_selects(chip, bank);
    assert(script.drop_last() =~= bank_script(chip.address, bank));
    let selected = chip.take_all(script.drop_last());
    let after = selected.take(store(chip.address, register, value));
    assert(after.registers =~= chip.registers.insert((bank, register), value));
}

/// A run of register writes stores the value in each of its registers, and
/// leaves that bank selected.
pub proof fn mask_stores(chip: Chip, bank: u8, first: u8, value: u8, count: nat)
    requires
        first + count <= BANK_ADDRESS,
        count > 0,
    ensures
        chip.take_all(mask_script(chip.address, bank, first, value, count)) == (Chip {
            bank: Some(bank),
            registers: filled(chip.registers, bank, first as int, first + count, value),
            ..chip
        }),
    decreases count,
{
    let address = chip.address;
    let last = (first + count - 1) as u8;
    let before = mask_script(address, bank, first, value, (count - 1) as nat);
    let pair = write_register_script(address, bank, last, value);
    assert(mask_script(address, bank, first, value, count) =~= before + pair);
    take_all_in_turn(chip, before, pair);
    let middle = chip.take_all(before);
    take_all_keeps_address(chip, before);
    write_register_stores(middle, bank, last, value);
    if count == 1 {
        assert(before =~= Seq::<Action>::empty());
        assert(middle == chip);
    } else {
        mask_stores(chip, bank, first, value, (count - 1) as nat);
    }
    assert(middle.registers.insert((bank, last), value) =~= filled(
        chip.registers,
        bank,
        first as int,
        first + count,
        value,
    ));
}

/// The bulk writes of the first `rows` rows set the PWM registers of those
/// rows in the selected bank.
pub proof fn color_stores(chip: Chip, bank: u8, brightness: u8, rows: nat)
    requires
        chip.bank == Some(bank),
        rows <= ROWS,
    ensures
        chip.take_all(color_script(chip.address, brightness, rows)) == (Chip {
            registers: filled(
                chip.registers,
                bank,
                COLOR_OFFSET as int,
                COLOR_OFFSET + ROW_REGISTERS * rows,
                brightness,
            ),
            ..chip
        }),
    decreases rows,
{
    let address = chip.address;
    if rows == 0 {
        assert(color_script(address, brightness, rows) =~= Seq::<Action>::empty());
        assert(chip.registers =~= filled(
            chip.registers,
            bank,
            COLOR_OFFSET as int,
            COLOR_OFFSET + ROW_REGISTERS * rows,
            brightness,
        ));
    } else {
        let before = color_script(address, brightness, (rows - 1) as nat);
        let row = color_row(address, brightness, rows - 1);
        assert(color_script(address, brightness, rows) =~= before + seq![row]);
        take_all_in_turn(chip, before, seq![row]);
        color_stores(chip, bank, brightness, (rows - 1) as nat);
        let middle = chip.take_all(before);
        take_all_of_one(middle, row);
        assert(middle.take(row).registers =~= filled(
            chip.registers,
            bank,
            COLOR_OFFSET as int,
            COLOR_OFFSET + ROW_REGISTERS * rows,
            brightness,
        ));
    }
}

/// The registers of a frame once it was filled.
pub open spec fn registers_after_fill(
    registers: Map<(u8, u8), u8>,
    brightness: u8,
    blink: Option<bool>,
    frame: u8,
) -> Map<(u8, u8), u8> {
    let colored = filled(registers, frame, COLOR_OFFSET as int, COLOR_OFFSET + PIXELS, brightness);
    match blink {
        Some(on) => filled(
            colored,
            frame,
            BLINK_OFFSET as int,
            BLINK_OFFSET + MASK_REGISTERS,
            blink_mask(on),
        ),
        None => colored,
    }
}

/// Filling a frame sets each of its 144 PWM registers to the brightness,
/// and where a choice on blinking was made, each of its 18 blink registers
/// to `0xFF` or `0x00`. Every other register of the chip keeps what it
/// held, and the frame's bank stays selected.
pub proof fn fill_sets_every_pixel(chip: Chip, brightness: u8, blink: Option<bool>, frame: u8)
    ensures
        chip.take_all(fill_script(chip.address, brightness, blink, frame)) == (Chip {
            bank: Some(frame),
            registers: registers_after_fill(chip.registers, brightness, blink, frame),
            ..chip
        }),
{
    let address = chip.address;
    let select = bank_script(address, frame);
    let colors = color_script(address, brightness, ROWS as nat);
    let blinks = blink_script(address, blink, frame);
    take_all_in_turn(chip, select + colors, blinks);
    take_all_in_turn(chip, select, colors);
    bank_selects(chip, frame);
    let selected = chip.take_all(select);
    color_stores(selected, frame, brightness, ROWS as nat);
    let colored = selected.take_all(colors);
    match blink {
        Some(on) => {
            mask_stores(colored, frame, BLINK_OFFSET, blink_mask(on), MASK_REGISTERS as nat);
        },
        None => {
            assert(blinks =~= Seq::<Action>::empty());
        },
    }
}

/// Setting a pixel stores the brightness in the PWM register of its LED, in
/// the frame that is shown. Every other register keeps what it held: in
/// particular, every other pixel of the grid stays as it was.
pub proof fn pixel_sets_its_register<M: PixelMap>(
    chip: Chip,
    wiring: M,
    frame: u8,
    x: u8,
    y: u8,
    brightness: u8,
    other_x: u8,
    other_y: u8,
)
    requires
        x < wiring.width(),
        y < wiring.height(),
        other_x < wiring.width(),
        other_y < wiring.height(),
        other_x != x || other_y != y,
    ensures
        chip.take_all(pixel_script(chip.address, frame, wiring.index(x, y), brightness)) == (Chip {
            bank: Some(frame),
            registers: chip.registers.insert(
                (frame, (COLOR_OFFSET + wiring.index(x, y)) as u8),
                brightness,
            ),
            ..chip
        }),
        chip.take_all(
            pixel_script(chip.address, frame, wiring.index(x, y), brightness),
        ).holds(frame, (COLOR_OFFSET + wiring.index(x, y)) as u8) == Some(brightness),
        chip.take_all(
            pixel_script(chip.address, frame, wiring.index(x, y), brightness),
        ).holds(frame, (COLOR_OFFSET + wiring.index(other_x, other_y)) as u8) == chip.holds(
            frame,
            (COLOR_OFFSET + wiring.index(other_x, other_y)) as u8,
        ),
{
    wiring.index_on_chip(x, y);
    wiring.index_on_chip(other_x, other_y);
    if wiring.index(x, y) == wiring.index(other_x, other_y) {
        wiring.index_injective(x, y, other_x, other_y);
    }
    write_register_stores(chip, frame, (COLOR_OFFSET + wiring.index(x, y)) as u8, brightness);
}

/// Selecting a frame stores it in the frame register, and nothing else
/// changes but the bank.
pub proof fn frame_stores_the_frame(chip: Chip, frame: u8)
    ensures
        chip.take_all(frame_script(chip.address, frame)) == (Chip {
            bank: Some(CONFIG_BANK),
            registers: chip.registers.insert((CONFIG_BANK, FRAME), frame),
            ..chip
        }),
        chip.take_all(frame_script(chip.address, frame)).shown() == Some(frame),
        chip.take_all(frame_script(chip.address, frame)).power() == chip.power(),
{
    write_register_stores(chip, CONFIG_BANK, FRAME, frame);
}

/// The chip after the first `settled` actions of a restart.
pub open spec fn in_reset(chip: Chip, settled: int) -> Chip {
    chip.take_all(reset_script(chip.address).take(settled))
}

/// A restart leaves the chip awake, with all its frames and the frame shown
/// as they were. A restart that is cut short once the chip was sent to
/// sleep leaves it asleep; one that is cut short before that leaves the
/// chip's power as it was.
pub proof fn reset_wakes_the_chip(chip: Chip, settled: int)
    requires
        0 <= settled <= reset_script(chip.address).len(),
    ensures
        chip.take_all(reset_script(chip.address)) == (Chip {
            bank: Some(CONFIG_BANK),
            registers: chip.registers.insert((CONFIG_BANK, SHUTDOWN), 1),
            ..chip
        }),
        chip.take_all(reset_script(chip.address)).power() == Power::Awake,
        settled < 2 ==> in_reset(chip, settled).power() == chip.power(),
        2 <= settled < reset_script(chip.address).len() ==> in_reset(chip, settled).power()
            == Power::Asleep,
        in_reset(chip, settled).shown() == chip.shown(),
{
    let address = chip.address;
    let script = reset_script(address);
    let sleep = sleep_script(address, true);
    let wake = sleep_script(address, false);
    write_register_stores(chip, CONFIG_BANK, SHUTDOWN, 0);
    let asleep = chip.take_all(sleep);
    take_all_of_one(asleep, settle());
    take_all_in_turn(chip, sleep, seq![settle()]);
    let settled_chip = chip.take_all(sleep + seq![settle()]);
    assert(settled_chip == asleep);
    write_register_stores(asleep, CONFIG_BANK, SHUTDOWN, 1);
    bank_selects(asleep, CONFIG_BANK);
    bank_selects(chip, CONFIG_BANK);
    take_all_in_turn(chip, sleep + seq![settle()], wake);
    take_all_in_turn(chip, sleep + seq![settle()], bank_script(address, CONFIG_BANK));
    assert(chip.registers.insert((CONFIG_BANK, SHUTDOWN), 0).insert((CONFIG_BANK, SHUTDOWN), 1)
        =~= chip.registers.insert((CONFIG_BANK, SHUTDOWN), 1));
    assert(script.take(0) =~= Seq::<Action>::empty());
    assert(script.take(1) =~= bank_script(address, CONFIG_BANK));
    assert(script.take(2) =~= sleep);
    assert(script.take(3) =~= sleep + seq![settle()]);
    assert(script.take(4) =~= sleep + seq![settle()] + bank_script(address, CONFIG_BANK));
    assert(script.take(5) =~= script);
    assert(chip.take_all(Seq::<Action>::empty()) == chip);
}

/// The registers once a frame was brought to its initial state.
pub open spec fn registers_after_clear(registers: Map<(u8, u8), u8>, frame: u8) -> Map<
    (u8, u8),
    u8,
> {
    filled(
        registers_after_fill(registers, 0, Some(false), frame),
        frame,
        ENABLE_OFFSET as int,
        ENABLE_OFFSET + MASK_REGISTERS,
        0xFF,
    )
}

/// The registers once the first `frames` frames were brought to their
/// initial state.
pub open spec fn registers_after_clear_all(registers: Map<(u8, u8), u8>, frames: nat) -> Map<
    (u8, u8),
    u8,
>
    decreases frames,
{
    if frames == 0 {
        registers
    } else {
        registers_after_clear(
            registers_after_clear_all(registers, (frames - 1) as nat),
            (frames - 1) as u8,
        )
    }
}

/// Bringing a frame to its initial state sets its PWM registers and its
/// blink registers to 0 and its enable registers to `0xFF`, and leaves every
/// other register of the chip as it was.
pub proof fn clear_sets_the_frame(chip: Chip, frame: u8)
    ensures
        chip.take_all(clear_script(chip.address, frame)) == (Chip {
            bank: Some(frame),
            registers: registers_after_clear(chip.registers, frame),
            ..chip
        }),
{
    let address = chip.address;
    let fill = fill_script(address, 0, Some(false), frame);
    let enable = enable_script(address, frame);
    take_all_in_turn(chip, fill, enable);
    fill_sets_every_pixel(chip, 0, Some(false), frame);
    mask_stores(chip.take_all(fill), frame, ENABLE_OFFSET, 0xFF, MASK_REGISTERS as nat);
}

/// Bringing the first frames to their initial state does so for each of
/// them.
pub proof fn clear_all_sets_the_frames(chip: Chip, frames: nat)
    requires
        0 < frames <= 256,
    ensures
        chip.take_all(clear_all_script(chip.address, frames)) == (Chip {
            bank: Some((frames - 1) as u8),
            registers: registers_after_clear_all(chip.registers, frames),
            ..chip
        }),
    decreases frames,
{
    let address = chip.address;
    let before = clear_all_script(address, (frames - 1) as nat);
    let last = clear_script(address, (frames - 1) as u8);
    take_all_in_turn(chip, before, last);
    take_all_keeps_address(chip, before);
    clear_sets_the_frame(chip.take_all(before), (frames - 1) as u8);
    if frames == 1 {
        assert(before =~= Seq::<Action>::empty());
        assert(chip.take_all(before) == chip);
        assert(registers_after_clear_all(chip.registers, 0) == chip.registers);
    } else {
        clear_all_sets_the_frames(chip, (frames - 1) as nat);
    }
}

/// What a register holds once the first `frames` frames were brought to
/// their initial state: in each of those frames, `0xFF` in the 18 enable
/// registers, 0 in the 18 blink registers and in the 144 PWM registers;
/// anywhere else, what it held before.
pub proof fn cleared_registers(registers: Map<(u8, u8), u8>, frames: nat, bank: u8, register: u8)
    requires
        frames <= 256,
    ensures
        held(registers_after_clear_all(registers, frames), bank, register) == if bank < frames
            && register < BLINK_OFFSET {
            Some(0xFFu8)
        } else if bank < frames && register < COLOR_OFFSET + PIXELS {
            Some(0u8)
        } else {
            held(registers, bank, register)
        },
    decreases frames,
{
    if frames > 0 {
        cleared_registers(registers, (frames - 1) as nat, bank, register);
    }
}

/// The chip after the bring-up.
pub open spec fn after_setup(chip: Chip) -> Chip {
    chip.take_all(setup_script(chip.address))
}

/// The bring-up leaves the chip awake, in picture mode, showing frame 0,
/// with audio synchronisation off. In each of the eight frames every LED is
/// switched on, dark and not blinking. This holds whatever state the chip
/// was in before.
pub proof fn setup_brings_the_chip_up(chip: Chip, frame: u8, register: u8)
    requires
        frame < FRAMES,
        register < COLOR_OFFSET + PIXELS,
    ensures
        after_setup(chip).power() == Power::Awake,
        after_setup(chip).shown() == Some(0u8),
        after_setup(chip).holds(CONFIG_BANK, MODE_REGISTER) == Some(PICTURE_MODE),
        after_setup(chip).holds(CONFIG_BANK, AUDIOSYNC) == Some(0u8),
        after_setup(chip).holds(frame, register) == if register < BLINK_OFFSET {
            Some(0xFFu8)
        } else {
            Some(0u8)
        },
{
    let address = chip.address;
    let sleep = sleep_script(address, true);
    let pause = seq![settle()];
    let mode = mode_script(address, PICTURE_MODE);
    let show = frame_script(address, 0);
    let frames = clear_all_script(address, FRAMES as nat);
    let sync = audio_sync_script(address, false);
    let wake = sleep_script(address, false);

    write_register_stores(chip, CONFIG_BANK, SHUTDOWN, 0);
    let asleep = chip.take_all(sleep);
    take_all_of_one(asleep, settle());
    take_all_in_turn(chip, sleep, pause);
    write_register_stores(asleep, CONFIG_BANK, MODE_REGISTER, PICTURE_MODE);
    take_all_in_turn(chip, sleep + pause, mode);
    let moded = chip.take_all(sleep + pause + mode);
    write_register_stores(moded, CONFIG_BANK, FRAME, 0);
    take_all_in_turn(chip, sleep + pause + mode, show);
    let shown = chip.take_all(setup_head(address));
    assert(setup_head(address) == sleep + pause + mode + show);
    clear_all_sets_the_frames(shown, FRAMES as nat);
    take_all_in_turn(chip, setup_head(address), frames);
    let cleared = chip.take_all(setup_head(address) + frames);
    write_register_stores(cleared, CONFIG_BANK, AUDIOSYNC, 0);
    take_all_in_turn(chip, setup_head(address) + frames, sync);
    let synced = chip.take_all(setup_head(address) + frames + sync);
    write_register_stores(synced, CONFIG_BANK, SHUTDOWN, 1);
    take_all_in_turn(chip, setup_head(address) + frames + sync, wake);

    cleared_registers(shown.registers, FRAMES as nat, frame, register);
    cleared_registers(shown.registers, FRAMES as nat, CONFIG_BANK, SHUTDOWN);
    cleared_registers(shown.registers, FRAMES as nat, CONFIG_BANK, MODE_REGISTER);
    cleared_registers(shown.registers, FRAMES as nat, CONFIG_BANK, FRAME);
    cleared_registers(shown.registers, FRAMES as nat, CONFIG_BANK, AUDIOSYNC);
}

} // verus!

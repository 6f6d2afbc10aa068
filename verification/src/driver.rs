//! The driver: what it knows of the chip, and the operations it offers.

use vstd::prelude::*;
use crate::action::Action;
use crate::error::Error;
use crate::registers::{
    AUDIOSYNC, BANK_ADDRESS, BLINK_OFFSET, COLOR_OFFSET, CONFIG_BANK, DEFAULT_ADDRESS,
    ENABLE_OFFSET, FRAME, FRAMES, MASK_REGISTERS, MODE_REGISTER, PICTURE_MODE, ROWS,
    ROW_REGISTERS, SETTLE_MS, SHUTDOWN,
};
use crate::script::{
    audio_sync_script, bank_script, clear_all_script, clear_script, color_script, fill_script,
    frame_script, mask_script, mode_script, pixel_script, reset_script, setup_head, setup_script,
    sleep_script, write_register_script,
};
use crate::sequence::{Sequence, Step};
use crate::wiring::{CharlieBonnet, PixelMap};

verus! {

/// The driver of one chip.
///
/// It holds what the chip cannot be asked for: the bus address it answers
/// on, and the frame it was last told to show.
pub struct IS31FL3731<M: PixelMap> {
    /// Bus address of the chip.
    pub address: u8,
    /// The frame that the chip shows, and that `pixel` writes to: the last
    /// value whose write to the frame register succeeded.
    pub frame: u8,
    /// The wiring of the board.
    pub calc_pixel: M,
}

impl CharlieBonnet {
    /// A driver for the bonnet at its default address. The chip itself is
    /// not touched, and is in an unknown state until `setup` has run.
    pub fn configure() -> (driver: IS31FL3731<CharlieBonnet>)
        ensures
            driver.address == DEFAULT_ADDRESS,
            driver.frame == 0,
            driver.calc_pixel == CharlieBonnet,
    {
        IS31FL3731 { address: DEFAULT_ADDRESS, frame: 0, calc_pixel: CharlieBonnet }
    }
}

impl<M: PixelMap> IS31FL3731<M> {
    /// Appends the write that selects `bank`.
    fn bank(&self, script: &mut Vec<Action>, bank: u8)
        ensures
            final(script)@ == old(script)@ + bank_script(self.address, bank),
    {
        script.push(
            Action::Write { address: self.address, register: BANK_ADDRESS, value: bank, count: 1 },
        );
        assert(script@ =~= old(script)@ + bank_script(self.address, bank));
    }

    /// Appends a register write: the bank is selected, then `value` is
    /// stored in `register`.
    fn write_register(&self, script: &mut Vec<Action>, bank: u8, register: u8, value: u8)
        ensures
            final(script)@ == old(script)@ + write_register_script(
                self.address,
                bank,
                register,
                value,
            ),
    {
        self.bank(script, bank);
        script.push(Action::Write { address: self.address, register, value, count: 1 });
        assert(script@ =~= old(script)@ + write_register_script(
            self.address,
            bank,
            register,
            value,
        ));
    }

    /// Appends the register write that sets the display mode.
    fn mode(&self, script: &mut Vec<Action>, mode: u8)
        ensures
            final(script)@ == old(script)@ + mode_script(self.address, mode),
    {
        self.write_register(script, CONFIG_BANK, MODE_REGISTER, mode);
    }

    /// Appends the register write that switches audio synchronisation.
    fn audio_sync(&self, script: &mut Vec<Action>, yes: bool)
        ensures
            final(script)@ == old(script)@ + audio_sync_script(self.address, yes),
    {
        self.write_register(
            script,
            CONFIG_BANK,
            AUDIOSYNC,
            if yes {
                1
            } else {
                0
            },
        );
    }

    /// Appends the register write that sends the chip to sleep or wakes it.
    fn sleep(&self, script: &mut Vec<Action>, yes: bool)
        ensures
            final(script)@ == old(script)@ + sleep_script(self.address, yes),
    {
        self.write_register(
            script,
            CONFIG_BANK,
            SHUTDOWN,
            if yes {
                0
            } else {
                1
            },
        );
    }

    /// Appends a register write of `value` for each of the eighteen
    /// registers from `first` on in `bank`: one bit for every LED of a frame.
    fn mask(&self, script: &mut Vec<Action>, bank: u8, first: u8, value: u8)
        requires
            first + MASK_REGISTERS <= u8::MAX,
        ensures
            final(script)@ == old(script)@ + mask_script(
                self.address,
                bank,
                first,
                value,
                MASK_REGISTERS as nat,
            ),
    {
        let ghost before = script@;
        let mut col: u8 = 0;
        assert(script@ =~= before + mask_script(self.address, bank, first, value, 0));
        while col < MASK_REGISTERS
            invariant
                col <= MASK_REGISTERS,
                first + MASK_REGISTERS <= u8::MAX,
                script@ == before + mask_script(self.address, bank, first, value, col as nat),
            decreases MASK_REGISTERS - col,
        {
            self.write_register(script, bank, first + col, value);
            col = col + 1;
            assert(script@ =~= before + mask_script(
                self.address,
                bank,
                first,
                value,
                col as nat,
            ));
        }
    }

    /// Appends the writes that fill `frame`.
    fn fill_into(&self, script: &mut Vec<Action>, brightness: u8, blink: Option<bool>, frame: u8)
        ensures
            final(script)@ == old(script)@ + fill_script(self.address, brightness, blink, frame),
    {
        let ghost before = script@;
        self.bank(script, frame);
        let ghost selected = script@;
        let mut row: u8 = 0;
        assert(script@ =~= selected + color_script(self.address, brightness, 0));
        while row < ROWS
            invariant
                row <= ROWS,
                script@ == selected + color_script(self.address, brightness, row as nat),
            decreases ROWS - row,
        {
            script.push(
                Action::Write {
                    address: self.address,
                    register: COLOR_OFFSET + row * ROW_REGISTERS,
                    value: brightness,
                    count: ROW_REGISTERS,
                },
            );
            row = row + 1;
            assert(script@ =~= selected + color_script(self.address, brightness, row as nat));
        }
        match blink {
            Some(on) => {
                let data: u8 = if on {
                    0xFF
                } else {
                    0x00
                };
                self.mask(script, frame, BLINK_OFFSET, data);
            },
            None => {},
        }
        assert(script@ =~= before + fill_script(self.address, brightness, blink, frame));
    }

    /// Fills `frame`: every pixel gets `brightness`, and where `blink` makes
    /// a choice, every pixel blinks or none does.
    ///
    /// `frame` is sent to the chip as it is. The chip has frames 0 to 7.
    pub fn fill(&self, brightness: u8, blink: Option<bool>, frame: u8) -> (seq: Sequence)
        ensures
            seq.script() == fill_script(self.address, brightness, blink, frame),
            seq.position() == 0,
            seq.frame_select() == None::<(int, u8)>,
    {
        let mut script: Vec<Action> = Vec::new();
        self.fill_into(&mut script, brightness, blink, frame);
        assert(script@ =~= fill_script(self.address, brightness, blink, frame));
        Sequence::new(script)
    }

    /// Brings the chip up from any state: sleep, settle, picture mode, frame
    /// 0, every frame dark with all LEDs switched on and none blinking, no
    /// audio synchronisation, wake.
    ///
    /// The chip shows frame 0 as soon as that write has succeeded, whatever
    /// happens later in the operation.
    pub fn setup(&self) -> (seq: Sequence)
        ensures
            seq.script() == setup_script(self.address),
            seq.position() == 0,
            seq.frame_select() == Some((setup_head(self.address).len() - 1, 0u8)),
    {
        let mut script: Vec<Action> = Vec::new();
        self.sleep(&mut script, true);
        script.push(Action::DelayMs { ms: SETTLE_MS });
        self.mode(&mut script, PICTURE_MODE);
        self.write_register(&mut script, CONFIG_BANK, FRAME, 0);
        assert(script@ =~= setup_head(self.address));
        let at: usize = script.len() - 1;
        let mut frame: u8 = 0;
        assert(script@ =~= setup_head(self.address) + clear_all_script(self.address, 0));
        while frame < FRAMES
            invariant
                frame <= FRAMES,
                script@ == setup_head(self.address) + clear_all_script(
                    self.address,
                    frame as nat,
                ),
            decreases FRAMES - frame,
        {
            let ghost before = script@;
            self.fill_into(&mut script, 0, Some(false), frame);
            self.mask(&mut script, frame, ENABLE_OFFSET, 0xFF);
            assert(script@ =~= before + clear_script(self.address, frame));
            frame = frame + 1;
            assert(script@ =~= setup_head(self.address) + clear_all_script(
                self.address,
                frame as nat,
            ));
        }
        self.audio_sync(&mut script, false);
        self.sleep(&mut script, false);
        assert(script@ =~= setup_script(self.address));
        Sequence::selecting(script, at, 0)
    }

    /// Sets the pixel in column `x` and row `y` of the frame that the chip
    /// shows to `brightness`.
    ///
    /// A coordinate outside the grid is refused, the column first, and
    /// nothing is to be sent then.
    pub fn pixel<E>(&self, x: u8, y: u8, brightness: u8) -> (plan: Result<Sequence, Error<E>>)
        ensures
            x >= self.calc_pixel.width() ==> plan == Err::<Sequence, Error<E>>(
                Error::InvalidLocation(x),
            ),
            x < self.calc_pixel.width() && y >= self.calc_pixel.height() ==> plan == Err::<
                Sequence,
                Error<E>,
            >(Error::InvalidLocation(y)),
            x < self.calc_pixel.width() && y < self.calc_pixel.height() ==> {
                &&& plan is Ok
                &&& plan->Ok_0.script() == pixel_script(
                    self.address,
                    self.frame,
                    self.calc_pixel.index(x, y),
                    brightness,
                )
                &&& plan->Ok_0.position() == 0
                &&& plan->Ok_0.frame_select() == None::<(int, u8)>
            },
    {
        if x >= self.calc_pixel.columns() {
            return Err(Error::InvalidLocation(x));
        }
        if y >= self.calc_pixel.rows() {
            return Err(Error::InvalidLocation(y));
        }
        let pixel: u8 = self.calc_pixel.locate(x, y);
        proof {
            self.calc_pixel.index_on_chip(x, y);
        }
        let mut script: Vec<Action> = Vec::new();
        self.write_register(&mut script, self.frame, COLOR_OFFSET + pixel, brightness);
        assert(script@ =~= pixel_script(
            self.address,
            self.frame,
            self.calc_pixel.index(x, y),
            brightness,
        ));
        Ok(Sequence::new(script))
    }

    /// Uses `address` for every operation from now on.
    pub fn set_address(&mut self, address: u8)
        ensures
            final(self).address == address,
            final(self).frame == old(self).frame,
            final(self).calc_pixel == old(self).calc_pixel,
    {
        self.address = address;
    }

    /// Makes the chip show `frame`, which `pixel` then writes to.
    ///
    /// `frame` is sent to the chip as it is. The chip has frames 0 to 7. The
    /// driver takes the new frame as shown once the write has succeeded.
    pub fn frame(&self, frame: u8) -> (seq: Sequence)
        ensures
            seq.script() == frame_script(self.address, frame),
            seq.position() == 0,
            seq.frame_select() == Some((frame_script(self.address, frame).len() - 1, frame)),
    {
        let mut script: Vec<Action> = Vec::new();
        self.write_register(&mut script, CONFIG_BANK, FRAME, frame);
        assert(script@ =~= frame_script(self.address, frame));
        let at: usize = script.len() - 1;
        Sequence::selecting(script, at, frame)
    }

    /// Restarts the chip: sleep, settle, wake. The frames keep what they
    /// hold.
    pub fn reset(&self) -> (seq: Sequence)
        ensures
            seq.script() == reset_script(self.address),
            seq.position() == 0,
            seq.frame_select() == None::<(int, u8)>,
    {
        let mut script: Vec<Action> = Vec::new();
        self.sleep(&mut script, true);
        script.push(Action::DelayMs { ms: SETTLE_MS });
        self.sleep(&mut script, false);
        assert(script@ =~= reset_script(self.address));
        Sequence::new(script)
    }

    /// Takes note of how the current action of `seq` went, and says what to
    /// do next.
    ///
    /// After a success the next action of the script is due, or the
    /// operation is over with success when none is left. If the action that
    /// succeeded was the write that selects a frame, the driver takes that
    /// frame as shown. After a failure the operation is over with that
    /// failure, the rest of the script is dropped, and the driver keeps the
    /// frame it had. When no action was due, `outcome` comes back as it is.
    pub fn advance<E>(&mut self, seq: &mut Sequence, outcome: Result<(), E>) -> (step: Step<E>)
        ensures
            final(self).address == old(self).address,
            final(self).calc_pixel == old(self).calc_pixel,
            final(seq).script() == old(seq).script(),
            final(seq).frame_select() == old(seq).frame_select(),
            final(seq).position() <= final(seq).script().len(),
            !old(seq).in_flight() ==> {
                &&& final(seq).position() == old(seq).position()
                &&& final(self).frame == old(self).frame
                &&& step == Step::Finished(outcome)
            },
            old(seq).in_flight() && outcome is Err ==> {
                &&& final(seq).position() == old(seq).script().len()
                &&& !final(seq).in_flight()
                &&& final(self).frame == old(self).frame
                &&& step == Step::Finished(outcome)
            },
            old(seq).in_flight() && outcome is Ok ==> {
                &&& final(seq).position() == old(seq).position() + 1
                &&& final(self).frame == match old(seq).selects() {
                    Some(frame) => frame,
                    None => old(self).frame,
                }
                &&& step == if final(seq).in_flight() {
                    Step::<E>::Perform(final(seq).script()[final(seq).position() as int])
                } else {
                    Step::<E>::Finished(Ok(()))
                }
            },
    {
        if seq.is_finished() {
            return Step::Finished(outcome);
        }
        match outcome {
            Err(error) => {
                seq.abandon();
                Step::Finished(Err(error))
            },
            Ok(()) => {
                match seq.complete() {
                    Some(frame) => {
                        self.frame = frame;
                    },
                    None => {},
                }
                match seq.current() {
                    Some(action) => Step::Perform(action),
                    None => Step::Finished(Ok(())),
                }
            },
        }
    }

    /// Number of columns of the grid.
    pub fn width(&self) -> (w: u8)
        ensures
            w == self.calc_pixel.width(),
    {
        self.calc_pixel.columns()
    }

    /// Number of rows of the grid.
    pub fn height(&self) -> (h: u8)
        ensures
            h == self.calc_pixel.height(),
    {
        self.calc_pixel.rows()
    }
}

} // verus!

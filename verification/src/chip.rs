//! A model of the chip, to say what the driver's writes do to it.
//!
//! The chip is taken as a bank selector and a file of registers. A write
//! either selects a bank or stores bytes in the registers of the bank that
//! is selected. Nothing can be read back, so this model is all the crate
//! ever states about the chip's side.

use vstd::prelude::*;
use crate::action::Action;
use crate::registers::{BANK_ADDRESS, CONFIG_BANK, FRAME, SHUTDOWN};

verus! {

/// Whether the chip drives its LEDs.
pub enum Power {
    /// Nothing was written to the shutdown register yet.
    Unknown,
    /// The chip is in software shutdown.
    Asleep,
    /// The chip runs.
    Awake,
}

/// The state of one chip on the bus.
pub struct Chip {
    /// The bus address the chip answers on.
    pub address: u8,
    /// The bank that register writes go to, once one was selected.
    pub bank: Option<u8>,
    /// What was stored so far, by bank and register.
    pub registers: Map<(u8, u8), u8>,
}

/// The registers once every register of `bank` from `first` up to, but not
/// including, `end` took `value`.
pub open spec fn filled(registers: Map<(u8, u8), u8>, bank: u8, first: int, end: int, value: u8)
    -> Map<(u8, u8), u8> {
    Map::new(
        |key: (u8, u8)| registers.dom().contains(key) || (key.0 == bank && first <= key.1 < end),
        |key: (u8, u8)|
            if key.0 == bank && first <= key.1 < end {
                value
            } else {
                registers[key]
            },
    )
}

/// What the register `register` of `bank` holds, if anything was stored in
/// it.
pub open spec fn held(registers: Map<(u8, u8), u8>, bank: u8, register: u8) -> Option<u8> {
    if registers.dom().contains((bank, register)) {
        Some(registers[(bank, register)])
    } else {
        None
    }
}

impl Chip {
    /// The chip after one action.
    ///
    /// A write to another address and a pause leave it as it is. The bytes
    /// of a write to its own address go to consecutive registers of the
    /// selected bank, up to the command register; a byte that reaches the
    /// command register selects the bank for the writes that follow.
    pub open spec fn take(self, action: Action) -> Chip {
        match action {
            Action::Write { address, register, value, count } => if address == self.address {
                Chip {
                    address: self.address,
                    bank: if register <= BANK_ADDRESS < register + count {
                        Some(value)
                    } else {
                        self.bank
                    },
                    registers: match self.bank {
                        Some(bank) => filled(
                            self.registers,
                            bank,
                            register as int,
                            if register + count < BANK_ADDRESS {
                                register + count
                            } else {
                                BANK_ADDRESS as int
                            },
                            value,
                        ),
                        None => self.registers,
                    },
                }
            } else {
                self
            },
            Action::DelayMs { ms } => self,
        }
    }

    /// The chip after a list of actions, each performed with success.
    pub open spec fn take_all(self, actions: Seq<Action>) -> Chip
        decreases actions.len(),
    {
        if actions.len() == 0 {
            self
        } else {
            self.take_all(actions.drop_last()).take(actions.last())
        }
    }

    /// What the register `register` of `bank` holds, if anything was stored
    /// in it.
    pub open spec fn holds(self, bank: u8, register: u8) -> Option<u8> {
        held(self.registers, bank, register)
    }

    /// Whether the chip drives its LEDs: the lowest bit of the shutdown
    /// register is clear while the chip sleeps.
    pub open spec fn power(self) -> Power {
        match self.holds(CONFIG_BANK, SHUTDOWN) {
            Some(value) => if value % 2 == 0 {
                Power::Asleep
            } else {
                Power::Awake
            },
            None => Power::Unknown,
        }
    }

    /// What the frame register holds, if anything was stored in it.
    pub open spec fn shown(self) -> Option<u8> {
        self.holds(CONFIG_BANK, FRAME)
    }
}

/// Performing one list of actions and then another is performing the two
/// as one list.
pub proof fn take_all_in_turn(chip: Chip, first: Seq<Action>, then: Seq<Action>)
    ensures
        chip.take_all(first + then) == chip.take_all(first).take_all(then),
    decreases then.len(),
{
    if then.len() == 0 {
        assert(first + then =~= first);
    } else {
        take_all_in_turn(chip, first, then.drop_last());
        assert((first + then).drop_last() =~= first + then.drop_last());
        assert((first + then).last() == then.last());
    }
}

/// Performing a list of one action is performing that action.
pub proof fn take_all_of_one(chip: Chip, action: Action)
    ensures
        chip.take_all(seq![action]) == chip.take(action),
{
    let one = seq![action];
    assert(one.drop_last() =~= Seq::<Action>::empty());
    assert(chip.take_all(one.drop_last()) == chip);
}

/// The address does not change, whatever is performed.
pub proof fn take_all_keeps_address(chip: Chip, actions: Seq<Action>)
    ensures
        chip.take_all(actions).address == chip.address,
    decreases actions.len(),
{
    if actions.len() > 0 {
        take_all_keeps_address(chip, actions.drop_last());
    }
}

} // verus!

//! What the driver asks its owner to do on the bus or with the clock.

use vstd::prelude::*;

verus! {

/// One blocking step that the owner of the bus performs for the driver.
#[derive(Clone, Copy, Debug, PartialEq, Eq, Structural)]
pub enum Action {
    /// A single bus write to the chip at `address`: the number of the first
    /// register, then `count` bytes of `value`. The chip stores the bytes in
    /// consecutive registers, starting at `register`.
    Write { address: u8, register: u8, value: u8, count: u8 },
    /// A pause of `ms` milliseconds.
    DelayMs { ms: u8 },
}

impl Action {
    /// The bytes of the bus write, in the order they go on the wire. A pause
    /// sends nothing.
    pub open spec fn wire(self) -> Seq<u8> {
        match self {
            Action::Write { address, register, value, count } => seq![register] + Seq::new(
                count as nat,
                |i: int| value,
            ),
            Action::DelayMs { ms } => Seq::empty(),
        }
    }

    /// Whether this bus write stores a byte in a register numbered from `low`
    /// up to, but not including, `high`.
    pub open spec fn touches(self, low: int, high: int) -> bool {
        match self {
            Action::Write { address, register, value, count } => register < high && low < register
                + count,
            Action::DelayMs { ms } => false,
        }
    }

    /// The bytes to hand to the bus for this action.
    pub fn payload(&self) -> (bytes: Vec<u8>)
        ensures
            bytes@ == self.wire(),
    {
        match *self {
            Action::Write { address, register, value, count } => {
                let mut bytes: Vec<u8> = Vec::new();
                bytes.push(register);
                let mut sent: u8 = 0;
                while sent < count
                    invariant
                        sent <= count,
                        bytes@ == seq![register] + Seq::new(sent as nat, |i: int| value),
                    decreases count - sent,
                {
                    bytes.push(value);
                    sent = sent + 1;
                    assert(bytes@ =~= seq![register] + Seq::new(sent as nat, |i: int| value));
                }
                bytes
            },
            Action::DelayMs { ms } => {
                let bytes: Vec<u8> = Vec::new();
                assert(bytes@ =~= self.wire());
                bytes
            },
        }
    }
}

} // verus!

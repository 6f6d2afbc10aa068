//! An operation in progress.
//!
//! An operation is a fixed list of actions. The owner of the bus performs the
//! current action, tells the driver how it went, and gets the next one. The
//! first failure ends the operation: nothing that came after it in the list
//! is ever handed out.

use vstd::prelude::*;
use crate::action::Action;

verus! {

/// What the owner of the bus does next.
#[derive(Debug, PartialEq, Eq)]
pub enum Step<E> {
    /// Perform this action and report how it went.
    Perform(Action),
    /// The operation is over, with this result.
    Finished(Result<(), E>),
}

/// The actions of one operation and how far they have come.
#[derive(Debug)]
pub struct Sequence {
    actions: Vec<Action>,
    done: usize,
    shows: Option<(usize, u8)>,
}

impl Sequence {
    #[verifier::type_invariant]
    spec fn within(self) -> bool {
        self.done <= self.actions.len()
    }

    /// All actions of the operation, in order.
    pub closed spec fn script(self) -> Seq<Action> {
        self.actions@
    }

    /// How many actions are settled: performed with success, or given up
    /// after a failure.
    pub closed spec fn position(self) -> nat {
        self.done as nat
    }

    /// The place in the script of the write that makes the chip show another
    /// frame, with that frame, if the operation has such a write.
    pub closed spec fn frame_select(self) -> Option<(int, u8)> {
        match self.shows {
            Some((at, frame)) => Some((at as int, frame)),
            None => None,
        }
    }

    /// The actions that are still to be performed.
    pub open spec fn remaining(self) -> Seq<Action> {
        self.script().skip(self.position() as int)
    }

    /// Whether an action is due: the owner of the bus is to perform it, or
    /// is performing it.
    pub open spec fn in_flight(self) -> bool {
        self.position() < self.script().len()
    }

    /// The frame that the chip shows once the current action has succeeded,
    /// if that action changes it.
    pub open spec fn selects(self) -> Option<u8> {
        match self.frame_select() {
            Some((at, frame)) => if at == self.position() {
                Some(frame)
            } else {
                None
            },
            None => None,
        }
    }

    /// An operation made of `actions`, none of which changes the frame shown.
    pub(crate) fn new(actions: Vec<Action>) -> (seq: Sequence)
        ensures
            seq.script() == actions@,
            seq.position() == 0,
            seq.frame_select() == None::<(int, u8)>,
    {
        Sequence { actions, done: 0, shows: None }
    }

    /// An operation made of `actions`, whose write at place `at` makes the
    /// chip show `frame`.
    pub(crate) fn selecting(actions: Vec<Action>, at: usize, frame: u8) -> (seq: Sequence)
        ensures
            seq.script() == actions@,
            seq.position() == 0,
            seq.frame_select() == Some((at as int, frame)),
    {
        Sequence { actions, done: 0, shows: Some((at, frame)) }
    }

    /// All actions of the operation, in order.
    pub fn actions(&self) -> (all: &Vec<Action>)
        ensures
            all@ == self.script(),
    {
        &self.actions
    }

    /// How many actions are settled.
    pub fn settled(&self) -> (count: usize)
        ensures
            count == self.position(),
            count <= self.script().len(),
    {
        proof {
            use_type_invariant(self);
        }
        self.done
    }

    /// Whether nothing is left to perform.
    pub fn is_finished(&self) -> (finished: bool)
        ensures
            finished == (self.remaining().len() == 0),
            finished == !self.in_flight(),
            self.position() <= self.script().len(),
    {
        proof {
            use_type_invariant(self);
        }
        self.done == self.actions.len()
    }

    /// The action to perform now, or nothing when the operation is over.
    pub fn current(&self) -> (action: Option<Action>)
        ensures
            self.in_flight() ==> action == Some(self.script()[self.position() as int]),
            !self.in_flight() ==> action == None::<Action>,
    {
        if self.done < self.actions.len() {
            Some(self.actions[self.done])
        } else {
            None
        }
    }

    /// Settles the current action as performed, and says which frame the
    /// chip shows from now on if the action changed it.
    pub(crate) fn complete(&mut self) -> (shown: Option<u8>)
        requires
            old(self).in_flight(),
        ensures
            final(self).script() == old(self).script(),
            final(self).frame_select() == old(self).frame_select(),
            final(self).position() == old(self).position() + 1,
            shown == old(self).selects(),
    {
        let at = self.done;
        let total = self.actions.len();
        self.done = at + 1;
        match self.shows {
            Some((place, frame)) => if place == at {
                Some(frame)
            } else {
                None
            },
            None => None,
        }
    }

    /// Settles everything that is left without performing it.
    pub(crate) fn abandon(&mut self)
        ensures
            final(self).script() == old(self).script(),
            final(self).frame_select() == old(self).frame_select(),
            final(self).position() == old(self).script().len(),
    {
        self.done = self.actions.len();
    }
}

} // verus!

//! A finite state machine that moves one step at a time.
//!
//! A machine is a pair: a payload, which is the data that the machine works
//! on, and a pending state, which is the behaviour that runs at the next step.
//! Running a state hands back the whole next machine, payload and pending
//! state together, and [`FSM::update`] puts that machine in place of the
//! current one.
//!
//! What a state may hand back is described by [`State::yields`]. Every
//! contract of [`FSM`] and every law in [`laws`] is stated over that relation,
//! so they hold for any set of states, whatever these compute.
use vstd::prelude::*;

pub mod laws;

verus! {

/// A behaviour of a machine with payload `T`.
///
/// A type that implements `State` names the behaviours that a machine can be
/// in: one value for each. The values are plain data that is copied freely.
pub trait State<T: Copy>: Copy {
    /// Whether this state, run on the payload `machine`, may hand back the
    /// machine `next`: a payload and the state to run after this one.
    ///
    /// An implementation that leaves this out allows every outcome, and so
    /// promises nothing about [`State::run`].
    open spec fn yields(self, machine: T, next: (T, Self)) -> bool {
        true
    }

    /// Performs one unit of work on `machine` and hands back the machine to
    /// go on with.
    ///
    /// The payload may be changed in place. What counts for the caller is the
    /// machine that comes back, which holds a payload of its own.
    fn run(self, machine: &mut T) -> (next: FSM<T, Self>)
        ensures
            self.yields(*old(machine), next@),
    ;
}

/// Whether one step may take the machine `from` to the machine `to`. A machine
/// is written as its payload and its pending state.
pub open spec fn steps<T: Copy, S: State<T>>(from: (T, S), to: (T, S)) -> bool {
    from.1.yields(from.0, to)
}

/// Whether `k` steps, one after the other, may take the machine `from` to the
/// machine `to`.
pub open spec fn reaches<T: Copy, S: State<T>>(from: (T, S), to: (T, S), k: nat) -> bool
    decreases k,
{
    if k == 0 {
        to == from
    } else {
        exists|mid: (T, S)| reaches(from, mid, (k - 1) as nat) && #[trigger] steps(mid, to)
    }
}

/// A payload together with the state that runs at the next step.
///
/// Its view is that pair, and every contract is stated over it.
pub struct FSM<T, S> {
    machine: T,
    state: S,
}

impl<T, S> View for FSM<T, S> {
    type V = (T, S);

    /// The payload and the pending state.
    closed spec fn view(&self) -> (T, S) {
        (self.machine, self.state)
    }
}

impl<T, S> FSM<T, S> {
    /// The payload.
    pub open spec fn machine(self) -> T {
        self@.0
    }

    /// The state that the next step runs.
    pub open spec fn state(self) -> S {
        self@.1
    }

    /// Two machines with the same payload and the same pending state are the
    /// same machine.
    pub proof fn lemma_view_determines(self, other: Self)
        requires
            self@ == other@,
        ensures
            self == other,
    {
    }
}

impl<T: Copy, S: Copy> FSM<T, S> {
    /// Expose machine fields.
    pub fn get(&self) -> (r: &T)
        ensures
            *r == self.machine(),
    {
        &self.machine
    }

    /// Expose mutable machine fields.
    ///
    /// Whatever is written through the borrow becomes the payload. The pending
    /// state stays.
    pub fn get_mut(&mut self) -> (r: &mut T)
        ensures
            *r == old(self).machine(),
            final(self).machine() == *final(r),
            final(self).state() == old(self).state(),
    {
        &mut self.machine
    }

    /// Move to new state.
    ///
    /// Builds the machine that holds `machine` and runs `state` next.
    pub fn transition(machine: T, state: S) -> (r: Self)
        ensures
            r.machine() == machine,
            r.state() == state,
    {
        FSM { machine, state }
    }
}

impl<T: Copy, S: State<T>> FSM<T, S> {
    /// Transition one step.
    ///
    /// Runs the pending state on the payload. The machine that it hands back
    /// takes the place of this one, payload and pending state together.
    pub fn update(&mut self)
        ensures
            steps(old(self)@, final(self)@),
    {
        let state = self.state;
        let next = state.run(&mut self.machine);
        *self = next;
    }
}

impl<T: Copy, S: Copy> Clone for FSM<T, S> {
    /// A duplicate holds the same payload and the same pending state.
    fn clone(&self) -> (r: Self)
        ensures
            r == *self,
    {
        *self
    }
}

impl<T: Copy, S: Copy> Copy for FSM<T, S> {
}

impl<T: Copy, S: Copy> std::ops::Deref for FSM<T, S> {
    type Target = S;

    /// A machine derefs to the state that its next step runs.
    fn deref(&self) -> (r: &S)
        ensures
            *r == self.state(),
    {
        &self.state
    }
}

} // verus!

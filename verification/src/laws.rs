//! What holds of every machine, whatever its states compute.
use crate::{reaches, steps, State, FSM};
use vstd::prelude::*;

verus! {

/// Reading a fresh machine gives back the payload it was built with, and the
/// state it was built with is the one that is pending.
pub proof fn lemma_transition_then_get<T: Copy, S: State<T>>(
    machine: T,
    state: S,
    fsm: FSM<T, S>,
    read: &T,
    pending: &S,
)
    requires
        call_ensures(FSM::<T, S>::transition, (machine, state), fsm),
        call_ensures(FSM::<T, S>::get, (&fsm,), read),
        call_ensures(<FSM<T, S> as std::ops::Deref>::deref, (&fsm,), pending),
    ensures
        *read == machine,
        *pending == state,
{
}

/// Reading changes nothing: two reads of one machine, with no step between
/// them, give the same payload, and the same holds of its pending state.
pub proof fn lemma_reads_agree<T: Copy, S: State<T>>(
    fsm: FSM<T, S>,
    first: &T,
    second: &T,
    pending_first: &S,
    pending_second: &S,
)
    requires
        call_ensures(FSM::<T, S>::get, (&fsm,), first),
        call_ensures(FSM::<T, S>::get, (&fsm,), second),
        call_ensures(<FSM<T, S> as std::ops::Deref>::deref, (&fsm,), pending_first),
        call_ensures(<FSM<T, S> as std::ops::Deref>::deref, (&fsm,), pending_second),
    ensures
        *first == *second,
        *pending_first == *pending_second,
{
}

/// A payload written between two steps is the payload that the second step
/// runs on. `written` is the machine after the write: it holds `value` and the
/// pending state of `before`. Its steps are those of that state on `value`,
/// whatever payload `before` held.
pub proof fn lemma_step_sees_written_payload<T: Copy, S: State<T>>(
    before: FSM<T, S>,
    value: T,
    written: FSM<T, S>,
    next: (T, S),
)
    requires
        written.machine() == value,
        written.state() == before.state(),
    ensures
        steps(written@, next) <==> before.state().yields(value, next),
{
}

/// A duplicate is a machine of its own. It equals the machine it was taken
/// from, so a step of the duplicate is one that was open to the original, and
/// the original still holds the payload and the pending state that the
/// duplicate started from.
pub proof fn lemma_duplicate_steps_alone<T: Copy, S: State<T>>(
    original: FSM<T, S>,
    duplicate: FSM<T, S>,
    stepped: (T, S),
)
    requires
        call_ensures(<FSM<T, S> as Clone>::clone, (&original,), duplicate),
        steps(duplicate@, stepped),
    ensures
        original@ == duplicate@,
        steps(original@, stepped),
{
}

/// One more step at the end of a run of `k` steps makes a run of `k + 1`.
pub proof fn lemma_reaches_one_more<T: Copy, S: State<T>>(
    first: (T, S),
    mid: (T, S),
    last: (T, S),
    k: nat,
)
    requires
        reaches(first, mid, k),
        steps(mid, last),
    ensures
        reaches(first, last, k + 1),
{
}

/// States wired in a round take turns. Let `place` number the states from `0`
/// to `n - 1`, and let every step hand on to the state at the next place, the
/// last one to the first. Then `k` steps from the state at place `i` end at
/// the state at place `(i + k) % n`.
pub proof fn lemma_round_robin<T: Copy, S: State<T>>(
    first: (T, S),
    last: (T, S),
    k: nat,
    place: spec_fn(S) -> int,
    n: int,
)
    requires
        0 <= place(first.1) < n,
        forall|s: S, m: T, next: (T, S)| #[trigger]
            s.yields(m, next) ==> place(next.1) == (place(s) + 1) % n,
        reaches(first, last, k),
    ensures
        place(last.1) == (place(first.1) + k) % n,
    decreases k,
{
    let start = place(first.1);
    if k == 0 {
        vstd::arithmetic::div_mod::lemma_small_mod(start as nat, n as nat);
    } else {
        let mid = choose|mid: (T, S)|
            reaches(first, mid, (k - 1) as nat) && #[trigger] steps(mid, last);
        lemma_round_robin(first, mid, (k - 1) as nat, place, n);
        vstd::arithmetic::div_mod::lemma_add_mod_noop_right(1, start + k - 1, n);
    }
}

} // verus!

use vstd::prelude::*;

use crate::pipeline::{first_missing, Outcome, SetupError, Stage};
use crate::registry::{Clients, Slot};

verus! {

proof fn first_missing_finds_empty<C>(slots: Seq<Slot>, reg: Clients<C>, slot: Slot)
    requires
        slots.contains(slot),
        !reg.occupied(slot),
    ensures
        first_missing(slots, reg) is Some,
        !reg.occupied(first_missing(slots, reg).unwrap()),
    decreases slots.len(),
{
    if reg.occupied(slots[0]) {
        let i = choose|i: int| 0 <= i < slots.len() && slots[i] == slot;
        assert(slots.drop_first()[i - 1] == slot);
        first_missing_finds_empty(slots.drop_first(), reg, slot);
    }
}

proof fn first_missing_kept_by_write<C>(slots: Seq<Slot>, reg: Clients<C>, slot: Slot, value: C)
    requires
        first_missing(slots, reg) is None,
    ensures
        first_missing(slots, reg.put(slot, value)) is None,
    decreases slots.len(),
{
    if slots.len() > 0 {
        first_missing_kept_by_write(slots.drop_first(), reg, slot, value);
    }
}

/// A derivation stage whose prerequisite slot is empty answers at once that
/// the dependency is not ready, naming an empty slot, and leaves the registry
/// as it was.
pub proof fn not_ready_while_prerequisite_empty<C>(stage: Stage, reg: Clients<C>, slot: Slot)
    requires
        stage.derives() is Some,
        stage.needs().contains(slot),
        !reg.occupied(slot),
    ensures
        stage.readiness(reg) is Err,
        stage.readiness(reg)->Err_0 is DependencyNotReady,
        !reg.occupied(stage.readiness(reg)->Err_0->DependencyNotReady_0),
{
    first_missing_finds_empty(stage.needs(), reg, slot);
}

/// Two derivations of different capability kinds that were both ready stay
/// ready whichever lands first, both succeed, end in the same registry in
/// either order, and each fills its own slot only.
pub proof fn independent_derivations_commute<C>(
    first: Stage,
    second: Stage,
    reg: Clients<C>,
    a: C,
    b: C,
)
    requires
        first.derives() is Some,
        second.derives() is Some,
        first.derives() != second.derives(),
        first.readiness(reg) == Ok::<(), SetupError>(()),
        second.readiness(reg) == Ok::<(), SetupError>(()),
    ensures
        second.readiness(first.settled(reg, Outcome::Derived(a))) == Ok::<(), SetupError>(()),
        first.readiness(second.settled(reg, Outcome::Derived(b))) == Ok::<(), SetupError>(()),
        first.verdict(Outcome::<C>::Derived(a)) == Ok::<(), SetupError>(()),
        second.verdict(Outcome::<C>::Derived(b)) == Ok::<(), SetupError>(()),
        second.settled(first.settled(reg, Outcome::Derived(a)), Outcome::Derived(b))
            == first.settled(second.settled(reg, Outcome::Derived(b)), Outcome::Derived(a)),
        second.settled(first.settled(reg, Outcome::Derived(a)), Outcome::Derived(b)).slot(
            first.derives().unwrap(),
        ) == Some(a),
        second.settled(first.settled(reg, Outcome::Derived(a)), Outcome::Derived(b)).slot(
            second.derives().unwrap(),
        ) == Some(b),
        forall|s: Slot|
            s != first.derives().unwrap() && s != second.derives().unwrap() ==> second.settled(
                first.settled(reg, Outcome::Derived(a)),
                Outcome::Derived(b),
            ).slot(s) == reg.slot(s),
{
    let fs = first.derives().unwrap();
    let ss = second.derives().unwrap();
    assert(first.settled(reg, Outcome::Derived(a)) == reg.put(fs, a));
    assert(second.settled(reg, Outcome::Derived(b)) == reg.put(ss, b));
    first_missing_kept_by_write(second.needs(), reg, fs, a);
    first_missing_kept_by_write(first.needs(), reg, ss, b);
}

/// Deriving the same capability twice leaves the second value in its slot.
pub proof fn repeated_derivation_last_wins<C>(stage: Stage, reg: Clients<C>, a: C, b: C)
    requires
        stage.derives() is Some,
    ensures
        stage.settled(stage.settled(reg, Outcome::Derived(a)), Outcome::Derived(b))
            == stage.settled(reg, Outcome::Derived(b)),
        stage.settled(stage.settled(reg, Outcome::Derived(a)), Outcome::Derived(b)).slot(
            stage.derives().unwrap(),
        ) == Some(b),
{
}

} // verus!

//! Switching the chip to the clock that the radio needs.

use vstd::prelude::*;

verus! {

/// A step of the clock setup.
#[derive(Debug, Clone, Copy, PartialEq, Eq, Structural)]
pub enum ClockStep {
    /// Enable the clock of the high-frequency crystal oscillator (HFXO).
    EnableHfxo,
    /// Force the oscillator to run.
    ForceHfxo,
    /// Read whether the oscillator has finished starting.
    ReadReady,
    /// Make the oscillator the source of the system clock. RAIL requires this:
    /// otherwise `sl_rail_config_channels` would crash.
    SelectHfxo,
}

impl ClockStep {
    /// The step after this one, given what was read if this step reads something.
    pub open spec fn successor(self, ready: bool) -> Option<ClockStep> {
        match self {
            ClockStep::EnableHfxo => Some(ClockStep::ForceHfxo),
            ClockStep::ForceHfxo => Some(ClockStep::ReadReady),
            ClockStep::ReadReady => if ready {
                Some(ClockStep::SelectHfxo)
            } else {
                Some(ClockStep::ReadReady)
            },
            ClockStep::SelectHfxo => None,
        }
    }

    /// The step to take after this one. `ready` matters only after a
    /// [`ClockStep::ReadReady`], which is repeated until it reads true.
    pub fn next(self, ready: bool) -> (next: Option<ClockStep>)
        ensures
            next == self.successor(ready),
    {
        match self {
            ClockStep::EnableHfxo => Some(ClockStep::ForceHfxo),
            ClockStep::ForceHfxo => Some(ClockStep::ReadReady),
            ClockStep::ReadReady => {
                if ready {
                    Some(ClockStep::SelectHfxo)
                } else {
                    Some(ClockStep::ReadReady)
                }
            },
            ClockStep::SelectHfxo => None,
        }
    }
}

/// The steps taken from `step` on, where the step that is taken when `i` others have
/// been taken sees `ready[i]`.
pub open spec fn steps_taken(step: ClockStep, ready: Seq<bool>) -> Seq<ClockStep>
    decreases ready.len(),
{
    if ready.len() == 0 {
        seq![step]
    } else {
        match step.successor(ready[0]) {
            Some(next) => seq![step] + steps_taken(next, ready.drop_first()),
            None => seq![step],
        }
    }
}

/// As long as the oscillator does not report that it is ready, reading is all that
/// happens: the system clock stays what it is.
pub proof fn law_waits_until_ready(ready: Seq<bool>)
    requires
        forall|i: int| 0 <= i < ready.len() ==> !ready[i],
    ensures
        steps_taken(ClockStep::ReadReady, ready) == Seq::new(
            (ready.len() + 1) as nat,
            |i: int| ClockStep::ReadReady,
        ),
    decreases ready.len(),
{
    if ready.len() > 0 {
        law_waits_until_ready(ready.drop_first());
    }
    assert(steps_taken(ClockStep::ReadReady, ready) =~= Seq::new(
        (ready.len() + 1) as nat,
        |i: int| ClockStep::ReadReady,
    ));
}

/// The oscillator is enabled and forced to run, then asked until it is ready, and
/// with that the system clock is switched to it and the setup is over. `waited` is
/// the number of times that it was asked in vain.
pub proof fn law_clock_setup(ready: Seq<bool>, waited: nat)
    requires
        ready.len() == waited + 4,
        forall|i: int| 2 <= i < waited + 2 ==> !#[trigger] ready[i],
        ready[waited as int + 2],
    ensures
        steps_taken(ClockStep::EnableHfxo, ready) == seq![
            ClockStep::EnableHfxo,
            ClockStep::ForceHfxo,
        ] + Seq::new((waited + 1) as nat, |i: int| ClockStep::ReadReady) + seq![
            ClockStep::SelectHfxo,
        ],
{
    let rest = ready.drop_first().drop_first();
    assert(ready.skip(2) =~= rest);
    lemma_reads_then_selects(rest, waited);
    reveal_with_fuel(steps_taken, 3);
    assert(steps_taken(ClockStep::EnableHfxo, ready) =~= seq![
        ClockStep::EnableHfxo,
        ClockStep::ForceHfxo,
    ] + steps_taken(ClockStep::ReadReady, rest));
    assert(steps_taken(ClockStep::EnableHfxo, ready) =~= seq![
        ClockStep::EnableHfxo,
        ClockStep::ForceHfxo,
    ] + Seq::new((waited + 1) as nat, |i: int| ClockStep::ReadReady) + seq![
        ClockStep::SelectHfxo,
    ]);
}

proof fn lemma_reads_then_selects(ready: Seq<bool>, waited: nat)
    requires
        ready.len() == waited + 2,
        forall|i: int| 0 <= i < waited ==> !#[trigger] ready[i],
        ready[waited as int],
    ensures
        steps_taken(ClockStep::ReadReady, ready) == Seq::new(
            (waited + 1) as nat,
            |i: int| ClockStep::ReadReady,
        ).push(ClockStep::SelectHfxo),
    decreases waited,
{
    reveal_with_fuel(steps_taken, 3);
    if waited > 0 {
        lemma_reads_then_selects(ready.drop_first(), (waited - 1) as nat);
    }
    assert(steps_taken(ClockStep::ReadReady, ready) =~= Seq::new(
        (waited + 1) as nat,
        |i: int| ClockStep::ReadReady,
    ).push(ClockStep::SelectHfxo));
}

} // verus!

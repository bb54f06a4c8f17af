//! The latch protocol as a state machine: one shared cell, any number of
//! callers, each taking the steps of `OnceBool::get_or_init` one at a time and
//! in any interleaving. The cell behaves as an atomic byte does: a read gives
//! what it holds, an exchange writes only where it holds the byte expected.

use crate::once_bool::{byte_of, flag_of, settled_of, PresenceFlag, UNINIT};
use vstd::prelude::*;

verus! {

/// How far one caller has come.
pub enum Phase {
    /// It has not read the cell yet.
    Entered,
    /// It read the cell and found no settled value.
    Loaded { observed: u8 },
    /// It ran its probe and has not written yet.
    Probed { observed: u8, answer: bool },
    /// It returned.
    Returned { value: bool },
}

/// One atomic step of one caller.
pub enum Step {
    /// The caller reads the cell.
    Load { caller: int },
    /// The caller's probe comes back with `answer`.
    Probe { caller: int, answer: bool },
    /// The caller tries to write its answer in place of what it read.
    Exchange { caller: int },
}

/// The cell and everyone who is calling.
pub struct Race {
    pub cell: u8,
    pub callers: Seq<Phase>,
}

/// An atomic compare-and-exchange on a byte: the byte afterwards, and what the
/// operation hands back.
pub open spec fn exchange(cell: u8, current: u8, new: u8) -> (u8, Result<u8, u8>) {
    if cell == current {
        (new, Ok(cell))
    } else {
        (cell, Err(cell))
    }
}

/// A fresh latch with `callers` callers about to read it.
pub open spec fn start(callers: nat) -> Race {
    Race { cell: UNINIT, callers: Seq::new(callers, |i: int| Phase::Entered) }
}

/// The race after one step. A step that its caller cannot take changes nothing.
pub open spec fn advance(race: Race, step: Step) -> Race {
    match step {
        Step::Load { caller } => {
            if 0 <= caller < race.callers.len() && race.callers[caller] is Entered {
                let next = match flag_of(race.cell) {
                    PresenceFlag::Present => Phase::Returned { value: true },
                    PresenceFlag::Absent => Phase::Returned { value: false },
                    PresenceFlag::Uninitialized => Phase::Loaded { observed: race.cell },
                };
                Race { cell: race.cell, callers: race.callers.update(caller, next) }
            } else {
                race
            }
        },
        Step::Probe { caller, answer } => {
            if 0 <= caller < race.callers.len() && race.callers[caller] is Loaded {
                let next = Phase::Probed { observed: race.callers[caller]->Loaded_observed, answer };
                Race { cell: race.cell, callers: race.callers.update(caller, next) }
            } else {
                race
            }
        },
        Step::Exchange { caller } => {
            if 0 <= caller < race.callers.len() && race.callers[caller] is Probed {
                let answer = race.callers[caller]->Probed_answer;
                let observed = race.callers[caller]->Probed_observed;
                let (cell, outcome) = exchange(race.cell, observed, byte_of(answer));
                let next = Phase::Returned { value: settled_of(answer, outcome) };
                Race { cell, callers: race.callers.update(caller, next) }
            } else {
                race
            }
        },
    }
}

/// The race after a whole schedule of steps.
pub open spec fn run(race: Race, steps: Seq<Step>) -> Race
    decreases steps.len(),
{
    if steps.len() == 0 {
        race
    } else {
        advance(run(race, steps.drop_last()), steps.last())
    }
}

/// Every probe in the schedule gives the same answer.
pub open spec fn every_probe_answers(steps: Seq<Step>, answer: bool) -> bool {
    forall|k: int|
        0 <= k < steps.len() && #[trigger] steps[k] is Probe ==> steps[k]->Probe_answer == answer
}

/// What holds of every race that began with a fresh latch: the cell holds one
/// of its three bytes, whoever is still under way saw it unsettled, and
/// whoever returned took the value on which the cell is settled.
pub open spec fn coherent(race: Race) -> bool {
    &&& race.cell == UNINIT || race.cell == byte_of(true) || race.cell == byte_of(false)
    &&& forall|i: int|
        0 <= i < race.callers.len() ==> match #[trigger] race.callers[i] {
            Phase::Entered => true,
            Phase::Loaded { observed } => observed == UNINIT,
            Phase::Probed { observed, .. } => observed == UNINIT,
            Phase::Returned { value } => race.cell == byte_of(value),
        }
}

/// Nobody who has not returned holds an answer other than `answer`, and the
/// cell is not settled on the other value.
pub open spec fn only_answer(race: Race, answer: bool) -> bool {
    &&& race.cell != byte_of(!answer)
    &&& forall|i: int|
        0 <= i < race.callers.len() && #[trigger] race.callers[i] is Probed
            ==> race.callers[i]->Probed_answer == answer
}

/// A step keeps a coherent race coherent.
pub proof fn lemma_advance_keeps_coherence(race: Race, step: Step)
    requires
        coherent(race),
    ensures
        coherent(advance(race, step)),
        advance(race, step).callers.len() == race.callers.len(),
{
}

/// The latch is monotone: a step leaves the cell as it is or settles an
/// unsettled cell, and a settled cell stays as it is for good.
pub proof fn lemma_cell_settles_once(race: Race, step: Step)
    requires
        coherent(race),
    ensures
        advance(race, step).cell == race.cell || (flag_of(race.cell) == PresenceFlag::Uninitialized
            && flag_of(advance(race, step).cell) != PresenceFlag::Uninitialized),
        flag_of(race.cell) != PresenceFlag::Uninitialized ==> advance(race, step).cell == race.cell,
{
}

/// Whoever has returned keeps its value whatever happens next.
pub proof fn lemma_returned_stays(race: Race, step: Step, caller: int)
    requires
        0 <= caller < race.callers.len(),
        race.callers[caller] is Returned,
    ensures
        advance(race, step).callers[caller] == race.callers[caller],
{
}

/// Every race that began with a fresh latch is coherent.
pub proof fn lemma_run_is_coherent(callers: nat, steps: Seq<Step>)
    ensures
        coherent(run(start(callers), steps)),
        run(start(callers), steps).callers.len() == callers,
    decreases steps.len(),
{
    if steps.len() > 0 {
        lemma_run_is_coherent(callers, steps.drop_last());
        lemma_advance_keeps_coherence(run(start(callers), steps.drop_last()), steps.last());
    }
}

/// However the steps of the callers interleave, and whatever their probes
/// answer, any two callers that have returned hold the same value, and it is
/// the value on which the cell is settled.
pub proof fn lemma_callers_agree(callers: nat, steps: Seq<Step>, a: int, b: int)
    requires
        0 <= a < callers,
        0 <= b < callers,
        run(start(callers), steps).callers[a] is Returned,
        run(start(callers), steps).callers[b] is Returned,
    ensures
        run(start(callers), steps).callers[a] == run(start(callers), steps).callers[b],
        run(start(callers), steps).cell == byte_of(
            run(start(callers), steps).callers[a]->Returned_value,
        ),
{
    lemma_run_is_coherent(callers, steps);
}

/// A caller that has returned keeps its value through every schedule that
/// follows, and so does the cell.
pub proof fn lemma_value_is_permanent(callers: nat, steps: Seq<Step>, more: Seq<Step>, a: int)
    requires
        0 <= a < callers,
        run(start(callers), steps).callers[a] is Returned,
    ensures
        run(run(start(callers), steps), more).callers[a] == run(start(callers), steps).callers[a],
        run(run(start(callers), steps), more).cell == run(start(callers), steps).cell,
        run(run(start(callers), steps), more).callers.len() == callers,
        coherent(run(run(start(callers), steps), more)),
    decreases more.len(),
{
    let reached = run(start(callers), steps);
    lemma_run_is_coherent(callers, steps);
    if more.len() > 0 {
        lemma_value_is_permanent(callers, steps, more.drop_last(), a);
        let before = run(reached, more.drop_last());
        lemma_advance_keeps_coherence(before, more.last());
        lemma_cell_settles_once(before, more.last());
        lemma_returned_stays(before, more.last(), a);
    }
}

/// Where every probe gives the same answer, every caller that returns holds
/// that answer.
pub proof fn lemma_unanimous_probes_decide(
    callers: nat,
    steps: Seq<Step>,
    answer: bool,
    a: int,
)
    requires
        every_probe_answers(steps, answer),
        0 <= a < callers,
        run(start(callers), steps).callers[a] is Returned,
    ensures
        run(start(callers), steps).callers[a] == (Phase::Returned { value: answer }),
{
    lemma_run_is_coherent(callers, steps);
    lemma_run_keeps_only_answer(callers, steps, answer);
}

/// The value that a caller returns is the answer of some probe in the
/// schedule: nothing else is ever written to the cell.
pub proof fn lemma_value_was_probed(callers: nat, steps: Seq<Step>, a: int)
    requires
        0 <= a < callers,
        run(start(callers), steps).callers[a] is Returned,
    ensures
        exists|k: int|
            0 <= k < steps.len() && #[trigger] steps[k] is Probe && steps[k]->Probe_answer
                == run(start(callers), steps).callers[a]->Returned_value,
{
    let value = run(start(callers), steps).callers[a]->Returned_value;
    if every_probe_answers(steps, !value) {
        lemma_unanimous_probes_decide(callers, steps, !value, a);
    }
}

/// What a call that nobody interrupts does: the byte it leaves in the cell
/// and the value it returns, for the byte that it finds and the answer that
/// its probe would give.
pub open spec fn call_alone(cell: u8, answer: bool) -> (u8, bool) {
    match flag_of(cell) {
        PresenceFlag::Present => (cell, true),
        PresenceFlag::Absent => (cell, false),
        PresenceFlag::Uninitialized => (byte_of(answer), answer),
    }
}

/// The three steps of one caller, taken with no step of another in between,
/// are a call that nobody interrupts.
pub proof fn lemma_call_alone_is_three_steps(race: Race, caller: int, answer: bool)
    requires
        0 <= caller < race.callers.len(),
        race.callers[caller] is Entered,
    ensures
        ({
            let steps = seq![
                Step::Load { caller },
                Step::Probe { caller, answer },
                Step::Exchange { caller },
            ];
            &&& run(race, steps).cell == call_alone(race.cell, answer).0
            &&& run(race, steps).callers[caller] == (Phase::Returned {
                value: call_alone(race.cell, answer).1,
            })
        }),
{
    let load = Step::Load { caller };
    let probe = Step::Probe { caller, answer };
    let write = Step::Exchange { caller };
    let steps = seq![load, probe, write];
    assert(steps.drop_last() =~= seq![load, probe]);
    assert(steps.drop_last().drop_last() =~= seq![load]);
    reveal_with_fuel(run, 4);
}

/// Of two calls in sequence the second returns what the first returned and
/// leaves the cell as the first left it, whatever its own probe would answer.
pub proof fn lemma_calls_in_sequence_agree(cell: u8, first: bool, second: bool)
    ensures
        call_alone(call_alone(cell, first).0, second).1 == call_alone(cell, first).1,
        call_alone(call_alone(cell, first).0, second).0 == call_alone(cell, first).0,
        flag_of(call_alone(cell, first).0) != PresenceFlag::Uninitialized,
{
}

/// On a fresh latch the first call returns its probe's answer.
pub proof fn lemma_first_call_installs_its_answer(answer: bool)
    ensures
        call_alone(UNINIT, answer) == (byte_of(answer), answer),
{
}

proof fn lemma_run_keeps_only_answer(callers: nat, steps: Seq<Step>, answer: bool)
    requires
        every_probe_answers(steps, answer),
    ensures
        only_answer(run(start(callers), steps), answer),
    decreases steps.len(),
{
    if steps.len() > 0 {
        let earlier = steps.drop_last();
        assert forall|k: int| 0 <= k < earlier.len() && #[trigger] earlier[k] is Probe implies
            earlier[k]->Probe_answer == answer by {
            assert(earlier[k] == steps[k]);
        }
        lemma_run_keeps_only_answer(callers, earlier, answer);
        lemma_run_is_coherent(callers, earlier);
    }
}

} // verus!

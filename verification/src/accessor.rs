//! The color accessor: presence first, through the latch of the index, then
//! the live color where there is one.

use crate::color::SysColor;
use crate::index::{SysColorIndex, INDEX_COUNT};
use crate::once_bool::{byte_of, flag_of, value_of, OnceBool, PresenceFlag, UNINIT};
use crate::protocol::{every_probe_answers, lemma_callers_agree, lemma_unanimous_probes_decide};
use crate::protocol::{run, start, Step};
use vstd::prelude::*;

verus! {

/// Whether a brush handle stands for a brush: the null handle does not.
pub open spec fn brush_is_real(brush: isize) -> bool {
    brush != 0
}

/// What the accessor gives for a presence and the color that the platform
/// holds: the color where it is present, nothing where it is not.
pub open spec fn lookup_of(present: bool, raw: u32) -> Option<u32> {
    if present {
        Some(raw)
    } else {
        None
    }
}

/// Whether a brush handle stands for a brush.
pub fn brush_exists(brush: isize) -> (answer: bool)
    ensures
        answer == brush_is_real(brush),
{
    brush != 0
}

/// The color for a presence that is already known. `fetch` is called with
/// `index`, and only where the color is present: for an absent color it need
/// not even be callable.
pub fn fetch_if_present<Q: FnOnce(i32) -> u32>(present: bool, index: i32, fetch: Q) -> (found:
    Option<u32>)
    requires
        present ==> fetch.requires((index,)),
    ensures
        present ==> found is Some && fetch.ensures((index,), found->Some_0),
        !present ==> found is None,
        exists|raw: u32| found == lookup_of(present, raw),
{
    if present {
        let raw = fetch(index);
        assert(Some(raw) == lookup_of(present, raw));
        Some(raw)
    } else {
        assert(None::<u32> == lookup_of(present, 0));
        None
    }
}

/// What one lookup of the native index `index` had from the latch and from
/// the platform, and what it found. It read `observed` from the latch; if
/// that was no settled value, `probe` gave `brush` for `index`, and the latch
/// gave `outcome` when asked to put the byte for "there is a brush" in place
/// of `observed`. Where the value that follows is `true`, `found` is what
/// `fetch` gave for `index`; where it is `false`, nothing is found.
pub open spec fn looked_up<P: FnOnce(i32) -> isize, Q: FnOnce(i32) -> u32>(
    index: i32,
    present: OnceBool,
    probe: P,
    fetch: Q,
    observed: u8,
    brush: isize,
    outcome: Result<u8, u8>,
    found: Option<u32>,
) -> bool {
    &&& present.reads(observed)
    &&& flag_of(observed) == PresenceFlag::Uninitialized ==> probe.ensures((index,), brush)
        && present.exchanges(observed, byte_of(brush_is_real(brush)), outcome)
    &&& if value_of(observed, brush_is_real(brush), outcome) {
        found is Some && fetch.ensures((index,), found->Some_0)
    } else {
        found is None
    }
}

/// The color of the native index `index`, or nothing where the system has
/// none. `present` is the latch of that index. `probe` asks the platform for
/// the brush of the index and is called at most once, and only while the
/// latch is unsettled; `fetch` asks for the packed color and is called on
/// every call that finds the color present, so that the answer is live.
pub fn get_sys_color<P, Q>(index: i32, present: &OnceBool, probe: P, fetch: Q) -> (found: Option<
    u32,
>) where P: FnOnce(i32) -> isize, Q: FnOnce(i32) -> u32
    requires
        probe.requires((index,)),
        fetch.requires((index,)),
    ensures
        exists|observed: u8, brush: isize, outcome: Result<u8, u8>| #[trigger]
            looked_up(index, *present, probe, fetch, observed, brush, outcome, found),
        found is Some ==> fetch.ensures((index,), found->Some_0),
{
    let ask = || -> (answer: bool)
        requires
            probe.requires((index,)),
        ensures
            exists|brush: isize| #[trigger]
                probe.ensures((index,), brush) && answer == brush_is_real(brush),
        {
            let brush = probe(index);
            brush_exists(brush)
        };
    let is_present = present.get_or_init(ask);
    let found = fetch_if_present(is_present, index, fetch);
    proof {
        let (observed, answer, outcome) = choose|
            observed: u8,
            answer: bool,
            outcome: Result<u8, u8>,
        | #[trigger]
            present.obtains(ask, observed, answer, outcome) && is_present == value_of(
                observed,
                answer,
                outcome,
            );
        let brush = if flag_of(observed) == PresenceFlag::Uninitialized {
            choose|brush: isize| #[trigger]
                probe.ensures((index,), brush) && answer == brush_is_real(brush)
        } else {
            0
        };
        assert(looked_up(index, *present, probe, fetch, observed, brush, outcome, found));
    }
    found
}

/// One latch for each named color, made once and shared by all callers.
pub struct PresenceTable {
    cells: [OnceBool; INDEX_COUNT],
}

impl PresenceTable {
    /// The latch that the table keeps for `index`: the one at the place of
    /// `index`, so that no two colors share a latch.
    pub closed spec fn cell_of(self, index: SysColorIndex) -> OnceBool {
        self.cells@[index.position_of()]
    }

    /// A table of latches that nobody has settled.
    pub fn new() -> (table: Self)
        ensures
            forall|index: SysColorIndex| #[trigger] table.cell_of(index).made_with(UNINIT),
    {
        PresenceTable {
            cells: [
                OnceBool::new(), OnceBool::new(), OnceBool::new(),
                OnceBool::new(), OnceBool::new(), OnceBool::new(),
                OnceBool::new(), OnceBool::new(), OnceBool::new(),
                OnceBool::new(), OnceBool::new(), OnceBool::new(),
                OnceBool::new(), OnceBool::new(), OnceBool::new(),
                OnceBool::new(), OnceBool::new(), OnceBool::new(),
                OnceBool::new(), OnceBool::new(), OnceBool::new(),
                OnceBool::new(), OnceBool::new(), OnceBool::new(),
                OnceBool::new(), OnceBool::new(), OnceBool::new(),
            ],
        }
    }

    /// The latch of `index`.
    pub fn cell(&self, index: SysColorIndex) -> (cell: &OnceBool)
        ensures
            *cell == self.cell_of(index),
    {
        &self.cells[index.position()]
    }
}

impl SysColor {
    /// The system color `index` as the platform holds it now, or nothing
    /// where the system has no such color. Presence is asked of the platform
    /// once for each index and then remembered in `table`; the color itself is
    /// fetched anew on every call. Both `probe` and `fetch` are handed the
    /// native index of `index`.
    pub fn get<P, Q>(index: SysColorIndex, table: &PresenceTable, probe: P, fetch: Q) -> (found:
        Option<SysColor>) where P: FnOnce(i32) -> isize, Q: FnOnce(i32) -> u32
        requires
            probe.requires((index.native_of(),)),
            fetch.requires((index.native_of(),)),
        ensures
            exists|observed: u8, brush: isize, outcome: Result<u8, u8>| #[trigger]
                looked_up(
                    index.native_of(),
                    table.cell_of(index),
                    probe,
                    fetch,
                    observed,
                    brush,
                    outcome,
                    raw_of(found),
                ),
            found is Some ==> fetch.ensures((index.native_of(),), found->Some_0@),
    {
        match get_sys_color(index.native(), table.cell(index), probe, fetch) {
            Some(raw) => Some(SysColor::new(raw)),
            None => None,
        }
    }
}

/// The packed value of a color that was found, if one was.
pub open spec fn raw_of(found: Option<SysColor>) -> Option<u32> {
    match found {
        Some(color) => Some(color@),
        None => None,
    }
}

/// Presence is stable: of any two calls for one index that have returned,
/// however they and others interleaved and whatever the probes answered, both
/// give a color or neither does.
pub proof fn lemma_presence_is_stable(
    callers: nat,
    steps: Seq<Step>,
    a: int,
    b: int,
    raw_a: u32,
    raw_b: u32,
)
    requires
        0 <= a < callers,
        0 <= b < callers,
        run(start(callers), steps).callers[a] is Returned,
        run(start(callers), steps).callers[b] is Returned,
    ensures
        lookup_of(run(start(callers), steps).callers[a]->Returned_value, raw_a) is Some
            <==> lookup_of(run(start(callers), steps).callers[b]->Returned_value, raw_b) is Some,
{
    lemma_callers_agree(callers, steps, a, b);
}

/// An index whose probe always finds the null brush has no color on any
/// call.
pub proof fn lemma_absent_stays_absent(callers: nat, steps: Seq<Step>, a: int, raw: u32)
    requires
        every_probe_answers(steps, brush_is_real(0)),
        0 <= a < callers,
        run(start(callers), steps).callers[a] is Returned,
    ensures
        lookup_of(run(start(callers), steps).callers[a]->Returned_value, raw) is None,
{
    lemma_unanimous_probes_decide(callers, steps, false, a);
}

} // verus!

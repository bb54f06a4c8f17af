//! The presence latch: a cell that starts unsettled and settles once, on
//! `true` or on `false`, however many threads race to settle it.

use core::sync::atomic::AtomicU8;
use core::sync::atomic::Ordering;
use vstd::prelude::*;

verus! {

/// What a latch holds.
#[derive(Clone, Copy, Debug, PartialEq, Eq, Structural)]
pub enum PresenceFlag {
    /// Nobody has settled the latch yet.
    Uninitialized,
    /// Settled: there is no value.
    Absent,
    /// Settled: there is a value.
    Present,
}

/// The byte of a latch that nobody has settled.
pub const UNINIT: u8 = 0xFF;

/// The byte of a latch settled on `false`.
pub const FALSE: u8 = 0;

/// The byte of a latch settled on `true`.
pub const TRUE: u8 = 1;

/// What a byte of the cell means. Every byte but the two settled ones counts
/// as unsettled.
pub open spec fn flag_of(byte: u8) -> PresenceFlag {
    if byte == TRUE {
        PresenceFlag::Present
    } else if byte == FALSE {
        PresenceFlag::Absent
    } else {
        PresenceFlag::Uninitialized
    }
}

/// The byte that settles the cell on a probe's answer.
pub open spec fn byte_of(answer: bool) -> u8 {
    if answer {
        TRUE
    } else {
        FALSE
    }
}

/// What a caller returns once it has tried to write its probe's answer:
/// its own answer where the write went through, else whatever settled value
/// the cell held instead. A cell that refused the write and still shows no
/// settled value leaves the caller with its own answer.
pub open spec fn settled_of(answer: bool, outcome: Result<u8, u8>) -> bool {
    match outcome {
        Ok(_) => answer,
        Err(found) => match flag_of(found) {
            PresenceFlag::Present => true,
            PresenceFlag::Absent => false,
            PresenceFlag::Uninitialized => answer,
        },
    }
}

/// Reads a byte of the cell.
pub fn decode(byte: u8) -> (flag: PresenceFlag)
    ensures
        flag == flag_of(byte),
{
    if byte == TRUE {
        PresenceFlag::Present
    } else if byte == FALSE {
        PresenceFlag::Absent
    } else {
        PresenceFlag::Uninitialized
    }
}

/// The byte to write for a probe's answer.
pub fn encode(answer: bool) -> (byte: u8)
    ensures
        byte == byte_of(answer),
        flag_of(byte) != PresenceFlag::Uninitialized,
{
    if answer {
        TRUE
    } else {
        FALSE
    }
}

/// Picks the value to return after the attempt to write `answer`.
pub fn settle(answer: bool, outcome: Result<u8, u8>) -> (value: bool)
    ensures
        value == settled_of(answer, outcome),
{
    match outcome {
        Ok(_) => answer,
        Err(found) => match decode(found) {
            PresenceFlag::Present => true,
            PresenceFlag::Absent => false,
            PresenceFlag::Uninitialized => answer,
        },
    }
}

/// What a call returns: the settled value that it read, or else what is left
/// after the attempt to write its probe's answer.
pub open spec fn value_of(observed: u8, answer: bool, outcome: Result<u8, u8>) -> bool {
    match flag_of(observed) {
        PresenceFlag::Present => true,
        PresenceFlag::Absent => false,
        PresenceFlag::Uninitialized => settled_of(answer, outcome),
    }
}

/// A lazily settled boolean that threads may share.
pub struct OnceBool(AtomicU8);

impl OnceBool {
    /// The cell of the latch is one that `AtomicU8::new` gave for `byte`.
    pub closed spec fn made_with(&self, byte: u8) -> bool {
        call_ensures(AtomicU8::new, (byte,), self.0)
    }

    /// `byte` is what an acquiring `load` of the cell gave.
    pub closed spec fn reads(&self, byte: u8) -> bool {
        call_ensures(AtomicU8::load, (&self.0, Ordering::Acquire), byte)
    }

    /// `outcome` is what `compare_exchange` on the cell gave when asked to
    /// put `new` in place of `current`, acquiring and releasing on success
    /// and acquiring on failure.
    pub closed spec fn exchanges(&self, current: u8, new: u8, outcome: Result<u8, u8>) -> bool {
        call_ensures(
            AtomicU8::compare_exchange,
            (&self.0, current, new, Ordering::AcqRel, Ordering::Acquire),
            outcome,
        )
    }

    /// What one call had from the cell and from its probe `f`: it read
    /// `observed`; and if that was no settled value, `f` answered `answer`, and
    /// the cell gave `outcome` when asked to put the byte of `answer` in place
    /// of `observed`. A call that read a settled value ran no probe and made
    /// no exchange.
    pub open spec fn obtains<F: FnOnce() -> bool>(
        &self,
        f: F,
        observed: u8,
        answer: bool,
        outcome: Result<u8, u8>,
    ) -> bool {
        &&& self.reads(observed)
        &&& flag_of(observed) == PresenceFlag::Uninitialized ==> f.ensures((), answer)
            && self.exchanges(observed, byte_of(answer), outcome)
    }

    /// A latch that nobody has settled.
    pub fn new() -> (latch: Self)
        ensures
            latch.made_with(UNINIT),
    {
        OnceBool(AtomicU8::new(UNINIT))
    }

    /// Gets the value, settling the latch with `f` if nobody has yet. A
    /// caller that finds the latch unsettled runs `f` once and tries to write
    /// its answer; if another caller was faster, that caller's value is
    /// returned instead. No caller waits for another.
    ///
    /// Other threads share the cell, so what a read or an exchange gives back
    /// is not known beforehand. The contract says which reads and exchanges
    /// the call makes and how its value follows from what they gave; that all
    /// callers end with one value is shown in `crate::protocol`, for a cell
    /// that reads and exchanges atomically.
    pub fn get_or_init<F: FnOnce() -> bool>(&self, f: F) -> (value: bool)
        requires
            f.requires(()),
        ensures
            exists|observed: u8, answer: bool, outcome: Result<u8, u8>|
                #[trigger] self.obtains(f, observed, answer, outcome) && value == value_of(
                    observed,
                    answer,
                    outcome,
                ),
    {
        let observed = self.0.load(Ordering::Acquire);
        match decode(observed) {
            PresenceFlag::Present => {
                assert(self.obtains(f, observed, true, Ok(observed)));
                true
            },
            PresenceFlag::Absent => {
                assert(self.obtains(f, observed, false, Ok(observed)));
                false
            },
            PresenceFlag::Uninitialized => {
                let answer = f();
                let outcome = self.0.compare_exchange(
                    observed,
                    encode(answer),
                    Ordering::AcqRel,
                    Ordering::Acquire,
                );
                assert(self.obtains(f, observed, answer, outcome));
                settle(answer, outcome)
            },
        }
    }
}

} // verus!

//! The source lifecycle orchestrator: the restart protocol.
//!
//! The orchestrator owns the table of live sources and executes the
//! restart protocol for one failed source while the rest of the wall
//! keeps playing.  The media runtime delivers failure events from its
//! own threads; the decisions are all made here, and the surrounding
//! program performs the graph operations each decision calls for and
//! reports their outcomes back:
//!
//! 1. `request_restart` — the reentrancy check.  At most one restart is
//!    in flight per source; a request that finds one in flight schedules
//!    at most one deferred re-check instead of proceeding.
//! 2. `on_detached` — the old subgraph was unlinked from its compositor
//!    slot and removed from the active graph set (or that failed).  Its
//!    actual stop is deferred to the runtime's own scheduler, because an
//!    element must not be stopped from the thread that is delivering its
//!    failure event.
//! 3. `on_built` — the factory rebuilt the subgraph (or failed, which is
//!    fatal to this attempt: the guard is cleared and the cell is left
//!    dark and detached until the next externally observed event).
//! 4. `on_attached` — the new subgraph was linked into the preserved
//!    slot and synchronised with the running graph.
//!
//! The compositor slot bound to a source never changes: restarts replace
//! the subgraph, never the binding.

use vstd::prelude::*;
use crate::ids::source_id;
use crate::layout::{GridLayout, spec_cell_width, spec_cell_height};
use crate::source::{ConfigError, InstantiatedSource, SourceSpec};

verus! {

/// Why a restart was requested.
#[derive(Clone, Copy, Debug, PartialEq, Eq, Structural)]
pub enum RestartReason {
    /// An error event was traced back to the source.
    Error,
    /// The source's staleness watchdog raised its timeout signal.
    Timeout,
    /// The deferred re-check scheduled when a request found a restart
    /// already in flight.  Tagged so that it can never schedule a
    /// further re-check itself: one bounded re-check, not a chain.
    Deferred,
}

/// Where one source stands in the restart protocol.  Any phase other
/// than `Idle` means the source's reentrancy guard is set.
#[derive(Clone, Copy, Debug, PartialEq, Eq, Structural)]
pub enum RestartPhase {
    /// No restart in flight.
    Idle,
    /// The old subgraph is being unlinked from its slot.
    Detaching,
    /// Unlinked and removed; the factory is rebuilding.
    Rebuilding,
    /// Rebuilt; the new subgraph is being linked into the preserved slot.
    Attaching,
}

/// The outcome of one protocol step.
#[derive(Clone, Copy, Debug, PartialEq, Eq, Structural)]
pub enum StepOutcome {
    /// The step succeeded and the protocol continues with the next step.
    Continue,
    /// The restart ran to completion: the new subgraph is attached.
    Completed,
    /// The attempt was aborted; the guard is cleared and no retry is
    /// scheduled here.
    Aborted,
    /// The step was reported for a source not in that phase; nothing
    /// changed.
    OutOfTurn,
    /// No source with that index; nothing changed.
    UnknownSource,
}

/// What the reentrancy check decided.
#[derive(Clone, Copy, Debug, PartialEq, Eq, Structural)]
pub enum RestartDecision {
    /// The guard was clear and is now set: detach the old subgraph and
    /// report through `on_detached`.
    Proceed,
    /// A restart is in flight: run `request_restart` once more with
    /// reason `Deferred` after the in-flight restart completes.
    ScheduleDeferred,
    /// A restart is in flight and a re-check is already accounted for
    /// (or this request was itself the deferred re-check): absorbed.
    Dropped,
    /// No source with that index; nothing changed.
    UnknownSource,
}

/// Runtime state of one source: the immutable instantiation record plus
/// the restart protocol's bookkeeping.
pub struct SourceState {
    pub instantiated: InstantiatedSource,
    pub phase: RestartPhase,
    /// Whether a subgraph is currently linked into this source's slot.
    pub attached: bool,
    /// Whether a deferred re-check is scheduled but has not run yet.
    pub deferred_pending: bool,
}

/// Whether the reentrancy guard of source `i` is set: a restart for it
/// is currently executing.
pub open spec fn guard_set(states: Seq<SourceState>, i: int) -> bool {
    !(states[i].phase is Idle)
}

/// The reentrancy check.  If the guard is clear it is set and the
/// restart proceeds; if not, the request is absorbed into at most one
/// deferred re-check: a non-deferred request schedules one unless one is
/// already pending, and the deferred re-check itself never schedules
/// another.
pub open spec fn spec_request_restart(
    states: Seq<SourceState>,
    i: int,
    reason: RestartReason,
) -> (Seq<SourceState>, RestartDecision) {
    if !(0 <= i < states.len()) {
        (states, RestartDecision::UnknownSource)
    } else {
        let st = states[i];
        if st.phase is Idle {
            (
                states.update(
                    i,
                    SourceState {
                        phase: RestartPhase::Detaching,
                        deferred_pending: if reason is Deferred {
                            false
                        } else {
                            st.deferred_pending
                        },
                        ..st
                    },
                ),
                RestartDecision::Proceed,
            )
        } else if reason is Deferred {
            (states.update(i, SourceState { deferred_pending: false, ..st }), RestartDecision::Dropped)
        } else if st.deferred_pending {
            (states, RestartDecision::Dropped)
        } else {
            (
                states.update(i, SourceState { deferred_pending: true, ..st }),
                RestartDecision::ScheduleDeferred,
            )
        }
    }
}

/// Detach reported.  Success moves on to the rebuild with the slot now
/// empty; failure (no peer, unlink error: an inconsistent graph) aborts
/// the attempt and clears the guard, with no automatic retry.
pub open spec fn spec_on_detached(states: Seq<SourceState>, i: int, ok: bool) -> (
    Seq<SourceState>,
    StepOutcome,
) {
    if !(0 <= i < states.len()) {
        (states, StepOutcome::UnknownSource)
    } else if !(states[i].phase is Detaching) {
        (states, StepOutcome::OutOfTurn)
    } else if ok {
        (
            states.update(
                i,
                SourceState { phase: RestartPhase::Rebuilding, attached: false, ..states[i] },
            ),
            StepOutcome::Continue,
        )
    } else {
        (
            states.update(i, SourceState { phase: RestartPhase::Idle, ..states[i] }),
            StepOutcome::Aborted,
        )
    }
}

/// Rebuild reported.  Success moves on to attaching; a factory failure
/// is fatal to this attempt: the guard is cleared and the slot stays
/// detached — the cell goes dark until the next externally observed
/// event, and no retry is scheduled here.
pub open spec fn spec_on_built(states: Seq<SourceState>, i: int, ok: bool) -> (
    Seq<SourceState>,
    StepOutcome,
) {
    if !(0 <= i < states.len()) {
        (states, StepOutcome::UnknownSource)
    } else if !(states[i].phase is Rebuilding) {
        (states, StepOutcome::OutOfTurn)
    } else if ok {
        (
            states.update(i, SourceState { phase: RestartPhase::Attaching, ..states[i] }),
            StepOutcome::Continue,
        )
    } else {
        (
            states.update(i, SourceState { phase: RestartPhase::Idle, ..states[i] }),
            StepOutcome::Aborted,
        )
    }
}

/// Reattach reported.  Success completes the restart: the new subgraph
/// is attached to the preserved slot and the guard is cleared.  Failure
/// clears the guard too and leaves the slot detached.
pub open spec fn spec_on_attached(states: Seq<SourceState>, i: int, ok: bool) -> (
    Seq<SourceState>,
    StepOutcome,
) {
    if !(0 <= i < states.len()) {
        (states, StepOutcome::UnknownSource)
    } else if !(states[i].phase is Attaching) {
        (states, StepOutcome::OutOfTurn)
    } else if ok {
        (
            states.update(
                i,
                SourceState { phase: RestartPhase::Idle, attached: true, ..states[i] },
            ),
            StepOutcome::Completed,
        )
    } else {
        (
            states.update(i, SourceState { phase: RestartPhase::Idle, ..states[i] }),
            StepOutcome::Aborted,
        )
    }
}

/// The wall's aggregate runtime state: the display, the grid, and one
/// entry per configured source, keyed by cell index for the lifetime of
/// the process.
pub struct WallState {
    pub display_width: usize,
    pub display_height: usize,
    pub layout: GridLayout,
    pub sources: Vec<SourceState>,
}

impl WallState {
    /// Well-formedness: the grid is valid and at least one pixel per
    /// cell; entry `i` is the source instantiated for cell `i`, and a
    /// source whose slot was emptied mid-restart is not marked attached.
    pub open spec fn inv(self) -> bool {
        &&& self.layout.valid()
        &&& 1 <= spec_cell_width(self.display_width as int, self.layout)
        &&& 1 <= spec_cell_height(self.display_height as int, self.layout)
        &&& self.sources@.len() <= self.layout.cell_count()
        &&& forall|i: int|
            0 <= i < self.sources@.len() ==> (#[trigger] self.sources@[i]).instantiated.well_formed(
                i,
                self.display_width as int,
                self.display_height as int,
                self.layout,
            )
        &&& forall|i: int|
            0 <= i < self.sources@.len() ==> ((#[trigger] self.sources@[i]).phase is Rebuilding
                || self.sources@[i].phase is Attaching ==> !self.sources@[i].attached)
    }

    /// Builds the wall from configuration: validates the grid against
    /// the display, computes the common cell size, and instantiates
    /// source `i` into cell `i` with its stable id.  The caller then
    /// realises each source's plan and links it into its slot before any
    /// event is handled; a failure there is fatal at startup, so a
    /// running wall starts with every source attached and idle.
    pub fn new(
        display_w: usize,
        display_h: usize,
        layout: GridLayout,
        specs: Vec<SourceSpec>,
    ) -> (r: Result<WallState, ConfigError>)
        ensures
            match r {
                Ok(w) => {
                    &&& w.inv()
                    &&& w.display_width == display_w
                    &&& w.display_height == display_h
                    &&& w.layout == layout
                    &&& layout.valid()
                    &&& 1 <= spec_cell_width(display_w as int, layout)
                    &&& 1 <= spec_cell_height(display_h as int, layout)
                    &&& specs@.len() <= layout.cell_count()
                    &&& w.sources@.len() == specs@.len()
                    &&& forall|i: int|
                        0 <= i < specs@.len() ==> (#[trigger] w.sources@[i]).instantiated.source
                            == specs@[i]
                    &&& forall|i: int|
                        0 <= i < specs@.len() ==> (#[trigger] w.sources@[i]).phase is Idle
                            && w.sources@[i].attached && !w.sources@[i].deferred_pending
                },
                Err(e) => {
                    &&& e == ConfigError::BadGrid ==> !layout.valid()
                    &&& e == ConfigError::DisplayTooSmall ==> layout.valid() && (spec_cell_width(
                        display_w as int,
                        layout,
                    ) == 0 || spec_cell_height(display_h as int, layout) == 0)
                    &&& e == ConfigError::TooManySources ==> layout.valid() && specs@.len()
                        > layout.cell_count()
                    &&& (e == ConfigError::BadGrid || e == ConfigError::DisplayTooSmall || e
                        == ConfigError::TooManySources)
                },
            },
            r is Ok <==> (layout.valid() && 1 <= spec_cell_width(display_w as int, layout) && 1
                <= spec_cell_height(display_h as int, layout) && specs@.len()
                <= layout.cell_count()),
    {
        if !layout.check_valid() {
            return Err(ConfigError::BadGrid);
        }
        let cell_w: usize = display_w / layout.horizontal;
        let cell_h: usize = display_h / layout.vertical;
        if cell_w == 0 || cell_h == 0 {
            return Err(ConfigError::DisplayTooSmall);
        }
        let cell_count: usize = layout.horizontal * layout.vertical;
        if specs.len() > cell_count {
            return Err(ConfigError::TooManySources);
        }
        let ghost specs0: Seq<SourceSpec> = specs@;
        let mut remaining: Vec<SourceSpec> = specs;
        let mut sources: Vec<SourceState> = Vec::new();
        let mut i: usize = 0;
        let n: usize = remaining.len();
        while i < n
            invariant
                layout.valid(),
                cell_w == spec_cell_width(display_w as int, layout),
                cell_h == spec_cell_height(display_h as int, layout),
                n == specs0.len(),
                i <= n,
                remaining@ == specs0.subrange(i as int, n as int),
                sources@.len() == i,
                forall|k: int|
                    0 <= k < i ==> (#[trigger] sources@[k]).instantiated.well_formed(
                        k,
                        display_w as int,
                        display_h as int,
                        layout,
                    ),
                forall|k: int| 0 <= k < i ==> (#[trigger] sources@[k]).instantiated.source == specs0[k],
                forall|k: int|
                    0 <= k < i ==> (#[trigger] sources@[k]).phase is Idle && sources@[k].attached
                        && !sources@[k].deferred_pending,
            decreases n - i,
        {
            let item: SourceSpec = remaining.remove(0);
            proof {
                assert(item == specs0[i as int]);
                assert(remaining@ =~= specs0.subrange(i + 1, n as int));
            }
            let inst: InstantiatedSource = InstantiatedSource {
                source: item,
                name: source_id(i),
                index: i,
                width: cell_w,
                height: cell_h,
            };
            sources.push(
                SourceState {
                    instantiated: inst,
                    phase: RestartPhase::Idle,
                    attached: true,
                    deferred_pending: false,
                },
            );
            i = i + 1;
        }
        Ok(WallState { display_width: display_w, display_height: display_h, layout, sources })
    }

    /// Restart entry point: the atomic test-and-set of the reentrancy
    /// guard.  Exactly when the guard was clear the decision is
    /// `Proceed` and the guard is now set; otherwise the request is
    /// absorbed into at most one deferred re-check and the in-flight
    /// restart's phase, slot and attachment are untouched.
    pub fn request_restart(&mut self, index: usize, reason: RestartReason) -> (d: RestartDecision)
        requires
            old(self).inv(),
        ensures
            final(self).inv(),
            final(self).display_width == old(self).display_width,
            final(self).display_height == old(self).display_height,
            final(self).layout == old(self).layout,
            (final(self).sources@, d) == spec_request_restart(
                old(self).sources@,
                index as int,
                reason,
            ),
            d is Proceed <==> (index < old(self).sources@.len() && !guard_set(
                old(self).sources@,
                index as int,
            )),
            forall|j: int|
                0 <= j < old(self).sources@.len() ==> (#[trigger] final(self).sources@[j]).instantiated == old(self).sources@[j].instantiated,
    {
        if index >= self.sources.len() {
            return RestartDecision::UnknownSource;
        }
        let phase: RestartPhase = self.sources[index].phase;
        let pending: bool = self.sources[index].deferred_pending;
        let is_deferred: bool = match reason {
            RestartReason::Deferred => true,
            _ => false,
        };
        if let RestartPhase::Idle = phase {
            let mut st: SourceState = self.sources.remove(index);
            st.phase = RestartPhase::Detaching;
            if is_deferred {
                st.deferred_pending = false;
            }
            self.sources.insert(index, st);
            proof {
                assert(self.sources@ =~= spec_request_restart(
                    old(self).sources@,
                    index as int,
                    reason,
                ).0);
            }
            RestartDecision::Proceed
        } else if is_deferred {
            let mut st: SourceState = self.sources.remove(index);
            st.deferred_pending = false;
            self.sources.insert(index, st);
            proof {
                assert(self.sources@ =~= spec_request_restart(
                    old(self).sources@,
                    index as int,
                    reason,
                ).0);
            }
            RestartDecision::Dropped
        } else if pending {
            RestartDecision::Dropped
        } else {
            let mut st: SourceState = self.sources.remove(index);
            st.deferred_pending = true;
            self.sources.insert(index, st);
            proof {
                assert(self.sources@ =~= spec_request_restart(
                    old(self).sources@,
                    index as int,
                    reason,
                ).0);
            }
            RestartDecision::ScheduleDeferred
        }
    }

    /// Detach step reported: see `spec_on_detached`.  On success the old
    /// subgraph is out of the slot — its deferred stop is queued to the
    /// runtime's scheduler — and the factory rebuild may begin, so a
    /// slot is never attached to two subgraphs at once.
    pub fn on_detached(&mut self, index: usize, ok: bool) -> (o: StepOutcome)
        requires
            old(self).inv(),
        ensures
            final(self).inv(),
            final(self).display_width == old(self).display_width,
            final(self).display_height == old(self).display_height,
            final(self).layout == old(self).layout,
            (final(self).sources@, o) == spec_on_detached(old(self).sources@, index as int, ok),
            forall|j: int|
                0 <= j < old(self).sources@.len() ==> (#[trigger] final(self).sources@[j]).instantiated == old(self).sources@[j].instantiated,
    {
        if index >= self.sources.len() {
            return StepOutcome::UnknownSource;
        }
        let in_phase: bool = match self.sources[index].phase {
            RestartPhase::Detaching => true,
            _ => false,
        };
        if !in_phase {
            return StepOutcome::OutOfTurn;
        }
        let mut st: SourceState = self.sources.remove(index);
        let o: StepOutcome;
        if ok {
            st.phase = RestartPhase::Rebuilding;
            st.attached = false;
            o = StepOutcome::Continue;
        } else {
            st.phase = RestartPhase::Idle;
            o = StepOutcome::Aborted;
        }
        self.sources.insert(index, st);
        proof {
            assert(self.sources@ =~= spec_on_detached(old(self).sources@, index as int, ok).0);
        }
        o
    }

    /// The deferred stop of a detached subgraph ran on the runtime's
    /// scheduler.  Its outcome is observability only — a failed stop of
    /// an already-abandoned subgraph is never escalated — so the wall
    /// state is unaffected either way.
    pub fn on_deferred_destroy(&self, _index: usize, ok: bool) -> (logged: bool)
        ensures
            logged == !ok,
    {
        !ok
    }

    /// Rebuild step reported: see `spec_on_built`.  A factory failure is
    /// fatal to this attempt: the guard is cleared (never left stuck)
    /// and the slot stays detached.
    pub fn on_built(&mut self, index: usize, ok: bool) -> (o: StepOutcome)
        requires
            old(self).inv(),
        ensures
            final(self).inv(),
            final(self).display_width == old(self).display_width,
            final(self).display_height == old(self).display_height,
            final(self).layout == old(self).layout,
            (final(self).sources@, o) == spec_on_built(old(self).sources@, index as int, ok),
            forall|j: int|
                0 <= j < old(self).sources@.len() ==> (#[trigger] final(self).sources@[j]).instantiated == old(self).sources@[j].instantiated,
    {
        if index >= self.sources.len() {
            return StepOutcome::UnknownSource;
        }
        let in_phase: bool = match self.sources[index].phase {
            RestartPhase::Rebuilding => true,
            _ => false,
        };
        if !in_phase {
            return StepOutcome::OutOfTurn;
        }
        let mut st: SourceState = self.sources.remove(index);
        let o: StepOutcome;
        if ok {
            st.phase = RestartPhase::Attaching;
            o = StepOutcome::Continue;
        } else {
            st.phase = RestartPhase::Idle;
            o = StepOutcome::Aborted;
        }
        self.sources.insert(index, st);
        proof {
            assert(self.sources@ =~= spec_on_built(old(self).sources@, index as int, ok).0);
        }
        o
    }

    /// Reattach step reported: see `spec_on_attached`.  Success
    /// completes the restart with the slot binding unchanged from before
    /// the restart.
    pub fn on_attached(&mut self, index: usize, ok: bool) -> (o: StepOutcome)
        requires
            old(self).inv(),
        ensures
            final(self).inv(),
            final(self).display_width == old(self).display_width,
            final(self).display_height == old(self).display_height,
            final(self).layout == old(self).layout,
            (final(self).sources@, o) == spec_on_attached(old(self).sources@, index as int, ok),
            forall|j: int|
                0 <= j < old(self).sources@.len() ==> (#[trigger] final(self).sources@[j]).instantiated == old(self).sources@[j].instantiated,
    {
        if index >= self.sources.len() {
            return StepOutcome::UnknownSource;
        }
        let in_phase: bool = match self.sources[index].phase {
            RestartPhase::Attaching => true,
            _ => false,
        };
        if !in_phase {
            return StepOutcome::OutOfTurn;
        }
        let mut st: SourceState = self.sources.remove(index);
        let o: StepOutcome;
        if ok {
            st.phase = RestartPhase::Idle;
            st.attached = true;
            o = StepOutcome::Completed;
        } else {
            st.phase = RestartPhase::Idle;
            o = StepOutcome::Aborted;
        }
        self.sources.insert(index, st);
        proof {
            assert(self.sources@ =~= spec_on_attached(old(self).sources@, index as int, ok).0);
        }
        o
    }
}

/// Once a restart for a source has proceeded (set the guard), any
/// further request for that source — an error and a timeout racing for
/// the same stall, in any order and for any reasons — does not proceed:
/// at most one subgraph rebuild executes per source at a time, and the
/// in-flight restart's phase, attachment and binding are untouched by
/// the absorbed request.
pub proof fn lemma_single_restart_in_flight(
    states: Seq<SourceState>,
    i: int,
    r1: RestartReason,
    r2: RestartReason,
)
    requires
        0 <= i < states.len(),
        spec_request_restart(states, i, r1).1 is Proceed,
    ensures
        ({
            let s1 = spec_request_restart(states, i, r1).0;
            let s2 = spec_request_restart(s1, i, r2).0;
            let d2 = spec_request_restart(s1, i, r2).1;
            &&& guard_set(s1, i)
            &&& !(d2 is Proceed)
            &&& s2[i].phase == s1[i].phase
            &&& s2[i].attached == s1[i].attached
            &&& s2[i].instantiated == s1[i].instantiated
        }),
{
}

/// A successful restart leaves the compositor slot binding exactly as it
/// was: after proceed, detach, rebuild and reattach all succeed, the
/// source's instantiation record — stable id, cell index, target
/// resolution — is unchanged, the source is attached again with the
/// guard clear, and no other source's entry was touched at any step.
pub proof fn lemma_restart_preserves_slot(states: Seq<SourceState>, i: int, reason: RestartReason)
    requires
        0 <= i < states.len(),
        states[i].phase is Idle,
    ensures
        ({
            let s1 = spec_request_restart(states, i, reason).0;
            let s2 = spec_on_detached(s1, i, true).0;
            let s3 = spec_on_built(s2, i, true).0;
            let s4 = spec_on_attached(s3, i, true).0;
            &&& spec_request_restart(states, i, reason).1 is Proceed
            &&& spec_on_detached(s1, i, true).1 is Continue
            &&& spec_on_built(s2, i, true).1 is Continue
            &&& spec_on_attached(s3, i, true).1 is Completed
            &&& s4[i].instantiated == states[i].instantiated
            &&& s4[i].attached
            &&& s4[i].phase is Idle
            &&& forall|j: int| 0 <= j < states.len() && j != i ==> s4[j] == states[j]
        }),
{
    let s1 = spec_request_restart(states, i, reason).0;
    let s2 = spec_on_detached(s1, i, true).0;
    let s3 = spec_on_built(s2, i, true).0;
    let s4 = spec_on_attached(s3, i, true).0;
    assert(forall|j: int| 0 <= j < states.len() && j != i ==> s4[j] == states[j]);
}

/// A fatal factory failure during a restart leaves the guard cleared —
/// never stuck in `Restarting` — and the slot detached, not
/// double-attached: the cell goes dark, and every other source's entry
/// is untouched.
pub proof fn lemma_fatal_rebuild_clears_guard(
    states: Seq<SourceState>,
    i: int,
    reason: RestartReason,
)
    requires
        0 <= i < states.len(),
        states[i].phase is Idle,
    ensures
        ({
            let s1 = spec_request_restart(states, i, reason).0;
            let s2 = spec_on_detached(s1, i, true).0;
            let s3 = spec_on_built(s2, i, false).0;
            &&& spec_on_built(s2, i, false).1 is Aborted
            &&& !guard_set(s3, i)
            &&& !s3[i].attached
            &&& s3[i].instantiated == states[i].instantiated
            &&& forall|j: int| 0 <= j < states.len() && j != i ==> s3[j] == states[j]
        }),
{
    let s1 = spec_request_restart(states, i, reason).0;
    let s2 = spec_on_detached(s1, i, true).0;
    let s3 = spec_on_built(s2, i, false).0;
    assert(forall|j: int| 0 <= j < states.len() && j != i ==> s3[j] == states[j]);
}

} // verus!

//! The selection state machine: at most one "armed" square at a time. A
//! first click on an occupied square arms it as the move's origin; the next
//! click on any square submits the pair as a move request and disarms,
//! whatever the engine decides — the engine, not this machine, is the
//! authority on legality.

use vstd::prelude::*;
use crate::board::Square;

verus! {

/// Selection state: either no square is selected, or exactly one square is
/// armed as a pending move origin.
#[derive(Clone, Copy, Debug, PartialEq, Eq, Structural)]
pub enum SelectionState {
    Idle,
    Armed(Square),
}

impl SelectionState {
    /// Well-formedness: an armed square addresses one of the 64 cells.
    pub open spec fn wf(self) -> bool {
        match self {
            SelectionState::Idle => true,
            SelectionState::Armed(s) => s.wf(),
        }
    }
}

/// The request the state machine hands to the external board engine for one
/// click. The engine performs it; its acceptance or rejection never flows
/// back into this machine.
#[derive(Clone, Copy, Debug, PartialEq, Eq, Structural)]
pub enum EngineRequest {
    /// Nothing to tell the engine.
    NoRequest,
    /// Mark the square as the origin of a pending move.
    MarkOrigin(Square),
    /// Submit the pair as a move from origin to destination.
    SubmitMove(Square, Square),
}

/// The next selection state and engine request for a click on `clicked`,
/// given whether a piece stood on that square:
/// - `Idle`, occupied: arm the square and mark it as the move's origin;
/// - `Idle`, empty: stay `Idle`, ask nothing;
/// - `Armed(origin)`: submit `(origin, clicked)` — the destination may equal
///   the origin — and disarm, whatever the engine will answer.
pub open spec fn spec_selection_step(
    state: SelectionState,
    clicked: Square,
    occupied: bool,
) -> (SelectionState, EngineRequest) {
    match state {
        SelectionState::Idle => {
            if occupied {
                (SelectionState::Armed(clicked), EngineRequest::MarkOrigin(clicked))
            } else {
                (SelectionState::Idle, EngineRequest::NoRequest)
            }
        },
        SelectionState::Armed(origin) => {
            (SelectionState::Idle, EngineRequest::SubmitMove(origin, clicked))
        },
    }
}

impl SelectionState {
    /// Starting state of a fresh controller: nothing selected.
    pub fn new() -> (s: SelectionState)
        ensures
            s == SelectionState::Idle,
    {
        SelectionState::Idle
    }

    /// Advances the machine for one click that already hit the board, and
    /// returns the request the caller must forward to the board engine.
    /// `occupied` reports whether a piece stands on the clicked square.
    pub fn on_board_click(&mut self, clicked: Square, occupied: bool) -> (req: EngineRequest)
        requires
            old(self).wf(),
            clicked.wf(),
        ensures
            final(self).wf(),
            (*final(self), req) == spec_selection_step(*old(self), clicked, occupied),
    {
        match *self {
            SelectionState::Idle => {
                if occupied {
                    *self = SelectionState::Armed(clicked);
                    EngineRequest::MarkOrigin(clicked)
                } else {
                    EngineRequest::NoRequest
                }
            },
            SelectionState::Armed(origin) => {
                *self = SelectionState::Idle;
                EngineRequest::SubmitMove(origin, clicked)
            },
        }
    }
}

/// Arming law: from `Idle`, a click on an occupied square arms exactly that
/// square and marks it as the move's origin; and from `Armed(origin)`, a
/// click on any square — the origin itself included — disarms back to `Idle`
/// and submits `(origin, clicked)`, independent of occupancy and of what the
/// engine will answer.
pub proof fn lemma_click_arms_then_disarms(origin: Square, clicked: Square, occupied: bool)
    ensures
        occupied ==> spec_selection_step(SelectionState::Idle, clicked, occupied) == (
            SelectionState::Armed(clicked),
            EngineRequest::MarkOrigin(clicked),
        ),
        spec_selection_step(SelectionState::Armed(origin), clicked, occupied) == (
            SelectionState::Idle,
            EngineRequest::SubmitMove(origin, clicked),
        ),
{
}

/// Consistency law: the machine is never left half-selected. A step ends
/// `Armed` only when it started `Idle`, the clicked square held a piece, and
/// the armed square is exactly the clicked one; every step out of `Armed`
/// returns to `Idle`.
pub proof fn lemma_never_half_selected(state: SelectionState, clicked: Square, occupied: bool)
    ensures
        spec_selection_step(state, clicked, occupied).0 is Armed ==> state == SelectionState::Idle
            && occupied
            && spec_selection_step(state, clicked, occupied).0 == SelectionState::Armed(clicked),
        state is Armed ==> spec_selection_step(state, clicked, occupied).0 == SelectionState::Idle,
{
}

/// No-op law: from `Idle`, a click on an empty square leaves the state at
/// `Idle` and asks nothing of the engine.
pub proof fn lemma_empty_click_is_noop(clicked: Square)
    ensures
        spec_selection_step(SelectionState::Idle, clicked, false) == (
            SelectionState::Idle,
            EngineRequest::NoRequest,
        ),
{
}

} // verus!

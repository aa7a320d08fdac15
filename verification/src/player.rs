//! The consumer-owned action-stream cursor: an ordered, frame-stamped action
//! list, a cursor into it, and the current simulated time. On each time
//! advance it applies every action whose frame has arrived, in order, and
//! stops at the first action whose frame is still in the future.

use vstd::prelude::*;

use crate::action::{Action, ActionKind};
use crate::board::{empty_board, Board, BOARD_COLUMNS, BOARD_ROWS};
use crate::laws::{apply_kind_seq, lemma_apply_kind_seq_snoc};

verus! {

/// Whether one action's coordinates fit the fixed playing field a
/// [`GameState`] board is created with.
pub open spec fn kind_fits_board(k: ActionKind) -> bool {
    match k {
        ActionKind::Garbage { column, height } => height <= BOARD_ROWS && column < BOARD_COLUMNS,
        ActionKind::Reposition { .. } => true,
        ActionKind::LineClear { row } => row < BOARD_ROWS,
        ActionKind::Cell { position, .. } => position.1 < BOARD_ROWS && position.0 < BOARD_COLUMNS,
        ActionKind::Hold => true,
    }
}

/// How many `Hold` actions `s` contains from index `i` on.
pub open spec fn holds_from(s: Seq<Action>, i: int) -> int
    decreases s.len() - i,
{
    if 0 <= i < s.len() {
        (if s[i].kind is Hold {
            1int
        } else {
            0int
        }) + holds_from(s, i + 1)
    } else {
        0
    }
}

/// A recorded action list the fixed board accepts: every action fits the
/// board, and there are few enough holds for the `u16` counter to absorb.
pub open spec fn actions_valid(s: Seq<Action>) -> bool {
    &&& forall|i: int| 0 <= i < s.len() ==> kind_fits_board((#[trigger] s[i]).kind)
    &&& holds_from(s, 0) <= u16::MAX
}

/// The kinds of a list of frame-stamped actions, in order.
pub open spec fn kinds_of(s: Seq<Action>) -> Seq<ActionKind> {
    Seq::new(s.len(), |i: int| s[i].kind)
}

proof fn lemma_holds_from_nonneg(s: Seq<Action>, i: int)
    ensures
        holds_from(s, i) >= 0,
    decreases s.len() - i,
{
    if 0 <= i < s.len() {
        lemma_holds_from_nonneg(s, i + 1);
    }
}

/// Checks [`actions_valid`] at run time, for callers handed an action list
/// from outside (a reconstruction step over a replay file). A list that fails
/// this check must be refused without touching any playback state.
pub fn check_actions(actions: &Vec<Action>) -> (r: bool)
    ensures
        r == actions_valid(actions@),
{
    let n = actions.len();
    let mut holds: usize = 0;
    let mut i: usize = 0;
    while i < n
        invariant
            i <= n,
            n == actions@.len(),
            holds <= i,
            holds + holds_from(actions@, i as int) == holds_from(actions@, 0),
            forall|k: int| 0 <= k < i ==> kind_fits_board((#[trigger] actions@[k]).kind),
        decreases n - i,
    {
        let fits = match actions[i].kind {
            ActionKind::Garbage { column, height } => height <= BOARD_ROWS && column
                < BOARD_COLUMNS,
            ActionKind::Reposition { .. } => true,
            ActionKind::LineClear { row } => row < BOARD_ROWS,
            ActionKind::Cell { position, .. } => position.1 < BOARD_ROWS && position.0
                < BOARD_COLUMNS,
            ActionKind::Hold => true,
        };
        if !fits {
            return false;
        }
        if matches!(actions[i].kind, ActionKind::Hold) {
            holds = holds + 1;
        }
        i += 1;
    }
    holds <= u16::MAX as usize
}

/// The consumer-owned playback cursor: the board, the recorded action list,
/// how many actions have been applied so far, and the current frame.
///
/// The fields are public so a consumer can read them for rendering; the
/// playback invariant is [`GameState::wf`], required and re-established by
/// every operation.
pub struct GameState {
    pub board: Board,
    pub actions: Vec<Action>,
    pub actions_passed: usize,
    pub frame: u32,
}

impl GameState {
    /// The playback invariant: the board is well-formed with the fixed
    /// dimensions, the cursor is within the list, every recorded action fits
    /// the board, and the hold counter can absorb the holds still pending.
    pub open spec fn wf(&self) -> bool {
        &&& self.board@.wf()
        &&& self.board@.grid.len() == BOARD_ROWS
        &&& self.board@.columns == BOARD_COLUMNS
        &&& self.actions_passed <= self.actions@.len()
        &&& forall|i: int|
            0 <= i < self.actions@.len() ==> kind_fits_board((#[trigger] self.actions@[i]).kind)
        &&& self.board@.holds_passed + holds_from(self.actions@, self.actions_passed as int)
            <= u16::MAX
    }

    /// Whether every recorded action has been applied.
    pub open spec fn spec_is_finished(&self) -> bool {
        self.actions_passed >= self.actions@.len()
    }

    /// A session with no recorded actions: an empty board at frame zero.
    pub fn empty() -> (r: GameState)
        ensures
            r.wf(),
            r.board@ == empty_board(),
            r.actions@ == Seq::<Action>::empty(),
            r.actions_passed == 0,
            r.frame == 0,
    {
        GameState { board: Board::empty(), actions: Vec::new(), actions_passed: 0, frame: 0 }
    }

    /// A session over a recorded action list, with every action already due at
    /// frame zero applied. The list must pass [`check_actions`]; a consumer
    /// holding an unchecked list calls that first and keeps its previous
    /// session on failure.
    pub fn with_actions(actions: Vec<Action>) -> (r: GameState)
        requires
            actions_valid(actions@),
        ensures
            r.wf(),
            r.actions@ == actions@,
            r.frame == 0,
            r.actions_passed <= actions@.len(),
            forall|i: int| 0 <= i < r.actions_passed ==> (#[trigger] actions@[i]).frame == 0,
            r.actions_passed < actions@.len() ==> actions@[r.actions_passed as int].frame > 0,
            r.board@ == apply_kind_seq(
                empty_board(),
                kinds_of(actions@.take(r.actions_passed as int)),
            ),
    {
        let mut game_state = GameState {
            board: Board::empty(),
            actions,
            actions_passed: 0,
            frame: 0,
        };
        game_state.advance_actions();
        proof {
            assert(game_state.actions@.subrange(0, game_state.actions_passed as int)
                =~= game_state.actions@.take(game_state.actions_passed as int));
        }
        game_state
    }

    /// Whether playback has consumed every recorded action.
    pub fn is_finished(&self) -> (r: bool)
        ensures
            r == self.spec_is_finished(),
    {
        self.actions_passed >= self.actions.len()
    }

    /// Advances simulated time by one frame — unless playback has finished, in
    /// which case nothing changes — and applies every action that has become
    /// due.
    pub fn advance_frame(&mut self)
        requires
            old(self).wf(),
            old(self).frame < u32::MAX,
        ensures
            final(self).wf(),
            final(self).actions@ == old(self).actions@,
            old(self).spec_is_finished() ==> *final(self) == *old(self),
            !old(self).spec_is_finished() ==> {
                &&& final(self).frame == old(self).frame + 1
                &&& old(self).actions_passed <= final(self).actions_passed
                    <= final(self).actions@.len()
                &&& forall|i: int|
                    old(self).actions_passed <= i < final(self).actions_passed ==> (
                    #[trigger] final(self).actions@[i]).frame <= final(self).frame as u64
                &&& (final(self).spec_is_finished() || final(self).actions@[
                    final(self).actions_passed as int
                ].frame > final(self).frame as u64)
                &&& final(self).board@ == apply_kind_seq(
                    old(self).board@,
                    kinds_of(
                        old(self).actions@.subrange(
                            old(self).actions_passed as int,
                            final(self).actions_passed as int,
                        ),
                    ),
                )
            },
    {
        if !self.is_finished() {
            self.frame = self.frame + 1;
            self.advance_actions();
        }
    }

    /// Applies, in order, every action at the cursor whose frame is at or
    /// before the current one, advancing the cursor past it; stops at the
    /// first action whose frame is still in the future.
    pub fn advance_actions(&mut self)
        requires
            old(self).wf(),
        ensures
            final(self).wf(),
            final(self).actions@ == old(self).actions@,
            final(self).frame == old(self).frame,
            old(self).actions_passed <= final(self).actions_passed <= final(self).actions@.len(),
            forall|i: int|
                old(self).actions_passed <= i < final(self).actions_passed ==> (
                #[trigger] final(self).actions@[i]).frame <= final(self).frame as u64,
            final(self).spec_is_finished() || final(self).actions@[
                final(self).actions_passed as int
            ].frame > final(self).frame as u64,
            final(self).board@ == apply_kind_seq(
                old(self).board@,
                kinds_of(
                    old(self).actions@.subrange(
                        old(self).actions_passed as int,
                        final(self).actions_passed as int,
                    ),
                ),
            ),
    {
        while self.actions_passed < self.actions.len() && self.actions[self.actions_passed].frame
            <= self.frame as u64
            invariant
                self.wf(),
                self.actions@ == old(self).actions@,
                self.frame == old(self).frame,
                old(self).actions_passed <= self.actions_passed <= self.actions@.len(),
                forall|i: int|
                    old(self).actions_passed <= i < self.actions_passed ==> (
                    #[trigger] self.actions@[i]).frame <= self.frame as u64,
                self.board@ == apply_kind_seq(
                    old(self).board@,
                    kinds_of(
                        self.actions@.subrange(
                            old(self).actions_passed as int,
                            self.actions_passed as int,
                        ),
                    ),
                ),
            decreases self.actions@.len() - self.actions_passed,
        {
            let ghost prev = *self;
            let kind = self.actions[self.actions_passed].kind;
            proof {
                lemma_holds_from_nonneg(self.actions@, self.actions_passed as int + 1);
            }
            self.board.apply_action(&kind);
            self.actions_passed = self.actions_passed + 1;
            proof {
                let ghost base = old(self).actions_passed as int;
                let ghost s = self.actions@;
                lemma_apply_kind_seq_snoc(
                    old(self).board@,
                    kinds_of(s.subrange(base, prev.actions_passed as int)),
                    kind,
                );
                assert(kinds_of(s.subrange(base, self.actions_passed as int)) =~= kinds_of(
                    s.subrange(base, prev.actions_passed as int),
                ).push(kind));
            }
        }
    }
}

} // verus!

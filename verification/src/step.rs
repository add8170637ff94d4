//! The game-loop state machine: one iteration of the loop as a pure
//! decision over the game state, the move counter, and a wall-clock
//! sample. The caller performs the outside work (sampling the clock,
//! printing), hands the sample in, and acts on the outcome.

use vstd::prelude::*;

use crate::board::{applied, other, Color, Game};
use crate::movegen::candidates;
use crate::render::rendered;

verus! {

/// How one loop iteration ended, in the loop's fixed priority order. The
/// stopped variants are normal state transitions, not failures: the loop
/// only ever ends through one of them. Where the board was rendered
/// before the decision, the rendering rides along.
pub enum StepOutcome {
    /// The elapsed time reached the configured time limit.
    StoppedByTime,
    /// The moves applied so far reached the configured move limit.
    StoppedByMoveLimit,
    /// No candidate moves for the side to move; the named side (the
    /// opponent of the side to move) is reported as winner.
    StoppedByCheckmate(Color, Vec<char>),
    /// The first candidate move was applied and the turn switched.
    Moved(Vec<char>),
}

impl Game {
    /// One iteration of the game loop, with the two limits checked first,
    /// in that order; then the board is rendered; then the first
    /// candidate move, if any, is applied and the turn switched. With no
    /// candidate the game stops, reporting the opposing side as winner —
    /// the same empty-candidate signal whatever made the list empty. The
    /// caller counts applied moves and passes the count back in.
    pub fn play_step(
        &mut self,
        elapsed_secs: u64,
        time_limit: u64,
        move_count: usize,
        move_limit: usize,
    ) -> (r: StepOutcome)
        requires
            old(self).wf(),
        ensures
            final(self).wf(),
            elapsed_secs >= time_limit ==> r is StoppedByTime && *final(self) == *old(self),
            elapsed_secs < time_limit && move_count >= move_limit ==> r is StoppedByMoveLimit
                && *final(self) == *old(self),
            elapsed_secs < time_limit && move_count < move_limit && candidates(
                old(self).board@,
                old(self).turn,
            ).len() == 0 ==> (r matches StepOutcome::StoppedByCheckmate(w, rend) && w == other(
                old(self).turn,
            ) && rend@ == rendered(old(self).board@)) && *final(self) == *old(self),
            elapsed_secs < time_limit && move_count < move_limit && candidates(
                old(self).board@,
                old(self).turn,
            ).len() > 0 ==> (r matches StepOutcome::Moved(rend) && rend@ == rendered(
                old(self).board@,
            )) && final(self).board@ == applied(
                old(self).board@,
                candidates(old(self).board@, old(self).turn)[0],
            ) && final(self).turn == other(old(self).turn),
    {
        if elapsed_secs >= time_limit {
            return StepOutcome::StoppedByTime;
        }
        if move_count >= move_limit {
            return StepOutcome::StoppedByMoveLimit;
        }
        let rend = self.render();
        match self.get_ai_move() {
            None => {
                let winner = match self.turn {
                    Color::White => Color::Black,
                    Color::Black => Color::White,
                };
                StepOutcome::StoppedByCheckmate(winner, rend)
            },
            Some(mv) => {
                self.make_move(mv);
                self.switch_turn();
                StepOutcome::Moved(rend)
            },
        }
    }
}

} // verus!

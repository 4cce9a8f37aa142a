//! The record of a level's solution, as it is handed to whatever stores it.

use crate::board::Board;
use crate::layout::cables_held;
use crate::layout::copy_layout;
use crate::layout::CableMap;
use crate::transport::OmniversalConnector;
use vstd::prelude::*;

verus! {

/// How good a solved level's solution is.
#[derive(Debug, Clone, Copy, PartialEq, Eq, Structural)]
pub struct Metrics {
    /// The number of steps that the last winning run took.
    pub total_cycles: u64,
    /// The smallest number of steps that any winning run of the level took.
    pub min_cycles: u64,
    /// The number of crossovers on the board when the last run won.
    pub crossovers: u64,
}

/// A cable layout for a level, with the connectors it was made for.
#[derive(Debug)]
pub struct Solution {
    /// Level key this solution is for.
    pub level_key: String,
    /// Cable layout.
    pub cables: CableMap,
    pub left: OmniversalConnector,
    pub right: OmniversalConnector,
    /// If this is `Some`, the level is solved.
    pub metrics: Option<Metrics>,
}

impl Metrics {
    /// The metrics after a run has won in `total_cycles` steps with
    /// `crossovers` crossovers on the board, where `previous` holds the
    /// metrics recorded before, if the level had been solved already.
    pub open spec fn after_win(previous: Option<Metrics>, total_cycles: u64, crossovers: u64)
        -> Metrics {
        Metrics {
            total_cycles,
            min_cycles: match previous {
                Some(old) => if old.min_cycles < total_cycles {
                    old.min_cycles
                } else {
                    total_cycles
                },
                None => total_cycles,
            },
            crossovers,
        }
    }

    /// Records a win: the run's own numbers, and the best number of steps so
    /// far.
    pub fn record_win(previous: Option<Metrics>, total_cycles: u64, crossovers: u64) -> (r:
        Metrics)
        ensures
            r == Metrics::after_win(previous, total_cycles, crossovers),
            r.min_cycles <= total_cycles,
            previous is Some ==> r.min_cycles <= previous->Some_0.min_cycles,
    {
        let min_cycles = match previous {
            Some(old) => {
                if old.min_cycles < total_cycles {
                    old.min_cycles
                } else {
                    total_cycles
                }
            },
            None => total_cycles,
        };
        Metrics { total_cycles, min_cycles, crossovers }
    }
}

impl Solution {
    /// The solution that the committed layout of `board` makes for the level
    /// `level_key`, not yet known to win.
    pub fn of_board(level_key: String, board: &Board) -> (r: Solution)
        ensures
            r.level_key == level_key,
            cables_held(r.cables) == board.cables_view(),
            r.left.ports@ == board.left.ports@,
            r.left.slider@ == board.left.slider@,
            r.right.ports@ == board.right.ports@,
            r.right.slider@ == board.right.slider@,
            r.metrics is None,
    {
        Solution {
            level_key,
            cables: copy_layout(&board.cables),
            left: board.left.clone(),
            right: board.right.clone(),
            metrics: None,
        }
    }

    /// The board of width `width` that this solution is laid out on.
    pub fn into_board(self, width: usize) -> (r: Board)
        ensures
            r.cables_view() == cables_held(self.cables),
            r.left == self.left,
            r.right == self.right,
            r.width == width,
    {
        Board { left: self.left, right: self.right, width, cables: self.cables }
    }
}

} // verus!

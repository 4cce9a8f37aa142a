//! What the player did in one tick, as the engine sees it.
//!
//! The engine never looks at keys or buttons. Each tick it is handed the
//! controls that went down in that tick, the cell the cursor is over, and the
//! number of the frame.

use crate::grid::Coord;
use vstd::prelude::*;

verus! {

/// The controls.
#[derive(Debug, Clone, Copy, PartialEq, Eq, Hash, Structural)]
pub enum Control {
    Select,
    Up,
    Down,
    Left,
    Right,
    Start,
    StepOnce,
    Escape,
    Ctrl,
}

/// The input of one tick.
#[derive(Debug)]
pub struct TickInput {
    /// The controls that went down in this tick.
    pub clicked: Vec<Control>,
    /// The cell that the cursor is over.
    pub cursor: Coord,
    /// The number of frames run so far.
    pub frames_ran: u64,
}

impl TickInput {
    /// Whether `control` went down in this tick.
    pub open spec fn clicked_spec(&self, control: Control) -> bool {
        self.clicked@.contains(control)
    }

    /// Whether `control` went down in this tick.
    pub fn clicked_down(&self, control: Control) -> (r: bool)
        ensures
            r == self.clicked_spec(control),
    {
        let mut i: usize = 0;
        while i < self.clicked.len()
            invariant
                i <= self.clicked.len(),
                forall|k: int| 0 <= k < i ==> self.clicked@[k] != control,
            decreases self.clicked.len() - i,
        {
            if self.clicked[i] == control {
                return true;
            }
            i = i + 1;
        }
        false
    }
}

} // verus!

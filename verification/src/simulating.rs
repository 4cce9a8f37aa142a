//! Running the router on a snapshot of the board, at the pace that the player
//! chooses.
//!
//! The router itself only knows how to take one step. When steps are taken
//! is decided here: every so many frames, or one at a time on demand. A run
//! that has reported errors or has won is at rest and takes no further step.

use crate::board::Board;
use crate::controls::Control;
use crate::controls::TickInput;
use crate::floodfill::all_consumed;
use crate::floodfill::errors_among;
use crate::floodfill::marks_among;
use crate::floodfill::slots_after;
use crate::floodfill::FloodFillError;
use crate::floodfill::FloodFiller;
use crate::layout::count_crossovers;
use crate::layout::crossover_cells;
use crate::playing::ModePlaying;
use crate::solutions::Metrics;
use vstd::prelude::*;

verus! {

/// Standard time to do one step, in frames.
pub const STEP_TIME: u64 = 30;

/// When the router takes its steps.
#[derive(Debug)]
pub enum AdvanceMethod {
    /// Advance once every `interval` frames, counted from `start_frame`.
    ByFrames { start_frame: u64, interval: u64 },
    /// Advance when a step is asked for.
    OnDemand,
    /// At rest: the last step reported these errors.
    Errors(Vec<FloodFillError>),
    /// At rest: the run has won, with these metrics.
    WinScreen { metrics: Metrics },
}

/// An `AdvanceMethod` as a mathematical value.
pub enum AdvanceView {
    ByFrames { start_frame: u64, interval: u64 },
    OnDemand,
    Errors(Seq<FloodFillError>),
    WinScreen { metrics: Metrics },
}

/// A simulation run: the board it runs on, the router, and the pace.
#[derive(Debug)]
pub struct ModeSimulating {
    /// A copy of the edited board, so that the run is not disturbed.
    board: Board,
    flooder: FloodFiller,
    advance_method: AdvanceMethod,
}

/// What a tick asks of whoever runs the simulation.
#[derive(Debug, Clone, Copy, PartialEq, Eq, Structural)]
pub enum SimulatingAction {
    /// Leave the simulation and go back to editing.
    Leave,
    /// Stay.
    Stay,
    /// Stay; the run has just won with these metrics.
    Won(Metrics),
}

impl View for AdvanceMethod {
    type V = AdvanceView;

    open spec fn view(&self) -> AdvanceView {
        match *self {
            AdvanceMethod::ByFrames { start_frame, interval } => AdvanceView::ByFrames {
                start_frame,
                interval,
            },
            AdvanceMethod::OnDemand => AdvanceView::OnDemand,
            AdvanceMethod::Errors(errors) => AdvanceView::Errors(errors@),
            AdvanceMethod::WinScreen { metrics } => AdvanceView::WinScreen { metrics },
        }
    }
}

impl AdvanceView {
    /// Whether the run is at rest.
    pub open spec fn special(self) -> bool {
        self is Errors || self is WinScreen
    }

    /// Whether the pace can be kept: a pace by frames has a positive
    /// interval.
    pub open spec fn steady(self) -> bool {
        self matches AdvanceView::ByFrames { interval, .. } ==> interval > 0
    }

    /// Whether the pace can be kept at frame `frames_ran`: a pace by frames
    /// has not started later than that.
    pub open spec fn started_by(self, frames_ran: u64) -> bool {
        self matches AdvanceView::ByFrames { start_frame, .. } ==> start_frame <= frames_ran
    }

    /// The pace after a tick in frame `frames_ran`, and whether the router is
    /// to take a step in this tick.
    ///
    /// A run at rest stays at rest. Otherwise a step that is asked for is
    /// taken, and from then on steps are taken on demand. Otherwise the start
    /// control switches between the two paces: from running by itself to
    /// waiting, without a step, and from waiting to running by itself, with
    /// a step at once. Otherwise a run by frames takes a step whenever a
    /// whole number of intervals has passed since its start.
    pub open spec fn advanced(self, step_once: bool, start: bool, frames_ran: u64) -> (
        AdvanceView,
        bool,
    ) {
        match self {
            AdvanceView::Errors(_) => (self, false),
            AdvanceView::WinScreen { .. } => (self, false),
            _ => if step_once {
                (AdvanceView::OnDemand, true)
            } else {
                match self {
                    AdvanceView::ByFrames { start_frame, interval } => if start {
                        (AdvanceView::OnDemand, false)
                    } else {
                        (self, (frames_ran - start_frame) % (interval as int) == 0)
                    },
                    _ => if start {
                        (
                            AdvanceView::ByFrames { start_frame: frames_ran, interval: STEP_TIME },
                            true,
                        )
                    } else {
                        (self, false)
                    },
                }
            },
        }
    }
}

impl AdvanceMethod {
    /// Returns `true` if the run is at rest and won't actually advance.
    pub fn is_special(&self) -> (r: bool)
        ensures
            r == self@.special(),
    {
        match self {
            AdvanceMethod::Errors(_) => true,
            AdvanceMethod::WinScreen { .. } => true,
            _ => false,
        }
    }
}

/// What a run becomes when its router has taken a step that reported
/// `errors` and left the slots `tips` after `cycles` steps in all, on a board
/// with `crossovers` crossovers: errors put it to rest, and so does a clean
/// step after which every tip is consumed.
pub open spec fn after_step(
    method: AdvanceView,
    errors: Seq<FloodFillError>,
    tips: Seq<Option<crate::floodfill::Tip>>,
    cycles: u64,
    crossovers: u64,
    previous: Option<Metrics>,
) -> AdvanceView {
    if errors.len() > 0 {
        AdvanceView::Errors(errors)
    } else if all_consumed(tips) {
        AdvanceView::WinScreen { metrics: Metrics::after_win(previous, cycles, crossovers) }
    } else {
        method
    }
}

impl ModeSimulating {
    /// The board that the run is on.
    pub closed spec fn board_view(&self) -> Board {
        self.board
    }

    /// The router.
    pub closed spec fn flooder_view(&self) -> FloodFiller {
        self.flooder
    }

    /// The pace.
    pub closed spec fn method_view(&self) -> AdvanceView {
        self.advance_method@
    }

    /// The invariant of a run: its board is well formed, and its pace can be
    /// kept.
    pub closed spec fn wf(&self) -> bool {
        self.board.wf() && self.advance_method@.steady()
    }

    /// Starts a run on a copy of the board that `mode` edits: committed
    /// cables only, fresh tips at the sources, no cell visited.
    pub fn new(mode: &ModePlaying, advance_method: AdvanceMethod) -> (r: ModeSimulating)
        requires
            mode.wf(),
            advance_method@.steady(),
        ensures
            r.wf(),
            r.method_view() == advance_method@,
            r.board_view().left.ports@ == mode.board_view().left.ports@,
            r.board_view().left.slider@ == mode.board_view().left.slider@,
            r.board_view().right.ports@ == mode.board_view().right.ports@,
            r.board_view().right.slider@ == mode.board_view().right.slider@,
            r.board_view().width == mode.board_view().width,
            r.board_view().cables_view() == mode@.committed,
            r.flooder_view().cycles == 0,
            r.flooder_view().visits() =~= Map::empty(),
            r.flooder_view().tips@ == FloodFiller::spawn_spec(&r.board_view()),
    {
        let board = mode.board().clone();
        let flooder = FloodFiller::new(&board);
        ModeSimulating { board, flooder, advance_method }
    }

    /// Checks the invariant of the run.
    pub fn is_well_formed(&self) -> (r: bool)
        ensures
            r == self.wf(),
    {
        self.board.is_well_formed() && match self.advance_method {
            AdvanceMethod::ByFrames { interval, .. } => interval > 0,
            _ => true,
        }
    }

    /// The board that the run is on.
    pub fn board(&self) -> (r: &Board)
        ensures
            *r == self.board_view(),
    {
        &self.board
    }

    /// The router.
    pub fn flooder(&self) -> (r: &FloodFiller)
        ensures
            *r == self.flooder_view(),
    {
        &self.flooder
    }

    /// The pace.
    pub fn advance_method(&self) -> (r: &AdvanceMethod)
        ensures
            r@ == self.method_view(),
    {
        &self.advance_method
    }

    /// Updates the pace for one tick, and returns whether the router is to
    /// take a step in it.
    pub fn handle_advance(&mut self, input: &TickInput) -> (r: bool)
        requires
            old(self).wf(),
            old(self).method_view().started_by(input.frames_ran),
        ensures
            final(self).wf(),
            (final(self).method_view(), r) == old(self).method_view().advanced(
                input.clicked_spec(Control::StepOnce),
                input.clicked_spec(Control::Start),
                input.frames_ran,
            ),
            final(self).board_view() == old(self).board_view(),
            final(self).flooder_view() == old(self).flooder_view(),
    {
        if self.advance_method.is_special() {
            return false;
        }
        if input.clicked_down(Control::StepOnce) {
            self.advance_method = AdvanceMethod::OnDemand;
            return true;
        }
        let start = input.clicked_down(Control::Start);
        match self.advance_method {
            AdvanceMethod::ByFrames { start_frame, interval } => {
                if start {
                    // Pause.
                    self.advance_method = AdvanceMethod::OnDemand;
                    false
                } else {
                    // Is this a frame to step in?
                    let dframe = input.frames_ran - start_frame;
                    dframe % interval == 0
                }
            },
            _ => {
                if start {
                    // Back to automatic play.
                    self.advance_method = AdvanceMethod::ByFrames {
                        start_frame: input.frames_ran,
                        interval: STEP_TIME,
                    };
                    true
                } else {
                    // Just waiting.
                    false
                }
            },
        }
    }

    /// Lets the router take a step, unless the run is at rest. Errors put the
    /// run to rest; so does a win, whose metrics are returned. `previous`
    /// holds the metrics recorded for the level before this run, if any.
    pub fn step(&mut self, previous: Option<Metrics>) -> (won: Option<Metrics>)
        requires
            old(self).wf(),
            old(self).flooder_view().cycles < u64::MAX,
        ensures
            final(self).wf(),
            final(self).board_view() == old(self).board_view(),
            old(self).method_view().special() ==> won is None && final(self).method_view() == old(self).method_view() && final(self).flooder_view() == old(self).flooder_view(),
            !old(self).method_view().special() ==> {
                let before = old(self).flooder_view();
                let after = final(self).flooder_view();
                let errors = errors_among(
                    old(self).board_view(),
                    before.visits(),
                    before.tips@,
                    before.tips@.len() as int,
                );
                &&& after.cycles == before.cycles + 1
                &&& after.tips@ == slots_after(
                    old(self).board_view(),
                    before.visits(),
                    before.tips@,
                )
                &&& after.visits() == marks_among(
                    before.visits(),
                    before.tips@,
                    before.tips@.len() as int,
                )
                &&& final(self).method_view() == after_step(
                    old(self).method_view(),
                    errors,
                    after.tips@,
                    after.cycles,
                    crossover_cells(old(self).board_view().cables_view()).len() as u64,
                    previous,
                )
                &&& won == match final(self).method_view() {
                    AdvanceView::WinScreen { metrics } => Some(metrics),
                    _ => None,
                }
            },
    {
        if self.advance_method.is_special() {
            return None;
        }
        let errors = self.flooder.step(&self.board);
        if errors.len() > 0 {
            self.advance_method = AdvanceMethod::Errors(errors);
            None
        } else if self.flooder.did_win() {
            let crossovers = count_crossovers(&self.board.cables);
            let metrics = Metrics::record_win(previous, self.flooder.cycles, crossovers);
            self.advance_method = AdvanceMethod::WinScreen { metrics };
            Some(metrics)
        } else {
            None
        }
    }

    /// Handles one tick of the simulation: escape leaves it; otherwise the
    /// pace is updated and the router takes a step if it is time for one.
    pub fn update(&mut self, input: &TickInput, previous: Option<Metrics>) -> (action:
        SimulatingAction)
        requires
            old(self).wf(),
            old(self).method_view().started_by(input.frames_ran),
            old(self).flooder_view().cycles < u64::MAX,
        ensures
            final(self).wf(),
            final(self).board_view() == old(self).board_view(),
            input.clicked_spec(Control::Escape) ==> action == SimulatingAction::Leave && *final(self) == *old(self),
            !input.clicked_spec(Control::Escape) ==> {
                let paced = old(self).method_view().advanced(
                    input.clicked_spec(Control::StepOnce),
                    input.clicked_spec(Control::Start),
                    input.frames_ran,
                );
                &&& !paced.1 ==> action == SimulatingAction::Stay && final(self).method_view()
                    == paced.0 && final(self).flooder_view() == old(self).flooder_view()
                &&& paced.1 ==> {
                    let before = old(self).flooder_view();
                    let after = final(self).flooder_view();
                    &&& after.cycles == before.cycles + 1
                    &&& after.tips@ == slots_after(
                        old(self).board_view(),
                        before.visits(),
                        before.tips@,
                    )
                    &&& after.visits() == marks_among(
                        before.visits(),
                        before.tips@,
                        before.tips@.len() as int,
                    )
                    &&& final(self).method_view() == after_step(
                        paced.0,
                        errors_among(
                            old(self).board_view(),
                            before.visits(),
                            before.tips@,
                            before.tips@.len() as int,
                        ),
                        after.tips@,
                        after.cycles,
                        crossover_cells(old(self).board_view().cables_view()).len() as u64,
                        previous,
                    )
                    &&& action == match final(self).method_view() {
                        AdvanceView::WinScreen { metrics } => SimulatingAction::Won(metrics),
                        _ => SimulatingAction::Stay,
                    }
                }
            },
    {
        if input.clicked_down(Control::Escape) {
            return SimulatingAction::Leave;
        }
        if self.handle_advance(input) {
            match self.step(previous) {
                Some(metrics) => SimulatingAction::Won(metrics),
                None => SimulatingAction::Stay,
            }
        } else {
            SimulatingAction::Stay
        }
    }
}

} // verus!

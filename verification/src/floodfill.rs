//! The router: resources flow from the sources along the cables, one cell per
//! step.
//!
//! Each source spawns a tip. In a step every live tip marks the cell it stands
//! in, together with the axis it moves along, and then follows the cable
//! there. The tips of one step do not see each other's marks: a tip is held
//! up as backtracking only by a mark of an earlier step. A tip that reports
//! an error stays live; since it then stands where it has left a mark, it is
//! reported as backtracking in the steps that follow. A caller is expected to
//! stop stepping once a step has reported an error.

use crate::board::Board;
use crate::grid::Coord;
use crate::grid::Direction;
use crate::layout::cable_at;
use crate::transport::Port;
use crate::transport::Resource;
use crate::transport::TransferError;
use ahash::AHashMap;
use vstd::prelude::*;

verus! {

/// A resource on its way: where it is, the direction it moved in to get
/// there, and what it is.
#[derive(Debug, Clone, Copy, PartialEq, Eq, Structural)]
pub struct Tip {
    /// Current position.
    pub pos: Coord,
    /// Direction this entered the current position in.
    pub facing: Direction,
    /// The resource this is carrying.
    pub resource: Resource,
}

/// What can go wrong with a tip in a step, and where.
#[derive(Debug, Clone, Copy, PartialEq, Eq, Structural)]
pub enum FloodFillError {
    /// The cable here cannot carry the resource.
    BadCableKind(Coord),
    /// The cable here has no opening towards the side the resource came from.
    NoEntrance(Coord),
    /// The resource left the cables where no sink is.
    SpilledIntoSpace(Coord),
    /// The resource came into a cell that was entered along the same axis in
    /// an earlier step.
    Backtrack(Coord),
    /// The sink here wants the given resource, not the one that arrived.
    BadOutput(Coord, Resource),
}

/// The marks that the tips leave: for a cell and an axis (`true` for the
/// east-west axis), the resource that last passed there. The key is
/// `(x, y, horizontal)`.
pub type VisitedMap = AHashMap<(isize, isize, bool), Resource>;

/// What a `VisitedMap` holds: the resource recorded for each cell and axis
/// that has a mark. The mark of the key `(x, y, horizontal)` is
/// `(Coord { x, y }, horizontal)`.
pub uninterp spec fn visits_held(map: VisitedMap) -> Map<(Coord, bool), Resource>;

/// This lets a flood fill run over several frames.
#[derive(Debug)]
pub struct FloodFiller {
    /// One slot per source. A slot becomes `None` when its tip is satisfied at
    /// a sink; the other slots keep their places.
    pub tips: Vec<Option<Tip>>,
    /// The cells visited so far, by axis.
    pub visited: VisitedMap,
    /// The number of steps taken.
    pub cycles: u64,
}

/// What a step makes of one tip: its slot afterwards, and the error it
/// reports, if any.
#[derive(Debug, Clone, Copy, PartialEq, Eq, Structural)]
pub struct TipStep {
    pub slot: Option<Tip>,
    pub error: Option<FloodFillError>,
}

impl Tip {
    /// The mark that this tip leaves where it stands.
    pub open spec fn mark(self) -> (Coord, bool) {
        (self.pos, self.facing.horizontal())
    }
}

/// The tips that the sources among the first `n` ports of a connector spawn,
/// from the top, in column `x` and moving in direction `facing`.
pub open spec fn spawned(ports: Seq<Option<Port>>, x: isize, facing: Direction, n: int) -> Seq<
    Option<Tip>,
>
    decreases n,
{
    if n <= 0 {
        Seq::empty()
    } else {
        let above = spawned(ports, x, facing, n - 1);
        match ports[n - 1] {
            Some(Port::Source(resource)) => above.push(
                Some(Tip { pos: Coord { x, y: (n - 1) as isize }, facing, resource }),
            ),
            _ => above,
        }
    }
}

/// Whether a sink that wants exactly `resource` stands at `at`.
pub open spec fn wanted_at(board: Board, at: Coord, resource: Resource) -> bool {
    board.port_at(at) matches Some((Port::Sink(wanted), _)) && wanted == resource
}

/// What becomes of a tip that stands where no cable is: a sink for its
/// resource consumes it, a sink for another resource refuses it, and anywhere
/// else it is spilled.
pub open spec fn leave_cables(board: Board, tip: Tip) -> TipStep {
    match board.port_at(tip.pos) {
        Some((Port::Sink(wanted), _)) => if wanted == tip.resource {
            TipStep { slot: None, error: None }
        } else {
            TipStep { slot: Some(tip), error: Some(FloodFillError::BadOutput(tip.pos, wanted)) }
        },
        _ => TipStep { slot: Some(tip), error: Some(FloodFillError::SpilledIntoSpace(tip.pos)) },
    }
}

/// What becomes of a tip that has marked its cell: it passes through the
/// cable there into the next cell, and leaves the cables if that cell has
/// none. A cable that does not let it through holds it where it is.
pub open spec fn follow_cable(board: Board, tip: Tip) -> TipStep {
    match board.cables_view().get(tip.pos) {
        None => leave_cables(board, tip),
        Some(cable) => match cable.exit(tip.resource, tip.facing) {
            Err(TransferError::BadCableKind) => TipStep {
                slot: Some(tip),
                error: Some(FloodFillError::BadCableKind(tip.pos)),
            },
            Err(TransferError::NoEntrance) => TipStep {
                slot: Some(tip),
                error: Some(FloodFillError::NoEntrance(tip.pos)),
            },
            Ok(out) => {
                let moved = Tip { pos: tip.pos.stepped(out), facing: out, resource: tip.resource };
                if board.cables_view().contains_key(moved.pos) {
                    TipStep { slot: Some(moved), error: None }
                } else {
                    leave_cables(board, moved)
                }
            },
        },
    }
}

/// What one step makes of one tip, given the marks of the earlier steps.
pub open spec fn tip_step(board: Board, visits: Map<(Coord, bool), Resource>, tip: Tip) -> TipStep {
    if visits.contains_key(tip.mark()) {
        TipStep { slot: Some(tip), error: Some(FloodFillError::Backtrack(tip.pos)) }
    } else {
        follow_cable(board, tip)
    }
}

/// The slots after a step: each live tip has taken its own step.
pub open spec fn slots_after(
    board: Board,
    visits: Map<(Coord, bool), Resource>,
    tips: Seq<Option<Tip>>,
) -> Seq<Option<Tip>> {
    Seq::new(
        tips.len(),
        |i: int|
            match tips[i] {
                Some(tip) => tip_step(board, visits, tip).slot,
                None => None,
            },
    )
}

/// The errors that the first `n` slots report in a step, in the order of the
/// slots.
pub open spec fn errors_among(
    board: Board,
    visits: Map<(Coord, bool), Resource>,
    tips: Seq<Option<Tip>>,
    n: int,
) -> Seq<FloodFillError>
    decreases n,
{
    if n <= 0 {
        Seq::empty()
    } else {
        let before = errors_among(board, visits, tips, n - 1);
        match tips[n - 1] {
            Some(tip) => match tip_step(board, visits, tip).error {
                Some(error) => before.push(error),
                None => before,
            },
            None => before,
        }
    }
}

/// The marks after the live tips among the first `n` slots have left theirs,
/// in the order of the slots.
pub open spec fn marks_among(
    visits: Map<(Coord, bool), Resource>,
    tips: Seq<Option<Tip>>,
    n: int,
) -> Map<(Coord, bool), Resource>
    decreases n,
{
    if n <= 0 {
        visits
    } else {
        let before = marks_among(visits, tips, n - 1);
        match tips[n - 1] {
            Some(tip) => before.insert(tip.mark(), tip.resource),
            None => before,
        }
    }
}

/// Whether every slot is empty.
pub open spec fn all_consumed(tips: Seq<Option<Tip>>) -> bool {
    forall|i: int| 0 <= i < tips.len() ==> tips[i] is None
}

impl FloodFiller {
    /// The marks left so far.
    pub open spec fn visits(&self) -> Map<(Coord, bool), Resource> {
        visits_held(self.visited)
    }

    /// The tips at the start of a run: every source of the left connector
    /// spawns a tip in column 0 that moves east, every source of the right
    /// connector one in the last column that moves west. Those of the left
    /// connector come first.
    pub open spec fn spawn_spec(board: &Board) -> Seq<Option<Tip>> {
        spawned(board.left.ports@, 0, Direction::East, board.left.ports@.len() as int) + spawned(
            board.right.ports@,
            (board.width - 1) as isize,
            Direction::West,
            board.right.ports@.len() as int,
        )
    }

    /// Make a new FloodFiller operating on the given board.
    pub fn new(board: &Board) -> (r: FloodFiller)
        requires
            board.fits(),
        ensures
            r.tips@ == FloodFiller::spawn_spec(board),
            r.visits() =~= Map::empty(),
            r.cycles == 0,
    {
        let mut tips: Vec<Option<Tip>> = Vec::new();
        spawn_tips(&mut tips, &board.left.ports, 0, Direction::East);
        let last_column = board.width as isize - 1;
        spawn_tips(&mut tips, &board.right.ports, last_column, Direction::West);
        FloodFiller { tips, visited: no_visits(), cycles: 0 }
    }

    /// Do one flood-fill step.
    ///
    /// Returns the problems that came up, in the order of the slots. If there
    /// are none, the step was clean.
    pub fn step(&mut self, board: &Board) -> (errors: Vec<FloodFillError>)
        requires
            board.wf(),
            old(self).cycles < u64::MAX,
        ensures
            final(self).cycles == old(self).cycles + 1,
            final(self).tips@ == slots_after(*board, old(self).visits(), old(self).tips@),
            final(self).visits() == marks_among(
                old(self).visits(),
                old(self).tips@,
                old(self).tips@.len() as int,
            ),
            errors@ == errors_among(
                *board,
                old(self).visits(),
                old(self).tips@,
                old(self).tips@.len() as int,
            ),
    {
        self.cycles = self.cycles + 1;
        let ghost tips_before = self.tips@;
        let ghost visits_before = self.visits();
        let ghost cycles_now = self.cycles;
        let mut errors: Vec<FloodFillError> = Vec::new();
        let mut slots: Vec<Option<Tip>> = Vec::new();
        let mut i: usize = 0;
        while i < self.tips.len()
            invariant
                board.wf(),
                i <= self.tips.len(),
                self.cycles == cycles_now,
                self.tips@ == tips_before,
                self.visits() == visits_before,
                slots@ == slots_after(*board, visits_before, tips_before).take(i as int),
                errors@ == errors_among(*board, visits_before, tips_before, i as int),
            decreases self.tips.len() - i,
        {
            let ghost taken = slots_after(*board, visits_before, tips_before);
            match self.tips[i] {
                Some(tip) => {
                    let outcome = step_tip(board, &self.visited, tip);
                    slots.push(outcome.slot);
                    if let Some(error) = outcome.error {
                        errors.push(error);
                    }
                },
                None => {
                    slots.push(None);
                },
            }
            assert(taken.take(i + 1) =~= taken.take(i as int).push(taken[i as int]));
            i = i + 1;
        }
        assert(slots@ =~= slots_after(*board, visits_before, tips_before));
        let mut j: usize = 0;
        while j < self.tips.len()
            invariant
                j <= self.tips.len(),
                self.cycles == cycles_now,
                self.tips@ == tips_before,
                self.visits() == marks_among(visits_before, tips_before, j as int),
            decreases self.tips.len() - j,
        {
            if let Some(tip) = self.tips[j] {
                record_visit(&mut self.visited, tip.pos, tip.facing.is_horizontal(), tip.resource);
            }
            j = j + 1;
        }
        self.tips = slots;
        errors
    }

    /// Did we win? That is: has every tip been consumed at a sink?
    pub fn did_win(&self) -> (r: bool)
        ensures
            r == all_consumed(self.tips@),
    {
        let mut i: usize = 0;
        while i < self.tips.len()
            invariant
                i <= self.tips.len(),
                forall|k: int| 0 <= k < i ==> self.tips@[k] is None,
            decreases self.tips.len() - i,
        {
            if self.tips[i].is_some() {
                return false;
            }
            i = i + 1;
        }
        true
    }
}

/// A step keeps every slot in its place, and a slot that is empty stays
/// empty: a tip, once consumed, does not come back.
pub proof fn lemma_slots_keep_their_places(
    board: Board,
    visits: Map<(Coord, bool), Resource>,
    tips: Seq<Option<Tip>>,
)
    ensures
        slots_after(board, visits, tips).len() == tips.len(),
        forall|i: int|
            0 <= i < tips.len() && tips[i] is None ==> (#[trigger] slots_after(
                board,
                visits,
                tips,
            )[i]) is None,
        all_consumed(tips) ==> all_consumed(slots_after(board, visits, tips)),
{
}

/// A tip is consumed only at a sink that wants exactly its resource: a slot
/// that a step empties held a tip that, without an error, came to stand on
/// such a sink.
pub proof fn lemma_consumed_at_matching_sink(
    board: Board,
    visits: Map<(Coord, bool), Resource>,
    tip: Tip,
)
    requires
        tip_step(board, visits, tip).slot is None,
    ensures
        tip_step(board, visits, tip).error is None,
        !visits.contains_key(tip.mark()),
        exists|at: Coord| wanted_at(board, at, tip.resource),
{
    let at = match board.cables_view().get(tip.pos) {
        None => tip.pos,
        Some(cable) => tip.pos.stepped(cable.exit(tip.resource, tip.facing)->Ok_0),
    };
    assert(wanted_at(board, at, tip.resource));
}

/// A tip that reports an error does not move on from where the error is: its
/// slot stays live.
pub proof fn lemma_errors_keep_the_tip(
    board: Board,
    visits: Map<(Coord, bool), Resource>,
    tip: Tip,
)
    requires
        tip_step(board, visits, tip).error is Some,
    ensures
        tip_step(board, visits, tip).slot is Some,
        visits.contains_key(tip.mark()) ==> tip_step(board, visits, tip) == (TipStep {
            slot: Some(tip),
            error: Some(FloodFillError::Backtrack(tip.pos)),
        }),
{
}

/// Appends the tips that the sources of one connector spawn.
fn spawn_tips(tips: &mut Vec<Option<Tip>>, ports: &Vec<Option<Port>>, x: isize, facing: Direction)
    requires
        ports@.len() <= isize::MAX,
    ensures
        final(tips)@ == old(tips)@ + spawned(ports@, x, facing, ports@.len() as int),
{
    let ghost before = tips@;
    let mut y: usize = 0;
    assert(before + spawned(ports@, x, facing, 0) =~= before);
    while y < ports.len()
        invariant
            y <= ports.len(),
            ports@.len() <= isize::MAX,
            tips@ == before + spawned(ports@, x, facing, y as int),
        decreases ports.len() - y,
    {
        let ghost above = spawned(ports@, x, facing, y as int);
        if let Some(Port::Source(resource)) = ports[y] {
            tips.push(Some(Tip { pos: Coord::new(x, y as isize), facing, resource }));
            assert(before + above.push(tips@.last()) =~= (before + above).push(tips@.last()));
        }
        y = y + 1;
    }
}

/// What becomes of a tip that stands where no cable is.
fn settle_tip(board: &Board, tip: Tip) -> (r: TipStep)
    ensures
        r == leave_cables(*board, tip),
{
    match board.get_port(tip.pos) {
        Some((Port::Sink(wanted), _)) => {
            if *wanted == tip.resource {
                TipStep { slot: None, error: None }
            } else {
                TipStep {
                    slot: Some(tip),
                    error: Some(FloodFillError::BadOutput(tip.pos, *wanted)),
                }
            }
        },
        _ => TipStep { slot: Some(tip), error: Some(FloodFillError::SpilledIntoSpace(tip.pos)) },
    }
}

/// What one step makes of one tip.
fn step_tip(board: &Board, visited: &VisitedMap, tip: Tip) -> (r: TipStep)
    requires
        board.wf(),
    ensures
        r == tip_step(*board, visits_held(*visited), tip),
{
    if visit_recorded(visited, tip.pos, tip.facing.is_horizontal()).is_some() {
        return TipStep { slot: Some(tip), error: Some(FloodFillError::Backtrack(tip.pos)) };
    }
    match cable_at(&board.cables, tip.pos) {
        None => settle_tip(board, tip),
        Some(cable) => {
            match cable.exit_dir(&tip.resource, tip.facing) {
                Err(TransferError::BadCableKind) => TipStep {
                    slot: Some(tip),
                    error: Some(FloodFillError::BadCableKind(tip.pos)),
                },
                Err(TransferError::NoEntrance) => TipStep {
                    slot: Some(tip),
                    error: Some(FloodFillError::NoEntrance(tip.pos)),
                },
                Ok(out_dir) => {
                    assert(board.in_cable_area(tip.pos));
                    let moved = Tip {
                        pos: tip.pos.step(out_dir),
                        facing: out_dir,
                        resource: tip.resource,
                    };
                    if cable_at(&board.cables, moved.pos).is_some() {
                        TipStep { slot: Some(moved), error: None }
                    } else {
                        settle_tip(board, moved)
                    }
                },
            }
        },
    }
}

/// Makes an empty map with `ahash::AHashMap::new`.
#[verifier::external_body]
fn no_visits() -> (r: VisitedMap)
    ensures
        visits_held(r) =~= Map::empty(),
{
    AHashMap::new()
}

/// Looks a mark up with `ahash::AHashMap::get`, which hands on the answer of
/// `std::collections::HashMap::get`: the value stored under the key, if any.
#[verifier::external_body]
fn visit_recorded(map: &VisitedMap, pos: Coord, horizontal: bool) -> (r: Option<Resource>)
    ensures
        r == visits_held(*map).get((pos, horizontal)),
{
    map.get(&(pos.x, pos.y, horizontal)).copied()
}

/// Leaves a mark with `ahash::AHashMap::insert`, which hands on to
/// `std::collections::HashMap::insert`: the value is stored under the key,
/// replacing the one that was there, and the replaced value is returned.
#[verifier::external_body]
fn record_visit(map: &mut VisitedMap, pos: Coord, horizontal: bool, resource: Resource) -> (r:
    Option<Resource>)
    ensures
        visits_held(*final(map)) == visits_held(*old(map)).insert((pos, horizontal), resource),
        r == visits_held(*old(map)).get((pos, horizontal)),
{
    map.insert((pos.x, pos.y, horizontal), resource)
}

} // verus!

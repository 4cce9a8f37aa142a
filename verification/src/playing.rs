//! Editing: laying cables by dragging the cursor from cell to cell.
//!
//! While nothing is selected the cursor follows the pointer. A select click
//! on a cable or a port starts a selection: a provisional copy of the
//! committed layout, and the history of the drag. Each tick in which the
//! pointer has moved by one cell along one axis either takes back the last
//! step of the drag, or extends the drag into the next cell, or is refused
//! and changes nothing. A second select click, or a drag that reaches a port,
//! commits the provisional layout to the board.
//!
//! Whether a cell is fully occupied is asked in two ways. To tell whether a
//! cable can be picked up, ports count as free neighbours and a side without
//! an opening counts as occupied. To tell whether a cell can be edited at
//! all, ports count as neighbours and a side without an opening counts as
//! free, since a bend could still be made towards it.

use crate::board::Board;
use crate::controls::Control;
use crate::controls::TickInput;
use crate::grid::Coord;
use crate::grid::Direction;
use crate::layout::cable_at;
use crate::layout::cables_held;
use crate::layout::copy_layout;
use crate::layout::put_cable;
use crate::layout::take_cable;
use crate::layout::CableMap;
use crate::transport::Cable;
use crate::transport::CableKind;
use crate::transport::Port;
use vstd::pervasive::unreached;
use vstd::prelude::*;

verus! {

/// Info about dragging cables around.
#[derive(Debug)]
pub struct Selection {
    /// The cells that the drag has left, each with the direction it was left
    /// in, oldest first.
    pub prev_info: Vec<(Coord, Direction)>,
    /// The provisional layout. It replaces the board's when the selection is
    /// committed.
    pub cables: CableMap,
}

/// The editing mode: a board, the cursor, and the selection if one is under
/// way.
#[derive(Debug)]
pub struct ModePlaying {
    board: Board,
    /// Where the cursor is hovering.
    cursor: Coord,
    selection: Option<Selection>,
}

/// A selection as a mathematical value.
pub struct SelectionView {
    pub history: Seq<(Coord, Direction)>,
    pub cables: Map<Coord, Cable>,
}

/// What editing changes: the committed layout, the cursor and the selection.
pub struct EditState {
    pub committed: Map<Coord, Cable>,
    pub cursor: Coord,
    pub selection: Option<SelectionView>,
}

/// What a tick of editing did.
#[derive(Debug, Clone, Copy, PartialEq, Eq, Structural)]
pub enum EditEvent {
    /// Nothing is selected, and nothing was.
    Idle,
    /// A selection was started at the cursor.
    Started,
    /// The provisional layout was committed to the board and the selection
    /// ended.
    Committed,
    /// The cursor stood on neither a cable nor a port; the selection was
    /// dropped and the board left as it was.
    Discarded,
    /// The pointer did not move by one cell along one axis; nothing changed.
    Held,
    /// The drag took back its last step.
    Backtracked,
    /// The drag went on into the next cell.
    Extended,
    /// The move was not allowed; nothing changed.
    Blocked,
}

/// How a move relates to the drag so far.
#[derive(Debug, Clone, Copy, PartialEq, Eq, Structural)]
pub enum Retreat {
    /// The move goes on from the current cell.
    KeepAdding,
    /// The move takes back the current cell.
    DontAdd,
    /// The move goes back to the port that the drag came from: the selection
    /// is to be committed.
    MergeSelection,
}

/// What became of the cell that a drag moves into.
#[derive(Debug, Clone, Copy, PartialEq, Eq, Structural)]
pub enum Placement {
    /// A cable was laid there, or the straight cable there became a
    /// crossover.
    Laid,
    /// A port is there: the drag ends.
    ReachedPort,
    /// The cable there cannot be crossed.
    Refused,
}

impl View for Selection {
    type V = SelectionView;

    open spec fn view(&self) -> SelectionView {
        SelectionView { history: self.prev_info@, cables: cables_held(self.cables) }
    }
}

/// Whether what stands at `target` answers a cable that comes towards it:
/// a cable there that opens to the side `facing`, or, where ports count, a
/// port there that faces in direction `facing`.
pub open spec fn answers(
    board: Board,
    cables: Map<Coord, Cable>,
    target: Coord,
    facing: Direction,
    count_ports: bool,
) -> bool {
    match cables.get(target) {
        Some(neighbor) => neighbor.output(facing) is Some,
        None => count_ports && board.port_at(target) is Some && board.port_at(target)->Some_0.1
            == facing,
    }
}

/// Whether the side `dir` of the cable at `pos` is free: it opens there and
/// nothing answers it, or it does not open there and `allow_bend` says that
/// such a side counts as free.
pub open spec fn side_free(
    board: Board,
    cables: Map<Coord, Cable>,
    pos: Coord,
    count_ports: bool,
    allow_bend: bool,
    dir: Direction,
) -> bool {
    if cables[pos].output(dir) is Some {
        !answers(board, cables, pos.stepped(dir), dir.flipped(), count_ports)
    } else {
        allow_bend
    }
}

/// Whether the cable at `pos` has all of its sides used: `None` where there
/// is no cable, else whether none of the four sides is free.
pub open spec fn fully_occupied(
    board: Board,
    cables: Map<Coord, Cable>,
    pos: Coord,
    count_ports: bool,
    allow_bend: bool,
) -> Option<bool> {
    if cables.contains_key(pos) {
        Some(
            !side_free(board, cables, pos, count_ports, allow_bend, Direction::North) && !side_free(
                board,
                cables,
                pos,
                count_ports,
                allow_bend,
                Direction::East,
            ) && !side_free(board, cables, pos, count_ports, allow_bend, Direction::South)
                && !side_free(board, cables, pos, count_ports, allow_bend, Direction::West),
        )
    } else {
        None
    }
}

/// Whether one of the first `n` sides of the cable at `pos` is free, counting
/// north, east, south, west.
pub open spec fn free_among(
    board: Board,
    cables: Map<Coord, Cable>,
    pos: Coord,
    count_ports: bool,
    allow_bend: bool,
    n: int,
) -> bool
    decreases n,
{
    if n <= 0 || n > 4 {
        false
    } else {
        free_among(board, cables, pos, count_ports, allow_bend, n - 1) || side_free(
            board,
            cables,
            pos,
            count_ports,
            allow_bend,
            Direction::all_spec()[n - 1],
        )
    }
}

/// Whether the cable `current` at the cursor is joined to what stands at
/// `next`, one step in direction `dir` from it: a cable, where both open
/// towards each other, or a port that faces the cursor.
pub open spec fn joined(
    board: Board,
    cables: Map<Coord, Cable>,
    current: Cable,
    next: Coord,
    dir: Direction,
) -> bool {
    answers(board, cables, next, dir.flipped(), true) && (cables.contains_key(next)
        ==> current.output(dir) is Some)
}

/// Whether the side `look` of the cable `current` at `cursor` can serve as
/// the end that stays in place when the cable is reshaped for a move in
/// direction `dir`: it is another side than `dir`, the cable opens there, and
/// the cable or port next to it there answers towards the side opposite to
/// `dir`.
pub open spec fn steady(
    board: Board,
    cables: Map<Coord, Cable>,
    cursor: Coord,
    current: Cable,
    dir: Direction,
    look: Direction,
) -> bool {
    look != dir && current.output(look) is Some && answers(
        board,
        cables,
        cursor.stepped(look),
        dir.flipped(),
        true,
    )
}

/// The first steady side, looking north, east, south, west.
pub open spec fn stable_side(
    board: Board,
    cables: Map<Coord, Cable>,
    cursor: Coord,
    current: Cable,
    dir: Direction,
) -> Option<Direction> {
    if steady(board, cables, cursor, current, dir, Direction::North) {
        Some(Direction::North)
    } else if steady(board, cables, cursor, current, dir, Direction::East) {
        Some(Direction::East)
    } else if steady(board, cables, cursor, current, dir, Direction::South) {
        Some(Direction::South)
    } else if steady(board, cables, cursor, current, dir, Direction::West) {
        Some(Direction::West)
    } else {
        None
    }
}

/// How a move from `cursor` to `next` in direction `dir` relates to the drag
/// so far.
///
/// From a cell without a cable every move goes on. With a history, a move
/// back to the cell that the drag came from ends the drag if that cell is a
/// port, and else takes the current cell back. Without a history, a move
/// along a joint of the cable takes the cable back if it still has a free end
/// (ports counting as free): this is how a cable is picked up.
pub open spec fn retreat(
    board: Board,
    selection: SelectionView,
    cursor: Coord,
    next: Coord,
    dir: Direction,
) -> Retreat {
    match selection.cables.get(cursor) {
        None => Retreat::KeepAdding,
        Some(current) => if selection.history.len() > 0 {
            if next == selection.history.last().0 {
                if board.port_at(next) is Some {
                    Retreat::MergeSelection
                } else {
                    Retreat::DontAdd
                }
            } else {
                Retreat::KeepAdding
            }
        } else if joined(board, selection.cables, current, next, dir) && fully_occupied(
            board,
            selection.cables,
            cursor,
            false,
            false,
        ) != Some(true) {
            Retreat::DontAdd
        } else {
            Retreat::KeepAdding
        },
    }
}

/// The layout after the cable `current` at `cursor` has been taken back by a
/// move in direction `dir`: a crossover keeps its cable on the other axis,
/// any other cable goes.
pub open spec fn taken_back(
    cables: Map<Coord, Cable>,
    cursor: Coord,
    current: Cable,
    dir: Direction,
) -> Map<Coord, Cable> {
    match current {
        Cable::Crossover { horiz_kind, vert_kind } => cables.insert(
            cursor,
            Cable::Straight {
                horizontal: !dir.horizontal(),
                kind: if dir.horizontal() {
                    vert_kind
                } else {
                    horiz_kind
                },
            },
        ),
        _ => cables.remove(cursor),
    }
}

/// Whether the drag may leave the cursor's cell in direction `dir`.
///
/// A cell without a cable, so a port, is left only into the board. A cable
/// that the drag started on may be left in any direction. A cable that the
/// drag came into is left, if it is a crossover, only straight on in the
/// direction it was entered in, and else in any direction but back the way
/// the drag came.
pub open spec fn may_leave(
    current: Option<Cable>,
    history: Seq<(Coord, Direction)>,
    cursor: Coord,
    dir: Direction,
) -> bool {
    match current {
        None => if cursor.x == -1 {
            dir == Direction::East
        } else {
            dir == Direction::West
        },
        Some(cable) => if history.len() == 0 {
            true
        } else if cable is Crossover {
            history.last().1 == dir
        } else {
            history.last().1.flipped() != dir
        },
    }
}

/// The kind of cable that a drag lays when it leaves in direction `dir` a
/// cell that holds `current`, or, where the cell holds no cable, the port
/// `port`.
pub open spec fn continued_kind(current: Option<Cable>, port: Option<Port>, dir: Direction)
    -> CableKind {
    match current {
        Some(cable) => cable.kind_along(dir),
        None => port->Some_0.resource().cable_kind(),
    }
}

/// The cable that the cursor's cell holds after the drag has left it in
/// direction `dir`, or `None` where the cell keeps what it has.
///
/// A crossover stays. With a history, any other cable is replaced by the one
/// that joins the side the drag came in by to the side it leaves by. Without
/// a history it is replaced by the one that joins its first steady side to
/// the side the drag leaves by, if it has a steady side. A cell without a
/// cable gets none.
pub open spec fn reshaped(
    board: Board,
    selection: SelectionView,
    cursor: Coord,
    dir: Direction,
) -> Option<Cable> {
    match selection.cables.get(cursor) {
        None => None,
        Some(current) => if current is Crossover {
            Some(current)
        } else if selection.history.len() > 0 {
            Some(
                Cable::joining(current.kind_along(dir), dir, selection.history.last().1.flipped()),
            )
        } else {
            match stable_side(board, selection.cables, cursor, current, dir) {
                Some(side) => Some(Cable::joining(current.output(side)->Some_0, dir, side)),
                None => None,
            }
        },
    }
}

/// What becomes of the cell `next` when a drag moves into it in direction
/// `dir`: an empty cell and a straight cable across the move take the drag, a
/// port ends it, and every other cable refuses it.
pub open spec fn placement(
    board: Board,
    cables: Map<Coord, Cable>,
    next: Coord,
    dir: Direction,
) -> Placement {
    match cables.get(next) {
        None => if board.port_at(next) is None {
            Placement::Laid
        } else {
            Placement::ReachedPort
        },
        Some(Cable::Straight { horizontal, .. }) => if horizontal != dir.horizontal() {
            Placement::Laid
        } else {
            Placement::Refused
        },
        Some(_) => Placement::Refused,
    }
}

/// The layout after a drag has moved into `next` in direction `dir` with a
/// cable of kind `kind`: an empty cell gets a straight cable along the move,
/// a straight cable across the move becomes a crossover that keeps its kind
/// on its own axis, and everything else stays.
pub open spec fn placed(
    board: Board,
    cables: Map<Coord, Cable>,
    next: Coord,
    dir: Direction,
    kind: CableKind,
) -> Map<Coord, Cable> {
    match cables.get(next) {
        None => if board.port_at(next) is None {
            cables.insert(next, Cable::Straight { horizontal: dir.horizontal(), kind })
        } else {
            cables
        },
        Some(Cable::Straight { horizontal, kind: there }) => if horizontal != dir.horizontal() {
            cables.insert(
                next,
                if horizontal {
                    Cable::Crossover { horiz_kind: there, vert_kind: kind }
                } else {
                    Cable::Crossover { horiz_kind: kind, vert_kind: there }
                },
            )
        } else {
            cables
        },
        Some(_) => cables,
    }
}

/// Whether a drag may go on from `cursor` to `next` in direction `dir`: the
/// direction is one the cell may be left in, the cell is not fully occupied
/// (ports counting as neighbours, closed sides as free), and `next` is a cell
/// of the cable area or a port.
pub open spec fn may_extend(
    board: Board,
    selection: SelectionView,
    cursor: Coord,
    next: Coord,
    dir: Direction,
) -> bool {
    &&& may_leave(selection.cables.get(cursor), selection.history, cursor, dir)
    &&& fully_occupied(board, selection.cables, cursor, true, true) != Some(true)
    &&& (board.in_cable_area(next) || board.port_at(next) is Some)
}

/// The selection after a drag has gone on from `cursor` to `next`.
pub open spec fn extended(
    board: Board,
    selection: SelectionView,
    cursor: Coord,
    next: Coord,
    dir: Direction,
) -> SelectionView {
    let kind = continued_kind(
        selection.cables.get(cursor),
        match board.port_at(cursor) {
            Some((port, _)) => Some(port),
            None => None,
        },
        dir,
    );
    let laid = placed(board, selection.cables, next, dir, kind);
    SelectionView {
        history: selection.history.push((cursor, dir)),
        cables: match reshaped(board, selection, cursor, dir) {
            Some(cable) => laid.insert(cursor, cable),
            None => laid,
        },
    }
}

/// What a move of the pointer by one cell, from the cursor to `next` in
/// direction `dir`, makes of a selection.
pub open spec fn drag(
    board: Board,
    state: EditState,
    selection: SelectionView,
    next: Coord,
    dir: Direction,
) -> (EditState, EditEvent) {
    let cursor = state.cursor;
    let current = selection.cables.get(cursor);
    match retreat(board, selection, cursor, next, dir) {
        Retreat::MergeSelection => (
            EditState { committed: selection.cables, cursor, selection: None },
            EditEvent::Committed,
        ),
        Retreat::DontAdd => (
            EditState {
                committed: state.committed,
                cursor: next,
                selection: Some(
                    SelectionView {
                        history: if selection.history.len() > 0 {
                            selection.history.drop_last()
                        } else {
                            selection.history
                        },
                        cables: taken_back(selection.cables, cursor, current->Some_0, dir),
                    },
                ),
            },
            EditEvent::Backtracked,
        ),
        Retreat::KeepAdding => if current is None && board.port_at(cursor) is None {
            (
                EditState { committed: state.committed, cursor, selection: None },
                EditEvent::Discarded,
            )
        } else if !may_extend(board, selection, cursor, next, dir) || placement(
            board,
            selection.cables,
            next,
            dir,
        ) == Placement::Refused {
            (state, EditEvent::Blocked)
        } else if placement(board, selection.cables, next, dir) == Placement::ReachedPort {
            (
                EditState {
                    committed: extended(board, selection, cursor, next, dir).cables,
                    cursor: next,
                    selection: None,
                },
                EditEvent::Committed,
            )
        } else {
            (
                EditState {
                    committed: state.committed,
                    cursor: next,
                    selection: Some(extended(board, selection, cursor, next, dir)),
                },
                EditEvent::Extended,
            )
        },
    }
}

/// What one tick makes of the editing state, where `select` says whether the
/// select control went down and `pointer` is the cell that the pointer is
/// over.
pub open spec fn handle(board: Board, state: EditState, select: bool, pointer: Coord) -> (
    EditState,
    EditEvent,
) {
    match state.selection {
        None => if !board.in_board(pointer) {
            (state, EditEvent::Idle)
        } else if select && (state.committed.contains_key(pointer) || board.port_at(pointer)
            is Some) {
            (
                EditState {
                    committed: state.committed,
                    cursor: pointer,
                    selection: Some(
                        SelectionView { history: Seq::empty(), cables: state.committed },
                    ),
                },
                EditEvent::Started,
            )
        } else {
            (
                EditState { committed: state.committed, cursor: pointer, selection: None },
                EditEvent::Idle,
            )
        },
        Some(selection) => if select {
            (
                EditState { committed: selection.cables, cursor: state.cursor, selection: None },
                EditEvent::Committed,
            )
        } else {
            match state.cursor.step_towards(pointer) {
                Some(dir) => drag(board, state, selection, pointer, dir),
                None => (state, EditEvent::Held),
            }
        },
    }
}

/// Whether what stands at `target` answers a cable that comes towards it.
fn is_answered(
    board: &Board,
    cables: &CableMap,
    target: Coord,
    facing: Direction,
    count_ports: bool,
) -> (r: bool)
    ensures
        r == answers(*board, cables_held(*cables), target, facing, count_ports),
{
    match cable_at(cables, target) {
        Some(neighbor) => neighbor.cable_outputs().get(facing).is_some(),
        None => {
            if count_ports {
                match board.get_port(target) {
                    Some((_, port_dir)) => port_dir == facing,
                    None => false,
                }
            } else {
                false
            }
        },
    }
}

/// Whether the side `dir` of the cable `cable` at `pos` is free.
fn side_is_free(
    pos: Coord,
    cable: Cable,
    cables: &CableMap,
    port_board: &Board,
    count_ports: bool,
    allow_bend: bool,
    dir: Direction,
) -> (r: bool)
    requires
        port_board.fits(),
        port_board.holds(cables_held(*cables)),
        cables_held(*cables).get(pos) == Some(cable),
    ensures
        r == side_free(*port_board, cables_held(*cables), pos, count_ports, allow_bend, dir),
{
    assert(cables_held(*cables).contains_key(pos));
    assert(port_board.in_cable_area(pos));
    if cable.cable_outputs().get(dir).is_some() {
        !is_answered(port_board, cables, pos.step(dir), dir.flip(), count_ports)
    } else {
        allow_bend
    }
}

/// Does the cable at the given position have all of its exits used?
/// Returns `None` if there is no cable there.
///
/// `port_board` is used only for the ports. If `count_ports` is false, ports
/// count as open space. If `allow_bend` is true, a side that the cable does
/// not open to counts as free.
pub fn is_fully_occupied(
    pos: Coord,
    cables: &CableMap,
    port_board: &Board,
    count_ports: bool,
    allow_bend: bool,
) -> (r: Option<bool>)
    requires
        port_board.fits(),
        port_board.holds(cables_held(*cables)),
    ensures
        r == fully_occupied(*port_board, cables_held(*cables), pos, count_ports, allow_bend),
{
    match cable_at(cables, pos) {
        None => None,
        Some(cable) => {
            let sides = Direction::all();
            let mut any_free = false;
            let mut i: usize = 0;
            while i < 4
                invariant
                    i <= 4,
                    port_board.fits(),
                    port_board.holds(cables_held(*cables)),
                    cables_held(*cables).get(pos) == Some(cable),
                    sides@ == Direction::all_spec(),
                    any_free == free_among(
                        *port_board,
                        cables_held(*cables),
                        pos,
                        count_ports,
                        allow_bend,
                        i as int,
                    ),
                decreases 4 - i,
            {
                let free = side_is_free(
                    pos,
                    cable,
                    cables,
                    port_board,
                    count_ports,
                    allow_bend,
                    sides[i],
                );
                any_free = any_free || free;
                i = i + 1;
            }
            assert(free_among(*port_board, cables_held(*cables), pos, count_ports, allow_bend, 4)
                == !fully_occupied(
                *port_board,
                cables_held(*cables),
                pos,
                count_ports,
                allow_bend,
            )->Some_0) by {
                reveal_with_fuel(free_among, 5);
            }
            Some(!any_free)
        },
    }
}

/// Whether the cable `current` at the cursor is joined to what stands at
/// `next`.
fn joins(board: &Board, cables: &CableMap, current: Cable, next: Coord, dir: Direction) -> (r:
    bool)
    ensures
        r == joined(*board, cables_held(*cables), current, next, dir),
{
    if cable_at(cables, next).is_some() {
        current.cable_outputs().get(dir).is_some() && is_answered(
            board,
            cables,
            next,
            dir.flip(),
            true,
        )
    } else {
        is_answered(board, cables, next, dir.flip(), true)
    }
}

/// The kind of the opening of `current` on the side `look`, if that side is
/// steady for a move in direction `dir`.
fn steady_kind(
    board: &Board,
    cables: &CableMap,
    cursor: Coord,
    current: Cable,
    dir: Direction,
    look: Direction,
) -> (r: Option<CableKind>)
    requires
        board.fits(),
        board.in_cable_area(cursor),
    ensures
        r is Some == steady(*board, cables_held(*cables), cursor, current, dir, look),
        r is Some ==> r == current.output(look),
{
    if look == dir {
        return None;
    }
    match current.cable_outputs().get(look) {
        Some(kind) => {
            if is_answered(board, cables, cursor.step(look), dir.flip(), true) {
                Some(kind)
            } else {
                None
            }
        },
        None => None,
    }
}

/// The first steady side of `current`, looking north, east, south, west, and
/// the kind of its opening there.
fn find_stable_side(
    board: &Board,
    cables: &CableMap,
    cursor: Coord,
    current: Cable,
    dir: Direction,
) -> (r: Option<(Direction, CableKind)>)
    requires
        board.fits(),
        board.in_cable_area(cursor),
    ensures
        match r {
            Some((side, kind)) => stable_side(*board, cables_held(*cables), cursor, current, dir)
                == Some(side) && current.output(side) == Some(kind),
            None => stable_side(*board, cables_held(*cables), cursor, current, dir) is None,
        },
{
    let sides = Direction::all();
    let mut i: usize = 0;
    while i < 4
        invariant
            i <= 4,
            board.fits(),
            board.in_cable_area(cursor),
            sides@ == Direction::all_spec(),
            forall|k: int|
                0 <= k < i ==> !steady(
                    *board,
                    cables_held(*cables),
                    cursor,
                    current,
                    dir,
                    #[trigger] Direction::all_spec()[k],
                ),
        decreases 4 - i,
    {
        if let Some(kind) = steady_kind(board, cables, cursor, current, dir, sides[i]) {
            proof {
                lemma_first_steady(*board, cables_held(*cables), cursor, current, dir, i as int);
            }
            return Some((sides[i], kind));
        }
        i = i + 1;
    }
    proof {
        lemma_first_steady(*board, cables_held(*cables), cursor, current, dir, 4);
    }
    None
}

/// The stable side is the first of the four sides that is steady.
proof fn lemma_first_steady(
    board: Board,
    cables: Map<Coord, Cable>,
    cursor: Coord,
    current: Cable,
    dir: Direction,
    i: int,
)
    requires
        0 <= i <= 4,
        forall|k: int|
            0 <= k < i ==> !steady(
                board,
                cables,
                cursor,
                current,
                dir,
                #[trigger] Direction::all_spec()[k],
            ),
        i < 4 ==> steady(board, cables, cursor, current, dir, Direction::all_spec()[i]),
    ensures
        i < 4 ==> stable_side(board, cables, cursor, current, dir) == Some(
            Direction::all_spec()[i],
        ),
        i == 4 ==> stable_side(board, cables, cursor, current, dir) is None,
{
    let sides = Direction::all_spec();
    assert(sides[0] == Direction::North);
    assert(sides[1] == Direction::East);
    assert(sides[2] == Direction::South);
    assert(sides[3] == Direction::West);
}

/// How a move from `cursor` to `next` relates to the drag so far.
fn decide_retreat(
    board: &Board,
    selection: &Selection,
    cursor: Coord,
    next: Coord,
    dir: Direction,
) -> (r: Retreat)
    requires
        board.fits(),
        board.holds(selection@.cables),
    ensures
        r == retreat(*board, selection@, cursor, next, dir),
{
    match cable_at(&selection.cables, cursor) {
        None => Retreat::KeepAdding,
        Some(current) => {
            let steps = selection.prev_info.len();
            if steps > 0 {
                let last_pos = selection.prev_info[steps - 1].0;
                if next == last_pos {
                    if board.get_port(last_pos).is_some() {
                        Retreat::MergeSelection
                    } else {
                        Retreat::DontAdd
                    }
                } else {
                    Retreat::KeepAdding
                }
            } else {
                let current_target_connect = joins(board, &selection.cables, current, next, dir);
                // Ports count as free, so that a cable can be taken off a port.
                let occupied = is_fully_occupied(cursor, &selection.cables, board, false, false);
                if current_target_connect && occupied != Some(true) {
                    Retreat::DontAdd
                } else {
                    Retreat::KeepAdding
                }
            }
        },
    }
}

/// Takes the cable `current` at `cursor` back.
fn take_back(cables: &mut CableMap, cursor: Coord, current: Cable, dir: Direction)
    ensures
        cables_held(*final(cables)) == taken_back(cables_held(*old(cables)), cursor, current, dir),
{
    match current {
        Cable::Crossover { horiz_kind, vert_kind } => {
            // Leave the cable on the axis that the move does not run along.
            let horizontal = !dir.is_horizontal();
            let new_cable = Cable::Straight {
                horizontal,
                kind: if horizontal {
                    horiz_kind
                } else {
                    vert_kind
                },
            };
            put_cable(cables, cursor, new_cable);
        },
        _ => {
            take_cable(cables, cursor);
        },
    }
}

/// Whether the drag may leave the cursor's cell in direction `dir`.
fn can_leave(
    current: Option<Cable>,
    history: &Vec<(Coord, Direction)>,
    cursor: Coord,
    dir: Direction,
) -> (r: bool)
    ensures
        r == may_leave(current, history@, cursor, dir),
{
    let steps = history.len();
    match current {
        // Only outwards from a port.
        None => {
            if cursor.x == -1 {
                dir == Direction::East
            } else {
                dir == Direction::West
            }
        },
        Some(cable) => {
            if steps == 0 {
                // Anything goes when the drag is just starting out.
                true
            } else {
                let prev_dir = history[steps - 1].1;
                match cable {
                    // Only the direction the crossover was entered in.
                    Cable::Crossover { .. } => prev_dir == dir,
                    // Any direction but back.
                    _ => prev_dir.flip() != dir,
                }
            }
        },
    }
}

/// The kind of cable that a drag lays when it leaves the cursor's cell.
fn continue_kind(current: Option<Cable>, port: Option<Port>, dir: Direction) -> (r: CableKind)
    requires
        current is Some || port is Some,
    ensures
        r == continued_kind(current, port, dir),
{
    match current {
        Some(cable) => cable.kind_towards(dir),
        None => match port {
            Some(port) => port.get_resource().appropriate_cable(),
            None => unreached(),
        },
    }
}

/// The cable that the cursor's cell holds after the drag has left it, or
/// `None` where the cell keeps what it has.
fn reshape(board: &Board, selection: &Selection, cursor: Coord, dir: Direction) -> (r: Option<
    Cable,
>)
    requires
        board.fits(),
        board.holds(selection@.cables),
        may_leave(selection@.cables.get(cursor), selection@.history, cursor, dir),
    ensures
        r == reshaped(*board, selection@, cursor, dir),
        r is Some ==> selection@.cables.contains_key(cursor),
{
    match cable_at(&selection.cables, cursor) {
        None => None,
        Some(current) => {
            assert(selection@.cables.contains_key(cursor));
            assert(board.in_cable_area(cursor));
            let steps = selection.prev_info.len();
            match current {
                // A crossover stays a crossover.
                Cable::Crossover { .. } => Some(current),
                _ => {
                    if steps > 0 {
                        // The drag left the last cell in `prev_dir`, so it
                        // came into this one through the opposite side.
                        let prev_dir = selection.prev_info[steps - 1].1;
                        Some(Cable::from_dirs(current.kind_towards(dir), dir, prev_dir.flip()))
                    } else {
                        match find_stable_side(board, &selection.cables, cursor, current, dir) {
                            Some((side, kind)) => Some(Cable::from_dirs(kind, dir, side)),
                            None => None,
                        }
                    }
                },
            }
        },
    }
}

/// Lays the cable of a drag that moves into `next`.
fn place(board: &Board, cables: &mut CableMap, next: Coord, dir: Direction, kind: CableKind) -> (r:
    Placement)
    ensures
        r == placement(*board, cables_held(*old(cables)), next, dir),
        cables_held(*final(cables)) == placed(*board, cables_held(*old(cables)), next, dir, kind),
{
    match cable_at(cables, next) {
        None => {
            if board.get_port(next).is_none() {
                put_cable(
                    cables,
                    next,
                    Cable::Straight { horizontal: dir.is_horizontal(), kind },
                );
                Placement::Laid
            } else {
                Placement::ReachedPort
            }
        },
        Some(Cable::Straight { horizontal, kind: there }) => {
            // Only a cable that runs across the move can be crossed.
            if horizontal != dir.is_horizontal() {
                let crossover = if horizontal {
                    Cable::Crossover { horiz_kind: there, vert_kind: kind }
                } else {
                    Cable::Crossover { horiz_kind: kind, vert_kind: there }
                };
                put_cable(cables, next, crossover);
                Placement::Laid
            } else {
                Placement::Refused
            }
        },
        Some(_) => Placement::Refused,
    }
}

/// What a tick asks of whoever runs the editing mode.
#[derive(Debug, Clone, Copy, PartialEq, Eq, Structural)]
pub enum PlayingAction {
    /// Leave the editing mode.
    Leave,
    /// Run the simulation on the committed layout, stepping on demand.
    StepThrough,
    /// Run the simulation on the committed layout, stepping by itself from
    /// the given frame on.
    Run { start_frame: u64 },
    /// Stay; this is what the tick did to the selection.
    Edited(EditEvent),
}

impl View for ModePlaying {
    type V = EditState;

    closed spec fn view(&self) -> EditState {
        EditState {
            committed: self.board.cables_view(),
            cursor: self.cursor,
            selection: match self.selection {
                Some(selection) => Some(selection@),
                None => None,
            },
        }
    }
}

impl ModePlaying {
    /// The board that is edited.
    pub closed spec fn board_view(&self) -> Board {
        self.board
    }

    /// The invariant of the editing mode: the board is well formed, and the
    /// provisional layout lies in its cable area too.
    pub closed spec fn wf(&self) -> bool {
        &&& self.board.wf()
        &&& self.selection is Some ==> self.board.holds(self.selection->Some_0@.cables)
    }

    /// Starts editing `board`, with the cursor in the middle and nothing
    /// selected.
    pub fn new(board: Board) -> (r: ModePlaying)
        requires
            board.wf(),
        ensures
            r.wf(),
            r.board_view() == board,
            r@.committed == board.cables_view(),
            r@.cursor == (Coord { x: (board.width / 2) as isize, y: (board.height_spec() / 2) as isize }),
            r@.selection is None,
    {
        let cursor = Coord::new((board.width / 2) as isize, (board.height() / 2) as isize);
        ModePlaying { board, cursor, selection: None }
    }

    /// Checks the invariant of the editing mode.
    pub fn is_well_formed(&self) -> (r: bool)
        ensures
            r == self.wf(),
    {
        self.board.is_well_formed() && match &self.selection {
            Some(selection) => self.board.can_hold(&selection.cables),
            None => true,
        }
    }

    /// The board that is edited.
    pub fn board(&self) -> (r: &Board)
        ensures
            *r == self.board_view(),
            r.cables_view() == self@.committed,
            self.wf() ==> r.wf(),
    {
        &self.board
    }

    /// Where the cursor is.
    pub fn cursor(&self) -> (r: Coord)
        ensures
            r == self@.cursor,
    {
        self.cursor
    }

    /// The selection, if one is under way.
    pub fn selection(&self) -> (r: &Option<Selection>)
        ensures
            match *r {
                Some(selection) => self@.selection == Some(selection@),
                None => self@.selection is None,
            },
    {
        &self.selection
    }

    /// The layout to show: the provisional one while a selection is under
    /// way, else the committed one.
    pub fn displayed_cables(&self) -> (r: &CableMap)
        ensures
            cables_held(*r) == match self@.selection {
                Some(selection) => selection.cables,
                None => self@.committed,
            },
    {
        match &self.selection {
            Some(selection) => &selection.cables,
            None => &self.board.cables,
        }
    }

    /// Ends the selection, if there is one, and makes its layout the board's.
    fn commit(&mut self, selection: Selection)
        requires
            old(self).board.fits(),
            old(self).board.holds(selection@.cables),
            old(self).selection is None,
        ensures
            final(self).wf(),
            final(self)@ == (EditState {
                committed: selection@.cables,
                cursor: old(self).cursor,
                selection: None,
            }),
            final(self).cursor == old(self).cursor,
            final(self).board.left == old(self).board.left,
            final(self).board.right == old(self).board.right,
            final(self).board.width == old(self).board.width,
    {
        self.board.cables = selection.cables;
    }

    /// Handles a move of the pointer by one cell, from the cursor to `next`
    /// in direction `dir`, while a selection is under way.
    fn drag(&mut self, selection: Selection, next: Coord, dir: Direction) -> (event: EditEvent)
        requires
            old(self).board.wf(),
            old(self).board.holds(selection@.cables),
            old(self).selection is None,
        ensures
            final(self).wf(),
            (final(self)@, event) == drag(
                old(self).board,
                EditState {
                    committed: old(self).board.cables_view(),
                    cursor: old(self).cursor,
                    selection: Some(selection@),
                },
                selection@,
                next,
                dir,
            ),
            final(self).board.left == old(self).board.left,
            final(self).board.right == old(self).board.right,
            final(self).board.width == old(self).board.width,
    {
        let mut selection = selection;
        let cursor = self.cursor;
        let current = cable_at(&selection.cables, cursor);
        match decide_retreat(&self.board, &selection, cursor, next, dir) {
            Retreat::MergeSelection => {
                // Backtracked all the way to a port: done.
                self.commit(selection);
                EditEvent::Committed
            },
            Retreat::DontAdd => {
                take_back(&mut selection.cables, cursor, current.unwrap(), dir);
                selection.prev_info.pop();
                self.cursor = next;
                self.selection = Some(selection);
                EditEvent::Backtracked
            },
            Retreat::KeepAdding => {
                let port = match self.board.get_port(cursor) {
                    Some((port, _)) => Some(*port),
                    None => None,
                };
                if current.is_none() && port.is_none() {
                    // Neither a cable nor a port is selected.
                    return EditEvent::Discarded;
                }
                let ok_dir = can_leave(current, &selection.prev_info, cursor, dir);
                // Something that is entirely occupied cannot be edited.
                let occupied = is_fully_occupied(cursor, &selection.cables, &self.board, true, true);
                // The drag stays on the cable area and the ports.
                let in_bounds = self.board.is_in_cable_area(next) || self.board.get_port(
                    next,
                ).is_some();
                if !(ok_dir && occupied != Some(true) && in_bounds) {
                    self.selection = Some(selection);
                    return EditEvent::Blocked;
                }
                let kind = continue_kind(current, port, dir);
                // Worked out now, but laid only if the move goes through.
                let new_current = reshape(&self.board, &selection, cursor, dir);
                match place(&self.board, &mut selection.cables, next, dir, kind) {
                    Placement::Refused => {
                        self.selection = Some(selection);
                        EditEvent::Blocked
                    },
                    placement => {
                        if let Some(cable) = new_current {
                            put_cable(&mut selection.cables, cursor, cable);
                        }
                        selection.prev_info.push((cursor, dir));
                        self.cursor = next;
                        if placement == Placement::ReachedPort {
                            self.commit(selection);
                            EditEvent::Committed
                        } else {
                            self.selection = Some(selection);
                            EditEvent::Extended
                        }
                    },
                }
            },
        }
    }

    /// Handles the selection for one tick: starts one, drags it on, takes a
    /// step of it back, or commits it.
    pub fn handle_selection(&mut self, input: &TickInput) -> (event: EditEvent)
        requires
            old(self).wf(),
        ensures
            final(self).wf(),
            (final(self)@, event) == handle(
                old(self).board_view(),
                old(self)@,
                input.clicked_spec(Control::Select),
                input.cursor,
            ),
            final(self).board_view().left == old(self).board_view().left,
            final(self).board_view().right == old(self).board_view().right,
            final(self).board_view().width == old(self).board_view().width,
    {
        let select = input.clicked_down(Control::Select);
        let pointer = input.cursor;
        match self.selection.take() {
            None => {
                if !self.board.is_in_board(pointer) {
                    return EditEvent::Idle;
                }
                self.cursor = pointer;
                // Is there a cable or a port here?
                if select && (cable_at(&self.board.cables, pointer).is_some()
                    || self.board.get_port(pointer).is_some()) {
                    self.selection = Some(
                        Selection {
                            prev_info: Vec::new(),
                            cables: copy_layout(&self.board.cables),
                        },
                    );
                    EditEvent::Started
                } else {
                    EditEvent::Idle
                }
            },
            Some(selection) => {
                if select {
                    self.commit(selection);
                    EditEvent::Committed
                } else {
                    match self.cursor.direction_to(pointer) {
                        Some(dir) => self.drag(selection, pointer, dir),
                        None => {
                            // The pointer stood still or moved too fast.
                            self.selection = Some(selection);
                            EditEvent::Held
                        },
                    }
                }
            },
        }
    }

    /// Handles one tick of the editing mode: escape leaves it, a step or a
    /// start asks for the simulation, and anything else goes to the
    /// selection.
    pub fn update(&mut self, input: &TickInput) -> (action: PlayingAction)
        requires
            old(self).wf(),
        ensures
            final(self).wf(),
            input.clicked_spec(Control::Escape) ==> action == PlayingAction::Leave && *final(self)
                == *old(self),
            !input.clicked_spec(Control::Escape) && input.clicked_spec(Control::StepOnce)
                ==> action == PlayingAction::StepThrough && *final(self) == *old(self),
            !input.clicked_spec(Control::Escape) && !input.clicked_spec(Control::StepOnce)
                && input.clicked_spec(Control::Start) ==> action == (PlayingAction::Run {
                start_frame: input.frames_ran,
            }) && *final(self) == *old(self),
            !input.clicked_spec(Control::Escape) && !input.clicked_spec(Control::StepOnce)
                && !input.clicked_spec(Control::Start) ==> (final(self)@, action) == ({
                let (state, event) = handle(
                    old(self).board_view(),
                    old(self)@,
                    input.clicked_spec(Control::Select),
                    input.cursor,
                );
                (state, PlayingAction::Edited(event))
            }),
            final(self).board_view().left == old(self).board_view().left,
            final(self).board_view().right == old(self).board_view().right,
            final(self).board_view().width == old(self).board_view().width,
    {
        if input.clicked_down(Control::Escape) {
            PlayingAction::Leave
        } else if input.clicked_down(Control::StepOnce) {
            PlayingAction::StepThrough
        } else if input.clicked_down(Control::Start) {
            PlayingAction::Run { start_frame: input.frames_ran }
        } else {
            PlayingAction::Edited(self.handle_selection(input))
        }
    }
}

/// Whether a cell is fully occupied depends on the layout, on the ports and
/// the width of the board, on the cell and on the two flags, and on nothing
/// else: asked again of the same layout and the same ports, the answer is
/// the same.
pub proof fn lemma_fully_occupied_depends_on_ports_only(
    board: Board,
    again: Board,
    cables: Map<Coord, Cable>,
    pos: Coord,
    count_ports: bool,
    allow_bend: bool,
)
    requires
        again.left.ports@ == board.left.ports@,
        again.right.ports@ == board.right.ports@,
        again.width == board.width,
    ensures
        fully_occupied(again, cables, pos, count_ports, allow_bend) == fully_occupied(
            board,
            cables,
            pos,
            count_ports,
            allow_bend,
        ),
{
    assert forall|at: Coord| again.port_at(at) == board.port_at(at) by {}
}

/// Committing a selection and at once starting a new one gives a provisional
/// layout that is the committed one, with an empty history.
///
/// This holds of every tick that commits: a select click during a selection,
/// a drag that reaches a port, and a drag that goes back to the port it came
/// from.
pub proof fn lemma_commit_then_start(
    board: Board,
    state: EditState,
    select: bool,
    pointer: Coord,
    restart_at: Coord,
)
    requires
        handle(board, state, select, pointer).1 == EditEvent::Committed,
    ensures
        ({
            let committed = handle(board, state, select, pointer).0;
            let (restarted, event) = handle(board, committed, true, restart_at);
            &&& state.selection is Some
            &&& select ==> committed.committed == state.selection->Some_0.cables
            &&& committed.selection is None
            &&& restarted.committed == committed.committed
            &&& event == EditEvent::Started <==> board.in_board(restart_at) && (
            committed.committed.contains_key(restart_at) || board.port_at(restart_at) is Some)
            &&& event == EditEvent::Started ==> restarted.selection == Some(
                SelectionView { history: Seq::empty(), cables: committed.committed },
            )
            &&& event != EditEvent::Started ==> restarted.selection is None
        }),
{
}

/// The committed layout changes only when a selection is committed: until
/// then all edits go to the provisional layout.
pub proof fn lemma_only_commit_changes_board(
    board: Board,
    state: EditState,
    select: bool,
    pointer: Coord,
)
    requires
        handle(board, state, select, pointer).1 != EditEvent::Committed,
    ensures
        handle(board, state, select, pointer).0.committed == state.committed,
{
}

/// A move that is refused, and a pointer that did not move by one cell
/// along one axis, change nothing at all.
pub proof fn lemma_refused_moves_change_nothing(
    board: Board,
    state: EditState,
    select: bool,
    pointer: Coord,
)
    requires
        handle(board, state, select, pointer).1 == EditEvent::Blocked || handle(
            board,
            state,
            select,
            pointer,
        ).1 == EditEvent::Held,
    ensures
        handle(board, state, select, pointer).0 == state,
{
}

/// Editing keeps every cable in the cable area: if the committed and the
/// provisional layout lie in it before a tick, they do so after it.
pub proof fn lemma_editing_stays_in_cable_area(
    board: Board,
    state: EditState,
    select: bool,
    pointer: Coord,
)
    requires
        board.holds(state.committed),
        state.selection is Some ==> board.holds(state.selection->Some_0.cables),
    ensures
        ({
            let after = handle(board, state, select, pointer).0;
            &&& board.holds(after.committed)
            &&& after.selection is Some ==> board.holds(after.selection->Some_0.cables)
        }),
{
    let after = handle(board, state, select, pointer).0;
    if state.selection is Some && !select && state.cursor.step_towards(pointer) is Some {
        let selection = state.selection->Some_0;
        let dir = state.cursor.step_towards(pointer)->Some_0;
        let cursor = state.cursor;
        if selection.cables.contains_key(cursor) {
            let current = selection.cables[cursor];
            assert(board.holds(taken_back(selection.cables, cursor, current, dir)));
        }
        if may_extend(board, selection, cursor, pointer, dir) && placement(
            board,
            selection.cables,
            pointer,
            dir,
        ) != Placement::Refused {
            assert(board.holds(extended(board, selection, cursor, pointer, dir).cables));
        }
    }
}

/// A drag that moves with a cable of kind `kind` into a cell that holds a
/// straight cable crosses it if that cable runs across the move: the cell
/// then holds a crossover that carries the old kind on the old axis and
/// `kind` on the axis of the move. A straight cable along the move refuses
/// the drag, and the layout stays as it is.
pub proof fn lemma_crossing_keeps_both_kinds(
    board: Board,
    cables: Map<Coord, Cable>,
    next: Coord,
    dir: Direction,
    kind: CableKind,
    horizontal: bool,
    there: CableKind,
)
    requires
        cables.get(next) == Some(Cable::Straight { horizontal, kind: there }),
    ensures
        horizontal != dir.horizontal() ==> {
            &&& placement(board, cables, next, dir) == Placement::Laid
            &&& placed(board, cables, next, dir, kind)[next] is Crossover
            &&& placed(board, cables, next, dir, kind)[next].kind_along(dir) == kind
            &&& placed(board, cables, next, dir, kind)[next].kind_along(dir.clockwise()) == there
            &&& placed(board, cables, next, dir, kind).remove(next) == cables.remove(next)
        },
        horizontal == dir.horizontal() ==> {
            &&& placement(board, cables, next, dir) == Placement::Refused
            &&& placed(board, cables, next, dir, kind) == cables
        },
{
    if horizontal != dir.horizontal() {
        assert(placed(board, cables, next, dir, kind).remove(next) =~= cables.remove(next));
    }
}

} // verus!

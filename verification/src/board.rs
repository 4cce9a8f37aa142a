//! The board: two connectors, and the cable area between them.
//!
//! Cells of the cable area have `0 <= x < width` and `0 <= y < height`. The
//! ports of the left connector stand in the column `x == -1`, those of the
//! right connector in the column `x == width`.

use crate::grid::Coord;
use crate::grid::Direction;
use crate::layout::cable_at;
use crate::layout::cables_held;
use crate::layout::copy_layout;
use crate::layout::layout_cells;
use crate::layout::CableMap;
use crate::transport::Cable;
use crate::transport::OmniversalConnector;
use crate::transport::Port;
use vstd::prelude::*;

verus! {

/// The board the game is played on.
#[derive(Debug)]
pub struct Board {
    /// The connector on the left.
    pub left: OmniversalConnector,
    /// The connector on the right.
    pub right: OmniversalConnector,
    /// The number of columns of the cable area.
    pub width: usize,
    /// The committed cable layout.
    pub cables: CableMap,
}

impl Clone for OmniversalConnector {
    /// A connector with the same ports and sliders.
    fn clone(&self) -> (r: OmniversalConnector)
        ensures
            r.ports@ == self.ports@,
            r.slider@ == self.slider@,
    {
        let mut ports: Vec<Option<Port>> = Vec::new();
        let mut i: usize = 0;
        while i < self.ports.len()
            invariant
                i <= self.ports.len(),
                ports@ == self.ports@.take(i as int),
            decreases self.ports.len() - i,
        {
            ports.push(self.ports[i]);
            assert(self.ports@.take(i + 1) =~= self.ports@.take(i as int).push(
                self.ports@[i as int],
            ));
            i = i + 1;
        }
        assert(self.ports@.take(i as int) =~= self.ports@);
        let mut slider: Vec<bool> = Vec::new();
        let mut j: usize = 0;
        while j < self.slider.len()
            invariant
                j <= self.slider.len(),
                slider@ == self.slider@.take(j as int),
            decreases self.slider.len() - j,
        {
            slider.push(self.slider[j]);
            assert(self.slider@.take(j + 1) =~= self.slider@.take(j as int).push(
                self.slider@[j as int],
            ));
            j = j + 1;
        }
        assert(self.slider@.take(j as int) =~= self.slider@);
        OmniversalConnector { ports, slider }
    }
}

impl Board {
    /// The committed layout as a map from cells to cables.
    pub open spec fn cables_view(&self) -> Map<Coord, Cable> {
        cables_held(self.cables)
    }

    /// The number of rows: that of the longer connector.
    pub open spec fn height_spec(&self) -> nat {
        if self.left.ports@.len() >= self.right.ports@.len() {
            self.left.ports@.len()
        } else {
            self.right.ports@.len()
        }
    }

    /// The port at `pos` and the direction it faces: east on the left
    /// connector, west on the right one. Only the two port columns hold
    /// ports.
    pub open spec fn port_at(&self, pos: Coord) -> Option<(Port, Direction)> {
        if pos.y < 0 {
            None
        } else if pos.x == -1 {
            if pos.y < self.left.ports@.len() && self.left.ports@[pos.y as int] is Some {
                Some((self.left.ports@[pos.y as int]->Some_0, Direction::East))
            } else {
                None
            }
        } else if pos.x == self.width {
            if pos.y < self.right.ports@.len() && self.right.ports@[pos.y as int] is Some {
                Some((self.right.ports@[pos.y as int]->Some_0, Direction::West))
            } else {
                None
            }
        } else {
            None
        }
    }

    /// Whether `pos` is a cell of the cable area.
    pub open spec fn in_cable_area(&self, pos: Coord) -> bool {
        0 <= pos.x < self.width && 0 <= pos.y < self.height_spec()
    }

    /// Whether `pos` is a cell of the cable area or a place in one of the two
    /// port columns.
    pub open spec fn in_board(&self, pos: Coord) -> bool {
        -1 <= pos.x <= self.width && 0 <= pos.y < self.height_spec()
    }

    /// Whether every cable of `cables` lies in the cable area of this board.
    pub open spec fn holds(&self, cables: Map<Coord, Cable>) -> bool {
        forall|pos: Coord| #[trigger] cables.contains_key(pos) ==> self.in_cable_area(pos)
    }

    /// Whether both dimensions of the board are coordinates.
    pub open spec fn fits(&self) -> bool {
        self.width <= isize::MAX && self.height_spec() <= isize::MAX
    }

    /// The invariant of a board: its dimensions are coordinates, and its
    /// cables lie in the cable area, so never in a port column.
    pub open spec fn wf(&self) -> bool {
        self.fits() && self.holds(self.cables_view())
    }

    /// Get the port (maybe) at the given position, and the side it is
    /// facing.
    pub fn get_port(&self, pos: Coord) -> (r: Option<(&Port, Direction)>)
        ensures
            match r {
                Some((port, facing)) => self.port_at(pos) == Some((*port, facing)),
                None => self.port_at(pos) is None,
            },
    {
        if pos.y >= 0 {
            let row = pos.y as usize;
            if pos.x == -1 {
                if row < self.left.ports.len() {
                    match &self.left.ports[row] {
                        Some(port) => Some((port, Direction::East)),
                        None => None,
                    }
                } else {
                    None
                }
            } else if pos.x >= 0 && pos.x as usize == self.width {
                if row < self.right.ports.len() {
                    match &self.right.ports[row] {
                        Some(port) => Some((port, Direction::West)),
                        None => None,
                    }
                } else {
                    None
                }
            } else {
                None
            }
        } else {
            None
        }
    }

    /// Get the height, or the max of the len of the two connectors.
    pub fn height(&self) -> (r: usize)
        ensures
            r == self.height_spec(),
    {
        if self.left.ports.len() >= self.right.ports.len() {
            self.left.ports.len()
        } else {
            self.right.ports.len()
        }
    }

    /// Is that position within the cable area?
    pub fn is_in_cable_area(&self, coord: Coord) -> (r: bool)
        ensures
            r == self.in_cable_area(coord),
    {
        coord.x >= 0 && (coord.x as usize) < self.width && coord.y >= 0 && (coord.y as usize)
            < self.height()
    }

    /// Is that position within the board or the ports?
    pub fn is_in_board(&self, coord: Coord) -> (r: bool)
        ensures
            r == self.in_board(coord),
    {
        coord.x >= -1 && (coord.x == -1 || coord.x as usize <= self.width) && coord.y >= 0 && (
        coord.y as usize) < self.height()
    }

    /// Whether every cable of `cables` lies in the cable area of this board.
    pub fn can_hold(&self, cables: &CableMap) -> (r: bool)
        ensures
            r == self.holds(cables_held(*cables)),
    {
        let cells = layout_cells(cables);
        let mut i: usize = 0;
        while i < cells.len()
            invariant
                i <= cells.len(),
                forall|c: Coord| cells@.contains(c) <==> cables_held(*cables).contains_key(c),
                forall|j: int| 0 <= j < i ==> self.in_cable_area(#[trigger] cells@[j]),
            decreases cells.len() - i,
        {
            if !self.is_in_cable_area(cells[i]) {
                assert(cells@.contains(cells@[i as int]));
                return false;
            }
            i = i + 1;
        }
        assert forall|pos: Coord| cables_held(*cables).contains_key(pos) implies self.in_cable_area(
            pos,
        ) by {
            assert(cells@.contains(pos));
        }
        true
    }

    /// Checks the invariant of the board.
    pub fn is_well_formed(&self) -> (r: bool)
        ensures
            r == self.wf(),
    {
        self.width <= isize::MAX as usize && self.height() <= isize::MAX as usize && self.can_hold(
            &self.cables,
        )
    }

    /// The cable at `pos`, if there is one.
    pub fn cable(&self, pos: Coord) -> (r: Option<Cable>)
        ensures
            r == self.cables_view().get(pos),
    {
        cable_at(&self.cables, pos)
    }

}

impl Clone for Board {
    /// A copy of the board, for a simulation to run on while the board itself is
    /// edited further.
    fn clone(&self) -> (r: Board)
        ensures
            r.left.ports@ == self.left.ports@,
            r.left.slider@ == self.left.slider@,
            r.right.ports@ == self.right.ports@,
            r.right.slider@ == self.right.slider@,
            r.width == self.width,
            r.cables_view() == self.cables_view(),
    {
        Board {
            left: self.left.clone(),
            right: self.right.clone(),
            width: self.width,
            cables: copy_layout(&self.cables),
        }
    }
}

/// A cable in the cable area has room on all four sides: the neighbouring
/// positions are coordinates.
pub proof fn lemma_cable_area_has_neighbours(board: Board, pos: Coord, dir: Direction)
    requires
        board.fits(),
        board.in_cable_area(pos),
    ensures
        pos.can_step(dir),
        board.in_board(pos.stepped(dir)) || pos.stepped(dir).y == -1 || pos.stepped(dir).y
            == board.height_spec(),
{
}

/// No port stands in the cable area.
pub proof fn lemma_ports_stand_outside(board: Board, pos: Coord)
    requires
        board.port_at(pos) is Some,
    ensures
        !board.in_cable_area(pos),
        board.in_board(pos),
{
}

} // verus!

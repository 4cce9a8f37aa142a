//! Resources, the cables that carry them, and the ports they start and end at.
//!
//! Everything here is a value without state. A cable occupies one cell and is
//! described by the sides of the cell it opens to: `Cable::output` gives, for
//! each side, the kind of cable that can be attached there.

use crate::grid::Direction;
use crate::grid::Rotation;
use cogs_gamedev::grids::Direction4;
use enum_map::EnumMap;
use vstd::pervasive::unreached;
use vstd::prelude::*;

verus! {

/// Anything that can be carried across a cable.
///
/// Two resources are the same only if their parameters agree too.
#[derive(Debug, Clone, Copy, PartialEq, Eq, Structural)]
pub enum Resource {
    Water,
    Fuel,
    /// This many gigawatts of power.
    Electricity(u8),
    /// One data line; the number names it.
    Data(u8),
}

/// Determines the kind of resource that can go down a cable.
#[derive(Debug, Clone, Copy, PartialEq, Eq, Structural)]
pub enum CableKind {
    /// Carries fluids.
    Pipe,
    /// Carries electricity and data.
    Wire,
}

/// The piece of cable in one cell.
#[derive(Debug, Clone, Copy, PartialEq, Eq, Structural)]
pub enum Cable {
    /// The cable goes straight across, along one axis.
    Straight { kind: CableKind, horizontal: bool },
    /// The cable joins two neighbouring sides of the cell: `ccw_dir` and the
    /// side clockwise of it.
    Bent { kind: CableKind, ccw_dir: Direction },
    /// Two straight cables share the cell, one per axis.
    Crossover { horiz_kind: CableKind, vert_kind: CableKind },
}

/// Why a resource could not pass through a cable.
#[derive(Debug, Clone, Copy, PartialEq, Eq, Structural)]
pub enum TransferError {
    /// The cable is of the wrong kind for the resource.
    BadCableKind,
    /// The cable has no opening on the side the resource comes from.
    NoEntrance,
}

/// A port of a connector.
#[derive(Debug, Clone, Copy, PartialEq, Eq, Structural)]
pub enum Port {
    /// It produces this resource.
    Source(Resource),
    /// It wants this resource.
    Sink(Resource),
}

/// One of the two connectors at the sides of the board.
///
/// The number of port slots is fixed for a level.
#[derive(Debug)]
pub struct OmniversalConnector {
    /// Ports from the top: index 0 is at `y == 0`. `None` is a slot without a
    /// port.
    pub ports: Vec<Option<Port>>,
    /// The rows that have a slider.
    pub slider: Vec<bool>,
}

/// For each side of a cell, the kind of cable that can be attached there.
///
/// The four entries are kept in an `enum_map::EnumMap` keyed by
/// `cogs_gamedev`'s direction type. The verifier does not look inside; what
/// the map holds is named by `outputs_held`.
#[verifier::external_body]
pub struct CableOutputs {
    by_side: EnumMap<Direction4, Option<CableKind>>,
}

/// The entries of a `CableOutputs` in the order north, east, south, west.
pub uninterp spec fn outputs_held(outputs: CableOutputs) -> Seq<Option<CableKind>>;

impl Resource {
    /// The kind of cable that carries this resource.
    pub open spec fn cable_kind(self) -> CableKind {
        match self {
            Resource::Water | Resource::Fuel => CableKind::Pipe,
            Resource::Electricity(_) | Resource::Data(_) => CableKind::Wire,
        }
    }

    /// The kind of cable that carries this resource.
    pub fn appropriate_cable(&self) -> (r: CableKind)
        ensures
            r == self.cable_kind(),
    {
        match self {
            Resource::Water => CableKind::Pipe,
            Resource::Fuel => CableKind::Pipe,
            Resource::Electricity(_) => CableKind::Wire,
            Resource::Data(_) => CableKind::Wire,
        }
    }
}

impl CableKind {
    /// Whether a cable of this kind carries `res`.
    pub open spec fn carries(self, res: Resource) -> bool {
        res.cable_kind() == self
    }

    /// The row of this kind in the cable atlas, in pixels from the top.
    pub open spec fn atlas_row(self) -> u32 {
        match self {
            CableKind::Pipe => 0,
            CableKind::Wire => 16,
        }
    }

    /// The row of this kind in the cable atlas, in pixels from the top.
    pub fn get_atlas_row(&self) -> (r: u32)
        ensures
            r == self.atlas_row(),
    {
        match self {
            CableKind::Pipe => 0,
            CableKind::Wire => 16,
        }
    }

    /// Whether a cable of this kind carries `res`.
    pub fn can_carry(&self, res: &Resource) -> (r: bool)
        ensures
            r == self.carries(*res),
    {
        match self {
            CableKind::Pipe => match res {
                Resource::Water => true,
                Resource::Fuel => true,
                _ => false,
            },
            CableKind::Wire => match res {
                Resource::Electricity(_) => true,
                Resource::Data(_) => true,
                _ => false,
            },
        }
    }
}

impl Port {
    /// The resource that the port produces or wants.
    pub open spec fn resource(self) -> Resource {
        match self {
            Port::Source(res) => res,
            Port::Sink(res) => res,
        }
    }

    /// The resource that the port produces or wants.
    pub fn get_resource(&self) -> (r: &Resource)
        ensures
            *r == self.resource(),
    {
        match self {
            Port::Source(it) => it,
            Port::Sink(it) => it,
        }
    }
}

impl View for CableOutputs {
    type V = Seq<Option<CableKind>>;

    open spec fn view(&self) -> Seq<Option<CableKind>> {
        outputs_held(*self)
    }
}

impl CableOutputs {
    /// The kind of cable that can be attached on the side `dir`, if any.
    pub fn get(&self, dir: Direction) -> (r: Option<CableKind>)
        ensures
            r == self@[dir.index()],
    {
        outputs_index(self, dir)
    }
}

impl Cable {
    /// The kind of cable that can be attached to this one on the side `dir`.
    ///
    /// A straight cable opens to both sides of its axis, a bent one to
    /// `ccw_dir` and the side clockwise of it, a crossover to all four.
    pub open spec fn output(self, dir: Direction) -> Option<CableKind> {
        match self {
            Cable::Straight { kind, horizontal } => if dir.horizontal() == horizontal {
                Some(kind)
            } else {
                None
            },
            Cable::Bent { kind, ccw_dir } => if dir == ccw_dir || dir == ccw_dir.clockwise() {
                Some(kind)
            } else {
                None
            },
            Cable::Crossover { horiz_kind, vert_kind } => Some(
                if dir.horizontal() {
                    horiz_kind
                } else {
                    vert_kind
                },
            ),
        }
    }

    /// The outputs on all four sides, north first, then clockwise.
    pub open spec fn outputs(self) -> Seq<Option<CableKind>> {
        seq![
            self.output(Direction::North),
            self.output(Direction::East),
            self.output(Direction::South),
            self.output(Direction::West),
        ]
    }

    /// The kind of the cable that a resource moving in direction `dir` would
    /// travel on: the cable's own kind, or for a crossover the kind on the
    /// axis of `dir`.
    pub open spec fn kind_along(self, dir: Direction) -> CableKind {
        match self {
            Cable::Straight { kind, .. } => kind,
            Cable::Bent { kind, .. } => kind,
            Cable::Crossover { horiz_kind, vert_kind } => if dir.horizontal() {
                horiz_kind
            } else {
                vert_kind
            },
        }
    }

    /// Where a resource leaves the cable that it entered moving in direction
    /// `enter_dir`, so through the side `enter_dir.flipped()`.
    ///
    /// A cable of the wrong kind is reported before a missing entrance. A
    /// straight cable and a crossover pass the resource on in the direction
    /// it came in; a bent cable turns it to its other opening.
    pub open spec fn exit(self, resource: Resource, enter_dir: Direction) -> Result<
        Direction,
        TransferError,
    > {
        if !self.kind_along(enter_dir).carries(resource) {
            Err(TransferError::BadCableKind)
        } else {
            match self {
                Cable::Straight { horizontal, .. } => if horizontal == enter_dir.horizontal() {
                    Ok(enter_dir)
                } else {
                    Err(TransferError::NoEntrance)
                },
                Cable::Bent { ccw_dir, .. } => if enter_dir.flipped() == ccw_dir {
                    Ok(ccw_dir.clockwise())
                } else if enter_dir.flipped() == ccw_dir.clockwise() {
                    Ok(ccw_dir)
                } else {
                    Err(TransferError::NoEntrance)
                },
                Cable::Crossover { .. } => Ok(enter_dir),
            }
        }
    }

    /// The cable of kind `kind` that opens to the sides `dir1` and `dir2`:
    /// straight if they are opposite, else bent. Meant for `dir1 != dir2`.
    pub open spec fn joining(kind: CableKind, dir1: Direction, dir2: Direction) -> Cable {
        if dir1.flipped() == dir2 {
            Cable::Straight { kind, horizontal: dir1.horizontal() }
        } else if dir1.clockwise() == dir2 {
            Cable::Bent { kind, ccw_dir: dir1 }
        } else {
            Cable::Bent { kind, ccw_dir: dir2 }
        }
    }

    /// The place of the picture of a straight cable in the cable atlas.
    pub open spec fn straight_slice(kind: CableKind, horizontal: bool) -> (u32, u32) {
        (
            if horizontal {
                0u32
            } else {
                16u32
            },
            kind.atlas_row(),
        )
    }

    /// The places of the pictures of this cable in the cable atlas: the
    /// upper left corner, in pixels, of the tile to draw, and of a second
    /// tile to draw over it where there is one.
    ///
    /// The atlas holds one row per kind. In a row come the two straight
    /// cables, the four bent ones in the order north, east, south, west of
    /// `ccw_dir`, and the crossover of two cables of that kind. A crossover
    /// of two kinds is drawn as its two straight cables, the horizontal one
    /// first.
    pub open spec fn slices(self) -> ((u32, u32), Option<(u32, u32)>) {
        match self {
            Cable::Straight { kind, horizontal } => (Cable::straight_slice(kind, horizontal), None),
            Cable::Bent { kind, ccw_dir } => (
                ((32 + 16 * ccw_dir.index()) as u32, kind.atlas_row()),
                None,
            ),
            Cable::Crossover { horiz_kind, vert_kind } => if horiz_kind == vert_kind {
                ((96u32, horiz_kind.atlas_row()), None)
            } else {
                (
                    Cable::straight_slice(horiz_kind, true),
                    Some(Cable::straight_slice(vert_kind, false)),
                )
            },
        }
    }

    /// Get the place of this cable in the atlas, and maybe a second one to
    /// be drawn after it, if this is a crossover of two kinds of cable.
    pub fn get_slices(&self) -> (r: ((u32, u32), Option<(u32, u32)>))
        ensures
            r == self.slices(),
    {
        match self {
            Cable::Straight { kind, horizontal } => {
                let sx: u32 = if *horizontal {
                    0
                } else {
                    16
                };
                ((sx, kind.get_atlas_row()), None)
            },
            Cable::Bent { kind, ccw_dir } => {
                // The bends stand in the order of the directions, after the
                // two straight cables.
                let place: u32 = match ccw_dir {
                    Direction::North => 0,
                    Direction::East => 1,
                    Direction::South => 2,
                    Direction::West => 3,
                };
                ((32 + place * 16, kind.get_atlas_row()), None)
            },
            Cable::Crossover { horiz_kind, vert_kind } => {
                if *horiz_kind == *vert_kind {
                    // There is a picture of its own for this.
                    ((96, horiz_kind.get_atlas_row()), None)
                } else {
                    // Pretend there are two straight cables.
                    ((0, horiz_kind.get_atlas_row()), Some((16, vert_kind.get_atlas_row())))
                }
            },
        }
    }

    /// If a resource enters this cable moving in direction `enter_dir`, the
    /// direction it leaves in, or the reason it cannot enter.
    pub fn exit_dir(&self, resource: &Resource, enter_dir: Direction) -> (r: Result<
        Direction,
        TransferError,
    >)
        ensures
            r == self.exit(*resource, enter_dir),
    {
        match self {
            Cable::Straight { kind, horizontal } => {
                if !kind.can_carry(resource) {
                    Err(TransferError::BadCableKind)
                } else if *horizontal == enter_dir.is_horizontal() {
                    Ok(enter_dir)
                } else {
                    Err(TransferError::NoEntrance)
                }
            },
            Cable::Bent { kind, ccw_dir } => {
                if !kind.can_carry(resource) {
                    Err(TransferError::BadCableKind)
                } else {
                    let other_dir = ccw_dir.rotate(Rotation::Clockwise);
                    if enter_dir.flip() == *ccw_dir {
                        Ok(other_dir)
                    } else if enter_dir.flip() == other_dir {
                        Ok(*ccw_dir)
                    } else {
                        Err(TransferError::NoEntrance)
                    }
                }
            },
            Cable::Crossover { horiz_kind, vert_kind } => {
                let check_kind = if enter_dir.is_horizontal() {
                    horiz_kind
                } else {
                    vert_kind
                };
                if check_kind.can_carry(resource) {
                    Ok(enter_dir)
                } else {
                    Err(TransferError::BadCableKind)
                }
            },
        }
    }

    /// The kind of the cable that a resource moving in direction `dir` would
    /// travel on.
    pub fn kind_towards(&self, dir: Direction) -> (r: CableKind)
        ensures
            r == self.kind_along(dir),
    {
        match self {
            Cable::Straight { kind, .. } => *kind,
            Cable::Bent { kind, .. } => *kind,
            Cable::Crossover { horiz_kind, vert_kind } => {
                if dir.is_horizontal() {
                    *horiz_kind
                } else {
                    *vert_kind
                }
            },
        }
    }

    /// The kind of cable that can be attached to this one on the side `dir`.
    pub fn output_towards(&self, dir: Direction) -> (r: Option<CableKind>)
        ensures
            r == self.output(dir),
    {
        match self {
            Cable::Straight { kind, horizontal } => {
                if dir.is_horizontal() == *horizontal {
                    Some(*kind)
                } else {
                    None
                }
            },
            Cable::Bent { kind, ccw_dir } => {
                if *ccw_dir == dir || ccw_dir.rotate(Rotation::Clockwise) == dir {
                    Some(*kind)
                } else {
                    None
                }
            },
            Cable::Crossover { horiz_kind, vert_kind } => {
                Some(
                    if dir.is_horizontal() {
                        *horiz_kind
                    } else {
                        *vert_kind
                    },
                )
            },
        }
    }

    /// Where can cables point out of this cable?
    pub fn cable_outputs(&self) -> (r: CableOutputs)
        ensures
            r@ == self.outputs(),
    {
        let by_side = [
            self.output_towards(Direction::North),
            self.output_towards(Direction::East),
            self.output_towards(Direction::South),
            self.output_towards(Direction::West),
        ];
        assert(by_side@ =~= self.outputs());
        outputs_from_array(by_side)
    }

    /// Makes the cable that opens to the two given sides, `Straight` or
    /// `Bent`. The two sides must differ.
    pub fn from_dirs(kind: CableKind, dir1: Direction, dir2: Direction) -> (r: Cable)
        requires
            dir1 != dir2,
        ensures
            r == Cable::joining(kind, dir1, dir2),
            r.output(dir1) == Some(kind),
            r.output(dir2) == Some(kind),
            forall|d: Direction| d != dir1 && d != dir2 ==> r.output(d) is None,
    {
        if dir1.flip() == dir2 {
            Cable::Straight { horizontal: dir1.is_horizontal(), kind }
        } else if dir1.rotate(Rotation::Clockwise) == dir2 {
            Cable::Bent { ccw_dir: dir1, kind }
        } else if dir2.rotate(Rotation::Clockwise) == dir1 {
            Cable::Bent { ccw_dir: dir2, kind }
        } else {
            unreached()
        }
    }

    /// Like `from_dirs`, but tells a caller that passes the same side twice
    /// so by returning `None`.
    pub fn checked_from_dirs(kind: CableKind, dir1: Direction, dir2: Direction) -> (r: Option<
        Cable,
    >)
        ensures
            r is None <==> dir1 == dir2,
            dir1 != dir2 ==> r == Some(Cable::joining(kind, dir1, dir2)),
    {
        if dir1 == dir2 {
            None
        } else {
            Some(Cable::from_dirs(kind, dir1, dir2))
        }
    }
}

/// A straight cable passes on, in the direction it came in, every resource
/// that it can carry and that moves along its axis.
pub proof fn lemma_straight_passes_through(
    kind: CableKind,
    horizontal: bool,
    resource: Resource,
    enter_dir: Direction,
)
    requires
        kind.carries(resource),
        enter_dir.horizontal() == horizontal,
    ensures
        (Cable::Straight { kind, horizontal }).exit(resource, enter_dir) == Ok::<
            Direction,
            TransferError,
        >(enter_dir),
{
}

/// A cable bent between north and east turns a resource that comes in moving
/// south (through the north side) to the east, and one that comes in moving
/// west (through the east side) to the north.
pub proof fn lemma_bent_north_turns(kind: CableKind, resource: Resource)
    requires
        kind.carries(resource),
    ensures
        (Cable::Bent { kind, ccw_dir: Direction::North }).exit(resource, Direction::South) == Ok::<
            Direction,
            TransferError,
        >(Direction::East),
        (Cable::Bent { kind, ccw_dir: Direction::North }).exit(resource, Direction::West) == Ok::<
            Direction,
            TransferError,
        >(Direction::North),
{
}

/// A bent cable turns every resource that it lets in by a quarter turn, out
/// through its other opening; no other cable turns anything.
pub proof fn lemma_exit_leaves_by_an_output(cable: Cable, resource: Resource, enter_dir: Direction)
    requires
        cable.exit(resource, enter_dir) is Ok,
    ensures
        cable.output(enter_dir.flipped()) is Some,
        cable.output(cable.exit(resource, enter_dir)->Ok_0) is Some,
        cable.exit(resource, enter_dir)->Ok_0 != enter_dir.flipped(),
        !(cable is Bent) ==> cable.exit(resource, enter_dir)->Ok_0 == enter_dir,
{
}

/// Builds the map with `enum_map::EnumMap::from_array`, which keeps the array
/// as it is. The keys index it by their place in the declaration of
/// `cogs_gamedev::grids::Direction4`: north, east, south, west.
#[verifier::external_body]
fn outputs_from_array(by_side: [Option<CableKind>; 4]) -> (r: CableOutputs)
    ensures
        outputs_held(r) == by_side@,
{
    CableOutputs { by_side: EnumMap::from_array(by_side) }
}

/// Reads one entry with `EnumMap`'s `Index` impl, which looks into the array
/// at the key's place in the order north, east, south, west.
#[verifier::external_body]
fn outputs_index(outputs: &CableOutputs, dir: Direction) -> (r: Option<CableKind>)
    ensures
        r == outputs_held(*outputs)[dir.index()],
{
    outputs.by_side[match dir {
        Direction::North => Direction4::North,
        Direction::East => Direction4::East,
        Direction::South => Direction4::South,
        Direction::West => Direction4::West,
    }]
}

} // verus!

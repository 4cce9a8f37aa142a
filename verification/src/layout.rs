//! The cable layout: a sparse map from grid cells to the cable in each.
//!
//! The layout is kept in an `ahash::AHashMap` keyed by `(x, y)`. Verified code
//! sees it as the mathematical map `cables_held` and reaches it through the
//! trusted functions at the end of this file.

use crate::grid::Coord;
use crate::transport::Cable;
use ahash::AHashMap;
use ahash::RandomState;
use vstd::prelude::*;

verus! {

/// Makes `ahash::RandomState`, the hasher that an `AHashMap` is seeded with,
/// known to the verifier as a type without contents.
#[verifier::external_type_specification]
#[verifier::external_body]
pub struct ExRandomState(RandomState);

/// Makes `ahash::AHashMap` known to the verifier as a type without contents.
/// What a map holds is named per use: `cables_held` for a layout.
#[verifier::external_type_specification]
#[verifier::external_body]
#[verifier::reject_recursive_types(K)]
#[verifier::reject_recursive_types(V)]
#[verifier::reject_recursive_types(S)]
pub struct ExAHashMap<K, V, S>(AHashMap<K, V, S>);

/// A cable layout. The key of a cell is its `(x, y)`.
pub type CableMap = AHashMap<(isize, isize), Cable>;

/// What a layout holds: the cable at each cell that has one. The cell of the
/// key `(x, y)` is `Coord { x, y }`.
pub uninterp spec fn cables_held(map: CableMap) -> Map<Coord, Cable>;

/// The number of crossovers among the cables at the first `n` cells of
/// `cells`.
pub open spec fn crossovers_among(cables: Map<Coord, Cable>, cells: Seq<Coord>, n: int) -> nat
    decreases n,
{
    if n <= 0 {
        0
    } else {
        let rest = crossovers_among(cables, cells, n - 1);
        if cables[cells[n - 1]] is Crossover {
            rest + 1
        } else {
            rest
        }
    }
}

/// The cells of a layout whose cable is a crossover.
pub open spec fn crossover_cells(cables: Map<Coord, Cable>) -> Set<Coord> {
    cables.dom().filter(|cell: Coord| cables[cell] is Crossover)
}

/// Counting along a list without repetitions of cells of the layout gives the
/// number of listed cells that hold a crossover.
proof fn lemma_crossovers_among(cables: Map<Coord, Cable>, cells: Seq<Coord>, n: int)
    requires
        0 <= n <= cells.len(),
        cells.no_duplicates(),
        forall|i: int| 0 <= i < cells.len() ==> cables.contains_key(#[trigger] cells[i]),
    ensures
        crossover_cells(cables).intersect(cells.take(n).to_set()).finite(),
        crossovers_among(cables, cells, n) == crossover_cells(cables).intersect(
            cells.take(n).to_set(),
        ).len(),
    decreases n,
{
    broadcast use vstd::seq_lib::seq_to_set_is_finite;

    let found = crossover_cells(cables).intersect(cells.take(n).to_set());
    if n == 0 {
        assert(found =~= Set::empty());
    } else {
        lemma_crossovers_among(cables, cells, n - 1);
        let shorter = cells.take(n - 1);
        let before = crossover_cells(cables).intersect(shorter.to_set());
        let cell = cells[n - 1];
        assert(cells.take(n) =~= shorter.push(cell));
        shorter.lemma_push_to_set_commute(cell);
        assert forall|j: int| 0 <= j < shorter.len() implies shorter[j] != cell by {
            assert(cells[j] != cells[n - 1]);
        }
        assert(!shorter.to_set().contains(cell));
        if cables[cell] is Crossover {
            assert(found =~= before.insert(cell));
        } else {
            assert(found =~= before);
        }
    }
}

/// The number of crossovers in a layout.
pub fn count_crossovers(map: &CableMap) -> (r: u64)
    ensures
        crossover_cells(cables_held(*map)).finite(),
        r == crossover_cells(cables_held(*map)).len(),
{
    let cells = layout_cells(map);
    let mut count: u64 = 0;
    let mut i: usize = 0;
    while i < cells.len()
        invariant
            i <= cells.len(),
            cells@.no_duplicates(),
            forall|c: Coord| cells@.contains(c) <==> cables_held(*map).contains_key(c),
            count <= i,
            count == crossovers_among(cables_held(*map), cells@, i as int),
        decreases cells.len() - i,
    {
        let cable = cable_at(map, cells[i]);
        assert(cells@.contains(cells@[i as int]));
        if let Some(Cable::Crossover { .. }) = cable {
            count = count + 1;
        }
        i = i + 1;
    }
    proof {
        let cables = cables_held(*map);
        assert forall|j: int| 0 <= j < cells@.len() implies cables.contains_key(
            #[trigger] cells@[j],
        ) by {
            assert(cells@.contains(cells@[j]));
        }
        lemma_crossovers_among(cables, cells@, cells@.len() as int);
        assert(cells@.take(cells@.len() as int) =~= cells@);
        assert(crossover_cells(cables).intersect(cells@.to_set()) =~= crossover_cells(cables));
    }
    count
}

/// Looks a cell up with `ahash::AHashMap::get`, which hands on the answer of
/// `std::collections::HashMap::get`: the value stored under the key, if any.
#[verifier::external_body]
pub(crate) fn cable_at(map: &CableMap, pos: Coord) -> (r: Option<Cable>)
    ensures
        r == cables_held(*map).get(pos),
{
    map.get(&(pos.x, pos.y)).copied()
}

/// Stores a cable with `ahash::AHashMap::insert`, which hands on to
/// `std::collections::HashMap::insert`: the value is stored under the key,
/// replacing the one that was there, and the replaced value is returned.
#[verifier::external_body]
pub(crate) fn put_cable(map: &mut CableMap, pos: Coord, cable: Cable) -> (r: Option<Cable>)
    ensures
        cables_held(*final(map)) == cables_held(*old(map)).insert(pos, cable),
        r == cables_held(*old(map)).get(pos),
{
    map.insert((pos.x, pos.y), cable)
}

/// Takes a cable out with `ahash::AHashMap::remove`, which hands on to
/// `std::collections::HashMap::remove`: the key is no longer in the map, and
/// the value that was stored under it is returned.
#[verifier::external_body]
pub(crate) fn take_cable(map: &mut CableMap, pos: Coord) -> (r: Option<Cable>)
    ensures
        cables_held(*final(map)) == cables_held(*old(map)).remove(pos),
        r == cables_held(*old(map)).get(pos),
{
    map.remove(&(pos.x, pos.y))
}

/// Copies a layout with `AHashMap`'s derived `Clone`, which clones the
/// `HashMap` inside: the copy holds the same cables at the same cells.
#[verifier::external_body]
pub(crate) fn copy_layout(map: &CableMap) -> (r: CableMap)
    ensures
        cables_held(r) == cables_held(*map),
{
    map.clone()
}

/// Lists the cells of a layout with `std::collections::HashMap::keys`, which
/// `AHashMap` derefs to. Every key comes once; the order is not fixed.
#[verifier::external_body]
pub(crate) fn layout_cells(map: &CableMap) -> (r: Vec<Coord>)
    ensures
        r@.no_duplicates(),
        forall|c: Coord| r@.contains(c) <==> cables_held(*map).contains_key(c),
{
    map.keys().map(|key| Coord { x: key.0, y: key.1 }).collect()
}

} // verus!

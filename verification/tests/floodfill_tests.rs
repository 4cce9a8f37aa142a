use ahash::AHashMap;
use cablesim::board::Board;
use cablesim::floodfill::FloodFillError;
use cablesim::floodfill::FloodFiller;
use cablesim::floodfill::Tip;
use cablesim::grid::Coord;
use cablesim::grid::Direction;
use cablesim::transport::Cable;
use cablesim::transport::CableKind;
use cablesim::transport::OmniversalConnector;
use cablesim::transport::Port;
use cablesim::transport::Resource;

fn connector(ports: Vec<Option<Port>>) -> OmniversalConnector {
    let slider = vec![false; ports.len()];
    OmniversalConnector { ports, slider }
}

fn straight(kind: CableKind, horizontal: bool) -> Cable {
    Cable::Straight { kind, horizontal }
}

fn bent(kind: CableKind, ccw_dir: Direction) -> Cable {
    Cable::Bent { kind, ccw_dir }
}

/// One row, three cells, water from the left to `sink` on the right.
fn straight_run(sink: Port) -> Board {
    let mut board = Board {
        left: connector(vec![Some(Port::Source(Resource::Water))]),
        right: connector(vec![Some(sink)]),
        width: 3,
        cables: AHashMap::new(),
    };
    for x in 0..3 {
        board.cables.insert((x, 0), straight(CableKind::Pipe, true));
    }
    board
}

fn tip(x: isize, y: isize, facing: Direction, resource: Resource) -> Option<Tip> {
    Some(Tip { pos: Coord::new(x, y), facing, resource })
}

#[test]
fn new_spawns_a_tip_per_source() {
    let board = Board {
        left: connector(vec![
            Some(Port::Source(Resource::Water)),
            Some(Port::Sink(Resource::Fuel)),
            None,
            Some(Port::Source(Resource::Data(4))),
        ]),
        right: connector(vec![None, Some(Port::Source(Resource::Fuel)), Some(Port::Sink(Resource::Water))]),
        width: 6,
        cables: AHashMap::new(),
    };
    let filler = FloodFiller::new(&board);
    assert_eq!(
        filler.tips,
        vec![
            tip(0, 0, Direction::East, Resource::Water),
            tip(0, 3, Direction::East, Resource::Data(4)),
            tip(5, 1, Direction::West, Resource::Fuel),
        ]
    );
    assert!(filler.visited.is_empty());
    assert_eq!(filler.cycles, 0);
}

#[test]
fn new_without_sources_has_already_won() {
    let board = Board {
        left: connector(vec![Some(Port::Sink(Resource::Water)), None]),
        right: connector(vec![None]),
        width: 2,
        cables: AHashMap::new(),
    };
    let filler = FloodFiller::new(&board);
    assert!(filler.tips.is_empty());
    assert!(filler.did_win());
}

#[test]
fn simple_straight_run_wins_in_three_steps() {
    let board = straight_run(Port::Sink(Resource::Water));
    assert!(board.is_well_formed());
    let mut filler = FloodFiller::new(&board);
    assert_eq!(filler.tips, vec![tip(0, 0, Direction::East, Resource::Water)]);
    assert!(!filler.did_win());

    assert_eq!(filler.step(&board), Vec::new());
    assert_eq!(filler.tips, vec![tip(1, 0, Direction::East, Resource::Water)]);
    assert!(!filler.did_win());

    assert_eq!(filler.step(&board), Vec::new());
    assert_eq!(filler.tips, vec![tip(2, 0, Direction::East, Resource::Water)]);
    assert!(!filler.did_win());

    assert_eq!(filler.step(&board), Vec::new());
    assert_eq!(filler.tips, vec![None]);
    assert!(filler.did_win());
    assert_eq!(filler.cycles, 3);
}

#[test]
fn a_step_marks_the_cells_the_tips_stood_in() {
    let board = straight_run(Port::Sink(Resource::Water));
    let mut filler = FloodFiller::new(&board);
    filler.step(&board);
    assert_eq!(filler.visited.len(), 1);
    assert_eq!(filler.visited.get(&(0, 0, true)), Some(&Resource::Water));
    assert_eq!(filler.visited.get(&(0, 0, false)), None);
    filler.step(&board);
    filler.step(&board);
    assert_eq!(filler.visited.len(), 3);
    assert_eq!(filler.visited.get(&(1, 0, true)), Some(&Resource::Water));
    assert_eq!(filler.visited.get(&(2, 0, true)), Some(&Resource::Water));
    assert_eq!(filler.visited.get(&(3, 0, true)), None);
}

#[test]
fn mismatched_sink_reports_bad_output_and_never_wins() {
    let board = straight_run(Port::Sink(Resource::Fuel));
    let mut filler = FloodFiller::new(&board);
    assert_eq!(filler.step(&board), Vec::new());
    assert_eq!(filler.step(&board), Vec::new());
    assert_eq!(
        filler.step(&board),
        vec![FloodFillError::BadOutput(Coord::new(3, 0), Resource::Fuel)]
    );
    assert!(!filler.did_win());
    assert_eq!(filler.cycles, 3);
    assert_eq!(filler.tips.len(), 1);
    assert!(filler.tips[0].is_some());
}

#[test]
fn sinks_match_the_parameter_too() {
    let mut board = Board {
        left: connector(vec![Some(Port::Source(Resource::Electricity(3)))]),
        right: connector(vec![Some(Port::Sink(Resource::Electricity(5)))]),
        width: 1,
        cables: AHashMap::new(),
    };
    board.cables.insert((0, 0), straight(CableKind::Wire, true));
    let mut filler = FloodFiller::new(&board);
    assert_eq!(
        filler.step(&board),
        vec![FloodFillError::BadOutput(Coord::new(1, 0), Resource::Electricity(5))]
    );
    assert!(!filler.did_win());

    board.right = connector(vec![Some(Port::Sink(Resource::Electricity(3)))]);
    let mut filler = FloodFiller::new(&board);
    assert_eq!(filler.step(&board), Vec::new());
    assert!(filler.did_win());
    assert_eq!(filler.cycles, 1);
}

#[test]
fn a_source_is_no_place_to_arrive() {
    let board = straight_run(Port::Source(Resource::Water));
    let mut filler = FloodFiller::new(&board);
    assert_eq!(
        filler.tips,
        vec![tip(0, 0, Direction::East, Resource::Water), tip(2, 0, Direction::West, Resource::Water)]
    );
    assert_eq!(filler.step(&board), Vec::new());
    assert_eq!(
        filler.tips,
        vec![tip(1, 0, Direction::East, Resource::Water), tip(1, 0, Direction::West, Resource::Water)]
    );
}

#[test]
fn tips_of_one_step_do_not_hold_each_other_up() {
    let board = straight_run(Port::Source(Resource::Water));
    let mut filler = FloodFiller::new(&board);
    assert_eq!(filler.step(&board), Vec::new());
    // Both tips now stand in the middle cell, on the same axis.
    assert_eq!(filler.step(&board), Vec::new());
    assert_eq!(
        filler.tips,
        vec![tip(2, 0, Direction::East, Resource::Water), tip(0, 0, Direction::West, Resource::Water)]
    );
    // Each now stands where the other one started.
    assert_eq!(
        filler.step(&board),
        vec![
            FloodFillError::Backtrack(Coord::new(2, 0)),
            FloodFillError::Backtrack(Coord::new(0, 0)),
        ]
    );
}

#[test]
fn a_missing_cable_spills() {
    let mut board = straight_run(Port::Sink(Resource::Water));
    board.cables.remove(&(2, 0));
    let mut filler = FloodFiller::new(&board);
    assert_eq!(filler.step(&board), Vec::new());
    assert_eq!(
        filler.step(&board),
        vec![FloodFillError::SpilledIntoSpace(Coord::new(2, 0))]
    );
    assert!(!filler.did_win());
}

#[test]
fn a_source_without_a_cable_spills_where_it_spawns() {
    let board = Board {
        left: connector(vec![None, Some(Port::Source(Resource::Fuel))]),
        right: connector(vec![None, Some(Port::Sink(Resource::Fuel))]),
        width: 3,
        cables: AHashMap::new(),
    };
    let mut filler = FloodFiller::new(&board);
    assert_eq!(
        filler.step(&board),
        vec![FloodFillError::SpilledIntoSpace(Coord::new(0, 1))]
    );
    assert_eq!(filler.tips, vec![tip(0, 1, Direction::East, Resource::Fuel)]);
}

#[test]
fn running_off_the_top_spills() {
    let mut board = Board {
        left: connector(vec![Some(Port::Source(Resource::Water))]),
        right: connector(vec![None]),
        width: 2,
        cables: AHashMap::new(),
    };
    // Comes in through the west side, leaves through the north side.
    board.cables.insert((0, 0), bent(CableKind::Pipe, Direction::West));
    let mut filler = FloodFiller::new(&board);
    assert_eq!(
        filler.step(&board),
        vec![FloodFillError::SpilledIntoSpace(Coord::new(0, -1))]
    );
}

#[test]
fn an_empty_slot_on_the_right_spills() {
    let mut board = Board {
        left: connector(vec![Some(Port::Source(Resource::Water))]),
        right: connector(vec![None]),
        width: 1,
        cables: AHashMap::new(),
    };
    board.cables.insert((0, 0), straight(CableKind::Pipe, true));
    let mut filler = FloodFiller::new(&board);
    assert_eq!(
        filler.step(&board),
        vec![FloodFillError::SpilledIntoSpace(Coord::new(1, 0))]
    );
}

#[test]
fn a_cable_of_the_wrong_kind_holds_the_tip() {
    let mut board = straight_run(Port::Sink(Resource::Water));
    board.cables.insert((1, 0), straight(CableKind::Wire, true));
    let mut filler = FloodFiller::new(&board);
    assert_eq!(filler.step(&board), Vec::new());
    assert_eq!(
        filler.step(&board),
        vec![FloodFillError::BadCableKind(Coord::new(1, 0))]
    );
    assert_eq!(filler.tips, vec![tip(1, 0, Direction::East, Resource::Water)]);
    assert!(!filler.did_win());
}

#[test]
fn a_cable_without_entrance_holds_the_tip() {
    let mut board = straight_run(Port::Sink(Resource::Water));
    board.cables.insert((1, 0), straight(CableKind::Pipe, false));
    let mut filler = FloodFiller::new(&board);
    assert_eq!(filler.step(&board), Vec::new());
    assert_eq!(
        filler.step(&board),
        vec![FloodFillError::NoEntrance(Coord::new(1, 0))]
    );
    assert_eq!(filler.tips, vec![tip(1, 0, Direction::East, Resource::Water)]);
}

#[test]
fn a_held_tip_is_reported_as_backtracking_afterwards() {
    let mut board = straight_run(Port::Sink(Resource::Water));
    board.cables.insert((0, 0), straight(CableKind::Wire, true));
    let mut filler = FloodFiller::new(&board);
    assert_eq!(
        filler.step(&board),
        vec![FloodFillError::BadCableKind(Coord::new(0, 0))]
    );
    assert_eq!(
        filler.step(&board),
        vec![FloodFillError::Backtrack(Coord::new(0, 0))]
    );
    assert_eq!(filler.cycles, 2);
    assert_eq!(filler.tips, vec![tip(0, 0, Direction::East, Resource::Water)]);
}

/// Bends lead the tip from the middle of the lower row up, around, and back
/// into the bend it came through first.
fn looping_board() -> Board {
    let mut board = Board {
        left: connector(vec![None, Some(Port::Source(Resource::Water))]),
        right: connector(vec![None, None]),
        width: 3,
        cables: AHashMap::new(),
    };
    board.cables.insert((0, 1), straight(CableKind::Pipe, true));
    board.cables.insert((1, 1), bent(CableKind::Pipe, Direction::West));
    board.cables.insert((1, 0), bent(CableKind::Pipe, Direction::East));
    board.cables.insert((2, 0), bent(CableKind::Pipe, Direction::South));
    board.cables.insert((2, 1), bent(CableKind::Pipe, Direction::West));
    board
}

#[test]
fn a_loop_back_into_a_visited_cell_is_a_backtrack() {
    let board = looping_board();
    assert!(board.is_well_formed());
    let mut filler = FloodFiller::new(&board);
    let expected = [
        tip(1, 1, Direction::East, Resource::Water),
        tip(1, 0, Direction::North, Resource::Water),
        tip(2, 0, Direction::East, Resource::Water),
        tip(2, 1, Direction::South, Resource::Water),
        tip(1, 1, Direction::West, Resource::Water),
    ];
    for after in expected {
        assert_eq!(filler.step(&board), Vec::new());
        assert_eq!(filler.tips, vec![after]);
    }
    assert_eq!(
        filler.step(&board),
        vec![FloodFillError::Backtrack(Coord::new(1, 1))]
    );
    // The tip makes no further progress.
    assert_eq!(filler.tips, vec![tip(1, 1, Direction::West, Resource::Water)]);
    assert_eq!(
        filler.step(&board),
        vec![FloodFillError::Backtrack(Coord::new(1, 1))]
    );
    assert_eq!(filler.tips, vec![tip(1, 1, Direction::West, Resource::Water)]);
    assert!(!filler.did_win());
    assert_eq!(filler.cycles, 7);
}

#[test]
fn a_crossover_may_be_passed_once_per_axis() {
    let mut board = Board {
        left: connector(vec![None, Some(Port::Source(Resource::Water)), None]),
        right: connector(vec![None, None, None]),
        width: 3,
        cables: AHashMap::new(),
    };
    board.cables.insert((0, 1), straight(CableKind::Pipe, true));
    board.cables.insert((1, 1), Cable::Crossover { horiz_kind: CableKind::Pipe, vert_kind: CableKind::Pipe });
    board.cables.insert((2, 1), bent(CableKind::Pipe, Direction::West));
    board.cables.insert((2, 0), bent(CableKind::Pipe, Direction::South));
    board.cables.insert((1, 0), bent(CableKind::Pipe, Direction::East));
    board.cables.insert((1, 2), straight(CableKind::Pipe, false));
    let mut filler = FloodFiller::new(&board);
    for _ in 0..6 {
        assert_eq!(filler.step(&board), Vec::new());
    }
    // Through the crossover a second time, now downwards.
    assert_eq!(filler.tips, vec![tip(1, 2, Direction::South, Resource::Water)]);
    assert_eq!(
        filler.step(&board),
        vec![FloodFillError::SpilledIntoSpace(Coord::new(1, 3))]
    );
}

#[test]
fn errors_of_one_step_come_all_at_once_in_slot_order() {
    let mut board = Board {
        left: connector(vec![
            Some(Port::Source(Resource::Water)),
            Some(Port::Source(Resource::Data(1))),
            Some(Port::Source(Resource::Fuel)),
            Some(Port::Source(Resource::Fuel)),
        ]),
        right: connector(vec![None, None, Some(Port::Sink(Resource::Water)), Some(Port::Sink(Resource::Fuel))]),
        width: 1,
        cables: AHashMap::new(),
    };
    board.cables.insert((0, 0), straight(CableKind::Pipe, false));
    board.cables.insert((0, 1), straight(CableKind::Pipe, true));
    board.cables.insert((0, 2), straight(CableKind::Pipe, true));
    board.cables.insert((0, 3), straight(CableKind::Pipe, true));
    let mut filler = FloodFiller::new(&board);
    assert_eq!(
        filler.step(&board),
        vec![
            FloodFillError::NoEntrance(Coord::new(0, 0)),
            FloodFillError::BadCableKind(Coord::new(0, 1)),
            FloodFillError::BadOutput(Coord::new(1, 2), Resource::Water),
        ]
    );
    // The slots keep their places; only the last tip was consumed.
    assert_eq!(filler.tips.len(), 4);
    assert!(filler.tips[0].is_some());
    assert!(filler.tips[1].is_some());
    assert!(filler.tips[2].is_some());
    assert_eq!(filler.tips[3], None);
    assert!(!filler.did_win());
    assert_eq!(filler.cycles, 1);
}

#[test]
fn sources_on_the_right_run_west() {
    let mut board = Board {
        left: connector(vec![Some(Port::Sink(Resource::Data(8)))]),
        right: connector(vec![Some(Port::Source(Resource::Data(8)))]),
        width: 2,
        cables: AHashMap::new(),
    };
    board.cables.insert((0, 0), straight(CableKind::Wire, true));
    board.cables.insert((1, 0), straight(CableKind::Wire, true));
    let mut filler = FloodFiller::new(&board);
    assert_eq!(filler.tips, vec![tip(1, 0, Direction::West, Resource::Data(8))]);
    assert_eq!(filler.step(&board), Vec::new());
    assert_eq!(filler.tips, vec![tip(0, 0, Direction::West, Resource::Data(8))]);
    assert_eq!(filler.step(&board), Vec::new());
    assert!(filler.did_win());
    assert_eq!(filler.cycles, 2);
}

#[test]
fn a_board_without_columns_hands_over_at_once() {
    // With no cable area the spawn column of the left connector is the port
    // column of the right one.
    let board = Board {
        left: connector(vec![Some(Port::Source(Resource::Water))]),
        right: connector(vec![Some(Port::Sink(Resource::Water))]),
        width: 0,
        cables: AHashMap::new(),
    };
    assert!(board.is_well_formed());
    let mut filler = FloodFiller::new(&board);
    assert_eq!(filler.tips, vec![tip(0, 0, Direction::East, Resource::Water)]);
    assert_eq!(filler.step(&board), Vec::new());
    assert!(filler.did_win());
}

#[test]
fn did_win_needs_every_slot_empty() {
    let mut filler = FloodFiller {
        tips: vec![None, tip(0, 0, Direction::East, Resource::Water), None],
        visited: AHashMap::new(),
        cycles: 4,
    };
    assert!(!filler.did_win());
    filler.tips[1] = None;
    assert!(filler.did_win());
    filler.tips.clear();
    assert!(filler.did_win());
}

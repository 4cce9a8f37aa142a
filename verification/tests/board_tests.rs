use ahash::AHashMap;
use cablesim::board::Board;
use cablesim::controls::Control;
use cablesim::controls::TickInput;
use cablesim::grid::Coord;
use cablesim::grid::Direction;
use cablesim::layout::count_crossovers;
use cablesim::layout::CableMap;
use cablesim::solutions::Metrics;
use cablesim::solutions::Solution;
use cablesim::transport::Cable;
use cablesim::transport::CableKind;
use cablesim::transport::OmniversalConnector;
use cablesim::transport::Port;
use cablesim::transport::Resource;

fn connector(ports: Vec<Option<Port>>) -> OmniversalConnector {
    let slider = vec![false; ports.len()];
    OmniversalConnector { ports, slider }
}

fn sample_board() -> Board {
    Board {
        left: connector(vec![Some(Port::Source(Resource::Water)), None, Some(Port::Sink(Resource::Data(3)))]),
        right: connector(vec![None, Some(Port::Sink(Resource::Water))]),
        width: 4,
        cables: AHashMap::new(),
    }
}

fn pipe(horizontal: bool) -> Cable {
    Cable::Straight { kind: CableKind::Pipe, horizontal }
}

#[test]
fn height_is_the_longer_connector() {
    assert_eq!(sample_board().height(), 3);
    let mut board = sample_board();
    board.right = connector(vec![None; 5]);
    assert_eq!(board.height(), 5);
    board.left = connector(Vec::new());
    board.right = connector(Vec::new());
    assert_eq!(board.height(), 0);
}

#[test]
fn left_ports_face_east() {
    let board = sample_board();
    assert_eq!(
        board.get_port(Coord::new(-1, 0)),
        Some((&Port::Source(Resource::Water), Direction::East))
    );
    assert_eq!(
        board.get_port(Coord::new(-1, 2)),
        Some((&Port::Sink(Resource::Data(3)), Direction::East))
    );
}

#[test]
fn right_ports_face_west() {
    let board = sample_board();
    assert_eq!(
        board.get_port(Coord::new(4, 1)),
        Some((&Port::Sink(Resource::Water), Direction::West))
    );
}

#[test]
fn empty_slots_hold_no_port() {
    let board = sample_board();
    assert_eq!(board.get_port(Coord::new(-1, 1)), None);
    assert_eq!(board.get_port(Coord::new(4, 0)), None);
}

#[test]
fn rows_out_of_range_hold_no_port() {
    let board = sample_board();
    assert_eq!(board.get_port(Coord::new(-1, 3)), None);
    assert_eq!(board.get_port(Coord::new(4, 2)), None);
    assert_eq!(board.get_port(Coord::new(-1, -1)), None);
    assert_eq!(board.get_port(Coord::new(4, -1)), None);
    assert_eq!(board.get_port(Coord::new(-1, isize::MAX)), None);
    assert_eq!(board.get_port(Coord::new(-1, isize::MIN)), None);
}

#[test]
fn other_columns_hold_no_port() {
    let board = sample_board();
    for x in [-2, 0, 1, 3, 5, isize::MAX, isize::MIN] {
        assert_eq!(board.get_port(Coord::new(x, 0)), None);
        assert_eq!(board.get_port(Coord::new(x, 1)), None);
    }
}

#[test]
fn cable_area_is_strictly_inside() {
    let board = sample_board();
    assert!(board.is_in_cable_area(Coord::new(0, 0)));
    assert!(board.is_in_cable_area(Coord::new(3, 2)));
    assert!(!board.is_in_cable_area(Coord::new(-1, 0)));
    assert!(!board.is_in_cable_area(Coord::new(4, 0)));
    assert!(!board.is_in_cable_area(Coord::new(0, -1)));
    assert!(!board.is_in_cable_area(Coord::new(0, 3)));
}

#[test]
fn board_includes_the_port_columns() {
    let board = sample_board();
    assert!(board.is_in_board(Coord::new(-1, 0)));
    assert!(board.is_in_board(Coord::new(4, 2)));
    assert!(board.is_in_board(Coord::new(2, 1)));
    assert!(!board.is_in_board(Coord::new(-2, 0)));
    assert!(!board.is_in_board(Coord::new(5, 0)));
    assert!(!board.is_in_board(Coord::new(-1, 3)));
    assert!(!board.is_in_board(Coord::new(4, -1)));
}

#[test]
fn a_board_without_rows_has_no_cells() {
    let board = Board {
        left: connector(Vec::new()),
        right: connector(Vec::new()),
        width: 3,
        cables: AHashMap::new(),
    };
    assert!(!board.is_in_cable_area(Coord::new(0, 0)));
    assert!(!board.is_in_board(Coord::new(-1, 0)));
    assert!(board.is_well_formed());
}

#[test]
fn cable_looks_the_layout_up() {
    let mut board = sample_board();
    board.cables.insert((1, 2), pipe(true));
    assert_eq!(board.cable(Coord::new(1, 2)), Some(pipe(true)));
    assert_eq!(board.cable(Coord::new(2, 1)), None);
    assert_eq!(board.cable(Coord::new(1, 1)), None);
}

#[test]
fn well_formed_boards_keep_cables_in_the_area() {
    let mut board = sample_board();
    assert!(board.is_well_formed());
    board.cables.insert((0, 0), pipe(true));
    board.cables.insert((3, 2), pipe(false));
    assert!(board.is_well_formed());
    assert!(board.can_hold(&board.cables));
}

#[test]
fn a_cable_in_a_port_column_breaks_the_board() {
    let mut board = sample_board();
    board.cables.insert((-1, 0), pipe(true));
    assert!(!board.is_well_formed());
    let mut board = sample_board();
    board.cables.insert((4, 1), pipe(true));
    assert!(!board.is_well_formed());
}

#[test]
fn a_cable_outside_the_rows_breaks_the_board() {
    let mut board = sample_board();
    board.cables.insert((0, 3), pipe(true));
    assert!(!board.is_well_formed());
    let mut board = sample_board();
    board.cables.insert((0, -1), pipe(true));
    assert!(!board.is_well_formed());
}

#[test]
fn can_hold_judges_any_layout() {
    let board = sample_board();
    let mut cables: CableMap = AHashMap::new();
    assert!(board.can_hold(&cables));
    cables.insert((2, 2), pipe(true));
    assert!(board.can_hold(&cables));
    cables.insert((2, 3), pipe(true));
    assert!(!board.can_hold(&cables));
}

#[test]
fn clone_copies_everything() {
    let mut board = sample_board();
    board.cables.insert((1, 1), pipe(true));
    board.left.slider[1] = true;
    let copy = board.clone();
    assert_eq!(copy.width, 4);
    assert_eq!(copy.left.ports, board.left.ports);
    assert_eq!(copy.left.slider, vec![false, true, false]);
    assert_eq!(copy.right.ports, board.right.ports);
    assert_eq!(copy.right.slider, board.right.slider);
    assert_eq!(copy.cables, board.cables);
    assert_eq!(copy.cables.len(), 1);
}

#[test]
fn a_clone_does_not_follow_later_changes() {
    let mut board = sample_board();
    board.cables.insert((1, 1), pipe(true));
    let copy = board.clone();
    board.cables.insert((2, 2), pipe(false));
    board.cables.remove(&(1, 1));
    assert_eq!(copy.cable(Coord::new(1, 1)), Some(pipe(true)));
    assert_eq!(copy.cable(Coord::new(2, 2)), None);
}

#[test]
fn count_crossovers_counts_only_crossovers() {
    let mut cables: CableMap = AHashMap::new();
    assert_eq!(count_crossovers(&cables), 0);
    cables.insert((0, 0), pipe(true));
    cables.insert((1, 0), Cable::Bent { kind: CableKind::Wire, ccw_dir: Direction::North });
    assert_eq!(count_crossovers(&cables), 0);
    cables.insert((2, 0), Cable::Crossover { horiz_kind: CableKind::Pipe, vert_kind: CableKind::Wire });
    cables.insert((2, 1), Cable::Crossover { horiz_kind: CableKind::Pipe, vert_kind: CableKind::Pipe });
    cables.insert((0, 2), Cable::Crossover { horiz_kind: CableKind::Wire, vert_kind: CableKind::Wire });
    assert_eq!(count_crossovers(&cables), 3);
}

#[test]
fn record_win_keeps_the_best_number_of_cycles() {
    let first = Metrics::record_win(None, 12, 2);
    assert_eq!(first, Metrics { total_cycles: 12, min_cycles: 12, crossovers: 2 });
    let worse = Metrics::record_win(Some(first), 20, 0);
    assert_eq!(worse, Metrics { total_cycles: 20, min_cycles: 12, crossovers: 0 });
    let better = Metrics::record_win(Some(worse), 7, 5);
    assert_eq!(better, Metrics { total_cycles: 7, min_cycles: 7, crossovers: 5 });
    let same = Metrics::record_win(Some(better), 7, 1);
    assert_eq!(same, Metrics { total_cycles: 7, min_cycles: 7, crossovers: 1 });
}

#[test]
fn solution_of_board_copies_the_layout_unsolved() {
    let mut board = sample_board();
    board.cables.insert((1, 1), pipe(true));
    let solution = Solution::of_board(String::from("level_one"), &board);
    assert_eq!(solution.level_key, "level_one");
    assert_eq!(solution.cables, board.cables);
    assert_eq!(solution.left.ports, board.left.ports);
    assert_eq!(solution.right.ports, board.right.ports);
    assert_eq!(solution.metrics, None);
}

#[test]
fn solution_into_board_round_trips() {
    let mut board = sample_board();
    board.cables.insert((3, 0), pipe(false));
    let solution = Solution::of_board(String::from("k"), &board);
    let back = solution.into_board(board.width);
    assert_eq!(back.width, 4);
    assert_eq!(back.cables, board.cables);
    assert_eq!(back.left.ports, board.left.ports);
    assert_eq!(back.right.ports, board.right.ports);
    assert!(back.is_well_formed());
}

#[test]
fn clicked_down_reads_the_tick() {
    let input = TickInput {
        clicked: vec![Control::Start, Control::Select],
        cursor: Coord::new(0, 0),
        frames_ran: 9,
    };
    assert!(input.clicked_down(Control::Select));
    assert!(input.clicked_down(Control::Start));
    assert!(!input.clicked_down(Control::Escape));
    assert!(!input.clicked_down(Control::StepOnce));
    let quiet = TickInput { clicked: Vec::new(), cursor: Coord::new(0, 0), frames_ran: 9 };
    assert!(!quiet.clicked_down(Control::Select));
}

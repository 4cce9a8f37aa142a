use ahash::AHashMap;
use cablesim::board::Board;
use cablesim::controls::Control;
use cablesim::controls::TickInput;
use cablesim::floodfill::FloodFillError;
use cablesim::grid::Coord;
use cablesim::playing::ModePlaying;
use cablesim::simulating::AdvanceMethod;
use cablesim::simulating::ModeSimulating;
use cablesim::simulating::SimulatingAction;
use cablesim::simulating::STEP_TIME;
use cablesim::solutions::Metrics;
use cablesim::transport::Cable;
use cablesim::transport::CableKind;
use cablesim::transport::OmniversalConnector;
use cablesim::transport::Port;
use cablesim::transport::Resource;

fn connector(ports: Vec<Option<Port>>) -> OmniversalConnector {
    let slider = vec![false; ports.len()];
    OmniversalConnector { ports, slider }
}

/// Two rows: water runs along the upper one to `sink`; the lower one holds a
/// crossover that nothing flows through.
fn run_to(sink: Resource) -> ModePlaying {
    let mut board = Board {
        left: connector(vec![Some(Port::Source(Resource::Water)), None]),
        right: connector(vec![Some(Port::Sink(sink)), None]),
        width: 2,
        cables: AHashMap::new(),
    };
    board.cables.insert((0, 0), Cable::Straight { kind: CableKind::Pipe, horizontal: true });
    board.cables.insert((1, 0), Cable::Straight { kind: CableKind::Pipe, horizontal: true });
    board.cables.insert((1, 1), Cable::Crossover { horiz_kind: CableKind::Pipe, vert_kind: CableKind::Wire });
    assert!(board.is_well_formed());
    ModePlaying::new(board)
}

fn tick(clicked: Vec<Control>, frames_ran: u64) -> TickInput {
    TickInput { clicked, cursor: Coord::new(0, 0), frames_ran }
}

fn by_frames(start_frame: u64, interval: u64) -> AdvanceMethod {
    AdvanceMethod::ByFrames { start_frame, interval }
}

fn is_by_frames(method: &AdvanceMethod, start: u64, every: u64) -> bool {
    matches!(method, AdvanceMethod::ByFrames { start_frame, interval }
        if *start_frame == start && *interval == every)
}

#[test]
fn step_time_is_thirty_frames() {
    assert_eq!(STEP_TIME, 30);
}

#[test]
fn new_runs_on_a_copy_of_the_committed_board() {
    let mut playing = run_to(Resource::Water);
    // A selection under way is not part of the run.
    playing.handle_selection(&TickInput {
        clicked: vec![Control::Select],
        cursor: Coord::new(1, 1),
        frames_ran: 0,
    });
    playing.handle_selection(&TickInput {
        clicked: Vec::new(),
        cursor: Coord::new(0, 1),
        frames_ran: 0,
    });
    assert_eq!(playing.displayed_cables().len(), 4);
    let run = ModeSimulating::new(&playing, AdvanceMethod::OnDemand);
    assert_eq!(run.board().cables, playing.board().cables);
    assert_eq!(run.board().cables.len(), 3);
    assert_eq!(run.board().width, 2);
    assert_eq!(run.board().left.ports, playing.board().left.ports);
    assert_eq!(run.board().right.ports, playing.board().right.ports);
    assert_eq!(run.flooder().tips.len(), 1);
    assert_eq!(run.flooder().cycles, 0);
    assert!(run.flooder().visited.is_empty());
    assert!(matches!(run.advance_method(), AdvanceMethod::OnDemand));
}

#[test]
fn is_special_holds_of_the_two_states_of_rest() {
    assert!(!by_frames(0, 30).is_special());
    assert!(!AdvanceMethod::OnDemand.is_special());
    assert!(AdvanceMethod::Errors(Vec::new()).is_special());
    let metrics = Metrics { total_cycles: 1, min_cycles: 1, crossovers: 0 };
    assert!(AdvanceMethod::WinScreen { metrics }.is_special());
}

#[test]
fn by_frames_steps_on_whole_intervals() {
    let playing = run_to(Resource::Water);
    let mut run = ModeSimulating::new(&playing, by_frames(100, 30));
    assert!(run.handle_advance(&tick(Vec::new(), 100)));
    assert!(!run.handle_advance(&tick(Vec::new(), 101)));
    assert!(!run.handle_advance(&tick(Vec::new(), 129)));
    assert!(run.handle_advance(&tick(Vec::new(), 130)));
    assert!(!run.handle_advance(&tick(Vec::new(), 131)));
    assert!(run.handle_advance(&tick(Vec::new(), 160)));
    assert!(run.handle_advance(&tick(Vec::new(), 100 + 30 * 1000)));
    assert!(is_by_frames(run.advance_method(), 100, 30));
}

#[test]
fn by_frames_with_interval_one_steps_every_frame() {
    let playing = run_to(Resource::Water);
    let mut run = ModeSimulating::new(&playing, by_frames(5, 1));
    for frame in 5..12 {
        assert!(run.handle_advance(&tick(Vec::new(), frame)));
    }
}

#[test]
fn a_step_on_demand_is_taken_and_stops_the_clock() {
    let playing = run_to(Resource::Water);
    let mut run = ModeSimulating::new(&playing, by_frames(100, 30));
    assert!(run.handle_advance(&tick(vec![Control::StepOnce], 107)));
    assert!(matches!(run.advance_method(), AdvanceMethod::OnDemand));
    assert!(!run.handle_advance(&tick(Vec::new(), 130)));
    assert!(run.handle_advance(&tick(vec![Control::StepOnce, Control::Start], 131)));
    assert!(matches!(run.advance_method(), AdvanceMethod::OnDemand));
}

#[test]
fn start_pauses_a_run_by_frames_without_a_step() {
    let playing = run_to(Resource::Water);
    let mut run = ModeSimulating::new(&playing, by_frames(100, 30));
    assert!(!run.handle_advance(&tick(vec![Control::Start], 130)));
    assert!(matches!(run.advance_method(), AdvanceMethod::OnDemand));
}

#[test]
fn start_resumes_a_waiting_run_with_a_step() {
    let playing = run_to(Resource::Water);
    let mut run = ModeSimulating::new(&playing, AdvanceMethod::OnDemand);
    assert!(!run.handle_advance(&tick(Vec::new(), 41)));
    assert!(run.handle_advance(&tick(vec![Control::Start], 42)));
    assert!(is_by_frames(run.advance_method(), 42, 30));
    assert!(!run.handle_advance(&tick(Vec::new(), 43)));
    assert!(run.handle_advance(&tick(Vec::new(), 72)));
}

#[test]
fn a_run_at_rest_stays_at_rest() {
    let playing = run_to(Resource::Water);
    let errors = vec![FloodFillError::Backtrack(Coord::new(0, 0))];
    let mut run = ModeSimulating::new(&playing, AdvanceMethod::Errors(errors.clone()));
    assert!(!run.handle_advance(&tick(vec![Control::StepOnce, Control::Start], 3)));
    assert!(matches!(run.advance_method(), AdvanceMethod::Errors(kept) if *kept == errors));
    assert_eq!(run.step(None), None);
    assert_eq!(run.flooder().cycles, 0);
    assert_eq!(run.flooder().tips.len(), 1);
    assert!(run.flooder().tips[0].is_some());
}

#[test]
fn a_clean_step_changes_only_the_router() {
    let playing = run_to(Resource::Water);
    let mut run = ModeSimulating::new(&playing, AdvanceMethod::OnDemand);
    assert_eq!(run.step(None), None);
    assert_eq!(run.flooder().cycles, 1);
    assert!(matches!(run.advance_method(), AdvanceMethod::OnDemand));
    assert_eq!(run.board().cables.len(), 3);
}

#[test]
fn a_win_puts_the_run_to_rest_with_its_metrics() {
    let playing = run_to(Resource::Water);
    let mut run = ModeSimulating::new(&playing, by_frames(0, 30));
    assert_eq!(run.step(None), None);
    let won = run.step(None);
    assert_eq!(won, Some(Metrics { total_cycles: 2, min_cycles: 2, crossovers: 1 }));
    assert!(matches!(run.advance_method(), AdvanceMethod::WinScreen { metrics } if Some(*metrics) == won));
    assert!(run.flooder().did_win());
    // At rest: no further step is taken.
    assert_eq!(run.step(None), None);
    assert_eq!(run.flooder().cycles, 2);
    assert!(!run.handle_advance(&tick(vec![Control::StepOnce], 60)));
}

#[test]
fn a_win_keeps_the_best_cycles_of_earlier_runs() {
    let playing = run_to(Resource::Water);
    let mut run = ModeSimulating::new(&playing, AdvanceMethod::OnDemand);
    let earlier = Metrics { total_cycles: 9, min_cycles: 1, crossovers: 4 };
    run.step(Some(earlier));
    assert_eq!(
        run.step(Some(earlier)),
        Some(Metrics { total_cycles: 2, min_cycles: 1, crossovers: 1 })
    );
    let mut run = ModeSimulating::new(&playing, AdvanceMethod::OnDemand);
    let slower = Metrics { total_cycles: 9, min_cycles: 9, crossovers: 4 };
    run.step(Some(slower));
    assert_eq!(
        run.step(Some(slower)),
        Some(Metrics { total_cycles: 2, min_cycles: 2, crossovers: 1 })
    );
}

#[test]
fn errors_put_the_run_to_rest() {
    let playing = run_to(Resource::Fuel);
    let mut run = ModeSimulating::new(&playing, AdvanceMethod::OnDemand);
    assert_eq!(run.step(None), None);
    assert_eq!(run.step(None), None);
    let expected = vec![FloodFillError::BadOutput(Coord::new(2, 0), Resource::Fuel)];
    assert!(matches!(run.advance_method(), AdvanceMethod::Errors(errors) if *errors == expected));
    assert!(!run.flooder().did_win());
    assert_eq!(run.step(None), None);
    assert_eq!(run.flooder().cycles, 2);
}

#[test]
fn update_leaves_on_escape_without_stepping() {
    let playing = run_to(Resource::Water);
    let mut run = ModeSimulating::new(&playing, AdvanceMethod::OnDemand);
    let action = run.update(&tick(vec![Control::Escape, Control::StepOnce], 4), None);
    assert_eq!(action, SimulatingAction::Leave);
    assert_eq!(run.flooder().cycles, 0);
    assert!(matches!(run.advance_method(), AdvanceMethod::OnDemand));
}

#[test]
fn update_steps_when_it_is_time() {
    let playing = run_to(Resource::Water);
    let mut run = ModeSimulating::new(&playing, by_frames(10, 30));
    assert_eq!(run.update(&tick(Vec::new(), 39), None), SimulatingAction::Stay);
    assert_eq!(run.flooder().cycles, 0);
    assert_eq!(run.update(&tick(Vec::new(), 40), None), SimulatingAction::Stay);
    assert_eq!(run.flooder().cycles, 1);
    assert_eq!(
        run.update(&tick(Vec::new(), 70), None),
        SimulatingAction::Won(Metrics { total_cycles: 2, min_cycles: 2, crossovers: 1 })
    );
    assert_eq!(run.update(&tick(vec![Control::StepOnce], 100), None), SimulatingAction::Stay);
    assert_eq!(run.flooder().cycles, 2);
}

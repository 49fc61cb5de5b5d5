use tank_maze::game_types::{instruction_label, Direction, GamePhase, Instruction};
use tank_maze::gamestate::{GameState, WinState};
use tank_maze::map::MapPos;
use tank_maze::network::Packet;
use tank_maze::sidebar::{Sidebar, SidebarHits, TURN_INSTRUCTIONS};
use tank_maze::tank::Tank;

fn no_hits() -> SidebarHits {
    SidebarHits { instructions: vec![false; 6], slots: vec![], done: false }
}

fn palette_hit(i: usize) -> SidebarHits {
    let mut h = no_hits();
    h.instructions[i] = true;
    h
}

#[test]
fn new_game_positions_by_player() {
    let host = GameState::new(0);
    assert_eq!(host.local_tank().pos(), MapPos::new(0, 0));
    assert_eq!(host.remote_tank().pos(), MapPos::new(4, 4));
    assert_eq!(host.phase(), GamePhase::Plan);
    assert_eq!(host.win_state(), WinState::Ongoing);
    assert_eq!(host.execution_step(), 0);
    assert!(host.local_script().is_empty());
    let client = GameState::new(1);
    assert_eq!(client.local_tank().pos(), MapPos::new(4, 4));
    assert_eq!(client.remote_tank().pos(), MapPos::new(0, 0));
    assert_eq!(client.player_id(), 1);
}

#[test]
fn execute_moves_both_tanks() {
    let mut g = GameState::new(0);
    g.execute_instruction(Instruction::Move(Direction::Right), Instruction::Move(Direction::Up));
    assert_eq!(g.local_tank().pos(), MapPos::new(1, 0));
    assert_eq!(g.remote_tank().pos(), MapPos::new(4, 3));
    // The border wall keeps the local tank in the top row.
    g.execute_instruction(Instruction::Move(Direction::Up), Instruction::Noop);
    assert_eq!(g.local_tank().pos(), MapPos::new(1, 0));
}

#[test]
fn interact_on_goal_wins() {
    let mut g = GameState::new(1);
    // The client starts in the far corner; its goal is the near corner.
    for _ in 0..4 {
        g.execute_instruction(Instruction::Move(Direction::Left), Instruction::Noop);
    }
    for _ in 0..4 {
        g.execute_instruction(Instruction::Move(Direction::Up), Instruction::Noop);
    }
    assert_eq!(g.local_tank().pos(), MapPos::new(0, 0));
    g.execute_instruction(Instruction::Interact, Instruction::Noop);
    assert_eq!(g.win_state(), WinState::LocalWin);
}

#[test]
fn interact_off_goal_does_nothing() {
    let mut g = GameState::new(0);
    g.execute_instruction(Instruction::Interact, Instruction::Interact);
    assert_eq!(g.win_state(), WinState::Ongoing);
}

#[test]
fn remote_win_then_local_makes_draw() {
    // Host: remote goal is the near corner, where the host starts.
    let mut g = GameState::new(0);
    for _ in 0..4 {
        g.execute_instruction(Instruction::Noop, Instruction::Move(Direction::Left));
    }
    for _ in 0..4 {
        g.execute_instruction(Instruction::Noop, Instruction::Move(Direction::Up));
    }
    assert_eq!(g.remote_tank().pos(), MapPos::new(0, 0));
    g.execute_instruction(Instruction::Noop, Instruction::Interact);
    assert_eq!(g.win_state(), WinState::RemoteWin);
    // Local tank walks to the far corner: (0,0) -> (4,4), skipping the inner wall column.
    for _ in 0..4 {
        g.execute_instruction(Instruction::Move(Direction::Right), Instruction::Noop);
    }
    for _ in 0..4 {
        g.execute_instruction(Instruction::Move(Direction::Down), Instruction::Noop);
    }
    assert_eq!(g.local_tank().pos(), MapPos::new(4, 4));
    g.execute_instruction(Instruction::Interact, Instruction::Noop);
    assert_eq!(g.win_state(), WinState::Draw);
    g.execute_instruction(Instruction::Interact, Instruction::Interact);
    assert_eq!(g.win_state(), WinState::Draw);
}

#[test]
fn simultaneous_goal_is_draw() {
    let mut g = GameState::new(0);
    for _ in 0..4 {
        g.execute_instruction(Instruction::Move(Direction::Right), Instruction::Move(Direction::Left));
    }
    for _ in 0..4 {
        g.execute_instruction(Instruction::Move(Direction::Down), Instruction::Move(Direction::Up));
    }
    assert_eq!(g.local_tank().pos(), MapPos::new(4, 4));
    assert_eq!(g.remote_tank().pos(), MapPos::new(0, 0));
    g.execute_instruction(Instruction::Interact, Instruction::Interact);
    assert_eq!(g.win_state(), WinState::Draw);
}

#[test]
fn planning_and_running_a_turn() {
    let mut g = GameState::new(0);
    // Execute is refused until the script is full.
    let done = SidebarHits { instructions: vec![false; 6], slots: vec![], done: true };
    assert!(g.mouse_down(&done).is_none());
    assert_eq!(g.phase(), GamePhase::Plan);
    for _ in 0..TURN_INSTRUCTIONS {
        assert!(g.mouse_down(&palette_hit(3)).is_none());
    }
    assert_eq!(g.local_script().len(), TURN_INSTRUCTIONS);
    // A full script takes no more instructions.
    assert!(g.mouse_down(&palette_hit(0)).is_none());
    assert_eq!(g.local_script().len(), TURN_INSTRUCTIONS);
    let sent = g.mouse_down(&done);
    match sent {
        Some(Packet::Moves(moves)) => {
            assert_eq!(moves.len(), TURN_INSTRUCTIONS);
            assert!(moves.iter().all(|m| *m == Instruction::Move(Direction::Right)));
        }
        None => panic!("a full script is sent"),
    }
    assert_eq!(g.phase(), GamePhase::Execution);
    g.on_send_result(true);
    g.receive_packet(Packet::Moves(vec![Instruction::Move(Direction::Left); 2]));
    // Clicks are ignored while running.
    assert!(g.mouse_down(&palette_hit(0)).is_none());
    for _ in 0..TURN_INSTRUCTIONS {
        g.execution_tick();
    }
    assert_eq!(g.execution_step(), TURN_INSTRUCTIONS);
    assert_eq!(g.local_tank().pos(), MapPos::new(4, 0));
    assert_eq!(g.remote_tank().pos(), MapPos::new(2, 4));
    assert_eq!(g.phase(), GamePhase::Execution);
    g.execution_tick();
    assert_eq!(g.phase(), GamePhase::Plan);
    assert!(g.local_script().is_empty());
    assert!(g.remote_script().is_empty());
    assert_eq!(g.execution_step(), 0);
}

#[test]
fn failed_send_returns_to_planning() {
    let mut g = GameState::new(0);
    for _ in 0..TURN_INSTRUCTIONS {
        g.mouse_down(&palette_hit(5));
    }
    let done = SidebarHits { instructions: vec![false; 6], slots: vec![], done: true };
    assert!(g.mouse_down(&done).is_some());
    g.on_send_result(false);
    assert_eq!(g.phase(), GamePhase::Plan);
    assert_eq!(g.local_script().len(), TURN_INSTRUCTIONS);
}

#[test]
fn tick_in_planning_does_nothing() {
    let mut g = GameState::new(0);
    g.execution_tick();
    assert_eq!(g.phase(), GamePhase::Plan);
    assert_eq!(g.execution_step(), 0);
}

#[test]
fn slot_click_removes_instruction() {
    let mut g = GameState::new(0);
    g.mouse_down(&palette_hit(0));
    g.mouse_down(&palette_hit(4));
    g.mouse_down(&palette_hit(5));
    let hits = SidebarHits { instructions: vec![false; 6], slots: vec![false, true, false], done: false };
    g.mouse_down(&hits);
    assert_eq!(g.local_script(), &vec![Instruction::Move(Direction::Up), Instruction::Noop]);
}

#[test]
fn sidebar_palette_order() {
    let p = Sidebar::get_all_instructions();
    assert_eq!(
        p,
        [
            Instruction::Move(Direction::Up),
            Instruction::Move(Direction::Down),
            Instruction::Move(Direction::Left),
            Instruction::Move(Direction::Right),
            Instruction::Interact,
            Instruction::Noop,
        ]
    );
}

#[test]
fn sidebar_click_first_hit_wins() {
    let mut script = vec![];
    let mut phase = GamePhase::Plan;
    let hits = SidebarHits { instructions: vec![false, true, true, false, false, false], slots: vec![], done: true };
    Sidebar::handle_click(&hits, &mut script, &mut phase);
    assert_eq!(script, vec![Instruction::Move(Direction::Down)]);
    assert_eq!(phase, GamePhase::Plan);
}

#[test]
fn sidebar_click_outside_planning_ignored() {
    let mut script = vec![];
    let mut phase = GamePhase::Execution;
    Sidebar::handle_click(&palette_hit(0), &mut script, &mut phase);
    assert!(script.is_empty());
    assert_eq!(phase, GamePhase::Execution);
}

#[test]
fn animation_wraps_after_six_frames() {
    let mut t = Tank::new(MapPos::new(2, 3));
    assert_eq!(t.current_frame(), 0);
    assert_eq!(t.direction(), Direction::Right);
    for k in 1..6 {
        t.advance_frame();
        assert_eq!(t.current_frame(), k);
    }
    t.advance_frame();
    assert_eq!(t.current_frame(), 0);
    t.set_pos(MapPos::new(1, 1));
    assert_eq!(t.pos(), MapPos::new(1, 1));
    assert_eq!(t.current_frame(), 0);
}

#[test]
fn game_animation_steps_each_tank() {
    let mut g = GameState::new(0);
    g.advance_local_animation();
    g.advance_local_animation();
    g.advance_remote_animation();
    assert_eq!(g.local_tank().current_frame(), 2);
    assert_eq!(g.remote_tank().current_frame(), 1);
}

#[test]
fn instruction_labels() {
    assert_eq!(instruction_label(Instruction::Move(Direction::Up)), "Up");
    assert_eq!(instruction_label(Instruction::Move(Direction::Down)), "Down");
    assert_eq!(instruction_label(Instruction::Move(Direction::Left)), "Left");
    assert_eq!(instruction_label(Instruction::Move(Direction::Right)), "Right");
    assert_eq!(instruction_label(Instruction::Interact), "Act");
    assert_eq!(instruction_label(Instruction::Noop), "Wait");
}

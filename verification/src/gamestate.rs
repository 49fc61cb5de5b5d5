use vstd::prelude::*;

use crate::game_types::{Direction, GamePhase, Instruction};
use crate::map::{
    first_map_types, first_map_walls, grid_tile_bits, hardcoded_map, lemma_can_move_on_map,
    lemma_step_stays_on_map, MapPos, TileMap, GRID_HEIGHT, GRID_WIDTH,
};
use crate::network::Packet;
use crate::sidebar::{click_outcome, Sidebar, SidebarHits, TURN_INSTRUCTIONS};
use crate::tank::{next_frame, Tank, TankView};

verus! {

/// How the game stands: undecided, won by one side, or drawn.
#[derive(Clone, Copy, Debug, PartialEq, Eq, Structural)]
pub enum WinState {
    Ongoing,
    LocalWin,
    RemoteWin,
    Draw,
}

/// One player's side of a two-player game: the shared map, both tanks, both
/// scripts for the current turn, and how far the turn has run.
pub struct GameState {
    map: TileMap,
    local_tank: Tank,
    remote_tank: Tank,
    local_script: Vec<Instruction>,
    remote_script: Vec<Instruction>,
    phase: GamePhase,
    execution_step: usize,
    win_state: WinState,
    player_id: u8,
}

/// A game seen from outside.
pub struct GameView {
    pub map: TileMap,
    pub local_tank: TankView,
    pub remote_tank: TankView,
    pub local_script: Seq<Instruction>,
    pub remote_script: Seq<Instruction>,
    pub phase: GamePhase,
    pub execution_step: nat,
    pub win_state: WinState,
    pub player_id: u8,
}

/// The map every game is played on: the first built-in map.
pub open spec fn is_game_map(map: TileMap) -> bool {
    &&& map.wf()
    &&& map.width == GRID_WIDTH
    &&& map.height == GRID_HEIGHT
    &&& forall|x: int, y: int|
        0 <= x < 5 && 0 <= y < 5 ==> (#[trigger] map.tile(x, y)).raw() == grid_tile_bits(
            first_map_walls(),
            first_map_types(),
            5,
            x,
            y,
        )
}

/// What holds of every game: it is played on the game map, both tanks stand
/// on it, and the local script never exceeds one turn's worth of instructions.
pub open spec fn game_inv(v: GameView) -> bool {
    &&& is_game_map(v.map)
    &&& v.map.in_bounds(v.local_tank.pos)
    &&& v.map.in_bounds(v.remote_tank.pos)
    &&& v.local_script.len() <= TURN_INSTRUCTIONS
}

/// The corner where the host starts and the client must interact to win.
pub open spec fn near_corner() -> MapPos {
    MapPos { x: 0, y: 0 }
}

/// The corner where the client starts and the host must interact to win.
pub open spec fn far_corner() -> MapPos {
    MapPos { x: (GRID_WIDTH - 1) as u16, y: (GRID_HEIGHT - 1) as u16 }
}

/// Where the local tank starts: the near corner for the host (player 0),
/// the far corner for the client.
pub open spec fn local_start(player_id: u8) -> MapPos {
    if player_id == 0 {
        MapPos { x: 0, y: 0 }
    } else {
        MapPos { x: (GRID_WIDTH - 1) as u16, y: (GRID_HEIGHT - 1) as u16 }
    }
}

/// Where the remote tank starts: the corner the local tank does not start on.
pub open spec fn remote_start(player_id: u8) -> MapPos {
    if player_id == 0 {
        MapPos { x: (GRID_WIDTH - 1) as u16, y: (GRID_HEIGHT - 1) as u16 }
    } else {
        MapPos { x: 0, y: 0 }
    }
}

/// The local player's goal: the far corner for the host (player 0), the near
/// corner for the client.
pub open spec fn local_goal(player_id: u8) -> MapPos {
    if player_id == 0 {
        far_corner()
    } else {
        near_corner()
    }
}

/// The remote player's goal: the corner where the local player starts.
pub open spec fn remote_goal(player_id: u8) -> MapPos {
    if player_id == 0 {
        near_corner()
    } else {
        far_corner()
    }
}

/// The outcome once the local tank interacts on its goal: it wins an
/// undecided game and draws a game the other side has won.
pub open spec fn after_local_reaches_goal(w: WinState) -> WinState {
    match w {
        WinState::Ongoing => WinState::LocalWin,
        WinState::RemoteWin => WinState::Draw,
        _ => w,
    }
}

/// The outcome once the remote tank interacts on its goal.
pub open spec fn after_remote_reaches_goal(w: WinState) -> WinState {
    match w {
        WinState::Ongoing => WinState::RemoteWin,
        WinState::LocalWin => WinState::Draw,
        _ => w,
    }
}

/// The game after the local tank carries out `instr`.
pub open spec fn apply_local(v: GameView, instr: Instruction) -> GameView {
    match instr {
        Instruction::Move(d) => GameView {
            local_tank: TankView { pos: v.local_tank.pos.step(v.map, d), ..v.local_tank },
            ..v
        },
        Instruction::Interact => if v.local_tank.pos == local_goal(v.player_id) {
            GameView { win_state: after_local_reaches_goal(v.win_state), ..v }
        } else {
            v
        },
        Instruction::Noop => v,
    }
}

/// The game after the remote tank carries out `instr`.
pub open spec fn apply_remote(v: GameView, instr: Instruction) -> GameView {
    match instr {
        Instruction::Move(d) => GameView {
            remote_tank: TankView { pos: v.remote_tank.pos.step(v.map, d), ..v.remote_tank },
            ..v
        },
        Instruction::Interact => if v.remote_tank.pos == remote_goal(v.player_id) {
            GameView { win_state: after_remote_reaches_goal(v.win_state), ..v }
        } else {
            v
        },
        Instruction::Noop => v,
    }
}

/// One step of a turn: the local instruction first, then the remote one.
pub open spec fn apply_instructions(v: GameView, local: Instruction, remote: Instruction) -> GameView {
    apply_remote(apply_local(v, local), remote)
}

/// The instruction at `step` of `script`, or a wait once the script has run out.
pub open spec fn instruction_at(script: Seq<Instruction>, step: nat) -> Instruction {
    if step < script.len() {
        script[step as int]
    } else {
        Instruction::Noop
    }
}

/// The number of steps a turn runs: the length of the longer script.
pub open spec fn turn_length(v: GameView) -> nat {
    if v.local_script.len() >= v.remote_script.len() {
        v.local_script.len()
    } else {
        v.remote_script.len()
    }
}

/// The game after one tick of the execution timer. A decided game and a game
/// in the planning phase stay as they are. While steps remain, both tanks run
/// their next instruction; after the last step the turn ends, both scripts
/// are cleared and planning starts again.
pub open spec fn tick(v: GameView) -> GameView {
    if v.win_state != WinState::Ongoing || v.phase == GamePhase::Plan {
        v
    } else if v.execution_step < turn_length(v) {
        GameView {
            execution_step: v.execution_step + 1,
            ..apply_instructions(
                v,
                instruction_at(v.local_script, v.execution_step),
                instruction_at(v.remote_script, v.execution_step),
            )
        }
    } else {
        GameView {
            phase: GamePhase::Plan,
            local_script: Seq::empty(),
            remote_script: Seq::empty(),
            execution_step: 0,
            ..v
        }
    }
}

impl View for GameState {
    type V = GameView;

    closed spec fn view(&self) -> GameView {
        GameView {
            map: self.map,
            local_tank: self.local_tank@,
            remote_tank: self.remote_tank@,
            local_script: self.local_script@,
            remote_script: self.remote_script@,
            phase: self.phase,
            execution_step: self.execution_step as nat,
            win_state: self.win_state,
            player_id: self.player_id,
        }
    }
}

impl GameState {
    #[verifier::type_invariant]
    spec fn well_formed(self) -> bool {
        game_inv(self@)
    }

    /// A fresh game for player `player_id` (0 hosts, 1 joins): the host starts
    /// in the near corner and the client in the far corner; nothing is
    /// planned yet and nobody has won.
    pub fn new(player_id: u8) -> (g: GameState)
        ensures
            is_game_map(g@.map),
            g@.local_tank == (TankView {
                pos: if player_id == 0 {
                    near_corner()
                } else {
                    far_corner()
                },
                direction: Direction::Right,
                frame: 0,
            }),
            g@.remote_tank == (TankView {
                pos: if player_id == 0 {
                    far_corner()
                } else {
                    near_corner()
                },
                direction: Direction::Right,
                frame: 0,
            }),
            g@.local_script == Seq::<Instruction>::empty(),
            g@.remote_script == Seq::<Instruction>::empty(),
            g@.phase == GamePhase::Plan,
            g@.execution_step == 0,
            g@.win_state == WinState::Ongoing,
            g@.player_id == player_id,
            g@.local_tank.pos == local_start(player_id),
            g@.remote_tank.pos == remote_start(player_id),
    {
        let map = hardcoded_map();
        let (local_pos, remote_pos) = if player_id == 0 {
            (MapPos::new(0, 0), MapPos::new(GRID_WIDTH - 1, GRID_HEIGHT - 1))
        } else {
            (MapPos::new(GRID_WIDTH - 1, GRID_HEIGHT - 1), MapPos::new(0, 0))
        };
        GameState {
            map,
            local_tank: Tank::new(local_pos),
            remote_tank: Tank::new(remote_pos),
            local_script: Vec::new(),
            remote_script: Vec::new(),
            phase: GamePhase::Plan,
            execution_step: 0,
            win_state: WinState::Ongoing,
            player_id,
        }
    }

    /// Runs one step of the turn: the local tank carries out `local_instr`,
    /// then the remote tank `remote_instr`; see `apply_instructions`.
    pub fn execute_instruction(&mut self, local_instr: Instruction, remote_instr: Instruction)
        ensures
            final(self)@ == apply_instructions(old(self)@, local_instr, remote_instr),
    {
        proof {
            use_type_invariant(&*self);
        }
        match local_instr {
            Instruction::Move(dir) => {
                let pos = self.local_tank.pos();
                proof {
                    lemma_can_move_on_map(pos, self.map, dir);
                    lemma_step_stays_on_map(pos, self.map, dir);
                }
                let new_pos = pos.moved(&self.map, dir);
                self.local_tank.set_pos(new_pos);
            },
            Instruction::Interact => {
                let goal_pos = if self.player_id == 0 {
                    MapPos::new(GRID_WIDTH - 1, GRID_HEIGHT - 1)
                } else {
                    MapPos::new(0, 0)
                };
                let pos = self.local_tank.pos();
                if pos.x == goal_pos.x && pos.y == goal_pos.y {
                    if self.win_state == WinState::Ongoing {
                        self.win_state = WinState::LocalWin;
                    } else if self.win_state == WinState::RemoteWin {
                        self.win_state = WinState::Draw;
                    }
                }
            },
            Instruction::Noop => {},
        }
        match remote_instr {
            Instruction::Move(dir) => {
                let pos = self.remote_tank.pos();
                proof {
                    lemma_can_move_on_map(pos, self.map, dir);
                    lemma_step_stays_on_map(pos, self.map, dir);
                }
                let new_pos = pos.moved(&self.map, dir);
                self.remote_tank.set_pos(new_pos);
            },
            Instruction::Interact => {
                let goal_pos = if self.player_id == 0 {
                    MapPos::new(0, 0)
                } else {
                    MapPos::new(GRID_WIDTH - 1, GRID_HEIGHT - 1)
                };
                let pos = self.remote_tank.pos();
                if pos.x == goal_pos.x && pos.y == goal_pos.y {
                    if self.win_state == WinState::Ongoing {
                        self.win_state = WinState::RemoteWin;
                    } else if self.win_state == WinState::LocalWin {
                        self.win_state = WinState::Draw;
                    }
                }
            },
            Instruction::Noop => {},
        }
    }

    /// Takes the remote player's script from a received packet.
    pub fn receive_packet(&mut self, packet: Packet)
        ensures
            final(self)@ == (GameView {
                remote_script: match packet {
                    Packet::Moves(moves) => moves@,
                },
                ..old(self)@
            }),
    {
        proof {
            use_type_invariant(&*self);
        }
        match packet {
            Packet::Moves(moves) => {
                self.remote_script = moves;
            },
        }
    }

    /// One tick of the execution timer; see `tick`.
    pub fn execution_tick(&mut self)
        ensures
            final(self)@ == tick(old(self)@),
    {
        proof {
            use_type_invariant(&*self);
        }
        if self.win_state != WinState::Ongoing {
            return ;
        }
        match self.phase {
            GamePhase::Plan => {},
            GamePhase::Execution => {
                let local_len = self.local_script.len();
                let remote_len = self.remote_script.len();
                let max_steps = if local_len >= remote_len {
                    local_len
                } else {
                    remote_len
                };
                if self.execution_step < max_steps {
                    let step = self.execution_step;
                    let l_instr = if step < local_len {
                        self.local_script[step]
                    } else {
                        Instruction::Noop
                    };
                    let r_instr = if step < remote_len {
                        self.remote_script[step]
                    } else {
                        Instruction::Noop
                    };
                    self.execute_instruction(l_instr, r_instr);
                    self.execution_step = step + 1;
                } else {
                    self.phase = GamePhase::Plan;
                    self.local_script = Vec::new();
                    self.remote_script = Vec::new();
                    self.execution_step = 0;
                }
            },
        }
    }

    /// A left click on the sidebar. In an undecided game during planning it
    /// edits the local script as `click_outcome` says; when that starts the
    /// run, the planned script is handed back to be sent to the other player.
    /// Otherwise the game is unchanged and nothing is sent.
    pub fn mouse_down(&mut self, hits: &SidebarHits) -> (out: Option<Packet>)
        ensures
            ({
                let v = old(self)@;
                let (script, phase) = click_outcome(
                    hits.instructions@,
                    hits.slots@,
                    hits.done,
                    v.local_script,
                    v.phase,
                );
                if v.win_state != WinState::Ongoing || v.phase != GamePhase::Plan {
                    final(self)@ == v && out is None
                } else {
                    &&& final(self)@ == (GameView { local_script: script, phase, ..v })
                    &&& (phase == GamePhase::Execution) == (out is Some)
                    &&& out matches Some(Packet::Moves(moves)) ==> moves@ == script
                }
            }),
    {
        proof {
            use_type_invariant(&*self);
        }
        if self.win_state != WinState::Ongoing {
            return None;
        }
        if self.phase != GamePhase::Plan {
            return None;
        }
        let mut script: Vec<Instruction> = Vec::new();
        std::mem::swap(&mut script, &mut self.local_script);
        let mut phase = self.phase;
        Sidebar::handle_click(hits, &mut script, &mut phase);
        proof {
            crate::sidebar::lemma_click_keeps_turn_size(
                hits.instructions@,
                hits.slots@,
                hits.done,
                old(self)@.local_script,
                old(self)@.phase,
            );
        }
        self.local_script = script;
        self.phase = phase;
        if phase == GamePhase::Execution {
            let moves = self.local_script.clone();
            assert(moves@ =~= self.local_script@);
            Some(Packet::Moves(moves))
        } else {
            None
        }
    }

    /// Reports whether the script handed out by `mouse_down` reached the
    /// other player: if it did the run starts from its first step, if not the
    /// game goes back to planning with the script kept.
    pub fn on_send_result(&mut self, sent: bool)
        ensures
            final(self)@ == (if sent {
                GameView { execution_step: 0, ..old(self)@ }
            } else {
                GameView { phase: GamePhase::Plan, ..old(self)@ }
            }),
    {
        proof {
            use_type_invariant(&*self);
        }
        if sent {
            self.execution_step = 0;
        } else {
            self.phase = GamePhase::Plan;
        }
    }

    /// Steps the local tank's body animation.
    pub fn advance_local_animation(&mut self)
        ensures
            final(self)@ == (GameView {
                local_tank: TankView {
                    frame: next_frame(old(self)@.local_tank.frame),
                    ..old(self)@.local_tank
                },
                ..old(self)@
            }),
    {
        proof {
            use_type_invariant(&*self);
        }
        self.local_tank.advance_frame();
    }

    /// Steps the remote tank's body animation.
    pub fn advance_remote_animation(&mut self)
        ensures
            final(self)@ == (GameView {
                remote_tank: TankView {
                    frame: next_frame(old(self)@.remote_tank.frame),
                    ..old(self)@.remote_tank
                },
                ..old(self)@
            }),
    {
        proof {
            use_type_invariant(&*self);
        }
        self.remote_tank.advance_frame();
    }

    pub fn phase(&self) -> (p: GamePhase)
        ensures
            p == self@.phase,
    {
        self.phase
    }

    pub fn win_state(&self) -> (w: WinState)
        ensures
            w == self@.win_state,
    {
        self.win_state
    }

    pub fn execution_step(&self) -> (s: usize)
        ensures
            s == self@.execution_step,
    {
        self.execution_step
    }

    pub fn player_id(&self) -> (id: u8)
        ensures
            id == self@.player_id,
    {
        self.player_id
    }

    pub fn map(&self) -> (m: &TileMap)
        ensures
            *m == self@.map,
            is_game_map(*m),
    {
        proof {
            use_type_invariant(self);
        }
        &self.map
    }

    pub fn local_tank(&self) -> (t: &Tank)
        ensures
            t@ == self@.local_tank,
            self@.map.in_bounds(t@.pos),
    {
        proof {
            use_type_invariant(self);
        }
        &self.local_tank
    }

    pub fn remote_tank(&self) -> (t: &Tank)
        ensures
            t@ == self@.remote_tank,
            self@.map.in_bounds(t@.pos),
    {
        proof {
            use_type_invariant(self);
        }
        &self.remote_tank
    }

    /// The local script, never longer than one turn.
    pub fn local_script(&self) -> (s: &Vec<Instruction>)
        ensures
            s@ == self@.local_script,
            s@.len() <= TURN_INSTRUCTIONS,
    {
        proof {
            use_type_invariant(self);
        }
        &self.local_script
    }

    pub fn remote_script(&self) -> (s: &Vec<Instruction>)
        ensures
            s@ == self@.remote_script,
    {
        &self.remote_script
    }
}

/// Running a step keeps every game invariant: both tanks stay on the map.
pub proof fn lemma_apply_keeps_inv(v: GameView, local: Instruction, remote: Instruction)
    requires
        game_inv(v),
    ensures
        game_inv(apply_instructions(v, local, remote)),
{
    if let Instruction::Move(d) = local {
        lemma_can_move_on_map(v.local_tank.pos, v.map, d);
        lemma_step_stays_on_map(v.local_tank.pos, v.map, d);
    }
    let v1 = apply_local(v, local);
    if let Instruction::Move(d) = remote {
        lemma_can_move_on_map(v1.remote_tank.pos, v1.map, d);
        lemma_step_stays_on_map(v1.remote_tank.pos, v1.map, d);
    }
}

/// A timer tick keeps every game invariant.
pub proof fn lemma_tick_keeps_inv(v: GameView)
    requires
        game_inv(v),
    ensures
        game_inv(tick(v)),
{
    if v.win_state == WinState::Ongoing && v.phase != GamePhase::Plan && v.execution_step
        < turn_length(v) {
        lemma_apply_keeps_inv(
            v,
            instruction_at(v.local_script, v.execution_step),
            instruction_at(v.remote_script, v.execution_step),
        );
    }
}

/// Once decided, a game's outcome only moves toward a draw: a draw stays a
/// draw, and a win stays that win unless the other side reaches its goal too,
/// which makes it a draw. When both tanks interact on their goals in the same
/// step of an undecided game, the game is drawn.
pub proof fn lemma_outcome_only_advances(v: GameView, local: Instruction, remote: Instruction)
    ensures
        ({
            let w = apply_instructions(v, local, remote).win_state;
            &&& v.win_state == WinState::Draw ==> w == WinState::Draw
            &&& v.win_state == WinState::LocalWin ==> (w == WinState::LocalWin || w
                == WinState::Draw)
            &&& v.win_state == WinState::RemoteWin ==> (w == WinState::RemoteWin || w
                == WinState::Draw)
            &&& (v.win_state == WinState::Ongoing && local == Instruction::Interact && remote
                == Instruction::Interact && v.local_tank.pos == local_goal(v.player_id)
                && v.remote_tank.pos == remote_goal(v.player_id)) ==> w == WinState::Draw
        }),
{
}

/// `n` ticks of the execution timer.
pub open spec fn ticks(v: GameView, n: nat) -> GameView
    decreases n,
{
    if n == 0 {
        v
    } else {
        ticks(tick(v), (n - 1) as nat)
    }
}

/// A turn always ends: from any point of a run, once every remaining step
/// and one final tick have passed, the game is back to planning or decided.
pub proof fn lemma_turn_ends(v: GameView)
    requires
        v.execution_step <= turn_length(v),
    ensures
        ({
            let w = ticks(v, (turn_length(v) - v.execution_step + 1) as nat);
            w.phase == GamePhase::Plan || w.win_state != WinState::Ongoing
        }),
    decreases turn_length(v) - v.execution_step,
{
    let n = (turn_length(v) - v.execution_step + 1) as nat;
    let t = tick(v);
    if v.win_state != WinState::Ongoing || v.phase == GamePhase::Plan {
        lemma_ticks_fixed(v, n);
    } else if v.execution_step < turn_length(v) {
        assert(turn_length(t) == turn_length(v));
        lemma_turn_ends(t);
        assert(ticks(v, n) == ticks(t, (n - 1) as nat));
    } else {
        assert(ticks(v, n) == ticks(t, 0));
    }
}

/// A decided game, or one in the planning phase, ignores the timer.
proof fn lemma_ticks_fixed(v: GameView, n: nat)
    requires
        v.win_state != WinState::Ongoing || v.phase == GamePhase::Plan,
    ensures
        ticks(v, n) == v,
    decreases n,
{
    if n > 0 {
        lemma_ticks_fixed(v, (n - 1) as nat);
    }
}

/// Each tank's goal is the corner where the other tank starts: interacting
/// there decides an undecided game for that tank, interacting anywhere else
/// (its own start corner included) leaves it undecided, and the two starts
/// are different corners.
pub proof fn lemma_goal_is_opponent_start(v: GameView)
    requires
        v.win_state == WinState::Ongoing,
    ensures
        local_start(v.player_id) != remote_start(v.player_id),
        apply_local(v, Instruction::Interact).win_state == (if v.local_tank.pos == remote_start(
            v.player_id,
        ) {
            WinState::LocalWin
        } else {
            WinState::Ongoing
        }),
        apply_remote(v, Instruction::Interact).win_state == (if v.remote_tank.pos == local_start(
            v.player_id,
        ) {
            WinState::RemoteWin
        } else {
            WinState::Ongoing
        }),
        v.local_tank.pos == local_start(v.player_id) ==> apply_local(
            v,
            Instruction::Interact,
        ).win_state == WinState::Ongoing,
        v.remote_tank.pos == remote_start(v.player_id) ==> apply_remote(
            v,
            Instruction::Interact,
        ).win_state == WinState::Ongoing,
{
}

/// At step `k` of a run, each tank carries out element `k` of its own
/// script, so scripts are played in the order they were planned: a move
/// moves the tank as `MapPos::step` says, anything else leaves it in place,
/// and a tank whose script has run out waits. The step counter advances by
/// one and the scripts are kept.
pub proof fn lemma_tick_plays_step_in_order(v: GameView)
    requires
        v.win_state == WinState::Ongoing,
        v.phase == GamePhase::Execution,
        v.execution_step < v.local_script.len() || v.execution_step < v.remote_script.len(),
    ensures
        ({
            let w = tick(v);
            let k = v.execution_step as int;
            &&& w.execution_step == v.execution_step + 1
            &&& w.phase == GamePhase::Execution
            &&& w.local_script == v.local_script
            &&& w.remote_script == v.remote_script
            &&& w.map == v.map
            &&& w.player_id == v.player_id
            &&& k < v.local_script.len() ==> (v.local_script[k] matches Instruction::Move(d)
                ==> w.local_tank.pos == v.local_tank.pos.step(v.map, d))
            &&& !(k < v.local_script.len() && v.local_script[k] is Move) ==> w.local_tank.pos
                == v.local_tank.pos
            &&& k < v.remote_script.len() ==> (v.remote_script[k] matches Instruction::Move(d)
                ==> w.remote_tank.pos == v.remote_tank.pos.step(v.map, d))
            &&& !(k < v.remote_script.len() && v.remote_script[k] is Move) ==> w.remote_tank.pos
                == v.remote_tank.pos
        }),
{
}

/// Once both scripts have been played, the next tick ends the turn: the game
/// goes back to planning with both scripts cleared and the step counter at
/// zero, and nothing else changes.
pub proof fn lemma_tick_ends_turn(v: GameView)
    requires
        v.win_state == WinState::Ongoing,
        v.phase == GamePhase::Execution,
        v.execution_step >= v.local_script.len(),
        v.execution_step >= v.remote_script.len(),
    ensures
        tick(v) == (GameView {
            phase: GamePhase::Plan,
            local_script: Seq::empty(),
            remote_script: Seq::empty(),
            execution_step: 0,
            ..v
        }),
{
}

/// Waiting changes nothing, and a move by one tank never moves the other or
/// changes the outcome.
pub proof fn lemma_moves_touch_only_their_tank(v: GameView, d: Direction)
    ensures
        apply_instructions(v, Instruction::Noop, Instruction::Noop) == v,
        apply_instructions(v, Instruction::Move(d), Instruction::Noop).remote_tank
            == v.remote_tank,
        apply_instructions(v, Instruction::Move(d), Instruction::Noop).win_state == v.win_state,
        apply_instructions(v, Instruction::Noop, Instruction::Move(d)).local_tank
            == v.local_tank,
        apply_instructions(v, Instruction::Noop, Instruction::Move(d)).win_state == v.win_state,
{
}

/// A decided game, and a game in the planning phase, ignore the timer.
pub proof fn lemma_tick_idle(v: GameView)
    requires
        v.win_state != WinState::Ongoing || v.phase == GamePhase::Plan,
    ensures
        tick(v) == v,
{
}

} // verus!

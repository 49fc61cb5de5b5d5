use vstd::prelude::*;

use crate::game_types::{Direction, GamePhase, Instruction};

verus! {

/// Number of instructions a player must plan for each turn.
pub const TURN_INSTRUCTIONS: usize = 10;

/// The instruction palette, script slots and execute button beside the map.
pub struct Sidebar;

/// Which parts of the sidebar a click landed on: one flag per palette button,
/// one per filled script slot, and one for the execute button.
pub struct SidebarHits {
    pub instructions: Vec<bool>,
    pub slots: Vec<bool>,
    pub done: bool,
}

/// The palette, in the order its buttons are shown.
pub open spec fn palette() -> Seq<Instruction> {
    seq![
        Instruction::Move(Direction::Up),
        Instruction::Move(Direction::Down),
        Instruction::Move(Direction::Left),
        Instruction::Move(Direction::Right),
        Instruction::Interact,
        Instruction::Noop,
    ]
}

/// The least index below `bound` whose flag is set, if any.
pub open spec fn first_hit(hits: Seq<bool>, bound: int) -> Option<int>
    decreases bound,
{
    if bound <= 0 {
        None
    } else {
        match first_hit(hits, bound - 1) {
            Some(i) => Some(i),
            None => if bound - 1 < hits.len() && hits[bound - 1] {
                Some(bound - 1)
            } else {
                None
            },
        }
    }
}

/// The script and phase after a click while planning: a palette button
/// appends its instruction when the script is not yet full; otherwise a
/// script slot removes its instruction; otherwise the execute button starts
/// the run once the script is full. Outside the planning phase nothing changes.
pub open spec fn click_outcome(
    instruction_hits: Seq<bool>,
    slot_hits: Seq<bool>,
    done_hit: bool,
    script: Seq<Instruction>,
    phase: GamePhase,
) -> (Seq<Instruction>, GamePhase) {
    if phase != GamePhase::Plan {
        (script, phase)
    } else {
        match first_hit(instruction_hits, 6) {
            Some(i) => if script.len() < TURN_INSTRUCTIONS {
                (script.push(palette()[i]), phase)
            } else {
                (script, phase)
            },
            None => match first_hit(slot_hits, script.len() as int) {
                Some(j) => (script.remove(j), phase),
                None => if done_hit && script.len() == TURN_INSTRUCTIONS {
                    (script, GamePhase::Execution)
                } else {
                    (script, phase)
                },
            },
        }
    }
}

/// The index `first_hit` finds is below the bound and its flag is set.
pub proof fn lemma_first_hit_bounds(hits: Seq<bool>, bound: int)
    ensures
        first_hit(hits, bound) matches Some(i) ==> 0 <= i < bound && i < hits.len() && hits[i],
    decreases bound,
{
    if bound > 0 {
        lemma_first_hit_bounds(hits, bound - 1);
    }
}

impl Sidebar {
    /// The palette: the four moves, interact, then wait.
    pub fn get_all_instructions() -> (instructions: [Instruction; 6])
        ensures
            instructions@ == palette(),
    {
        let instructions = [
            Instruction::Move(Direction::Up),
            Instruction::Move(Direction::Down),
            Instruction::Move(Direction::Left),
            Instruction::Move(Direction::Right),
            Instruction::Interact,
            Instruction::Noop,
        ];
        assert(instructions@ =~= palette());
        instructions
    }

    /// Applies a click on the sidebar to the player's script and phase; see
    /// `click_outcome`.
    pub fn handle_click(
        hits: &SidebarHits,
        current_script: &mut Vec<Instruction>,
        phase: &mut GamePhase,
    )
        ensures
            (final(current_script)@, *final(phase)) == click_outcome(
                hits.instructions@,
                hits.slots@,
                hits.done,
                old(current_script)@,
                *old(phase),
            ),
    {
        if *phase != GamePhase::Plan {
            return ;
        }
        let instructions = Self::get_all_instructions();
        let mut i: usize = 0;
        while i < 6
            invariant
                i <= 6,
                instructions@ == palette(),
                current_script@ == old(current_script)@,
                *phase == GamePhase::Plan,
                first_hit(hits.instructions@, i as int) is None,
            decreases 6 - i,
        {
            if i < hits.instructions.len() && hits.instructions[i] {
                proof {
                    assert(first_hit(hits.instructions@, i as int + 1) == Some(i as int));
                    lemma_first_hit_monotone(hits.instructions@, i as int + 1, 6);
                }
                if current_script.len() < TURN_INSTRUCTIONS {
                    current_script.push(instructions[i]);
                }
                return ;
            }
            i = i + 1;
        }
        let mut j: usize = 0;
        while j < current_script.len()
            invariant
                j <= current_script@.len(),
                current_script@ == old(current_script)@,
                *phase == GamePhase::Plan,
                first_hit(hits.instructions@, 6) is None,
                first_hit(hits.slots@, j as int) is None,
            decreases current_script@.len() - j,
        {
            if j < hits.slots.len() && hits.slots[j] {
                proof {
                    assert(first_hit(hits.slots@, j as int + 1) == Some(j as int));
                    lemma_first_hit_monotone(
                        hits.slots@,
                        j as int + 1,
                        current_script@.len() as int,
                    );
                }
                current_script.remove(j);
                return ;
            }
            j = j + 1;
        }
        if hits.done {
            if current_script.len() == TURN_INSTRUCTIONS {
                *phase = GamePhase::Execution;
            }
        }
    }
}

/// Once some flag below `a` is set, every larger bound finds the same index.
pub proof fn lemma_first_hit_monotone(hits: Seq<bool>, a: int, b: int)
    requires
        a <= b,
        first_hit(hits, a) is Some,
    ensures
        first_hit(hits, b) == first_hit(hits, a),
    decreases b - a,
{
    if a < b {
        lemma_first_hit_monotone(hits, a, b - 1);
    }
}

/// A click never grows the script past one turn's worth of instructions; it
/// only starts a run from the planning phase and only with a full script,
/// which it leaves as it was; outside the planning phase it changes nothing.
pub proof fn lemma_click_keeps_turn_size(
    instruction_hits: Seq<bool>,
    slot_hits: Seq<bool>,
    done_hit: bool,
    script: Seq<Instruction>,
    phase: GamePhase,
)
    requires
        script.len() <= TURN_INSTRUCTIONS,
    ensures
        ({
            let (new_script, new_phase) = click_outcome(
                instruction_hits,
                slot_hits,
                done_hit,
                script,
                phase,
            );
            &&& new_script.len() <= TURN_INSTRUCTIONS
            &&& new_phase == phase || (phase == GamePhase::Plan && new_phase
                == GamePhase::Execution)
            &&& new_phase == GamePhase::Execution && phase == GamePhase::Plan ==> new_script
                == script && script.len() == TURN_INSTRUCTIONS
            &&& phase != GamePhase::Plan ==> new_script == script && new_phase == phase
        }),
{
    lemma_first_hit_bounds(instruction_hits, 6);
    lemma_first_hit_bounds(slot_hits, script.len() as int);
}

/// Whether none of the flags below `bound` is set.
pub open spec fn none_hit_below(hits: Seq<bool>, bound: int) -> bool {
    forall|i: int| 0 <= i < bound && i < hits.len() ==> !hits[i]
}

/// With no flag below `bound` set, nothing is hit.
pub proof fn lemma_first_hit_none(hits: Seq<bool>, bound: int)
    requires
        none_hit_below(hits, bound),
    ensures
        first_hit(hits, bound) is None,
    decreases bound,
{
    if bound > 0 {
        lemma_first_hit_none(hits, bound - 1);
    }
}

/// The first set flag below `bound` is the one found.
pub proof fn lemma_first_hit_is_first(hits: Seq<bool>, j: int, bound: int)
    requires
        0 <= j < bound,
        j < hits.len(),
        hits[j],
        none_hit_below(hits, j),
    ensures
        first_hit(hits, bound) == Some(j),
    decreases bound,
{
    if bound > j + 1 {
        lemma_first_hit_is_first(hits, j, bound - 1);
    } else {
        lemma_first_hit_none(hits, j);
    }
}

/// The palette holds, in order, the four moves (up, down, left, right),
/// interact and wait.
pub proof fn lemma_palette_order()
    ensures
        palette().len() == 6,
        palette()[0] == Instruction::Move(Direction::Up),
        palette()[1] == Instruction::Move(Direction::Down),
        palette()[2] == Instruction::Move(Direction::Left),
        palette()[3] == Instruction::Move(Direction::Right),
        palette()[4] == Instruction::Interact,
        palette()[5] == Instruction::Noop,
{
}

/// While planning, a click whose first palette button hit is `i` appends
/// that button's instruction to a script that is not yet full, and leaves a
/// full script as it is; the phase stays.
pub proof fn lemma_palette_click_appends(
    instruction_hits: Seq<bool>,
    slot_hits: Seq<bool>,
    done_hit: bool,
    script: Seq<Instruction>,
    i: int,
)
    requires
        0 <= i < 6,
        i < instruction_hits.len(),
        instruction_hits[i],
        none_hit_below(instruction_hits, i),
    ensures
        click_outcome(instruction_hits, slot_hits, done_hit, script, GamePhase::Plan) == (if script.len()
            < TURN_INSTRUCTIONS {
            (script.push(palette()[i]), GamePhase::Plan)
        } else {
            (script, GamePhase::Plan)
        }),
{
    lemma_first_hit_is_first(instruction_hits, i, 6);
}

/// While planning, with no palette button hit, a click whose first hit
/// script slot is `j` (any filled slot, the last one included) removes
/// exactly the instruction in that slot; the phase stays.
pub proof fn lemma_slot_click_removes(
    instruction_hits: Seq<bool>,
    slot_hits: Seq<bool>,
    done_hit: bool,
    script: Seq<Instruction>,
    j: int,
)
    requires
        none_hit_below(instruction_hits, 6),
        0 <= j < script.len(),
        j < slot_hits.len(),
        slot_hits[j],
        none_hit_below(slot_hits, j),
    ensures
        click_outcome(instruction_hits, slot_hits, done_hit, script, GamePhase::Plan) == (
        script.remove(j), GamePhase::Plan),
        script.remove(j).len() + 1 == script.len(),
        forall|k: int| 0 <= k < j ==> script.remove(j)[k] == script[k],
        forall|k: int| j <= k < script.len() - 1 ==> script.remove(j)[k] == script[k + 1],
{
    lemma_first_hit_none(instruction_hits, 6);
    lemma_first_hit_is_first(slot_hits, j, script.len() as int);
}

/// While planning, with no palette button or filled slot hit, the execute
/// button starts the run exactly when the script is full, and never changes
/// the script; a click that hits nothing changes nothing.
pub proof fn lemma_execute_click(
    instruction_hits: Seq<bool>,
    slot_hits: Seq<bool>,
    done_hit: bool,
    script: Seq<Instruction>,
)
    requires
        none_hit_below(instruction_hits, 6),
        none_hit_below(slot_hits, script.len() as int),
    ensures
        click_outcome(instruction_hits, slot_hits, done_hit, script, GamePhase::Plan) == (script, if done_hit
            && script.len() == TURN_INSTRUCTIONS {
            GamePhase::Execution
        } else {
            GamePhase::Plan
        }),
{
    lemma_first_hit_none(instruction_hits, 6);
    lemma_first_hit_none(slot_hits, script.len() as int);
}

} // verus!

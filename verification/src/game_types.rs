use vstd::prelude::*;

verus! {

/// The two phases of a turn: players plan their scripts, then both scripts run.
#[derive(Clone, Copy, Debug, PartialEq, Eq, Structural)]
pub enum GamePhase {
    Plan,
    Execution,
}

/// A compass direction on the map grid.
#[derive(Clone, Copy, Debug, PartialEq, Eq, Structural)]
pub enum Direction {
    Up,
    Down,
    Left,
    Right,
}

/// One step of a tank's script.
#[derive(Clone, Copy, Debug, PartialEq, Eq, Structural)]
pub enum Instruction {
    Move(Direction),
    Noop,
    Interact,
}

/// The short name shown for an instruction in a script slot.
pub open spec fn label_text(instr: Instruction) -> Seq<char> {
    match instr {
        Instruction::Move(Direction::Up) => "Up"@,
        Instruction::Move(Direction::Down) => "Down"@,
        Instruction::Move(Direction::Left) => "Left"@,
        Instruction::Move(Direction::Right) => "Right"@,
        Instruction::Interact => "Act"@,
        Instruction::Noop => "Wait"@,
    }
}

/// The short name shown for an instruction in a script slot; see `label_text`.
pub fn instruction_label(instr: Instruction) -> (label: &'static str)
    ensures
        label@ == label_text(instr),
{
    match instr {
        Instruction::Move(Direction::Up) => "Up",
        Instruction::Move(Direction::Down) => "Down",
        Instruction::Move(Direction::Left) => "Left",
        Instruction::Move(Direction::Right) => "Right",
        Instruction::Interact => "Act",
        Instruction::Noop => "Wait",
    }
}

} // verus!

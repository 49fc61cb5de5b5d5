use vstd::prelude::*;

use crate::game_types::Direction;
use crate::map::MapPos;

verus! {

/// Number of frames in a tank's body animation.
pub const BODY_FRAMES: usize = 6;

/// A tank: where it stands, where it faces and which animation frame it shows.
pub struct Tank {
    pos: MapPos,
    direction: Direction,
    current_frame: usize,
}

/// What a tank is, seen from outside: position, heading and animation frame.
pub struct TankView {
    pub pos: MapPos,
    pub direction: Direction,
    pub frame: nat,
}

/// The body frame shown after `frame`: the frames run in order and wrap
/// after the last.
pub open spec fn next_frame(frame: nat) -> nat {
    ((frame + 1) % (BODY_FRAMES as nat)) as nat
}

/// The animation walks through every body frame in order: from a frame
/// below the last it goes to the next one, from the last back to the
/// first, and after `BODY_FRAMES` steps it is where it started.
pub proof fn lemma_frames_cycle(frame: nat)
    requires
        frame < BODY_FRAMES,
    ensures
        next_frame(frame) < BODY_FRAMES,
        frame + 1 < BODY_FRAMES ==> next_frame(frame) == frame + 1,
        frame + 1 == BODY_FRAMES ==> next_frame(frame) == 0,
        next_frame(next_frame(next_frame(next_frame(next_frame(next_frame(frame))))))
            == frame,
{
}

impl View for Tank {
    type V = TankView;

    closed spec fn view(&self) -> TankView {
        TankView { pos: self.pos, direction: self.direction, frame: self.current_frame as nat }
    }
}

impl Tank {
    /// The animation frame always names one of the body frames.
    #[verifier::type_invariant]
    spec fn frame_in_range(self) -> bool {
        self.current_frame < BODY_FRAMES
    }

    /// A tank at `pos`, facing right, on its first frame.
    pub fn new(pos: MapPos) -> (t: Tank)
        ensures
            t@ == (TankView { pos, direction: Direction::Right, frame: 0 }),
    {
        Tank { pos, direction: Direction::Right, current_frame: 0 }
    }

    pub fn pos(&self) -> (p: MapPos)
        ensures
            p == self@.pos,
    {
        self.pos
    }

    /// Moves the tank to `pos`, keeping its heading and frame.
    pub fn set_pos(&mut self, pos: MapPos)
        ensures
            final(self)@ == (TankView { pos, ..old(self)@ }),
        no_unwind
    {
        proof {
            use_type_invariant(&*self);
        }
        self.pos = pos;
    }

    pub fn direction(&self) -> (d: Direction)
        ensures
            d == self@.direction,
    {
        self.direction
    }

    /// The frame shown, always below `BODY_FRAMES`.
    pub fn current_frame(&self) -> (f: usize)
        ensures
            f == self@.frame,
            f < BODY_FRAMES,
    {
        proof {
            use_type_invariant(self);
        }
        self.current_frame
    }

    /// Steps the body animation to the next frame, wrapping after the last.
    pub fn advance_frame(&mut self)
        ensures
            final(self)@ == (TankView {
                frame: next_frame(old(self)@.frame),
                ..old(self)@
            }),
            final(self)@.frame < BODY_FRAMES,
        no_unwind
    {
        proof {
            use_type_invariant(&*self);
        }
        self.current_frame = (self.current_frame + 1) % BODY_FRAMES;
    }
}

} // verus!

//! Sprite-sheet frame cycling: which atlas cell a looping animation shows.

use vstd::prelude::*;

verus! {

/// Row length of the character atlas, in cells.
pub const ATLAS_COLUMNS: usize = 12;

/// The contents of an animation: its atlas cells, in order, and the one shown.
pub struct FrameAnimationView {
    pub frames: Seq<usize>,
    pub current_frame: nat,
}

/// A looping animation over a list of atlas cells.
pub struct FrameAnimation {
    frames: Vec<usize>,
    current_frame: usize,
}

/// The frame that follows `current` in a loop of `len` frames.
pub open spec fn cycled_frame(current: nat, len: nat) -> nat {
    (current + 1) % len
}

/// The frame reached after `steps` advances from `current` in a loop of `len` frames.
pub open spec fn frame_after(current: nat, len: nat, steps: nat) -> nat
    decreases steps,
{
    if steps == 0 {
        current
    } else {
        cycled_frame(frame_after(current, len, (steps - 1) as nat), len)
    }
}

impl View for FrameAnimation {
    type V = FrameAnimationView;

    closed spec fn view(&self) -> FrameAnimationView {
        FrameAnimationView { frames: self.frames@, current_frame: self.current_frame as nat }
    }
}

impl FrameAnimation {
    /// The animation has at least one frame and shows one of them.
    pub open spec fn wf(&self) -> bool {
        &&& self@.frames.len() > 0
        &&& self@.current_frame < self@.frames.len()
    }

    /// An animation over `frames`, showing the first.
    pub fn new(frames: Vec<usize>) -> (animation: FrameAnimation)
        requires
            frames.len() > 0,
        ensures
            animation.wf(),
            animation@.frames == frames@,
            animation@.current_frame == 0,
    {
        FrameAnimation { frames, current_frame: 0 }
    }

    /// The cells of the animation, in order.
    pub fn frames(&self) -> (frames: &[usize])
        ensures
            frames@ == self@.frames,
    {
        self.frames.as_slice()
    }

    /// Which of the frames is shown, counted from zero.
    pub fn current_frame(&self) -> (current: usize)
        ensures
            current == self@.current_frame,
    {
        self.current_frame
    }

    /// The atlas cell shown now.
    pub fn sprite_index(&self) -> (index: usize)
        requires
            self.wf(),
        ensures
            index == self@.frames[self@.current_frame as int],
    {
        self.frames[self.current_frame]
    }

    /// Moves to the next frame, back to the first after the last, and
    /// returns the atlas cell to show.
    pub fn advance_frame(&mut self) -> (index: usize)
        requires
            old(self).wf(),
        ensures
            final(self).wf(),
            final(self)@.frames == old(self)@.frames,
            final(self)@.current_frame == cycled_frame(
                old(self)@.current_frame,
                old(self)@.frames.len(),
            ),
            index == final(self)@.frames[final(self)@.current_frame as int],
            old(self)@.current_frame + 1 < old(self)@.frames.len() ==> final(self)@.current_frame
                == old(self)@.current_frame + 1,
            old(self)@.current_frame + 1 == old(self)@.frames.len() ==> final(self)@.current_frame
                == 0,
    {
        let len = self.frames.len();
        assert(self.current_frame < len);
        let next = self.current_frame + 1;
        proof {
            if next == len {
                vstd::arithmetic::div_mod::lemma_mod_self_0(len as int);
            } else {
                vstd::arithmetic::div_mod::lemma_small_mod(next as nat, len as nat);
            }
        }
        self.current_frame = next % len;
        self.frames[self.current_frame]
    }
}

/// The atlas cells of the characters sheet that the game animates.
#[derive(Clone, Copy, Debug)]
pub struct CharacterSheet {
    pub bat_frames: [usize; 3],
}

impl CharacterSheet {
    /// The sheet of a 12-column atlas: the bat flaps over the fourth to
    /// sixth cells of the fifth row.
    pub fn new() -> (sheet: CharacterSheet)
        ensures
            sheet.bat_frames@ == seq![51usize, 52usize, 53usize],
    {
        CharacterSheet {
            bat_frames: [
                ATLAS_COLUMNS * 4 + 3,
                ATLAS_COLUMNS * 4 + 4,
                ATLAS_COLUMNS * 4 + 5,
            ],
        }
    }

    /// The animation a new bat sprite starts with: the bat frames, showing
    /// the first.
    pub fn bat_animation(&self) -> (animation: FrameAnimation)
        ensures
            animation.wf(),
            animation@.frames == self.bat_frames@,
            animation@.current_frame == 0,
    {
        let frames = vstd::slice::slice_to_vec(self.bat_frames.as_slice());
        FrameAnimation::new(frames)
    }
}

} // verus!

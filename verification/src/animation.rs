//! Animation selection: each character state names one animation (a frame
//! sequence played at a fixed period, either cyclic or finite-then-done).
//! The core selects the animation when the state changes and reads its
//! `finished` flag; the host's render loop owns the timer that decides when
//! to advance to the next frame.

use vstd::prelude::*;

verus! {

/// A playing animation: the frame indices into the character's sprite sheet,
/// the period between frames in milliseconds, whether the sequence repeats,
/// the cursor at the next frame to show, and whether a finite sequence has
/// run out.
#[derive(Clone, Debug)]
pub struct Animation {
    pub period_ms: i64,
    pub frames: Vec<usize>,
    pub cyclic: bool,
    pub cursor: usize,
    pub finished: bool,
}

impl Animation {
    /// The cursor never runs past the end of the frame sequence.
    pub open spec fn wf(self) -> bool {
        self.cursor <= self.frames@.len()
    }

    /// A fresh animation, not yet started and not finished.
    pub fn new(period_ms: i64, frames: Vec<usize>, cyclic: bool) -> (a: Animation)
        ensures
            a.period_ms == period_ms,
            a.frames@ == frames@,
            a.cyclic == cyclic,
            a.cursor == 0,
            !a.finished,
            a.wf(),
    {
        Animation { period_ms, frames, cyclic, cursor: 0, finished: false }
    }
}

/// A state's animation, as plain values: the period between frames, the
/// frame sequence, and whether it repeats.
pub trait AnimationState: Sized {
    /// Milliseconds between frames of this state's animation.
    spec fn spec_period(self) -> int;

    /// The frame indices of this state's animation, in play order.
    spec fn spec_frames(self) -> Seq<usize>;

    /// Whether this state's animation repeats from the start when it runs
    /// out of frames.
    spec fn spec_cyclic(self) -> bool;

    /// The animation this state selects, fresh and unstarted.
    fn get_animation(&self) -> (a: Animation)
        ensures
            a.period_ms as int == self.spec_period(),
            a.frames@ == self.spec_frames(),
            a.cyclic == self.spec_cyclic(),
            a.cursor == 0,
            !a.finished,
    ;
}

/// An animation component paired with the state that selected it, as a
/// character carries them from spawn time on.
pub struct AnimationBundle<T: AnimationState> {
    pub animation: Animation,
    pub state: T,
}

impl<T: AnimationState> AnimationBundle<T> {
    /// A character's animation components at spawn: the initial state and
    /// that state's animation, unstarted.
    pub fn new(initial_state: T) -> (b: AnimationBundle<T>)
        ensures
            b.state == initial_state,
            b.animation.period_ms as int == initial_state.spec_period(),
            b.animation.frames@ == initial_state.spec_frames(),
            b.animation.cyclic == initial_state.spec_cyclic(),
            b.animation.cursor == 0,
            !b.animation.finished,
    {
        let animation = initial_state.get_animation();
        AnimationBundle { animation, state: initial_state }
    }
}

/// Cursor position after one frame is consumed: cyclic sequences wrap from
/// the last frame back to the first.
pub open spec fn spec_next_cursor(cursor: int, len: int, cyclic: bool) -> int {
    if cyclic && cursor + 1 == len {
        0
    } else {
        cursor + 1
    }
}

/// Yields the next frame of `a`, advancing the cursor; a finite sequence
/// that has run out yields nothing and is marked finished instead.
pub fn advance_frame(a: &mut Animation) -> (r: Option<usize>)
    requires
        old(a).wf(),
    ensures
        final(a).wf(),
        final(a).period_ms == old(a).period_ms,
        final(a).frames@ == old(a).frames@,
        final(a).cyclic == old(a).cyclic,
        old(a).cursor < old(a).frames@.len() ==> {
            &&& r == Some(old(a).frames@[old(a).cursor as int])
            &&& final(a).cursor == spec_next_cursor(
                old(a).cursor as int,
                old(a).frames@.len() as int,
                old(a).cyclic,
            )
            &&& final(a).finished == old(a).finished
        },
        old(a).cursor >= old(a).frames@.len() ==> {
            &&& r is None
            &&& final(a).cursor == old(a).cursor
            &&& final(a).finished
        },
{
    if a.cursor < a.frames.len() {
        let frame = a.frames[a.cursor];
        if a.cyclic && a.cursor + 1 == a.frames.len() {
            a.cursor = 0;
        } else {
            a.cursor = a.cursor + 1;
        }
        Some(frame)
    } else {
        a.finished = true;
        None
    }
}

/// Reaction to a state change: replaces the running animation with the new
/// state's and yields its first frame for the sprite, or marks an empty
/// sequence finished at once. Runs only for characters whose state changed
/// this tick.
pub fn update_animation<T: AnimationState>(animation: &mut Animation, state: &T) -> (r: Option<
    usize,
>)
    ensures
        final(animation).wf(),
        final(animation).period_ms as int == state.spec_period(),
        final(animation).frames@ == state.spec_frames(),
        final(animation).cyclic == state.spec_cyclic(),
        state.spec_frames().len() > 0 ==> {
            &&& r == Some(state.spec_frames()[0])
            &&& final(animation).cursor == spec_next_cursor(
                0,
                state.spec_frames().len() as int,
                state.spec_cyclic(),
            )
            &&& !final(animation).finished
        },
        state.spec_frames().len() == 0 ==> {
            &&& r is None
            &&& final(animation).finished
        },
{
    *animation = state.get_animation();
    advance_frame(animation)
}

} // verus!

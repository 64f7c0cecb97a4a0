//! Sprite animation: a table from stance to animation, and the state of one
//! animated sprite.

use crate::player::input::PlayerState;
use crate::timing::{carried, wraps, AnimationTimer};
use vstd::arithmetic::div_mod::{lemma_fundamental_div_mod, lemma_fundamental_div_mod_converse};
use vstd::prelude::*;

verus! {

/// Identifies a loaded sprite sheet.
#[derive(Clone, Copy, Debug, PartialEq, Eq, Structural, Hash)]
pub struct AtlasId(pub u32);

/// How a sprite is mirrored when drawn.
#[derive(Clone, Copy, Debug, PartialEq, Eq, Structural, Hash)]
pub enum AnimationFlip {
    False,
    XAxis,
}

/// The frames of one animation on its sheet: `first` to `last`, both included.
#[derive(Clone, Copy, Debug, PartialEq, Eq, Structural, Hash)]
pub struct AnimationIndices {
    first: usize,
    last: usize,
}

impl AnimationIndices {
    #[verifier::type_invariant]
    spec fn inv(self) -> bool {
        self.well_formed()
    }

    /// The range holds at least one frame.
    pub closed spec fn well_formed(self) -> bool {
        self.first <= self.last
    }

    pub closed spec fn spec_first(self) -> usize {
        self.first
    }

    pub closed spec fn spec_last(self) -> usize {
        self.last
    }

    /// Number of frames in the range.
    pub open spec fn spec_len(self) -> int {
        self.spec_last() - self.spec_first() + 1
    }

    /// `frame` lies in the range.
    pub open spec fn spec_contains(self, frame: usize) -> bool {
        self.spec_first() <= frame <= self.spec_last()
    }

    /// The range from `first` to `last`.
    pub closed spec fn spec_new(first: usize, last: usize) -> AnimationIndices {
        AnimationIndices { first, last }
    }

    /// What `spec_new` makes.
    pub proof fn lemma_spec_new(first: usize, last: usize)
        ensures
            AnimationIndices::spec_new(first, last).spec_first() == first,
            AnimationIndices::spec_new(first, last).spec_last() == last,
            AnimationIndices::spec_new(first, last).well_formed() <==> first <= last,
    {
    }

    /// The range from `first` to `last`, unless it would be empty.
    pub fn new(first: usize, last: usize) -> (indices: Option<AnimationIndices>)
        ensures
            indices is Some <==> first <= last,
            indices matches Some(i) ==> i == AnimationIndices::spec_new(first, last)
                && i.spec_first() == first && i.spec_last() == last && i.well_formed(),
    {
        if first <= last {
            Some(AnimationIndices { first, last })
        } else {
            None
        }
    }

    #[verifier::when_used_as_spec(spec_first)]
    pub fn first(self) -> (first: usize)
        ensures
            first == self.spec_first(),
            self.well_formed(),
    {
        proof {
            use_type_invariant(&self);
        }
        self.first
    }

    #[verifier::when_used_as_spec(spec_last)]
    pub fn last(self) -> (last: usize)
        ensures
            last == self.spec_last(),
            self.well_formed(),
    {
        proof {
            use_type_invariant(&self);
        }
        self.last
    }

    /// What `well_formed` says, over the two ends.
    pub proof fn lemma_well_formed(self)
        ensures
            self.well_formed() <==> self.spec_first() <= self.spec_last(),
    {
    }
}

/// What is drawn for one stance: the sheet, the frames on it, the mirroring.
#[derive(Clone, Copy, Debug, PartialEq, Eq, Structural, Hash)]
pub struct AnimationDescriptor {
    pub atlas: AtlasId,
    pub indices: AnimationIndices,
    pub flip: AnimationFlip,
}

/// The frame that follows `frame` in `indices`: the next one, or the first
/// after the last.
pub open spec fn next_frame(indices: AnimationIndices, frame: usize) -> usize {
    if frame == indices.spec_last() {
        indices.spec_first()
    } else {
        (frame + 1) as usize
    }
}

/// The frame reached from `frame` after `steps` steps of `next_frame`.
pub open spec fn frame_after(indices: AnimationIndices, frame: usize, steps: nat) -> usize
    decreases steps,
{
    if steps == 0 {
        frame
    } else {
        next_frame(indices, frame_after(indices, frame, (steps - 1) as nat))
    }
}

/// The table from stance to animation, filled once when a player is set up.
pub struct AnimationStateMachine {
    idle: Option<AnimationDescriptor>,
    front: Option<AnimationDescriptor>,
    back: Option<AnimationDescriptor>,
    left_front: Option<AnimationDescriptor>,
    right_front: Option<AnimationDescriptor>,
    left_back: Option<AnimationDescriptor>,
    right_back: Option<AnimationDescriptor>,
}

impl View for AnimationStateMachine {
    type V = Map<PlayerState, AnimationDescriptor>;

    closed spec fn view(&self) -> Map<PlayerState, AnimationDescriptor> {
        Map::new(
            |state: PlayerState| self.slot(state) is Some,
            |state: PlayerState| self.slot(state)->0,
        )
    }
}

impl AnimationStateMachine {
    spec fn slot(&self, state: PlayerState) -> Option<AnimationDescriptor> {
        match state {
            PlayerState::Idle => self.idle,
            PlayerState::Front => self.front,
            PlayerState::Back => self.back,
            PlayerState::LeftFront => self.left_front,
            PlayerState::RightFront => self.right_front,
            PlayerState::LeftBack => self.left_back,
            PlayerState::RightBack => self.right_back,
        }
    }

    /// Every stance has an animation.
    pub open spec fn spec_is_complete(&self) -> bool {
        forall|state: PlayerState| #[trigger] self@.contains_key(state)
    }

    /// The empty table.
    pub fn new() -> (machine: AnimationStateMachine)
        ensures
            machine@ == Map::<PlayerState, AnimationDescriptor>::empty(),
    {
        let machine = AnimationStateMachine {
            idle: None,
            front: None,
            back: None,
            left_front: None,
            right_front: None,
            left_back: None,
            right_back: None,
        };
        assert(machine@ =~= Map::<PlayerState, AnimationDescriptor>::empty());
        machine
    }

    /// Binds `state` to `descriptor`, in place of what it was bound to.
    pub fn insert(&mut self, state: PlayerState, descriptor: AnimationDescriptor)
        ensures
            final(self)@ == old(self)@.insert(state, descriptor),
    {
        match state {
            PlayerState::Idle => self.idle = Some(descriptor),
            PlayerState::Front => self.front = Some(descriptor),
            PlayerState::Back => self.back = Some(descriptor),
            PlayerState::LeftFront => self.left_front = Some(descriptor),
            PlayerState::RightFront => self.right_front = Some(descriptor),
            PlayerState::LeftBack => self.left_back = Some(descriptor),
            PlayerState::RightBack => self.right_back = Some(descriptor),
        }
        assert(self@ =~= old(self)@.insert(state, descriptor));
    }

    /// The animation of `state`, if the table has one.
    pub fn get(&self, state: &PlayerState) -> (descriptor: Option<AnimationDescriptor>)
        ensures
            descriptor == (if self@.contains_key(*state) {
                Some(self@[*state])
            } else {
                None
            }),
            descriptor matches Some(d) ==> d.indices.well_formed(),
    {
        let descriptor = match state {
            PlayerState::Idle => self.idle,
            PlayerState::Front => self.front,
            PlayerState::Back => self.back,
            PlayerState::LeftFront => self.left_front,
            PlayerState::RightFront => self.right_front,
            PlayerState::LeftBack => self.left_back,
            PlayerState::RightBack => self.right_back,
        };
        proof {
            if let Some(d) = descriptor {
                use_type_invariant(&d.indices);
            }
        }
        descriptor
    }

    /// The table has an animation for `state`.
    pub fn contains(&self, state: &PlayerState) -> (found: bool)
        ensures
            found == self@.contains_key(*state),
    {
        self.get(state).is_some()
    }

    /// Every stance has an animation.
    #[verifier::when_used_as_spec(spec_is_complete)]
    pub fn is_complete(&self) -> (complete: bool)
        ensures
            complete == self.spec_is_complete(),
    {
        let complete = self.idle.is_some() && self.front.is_some() && self.back.is_some()
            && self.left_front.is_some() && self.right_front.is_some()
            && self.left_back.is_some() && self.right_back.is_some();
        proof {
            if complete {
                assert forall|state: PlayerState| #[trigger] self@.contains_key(state) by {
                    assert(self.slot(state) is Some);
                }
            } else {
                let missing = if self.idle is None {
                    PlayerState::Idle
                } else if self.front is None {
                    PlayerState::Front
                } else if self.back is None {
                    PlayerState::Back
                } else if self.left_front is None {
                    PlayerState::LeftFront
                } else if self.right_front is None {
                    PlayerState::RightFront
                } else if self.left_back is None {
                    PlayerState::LeftBack
                } else {
                    PlayerState::RightBack
                };
                assert(!self@.contains_key(missing));
            }
        }
        complete
    }
}

/// The animation of one sprite: its stance, the animation that the table
/// gave for it, the frame on show and the timer that paces the frames.
pub struct AnimationState {
    state: PlayerState,
    descriptor: AnimationDescriptor,
    frame: usize,
    timer: AnimationTimer,
}

/// What an `AnimationState` holds.
pub struct AnimationStateView {
    pub state: PlayerState,
    pub descriptor: AnimationDescriptor,
    pub frame: usize,
    /// Time that one frame stays on show, in nanoseconds.
    pub duration: u64,
    /// Time that the current frame has been on show, in nanoseconds.
    pub elapsed: u64,
}

impl AnimationStateView {
    /// The frame on show belongs to the animation, and the elapsed time is
    /// less than one frame's time.
    pub open spec fn well_formed(self) -> bool {
        &&& self.descriptor.indices.well_formed()
        &&& self.descriptor.indices.spec_contains(self.frame)
        &&& if self.duration == 0 {
            self.elapsed == 0
        } else {
            self.elapsed < self.duration
        }
    }

    /// The state after `delta` nanoseconds: the timer moves on, and where it
    /// completes a period the next frame comes on show.
    pub open spec fn ticked(self, delta: u64) -> AnimationStateView {
        AnimationStateView {
            frame: if wraps(self.duration, self.elapsed, delta) > 0 {
                next_frame(self.descriptor.indices, self.frame)
            } else {
                self.frame
            },
            elapsed: carried(self.duration, self.elapsed, delta) as u64,
            ..self
        }
    }

    /// The state after `ticks` steps of `delta` nanoseconds each.
    pub open spec fn ticked_times(self, delta: u64, ticks: nat) -> AnimationStateView
        decreases ticks,
    {
        if ticks == 0 {
            self
        } else {
            self.ticked_times(delta, (ticks - 1) as nat).ticked(delta)
        }
    }

    /// The state after the sprite is told to show `state`: unchanged where
    /// that is its stance already; else the animation of `state` from its
    /// first frame, with no time elapsed.
    pub open spec fn entered(
        self,
        machine: Map<PlayerState, AnimationDescriptor>,
        state: PlayerState,
    ) -> AnimationStateView {
        if state == self.state {
            self
        } else {
            AnimationStateView {
                state,
                descriptor: machine[state],
                frame: machine[state].indices.spec_first(),
                duration: self.duration,
                elapsed: 0,
            }
        }
    }
}

impl View for AnimationState {
    type V = AnimationStateView;

    closed spec fn view(&self) -> AnimationStateView {
        AnimationStateView {
            state: self.state,
            descriptor: self.descriptor,
            frame: self.frame,
            duration: self.timer.spec_duration(),
            elapsed: self.timer.spec_elapsed(),
        }
    }
}

impl AnimationState {
    #[verifier::type_invariant]
    spec fn inv(self) -> bool {
        &&& self.descriptor.indices.well_formed()
        &&& self.descriptor.indices.spec_contains(self.frame)
        &&& self.timer.well_formed()
    }

    /// A sprite in `state`, on the first frame of the animation that
    /// `machine` has for it; each frame stays `frame_duration` nanoseconds.
    pub fn new(state: &PlayerState, machine: &AnimationStateMachine, frame_duration: u64) -> (animation:
        AnimationState)
        requires
            machine@.contains_key(*state),
        ensures
            animation@ == (AnimationStateView {
                state: *state,
                descriptor: machine@[*state],
                frame: machine@[*state].indices.spec_first(),
                duration: frame_duration,
                elapsed: 0,
            }),
            animation@.well_formed(),
    {
        let descriptor = machine.get(state).unwrap();
        let timer = AnimationTimer::new(frame_duration);
        proof {
            timer.lemma_well_formed();
        }
        AnimationState { state: *state, descriptor, frame: descriptor.indices.first(), timer }
    }

    /// Tells the sprite to show `state`. A change of stance starts the new
    /// animation from its first frame; the same stance changes nothing.
    pub fn set_state(&mut self, state: &PlayerState, machine: &AnimationStateMachine)
        requires
            machine@.contains_key(*state),
        ensures
            final(self)@ == old(self)@.entered(machine@, *state),
            old(self)@.well_formed(),
            final(self)@.well_formed(),
    {
        proof {
            use_type_invariant(&*self);
            self.timer.lemma_well_formed();
        }
        if *state != self.state {
            let descriptor = machine.get(state).unwrap();
            let timer = AnimationTimer::new(self.timer.duration());
            proof {
                timer.lemma_well_formed();
            }
            *self = AnimationState {
                state: *state,
                descriptor,
                frame: descriptor.indices.first(),
                timer,
            };
        }
    }

    /// The stance on show.
    pub fn state(&self) -> (state: PlayerState)
        ensures
            state == self@.state,
    {
        self.state
    }

    /// The animation on show.
    pub fn descriptor(&self) -> (descriptor: AnimationDescriptor)
        ensures
            descriptor == self@.descriptor,
            self@.well_formed(),
    {
        proof {
            use_type_invariant(self);
            self.timer.lemma_well_formed();
        }
        self.descriptor
    }

    /// The frame on show, as an index into the sheet.
    pub fn frame_index(&self) -> (frame: usize)
        ensures
            frame == self@.frame,
            self@.descriptor.indices.spec_contains(frame),
            self@.well_formed(),
    {
        proof {
            use_type_invariant(self);
            self.timer.lemma_well_formed();
        }
        self.frame
    }

    /// The timer that paces the frames.
    pub fn timer(&self) -> (timer: AnimationTimer)
        ensures
            timer.spec_duration() == self@.duration,
            timer.spec_elapsed() == self@.elapsed,
    {
        self.timer
    }
}

/// Moves one sprite on by `delta` nanoseconds: its timer advances, and when
/// the timer completes a period the next frame comes on show, the first one
/// after the last.
pub fn animate_sprite(delta: u64, animation: &mut AnimationState)
    ensures
        final(animation)@ == old(animation)@.ticked(delta),
        old(animation)@.well_formed(),
        final(animation)@.well_formed(),
{
    proof {
        use_type_invariant(&*animation);
        animation.timer.lemma_well_formed();
    }
    let mut timer = animation.timer;
    let finished = timer.tick(delta);
    proof {
        timer.lemma_well_formed();
    }
    let indices = animation.descriptor.indices;
    let frame = if finished {
        if animation.frame == indices.last() {
            indices.first()
        } else {
            animation.frame + 1
        }
    } else {
        animation.frame
    };
    *animation = AnimationState {
        state: animation.state,
        descriptor: animation.descriptor,
        frame,
        timer,
    };
}

/// Stepping through an animation visits its frames in order and starts over
/// after the last: from a frame of the range, `steps` steps lead to the frame
/// that lies `steps` further on, counted round the range.
pub proof fn lemma_frames_cycle(indices: AnimationIndices, frame: usize, steps: nat)
    requires
        indices.well_formed(),
        indices.spec_contains(frame),
    ensures
        indices.spec_contains(frame_after(indices, frame, steps)),
        frame_after(indices, frame, steps) == indices.spec_first() + (frame - indices.spec_first()
            + steps) % indices.spec_len(),
    decreases steps,
{
    indices.lemma_well_formed();
    let first = indices.spec_first() as int;
    let len = indices.spec_len();
    let offset = frame - first;
    if steps == 0 {
        lemma_fundamental_div_mod_converse(offset, len, 0, offset);
    } else {
        let before = (steps - 1) as nat;
        lemma_frames_cycle(indices, frame, before);
        let q = (offset + before) / len;
        let r = (offset + before) % len;
        lemma_fundamental_div_mod(offset + before, len);
        assert(0 <= r < len) by {
            vstd::arithmetic::div_mod::lemma_mod_pos_bound(offset + before, len);
        }
        if r + 1 == len {
            assert(offset + steps == len * (q + 1) + 0) by (nonlinear_arith)
                requires
                    offset + before == len * q + r,
                    r + 1 == len,
                    steps == before + 1,
            ;
            lemma_fundamental_div_mod_converse(offset + steps, len, q + 1, 0);
        } else {
            lemma_fundamental_div_mod_converse(offset + steps, len, q, r + 1);
        }
    }
}

/// A step of exactly one frame's time brings the next frame on show and
/// leaves the rest as it was.
pub proof fn lemma_full_period_shows_next_frame(animation: AnimationStateView)
    requires
        animation.well_formed(),
    ensures
        animation.ticked(animation.duration) == (AnimationStateView {
            frame: next_frame(animation.descriptor.indices, animation.frame),
            ..animation
        }),
        animation.ticked(animation.duration).well_formed(),
{
    let d = animation.duration as int;
    let e = animation.elapsed as int;
    animation.descriptor.indices.lemma_well_formed();
    if d > 0 {
        assert(e + d == d * 1 + e) by (nonlinear_arith);
        lemma_fundamental_div_mod_converse(e + d, d, 1, e);
        assert(1int % 0x1_0000_0000 == 1);
    }
}

/// Animations loop: advancing time by one frame's time, again and again,
/// shows the frames of the range in order, wrapping from the last to the
/// first, with none left out and none from outside the range.
pub proof fn lemma_animation_loops(animation: AnimationStateView, ticks: nat)
    requires
        animation.well_formed(),
    ensures
        animation.ticked_times(animation.duration, ticks) == (AnimationStateView {
            frame: frame_after(animation.descriptor.indices, animation.frame, ticks),
            ..animation
        }),
        animation.ticked_times(animation.duration, ticks).well_formed(),
        animation.ticked_times(animation.duration, ticks).frame
            == animation.descriptor.indices.spec_first() + (animation.frame
            - animation.descriptor.indices.spec_first() + ticks)
            % animation.descriptor.indices.spec_len(),
    decreases ticks,
{
    lemma_frames_cycle(animation.descriptor.indices, animation.frame, ticks);
    if ticks > 0 {
        let before = (ticks - 1) as nat;
        lemma_animation_loops(animation, before);
        lemma_full_period_shows_next_frame(animation.ticked_times(animation.duration, before));
    }
}

} // verus!

use topdown_core::animation::{
    animate_sprite, AnimationDescriptor, AnimationFlip, AnimationIndices, AnimationState,
    AnimationStateMachine, AtlasId,
};
use topdown_core::player::input::PlayerState;
use topdown_core::timing::AnimationTimer;

const HALF_SECOND: u64 = 500_000_000;

fn descriptor(atlas: u32, first: usize, last: usize, flip: AnimationFlip) -> AnimationDescriptor {
    AnimationDescriptor {
        atlas: AtlasId(atlas),
        indices: AnimationIndices::new(first, last).unwrap(),
        flip,
    }
}

fn machine_with(state: PlayerState, first: usize, last: usize) -> AnimationStateMachine {
    let mut machine = AnimationStateMachine::new();
    machine.insert(state, descriptor(1, first, last, AnimationFlip::False));
    machine
}

#[test]
fn indices_need_a_frame() {
    assert!(AnimationIndices::new(5, 2).is_none());
    let one = AnimationIndices::new(4, 4).unwrap();
    assert_eq!(one.first(), 4);
    assert_eq!(one.last(), 4);
    let some = AnimationIndices::new(0, 3).unwrap();
    assert_eq!((some.first(), some.last()), (0, 3));
}

#[test]
fn timer_wraps_and_keeps_the_remainder() {
    let mut timer = AnimationTimer::new(HALF_SECOND);
    assert_eq!(timer.duration(), HALF_SECOND);
    assert_eq!(timer.elapsed(), 0);
    assert!(!timer.tick(200_000_000));
    assert_eq!(timer.elapsed(), 200_000_000);
    assert!(!timer.tick(200_000_000));
    assert_eq!(timer.elapsed(), 400_000_000);
    assert!(timer.tick(200_000_000));
    assert_eq!(timer.elapsed(), 100_000_000);
    assert!(!timer.tick(0));
    assert_eq!(timer.elapsed(), 100_000_000);
}

#[test]
fn timer_on_the_exact_period_finishes_with_nothing_left() {
    let mut timer = AnimationTimer::new(HALF_SECOND);
    assert!(timer.tick(HALF_SECOND));
    assert_eq!(timer.elapsed(), 0);
    assert!(timer.tick(3 * HALF_SECOND + 7));
    assert_eq!(timer.elapsed(), 7);
}

#[test]
fn timer_of_period_zero_always_finishes() {
    let mut timer = AnimationTimer::new(0);
    assert!(timer.tick(0));
    assert_eq!(timer.elapsed(), 0);
    assert!(timer.tick(12_345));
    assert_eq!(timer.elapsed(), 0);
}

#[test]
fn timer_counts_periods_in_32_bits() {
    // 2^32 periods of one nanosecond in one step: the count wraps to zero.
    let mut timer = AnimationTimer::new(1);
    assert!(!timer.tick(1 << 32));
    assert_eq!(timer.elapsed(), 0);
    assert!(timer.tick((1 << 32) + 1));
    assert_eq!(timer.elapsed(), 0);
}

#[test]
fn timer_takes_the_largest_step() {
    let mut timer = AnimationTimer::new(u64::MAX);
    assert!(!timer.tick(u64::MAX - 1));
    assert_eq!(timer.elapsed(), u64::MAX - 1);
    // (MAX - 1) + MAX is one period and MAX - 1 more.
    assert!(timer.tick(u64::MAX));
    assert_eq!(timer.elapsed(), u64::MAX - 1);
    assert!(timer.tick(2));
    assert_eq!(timer.elapsed(), 1);
}

#[test]
fn animation_loops_through_its_range() {
    let machine = machine_with(PlayerState::Idle, 0, 3);
    let mut animation = AnimationState::new(&PlayerState::Idle, &machine, HALF_SECOND);
    assert_eq!(animation.frame_index(), 0);
    let mut seen = Vec::new();
    for _ in 0..9 {
        animate_sprite(HALF_SECOND, &mut animation);
        seen.push(animation.frame_index());
    }
    assert_eq!(seen, vec![1, 2, 3, 0, 1, 2, 3, 0, 1]);
    assert_eq!(animation.timer().elapsed(), 0);
    assert_eq!(animation.state(), PlayerState::Idle);
}

#[test]
fn animation_loops_in_a_range_that_starts_late() {
    let machine = machine_with(PlayerState::Front, 6, 8);
    let mut animation = AnimationState::new(&PlayerState::Front, &machine, 100);
    assert_eq!(animation.frame_index(), 6);
    let mut seen = Vec::new();
    for _ in 0..7 {
        animate_sprite(100, &mut animation);
        seen.push(animation.frame_index());
    }
    assert_eq!(seen, vec![7, 8, 6, 7, 8, 6, 7]);
}

#[test]
fn animation_of_one_frame_stays_on_it() {
    let machine = machine_with(PlayerState::Back, 5, 5);
    let mut animation = AnimationState::new(&PlayerState::Back, &machine, 100);
    for _ in 0..3 {
        animate_sprite(100, &mut animation);
        assert_eq!(animation.frame_index(), 5);
    }
}

#[test]
fn animation_waits_for_the_timer() {
    let machine = machine_with(PlayerState::Idle, 0, 3);
    let mut animation = AnimationState::new(&PlayerState::Idle, &machine, HALF_SECOND);
    animate_sprite(200_000_000, &mut animation);
    assert_eq!(animation.frame_index(), 0);
    assert_eq!(animation.timer().elapsed(), 200_000_000);
    animate_sprite(200_000_000, &mut animation);
    assert_eq!(animation.frame_index(), 0);
    animate_sprite(200_000_000, &mut animation);
    assert_eq!(animation.frame_index(), 1);
    assert_eq!(animation.timer().elapsed(), 100_000_000);
}

#[test]
fn animation_moves_one_frame_however_long_the_step() {
    let machine = machine_with(PlayerState::Idle, 0, 3);
    let mut animation = AnimationState::new(&PlayerState::Idle, &machine, HALF_SECOND);
    animate_sprite(3 * HALF_SECOND, &mut animation);
    assert_eq!(animation.frame_index(), 1);
    assert_eq!(animation.timer().elapsed(), 0);
}

#[test]
fn change_of_stance_starts_the_new_animation() {
    let mut machine = AnimationStateMachine::new();
    machine.insert(PlayerState::Idle, descriptor(1, 0, 3, AnimationFlip::False));
    machine.insert(PlayerState::LeftFront, descriptor(2, 10, 15, AnimationFlip::XAxis));
    let mut animation = AnimationState::new(&PlayerState::Idle, &machine, HALF_SECOND);
    animate_sprite(HALF_SECOND + 100, &mut animation);
    animate_sprite(HALF_SECOND, &mut animation);
    assert_eq!(animation.frame_index(), 2);
    assert_eq!(animation.timer().elapsed(), 100);

    animation.set_state(&PlayerState::Idle, &machine);
    assert_eq!(animation.frame_index(), 2);
    assert_eq!(animation.timer().elapsed(), 100);

    animation.set_state(&PlayerState::LeftFront, &machine);
    assert_eq!(animation.state(), PlayerState::LeftFront);
    assert_eq!(animation.frame_index(), 10);
    assert_eq!(animation.timer().elapsed(), 0);
    assert_eq!(animation.timer().duration(), HALF_SECOND);
    assert_eq!(animation.descriptor(), descriptor(2, 10, 15, AnimationFlip::XAxis));

    for expected in [11, 12, 13, 14, 15, 10] {
        animate_sprite(HALF_SECOND, &mut animation);
        assert_eq!(animation.frame_index(), expected);
    }
}

#[test]
fn table_holds_what_was_inserted() {
    let mut machine = AnimationStateMachine::new();
    assert!(!machine.contains(&PlayerState::Idle));
    assert_eq!(machine.get(&PlayerState::Idle), None);
    assert!(!machine.is_complete());

    machine.insert(PlayerState::Idle, descriptor(1, 0, 3, AnimationFlip::False));
    assert!(machine.contains(&PlayerState::Idle));
    assert!(!machine.contains(&PlayerState::Front));
    assert_eq!(machine.get(&PlayerState::Idle), Some(descriptor(1, 0, 3, AnimationFlip::False)));

    machine.insert(PlayerState::Idle, descriptor(9, 2, 4, AnimationFlip::XAxis));
    assert_eq!(machine.get(&PlayerState::Idle), Some(descriptor(9, 2, 4, AnimationFlip::XAxis)));
    assert!(!machine.is_complete());
}

#[test]
fn table_is_complete_with_every_stance() {
    let states = [
        PlayerState::Idle,
        PlayerState::Front,
        PlayerState::Back,
        PlayerState::LeftFront,
        PlayerState::RightFront,
        PlayerState::LeftBack,
        PlayerState::RightBack,
    ];
    let mut machine = AnimationStateMachine::new();
    for (i, state) in states.iter().enumerate() {
        assert!(!machine.is_complete());
        machine.insert(*state, descriptor(i as u32, i, i + 1, AnimationFlip::False));
    }
    assert!(machine.is_complete());
    for (i, state) in states.iter().enumerate() {
        assert_eq!(machine.get(state), Some(descriptor(i as u32, i, i + 1, AnimationFlip::False)));
    }
}

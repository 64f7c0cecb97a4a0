//! What a player is made of when it enters the world.

use crate::animation::{
    AnimationDescriptor, AnimationFlip, AnimationIndices, AnimationState, AnimationStateMachine,
    AnimationStateView, AtlasId,
};
use crate::geometry::Position;
use crate::player::input::PlayerState;
use crate::player::stats::PlayerStats;
use crate::player::weapon::GunEntity;
use vstd::prelude::*;

verus! {

/// Time that one frame of a player's animation stays on show, in
/// nanoseconds.
pub const FRAME_DURATION: u64 = 500_000_000;

/// The sprite sheets of a player.
#[derive(Clone, Copy, Debug, PartialEq, Eq, Structural, Hash)]
pub struct PlayerAssets {
    pub idle: AtlasId,
    pub side_front: AtlasId,
    pub side_back: AtlasId,
    pub back: AtlasId,
    pub front: AtlasId,
}

/// Where a player's input comes from.
#[derive(Clone, Copy, Debug, PartialEq, Eq, Structural, Hash)]
pub enum InputSource {
    Controller,
    Mouse,
}

/// The animation that a player shows in each stance: four frames while
/// idle, six in every other stance, and the stances to the left mirrored.
pub open spec fn player_animation(assets: PlayerAssets, state: PlayerState) -> AnimationDescriptor {
    match state {
        PlayerState::Idle => AnimationDescriptor {
            atlas: assets.idle,
            indices: AnimationIndices::spec_new(0, 3),
            flip: AnimationFlip::False,
        },
        PlayerState::LeftFront => AnimationDescriptor {
            atlas: assets.side_front,
            indices: AnimationIndices::spec_new(0, 5),
            flip: AnimationFlip::XAxis,
        },
        PlayerState::RightFront => AnimationDescriptor {
            atlas: assets.side_back,
            indices: AnimationIndices::spec_new(0, 5),
            flip: AnimationFlip::False,
        },
        PlayerState::LeftBack => AnimationDescriptor {
            atlas: assets.side_back,
            indices: AnimationIndices::spec_new(0, 5),
            flip: AnimationFlip::XAxis,
        },
        PlayerState::RightBack => AnimationDescriptor {
            atlas: assets.back,
            indices: AnimationIndices::spec_new(0, 5),
            flip: AnimationFlip::False,
        },
        PlayerState::Front => AnimationDescriptor {
            atlas: assets.front,
            indices: AnimationIndices::spec_new(0, 5),
            flip: AnimationFlip::False,
        },
        PlayerState::Back => AnimationDescriptor {
            atlas: assets.back,
            indices: AnimationIndices::spec_new(0, 5),
            flip: AnimationFlip::False,
        },
    }
}

/// What is spawned for a player.
pub struct PlayerBundle {
    pub name: String,
    pub state: AnimationState,
    pub state_machine: AnimationStateMachine,
    pub player: PlayerStats,
    pub player_position: Position,
    pub current_gun: GunEntity,
    pub input: InputSource,
}

impl PlayerBundle {
    /// A new player that holds the weapon `gun`: idle, on the first frame,
    /// with the starting stats, at the origin, steered by a controller or by
    /// the mouse, and with an animation for every stance.
    pub fn setup(controller: bool, assets: &PlayerAssets, gun: GunEntity) -> (bundle: PlayerBundle)
        ensures
            bundle.name@ == "Player"@,
            bundle.state_machine@ == Map::<PlayerState, AnimationDescriptor>::total(
                |state: PlayerState| player_animation(*assets, state),
            ),
            bundle.state_machine.spec_is_complete(),
            bundle.state@ == (AnimationStateView {
                state: PlayerState::Idle,
                descriptor: player_animation(*assets, PlayerState::Idle),
                frame: 0,
                duration: FRAME_DURATION,
                elapsed: 0,
            }),
            bundle.state@.well_formed(),
            bundle.player == PlayerStats::spec_default(),
            bundle.player_position.spec_x() == 0,
            bundle.player_position.spec_y() == 0,
            bundle.current_gun == gun,
            bundle.input == (if controller {
                InputSource::Controller
            } else {
                InputSource::Mouse
            }),
    {
        let mut state_machine = AnimationStateMachine::new();

        state_machine.insert(
            PlayerState::Idle,
            AnimationDescriptor {
                atlas: assets.idle,
                indices: AnimationIndices::new(0, 3).unwrap(),
                flip: AnimationFlip::False,
            },
        );
        state_machine.insert(
            PlayerState::LeftFront,
            AnimationDescriptor {
                atlas: assets.side_front,
                indices: AnimationIndices::new(0, 5).unwrap(),
                flip: AnimationFlip::XAxis,
            },
        );
        state_machine.insert(
            PlayerState::RightFront,
            AnimationDescriptor {
                atlas: assets.side_back,
                indices: AnimationIndices::new(0, 5).unwrap(),
                flip: AnimationFlip::False,
            },
        );
        state_machine.insert(
            PlayerState::LeftBack,
            AnimationDescriptor {
                atlas: assets.side_back,
                indices: AnimationIndices::new(0, 5).unwrap(),
                flip: AnimationFlip::XAxis,
            },
        );
        state_machine.insert(
            PlayerState::RightBack,
            AnimationDescriptor {
                atlas: assets.back,
                indices: AnimationIndices::new(0, 5).unwrap(),
                flip: AnimationFlip::False,
            },
        );
        state_machine.insert(
            PlayerState::Front,
            AnimationDescriptor {
                atlas: assets.front,
                indices: AnimationIndices::new(0, 5).unwrap(),
                flip: AnimationFlip::False,
            },
        );
        state_machine.insert(
            PlayerState::Back,
            AnimationDescriptor {
                atlas: assets.back,
                indices: AnimationIndices::new(0, 5).unwrap(),
                flip: AnimationFlip::False,
            },
        );
        proof {
            assert(state_machine@ =~= Map::<PlayerState, AnimationDescriptor>::total(
                |state: PlayerState| player_animation(*assets, state),
            ));
            AnimationIndices::lemma_spec_new(0, 3);
        }

        let state = AnimationState::new(&PlayerState::Idle, &state_machine, FRAME_DURATION);
        let input = if controller {
            InputSource::Controller
        } else {
            InputSource::Mouse
        };
        PlayerBundle {
            name: "Player".to_owned(),
            state,
            state_machine,
            player: PlayerStats::default(),
            player_position: Position::zero(),
            current_gun: gun,
            input,
        }
    }
}

} // verus!

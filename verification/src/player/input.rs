//! What a player asks for on one tick, and the stance the movement code
//! derives from it.

use vstd::prelude::*;

verus! {

/// The stance of a player; each one has a sprite animation of its own.
#[derive(Clone, Copy, Debug, PartialEq, Eq, Structural, Hash)]
pub enum PlayerState {
    Idle,
    Front,
    Back,
    LeftFront,
    RightFront,
    LeftBack,
    RightBack,
}

/// The things a player can ask the weapon and pickup rules for.
#[derive(Clone, Copy, Debug, PartialEq, Eq, Structural, Hash)]
pub enum PlayerActions {
    Shoot,
    Reload,
    Pickup,
}

/// Where a button stands on this tick.
#[derive(Clone, Copy, Debug, PartialEq, Eq, Structural, Hash)]
pub enum ButtonState {
    /// Went down on this tick.
    JustPressed,
    /// Went down on an earlier tick and is still down.
    Pressed,
    /// Went up on this tick.
    JustReleased,
    /// Is up.
    Released,
}

impl ButtonState {
    /// The button is down.
    pub open spec fn spec_pressed(self) -> bool {
        self == ButtonState::JustPressed || self == ButtonState::Pressed
    }

    /// The button went down on this tick.
    pub open spec fn spec_just_pressed(self) -> bool {
        self == ButtonState::JustPressed
    }

    /// The button is down.
    #[verifier::when_used_as_spec(spec_pressed)]
    pub fn pressed(self) -> (down: bool)
        ensures
            down == self.spec_pressed(),
    {
        match self {
            ButtonState::JustPressed => true,
            ButtonState::Pressed => true,
            ButtonState::JustReleased => false,
            ButtonState::Released => false,
        }
    }

    /// The button went down on this tick.
    #[verifier::when_used_as_spec(spec_just_pressed)]
    pub fn just_pressed(self) -> (down: bool)
        ensures
            down == self.spec_just_pressed(),
    {
        match self {
            ButtonState::JustPressed => true,
            ButtonState::Pressed => false,
            ButtonState::JustReleased => false,
            ButtonState::Released => false,
        }
    }
}

/// The buttons of one player on one tick, one per action.
#[derive(Clone, Copy, Debug, PartialEq, Eq, Structural, Hash)]
pub struct ActionState {
    pub shoot: ButtonState,
    pub reload: ButtonState,
    pub pickup: ButtonState,
}

impl ActionState {
    /// The button bound to `action`.
    pub open spec fn spec_button(self, action: PlayerActions) -> ButtonState {
        match action {
            PlayerActions::Shoot => self.shoot,
            PlayerActions::Reload => self.reload,
            PlayerActions::Pickup => self.pickup,
        }
    }

    /// All buttons up.
    pub fn released() -> (state: ActionState)
        ensures
            state == (ActionState {
                shoot: ButtonState::Released,
                reload: ButtonState::Released,
                pickup: ButtonState::Released,
            }),
    {
        ActionState {
            shoot: ButtonState::Released,
            reload: ButtonState::Released,
            pickup: ButtonState::Released,
        }
    }

    /// The button bound to `action`.
    #[verifier::when_used_as_spec(spec_button)]
    pub fn button(self, action: PlayerActions) -> (button: ButtonState)
        ensures
            button == self.spec_button(action),
    {
        match action {
            PlayerActions::Shoot => self.shoot,
            PlayerActions::Reload => self.reload,
            PlayerActions::Pickup => self.pickup,
        }
    }

    /// The player holds `action` down.
    pub open spec fn spec_pressed(self, action: PlayerActions) -> bool {
        self.spec_button(action).spec_pressed()
    }

    /// The player pressed `action` on this tick.
    pub open spec fn spec_just_pressed(self, action: PlayerActions) -> bool {
        self.spec_button(action).spec_just_pressed()
    }

    /// The player holds `action` down.
    #[verifier::when_used_as_spec(spec_pressed)]
    pub fn pressed(self, action: PlayerActions) -> (down: bool)
        ensures
            down == self.spec_pressed(action),
    {
        self.button(action).pressed()
    }

    /// The player pressed `action` on this tick.
    #[verifier::when_used_as_spec(spec_just_pressed)]
    pub fn just_pressed(self, action: PlayerActions) -> (down: bool)
        ensures
            down == self.spec_just_pressed(action),
    {
        self.button(action).just_pressed()
    }
}

} // verus!

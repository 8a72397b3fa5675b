//! Clothes get dirty when worn and wet when washed; dried, they can be worn
//! again. Every wear, wash and dry costs them one unit of life, and in the
//! end they are tattered.

use crate::state_machine::StateMachine;
use vstd::prelude::*;

verus! {

/// The life cycle of clothes as they go through the laundry again and again.
pub struct ClothesMachine;

/// A piece of clothing at one point of its life.
#[derive(PartialEq, Eq, Debug, Structural)]
pub enum ClothesState {
    /// Clean and ready to be worn, with the given life left.
    Clean(u64),
    /// Dirty, with the given life left.
    Dirty(u64),
    /// Wet from washing, with the given life left.
    Wet(u64),
    /// Beyond use. Tattered clothes stay tattered whatever is done to them.
    Tattered,
}

/// Something that can be done with clothes.
pub enum ClothesAction {
    /// Wearing costs one unit of life and leaves the clothes dirty.
    Wear,
    /// Washing costs one unit of life and leaves the clothes wet.
    Wash,
    /// Tumble drying costs one unit of life. Clean or wet clothes come out
    /// clean; dirty clothes come out dirty.
    Dry,
}

impl ClothesState {
    /// The life that is left: none for tattered clothes.
    pub open spec fn spec_life(self) -> Option<u64> {
        match self {
            ClothesState::Clean(life) => Some(life),
            ClothesState::Dirty(life) => Some(life),
            ClothesState::Wet(life) => Some(life),
            ClothesState::Tattered => None,
        }
    }

    /// The state after `action` for clothes that survive it with `life`
    /// left.
    pub open spec fn after(self, action: ClothesAction, life: u64) -> ClothesState {
        match action {
            ClothesAction::Wear => ClothesState::Dirty(life),
            ClothesAction::Wash => ClothesState::Wet(life),
            ClothesAction::Dry => match self {
                ClothesState::Dirty(_) => ClothesState::Dirty(life),
                _ => ClothesState::Clean(life),
            },
        }
    }

    /// Returns the life that is left, or `None` for tattered clothes.
    pub fn life(&self) -> (left: Option<u64>)
        ensures
            left == self.spec_life(),
    {
        match self {
            ClothesState::Clean(x) => Some(*x),
            ClothesState::Dirty(x) => Some(*x),
            ClothesState::Wet(x) => Some(*x),
            ClothesState::Tattered => None,
        }
    }
}

impl StateMachine for ClothesMachine {
    type State = ClothesState;

    type Transition = ClothesAction;

    /// Clothes with more than one unit of life lose one unit and change as
    /// the action says. Clothes on their last unit become tattered, and so do
    /// clothes with no life left. Tattered clothes stay tattered.
    open spec fn spec_next_state(state: ClothesState, transition: ClothesAction) -> ClothesState {
        match state.spec_life() {
            Some(life) if life > 1 => state.after(transition, (life - 1) as u64),
            _ => ClothesState::Tattered,
        }
    }

    fn next_state(starting_state: &ClothesState, t: &ClothesAction) -> (next: ClothesState) {
        match starting_state.life() {
            Some(life) if life > 1 => match t {
                ClothesAction::Wear => ClothesState::Dirty(life - 1),
                ClothesAction::Wash => ClothesState::Wet(life - 1),
                ClothesAction::Dry => match starting_state {
                    ClothesState::Dirty(_) => ClothesState::Dirty(life - 1),
                    _ => ClothesState::Clean(life - 1),
                },
            },
            _ => ClothesState::Tattered,
        }
    }
}

} // verus!

//! Logical game actions that physical keys can be bound to.

use vstd::prelude::*;

verus! {

/// The closed set of actions a key binding can declare.
#[derive(Clone, Copy, PartialEq, Eq, Structural, Debug)]
pub enum GameAction {
    MoveUp,
    MoveDown,
    MoveLeft,
    MoveRight,
    Attack,
}

} // verus!

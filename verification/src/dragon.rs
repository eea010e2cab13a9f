//! The dragon curve.

use vstd::prelude::*;
use vstd::slice::slice_to_vec;
use crate::lsystems::LToken;
use crate::trig::QUARTER_TURN;
use crate::turtle::TurtleAction;
use crate::TurtleToken;

verus! {

/// The symbols of the dragon curve. `X` and `Y` steer the rewriting and are
/// not drawn.
#[derive(Clone, Copy, Debug, PartialEq, Eq, Structural)]
pub enum DragonToken {
    Forward,
    RotateLeft,
    RotateRight,
    X,
    Y,
    Push,
    Pop,
}

/// The length of one step of the curve, 3.0.
pub const STEP: i64 = 0x300_0000;

impl TurtleToken for DragonToken {
    open spec fn production(token: Self) -> Seq<Self> {
        match token {
            DragonToken::X => seq![
                DragonToken::X,
                DragonToken::RotateLeft,
                DragonToken::Y,
                DragonToken::Forward,
            ],
            DragonToken::Y => seq![
                DragonToken::Forward,
                DragonToken::X,
                DragonToken::RotateRight,
                DragonToken::Y,
            ],
            _ => seq![token],
        }
    }

    open spec fn drawing(t: Self) -> Seq<TurtleAction> {
        match t {
            DragonToken::Forward => seq![TurtleAction::Move(STEP)],
            DragonToken::RotateLeft => seq![TurtleAction::Rotate(QUARTER_TURN)],
            DragonToken::RotateRight => seq![TurtleAction::Rotate((-QUARTER_TURN) as i64)],
            DragonToken::Push => seq![TurtleAction::Push],
            DragonToken::Pop => seq![TurtleAction::Pop],
            _ => Seq::empty(),
        }
    }

    fn apply(token: &Self) -> (out: &[Self]) {
        match *token {
            DragonToken::Forward => &[DragonToken::Forward],
            DragonToken::RotateLeft => &[DragonToken::RotateLeft],
            DragonToken::RotateRight => &[DragonToken::RotateRight],
            DragonToken::X => &[
                DragonToken::X,
                DragonToken::RotateLeft,
                DragonToken::Y,
                DragonToken::Forward,
            ],
            DragonToken::Y => &[
                DragonToken::Forward,
                DragonToken::X,
                DragonToken::RotateRight,
                DragonToken::Y,
            ],
            DragonToken::Push => &[DragonToken::Push],
            DragonToken::Pop => &[DragonToken::Pop],
        }
    }

    fn act(t: Self) -> (out: &'static [TurtleAction]) {
        match t {
            DragonToken::Forward => &[TurtleAction::Move(STEP)],
            DragonToken::RotateLeft => &[TurtleAction::Rotate(QUARTER_TURN)],
            DragonToken::RotateRight => &[TurtleAction::Rotate(-QUARTER_TURN)],
            DragonToken::Push => &[TurtleAction::Push],
            DragonToken::Pop => &[TurtleAction::Pop],
            _ => &[],
        }
    }
}

impl LToken for DragonToken {
    open spec fn production(token: Self) -> Seq<Self> {
        <Self as TurtleToken>::production(token)
    }

    fn apply(token: Self) -> (out: Vec<Self>) {
        slice_to_vec(<Self as TurtleToken>::apply(&token))
    }
}

impl crate::turtle::TurtleToken for DragonToken {
    open spec fn drawing(token: Self) -> Seq<TurtleAction> {
        <Self as TurtleToken>::drawing(token)
    }

    fn action(token: Self) -> (out: Vec<TurtleAction>) {
        slice_to_vec(<Self as TurtleToken>::act(token))
    }
}

} // verus!

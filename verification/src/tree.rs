//! A branching plant, in a fixed and in a random form.

use vstd::prelude::*;
use vstd::slice::slice_to_vec;
use crate::accu::{partial_sum, UNIT};
use crate::lsystems::LTokenStochastic;
use crate::rules::{in_share, rules};
use crate::turtle::{Color, TurtleAction};
use crate::TurtleToken;

verus! {

/// The symbols of the plant. A leaf grows into a branch with two leaves, new
/// wood leaves old wood behind.
#[derive(Clone, Copy, Debug, PartialEq, Eq, Structural)]
pub enum TreeToken {
    Leaf,
    RotateLeft,
    RotateRight,
    OldWood,
    NewWood,
    Push,
    Pop,
}

/// The length of a leaf and of a piece of wood, 20.0.
pub const TWIG: i64 = 0x1400_0000;

/// The angle between a branch and its twigs, 30 degrees.
pub const FORK: i64 = 108_000;

/// The weight of the branch with two leaves, 0.7.
pub const TWO_LEAVES: u32 = 11_744_051;

/// The weight of the branch with three leaves, 0.3.
pub const THREE_LEAVES: u32 = 5_033_165;

/// The colour of a leaf.
pub open spec fn lime() -> Color {
    Color { r: 0, g: 158, b: 47, a: 255 }
}

/// The colour of new wood.
pub open spec fn brown() -> Color {
    Color { r: 127, g: 106, b: 79, a: 255 }
}

/// The colour of old wood.
pub open spec fn black() -> Color {
    Color { r: 0, g: 0, b: 0, a: 255 }
}

/// A branch that ends in two leaves.
pub open spec fn two_leaves() -> Seq<TreeToken> {
    seq![
        TreeToken::Push,
        TreeToken::NewWood,
        TreeToken::Push,
        TreeToken::RotateLeft,
        TreeToken::Leaf,
        TreeToken::Pop,
        TreeToken::RotateRight,
        TreeToken::Leaf,
        TreeToken::Pop,
    ]
}

/// A branch that ends in three leaves.
pub open spec fn three_leaves() -> Seq<TreeToken> {
    seq![
        TreeToken::Push,
        TreeToken::NewWood,
        TreeToken::Push,
        TreeToken::RotateLeft,
        TreeToken::Leaf,
        TreeToken::Pop,
        TreeToken::Push,
        TreeToken::Leaf,
        TreeToken::Pop,
        TreeToken::RotateRight,
        TreeToken::Leaf,
        TreeToken::Pop,
    ]
}

impl TurtleToken for TreeToken {
    open spec fn production(token: Self) -> Seq<Self> {
        match token {
            TreeToken::Leaf => two_leaves(),
            TreeToken::NewWood => seq![TreeToken::OldWood, TreeToken::NewWood],
            _ => seq![token],
        }
    }

    open spec fn drawing(token: Self) -> Seq<TurtleAction> {
        match token {
            TreeToken::Leaf => seq![TurtleAction::SetColor(lime()), TurtleAction::Move(TWIG)],
            TreeToken::NewWood => seq![TurtleAction::SetColor(brown()), TurtleAction::Move(TWIG)],
            TreeToken::OldWood => seq![TurtleAction::SetColor(black()), TurtleAction::Move(TWIG)],
            TreeToken::RotateLeft => seq![TurtleAction::Rotate(FORK)],
            TreeToken::RotateRight => seq![TurtleAction::Rotate((-FORK) as i64)],
            TreeToken::Push => seq![TurtleAction::Push],
            TreeToken::Pop => seq![TurtleAction::Pop],
        }
    }

    fn apply(token: &Self) -> (out: &[Self]) {
        match *token {
            TreeToken::Leaf => &[
                TreeToken::Push,
                TreeToken::NewWood,
                TreeToken::Push,
                TreeToken::RotateLeft,
                TreeToken::Leaf,
                TreeToken::Pop,
                TreeToken::RotateRight,
                TreeToken::Leaf,
                TreeToken::Pop,
            ],
            TreeToken::NewWood => &[TreeToken::OldWood, TreeToken::NewWood],
            TreeToken::RotateLeft => &[TreeToken::RotateLeft],
            TreeToken::RotateRight => &[TreeToken::RotateRight],
            TreeToken::OldWood => &[TreeToken::OldWood],
            TreeToken::Push => &[TreeToken::Push],
            TreeToken::Pop => &[TreeToken::Pop],
        }
    }

    fn act(token: Self) -> (out: &'static [TurtleAction]) {
        match token {
            TreeToken::Leaf => &[
                TurtleAction::SetColor(Color { r: 0, g: 158, b: 47, a: 255 }),
                TurtleAction::Move(TWIG),
            ],
            TreeToken::NewWood => &[
                TurtleAction::SetColor(Color { r: 127, g: 106, b: 79, a: 255 }),
                TurtleAction::Move(TWIG),
            ],
            TreeToken::OldWood => &[
                TurtleAction::SetColor(Color { r: 0, g: 0, b: 0, a: 255 }),
                TurtleAction::Move(TWIG),
            ],
            TreeToken::RotateLeft => &[TurtleAction::Rotate(FORK)],
            TreeToken::RotateRight => &[TurtleAction::Rotate(-FORK)],
            TreeToken::Push => &[TurtleAction::Push],
            TreeToken::Pop => &[TurtleAction::Pop],
        }
    }
}

impl LTokenStochastic for TreeToken {
    /// A leaf grows into a branch with two leaves for seven draws in ten, and
    /// into one with three leaves for the other three.
    open spec fn production(token: Self, rand: u32) -> Seq<Self> {
        match token {
            TreeToken::Leaf => if rand < TWO_LEAVES {
                two_leaves()
            } else {
                three_leaves()
            },
            TreeToken::NewWood => seq![TreeToken::OldWood, TreeToken::NewWood],
            _ => seq![token],
        }
    }

    fn apply(token: Self, rand: u32) -> (out: Vec<Self>) {
        match token {
            TreeToken::Leaf => {
                let probs = [TWO_LEAVES, THREE_LEAVES];
                let sparse = vec![
                    TreeToken::Push,
                    TreeToken::NewWood,
                    TreeToken::Push,
                    TreeToken::RotateLeft,
                    TreeToken::Leaf,
                    TreeToken::Pop,
                    TreeToken::RotateRight,
                    TreeToken::Leaf,
                    TreeToken::Pop,
                ];
                let dense = vec![
                    TreeToken::Push,
                    TreeToken::NewWood,
                    TreeToken::Push,
                    TreeToken::RotateLeft,
                    TreeToken::Leaf,
                    TreeToken::Pop,
                    TreeToken::Push,
                    TreeToken::Leaf,
                    TreeToken::Pop,
                    TreeToken::RotateRight,
                    TreeToken::Leaf,
                    TreeToken::Pop,
                ];
                let patterns = vec![sparse, dense];
                proof {
                    assert(sparse@ =~= two_leaves());
                    assert(dense@ =~= three_leaves());
                    assert(partial_sum(probs@, 0) == 0);
                    assert(partial_sum(probs@, 1) == TWO_LEAVES);
                    assert(partial_sum(probs@, 2) == UNIT);
                }
                match rules(rand, probs, patterns) {
                    Ok(chosen) => {
                        proof {
                            let k = choose|k: int|
                                in_share(probs@, rand, k) && chosen == #[trigger] patterns@[k];
                            assert(k == 0 || k == 1);
                        }
                        chosen
                    },
                    Err(_) => unreached(),
                }
            },
            TreeToken::NewWood => vec![TreeToken::OldWood, TreeToken::NewWood],
            _ => vec![token],
        }
    }
}

impl crate::turtle::TurtleToken for TreeToken {
    open spec fn drawing(token: Self) -> Seq<TurtleAction> {
        <Self as TurtleToken>::drawing(token)
    }

    fn action(token: Self) -> (out: Vec<TurtleAction>) {
        slice_to_vec(<Self as TurtleToken>::act(token))
    }
}

} // verus!

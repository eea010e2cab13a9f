//! Lindenmayer systems drawn by a turtle.
//!
//! A grammar rewrites a short starting sequence into a long sequence of
//! symbols, a mapping turns the symbols into pen actions, and a turtle turns
//! the actions into line segments. Every quantity is an integer:
//! probabilities, lengths and coordinates are fixed-point numbers, angles are
//! counted in arcseconds.
//!
//! The crate root holds the compact interface: one trait, `TurtleToken`, for
//! a symbol that is both rewritten and drawn, and `Runner`, which rewrites a
//! sequence of such symbols. The modules hold the parts one by one.

pub mod accu;
pub mod fixed;
pub mod trig;
pub mod rewriting;
pub mod lsystems;
pub mod rules;
pub mod turtle;
pub mod dragon;
pub mod tree;

use vstd::prelude::*;
use vstd::slice::slice_to_vec;
use crate::rewriting::{expand, expand_times, lemma_expand_push};
pub use crate::rules::rules;
pub use crate::turtle::TurtleAction;

verus! {

/// The state of the pen at one instant.
pub type TurtleSlice = crate::turtle::Turtle;

/// A turtle with a stack of saved states and the mapping to the screen.
pub type Turtle = crate::turtle::TurtleDrawer;

/// A symbol that is rewritten from generation to generation and drawn in the end.
pub trait TurtleToken: Sized {
    /// The symbols that replace `token` in the next generation. A symbol
    /// without a rule of its own reproduces itself.
    open spec fn production(token: Self) -> Seq<Self> {
        seq![token]
    }

    /// The actions that draw `t`. A symbol without actions of its own draws
    /// nothing.
    open spec fn drawing(t: Self) -> Seq<TurtleAction> {
        Seq::empty()
    }

    /// Gives the production of `token`.
    fn apply(token: &Self) -> (out: &[Self])
        ensures
            out@ == Self::production(*token),
    ;

    /// Gives the actions that draw `t`.
    fn act(t: Self) -> (out: &'static [TurtleAction])
        ensures
            out@ == Self::drawing(t),
    ;
}

/// The rule of a grammar: the production of each symbol.
pub open spec fn rule<T: TurtleToken>() -> spec_fn(T) -> Seq<T> {
    |t: T| T::production(t)
}

/// Rewrites a starting sequence generation by generation.
pub struct Runner<T: TurtleToken + Copy> {
    start: Vec<T>,
}

impl<T: TurtleToken + Copy> Runner<T> {
    /// The starting sequence.
    pub closed spec fn view(&self) -> Seq<T> {
        self.start@
    }

    /// Stores the starting sequence as it is.
    pub fn from(start: Vec<T>) -> (out: Self)
        ensures
            out@ == start@,
    {
        Self { start }
    }

    fn apply_once(tokens: &mut Vec<T>)
        ensures
            final(tokens)@ == expand(rule::<T>(), old(tokens)@),
    {
        let next = Self::apply_once_helper(tokens);
        *tokens = next;
    }

    fn apply_once_helper(tokens: &Vec<T>) -> (out: Vec<T>)
        ensures
            out@ == expand(rule::<T>(), tokens@),
    {
        let mut out: Vec<T> = Vec::new();
        let mut i: usize = 0;
        assert(tokens@.take(0) =~= Seq::<T>::empty());
        while i < tokens.len()
            invariant
                0 <= i <= tokens.len(),
                out@ == expand(rule::<T>(), tokens@.take(i as int)),
            decreases tokens.len() - i,
        {
            let mut piece = slice_to_vec(T::apply(&tokens[i]));
            proof {
                lemma_expand_push(rule::<T>(), tokens@.take(i as int), tokens@[i as int]);
                assert(tokens@.take(i as int).push(tokens@[i as int]) =~= tokens@.take(i + 1));
            }
            out.append(&mut piece);
            i += 1;
        }
        assert(tokens@.take(tokens.len() as int) =~= tokens@);
        out
    }

    /// The sequence after `n` generations. The stored sequence is not changed.
    pub fn iterate(&self, n: usize) -> (out: Vec<T>)
        ensures
            out@ == expand_times(rule::<T>(), self@, n as nat),
    {
        let mut tokens: Vec<T> = Vec::new();
        let mut i: usize = 0;
        while i < self.start.len()
            invariant
                0 <= i <= self.start.len(),
                tokens@ == self.start@.take(i as int),
            decreases self.start.len() - i,
        {
            tokens.push(self.start[i]);
            assert(self.start@.take(i as int).push(self.start@[i as int]) =~= self.start@.take(
                i + 1,
            ));
            i += 1;
        }
        assert(self.start@.take(self.start.len() as int) =~= self.start@);
        let mut done: usize = 0;
        while done < n
            invariant
                0 <= done <= n,
                tokens@ == expand_times(rule::<T>(), self@, done as nat),
            decreases n - done,
        {
            Self::apply_once(&mut tokens);
            done += 1;
        }
        tokens
    }
}

} // verus!

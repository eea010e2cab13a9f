//! Rewriting engines: a starting sequence expanded by parallel, context-free substitution.

use vstd::prelude::*;
use rand_chacha::rand_core::{RngCore, SeedableRng};
use rand_chacha::ChaCha8Rng;
use crate::accu::UNIT;
use crate::rewriting::{
    expand, expand_times, lemma_expand_prefix_len, lemma_expand_push, lemma_expand_times_composes,
    lemma_flatten_prefix_len, outgrows,
};

verus! {

/// A symbol of a deterministic grammar.
pub trait LToken: Sized {
    /// The symbols that replace `token` in the next generation. A symbol
    /// without a rule of its own reproduces itself.
    open spec fn production(token: Self) -> Seq<Self> {
        seq![token]
    }

    /// Computes the production of `token`.
    fn apply(token: Self) -> (out: Vec<Self>)
        ensures
            out@ == Self::production(token),
    ;
}

/// The rule of a grammar: the production of each symbol.
pub open spec fn rule<T: LToken>() -> spec_fn(T) -> Seq<T> {
    |t: T| T::production(t)
}

/// One generation: every symbol replaced by its production, in order.
pub open spec fn rewrite<T: LToken>(tokens: Seq<T>) -> Seq<T> {
    expand(rule::<T>(), tokens)
}

/// The sequence after `depth` generations, starting from `start`.
pub open spec fn generation<T: LToken>(start: Seq<T>, depth: nat) -> Seq<T> {
    expand_times(rule::<T>(), start, depth)
}

/// Generations compose: `further` generations after `depth` generations are
/// `depth + further` generations.
pub proof fn lemma_generation_composes<T: LToken>(start: Seq<T>, depth: nat, further: nat)
    ensures
        generation(generation(start, depth), further) == generation(start, depth + further),
{
    lemma_expand_times_composes(rule::<T>(), start, depth, further);
}

/// A deterministic L-system: a starting sequence and the productions of its symbol type.
pub struct LSystem<T: LToken + Copy> {
    start: Vec<T>,
}

impl<T: LToken + Copy> LSystem<T> {
    /// The starting sequence.
    pub closed spec fn view(&self) -> Seq<T> {
        self.start@
    }

    /// Stores the starting sequence as it is.
    pub fn from(start: Vec<T>) -> (out: Self)
        ensures
            out@ == start@,
    {
        Self { start }
    }

    fn apply_once(tokens: &mut Vec<T>)
        ensures
            final(tokens)@ == rewrite(old(tokens)@),
    {
        let next = Self::apply_once_helper(tokens);
        *tokens = next;
    }

    fn apply_once_helper(tokens: &Vec<T>) -> (out: Vec<T>)
        ensures
            out@ == rewrite(tokens@),
    {
        let mut out: Vec<T> = Vec::new();
        let mut i: usize = 0;
        assert(tokens@.take(0) =~= Seq::<T>::empty());
        while i < tokens.len()
            invariant
                0 <= i <= tokens.len(),
                out@ == rewrite(tokens@.take(i as int)),
            decreases tokens.len() - i,
        {
            let mut piece = T::apply(tokens[i]);
            proof {
                lemma_expand_push(rule::<T>(), tokens@.take(i as int), tokens@[i as int]);
                assert(tokens@.take(i as int).push(tokens@[i as int]) =~= tokens@.take(i + 1));
            }
            out.append(&mut piece);
            i += 1;
        }
        assert(tokens@.take(tokens.len() as int) =~= tokens@);
        out
    }

    /// A copy of the starting sequence.
    fn copy_start(&self) -> (out: Vec<T>)
        ensures
            out@ == self@,
    {
        let mut tokens: Vec<T> = Vec::new();
        let mut i: usize = 0;
        while i < self.start.len()
            invariant
                0 <= i <= self.start.len(),
                tokens@ == self.start@.take(i as int),
            decreases self.start.len() - i,
        {
            tokens.push(self.start[i]);
            assert(self.start@.take(i as int).push(self.start@[i as int]) =~= self.start@.take(
                i + 1,
            ));
            i += 1;
        }
        assert(self.start@.take(self.start.len() as int) =~= self.start@);
        tokens
    }

    /// The sequence after `depth` generations. The stored sequence is not changed.
    pub fn iterate(&self, depth: usize) -> (out: Vec<T>)
        ensures
            out@ == generation(self@, depth as nat),
    {
        let mut tokens: Vec<T> = self.copy_start();
        let mut done: usize = 0;
        while done < depth
            invariant
                0 <= done <= depth,
                tokens@ == generation(self@, done as nat),
            decreases depth - done,
        {
            Self::apply_once(&mut tokens);
            done += 1;
        }
        tokens
    }
}

/// A sequence grew beyond the length that the caller allowed.
#[derive(Clone, Copy, Debug, PartialEq, Eq, Structural)]
pub enum ResourceError {
    LengthExceeded,
}

impl<T: LToken + Copy> LSystem<T> {
    /// One generation of `tokens`, or `None` as soon as it is longer than
    /// `limit`.
    fn apply_once_within(tokens: &Vec<T>, limit: usize) -> (out: Option<Vec<T>>)
        ensures
            out == None::<Vec<T>> <==> rewrite(tokens@).len() > limit,
            out matches Some(next) ==> next@ == rewrite(tokens@),
    {
        let mut out: Vec<T> = Vec::new();
        let mut i: usize = 0;
        assert(tokens@.take(0) =~= Seq::<T>::empty());
        while i < tokens.len()
            invariant
                0 <= i <= tokens.len(),
                out@ == rewrite(tokens@.take(i as int)),
                out@.len() <= limit,
            decreases tokens.len() - i,
        {
            let mut piece = T::apply(tokens[i]);
            proof {
                lemma_expand_push(rule::<T>(), tokens@.take(i as int), tokens@[i as int]);
                assert(tokens@.take(i as int).push(tokens@[i as int]) =~= tokens@.take(i + 1));
                lemma_expand_prefix_len(rule::<T>(), tokens@, i + 1);
            }
            if piece.len() > limit - out.len() {
                return None;
            }
            out.append(&mut piece);
            i += 1;
        }
        assert(tokens@.take(tokens.len() as int) =~= tokens@);
        Some(out)
    }

    /// The sequence after `depth` generations, unless the sequence outgrows
    /// `limit` on the way: then the work stops at once with `LengthExceeded`.
    pub fn iterate_within(&self, depth: usize, limit: usize) -> (out: Result<
        Vec<T>,
        ResourceError,
    >)
        ensures
            outgrows(rule::<T>(), self@, depth as nat, limit as nat) ==> out == Err::<Vec<T>, ResourceError>(
                ResourceError::LengthExceeded,
            ),
            !outgrows(rule::<T>(), self@, depth as nat, limit as nat) ==> out is Ok && out->Ok_0@ == generation(
                self@,
                depth as nat,
            ),
    {
        if self.start.len() > limit {
            assert(generation(self@, 0).len() > limit);
            return Err(ResourceError::LengthExceeded);
        }
        let mut tokens: Vec<T> = self.copy_start();
        let mut done: usize = 0;
        while done < depth
            invariant
                0 <= done <= depth,
                tokens@ == generation(self@, done as nat),
                forall|g: nat|
                    g <= done ==> (#[trigger] expand_times(rule::<T>(), self@, g)).len() <= limit,
            decreases depth - done,
        {
            match Self::apply_once_within(&tokens, limit) {
                None => {
                    assert(generation(self@, (done + 1) as nat).len() > limit);
                    return Err(ResourceError::LengthExceeded);
                },
                Some(next) => {
                    tokens = next;
                },
            }
            done += 1;
        }
        Ok(tokens)
    }
}

/// The generator of the random stream, `rand_chacha::ChaCha8Rng`.
#[verifier::external_type_specification]
#[verifier::external_body]
pub struct ExChaCha8Rng(ChaCha8Rng);

/// The word that a generator seeded with `seed` gives at its `index`-th call,
/// counted from 0.
pub uninterp spec fn stream_word(seed: u64, index: nat) -> u32;

/// The seed that `rng` was made from.
pub uninterp spec fn stream_seed(rng: ChaCha8Rng) -> u64;

/// The number of words that `rng` has given so far.
pub uninterp spec fn stream_position(rng: ChaCha8Rng) -> nat;

/// `ChaCha8Rng::seed_from_u64`: a generator at the beginning of the stream
/// that belongs to `seed`. The stream depends on the seed alone.
#[verifier::external_body]
fn seeded(seed: u64) -> (rng: ChaCha8Rng)
    ensures
        stream_seed(rng) == seed,
        stream_position(rng) == 0,
{
    ChaCha8Rng::seed_from_u64(seed)
}

/// `ChaCha8Rng::next_u32`: the next word of the stream. The generator moves
/// on by one word and stays on the stream of its seed.
#[verifier::external_body]
fn next_word(rng: &mut ChaCha8Rng) -> (word: u32)
    ensures
        word == stream_word(stream_seed(*old(rng)), stream_position(*old(rng))),
        stream_seed(*final(rng)) == stream_seed(*old(rng)),
        stream_position(*final(rng)) == stream_position(*old(rng)) + 1,
{
    rng.next_u32()
}

/// `rand::random`: a seed from the generator of the running thread. Nothing
/// is known of it.
#[verifier::external_body]
fn fresh_seed() -> u64 {
    rand::random()
}

/// The `index`-th draw of the stream of `seed`: a probability below `UNIT`,
/// made of the upper 24 bits of the `index`-th word.
pub open spec fn draw(seed: u64, index: nat) -> u32 {
    stream_word(seed, index) >> 8
}

/// A symbol of a stochastic grammar.
pub trait LTokenStochastic: Sized {
    /// The symbols that replace `token` in the next generation when `rand`
    /// was drawn for it. A symbol without a rule of its own reproduces itself.
    open spec fn production(token: Self, rand: u32) -> Seq<Self> {
        seq![token]
    }

    /// Computes the production of `token` for the draw `rand`.
    fn apply(token: Self, rand: u32) -> (out: Vec<Self>)
        requires
            rand < UNIT,
        ensures
            out@ == Self::production(token, rand),
    ;
}

/// The productions of `tokens`, each for its own draw: the symbol at `i`
/// gets the draw at `first + i` of the stream of `seed`.
pub open spec fn productions_drawn<T: LTokenStochastic>(
    tokens: Seq<T>,
    seed: u64,
    first: nat,
) -> Seq<Seq<T>> {
    Seq::new(tokens.len(), |i: int| T::production(tokens[i], draw(seed, (first + i) as nat)))
}

/// One generation: every symbol replaced by its production, in order.
pub open spec fn rewrite_drawn<T: LTokenStochastic>(tokens: Seq<T>, seed: u64, first: nat) -> Seq<
    T,
> {
    productions_drawn(tokens, seed, first).flatten()
}

/// The sequence after `depth` generations, and the number of draws that
/// they took from the stream of `seed`.
pub open spec fn generation_drawn<T: LTokenStochastic>(start: Seq<T>, depth: nat, seed: u64) -> (
    Seq<T>,
    nat,
)
    decreases depth,
{
    if depth == 0 {
        (start, 0)
    } else {
        let before = generation_drawn(start, (depth - 1) as nat, seed);
        (rewrite_drawn(before.0, seed, before.1), before.1 + before.0.len())
    }
}

/// Some generation up to `depth` is longer than `limit`.
pub open spec fn outgrows_drawn<T: LTokenStochastic>(
    start: Seq<T>,
    depth: nat,
    seed: u64,
    limit: nat,
) -> bool {
    exists|g: nat| g <= depth && (#[trigger] generation_drawn(start, g, seed)).0.len() > limit
}

/// A stochastic L-system: a starting sequence and the productions of its
/// symbol type, which may depend on a random draw.
pub struct LSystemStochastic<T: LTokenStochastic + Copy> {
    start: Vec<T>,
}

impl<T: LTokenStochastic + Copy> LSystemStochastic<T> {
    /// The starting sequence.
    pub closed spec fn view(&self) -> Seq<T> {
        self.start@
    }

    /// Stores the starting sequence as it is.
    pub fn from(start: Vec<T>) -> (out: Self)
        ensures
            out@ == start@,
    {
        Self { start }
    }

    fn apply_once(tokens: &mut Vec<T>, rng: &mut ChaCha8Rng)
        ensures
            final(tokens)@ == rewrite_drawn(
                old(tokens)@,
                stream_seed(*old(rng)),
                stream_position(*old(rng)),
            ),
            stream_seed(*final(rng)) == stream_seed(*old(rng)),
            stream_position(*final(rng)) == stream_position(*old(rng)) + old(tokens)@.len(),
    {
        let next = Self::apply_once_helper(tokens, rng);
        *tokens = next;
    }

    fn apply_once_helper(tokens: &Vec<T>, rng: &mut ChaCha8Rng) -> (out: Vec<T>)
        ensures
            out@ == rewrite_drawn(tokens@, stream_seed(*old(rng)), stream_position(*old(rng))),
            stream_seed(*final(rng)) == stream_seed(*old(rng)),
            stream_position(*final(rng)) == stream_position(*old(rng)) + tokens@.len(),
    {
        let ghost seed = stream_seed(*rng);
        let ghost first = stream_position(*rng);
        let mut out: Vec<T> = Vec::new();
        let mut i: usize = 0;
        assert(productions_drawn(tokens@.take(0), seed, first) =~= Seq::<Seq<T>>::empty());
        while i < tokens.len()
            invariant
                0 <= i <= tokens.len(),
                stream_seed(*rng) == seed,
                stream_position(*rng) == first + i,
                out@ == rewrite_drawn(tokens@.take(i as int), seed, first),
            decreases tokens.len() - i,
        {
            let word = next_word(rng);
            let rand = word >> 8;
            assert(word >> 8 < 0x100_0000u32) by (bit_vector);
            let mut piece = T::apply(tokens[i], rand);
            proof {
                let done = productions_drawn(tokens@.take(i as int), seed, first);
                assert(productions_drawn(tokens@.take(i + 1), seed, first) =~= done.push(piece@));
                done.lemma_flatten_push(piece@);
            }
            out.append(&mut piece);
            i += 1;
        }
        assert(tokens@.take(tokens.len() as int) =~= tokens@);
        out
    }

    /// A copy of the starting sequence.
    fn copy_start(&self) -> (out: Vec<T>)
        ensures
            out@ == self@,
    {
        let mut tokens: Vec<T> = Vec::new();
        let mut i: usize = 0;
        while i < self.start.len()
            invariant
                0 <= i <= self.start.len(),
                tokens@ == self.start@.take(i as int),
            decreases self.start.len() - i,
        {
            tokens.push(self.start[i]);
            assert(self.start@.take(i as int).push(self.start@[i as int]) =~= self.start@.take(
                i + 1,
            ));
            i += 1;
        }
        assert(self.start@.take(self.start.len() as int) =~= self.start@);
        tokens
    }

    /// The sequence after `depth` generations with the draws of the stream of
    /// `seed`: the same sequence whenever it is asked for.
    pub fn iterate_seeded(&self, depth: usize, seed: u64) -> (out: Vec<T>)
        ensures
            out@ == generation_drawn(self@, depth as nat, seed).0,
    {
        let mut tokens: Vec<T> = self.copy_start();
        let mut rng = seeded(seed);
        let mut done: usize = 0;
        while done < depth
            invariant
                0 <= done <= depth,
                stream_seed(rng) == seed,
                tokens@ == generation_drawn(self@, done as nat, seed).0,
                stream_position(rng) == generation_drawn(self@, done as nat, seed).1,
            decreases depth - done,
        {
            Self::apply_once(&mut tokens, &mut rng);
            done += 1;
        }
        tokens
    }

    /// One generation of `tokens`, or `None` as soon as it is longer than
    /// `limit`. The generator has then given a draw for each symbol that was
    /// rewritten, and no more.
    fn apply_once_within(tokens: &Vec<T>, rng: &mut ChaCha8Rng, limit: usize) -> (out: Option<
        Vec<T>,
    >)
        ensures
            out == None::<Vec<T>> <==> rewrite_drawn(
                tokens@,
                stream_seed(*old(rng)),
                stream_position(*old(rng)),
            ).len() > limit,
            out matches Some(next) ==> {
                &&& next@ == rewrite_drawn(
                    tokens@,
                    stream_seed(*old(rng)),
                    stream_position(*old(rng)),
                )
                &&& stream_position(*final(rng)) == stream_position(*old(rng)) + tokens@.len()
            },
            stream_seed(*final(rng)) == stream_seed(*old(rng)),
    {
        let ghost seed = stream_seed(*rng);
        let ghost first = stream_position(*rng);
        let mut out: Vec<T> = Vec::new();
        let mut i: usize = 0;
        assert(productions_drawn(tokens@.take(0), seed, first) =~= Seq::<Seq<T>>::empty());
        while i < tokens.len()
            invariant
                0 <= i <= tokens.len(),
                stream_seed(*rng) == seed,
                stream_position(*rng) == first + i,
                seed == stream_seed(*old(rng)),
                first == stream_position(*old(rng)),
                out@ == rewrite_drawn(tokens@.take(i as int), seed, first),
                out@.len() <= limit,
            decreases tokens.len() - i,
        {
            let word = next_word(rng);
            let rand = word >> 8;
            assert(word >> 8 < 0x100_0000u32) by (bit_vector);
            let mut piece = T::apply(tokens[i], rand);
            proof {
                let done = productions_drawn(tokens@.take(i as int), seed, first);
                let all = productions_drawn(tokens@, seed, first);
                assert(productions_drawn(tokens@.take(i + 1), seed, first) =~= done.push(piece@));
                done.lemma_flatten_push(piece@);
                assert(all.take(i + 1) =~= done.push(piece@));
                lemma_flatten_prefix_len(all, i + 1);
            }
            if piece.len() > limit - out.len() {
                return None;
            }
            out.append(&mut piece);
            i += 1;
        }
        assert(tokens@.take(tokens.len() as int) =~= tokens@);
        Some(out)
    }

    /// The sequence after `depth` generations with the draws of the stream of
    /// `seed`, unless the sequence outgrows `limit` on the way: then the work
    /// stops at once with `LengthExceeded`.
    pub fn iterate_seeded_within(&self, depth: usize, seed: u64, limit: usize) -> (out: Result<
        Vec<T>,
        ResourceError,
    >)
        ensures
            outgrows_drawn(self@, depth as nat, seed, limit as nat) ==> out == Err::<
                Vec<T>,
                ResourceError,
            >(ResourceError::LengthExceeded),
            !outgrows_drawn(self@, depth as nat, seed, limit as nat) ==> out is Ok && out->Ok_0@
                == generation_drawn(self@, depth as nat, seed).0,
    {
        if self.start.len() > limit {
            assert(generation_drawn(self@, 0, seed).0.len() > limit);
            return Err(ResourceError::LengthExceeded);
        }
        let mut tokens: Vec<T> = self.copy_start();
        let mut rng = seeded(seed);
        let mut done: usize = 0;
        while done < depth
            invariant
                0 <= done <= depth,
                stream_seed(rng) == seed,
                tokens@ == generation_drawn(self@, done as nat, seed).0,
                stream_position(rng) == generation_drawn(self@, done as nat, seed).1,
                forall|g: nat|
                    g <= done ==> (#[trigger] generation_drawn(self@, g, seed)).0.len() <= limit,
            decreases depth - done,
        {
            match Self::apply_once_within(&tokens, &mut rng, limit) {
                None => {
                    assert(generation_drawn(self@, (done + 1) as nat, seed).0.len() > limit);
                    return Err(ResourceError::LengthExceeded);
                },
                Some(next) => {
                    tokens = next;
                },
            }
            done += 1;
        }
        Ok(tokens)
    }

    /// The sequence after `depth` generations. With a seed the result is that
    /// of `iterate_seeded`; without one a seed is chosen once, before the
    /// first generation.
    pub fn iterate(&self, n: usize, seed: Option<u64>) -> (out: Vec<T>)
        ensures
            match seed {
                Some(s) => out@ == generation_drawn(self@, n as nat, s).0,
                None => exists|s: u64| out@ == (#[trigger] generation_drawn(self@, n as nat, s)).0,
            },
    {
        let chosen = match seed {
            Some(s) => s,
            None => fresh_seed(),
        };
        self.iterate_seeded(n, chosen)
    }
}

} // verus!

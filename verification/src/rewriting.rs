//! Parallel rewriting of a sequence by a rule that looks at one symbol at a time.

use vstd::prelude::*;
use vstd::seq_lib::lemma_flatten_concat;

verus! {

/// One generation: every symbol replaced by what `rule` gives for it, in order.
pub open spec fn expand<T>(rule: spec_fn(T) -> Seq<T>, tokens: Seq<T>) -> Seq<T> {
    tokens.map_values(rule).flatten()
}

/// The sequence after `depth` generations, starting from `start`.
pub open spec fn expand_times<T>(rule: spec_fn(T) -> Seq<T>, start: Seq<T>, depth: nat) -> Seq<T>
    decreases depth,
{
    if depth == 0 {
        start
    } else {
        expand(rule, expand_times(rule, start, (depth - 1) as nat))
    }
}

/// Some generation up to `depth` is longer than `limit`.
pub open spec fn outgrows<T>(
    rule: spec_fn(T) -> Seq<T>,
    start: Seq<T>,
    depth: nat,
    limit: nat,
) -> bool {
    exists|g: nat| g <= depth && (#[trigger] expand_times(rule, start, g)).len() > limit
}

/// Rewriting a sequence extended by one symbol appends what the rule gives
/// for that symbol.
pub proof fn lemma_expand_push<T>(rule: spec_fn(T) -> Seq<T>, tokens: Seq<T>, token: T)
    ensures
        expand(rule, tokens.push(token)) == expand(rule, tokens) + rule(token),
{
    assert(tokens.push(token).map_values(rule) =~= tokens.map_values(rule).push(rule(token)));
    tokens.map_values(rule).lemma_flatten_push(rule(token));
}

/// Rewriting is done symbol by symbol: the rewriting of two sequences in a
/// row is the rewriting of the first followed by that of the second.
pub proof fn lemma_expand_concat<T>(rule: spec_fn(T) -> Seq<T>, left: Seq<T>, right: Seq<T>)
    ensures
        expand(rule, left + right) == expand(rule, left) + expand(rule, right),
{
    assert((left + right).map_values(rule) =~= left.map_values(rule) + right.map_values(rule));
    lemma_flatten_concat(left.map_values(rule), right.map_values(rule));
}

/// The first parts of a sequence of parts are together no longer than all
/// the parts.
pub proof fn lemma_flatten_prefix_len<T>(parts: Seq<Seq<T>>, n: int)
    requires
        0 <= n <= parts.len(),
    ensures
        parts.take(n).flatten().len() <= parts.flatten().len(),
{
    lemma_flatten_concat(parts.take(n), parts.skip(n));
    assert(parts.take(n) + parts.skip(n) =~= parts);
}

/// The rewriting of the first symbols of a sequence is no longer than the
/// rewriting of the whole.
pub proof fn lemma_expand_prefix_len<T>(rule: spec_fn(T) -> Seq<T>, tokens: Seq<T>, n: int)
    requires
        0 <= n <= tokens.len(),
    ensures
        expand(rule, tokens.take(n)).len() <= expand(rule, tokens).len(),
{
    lemma_expand_concat(rule, tokens.take(n), tokens.skip(n));
    assert(tokens.take(n) + tokens.skip(n) =~= tokens);
}

/// Generations compose: `further` generations after `depth` generations are
/// `depth + further` generations.
pub proof fn lemma_expand_times_composes<T>(
    rule: spec_fn(T) -> Seq<T>,
    start: Seq<T>,
    depth: nat,
    further: nat,
)
    ensures
        expand_times(rule, expand_times(rule, start, depth), further) == expand_times(
            rule,
            start,
            depth + further,
        ),
    decreases further,
{
    if further > 0 {
        lemma_expand_times_composes(rule, start, depth, (further - 1) as nat);
        assert(depth + further - 1 == depth + (further - 1) as nat);
    }
}

} // verus!

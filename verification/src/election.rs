use vstd::prelude::*;
use rand::Rng;
use rand::rngs::StdRng;

verus! {

/// The seeded random number generator of the simulation.
#[verifier::external_type_specification]
#[verifier::external_body]
pub struct ExStdRng(StdRng);

/// Draws an index uniformly from `lo..hi` with `rand`'s `Rng::gen_range`.
/// The contract claims only that the result lies in the range, which the
/// sampler's source guarantees for every state of the generator; which value
/// comes out depends on that state and is not stated.
#[verifier::external_body]
fn random_index(rng: &mut StdRng, lo: usize, hi: usize) -> (i: usize)
    requires
        lo < hi,
    ensures
        lo <= i < hi,
{
    rng.gen_range(lo..hi)
}

/// `s` lists `count` distinct indices below `n`.
pub open spec fn distinct_indices_below(s: Seq<usize>, n: nat, count: nat) -> bool {
    &&& s.len() == count
    &&& forall|i: int| 0 <= i < s.len() ==> #[trigger] s[i] < n
    &&& forall|i: int, j: int| 0 <= i < s.len() && 0 <= j < s.len() && i != j ==> s[i] != s[j]
}

/// `s` holds each of `0..n` exactly once.
pub open spec fn is_permutation_of_range(s: Seq<usize>, n: nat) -> bool {
    distinct_indices_below(s, n, n)
}

/// Swap draws fit for a Fisher-Yates shuffle of `0..n`: one per position,
/// the draw for position `i` lying in `i..n`.
pub open spec fn valid_swap_draws(draws: Seq<usize>, n: nat) -> bool {
    &&& draws.len() == n
    &&& forall|i: int| 0 <= i < draws.len() ==> i <= #[trigger] draws[i] < n
}

/// `s` with the entries at positions `i` and `j` exchanged.
pub open spec fn swap_positions(s: Seq<usize>, i: int, j: int) -> Seq<usize> {
    s.update(i, s[j]).update(j, s[i])
}

/// The order `0..n` after the first `k` swaps of a Fisher-Yates shuffle:
/// swap `i` exchanges position `i` with position `draws[i]`.
pub open spec fn fisher_yates_prefix(n: nat, draws: Seq<usize>, k: nat) -> Seq<usize>
    decreases k,
{
    if k == 0 {
        Seq::new(n, |i: int| i as usize)
    } else {
        swap_positions(
            fisher_yates_prefix(n, draws, (k - 1) as nat),
            k - 1,
            draws[k - 1] as int,
        )
    }
}

/// The order `0..n` after every swap that `draws` asks for.
pub open spec fn spec_fisher_yates(n: nat, draws: Seq<usize>) -> Seq<usize> {
    fisher_yates_prefix(n, draws, draws.len())
}

/// Arranges `0..n` by the Fisher-Yates method with the given draws: for each
/// position `i` in turn, the entries at `i` and `draws[i]` are exchanged.
pub fn apply_swaps(n: usize, draws: &Vec<usize>) -> (order: Vec<usize>)
    requires
        valid_swap_draws(draws@, n as nat),
    ensures
        order@ == spec_fisher_yates(n as nat, draws@),
        is_permutation_of_range(order@, n as nat),
{
    let mut order: Vec<usize> = Vec::new();
    let mut k: usize = 0;
    while k < n
        invariant
            k <= n,
            order@.len() == k,
            forall|i: int| 0 <= i < k ==> #[trigger] order@[i] == i,
        decreases n - k,
    {
        order.push(k);
        k += 1;
    }
    assert(order@ =~= fisher_yates_prefix(n as nat, draws@, 0));
    let mut i: usize = 0;
    while i < n
        invariant
            i <= n,
            valid_swap_draws(draws@, n as nat),
            order@ == fisher_yates_prefix(n as nat, draws@, i as nat),
            is_permutation_of_range(order@, n as nat),
        decreases n - i,
    {
        let j = draws[i];
        let a = order[i];
        let b = order[j];
        let ghost before = order@;
        order.set(i, b);
        order.set(j, a);
        proof {
            assert(order@ =~= swap_positions(before, i as int, j as int));
            assert forall|x: int, y: int|
                0 <= x < order@.len() && 0 <= y < order@.len() && x != y implies order@[x] != order@[y] by {
                let px = if x == i { j as int } else if x == j { i as int } else { x };
                let py = if y == i { j as int } else if y == j { i as int } else { y };
                assert(order@[x] == before[px]);
                assert(order@[y] == before[py]);
            }
        }
        i += 1;
    }
    order
}

/// Draws the swap targets of a Fisher-Yates shuffle of `0..n` from the
/// generator: for position `i`, an index from `i..n`, in order of `i`.
pub fn draw_swaps(rng: &mut StdRng, n: usize) -> (draws: Vec<usize>)
    ensures
        valid_swap_draws(draws@, n as nat),
{
    let mut draws: Vec<usize> = Vec::new();
    let mut i: usize = 0;
    while i < n
        invariant
            i <= n,
            draws@.len() == i,
            forall|k: int| 0 <= k < i ==> k <= #[trigger] draws@[k] < n,
        decreases n - i,
    {
        let j = random_index(rng, i, n);
        draws.push(j);
        i += 1;
    }
    draws
}

/// The indices `0..n` shuffled by the Fisher-Yates method with draws from
/// the generator: position `i` is exchanged with a position drawn from
/// `i..n`. The draws are taken in the same order as the swaps use them.
pub fn shuffled_indices(rng: &mut StdRng, n: usize) -> (order: Vec<usize>)
    ensures
        exists|draws: Seq<usize>|
            valid_swap_draws(draws, n as nat) && order@ == #[trigger] spec_fisher_yates(n as nat, draws),
        is_permutation_of_range(order@, n as nat),
{
    let draws = draw_swaps(rng, n);
    let order = apply_swaps(n, &draws);
    assert(valid_swap_draws(draws@, n as nat) && order@ == spec_fisher_yates(n as nat, draws@));
    order
}

/// Picks `count` distinct voters out of `n` citizens: the whole population
/// is shuffled and the first `count` of the shuffled order vote.
pub fn select_voters(rng: &mut StdRng, n: usize, count: usize) -> (voters: Vec<usize>)
    requires
        count <= n,
    ensures
        exists|draws: Seq<usize>|
            valid_swap_draws(draws, n as nat) && voters@ == #[trigger] spec_fisher_yates(n as nat, draws).take(
                count as int,
            ),
        distinct_indices_below(voters@, n as nat, count as nat),
{
    let mut order = shuffled_indices(rng, n);
    let ghost shuffled = order@;
    order.truncate(count);
    proof {
        let draws = choose|draws: Seq<usize>|
            valid_swap_draws(draws, n as nat) && shuffled == #[trigger] spec_fisher_yates(n as nat, draws);
        assert(order@ =~= spec_fisher_yates(n as nat, draws).take(count as int));
    }
    order
}

} // verus!

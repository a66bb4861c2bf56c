//! The order in which the agents of a round are asked.

use vstd::prelude::*;
use vstd::relations::injective;
use vstd::seq_lib::{seq_to_set_is_finite, to_multiset_contains, to_multiset_len};
use vstd::set_lib::{lemma_int_range, lemma_subset_equality, set_int_range};

verus! {

/// `order` names each of the `n` places of a roster exactly once.
pub open spec fn is_order(order: Seq<usize>, n: nat) -> bool {
    &&& order.len() == n
    &&& order.no_duplicates()
    &&& forall|i: int| 0 <= i < order.len() ==> order[i] < n
}

/// The places of a roster of `n` from the first to the last.
pub open spec fn roster_order(n: nat) -> Seq<usize> {
    Seq::new(n, |i: int| i as usize)
}

/// `rand`'s `shuffle` on a slice, fed by the thread's own generator. It only
/// ever swaps two items of the slice, so the same items are there afterwards,
/// each as often as before. In which order is left to chance.
#[verifier::external_body]
fn shuffle(order: &mut Vec<usize>)
    ensures
        final(order)@.to_multiset() == old(order)@.to_multiset(),
{
    rand::seq::SliceRandom::shuffle(order.as_mut_slice(), &mut rand::thread_rng());
}

/// The roster's own order is an order.
pub proof fn lemma_roster_order_is_order(n: nat)
    requires
        n <= usize::MAX,
    ensures
        is_order(roster_order(n), n),
{
}

/// Whatever holds the same places as an order, each as often, is an order.
pub proof fn lemma_rearranged_order(order: Seq<usize>, other: Seq<usize>, n: nat)
    requires
        is_order(order, n),
        other.to_multiset() == order.to_multiset(),
    ensures
        is_order(other, n),
{
    to_multiset_len(order);
    to_multiset_len(other);
    order.lemma_multiset_has_no_duplicates();
    other.lemma_multiset_has_no_duplicates_conv();
    assert forall|i: int| 0 <= i < other.len() implies other[i] < n by {
        to_multiset_contains(other, other[i]);
        to_multiset_contains(order, other[i]);
    }
}

/// An order leaves out no place of the roster.
pub proof fn lemma_order_names_every_place(order: Seq<usize>, n: nat, place: usize)
    requires
        is_order(order, n),
        place < n,
    ensures
        order.contains(place),
{
    let widen = |p: usize| p as int;
    let places = order.map_values(widen);
    assert(injective(widen));
    order.lemma_no_duplicates_injective(widen);
    places.unique_seq_to_set();
    seq_to_set_is_finite(places);
    lemma_int_range(0, n as int);
    assert forall|a: int| places.to_set().contains(a) implies set_int_range(0, n as int).contains(
        a,
    ) by {
        let i = choose|i: int| 0 <= i < places.len() && places[i] == a;
        assert(order[i] < n);
    }
    lemma_subset_equality(places.to_set(), set_int_range(0, n as int));
    assert(set_int_range(0, n as int).contains(place as int));
    assert(places.contains(place as int));
    let i = choose|i: int| 0 <= i < places.len() && places[i] == place as int;
    assert(order[i] == place);
}

/// The places of a roster of `n`, each once, in an order left to chance.
pub fn shuffled_order(n: usize) -> (order: Vec<usize>)
    ensures
        is_order(order@, n as nat),
{
    let mut order: Vec<usize> = Vec::new();
    let mut i: usize = 0;
    while i < n
        invariant
            i <= n,
            order@ == roster_order(i as nat),
        decreases n - i,
    {
        order.push(i);
        i += 1;
    }
    let ghost straight = order@;
    shuffle(&mut order);
    proof {
        lemma_roster_order_is_order(n as nat);
        lemma_rearranged_order(straight, order@, n as nat);
    }
    order
}

/// Tells whether `order` names each of the `n` places of a roster exactly
/// once.
pub fn is_roster_order(order: &Vec<usize>, n: usize) -> (yes: bool)
    ensures
        yes == is_order(order@, n as nat),
{
    if order.len() != n {
        return false;
    }
    let mut seen: Vec<bool> = Vec::new();
    let mut k: usize = 0;
    while k < n
        invariant
            k <= n,
            seen.len() == k,
            forall|v: int| 0 <= v < k ==> !seen[v],
        decreases n - k,
    {
        seen.push(false);
        k += 1;
    }
    let mut i: usize = 0;
    while i < order.len()
        invariant
            i <= order.len(),
            order.len() == n,
            seen.len() == n,
            forall|j: int| 0 <= j < i ==> order[j] < n,
            forall|v: int|
                0 <= v < n ==> (#[trigger] seen[v] <==> exists|j: int|
                    0 <= j < i && order[j] == v),
            forall|a: int, b: int| 0 <= a < b < i ==> order[a] != order[b],
        decreases order.len() - i,
    {
        let place = order[i];
        if place >= n {
            return false;
        }
        if seen[place] {
            return false;
        }
        seen.set(place, true);
        i += 1;
    }
    true
}

} // verus!

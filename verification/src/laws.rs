//! Laws that relate several operations of the library, proved over the spec
//! functions that the operations' contracts use.
use crate::algebra::{g1_dlog, group_order, lemma_value_reduced, pairing_check};
use crate::pubkey::{keys_value_sum, PubkeyProjective};
use vstd::prelude::*;

verus! {

/// Law: folding an empty key list into an aggregate leaves its value
/// unchanged — the value `aggregate_with` ensures for an empty sequence is
/// the accumulator's old value.
pub proof fn lemma_aggregate_with_empty(k: PubkeyProjective)
    ensures
        (k.value() + keys_value_sum(Seq::<PubkeyProjective>::empty())) % group_order()
            == k.value(),
{
    lemma_value_reduced(g1_dlog(k.0));
    lemma_value_reduced(k.value());
}

/// Law: aggregation is order-independent. For keys A, B, C, the value that
/// `aggregate` ensures for [A, B, C] equals the one for [C, A, B].
pub proof fn lemma_aggregate_commutes(a: PubkeyProjective, b: PubkeyProjective, c: PubkeyProjective)
    ensures
        keys_value_sum(seq![a, b, c]) == keys_value_sum(seq![c, a, b]),
{
    lemma_keys_value_sum_three(a, b, c);
    lemma_keys_value_sum_three(c, a, b);
}

/// The sum of a three-key sequence, written out.
pub proof fn lemma_keys_value_sum_three(
    x: PubkeyProjective,
    y: PubkeyProjective,
    z: PubkeyProjective,
)
    ensures
        keys_value_sum(seq![x, y, z]) == x.value() + y.value() + z.value(),
{
    let s = seq![x, y, z];
    assert(s.drop_last() =~= seq![x, y]);
    assert(seq![x, y].drop_last() =~= seq![x]);
    assert(seq![x].drop_last() =~= Seq::<PubkeyProjective>::empty());
    assert(keys_value_sum(Seq::<PubkeyProjective>::empty()) == 0);
    assert(keys_value_sum(seq![x]) == x.value());
    assert(keys_value_sum(seq![x, y]) == x.value() + y.value());
}

/// Removing one key from a sequence subtracts exactly its value from the sum.
pub proof fn lemma_keys_value_sum_remove(s: Seq<PubkeyProjective>, i: int)
    requires
        0 <= i < s.len(),
    ensures
        keys_value_sum(s) == keys_value_sum(s.remove(i)) + s[i].value(),
    decreases s.len(),
{
    if i == s.len() - 1 {
        assert(s.remove(i) =~= s.drop_last());
    } else {
        assert(s.remove(i).drop_last() =~= s.drop_last().remove(i));
        assert(s.remove(i).last() == s.last());
        lemma_keys_value_sum_remove(s.drop_last(), i);
    }
}

/// Law: the aggregate value depends only on the multiset of keys, never on
/// their order — sequences with equal multisets have equal value sums.
pub proof fn lemma_keys_value_sum_permutation(s1: Seq<PubkeyProjective>, s2: Seq<PubkeyProjective>)
    requires
        s1.to_multiset() == s2.to_multiset(),
    ensures
        keys_value_sum(s1) == keys_value_sum(s2),
    decreases s1.len(),
{
    broadcast use vstd::seq_lib::group_to_multiset_ensures;

    if s1.len() == 0 {
        assert(s1.to_multiset().len() == s1.len());
        assert(s2.to_multiset().len() == s2.len());
        assert(s2.len() == 0);
    } else {
        let last_index = s1.len() - 1;
        let x = s1[last_index as int];
        assert(s1.to_multiset().count(x) > 0);
        assert(s2.contains(x));
        let j = choose|j: int| 0 <= j < s2.len() && s2[j] == x;
        lemma_keys_value_sum_remove(s1, last_index as int);
        lemma_keys_value_sum_remove(s2, j);
        assert(s1.remove(last_index as int).to_multiset() =~= s1.to_multiset().remove(x));
        assert(s2.remove(j).to_multiset() =~= s2.to_multiset().remove(x));
        lemma_keys_value_sum_permutation(s1.remove(last_index as int), s2.remove(j));
    }
}

/// Law: a signature formed as `secret * H(message)` verifies against the
/// public key derived from that same secret — `check_signature` returns true
/// for the outputs of `from_secret` and `sign`.
pub proof fn lemma_own_signature_verifies(secret: nat, h: nat)
    requires
        secret < group_order(),
    ensures
        pairing_check(secret, (secret * h) % group_order(), h),
{
    lemma_value_reduced(secret * h);
    lemma_value_reduced((secret * h) % group_order());
}

} // verus!


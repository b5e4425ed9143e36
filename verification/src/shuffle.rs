//! Mix engine: a seeded pass that permutes the decrypted recipient list so
//! that payout order carries no relation to submission order.

use vstd::prelude::*;
use vstd::pervasive::VecAdditionalExecFns;
use vstd::seq_lib::group_to_multiset_ensures;

verus! {

/// The sequence with positions `i` and `j` exchanged.
pub open spec fn swap_at<A>(s: Seq<A>, i: int, j: int) -> Seq<A> {
    s.update(i, s[j]).update(j, s[i])
}

/// The state of the mixing pass after the swaps at positions `s.len() - 1`
/// down to `k`: position `i` is exchanged with position `seed % (i + 1)`,
/// highest position first.
pub open spec fn shuffle_down<A>(s: Seq<A>, seed: u64, k: nat) -> Seq<A>
    decreases s.len() - k,
{
    if k >= s.len() {
        s
    } else {
        swap_at(shuffle_down(s, seed, k + 1), k as int, (seed as int) % (k as int + 1))
    }
}

/// The mixed order of a list under a seed: the full pass, down to position 0.
pub open spec fn shuffle_spec<A>(s: Seq<A>, seed: u64) -> Seq<A> {
    shuffle_down(s, seed, 0)
}

proof fn lemma_shuffle_down_len<A>(s: Seq<A>, seed: u64, k: nat)
    ensures
        shuffle_down(s, seed, k).len() == s.len(),
    decreases s.len() - k,
{
    if k < s.len() {
        lemma_shuffle_down_len(s, seed, k + 1);
    }
}

proof fn lemma_swap_at_multiset<A>(s: Seq<A>, i: int, j: int)
    requires
        0 <= i < s.len(),
        0 <= j < s.len(),
    ensures
        swap_at(s, i, j).to_multiset() =~= s.to_multiset(),
        swap_at(s, i, j).len() == s.len(),
{
    broadcast use group_to_multiset_ensures;

    if i == j {
        assert(swap_at(s, i, j) =~= s);
    } else {
        let t1 = s.update(i, s[j]);
        let t2 = t1.update(j, s[i]);
        vstd::seq_lib::to_multiset_update(s, i, s[j]);
        vstd::seq_lib::to_multiset_update(t1, j, s[i]);
        assert(t1[j] == s[j]);
        assert(s.to_multiset().count(s[i]) > 0);
        assert(s.to_multiset().insert(s[j]).remove(s[i]).insert(s[i]).remove(s[j])
            =~= s.to_multiset());
    }
}

/// The seeded mixing pass is a permutation: whatever the seed, the mixed
/// list has the same length and the same multiset of entries as the input.
pub proof fn lemma_shuffle_permutes<A>(s: Seq<A>, seed: u64)
    ensures
        shuffle_spec(s, seed).len() == s.len(),
        shuffle_spec(s, seed).to_multiset() == s.to_multiset(),
{
    lemma_shuffle_down_multiset(s, seed, 0);
}

proof fn lemma_shuffle_down_multiset<A>(s: Seq<A>, seed: u64, k: nat)
    ensures
        shuffle_down(s, seed, k).len() == s.len(),
        shuffle_down(s, seed, k).to_multiset() == s.to_multiset(),
    decreases s.len() - k,
{
    if k >= s.len() {
    } else {
        lemma_shuffle_down_multiset(s, seed, k + 1);
        let t = shuffle_down(s, seed, k + 1);
        lemma_swap_at_multiset(t, k as int, (seed as int) % (k as int + 1));
    }
}

/// The per-entry views of a list of byte vectors.
pub open spec fn views_of(s: Seq<Vec<u8>>) -> Seq<Seq<u8>> {
    Seq::new(s.len(), |i: int| s[i]@)
}

proof fn lemma_shuffle_down_views(s: Seq<Vec<u8>>, seed: u64, k: nat)
    ensures
        views_of(shuffle_down(s, seed, k)) == shuffle_down(views_of(s), seed, k),
    decreases s.len() - k,
{
    if k < s.len() {
        lemma_shuffle_down_views(s, seed, k + 1);
        let t = shuffle_down(s, seed, k + 1);
        let j = (seed as int) % (k as int + 1);
        lemma_shuffle_down_len(s, seed, k + 1);
        assert(views_of(swap_at(t, k as int, j)) =~= swap_at(views_of(t), k as int, j));
    } else {
        assert(views_of(shuffle_down(s, seed, k)) =~= shuffle_down(views_of(s), seed, k));
    }
}

/// Mixing commutes with taking per-entry views: the views of the mixed
/// list are the mixed views.
pub proof fn lemma_shuffle_views_commute(s: Seq<Vec<u8>>, seed: u64)
    ensures
        views_of(shuffle_spec(s, seed)) == shuffle_spec(views_of(s), seed),
{
    lemma_shuffle_down_views(s, seed, 0);
}

/// Exchanges entries `i` and `j` without cloning.
fn swap_entries(v: &mut Vec<Vec<u8>>, i: usize, j: usize)
    requires
        i < old(v)@.len(),
        j < old(v)@.len(),
    ensures
        final(v)@ == swap_at(old(v)@, i as int, j as int),
{
    if i == j {
        proof {
            assert(swap_at(v@, i as int, j as int) =~= v@);
        }
        return ;
    }
    let mut tmp: Vec<u8> = Vec::new();
    v.set_and_swap(i, &mut tmp);
    v.set_and_swap(j, &mut tmp);
    v.set_and_swap(i, &mut tmp);
    proof {
        assert(v@ =~= swap_at(old(v)@, i as int, j as int));
    }
}

/// Permutes the recipient list in place: position `i` is exchanged with
/// position `seed % (i + 1)`, from the last position down to the first.
/// The caller supplies the seed; unlinkability requires it to come from a
/// secret, unpredictable source private to the enclave.
pub fn shuffle(recipients: &mut Vec<Vec<u8>>, seed: u64)
    ensures
        final(recipients)@ == shuffle_spec(old(recipients)@, seed),
        final(recipients)@.len() == old(recipients)@.len(),
        final(recipients)@.to_multiset() == old(recipients)@.to_multiset(),
{
    let n = recipients.len();
    let mut i: usize = n;
    while i > 0
        invariant
            i <= n,
            n == old(recipients)@.len(),
            recipients@ == shuffle_down(old(recipients)@, seed, i as nat),
            recipients@.len() == n,
        decreases i,
    {
        i = i - 1;
        let j = (seed % (i as u64 + 1)) as usize;
        proof {
            lemma_shuffle_down_len(old(recipients)@, seed, i as nat + 1);
        }
        assert(j <= i);
        swap_entries(recipients, i, j);
        proof {
            assert(recipients@ == shuffle_down(old(recipients)@, seed, i as nat));
        }
    }
    proof {
        lemma_shuffle_permutes(old(recipients)@, seed);
    }
}

} // verus!

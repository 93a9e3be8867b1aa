use vstd::prelude::*;
use rand::seq::SliceRandom;
use rand::Rng;

verus! {

/// The views of the items of a sequence.
pub open spec fn views_of<T: View>(s: Seq<T>) -> Seq<T::V> {
    s.map_values(|x: T| x@)
}

/// `SliceRandom::shuffle` of rand with the thread-local generator: puts the
/// items of `v` in an order left to chance. Claimed: the same items stay,
/// each as often as before (a Fisher–Yates pass only swaps), so their views
/// do too.
#[verifier::external_body]
pub(crate) fn shuffle<T: View>(v: &mut Vec<T>)
    ensures
        views_of(final(v)@).to_multiset() == views_of(old(v)@).to_multiset(),
{
    v.shuffle(&mut rand::thread_rng());
}

/// `Rng::gen_range` of rand on `lo..hi` with the thread-local generator.
/// Claimed: the result lies in the range; which value comes is left to chance.
/// rand panics on an empty range, so `lo < hi` is required.
#[verifier::external_body]
pub(crate) fn random_index(lo: usize, hi: usize) -> (r: usize)
    requires
        lo < hi,
    ensures
        lo <= r < hi,
{
    rand::thread_rng().gen_range(lo..hi)
}

/// `SliceRandom::choose` of rand with the thread-local generator, the
/// chosen item copied. Claimed: `None` exactly when `v` is empty, and
/// otherwise one of the items of `v`; which one is left to chance.
#[verifier::external_body]
pub(crate) fn choose_one<T: Copy>(v: &Vec<T>) -> (r: Option<T>)
    ensures
        r is None <==> v@.len() == 0,
        r matches Some(x) ==> v@.contains(x),
{
    v.choose(&mut rand::thread_rng()).copied()
}

/// Items that occur in the same numbers in two sequences occur in both.
pub proof fn lemma_same_items<T>(a: Seq<T>, b: Seq<T>, x: T)
    requires
        a.to_multiset() == b.to_multiset(),
    ensures
        a.contains(x) <==> b.contains(x),
{
    a.to_multiset_ensures();
    b.to_multiset_ensures();
    assert(a.contains(x) <==> a.to_multiset().count(x) > 0);
    assert(b.contains(x) <==> b.to_multiset().count(x) > 0);
}

} // verus!

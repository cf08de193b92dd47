use vstd::prelude::*;

verus! {

/// The items whose mark is set, in the order they had.
pub open spec fn kept<T>(items: Seq<T>, keep: Seq<bool>) -> Seq<T>
    decreases items.len(),
{
    if items.len() == 0 {
        Seq::empty()
    } else {
        let last = items.len() - 1;
        let front = kept(items.subrange(0, last), keep.subrange(0, last));
        if keep[last] {
            front.push(items[last])
        } else {
            front
        }
    }
}

/// `x` is an item of `items` whose mark is set.
pub open spec fn is_marked_item<T>(items: Seq<T>, keep: Seq<bool>, x: T) -> bool {
    exists|i: int| 0 <= i < items.len() && keep[i] && items[i] == x
}

/// Culling never lengthens a list, and each survivor is an item of the input
/// whose mark was set: nothing is brought back or made up.
pub proof fn lemma_kept_only_marked<T>(items: Seq<T>, keep: Seq<bool>)
    requires
        keep.len() == items.len(),
    ensures
        kept(items, keep).len() <= items.len(),
        forall|j: int|
            0 <= j < kept(items, keep).len() ==> is_marked_item(items, keep, #[trigger] kept(items, keep)[j]),
    decreases items.len(),
{
    if items.len() > 0 {
        let last = items.len() - 1;
        let front_items = items.subrange(0, last);
        let front_keep = keep.subrange(0, last);
        lemma_kept_only_marked(front_items, front_keep);
        let front = kept(front_items, front_keep);
        let all = kept(items, keep);
        assert forall|j: int| 0 <= j < all.len() implies is_marked_item(items, keep, #[trigger] all[j]) by {
            if j < front.len() {
                assert(all[j] == front[j]);
                assert(is_marked_item(front_items, front_keep, front[j]));
                let i = choose|i: int|
                    0 <= i < front_items.len() && front_keep[i] && front_items[i] == front[j];
                assert(items[i] == front_items[i] && keep[i] == front_keep[i]);
            } else {
                assert(keep[last] && all[j] == items[last]);
            }
        }
    }
}

/// Removes from `items` every item whose mark in `keep` is clear, keeping the
/// relative order of the survivors.
pub fn retain_marked<T>(items: &mut Vec<T>, keep: &Vec<bool>)
    requires
        keep@.len() == old(items)@.len(),
    ensures
        final(items)@ == kept(old(items)@, keep@),
{
    let ghost orig = items@;
    let n = items.len();
    let mut reversed: Vec<T> = Vec::new();
    while items.len() > 0
        invariant
            orig.len() == n,
            items@ == orig.subrange(0, items@.len() as int),
            reversed@.len() + items@.len() == n,
            forall|k: int| 0 <= k < reversed@.len() ==> reversed@[k] == orig[n - 1 - k],
        decreases items@.len(),
    {
        match items.pop() {
            Some(x) => reversed.push(x),
            None => {},
        }
    }
    let mut i: usize = 0;
    while i < n
        invariant
            orig.len() == n,
            keep@.len() == n,
            i <= n,
            reversed@.len() == n - i,
            forall|k: int| 0 <= k < reversed@.len() ==> reversed@[k] == orig[n - 1 - k],
            items@ == kept(orig.subrange(0, i as int), keep@.subrange(0, i as int)),
        decreases n - i,
    {
        match reversed.pop() {
            Some(x) => {
                proof {
                    let next = orig.subrange(0, i as int + 1);
                    assert(next.subrange(0, i as int) =~= orig.subrange(0, i as int));
                    assert(keep@.subrange(0, i as int + 1).subrange(0, i as int)
                        =~= keep@.subrange(0, i as int));
                }
                if keep[i] {
                    items.push(x);
                }
            },
            None => {},
        }
        i = i + 1;
    }
    proof {
        assert(orig.subrange(0, n as int) =~= orig);
        assert(keep@.subrange(0, n as int) =~= keep@);
    }
}

} // verus!

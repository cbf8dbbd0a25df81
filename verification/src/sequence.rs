//! Sequences: the views of the items of one, the first item of which a
//! predicate holds, the positions at which one holds, and what the items of a
//! sequence give when each gives a piece.

use vstd::prelude::*;

verus! {

/// The views of the items of `items`, in their order.
pub open spec fn models<T: View>(items: Seq<T>) -> Seq<T::V> {
    Seq::new(items.len(), |i: int| items[i]@)
}

/// Whether `wanted` holds of some item of `items`.
pub open spec fn any<T>(items: Seq<T>, wanted: spec_fn(T) -> bool) -> bool {
    exists|i: int| 0 <= i < items.len() && wanted(#[trigger] items[i])
}

/// The position of the first item of `items` of which `wanted` holds.
pub open spec fn first_index<T>(items: Seq<T>, wanted: spec_fn(T) -> bool) -> Option<int>
    decreases items.len(),
{
    if items.len() == 0 {
        None
    } else {
        match first_index(items.drop_last(), wanted) {
            Some(i) => Some(i),
            None => if wanted(items.last()) {
                Some(items.len() - 1)
            } else {
                None
            },
        }
    }
}

/// `first_index` gives a position of the sequence at which `wanted` holds and
/// before which it holds nowhere, or nothing where it holds nowhere.
pub proof fn lemma_first_index<T>(items: Seq<T>, wanted: spec_fn(T) -> bool)
    ensures
        match first_index(items, wanted) {
            Some(i) => {
                &&& 0 <= i < items.len()
                &&& wanted(items[i])
                &&& forall|j: int| 0 <= j < i ==> !wanted(#[trigger] items[j])
            },
            None => forall|j: int| 0 <= j < items.len() ==> !wanted(#[trigger] items[j]),
        },
    decreases items.len(),
{
    if items.len() > 0 {
        let front = items.drop_last();
        lemma_first_index(front, wanted);
        assert forall|j: int| 0 <= j < front.len() implies front[j] == items[j] by {}
    }
}

/// One more item at the end changes `first_index` only where nothing was
/// found before it.
pub proof fn lemma_first_index_step<T>(items: Seq<T>, wanted: spec_fn(T) -> bool, n: int)
    requires
        0 <= n < items.len(),
    ensures
        first_index(items.take(n + 1), wanted) == match first_index(items.take(n), wanted) {
            Some(i) => Some(i),
            None => if wanted(items[n]) {
                Some(n)
            } else {
                None
            },
        },
{
    assert(items.take(n + 1).drop_last() =~= items.take(n));
}

/// What was found first in a front part of a sequence is what is found first
/// in the whole of it.
pub proof fn lemma_first_index_of_front<T>(items: Seq<T>, wanted: spec_fn(T) -> bool, n: int)
    requires
        0 <= n < items.len(),
        first_index(items.take(n + 1), wanted) == Some(n),
    ensures
        first_index(items, wanted) == Some(n),
{
    lemma_first_index(items.take(n + 1), wanted);
    lemma_first_index(items, wanted);
    assert forall|i: int| 0 <= i <= n implies items.take(n + 1)[i] == items[i] by {}
}

/// The positions below `n` at which `wanted` holds, in rising order.
pub open spec fn positions_below(n: nat, wanted: spec_fn(int) -> bool) -> Seq<int>
    decreases n,
{
    if n == 0 {
        Seq::<int>::empty()
    } else {
        let before = positions_below((n - 1) as nat, wanted);
        if wanted(n - 1) {
            before.push(n - 1)
        } else {
            before
        }
    }
}

/// `positions_below` gives positions below `n` at which `wanted` holds, in
/// rising order, and leaves out none of them.
pub proof fn lemma_positions_below(n: nat, wanted: spec_fn(int) -> bool)
    ensures
        forall|k: int|
            0 <= k < positions_below(n, wanted).len() ==> 0 <= #[trigger] positions_below(
                n,
                wanted,
            )[k] < n && wanted(positions_below(n, wanted)[k]),
        forall|k: int, l: int|
            0 <= k < l < positions_below(n, wanted).len() ==> #[trigger] positions_below(
                n,
                wanted,
            )[k] < #[trigger] positions_below(n, wanted)[l],
        forall|i: int|
            0 <= i < n && wanted(i) ==> #[trigger] positions_below(n, wanted).contains(i),
        positions_below(n, wanted).len() <= n,
    decreases n,
{
    if n > 0 {
        lemma_positions_below((n - 1) as nat, wanted);
        let before = positions_below((n - 1) as nat, wanted);
        let now = positions_below(n, wanted);
        assert forall|i: int| 0 <= i < n && wanted(i) implies now.contains(i) by {
            if i < n - 1 {
                assert(before.contains(i));
                let k = choose|k: int| 0 <= k < before.len() && before[k] == i;
                assert(now[k] == i);
            } else {
                assert(now[now.len() - 1] == i);
            }
        }
    }
}

/// What `piece` gives for the items, one behind the other.
pub open spec fn joined<T, U>(items: Seq<T>, piece: spec_fn(T) -> Seq<U>) -> Seq<U>
    decreases items.len(),
{
    if items.len() == 0 {
        Seq::<U>::empty()
    } else {
        joined(items.drop_last(), piece) + piece(items.last())
    }
}

/// What the first `n + 1` items give is what the first `n` give and then
/// the piece of the item at `n`.
pub proof fn lemma_joined_step<T, U>(items: Seq<T>, piece: spec_fn(T) -> Seq<U>, n: int)
    requires
        0 <= n < items.len(),
    ensures
        joined(items.take(n + 1), piece) == joined(items.take(n), piece) + piece(items[n]),
{
    assert(items.take(n + 1).drop_last() =~= items.take(n));
}

/// What two sequences give, one behind the other, is what the first gives
/// and then what the second gives.
pub proof fn lemma_joined_concat<T, U>(
    front: Seq<T>,
    back: Seq<T>,
    piece: spec_fn(T) -> Seq<U>,
)
    ensures
        joined(front + back, piece) == joined(front, piece) + joined(back, piece),
    decreases back.len(),
{
    if back.len() > 0 {
        lemma_joined_concat(front, back.drop_last(), piece);
        assert((front + back).drop_last() =~= front + back.drop_last());
    }
}

/// The piece of each item stands in what the sequence gives, between what
/// the items before it give and what those behind it give.
pub proof fn lemma_joined_split<T, U>(items: Seq<T>, piece: spec_fn(T) -> Seq<U>, k: int)
    requires
        0 <= k < items.len(),
    ensures
        joined(items, piece) == joined(items.take(k), piece) + piece(items[k]) + joined(
            items.skip(k + 1),
            piece,
        ),
{
    lemma_joined_step(items, piece, k);
    lemma_joined_concat(items.take(k + 1), items.skip(k + 1), piece);
    assert(items.take(k + 1) + items.skip(k + 1) =~= items);
}

} // verus!

//! Finding, inserting and ordering in sequences.
use vstd::prelude::*;

verus! {

/// The index of the first item that passes the test, if one does.
pub open spec fn position<T>(items: Seq<T>, test: spec_fn(T) -> bool) -> Option<int>
    decreases items.len(),
{
    if items.len() == 0 {
        None
    } else if test(items[0]) {
        Some(0)
    } else {
        match position(items.drop_first(), test) {
            Some(index) => Some(index + 1),
            None => None,
        }
    }
}

/// The items with the first one that passes the test replaced, or with the new
/// item behind them where none does.
pub open spec fn upsert<T>(items: Seq<T>, test: spec_fn(T) -> bool, item: T) -> Seq<T> {
    match position(items, test) {
        Some(index) => items.update(index, item),
        None => items.push(item),
    }
}

/// The items with the first one that passes the test changed; all of them as they
/// were where none does.
pub open spec fn change_first<T>(
    items: Seq<T>,
    test: spec_fn(T) -> bool,
    change: spec_fn(T) -> T,
) -> Seq<T> {
    match position(items, test) {
        Some(index) => items.update(index, change(items[index])),
        None => items,
    }
}

/// An index that passes the test behind none that does is the position.
pub proof fn lemma_position_at<T>(items: Seq<T>, test: spec_fn(T) -> bool, index: int)
    requires
        0 <= index < items.len(),
        test(items[index]),
        forall|i: int| 0 <= i < index ==> !test(#[trigger] items[i]),
    ensures
        position(items, test) == Some(index),
    decreases items.len(),
{
    if index > 0 {
        let rest = items.drop_first();
        assert(!test(items[0]));
        assert forall|i: int| 0 <= i < index - 1 implies !test(#[trigger] rest[i]) by {
            assert(rest[i] == items[i + 1]);
        }
        lemma_position_at(rest, test, index - 1);
    }
}

/// Where no item passes the test there is no position.
pub proof fn lemma_position_none<T>(items: Seq<T>, test: spec_fn(T) -> bool)
    requires
        forall|i: int| 0 <= i < items.len() ==> !test(#[trigger] items[i]),
    ensures
        position(items, test) is None,
    decreases items.len(),
{
    if items.len() > 0 {
        let rest = items.drop_first();
        assert forall|i: int| 0 <= i < rest.len() implies !test(#[trigger] rest[i]) by {
            assert(rest[i] == items[i + 1]);
        }
        assert(!test(items[0]));
        lemma_position_none(rest, test);
    }
}

/// What `position` says of the items.
pub proof fn lemma_position<T>(items: Seq<T>, test: spec_fn(T) -> bool)
    ensures
        match position(items, test) {
            Some(index) => {
                &&& 0 <= index < items.len()
                &&& test(items[index])
                &&& forall|i: int| 0 <= i < index ==> !test(#[trigger] items[i])
            },
            None => forall|i: int| 0 <= i < items.len() ==> !test(#[trigger] items[i]),
        },
    decreases items.len(),
{
    if items.len() > 0 && !test(items[0]) {
        let rest = items.drop_first();
        lemma_position(rest, test);
        match position(rest, test) {
            Some(index) => {
                assert(items[index + 1] == rest[index]);
                assert forall|i: int| 0 <= i < index + 1 implies !test(#[trigger] items[i]) by {
                    if i > 0 {
                        assert(items[i] == rest[i - 1]);
                    }
                }
            },
            None => {
                assert forall|i: int| 0 <= i < items.len() implies !test(#[trigger] items[i]) by {
                    if i > 0 {
                        assert(items[i] == rest[i - 1]);
                    }
                }
            },
        }
    }
}

/// The items with `item` behind every one that does not have to come after it.
///
/// `after(a, b)` says that `a` has to come strictly after `b`.
pub open spec fn insert_ordered<T>(
    items: Seq<T>,
    item: T,
    after: spec_fn(T, T) -> bool,
) -> Seq<T>
    decreases items.len(),
{
    if items.len() > 0 && after(items.last(), item) {
        insert_ordered(items.drop_last(), item, after).push(items.last())
    } else {
        items.push(item)
    }
}

/// The items in order; those that the order does not part keep the order they had.
pub open spec fn ordered<T>(items: Seq<T>, after: spec_fn(T, T) -> bool) -> Seq<T>
    decreases items.len(),
{
    if items.len() == 0 {
        items
    } else {
        insert_ordered(ordered(items.drop_last(), after), items.last(), after)
    }
}

/// Whether no item has to come after a later one.
pub open spec fn in_order<T>(items: Seq<T>, after: spec_fn(T, T) -> bool) -> bool {
    forall|i: int, j: int|
        0 <= i < j < items.len() ==> !after(#[trigger] items[i], #[trigger] items[j])
}

/// Whether `after` is the strict part of a total preorder.
pub open spec fn is_order<T>(after: spec_fn(T, T) -> bool) -> bool {
    &&& forall|a: T, b: T| #[trigger] after(a, b) ==> !after(b, a)
    &&& forall|a: T, b: T, c: T|
        !#[trigger] after(a, b) && !#[trigger] after(b, c) ==> !after(a, c)
}

/// Ordering items neither adds nor drops one, and leaves none before an item that it
/// has to come after.
pub proof fn law_ordered_is_a_sorted_rearrangement<T>(items: Seq<T>, after: spec_fn(T, T) -> bool)
    requires
        is_order(after),
    ensures
        in_order(ordered(items, after), after),
        ordered(items, after).to_multiset() == items.to_multiset(),
    decreases items.len(),
{
    broadcast use vstd::seq_lib::group_to_multiset_ensures;

    if items.len() > 0 {
        let front = items.drop_last();
        law_ordered_is_a_sorted_rearrangement(front, after);
        lemma_insert_ordered(ordered(front, after), items.last(), after);
        assert(items =~= front.push(items.last()));
    }
}

/// Inserting keeps an ordered sequence ordered, adds exactly the item, and leaves a
/// sequence whose items all may precede the item as it was, with the item behind it.
pub proof fn lemma_insert_ordered<T>(items: Seq<T>, item: T, after: spec_fn(T, T) -> bool)
    requires
        is_order(after),
        in_order(items, after),
    ensures
        in_order(insert_ordered(items, item, after), after),
        insert_ordered(items, item, after).len() == items.len() + 1,
        insert_ordered(items, item, after).to_multiset() == items.to_multiset().insert(item),
        forall|i: int|
            0 <= i <= items.len() ==> #[trigger] insert_ordered(items, item, after)[i] == item
                || items.contains(insert_ordered(items, item, after)[i]),
    decreases items.len(),
{
    broadcast use vstd::seq_lib::group_to_multiset_ensures;

    let inserted = insert_ordered(items, item, after);
    if items.len() > 0 && after(items.last(), item) {
        let front = items.drop_last();
        lemma_insert_ordered(front, item, after);
        let placed = insert_ordered(front, item, after);
        assert(items =~= front.push(items.last()));
        assert forall|i: int| 0 <= i <= items.len() implies #[trigger] inserted[i] == item
            || items.contains(inserted[i]) by {
            if i < items.len() {
                assert(inserted[i] == placed[i]);
                if placed[i] != item {
                    let k = choose|k: int| 0 <= k < front.len() && front[k] == placed[i];
                    assert(items[k] == inserted[i]);
                }
            } else {
                assert(inserted[i] == items[items.len() - 1]);
            }
        }
        assert forall|i: int, j: int| 0 <= i < j < inserted.len() implies !after(
            #[trigger] inserted[i],
            #[trigger] inserted[j],
        ) by {
            if j == inserted.len() - 1 {
                assert(inserted[i] == placed[i]);
                if placed[i] != item {
                    let k = choose|k: int| 0 <= k < front.len() && front[k] == placed[i];
                    assert(items[k] == placed[i] && items[items.len() - 1] == inserted[j]);
                }
            } else {
                assert(inserted[i] == placed[i] && inserted[j] == placed[j]);
            }
        }
    } else {
        assert forall|i: int, j: int| 0 <= i < j < inserted.len() implies !after(
            #[trigger] inserted[i],
            #[trigger] inserted[j],
        ) by {
            if j == inserted.len() - 1 {
                if i < items.len() - 1 {
                    assert(!after(items[i], items[items.len() - 1]));
                }
            } else {
                assert(inserted[i] == items[i] && inserted[j] == items[j]);
            }
        }
        assert forall|i: int| 0 <= i <= items.len() implies #[trigger] inserted[i] == item
            || items.contains(inserted[i]) by {
            if i < items.len() {
                assert(inserted[i] == items[i]);
            }
        }
    }
}

/// Whether every two items differ.
pub open spec fn apart<T>(items: Seq<T>, differ: spec_fn(T, T) -> bool) -> bool {
    forall|i: int, j: int|
        0 <= i < j < items.len() ==> differ(#[trigger] items[i], #[trigger] items[j])
}

/// Ordering gives the items themselves, and leaves them apart where they were.
pub proof fn lemma_ordered_keeps_apart<T>(
    items: Seq<T>,
    after: spec_fn(T, T) -> bool,
    differ: spec_fn(T, T) -> bool,
)
    requires
        apart(items, differ),
        forall|a: T, b: T| #[trigger] differ(a, b) == differ(b, a),
    ensures
        ordered(items, after).len() == items.len(),
        forall|i: int|
            0 <= i < items.len() ==> items.contains(#[trigger] ordered(items, after)[i]),
        forall|i: int|
            0 <= i < items.len() ==> ordered(items, after).contains(#[trigger] items[i]),
        apart(ordered(items, after), differ),
    decreases items.len(),
{
    if items.len() > 0 {
        let front = items.drop_last();
        let last = items.last();
        let placed = ordered(front, after);
        assert forall|i: int, j: int| 0 <= i < j < front.len() implies differ(
            #[trigger] front[i],
            #[trigger] front[j],
        ) by {
            assert(front[i] == items[i] && front[j] == items[j]);
        }
        lemma_ordered_keeps_apart(front, after, differ);
        assert forall|i: int| 0 <= i < placed.len() implies differ(#[trigger] placed[i], last) by {
            assert(front.contains(placed[i]));
            let k = choose|k: int| 0 <= k < front.len() && front[k] == placed[i];
            assert(items[k] == placed[i] && items[items.len() - 1] == last);
        }
        lemma_insert_keeps_apart(placed, last, after, differ);
        let all = ordered(items, after);
        assert forall|i: int| 0 <= i < items.len() implies items.contains(#[trigger] all[i]) by {
            if all[i] == last {
                assert(items[items.len() - 1] == all[i]);
            } else {
                assert(placed.contains(all[i]));
                let k = choose|k: int| 0 <= k < placed.len() && placed[k] == all[i];
                assert(front.contains(placed[k]));
                let m = choose|m: int| 0 <= m < front.len() && front[m] == placed[k];
                assert(items[m] == all[i]);
            }
        }
        assert forall|i: int| 0 <= i < items.len() implies all.contains(#[trigger] items[i]) by {
            if i < items.len() - 1 {
                assert(placed.contains(front[i]));
                let k = choose|k: int| 0 <= k < placed.len() && placed[k] == front[i];
                assert(all.contains(placed[k]));
            }
        }
    }
}

proof fn lemma_insert_keeps_apart<T>(
    items: Seq<T>,
    item: T,
    after: spec_fn(T, T) -> bool,
    differ: spec_fn(T, T) -> bool,
)
    requires
        apart(items, differ),
        forall|i: int| 0 <= i < items.len() ==> differ(#[trigger] items[i], item),
        forall|a: T, b: T| #[trigger] differ(a, b) == differ(b, a),
    ensures
        insert_ordered(items, item, after).len() == items.len() + 1,
        insert_ordered(items, item, after).contains(item),
        forall|i: int|
            0 <= i <= items.len() ==> #[trigger] insert_ordered(items, item, after)[i] == item
                || items.contains(insert_ordered(items, item, after)[i]),
        forall|i: int|
            0 <= i < items.len() ==> insert_ordered(items, item, after).contains(
                #[trigger] items[i],
            ),
        apart(insert_ordered(items, item, after), differ),
    decreases items.len(),
{
    let inserted = insert_ordered(items, item, after);
    if items.len() > 0 && after(items.last(), item) {
        let front = items.drop_last();
        let placed = insert_ordered(front, item, after);
        assert forall|i: int, j: int| 0 <= i < j < front.len() implies differ(
            #[trigger] front[i],
            #[trigger] front[j],
        ) by {
            assert(front[i] == items[i] && front[j] == items[j]);
        }
        assert forall|i: int| 0 <= i < front.len() implies differ(#[trigger] front[i], item) by {
            assert(front[i] == items[i]);
        }
        lemma_insert_keeps_apart(front, item, after, differ);
        let k = choose|k: int| 0 <= k < placed.len() && placed[k] == item;
        assert(inserted[k] == item);
        assert forall|i: int| 0 <= i <= items.len() implies #[trigger] inserted[i] == item
            || items.contains(inserted[i]) by {
            if i < items.len() {
                assert(inserted[i] == placed[i]);
                if placed[i] != item {
                    let m = choose|m: int| 0 <= m < front.len() && front[m] == placed[i];
                    assert(items[m] == inserted[i]);
                }
            } else {
                assert(inserted[i] == items[items.len() - 1]);
            }
        }
        assert forall|i: int| 0 <= i < items.len() implies inserted.contains(
            #[trigger] items[i],
        ) by {
            if i < items.len() - 1 {
                assert(placed.contains(front[i]));
                let m = choose|m: int| 0 <= m < placed.len() && placed[m] == front[i];
                assert(inserted[m] == items[i]);
            } else {
                assert(inserted[items.len() as int] == items[i]);
            }
        }
        assert forall|i: int, j: int| 0 <= i < j < inserted.len() implies differ(
            #[trigger] inserted[i],
            #[trigger] inserted[j],
        ) by {
            assert(inserted[i] == placed[i]);
            if j < placed.len() {
                assert(inserted[j] == placed[j]);
            } else {
                assert(inserted[j] == items[items.len() - 1]);
                if placed[i] == item {
                    assert(differ(items[items.len() - 1], item));
                } else {
                    let m = choose|m: int| 0 <= m < front.len() && front[m] == placed[i];
                    assert(items[m] == placed[i]);
                }
            }
        }
    } else {
        assert(inserted[items.len() as int] == item);
        assert forall|i: int| 0 <= i < items.len() implies inserted.contains(
            #[trigger] items[i],
        ) by {
            assert(inserted[i] == items[i]);
        }
        assert forall|i: int| 0 <= i <= items.len() implies #[trigger] inserted[i] == item
            || items.contains(inserted[i]) by {
            if i < items.len() {
                assert(items[i] == inserted[i]);
            }
        }
        assert forall|i: int, j: int| 0 <= i < j < inserted.len() implies differ(
            #[trigger] inserted[i],
            #[trigger] inserted[j],
        ) by {
            assert(inserted[i] == items[i]);
            if j < items.len() {
                assert(inserted[j] == items[j]);
            }
        }
    }
}

/// An item that has its place among others.
pub trait Placed: Sized {
    /// Whether this item has to come strictly after another.
    spec fn follows_spec(self, other: Self) -> bool;

    /// Whether this item has to come strictly after another.
    fn follows(&self, other: &Self) -> (follows: bool)
        ensures
            follows == self.follows_spec(*other),
    ;
}

/// The order of items that have their places.
pub open spec fn places<T: Placed>() -> spec_fn(T, T) -> bool {
    |a: T, b: T| a.follows_spec(b)
}

/// Puts items in order; those that the order does not part keep the order they had.
pub fn put_in_order<T: Placed>(items: &mut Vec<T>)
    ensures
        final(items)@ == ordered(old(items)@, places::<T>()),
{
    let ghost before = items@;
    let mut done: usize = 0;
    proof {
        assert(before.take(0) =~= Seq::<T>::empty());
        assert(ordered(before.take(0), places::<T>()) =~= items@.take(0));
        assert(items@.skip(0) =~= before.skip(0));
    }
    while done < items.len()
        invariant
            done <= items.len(),
            items@.len() == before.len(),
            items@.take(done as int) == ordered(before.take(done as int), places::<T>()),
            items@.skip(done as int) == before.skip(done as int),
        decreases items.len() - done,
    {
        let ghost sorted = items@.take(done as int);
        assert(items@[done as int] == items@.skip(done as int)[0]);
        let item = items.remove(done);
        let ghost rest = items@.skip(done as int);
        proof {
            assert(items@.take(done as int) =~= sorted);
            assert(item == before[done as int]) by {
                assert(before.skip(done as int)[0] == before[done as int]);
            }
            assert(rest =~= before.skip(done + 1)) by {
                assert forall|k: int| 0 <= k < rest.len() implies rest[k] == before.skip(
                    done + 1,
                )[k] by {
                    assert(rest[k] == before.skip(done as int)[k + 1]);
                }
            }
        }
        let mut place: usize = done;
        while place > 0 && items[place - 1].follows(&item)
            invariant
                place <= done,
                done <= items@.len(),
                items@.take(done as int) == sorted,
                forall|k: int| place <= k < done ==> (#[trigger] sorted[k]).follows_spec(item),
            decreases place,
        {
            assert(items@[place - 1] == sorted[place - 1]);
            place -= 1;
        }
        proof {
            if place > 0 {
                assert(items@[place - 1] == sorted[place - 1]);
            }
            lemma_insert_ordered_at(sorted, item, places::<T>(), place as int);
        }
        items.insert(place, item);
        done += 1;
        proof {
            assert(items@.take(done as int) =~= sorted.insert(place as int, item));
            assert(items@.skip(done as int) =~= rest);
            assert(before.take(done as int).drop_last() =~= before.take(done - 1));
        }
    }
    proof {
        assert(items@.take(done as int) =~= items@);
        assert(before.take(done as int) =~= before);
    }
}

/// The item goes behind the last one that may precede it, where all behind that one
/// have to come after it.
proof fn lemma_insert_ordered_at<T>(
    items: Seq<T>,
    item: T,
    after: spec_fn(T, T) -> bool,
    place: int,
)
    requires
        0 <= place <= items.len(),
        forall|k: int| place <= k < items.len() ==> after(#[trigger] items[k], item),
        place > 0 ==> !after(items[place - 1], item),
    ensures
        insert_ordered(items, item, after) == items.insert(place, item),
    decreases items.len(),
{
    if items.len() > 0 && after(items.last(), item) {
        assert(place < items.len());
        lemma_insert_ordered_at(items.drop_last(), item, after, place);
        assert(items.drop_last().insert(place, item).push(items.last()) =~= items.insert(
            place,
            item,
        ));
    } else {
        assert(place == items.len()) by {
            if place < items.len() {
                assert(after(items[items.len() - 1], item));
            }
        }
        assert(items.push(item) =~= items.insert(place, item));
    }
}

/// Ordering items and then taking their values is taking the values and then ordering
/// them, where the order rests on the values alone.
pub proof fn lemma_ordered_values<T, U>(
    items: Seq<T>,
    value: spec_fn(T) -> U,
    after: spec_fn(T, T) -> bool,
    after_values: spec_fn(U, U) -> bool,
)
    requires
        forall|a: T, b: T| #[trigger] after(a, b) == after_values(value(a), value(b)),
    ensures
        ordered(items, after).map_values(value) == ordered(
            items.map_values(value),
            after_values,
        ),
    decreases items.len(),
{
    if items.len() == 0 {
        assert(items.map_values(value) =~= Seq::<U>::empty());
        assert(ordered(items, after).map_values(value) =~= Seq::<U>::empty());
    } else {
        lemma_ordered_values(items.drop_last(), value, after, after_values);
        lemma_insert_ordered_values(
            ordered(items.drop_last(), after),
            items.last(),
            value,
            after,
            after_values,
        );
        assert(items.map_values(value).drop_last() =~= items.drop_last().map_values(value));
    }
}

proof fn lemma_insert_ordered_values<T, U>(
    items: Seq<T>,
    item: T,
    value: spec_fn(T) -> U,
    after: spec_fn(T, T) -> bool,
    after_values: spec_fn(U, U) -> bool,
)
    requires
        forall|a: T, b: T| #[trigger] after(a, b) == after_values(value(a), value(b)),
    ensures
        insert_ordered(items, item, after).map_values(value) == insert_ordered(
            items.map_values(value),
            value(item),
            after_values,
        ),
    decreases items.len(),
{
    if items.len() > 0 && after(items.last(), item) {
        lemma_insert_ordered_values(items.drop_last(), item, value, after, after_values);
        assert(items.map_values(value).drop_last() =~= items.drop_last().map_values(value));
        assert(insert_ordered(items.drop_last(), item, after).push(items.last()).map_values(value)
            =~= insert_ordered(items.drop_last(), item, after).map_values(value).push(
            value(items.last()),
        ));
    } else {
        if items.len() > 0 {
            assert(!after(items.last(), item));
        }
        assert(items.push(item).map_values(value) =~= items.map_values(value).push(value(item)));
    }
}

} // verus!

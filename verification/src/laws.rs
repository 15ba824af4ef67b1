//! What holds of the library against any server that hands out a collection.

use vstd::prelude::*;
use crate::error::CursorError;
use crate::error::TimelineError;
use crate::model::after_next;
use crate::model::backwards_outcome;
use crate::model::forward_outcome;
use crate::model::has_remaining_outcome;
use crate::model::next_is_defined;
use crate::model::next_outcome;
use crate::model::nth_next;
use crate::model::prefetch_end;
use crate::model::asks_for;
use crate::model::rounds_for;
use crate::model::server_of;
use crate::model::serves;
use crate::model::tokens_are_distinct;
use crate::model::with_capacity_outcome;
use crate::model::Collection;
use crate::model::Source;
use crate::page::PageView;
use crate::prefetch::filled_after_page;
use crate::prefetch::prefetch_round;
use crate::prefetch::GatheredView;
use crate::prefetch::PrefetchView;
use crate::prefetch::PAGE_SIZE;
use crate::request::page_request;

verus! {

/// Every collection whose pages have tokens of their own can be served: the
/// server that answers each token with its page serves it.
pub proof fn lemma_server_of_serves<T, E>(collection: Collection<T>)
    requires
        collection.well_formed(),
        tokens_are_distinct(collection),
    ensures
        serves(server_of::<T, E>(collection), collection),
{
    let source = server_of::<T, E>(collection);
    assert forall|i: int| 0 <= i < collection.pages.len() implies source(
        page_request(collection.endpoint, #[trigger] collection.tokens[i]),
    ) == Ok::<PageView<Seq<T>>, E>(collection.page(i)) by {
        let request = page_request(collection.endpoint, collection.tokens[i]);
        assert(asks_for(collection, request, i));
        let j = choose|j: int| asks_for(collection, request, j);
        assert(request.query[1] == page_request(collection.endpoint, collection.tokens[j]).query[1]);
        assert(collection.tokens[j] == collection.tokens[i]);
    }
}

/// Going forward and then backwards leads back: from a page of a collection
/// that has a page after it, `forward` brings that next page, and `backwards`
/// from there brings the page one started from, whole and unchanged.
pub proof fn lemma_forward_then_backwards<T, E>(
    collection: Collection<T>,
    source: Source<T, E>,
    i: int,
)
    requires
        collection.well_formed(),
        serves(source, collection),
        0 <= i,
        i + 1 < collection.pages.len(),
    ensures
        forward_outcome(collection.page(i), source) == Ok::<PageView<Seq<T>>, TimelineError<E>>(
            collection.page(i + 1),
        ),
        backwards_outcome(collection.page(i + 1), source) == Ok::<
            PageView<Seq<T>>,
            TimelineError<E>,
        >(collection.page(i)),
{
    assert(source(page_request(collection.endpoint, collection.tokens[i + 1])) == Ok::<
        PageView<Seq<T>>,
        E,
    >(collection.page(i + 1)));
    assert(source(page_request(collection.endpoint, collection.tokens[i])) == Ok::<
        PageView<Seq<T>>,
        E,
    >(collection.page(i)));
}

/// `has_remaining` tells whether `next` will succeed, in every state of the
/// iterator: it answers `true` exactly where a `next` made in its place is
/// defined and hands out an item.
pub proof fn lemma_has_remaining_iff_next_succeeds<T, E>(
    held: PageView<Seq<T>>,
    source: Source<T, E>,
)
    ensures
        has_remaining_outcome(held, source) <==> next_is_defined(held, source) && next_outcome(
            held,
            source,
        ) is Ok,
{
}

/// A failed `next` leaves the iterator as it was, so that the same call fails
/// in the same way however often it is made.
pub proof fn lemma_failed_next_changes_nothing<T, E>(held: PageView<Seq<T>>, source: Source<T, E>)
    requires
        next_outcome(held, source) is Err,
    ensures
        after_next(held, source) == held,
        next_outcome(after_next(held, source), source) == next_outcome(held, source),
{
}

/// `next` neither skips nor repeats nor reorders: of the items that are left,
/// which are those of the page held followed by those of all later pages, it
/// hands out the first and leaves exactly the others, on the page held or on a
/// later one. Where none is left it fails with `NoNextCursor`.
pub proof fn lemma_next_takes_first<T, E>(
    collection: Collection<T>,
    source: Source<T, E>,
    held: PageView<Seq<T>>,
    i: int,
)
    requires
        collection.well_formed(),
        serves(source, collection),
        collection.holds_at(held, i),
        collection.no_empty_page_after(i),
    ensures
        ({
            let left = held.data + collection.items_from(i + 1);
            let then = after_next(held, source);
            if left.len() > 0 {
                &&& next_outcome(held, source) == Ok::<T, TimelineError<E>>(left[0])
                &&& exists|j: int|
                    i <= j && collection.holds_at(then, j) && then.data + collection.items_from(
                        j + 1,
                    ) == left.drop_first()
            } else {
                &&& next_outcome(held, source) == Err::<T, TimelineError<E>>(
                    TimelineError::Cursor(CursorError::NoNextCursor),
                )
                &&& then == held
            }
        }),
{
    let left = held.data + collection.items_from(i + 1);
    let then = after_next(held, source);
    if held.data.len() > 0 {
        assert(then.data + collection.items_from(i + 1) =~= left.drop_first());
        assert(collection.holds_at(then, i));
    } else if i + 1 < collection.pages.len() {
        let page = collection.page(i + 1);
        assert(source(page_request(collection.endpoint, collection.tokens[i + 1])) == Ok::<
            PageView<Seq<T>>,
            E,
        >(page));
        assert(collection.pages[i + 1].len() > 0);
        assert(left =~= page.data + collection.items_from(i + 2));
        assert(then.data + collection.items_from(i + 2) =~= left.drop_first());
        assert(collection.holds_at(then, i + 1));
    } else {
        assert(left =~= Seq::<T>::empty());
    }
}

/// `next` hands out the items that are left in the order of the server and
/// then reports exhaustion: from a page held in a collection whose later pages
/// all hold an item, the call that follows `n` earlier calls answers with the
/// item at position `n` of what was left, and with `NoNextCursor` once `n` has
/// reached their number, however the items are split into pages.
pub proof fn lemma_next_yields_items_in_order<T, E>(
    collection: Collection<T>,
    source: Source<T, E>,
    held: PageView<Seq<T>>,
    i: int,
    n: nat,
)
    requires
        collection.well_formed(),
        serves(source, collection),
        collection.holds_at(held, i),
        collection.no_empty_page_after(i),
    ensures
        ({
            let left = held.data + collection.items_from(i + 1);
            if n < left.len() {
                nth_next(held, source, n) == Ok::<T, TimelineError<E>>(left[n as int])
            } else {
                nth_next(held, source, n) == Err::<T, TimelineError<E>>(
                    TimelineError::Cursor(CursorError::NoNextCursor),
                )
            }
        }),
    decreases n,
{
    let left = held.data + collection.items_from(i + 1);
    let then = after_next(held, source);
    lemma_next_takes_first(collection, source, held, i);
    if n > 0 {
        if left.len() > 0 {
            let j = choose|j: int|
                i <= j && collection.holds_at(then, j) && then.data + collection.items_from(j + 1)
                    == left.drop_first();
            lemma_next_yields_items_in_order(collection, source, then, j, (n - 1) as nat);
        } else {
            lemma_next_yields_items_in_order(collection, source, held, i, (n - 1) as nat);
        }
    }
}

/// An iterator that starts on the first page of a collection hands out all its
/// items, each once and in order, and then reports exhaustion.
pub proof fn lemma_next_yields_whole_collection<T, E>(
    collection: Collection<T>,
    source: Source<T, E>,
    n: nat,
)
    requires
        collection.well_formed(),
        serves(source, collection),
        collection.no_empty_page_after(0),
    ensures
        n < collection.items().len() ==> nth_next(collection.page(0), source, n) == Ok::<
            T,
            TimelineError<E>,
        >(collection.items()[n as int]),
        n >= collection.items().len() ==> nth_next(collection.page(0), source, n) == Err::<
            T,
            TimelineError<E>,
        >(TimelineError::Cursor(CursorError::NoNextCursor)),
{
    lemma_next_yields_items_in_order(collection, source, collection.page(0), 0, n);
    assert(collection.page(0).data + collection.items_from(1) =~= collection.items());
}

/// The items of a run of pages are those of its first part, then those of
/// the rest.
proof fn lemma_items_between_split<T>(collection: Collection<T>, from: int, mid: int, to: int)
    requires
        0 <= from <= mid <= to <= collection.pages.len(),
    ensures
        collection.items_between(from, to) == collection.items_between(from, mid)
            + collection.items_between(mid, to),
    decreases mid - from,
{
    if from < mid {
        lemma_items_between_split(collection, from + 1, mid, to);
        assert(collection.items_between(from, to) =~= collection.items_between(from, mid)
            + collection.items_between(mid, to));
    } else {
        assert(collection.items_between(from, to) =~= collection.items_between(from, mid)
            + collection.items_between(mid, to));
    }
}

/// Gathering a page while capacity is left fills more of it and saves one of
/// the rounds still to be played.
proof fn lemma_page_fills_capacity(capacity: nat, filled: nat)
    requires
        filled < capacity,
    ensures
        filled < filled_after_page(capacity, filled) <= capacity,
        filled_after_page(capacity, filled) == vstd::math::min(
            capacity as int,
            filled + PAGE_SIZE,
        ),
        rounds_for((capacity - filled) as nat) == rounds_for(
            (capacity - filled_after_page(capacity, filled)) as nat,
        ) + 1,
{
}

/// A prefetch, played to its end from a page of a collection with some items
/// already gathered and some capacity already filled.
proof fn lemma_prefetch_end_from<T, E>(
    collection: Collection<T>,
    source: Source<T, E>,
    buffered: Seq<T>,
    i: int,
    capacity: nat,
    filled: nat,
)
    requires
        collection.well_formed(),
        serves(source, collection),
        0 <= i < collection.pages.len(),
        filled <= capacity,
    ensures
        ({
            let rounds = rounds_for((capacity - filled) as nat);
            let reach = vstd::math::min(i + rounds, collection.pages.len() as int);
            let last = vstd::math::min(i + rounds, collection.pages.len() - 1);
            prefetch_end(
                prefetch_round(
                    PrefetchView { buffered, page: collection.page(i), capacity, filled },
                ),
                source,
            ) == (
                collection.page(last).with_data(buffered + collection.items_between(i, last + 1)),
                GatheredView {
                    items: (buffered + collection.items_between(i, reach)).len(),
                    filled: vstd::math::min(capacity as int, filled + PAGE_SIZE * (reach - i)) as nat,
                },
            )
        }),
    decreases capacity - filled,
{
    let rounds = rounds_for((capacity - filled) as nat);
    let reach = vstd::math::min(i + rounds, collection.pages.len() as int);
    let last = vstd::math::min(i + rounds, collection.pages.len() - 1);
    let start = PrefetchView { buffered, page: collection.page(i), capacity, filled };
    let end = prefetch_end(prefetch_round(start), source);
    let here = collection.pages[i];
    assert(collection.items_between(i, i + 1) =~= here) by {
        assert(collection.items_between(i + 1, i + 1) =~= Seq::<T>::empty());
    }
    assert(collection.items_between(i, i) =~= Seq::<T>::empty());
    if filled == capacity {
        assert(rounds == 0);
        assert(end.0.data =~= buffered + collection.items_between(i, last + 1));
        assert(buffered + collection.items_between(i, reach) =~= buffered);
    } else {
        let more = filled_after_page(capacity, filled);
        lemma_page_fills_capacity(capacity, filled);
        if i + 1 < collection.pages.len() {
            let next = PrefetchView {
                buffered: buffered + here,
                page: collection.page(i + 1),
                capacity,
                filled: more,
            };
            assert(source(page_request(collection.endpoint, collection.tokens[i + 1])) == Ok::<
                PageView<Seq<T>>,
                E,
            >(collection.page(i + 1)));
            assert(end == prefetch_end(prefetch_round(next), source));
            lemma_prefetch_end_from(collection, source, buffered + here, i + 1, capacity, more);
            assert(collection.items_between(i, last + 1) =~= here + collection.items_between(
                i + 1,
                last + 1,
            ));
            assert(collection.items_between(i, reach) =~= here + collection.items_between(
                i + 1,
                reach,
            ));
            assert((buffered + here) + collection.items_between(i + 1, last + 1) =~= buffered
                + collection.items_between(i, last + 1));
            assert((buffered + here) + collection.items_between(i + 1, reach) =~= buffered
                + collection.items_between(i, reach));
            assert(vstd::math::min(capacity as int, more + PAGE_SIZE * (reach - (i + 1)))
                == vstd::math::min(capacity as int, filled + PAGE_SIZE * (reach - i)));
        } else {
            assert(reach == i + 1 && last == i);
            assert(end.0.data =~= buffered + collection.items_between(i, last + 1));
            assert((buffered + here) =~= buffered + collection.items_between(i, reach));
        }
    }
}

/// `with_capacity` gathers whole pages in order: started on a page of a
/// collection, it plays one round for each `PAGE_SIZE` of capacity begun, or as
/// many as there are pages left if those are fewer. It ends on the page that
/// many positions further on, or on the last page, with the items of all the
/// pages from where it started up to and including that page, in the order of
/// the server. The items it reports as gathered are those of the pages it
/// played a round on; the capacity it reports as filled is `PAGE_SIZE` for each
/// of those pages, and at most the capacity asked for.
pub proof fn lemma_with_capacity_gathers_pages<T, E>(
    collection: Collection<T>,
    source: Source<T, E>,
    i: int,
    capacity: nat,
)
    requires
        collection.well_formed(),
        serves(source, collection),
        0 <= i < collection.pages.len(),
    ensures
        ({
            let reach = vstd::math::min(i + rounds_for(capacity), collection.pages.len() as int);
            let last = vstd::math::min(i + rounds_for(capacity), collection.pages.len() - 1);
            with_capacity_outcome(collection.page(i), capacity, source) == (
                collection.page(last).with_data(collection.items_between(i, last + 1)),
                GatheredView {
                    items: collection.items_between(i, reach).len(),
                    filled: vstd::math::min(capacity as int, PAGE_SIZE * (reach - i)) as nat,
                },
            )
        }),
{
    let reach = vstd::math::min(i + rounds_for(capacity), collection.pages.len() as int);
    let last = vstd::math::min(i + rounds_for(capacity), collection.pages.len() - 1);
    lemma_prefetch_end_from(collection, source, Seq::<T>::empty(), i, capacity, 0);
    assert(Seq::<T>::empty() + collection.items_between(i, last + 1)
        =~= collection.items_between(i, last + 1));
    assert(Seq::<T>::empty() + collection.items_between(i, reach) =~= collection.items_between(
        i,
        reach,
    ));
}

/// Prefetching changes nothing of what `next` hands out: the iterator that
/// `with_capacity` ends with answers each call as an iterator does that was
/// started on the same page without prefetching.
pub proof fn lemma_with_capacity_keeps_order<T, E>(
    collection: Collection<T>,
    source: Source<T, E>,
    i: int,
    capacity: nat,
    n: nat,
)
    requires
        collection.well_formed(),
        serves(source, collection),
        0 <= i < collection.pages.len(),
        collection.no_empty_page_after(i),
    ensures
        nth_next(with_capacity_outcome(collection.page(i), capacity, source).0, source, n)
            == nth_next(collection.page(i), source, n),
{
    let last = vstd::math::min(i + rounds_for(capacity), collection.pages.len() - 1);
    let prefetched = with_capacity_outcome(collection.page(i), capacity, source).0;
    lemma_with_capacity_gathers_pages(collection, source, i, capacity);
    lemma_items_between_split(collection, i, last + 1, collection.pages.len() as int);
    lemma_items_between_split(collection, i, i + 1, collection.pages.len() as int);
    assert(collection.items_between(i, i + 1) =~= collection.pages[i]) by {
        assert(collection.items_between(i + 1, i + 1) =~= Seq::<T>::empty());
    }
    assert forall|j: int| last < j < collection.pages.len() implies (
    #[trigger] collection.pages[j]).len() > 0 by {}
    lemma_next_yields_items_in_order(collection, source, prefetched, last, n);
    lemma_next_yields_items_in_order(collection, source, collection.page(i), i, n);
}

} // verus!

//! What holds of the store: sorting and tidying, and adding without
//! duplicates.

use vstd::prelude::*;
use crate::error::Error;
use crate::persistence::{
    added, all_upcoming, cleaned, copies, holds, is_ascending, is_upcoming, no_duplicates,
    settled, sorted_by_date, Loaded, SavedEvent, SavedEvents, StoreFile,
};
use crate::time::Timestamp;

verus! {

/// Where an event settles in a list in ascending order of date: in front
/// of the events that are later than it.
pub open spec fn place_of(sorted: Seq<SavedEvent>, event: SavedEvent) -> int
    decreases sorted.len(),
{
    if sorted.len() == 0 || !event.when.is_before(sorted.last().when) {
        sorted.len() as int
    } else {
        place_of(sorted.drop_last(), event)
    }
}

/// Settling an event puts it in at its place and moves nothing else.
pub proof fn lemma_settled_at(sorted: Seq<SavedEvent>, event: SavedEvent, place: int)
    requires
        0 <= place <= sorted.len(),
        forall|i: int| place <= i < sorted.len() ==> event.when.is_before((#[trigger] sorted[i]).when),
        place == 0 || !event.when.is_before(sorted[place - 1].when),
    ensures
        settled(sorted, event) == sorted.insert(place, event),
        place_of(sorted, event) == place,
    decreases sorted.len(),
{
    if sorted.len() == 0 || !event.when.is_before(sorted.last().when) {
        if place < sorted.len() {
            assert(event.when.is_before(sorted[sorted.len() - 1].when));
        }
        assert(sorted.insert(place, event) =~= sorted.push(event));
    } else {
        let front = sorted.drop_last();
        assert(forall|i: int| place <= i < front.len() ==> front[i] == sorted[i]);
        lemma_settled_at(front, event, place);
        assert(sorted.insert(place, event) =~= front.insert(place, event).push(sorted.last()));
    }
}

/// The place of an event lies within the list, with only later events
/// behind it and no later event right in front of it.
pub proof fn lemma_place_of(sorted: Seq<SavedEvent>, event: SavedEvent)
    ensures
        0 <= place_of(sorted, event) <= sorted.len(),
        forall|i: int|
            place_of(sorted, event) <= i < sorted.len() ==> event.when.is_before(
                (#[trigger] sorted[i]).when,
            ),
        place_of(sorted, event) == 0 || !event.when.is_before(
            sorted[place_of(sorted, event) - 1].when,
        ),
        settled(sorted, event) == sorted.insert(place_of(sorted, event), event),
    decreases sorted.len(),
{
    if sorted.len() == 0 || !event.when.is_before(sorted.last().when) {
    } else {
        let front = sorted.drop_last();
        lemma_place_of(front, event);
        let place = place_of(front, event);
        assert forall|i: int| place <= i < sorted.len() implies event.when.is_before(
            (#[trigger] sorted[i]).when,
        ) by {
            if i < front.len() {
                assert(front[i] == sorted[i]);
            }
        }
        if place > 0 {
            assert(front[place - 1] == sorted[place - 1]);
        }
    }
    lemma_settled_at(sorted, event, place_of(sorted, event));
}

/// Settling an event keeps a list in ascending order.
pub proof fn lemma_settled_ascending(sorted: Seq<SavedEvent>, event: SavedEvent)
    requires
        is_ascending(sorted),
    ensures
        is_ascending(settled(sorted, event)),
{
    lemma_place_of(sorted, event);
    let place = place_of(sorted, event);
    let after = sorted.insert(place, event);
    assert forall|i: int, j: int| 0 <= i < j < after.len() implies !(#[trigger] after[j]).when.is_before(
        (#[trigger] after[i]).when,
    ) by {
        if j < place {
            assert(after[i] == sorted[i] && after[j] == sorted[j]);
        } else if j == place {
            assert(after[i] == sorted[i]);
            assert(!event.when.is_before(sorted[place - 1].when));
            if i < place - 1 {
                assert(!sorted[place - 1].when.is_before(sorted[i].when));
            }
        } else if i < place {
            assert(after[i] == sorted[i] && after[j] == sorted[j - 1]);
        } else if i == place {
            assert(after[j] == sorted[j - 1]);
            assert(event.when.is_before(sorted[j - 1].when));
        } else {
            assert(after[i] == sorted[i - 1] && after[j] == sorted[j - 1]);
        }
    }
}

/// Sorting gives a list in ascending order that holds the same events, each
/// as often as before.
pub proof fn lemma_sorted_by_date(events: Seq<SavedEvent>)
    ensures
        is_ascending(sorted_by_date(events)),
        sorted_by_date(events).len() == events.len(),
        sorted_by_date(events).to_multiset() == events.to_multiset(),
    decreases events.len(),
{
    broadcast use vstd::seq_lib::group_to_multiset_ensures;

    if events.len() == 0 {
    } else {
        let front = events.drop_last();
        let last = events.last();
        lemma_sorted_by_date(front);
        let sorted = sorted_by_date(front);
        lemma_settled_ascending(sorted, last);
        lemma_place_of(sorted, last);
        let place = place_of(sorted, last);
        let after = sorted.insert(place, last);
        assert(after.remove(place) =~= sorted);
        assert(after[place] == last);
        assert(after.remove(place).to_multiset() == after.to_multiset().remove(last));
        assert(events =~= front.push(last));
        assert(events.to_multiset() =~= front.to_multiset().insert(last));
        assert(after.to_multiset().count(last) > 0) by {
            assert(after.contains(last));
        }
        assert(after.to_multiset() =~= after.to_multiset().remove(last).insert(last));
    }
}

/// A list in ascending order is sorted already.
pub proof fn lemma_sorted_is_fixed(events: Seq<SavedEvent>)
    requires
        is_ascending(events),
    ensures
        sorted_by_date(events) == events,
    decreases events.len(),
{
    if events.len() > 0 {
        let front = events.drop_last();
        assert forall|i: int, j: int| 0 <= i < j < front.len() implies !(#[trigger] front[j]).when.is_before(
            (#[trigger] front[i]).when,
        ) by {
            assert(front[i] == events[i] && front[j] == events[j]);
        }
        lemma_sorted_is_fixed(front);
        if front.len() > 0 {
            assert(front.last() == events[events.len() - 2]);
            assert(!events[events.len() - 1].when.is_before(events[events.len() - 2].when));
        }
        assert(front.push(events.last()) =~= events);
    }
}

/// A list whose events all pass a test is left whole by the test.
pub proof fn lemma_filter_keeps_all(events: Seq<SavedEvent>, test: spec_fn(SavedEvent) -> bool)
    requires
        forall|i: int| 0 <= i < events.len() ==> test(#[trigger] events[i]),
    ensures
        events.filter(test) == events,
    decreases events.len(),
{
    reveal(Seq::filter);
    if events.len() > 0 {
        let front = events.drop_last();
        assert forall|i: int| 0 <= i < front.len() implies test(#[trigger] front[i]) by {
            assert(front[i] == events[i]);
        }
        lemma_filter_keeps_all(front, test);
        assert(front.push(events.last()) =~= events);
    }
}

/// What is left of a list in ascending order after a test is in ascending
/// order too.
pub proof fn lemma_filter_ascending(events: Seq<SavedEvent>, test: spec_fn(SavedEvent) -> bool)
    requires
        is_ascending(events),
    ensures
        is_ascending(events.filter(test)),
        forall|i: int|
            0 <= i < events.filter(test).len() ==> events.contains(
                #[trigger] events.filter(test)[i],
            ),
    decreases events.len(),
{
    reveal(Seq::filter);
    if events.len() > 0 {
        let front = events.drop_last();
        let last = events.last();
        assert forall|i: int, j: int| 0 <= i < j < front.len() implies !(#[trigger] front[j]).when.is_before(
            (#[trigger] front[i]).when,
        ) by {
            assert(front[i] == events[i] && front[j] == events[j]);
        }
        lemma_filter_ascending(front, test);
        let kept = front.filter(test);
        let all = events.filter(test);
        assert forall|i: int| 0 <= i < all.len() implies events.contains(#[trigger] all[i]) by {
            if i < kept.len() {
                assert(all[i] == kept[i]);
                assert(front.contains(kept[i]));
                let k = choose|k: int| 0 <= k < front.len() && front[k] == kept[i];
                assert(events[k] == kept[i]);
            } else {
                assert(all[i] == last);
                assert(events[events.len() - 1] == last);
            }
        }
        assert forall|i: int, j: int| 0 <= i < j < all.len() implies !(#[trigger] all[j]).when.is_before(
            (#[trigger] all[i]).when,
        ) by {
            if j < kept.len() {
                assert(all[i] == kept[i] && all[j] == kept[j]);
            } else {
                assert(all[j] == last);
                assert(all[i] == kept[i]);
                assert(front.contains(kept[i]));
                let k = choose|k: int| 0 <= k < front.len() && front[k] == kept[i];
                assert(events[k] == kept[i]);
                assert(!events[events.len() - 1].when.is_before(events[k].when));
            }
        }
    }
}

/// Applying a test to a list in ascending order into which an event was
/// settled: the event is settled into what the test leaves of the list, if
/// it passes the test itself.
pub proof fn lemma_filter_settled(
    sorted: Seq<SavedEvent>,
    event: SavedEvent,
    test: spec_fn(SavedEvent) -> bool,
)
    requires
        is_ascending(sorted),
    ensures
        settled(sorted, event).filter(test) == if test(event) {
            settled(sorted.filter(test), event)
        } else {
            sorted.filter(test)
        },
    decreases sorted.len(),
{
    reveal(Seq::filter);
    let kept = sorted.filter(test);
    if sorted.len() == 0 || !event.when.is_before(sorted.last().when) {
        assert(sorted.push(event).drop_last() =~= sorted);
        if test(event) && kept.len() > 0 {
            lemma_filter_ascending(sorted, test);
            assert(sorted.contains(kept[kept.len() - 1]));
            let k = choose|k: int| 0 <= k < sorted.len() && sorted[k] == kept[kept.len() - 1];
            if k < sorted.len() - 1 {
                assert(!sorted[sorted.len() - 1].when.is_before(sorted[k].when));
            }
            assert(!event.when.is_before(kept.last().when));
        }
    } else {
        let front = sorted.drop_last();
        let last = sorted.last();
        assert forall|i: int, j: int| 0 <= i < j < front.len() implies !(#[trigger] front[j]).when.is_before(
            (#[trigger] front[i]).when,
        ) by {
            assert(front[i] == sorted[i] && front[j] == sorted[j]);
        }
        lemma_filter_settled(front, event, test);
        let inner = settled(front, event);
        assert(inner.push(last).drop_last() =~= inner);
        if test(last) {
            assert(kept == front.filter(test).push(last));
            assert(kept.drop_last() =~= front.filter(test));
            assert(kept.last() == last);
        }
    }
}

/// A tidied list is in ascending order of date and holds only events that
/// come strictly after `now`.
pub proof fn lemma_cleaned_is_tidy(events: Seq<SavedEvent>, now: Timestamp)
    ensures
        is_ascending(cleaned(events, now)),
        all_upcoming(cleaned(events, now), now),
        cleaned(events, now).to_multiset() == events.filter(is_upcoming(now)).to_multiset(),
        cleaned(events, now).len() <= events.len(),
{
    broadcast use vstd::seq_lib::group_to_multiset_ensures;

    let kept = events.filter(is_upcoming(now));
    let tidy = cleaned(events, now);
    lemma_sorted_by_date(kept);
    events.lemma_filter_len(is_upcoming(now));
    assert forall|i: int| 0 <= i < tidy.len() implies now.is_before((#[trigger] tidy[i]).when) by {
        assert(tidy.contains(tidy[i]));
        assert(tidy.to_multiset().count(tidy[i]) > 0);
        assert(kept.contains(tidy[i]));
        let k = choose|k: int| 0 <= k < kept.len() && kept[k] == tidy[i];
        events.lemma_filter_pred(is_upcoming(now), k);
    }
}

/// Tidying a tidied list at the same moment changes nothing.
pub proof fn lemma_cleaned_twice(events: Seq<SavedEvent>, now: Timestamp)
    ensures
        cleaned(cleaned(events, now), now) == cleaned(events, now),
{
    let tidy = cleaned(events, now);
    lemma_cleaned_is_tidy(events, now);
    assert forall|i: int| 0 <= i < tidy.len() implies is_upcoming(now)(#[trigger] tidy[i]) by {
        assert(now.is_before(tidy[i].when));
    }
    lemma_filter_keeps_all(tidy, is_upcoming(now));
    lemma_sorted_is_fixed(tidy);
}

/// Tidying at a later moment makes up for any tidying before it: what was
/// tidied at `earlier` and then at `later` is as if tidied at `later` alone.
pub proof fn lemma_cleaned_later(events: Seq<SavedEvent>, earlier: Timestamp, later: Timestamp)
    requires
        !later.is_before(earlier),
    ensures
        cleaned(cleaned(events, earlier), later) == cleaned(events, later),
        cleaned(events, earlier).filter(is_upcoming(later)) == cleaned(events, later),
    decreases events.len(),
{
    reveal(Seq::filter);
    let tidy = cleaned(events, earlier);
    lemma_cleaned_is_tidy(events, earlier);
    lemma_filter_ascending(tidy, is_upcoming(later));
    lemma_sorted_is_fixed(tidy.filter(is_upcoming(later)));
    if events.len() > 0 {
        let front = events.drop_last();
        let last = events.last();
        lemma_cleaned_later(front, earlier, later);
        lemma_cleaned_is_tidy(front, earlier);
        let before = front.filter(is_upcoming(earlier));
        let after = front.filter(is_upcoming(later));
        if earlier.is_before(last.when) {
            assert(before.push(last).drop_last() =~= before);
            assert(tidy == settled(cleaned(front, earlier), last));
            lemma_filter_settled(cleaned(front, earlier), last, is_upcoming(later));
        }
        if later.is_before(last.when) {
            assert(earlier.is_before(last.when));
            assert(after.push(last).drop_last() =~= after);
        }
    }
}

/// A store that was tidied loads unchanged at the same moment, and its
/// file need not be written again.
pub proof fn lemma_tidy_store_loads_unchanged(
    events: Seq<SavedEvent>,
    kept: Vec<SavedEvent>,
    now: Timestamp,
    loaded: Result<Loaded, Error>,
)
    requires
        kept@ == cleaned(events, now),
        SavedEvents::is_loaded_from(StoreFile::Events(kept), now, loaded),
    ensures
        loaded is Ok,
        loaded->Ok_0.store.events@ == kept@,
        !loaded->Ok_0.rewrite,
{
    lemma_cleaned_twice(events, now);
}

/// Adding an event to a list without duplicates leaves it without
/// duplicates.
pub proof fn lemma_added_no_duplicates(events: Seq<SavedEvent>, event: SavedEvent)
    requires
        no_duplicates(events),
    ensures
        no_duplicates(added(events, event)),
{
    if !holds(events, event) {
        let longer = events.push(event);
        assert forall|i: int, j: int| 0 <= i < j < longer.len() implies !(#[trigger] longer[i]).same_event(
            #[trigger] longer[j],
        ) by {
            if j < events.len() {
                assert(longer[i] == events[i] && longer[j] == events[j]);
            } else {
                assert(longer[i] == events[i]);
                assert(!events[i].same_event(event));
            }
        }
    }
}

/// Adding an event that the list holds by now changes nothing: after two
/// additions of an event the list is as after one.
pub proof fn lemma_added_twice(events: Seq<SavedEvent>, event: SavedEvent)
    requires
        event.has_coordinates(),
    ensures
        holds(added(events, event), event),
        added(added(events, event), event) == added(events, event),
{
    if !holds(events, event) {
        let longer = events.push(event);
        assert(longer[events.len() as int].same_event(event));
    }
}

/// A list holds an event just when it has a copy of it.
pub proof fn lemma_copies_of_held(events: Seq<SavedEvent>, event: SavedEvent)
    ensures
        holds(events, event) <==> copies(events, event) > 0,
    decreases events.len(),
{
    if events.len() > 0 {
        let front = events.drop_last();
        lemma_copies_of_held(front, event);
        if holds(front, event) {
            let i = choose|i: int| 0 <= i < front.len() && (#[trigger] front[i]).same_event(event);
            assert(events[i].same_event(event));
        }
        if holds(events, event) && !events.last().same_event(event) {
            let i = choose|i: int| 0 <= i < events.len() && (#[trigger] events[i]).same_event(event);
            assert(front[i].same_event(event));
        }
    }
}

/// A list without duplicates has at most one copy of an event.
pub proof fn lemma_one_copy(events: Seq<SavedEvent>, event: SavedEvent)
    requires
        no_duplicates(events),
    ensures
        copies(events, event) <= 1,
    decreases events.len(),
{
    if events.len() > 0 {
        let front = events.drop_last();
        assert forall|i: int, j: int| 0 <= i < j < front.len() implies !(#[trigger] front[i]).same_event(
            #[trigger] front[j],
        ) by {
            assert(front[i] == events[i] && front[j] == events[j]);
        }
        lemma_one_copy(front, event);
        if events.last().same_event(event) && copies(front, event) > 0 {
            lemma_copies_of_held(front, event);
            let i = choose|i: int| 0 <= i < front.len() && (#[trigger] front[i]).same_event(event);
            assert(events[i].same_event(events[events.len() - 1]));
        }
    }
}

/// After an event was added twice to a store without duplicates, the store
/// has exactly one copy of it.
pub proof fn lemma_added_once(events: Seq<SavedEvent>, event: SavedEvent)
    requires
        no_duplicates(events),
        event.has_coordinates(),
    ensures
        copies(added(added(events, event), event), event) == 1,
{
    lemma_added_twice(events, event);
    lemma_added_no_duplicates(events, event);
    lemma_one_copy(added(events, event), event);
    lemma_copies_of_held(added(events, event), event);
}

/// What a test leaves of a list without duplicates is without duplicates.
pub proof fn lemma_filter_no_duplicates(events: Seq<SavedEvent>, test: spec_fn(SavedEvent) -> bool)
    requires
        no_duplicates(events),
    ensures
        no_duplicates(events.filter(test)),
    decreases events.len(),
{
    reveal(Seq::filter);
    if events.len() > 0 {
        let front = events.drop_last();
        let last = events.last();
        assert forall|i: int, j: int| 0 <= i < j < front.len() implies !(#[trigger] front[i]).same_event(
            #[trigger] front[j],
        ) by {
            assert(front[i] == events[i] && front[j] == events[j]);
        }
        lemma_filter_no_duplicates(front, test);
        let kept = front.filter(test);
        let all = events.filter(test);
        assert forall|i: int, j: int| 0 <= i < j < all.len() implies !(#[trigger] all[i]).same_event(
            #[trigger] all[j],
        ) by {
            if j < kept.len() {
                assert(all[i] == kept[i] && all[j] == kept[j]);
            } else {
                assert(all[i] == kept[i] && all[j] == last);
                front.lemma_filter_contains_rev(test, kept[i]);
                let k = choose|k: int| 0 <= k < front.len() && front[k] == kept[i];
                assert(!events[k].same_event(events[events.len() - 1]));
            }
        }
    }
}

/// Sorting a list without duplicates gives a list without duplicates.
pub proof fn lemma_sorted_no_duplicates(events: Seq<SavedEvent>)
    requires
        no_duplicates(events),
    ensures
        no_duplicates(sorted_by_date(events)),
    decreases events.len(),
{
    broadcast use vstd::seq_lib::group_to_multiset_ensures;

    if events.len() > 0 {
        let front = events.drop_last();
        let last = events.last();
        assert forall|i: int, j: int| 0 <= i < j < front.len() implies !(#[trigger] front[i]).same_event(
            #[trigger] front[j],
        ) by {
            assert(front[i] == events[i] && front[j] == events[j]);
        }
        lemma_sorted_no_duplicates(front);
        lemma_sorted_by_date(front);
        let sorted = sorted_by_date(front);
        lemma_place_of(sorted, last);
        let place = place_of(sorted, last);
        let after = sorted.insert(place, last);
        assert forall|i: int| 0 <= i < sorted.len() implies !(#[trigger] sorted[i]).same_event(last)
            && !last.same_event(sorted[i]) by {
            assert(sorted.contains(sorted[i]));
            assert(sorted.to_multiset().count(sorted[i]) > 0);
            assert(front.contains(sorted[i]));
            let k = choose|k: int| 0 <= k < front.len() && front[k] == sorted[i];
            assert(!events[k].same_event(events[events.len() - 1]));
        }
        assert forall|i: int, j: int| 0 <= i < j < after.len() implies !(#[trigger] after[i]).same_event(
            #[trigger] after[j],
        ) by {
            if j < place {
                assert(after[i] == sorted[i] && after[j] == sorted[j]);
            } else if j == place {
                assert(after[i] == sorted[i]);
            } else if i < place {
                assert(after[i] == sorted[i] && after[j] == sorted[j - 1]);
            } else if i == place {
                assert(after[j] == sorted[j - 1]);
            } else {
                assert(after[i] == sorted[i - 1] && after[j] == sorted[j - 1]);
            }
        }
    }
}

/// Tidying a list without duplicates gives a list without duplicates.
pub proof fn lemma_cleaned_no_duplicates(events: Seq<SavedEvent>, now: Timestamp)
    requires
        no_duplicates(events),
    ensures
        no_duplicates(cleaned(events, now)),
{
    lemma_filter_no_duplicates(events, is_upcoming(now));
    lemma_sorted_no_duplicates(events.filter(is_upcoming(now)));
}

} // verus!

//! The store of named events: what it holds, how events get in and out, and
//! how it is tidied.

use vstd::prelude::*;
use vstd::std_specs::cmp::PartialEqSpecImpl;
use vstd::string::*;
use crate::error::{Access, Error, ErrorView};
use crate::number::Binary64;
use crate::time::Timestamp;
use crate::Event;
use crate::persistence::laws::{
    lemma_added_no_duplicates, lemma_cleaned_is_tidy, lemma_cleaned_no_duplicates,
    lemma_filter_no_duplicates, lemma_settled_at,
};

pub mod laws;

verus! {

/// The name under which the store's file used to go.
pub const OLD_FILE_NAME: &'static str = ".wed";

/// The name of the store's file.
pub const FILE_NAME: &'static str = ".wed.json";

/// Whether the file has to be moved from its old name to its new one before
/// the store is read or written: it has where there is a file under the old
/// name and none under the new one. Once moved, nothing is left to move.
pub fn update_file_name(old_exists: bool, new_exists: bool) -> (rename: bool)
    ensures
        rename == (old_exists && !new_exists),
{
    old_exists && !new_exists
}

/// An event as the store keeps it.
#[derive(Debug, Clone)]
pub struct SavedEvent {
    pub name: String,
    pub location: String,
    pub latitude: Binary64,
    pub longitude: Binary64,
    pub when: Timestamp,
}

impl SavedEvent {
    /// Two saved events are the same where name, place and date are the same
    /// and the coordinates are the same numbers.
    pub open spec fn same_event(self, other: SavedEvent) -> bool {
        &&& self.name@ == other.name@
        &&& self.location@ == other.location@
        &&& self.latitude.same_number(other.latitude)
        &&& self.longitude.same_number(other.longitude)
        &&& self.when == other.when
    }

    /// Whether both coordinates are numbers. An event with a coordinate that
    /// is no number is the same as no event, not even as itself.
    pub open spec fn has_coordinates(self) -> bool {
        !self.latitude.is_nan() && !self.longitude.is_nan()
    }

    /// The event as seen at `now`: with the whole days from `now` to it.
    pub open spec fn event_at(self, now: Timestamp) -> Event {
        Event {
            name: Some(self.name),
            when: self.when,
            location: self.location,
            latitude: self.latitude,
            longitude: self.longitude,
            days: self.when.days_since(now) as i64,
        }
    }

    /// The event as seen at `now`.
    pub fn to_event_at(&self, now: &Timestamp) -> (event: Event)
        ensures
            event == self.event_at(*now),
            event.days == self.when.days_since(*now),
    {
        Event::at(
            Some(self.name.clone()),
            self.when,
            self.location.clone(),
            self.latitude,
            self.longitude,
            now,
        )
    }

    /// The event as seen at the present moment.
    pub fn to_event(&self) -> (event: Event)
        ensures
            exists|now: Timestamp| event == #[trigger] self.event_at(now),
    {
        let now = crate::time::now();
        self.to_event_at(&now)
    }

    /// The event in the form in which it is stored. Only an event with a
    /// name can be stored.
    pub fn from_event(event: &Event) -> (saved: Result<SavedEvent, Error>)
        ensures
            match event.name {
                Some(name) => saved == Ok::<SavedEvent, Error>(
                    SavedEvent {
                        name,
                        location: event.location,
                        latitude: event.latitude,
                        longitude: event.longitude,
                        when: event.when,
                    },
                ),
                None => saved == Err::<SavedEvent, Error>(Error::EventNameRequired),
            },
    {
        let name = match &event.name {
            Some(name) => name.clone(),
            None => {
                return Err(Error::EventNameRequired);
            },
        };
        Ok(
            SavedEvent {
                name,
                location: event.location.clone(),
                latitude: event.latitude,
                longitude: event.longitude,
                when: event.when,
            },
        )
    }
}

impl PartialEq for SavedEvent {
    fn eq(&self, other: &SavedEvent) -> (equal: bool) {
        self.name == other.name && self.location == other.location && self.latitude
            == other.latitude && self.longitude == other.longitude && self.when == other.when
    }
}

impl PartialEqSpecImpl for SavedEvent {
    open spec fn obeys_eq_spec() -> bool {
        true
    }

    open spec fn eq_spec(&self, other: &SavedEvent) -> bool {
        self.same_event(*other)
    }
}

/// Whether a list holds an event that is the same as `event`.
pub open spec fn holds(events: Seq<SavedEvent>, event: SavedEvent) -> bool {
    exists|i: int| 0 <= i < events.len() && (#[trigger] events[i]).same_event(event)
}

/// No two entries of a list are the same event.
pub open spec fn no_duplicates(events: Seq<SavedEvent>) -> bool {
    forall|i: int, j: int|
        0 <= i < j < events.len() ==> !(#[trigger] events[i]).same_event(#[trigger] events[j])
}

/// How many entries of a list are the same event as `event`.
pub open spec fn copies(events: Seq<SavedEvent>, event: SavedEvent) -> nat
    decreases events.len(),
{
    if events.len() == 0 {
        0
    } else if events.last().same_event(event) {
        copies(events.drop_last(), event) + 1
    } else {
        copies(events.drop_last(), event)
    }
}

/// A list after an event was added: the event goes to the end, unless the
/// list holds it already.
pub open spec fn added(events: Seq<SavedEvent>, event: SavedEvent) -> Seq<SavedEvent> {
    if holds(events, event) {
        events
    } else {
        events.push(event)
    }
}

/// The test for an event to come strictly after `now`.
pub open spec fn is_upcoming(now: Timestamp) -> spec_fn(SavedEvent) -> bool {
    |event: SavedEvent| now.is_before(event.when)
}

/// The test for an event to go by another name than `name`.
pub open spec fn is_not_named(name: Seq<char>) -> spec_fn(SavedEvent) -> bool {
    |event: SavedEvent| event.name@ != name
}

/// A list in ascending order of date with one more event in its place:
/// behind every event that is not later than it.
pub open spec fn settled(sorted: Seq<SavedEvent>, event: SavedEvent) -> Seq<SavedEvent>
    decreases sorted.len(),
{
    if sorted.len() == 0 || !event.when.is_before(sorted.last().when) {
        sorted.push(event)
    } else {
        settled(sorted.drop_last(), event).push(sorted.last())
    }
}

/// A list in ascending order of date, events of one date staying in the
/// order in which they stood.
pub open spec fn sorted_by_date(events: Seq<SavedEvent>) -> Seq<SavedEvent>
    decreases events.len(),
{
    if events.len() == 0 {
        events
    } else {
        settled(sorted_by_date(events.drop_last()), events.last())
    }
}

/// A list tidied at `now`: without the events that are not strictly after
/// `now`, the rest in ascending order of date.
pub open spec fn cleaned(events: Seq<SavedEvent>, now: Timestamp) -> Seq<SavedEvent> {
    sorted_by_date(events.filter(is_upcoming(now)))
}

/// Whether a list is in ascending order of date.
pub open spec fn is_ascending(events: Seq<SavedEvent>) -> bool {
    forall|i: int, j: int|
        0 <= i < j < events.len() ==> !(#[trigger] events[j]).when.is_before(
            (#[trigger] events[i]).when,
        )
}

/// Whether every event of a list comes strictly after `now`.
pub open spec fn all_upcoming(events: Seq<SavedEvent>, now: Timestamp) -> bool {
    forall|i: int| 0 <= i < events.len() ==> now.is_before((#[trigger] events[i]).when)
}

/// The named events that are kept.
#[derive(Debug)]
pub struct SavedEvents {
    pub events: Vec<SavedEvent>,
}

/// What reading the store's file gave.
#[derive(Debug)]
pub enum StoreFile {
    /// There is no file; the text is what the system said.
    Missing(String),
    /// The file is there but could not be opened or read; the text is what
    /// the system said.
    Unreadable(String),
    /// The file was read but does not hold a store; the text says what is
    /// wrong with it.
    Corrupt(String),
    /// The events that the file holds, in its order.
    Events(Vec<SavedEvent>),
}

/// A store that was loaded, and whether the file has to be written again
/// because tidying dropped events.
#[derive(Debug)]
pub struct Loaded {
    pub store: SavedEvents,
    pub rewrite: bool,
}

/// Puts an event into a list in ascending order of date, behind every event
/// that is not later than it.
fn settle(sorted: &mut Vec<SavedEvent>, event: SavedEvent)
    ensures
        final(sorted)@ == settled(old(sorted)@, event),
{
    let mut place: usize = sorted.len();
    while place > 0 && event.when.before(&sorted[place - 1].when)
        invariant
            place <= sorted.len(),
            forall|i: int|
                place <= i < sorted.len() ==> event.when.is_before((#[trigger] sorted[i]).when),
        decreases place,
    {
        place = place - 1;
    }
    proof {
        lemma_settled_at(sorted@, event, place as int);
    }
    sorted.insert(place, event);
}

impl SavedEvents {
    /// A store without events.
    pub fn new() -> (store: SavedEvents)
        ensures
            store.events@ == Seq::<SavedEvent>::empty(),
    {
        SavedEvents { events: Vec::new() }
    }

    /// Whether the store holds an event that is the same as `event`.
    pub fn contains(&self, event: &SavedEvent) -> (found: bool)
        ensures
            found == holds(self.events@, *event),
    {
        let mut i: usize = 0;
        while i < self.events.len()
            invariant
                i <= self.events.len(),
                forall|j: int| 0 <= j < i ==> !(#[trigger] self.events[j]).same_event(*event),
            decreases self.events.len() - i,
        {
            if self.events[i] == *event {
                return true;
            }
            i = i + 1;
        }
        false
    }

    /// Adds an event at the end, unless the store holds it already.
    pub fn add(&mut self, event: SavedEvent)
        ensures
            final(self).events@ == added(old(self).events@, event),
            no_duplicates(old(self).events@) ==> no_duplicates(final(self).events@),
    {
        proof {
            if no_duplicates(self.events@) {
                lemma_added_no_duplicates(self.events@, event);
            }
        }
        if self.contains(&event) {
            return ;
        }
        self.events.push(event);
    }

    /// Removes every event that goes by `name`.
    pub fn delete(&mut self, name: &str)
        ensures
            final(self).events@ == old(self).events@.filter(is_not_named(name@)),
            no_duplicates(old(self).events@) ==> no_duplicates(final(self).events@),
    {
        proof {
            if no_duplicates(self.events@) {
                lemma_filter_no_duplicates(self.events@, is_not_named(name@));
            }
        }
        let wanted = String::from_str(name);
        let ghost given = self.events@;
        let mut kept: Vec<SavedEvent> = Vec::new();
        let ghost mut done: int = 0;
        proof {
            reveal(Seq::filter);
            assert(given.take(0) =~= Seq::<SavedEvent>::empty());
        }
        while self.events.len() > 0
            invariant
                0 <= done,
                done + self.events.len() == given.len(),
                self.events@ == given.skip(done),
                kept@ == given.take(done).filter(is_not_named(name@)),
                wanted@ == name@,
            decreases self.events.len(),
        {
            let event = self.events.remove(0);
            proof {
                reveal(Seq::filter);
                let next = given.take(done + 1);
                assert(next.drop_last() =~= given.take(done));
                assert(next.last() == given[done]);
                assert(event == given[done]);
                assert(self.events@ =~= given.skip(done + 1));
            }
            if event.name != wanted {
                kept.push(event);
            }
            proof {
                done = done + 1;
            }
        }
        assert(given.take(done) =~= given);
        self.events = kept;
    }

    /// Tidies the store at `now`: drops the events that are not strictly
    /// after `now` and puts the rest in ascending order of date.
    pub fn cleanup_at(&mut self, now: &Timestamp)
        ensures
            final(self).events@ == cleaned(old(self).events@, *now),
            is_ascending(final(self).events@),
            all_upcoming(final(self).events@, *now),
            no_duplicates(old(self).events@) ==> no_duplicates(final(self).events@),
    {
        proof {
            lemma_cleaned_is_tidy(self.events@, *now);
            if no_duplicates(self.events@) {
                lemma_cleaned_no_duplicates(self.events@, *now);
            }
        }
        let ghost given = self.events@;
        let mut sorted: Vec<SavedEvent> = Vec::new();
        let ghost mut done: int = 0;
        proof {
            reveal(Seq::filter);
            assert(given.take(0) =~= Seq::<SavedEvent>::empty());
        }
        while self.events.len() > 0
            invariant
                0 <= done,
                done + self.events.len() == given.len(),
                self.events@ == given.skip(done),
                sorted@ == cleaned(given.take(done), *now),
            decreases self.events.len(),
        {
            let event = self.events.remove(0);
            proof {
                reveal(Seq::filter);
                let next = given.take(done + 1);
                let kept = given.take(done).filter(is_upcoming(*now));
                assert(next.drop_last() =~= given.take(done));
                assert(next.last() == given[done]);
                assert(event == given[done]);
                assert(self.events@ =~= given.skip(done + 1));
                if now.is_before(event.when) {
                    assert(next.filter(is_upcoming(*now)) == kept.push(event));
                    assert(kept.push(event).drop_last() =~= kept);
                }
            }
            if now.before(&event.when) {
                settle(&mut sorted, event);
            }
            proof {
                done = done + 1;
            }
        }
        assert(given.take(done) =~= given);
        self.events = sorted;
    }

    /// Whether `loaded` is what loading a file at `now` gives: a file that
    /// is missing, that could not be read or that holds no store is an
    /// error, never an empty store; the events of a good file are tidied,
    /// and the file is to be written again if that dropped any.
    pub open spec fn is_loaded_from(
        file: StoreFile,
        now: Timestamp,
        loaded: Result<Loaded, Error>,
    ) -> bool {
        match file {
            StoreFile::Missing(cause) => loaded is Err && loaded->Err_0@
                == (ErrorView::EventStoreIOError { access: Access::NotFound, cause: cause@ }),
            StoreFile::Unreadable(cause) => loaded is Err && loaded->Err_0@
                == (ErrorView::EventStoreIOError { access: Access::Failed, cause: cause@ }),
            StoreFile::Corrupt(cause) => loaded is Err && loaded->Err_0@
                == ErrorView::EventStoreCorrupt(cause@),
            StoreFile::Events(events) => {
                &&& loaded is Ok
                &&& loaded->Ok_0.store.events@ == cleaned(events@, now)
                &&& loaded->Ok_0.rewrite == (cleaned(events@, now).len() != events.len())
            },
        }
    }

    /// The store that a file gives when loaded at `now`.
    pub fn from_file_path_at(file: StoreFile, now: &Timestamp) -> (loaded: Result<Loaded, Error>)
        ensures
            SavedEvents::is_loaded_from(file, *now, loaded),
    {
        match file {
            StoreFile::Missing(cause) => Err(
                Error::EventStoreIOError { access: Access::NotFound, cause },
            ),
            StoreFile::Unreadable(cause) => Err(
                Error::EventStoreIOError { access: Access::Failed, cause },
            ),
            StoreFile::Corrupt(cause) => Err(Error::EventStoreCorrupt(cause)),
            StoreFile::Events(events) => {
                let count = events.len();
                let mut store = SavedEvents { events };
                store.cleanup_at(now);
                let rewrite = store.events.len() != count;
                Ok(Loaded { store, rewrite })
            },
        }
    }

    /// The store that a file gives when loaded at the present moment.
    pub fn from_file_path(file: StoreFile) -> (loaded: Result<Loaded, Error>)
        ensures
            exists|now: Timestamp| #[trigger] SavedEvents::is_loaded_from(file, now, loaded),
    {
        let now = crate::time::now();
        SavedEvents::from_file_path_at(file, &now)
    }

    /// The store to start from after loading: where there was no file yet,
    /// an empty store; any other failure stays a failure.
    pub fn or_empty(loaded: Result<SavedEvents, Error>) -> (store: Result<SavedEvents, Error>)
        ensures
            match loaded {
                Ok(found) => store == Ok::<SavedEvents, Error>(found),
                Err(Error::EventStoreIOError { access: Access::NotFound, cause }) => store is Ok
                    && store->Ok_0.events@ == Seq::<SavedEvent>::empty(),
                Err(error) => store == Err::<SavedEvents, Error>(error),
            },
    {
        match loaded {
            Ok(found) => Ok(found),
            Err(Error::EventStoreIOError { access: Access::NotFound, cause }) => Ok(
                SavedEvents::new(),
            ),
            Err(error) => Err(error),
        }
    }

    /// Tidies the store at the present moment.
    pub fn cleanup(&mut self)
        ensures
            exists|now: Timestamp| final(self).events@ == #[trigger] cleaned(old(self).events@, now),
            is_ascending(final(self).events@),
            no_duplicates(old(self).events@) ==> no_duplicates(final(self).events@),
    {
        let now = crate::time::now();
        self.cleanup_at(&now);
    }
}

impl Default for SavedEvents {
    fn default() -> (store: SavedEvents)
        ensures
            store.events@ == Seq::<SavedEvent>::empty(),
    {
        SavedEvents::new()
    }
}

} // verus!

//! Events with a start and an end, and the store that keeps them by their
//! identifiers.

use crate::date::Date;
use crate::datetime::DateTime;
use std::collections::HashMap;
use uuid::Uuid;
use vstd::prelude::*;
use vstd::std_specs::hash::spec_hash_map_iter;
use vstd::std_specs::iter::IteratorSpec;

verus! {

/// Why an operation on events was refused.
#[derive(Clone, Copy, Debug, PartialEq, Eq, Structural)]
pub enum EventError {
    /// The end of an event does not lie after its start.
    InvalidTimeRange,
    /// The store holds no event with the identifier.
    NotFound,
}

impl EventError {
    /// The refusal in words.
    pub open spec fn text(self) -> Seq<char> {
        match self {
            EventError::InvalidTimeRange => "End time must be after start time"@,
            EventError::NotFound => "Event not found"@,
        }
    }

    /// The refusal in words, for the user to read.
    pub fn message(&self) -> (message: &'static str)
        ensures
            message@ == self.text(),
    {
        match self {
            EventError::InvalidTimeRange => "End time must be after start time",
            EventError::NotFound => "Event not found",
        }
    }
}

/// A titled span of time.
#[derive(Clone, Debug)]
pub struct Event {
    /// The identifier, given once when the event is made.
    pub id: u128,
    pub title: String,
    pub description: Option<String>,
    pub start_time: DateTime,
    pub end_time: DateTime,
}

/// `uuid::Uuid::new_v4` followed by `uuid::Uuid::as_u128`: the 128 bits of a
/// random identifier. The contract promises nothing of the value.
#[verifier::external_body]
fn random_id() -> (id: u128) {
    Uuid::new_v4().as_u128()
}

impl Event {
    /// Whether the event ends after it starts.
    pub open spec fn wf(self) -> bool {
        self.start_time.precedes(self.end_time)
    }

    /// The event with the given identifier and fields, or
    /// `InvalidTimeRange` where the end does not lie after the start.
    pub fn with_id(
        id: u128,
        title: String,
        description: Option<String>,
        start_time: DateTime,
        end_time: DateTime,
    ) -> (event: Result<Event, EventError>)
        ensures
            start_time.precedes(end_time) ==> event == Ok::<Event, EventError>(
                Event { id, title, description, start_time, end_time },
            ),
            !start_time.precedes(end_time) ==> event == Err::<Event, EventError>(
                EventError::InvalidTimeRange,
            ),
            event is Ok ==> event.unwrap().wf(),
    {
        if !start_time.is_before(&end_time) {
            return Err(EventError::InvalidTimeRange);
        }
        Ok(Event { id, title, description, start_time, end_time })
    }

    /// A new event with an identifier of its own, or `InvalidTimeRange`
    /// where the end does not lie after the start.
    pub fn new(
        title: String,
        description: Option<String>,
        start_time: DateTime,
        end_time: DateTime,
    ) -> (event: Result<Event, EventError>)
        ensures
            start_time.precedes(end_time) ==> event is Ok && event.unwrap() == (Event {
                id: event.unwrap().id,
                title,
                description,
                start_time,
                end_time,
            }),
            !start_time.precedes(end_time) ==> event == Err::<Event, EventError>(
                EventError::InvalidTimeRange,
            ),
            event is Ok ==> event.unwrap().wf(),
    {
        if !start_time.is_before(&end_time) {
            return Err(EventError::InvalidTimeRange);
        }
        Event::with_id(random_id(), title, description, start_time, end_time)
    }
}

/// What a store holds once `event` was added to it.
pub open spec fn with_event(store: Map<u128, Event>, event: Event) -> Map<u128, Event> {
    store.insert(event.id, event)
}

/// What a store holds once the event with the identifier was deleted from it.
pub open spec fn without_event(store: Map<u128, Event>, id: u128) -> Map<u128, Event> {
    store.remove(id)
}

/// The event that a store holds under the identifier, if it holds one.
pub open spec fn event_at(store: Map<u128, Event>, id: u128) -> Option<Event> {
    if store.contains_key(id) {
        Some(store[id])
    } else {
        None
    }
}

/// What a store answers when it is asked to delete or to replace the event
/// with the identifier.
pub open spec fn answer_for(store: Map<u128, Event>, id: u128) -> Result<(), EventError> {
    if store.contains_key(id) {
        Ok(())
    } else {
        Err(EventError::NotFound)
    }
}

/// After an event was added, the store holds that event under its
/// identifier. After an event was deleted, the store holds nothing under
/// its identifier, and deleting it once more is refused with `NotFound`.
pub proof fn lemma_add_then_delete(store: Map<u128, Event>, event: Event)
    ensures
        event_at(with_event(store, event), event.id) == Some(event),
        answer_for(with_event(store, event), event.id) is Ok,
        event_at(without_event(with_event(store, event), event.id), event.id) is None,
        answer_for(without_event(with_event(store, event), event.id), event.id) == Err::<
            (),
            EventError,
        >(EventError::NotFound),
        forall|id: u128| event_at(without_event(store, id), id) is None,
        forall|id: u128|
            without_event(without_event(store, id), id) == without_event(store, id),
{
}

/// The events that were added and not deleted, each under its identifier.
#[derive(Debug)]
pub struct EventManager {
    events: HashMap<u128, Event>,
}

impl View for EventManager {
    type V = Map<u128, Event>;

    /// The events by their identifiers.
    closed spec fn view(&self) -> Map<u128, Event> {
        self.events@
    }
}

impl Default for EventManager {
    /// A store without events.
    fn default() -> (manager: EventManager)
        ensures
            manager.wf(),
            manager@ == Map::<u128, Event>::empty(),
    {
        EventManager::new()
    }
}

impl EventManager {
    /// Whether the events are finite in number, and each is kept under its
    /// own identifier and ends after it starts.
    pub open spec fn wf(&self) -> bool {
        &&& self@.dom().finite()
        &&& forall|id: u128| #[trigger]
            self@.contains_key(id) ==> self@[id].id == id && self@[id].wf()
    }

    /// A store without events.
    pub fn new() -> (manager: EventManager)
        ensures
            manager.wf(),
            manager@ == Map::<u128, Event>::empty(),
    {
        EventManager { events: HashMap::new() }
    }

    /// Puts the event into the store under its identifier, in place of any
    /// event that was there under the same identifier, and returns the
    /// identifier.
    pub fn add_event(&mut self, event: Event) -> (added: Result<u128, EventError>)
        requires
            old(self).wf(),
            event.wf(),
        ensures
            final(self).wf(),
            added == Ok::<u128, EventError>(event.id),
            final(self)@ == with_event(old(self)@, event),
    {
        let id = event.id;
        self.events.insert(id, event);
        Ok(id)
    }

    /// Takes the event with the identifier out of the store, or returns
    /// `NotFound` and leaves the store as it is.
    pub fn delete_event(&mut self, id: u128) -> (deleted: Result<(), EventError>)
        requires
            old(self).wf(),
        ensures
            final(self).wf(),
            deleted == answer_for(old(self)@, id),
            final(self)@ == without_event(old(self)@, id),
            deleted is Err ==> final(self)@ == old(self)@,
    {
        match self.events.remove(&id) {
            Some(_) => Ok(()),
            None => Err(EventError::NotFound),
        }
    }

    /// Puts `updated_event` in the place of the event with the identifier,
    /// which it takes over, or returns `NotFound` and leaves the store as
    /// it is.
    pub fn edit_event(&mut self, id: u128, updated_event: Event) -> (edited: Result<
        (),
        EventError,
    >)
        requires
            old(self).wf(),
            updated_event.wf(),
        ensures
            final(self).wf(),
            edited == answer_for(old(self)@, id),
            edited is Ok ==> final(self)@ == with_event(
                old(self)@,
                Event { id, ..updated_event },
            ),
            edited is Err ==> final(self)@ == old(self)@,
    {
        if !self.events.contains_key(&id) {
            return Err(EventError::NotFound);
        }
        let mut updated_event = updated_event;
        updated_event.id = id;
        self.events.insert(id, updated_event);
        Ok(())
    }

    /// Every event of the store, once each, in no particular order.
    pub fn list_events(&self) -> (events: Vec<&Event>)
        requires
            self.wf(),
        ensures
            events.len() == self@.len(),
            forall|i: int|
                0 <= i < events.len() ==> self@.contains_key(#[trigger] events[i].id)
                    && self@[events[i].id] == *events[i],
            forall|id: u128| #[trigger]
                self@.contains_key(id) ==> exists|i: int|
                    0 <= i < events.len() && (#[trigger] events[i]).id == id,
            forall|i: int, j: int|
                0 <= i < j < events.len() ==> events[i].id != events[j].id,
    {
        let mut events: Vec<&Event> = Vec::new();
        for entry in it: self.events.iter()
            invariant
                events.len() == it.index(),
                it.seq() == spec_hash_map_iter(&self.events).remaining(),
                it.seq().no_duplicates(),
                forall|i: int| 0 <= i < events.len() ==> events[i] == it.seq()[i].1,
        {
            events.push(entry.1);
        }
        proof {
            let entries = spec_hash_map_iter(&self.events).remaining();
            assert forall|i: int| 0 <= i < events.len() implies self@.contains_key(
                #[trigger] events[i].id,
            ) && self@[events[i].id] == *events[i] && events[i].id == *entries[i].0 by {
                assert(self@.contains_key(*entries[i].0));
            }
            assert forall|i: int, j: int| 0 <= i < j < events.len() implies events[i].id
                != events[j].id by {
                assert(self@.contains_key(*entries[i].0));
                assert(self@.contains_key(*entries[j].0));
                if events[i].id == events[j].id {
                    assert(entries[i] == entries[j]);
                }
            }
            assert forall|id: u128| #[trigger] self@.contains_key(id) implies exists|i: int|
                0 <= i < events.len() && (#[trigger] events[i]).id == id by {
                assert(entries.contains((&id, &self@[id])));
                let i = choose|i: int| 0 <= i < entries.len() && entries[i] == (&id, &self@[id]);
                assert(events[i].id == id);
            }
        }
        events
    }

    /// The events that start on the given day, once each, in no particular
    /// order. Neither the time of day at which an event starts nor the day
    /// on which it ends counts.
    pub fn list_events_for_day(&self, date: Date) -> (events: Vec<&Event>)
        requires
            self.wf(),
        ensures
            forall|i: int|
                0 <= i < events.len() ==> self@.contains_key(#[trigger] events[i].id)
                    && self@[events[i].id] == *events[i] && events[i].start_time.date == date,
            forall|id: u128|
                #[trigger] self@.contains_key(id) && self@[id].start_time.date == date
                    ==> exists|i: int| 0 <= i < events.len() && (#[trigger] events[i]).id == id,
            forall|i: int, j: int|
                0 <= i < j < events.len() ==> events[i].id != events[j].id,
    {
        let mut events: Vec<&Event> = Vec::new();
        let ghost mut picked: Seq<int> = Seq::empty();
        for entry in it: self.events.iter()
            invariant
                it.seq() == spec_hash_map_iter(&self.events).remaining(),
                it.seq().no_duplicates(),
                picked.len() == events.len(),
                forall|i: int|
                    0 <= i < events.len() ==> 0 <= #[trigger] picked[i] < it.index() && events[i]
                        == it.seq()[picked[i]].1 && events[i].start_time.date == date,
                forall|i: int, j: int| 0 <= i < j < events.len() ==> picked[i] < picked[j],
                forall|k: int|
                    0 <= k < it.index() && (#[trigger] it.seq()[k]).1.start_time.date == date
                        ==> exists|i: int| 0 <= i < events.len() && #[trigger] picked[i] == k,
        {
            let ghost earlier = picked;
            if entry.1.start_time.date == date {
                proof {
                    picked = picked.push(it.index());
                }
                events.push(entry.1);
            }
            assert forall|k: int|
                0 <= k <= it.index() && (#[trigger] it.seq()[k]).1.start_time.date
                    == date implies exists|i: int|
                0 <= i < events.len() && #[trigger] picked[i] == k by {
                if k < it.index() {
                    let i = choose|i: int| 0 <= i < earlier.len() && #[trigger] earlier[i] == k;
                    assert(picked[i] == k);
                } else {
                    assert(picked[events.len() - 1] == k);
                }
            }
        }
        proof {
            let entries = spec_hash_map_iter(&self.events).remaining();
            assert forall|i: int| 0 <= i < events.len() implies self@.contains_key(
                #[trigger] events[i].id,
            ) && self@[events[i].id] == *events[i] && events[i].id == *entries[picked[i]].0 by {
                assert(self@.contains_key(*entries[picked[i]].0));
            }
            assert forall|i: int, j: int| 0 <= i < j < events.len() implies events[i].id
                != events[j].id by {
                assert(self@.contains_key(*entries[picked[i]].0));
                assert(self@.contains_key(*entries[picked[j]].0));
                if events[i].id == events[j].id {
                    assert(entries[picked[i]] == entries[picked[j]]);
                }
            }
            assert forall|id: u128| #[trigger]
                self@.contains_key(id) && self@[id].start_time.date == date implies exists|i: int|
                0 <= i < events.len() && (#[trigger] events[i]).id == id by {
                assert(entries.contains((&id, &self@[id])));
                let k = choose|k: int| 0 <= k < entries.len() && entries[k] == (&id, &self@[id]);
                assert(entries[k].1.start_time.date == date);
                let i = choose|i: int| 0 <= i < events.len() && #[trigger] picked[i] == k;
                assert(events[i].id == id);
            }
        }
        events
    }

    /// The event with the identifier, if the store holds one.
    pub fn get_event(&self, id: u128) -> (event: Option<&Event>)
        ensures
            match event_at(self@, id) {
                Some(found) => event == Some(&found),
                None => event is None,
            },
    {
        self.events.get(&id)
    }
}

} // verus!

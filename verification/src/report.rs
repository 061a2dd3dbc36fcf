//! What is shown of the saved events: which of them get a forecast, and how
//! the forecasts of several are put together.

use vstd::prelude::*;
use vstd::string::*;
use crate::persistence::{SavedEvent, SavedEvents};
use crate::time::{format_with, Timestamp};
use crate::Event;
use crate::DATE_INPUT_FORMAT;

verus! {

/// The test for an event to lie within the days that are forecast.
pub open spec fn is_forecastable() -> spec_fn(Event) -> bool {
    |event: Event| event.in_forecast_window()
}

/// The saved events as seen at `now`.
pub open spec fn seen_at(events: Seq<SavedEvent>, now: Timestamp) -> Seq<Event> {
    Seq::new(events.len(), |i: int| events[i].event_at(now))
}

/// The saved events that get a forecast at `now`, in the order of the store.
pub fn forecastable(saved: &SavedEvents, now: &Timestamp) -> (events: Vec<Event>)
    ensures
        events@ == seen_at(saved.events@, *now).filter(is_forecastable()),
{
    let ghost all = seen_at(saved.events@, *now);
    let mut events: Vec<Event> = Vec::new();
    let mut i: usize = 0;
    proof {
        reveal(Seq::filter);
        assert(all.take(0) =~= Seq::<Event>::empty());
    }
    while i < saved.events.len()
        invariant
            i <= saved.events.len(),
            all == seen_at(saved.events@, *now),
            events@ == all.take(i as int).filter(is_forecastable()),
        decreases saved.events.len() - i,
    {
        let event = saved.events[i].to_event_at(now);
        proof {
            reveal(Seq::filter);
            let next = all.take(i + 1);
            assert(next.drop_last() =~= all.take(i as int));
            assert(next.last() == event);
        }
        if event.has_weather_forcast() {
            events.push(event);
        }
        i = i + 1;
    }
    assert(all.take(i as int) =~= all);
    events
}

/// The saved events that get a forecast at the present moment, in the order
/// of the store.
pub fn forecastable_today(saved: &SavedEvents) -> (events: Vec<Event>)
    ensures
        exists|now: Timestamp|
            events@ == (#[trigger] seen_at(saved.events@, now)).filter(is_forecastable()),
{
    let now = crate::time::now();
    forecastable(saved, &now)
}

/// Whether `i` is the place of the first failure among the outcomes.
pub open spec fn is_first_failure<E>(outcomes: Seq<Result<String, E>>, i: int) -> bool {
    &&& 0 <= i < outcomes.len()
    &&& outcomes[i] is Err
    &&& forall|j: int| 0 <= j < i ==> (#[trigger] outcomes[j]) is Ok
}

/// What the outcomes of several forecasts come to: every text in the order
/// of the outcomes, or the first failure among them.
pub open spec fn is_collected<E>(
    outcomes: Seq<Result<String, E>>,
    collected: Result<Vec<String>, E>,
) -> bool {
    match collected {
        Ok(texts) => {
            &&& texts.len() == outcomes.len()
            &&& forall|i: int|
                0 <= i < outcomes.len() ==> (#[trigger] outcomes[i]) == Ok::<String, E>(
                    texts[i],
                )
        },
        Err(error) => exists|i: int|
            is_first_failure(outcomes, i) && (#[trigger] outcomes[i]) == Err::<String, E>(
                error,
            ),
    }
}

/// Gathers the outcomes of several forecasts once all have finished: one
/// failure fails the lot, and the first in order is the one reported.
pub fn collect<E>(outcomes: Vec<Result<String, E>>) -> (collected: Result<Vec<String>, E>)
    ensures
        is_collected(outcomes@, collected),
{
    let ghost given = outcomes@;
    let mut rest = outcomes;
    let mut texts: Vec<String> = Vec::new();
    while rest.len() > 0
        invariant
            given == outcomes@,
            texts.len() + rest.len() == given.len(),
            rest@ == given.skip(texts.len() as int),
            forall|i: int|
                0 <= i < texts.len() ==> (#[trigger] given[i]) == Ok::<String, E>(texts[i]),
        decreases rest.len(),
    {
        let ghost done = texts.len() as int;
        let outcome = rest.remove(0);
        assert(outcome == given[done]);
        match outcome {
            Ok(text) => {
                texts.push(text);
                assert(rest@ =~= given.skip(done + 1));
            },
            Err(error) => {
                assert(is_first_failure(given, done));
                return Err(error);
            },
        }
    }
    Ok(texts)
}

/// Texts in a row with a separator between each two.
pub open spec fn joined(parts: Seq<String>, separator: Seq<char>) -> Seq<char>
    decreases parts.len(),
{
    if parts.len() == 0 {
        Seq::<char>::empty()
    } else if parts.len() == 1 {
        parts[0]@
    } else {
        joined(parts.drop_last(), separator) + separator + parts.last()@
    }
}

/// The forecasts of several events as one text: a bracketed list with
/// commas for forecasts in JSON, else the forecasts with an empty line
/// between them.
pub open spec fn report_text(forecasts: Seq<String>, json: bool) -> Seq<char> {
    if json {
        "["@ + joined(forecasts, ","@) + "]"@
    } else {
        joined(forecasts, "\n\n"@)
    }
}

/// Puts texts in a row with a separator between each two.
fn join(parts: &Vec<String>, separator: &str) -> (text: String)
    ensures
        text@ == joined(parts@, separator@),
{
    let mut text = String::new();
    let mut i: usize = 0;
    assert(parts@.take(0) =~= Seq::<String>::empty());
    while i < parts.len()
        invariant
            i <= parts.len(),
            text@ == joined(parts@.take(i as int), separator@),
        decreases parts.len() - i,
    {
        proof {
            let next = parts@.take(i + 1);
            assert(next.drop_last() =~= parts@.take(i as int));
            assert(next.last() == parts[i as int]);
            if i == 0 {
                assert(next[0] == parts[0]);
            }
        }
        if i > 0 {
            text.append(separator);
        }
        text.append(parts[i].as_str());
        i = i + 1;
    }
    assert(parts@.take(i as int) =~= parts@);
    text
}

/// The forecasts of several events as one text, or nothing where there is
/// no forecast.
pub fn report(forecasts: &Vec<String>, json: bool) -> (text: Option<String>)
    ensures
        forecasts.len() == 0 ==> text is None,
        forecasts.len() > 0 ==> text is Some && text->Some_0@ == report_text(forecasts@, json),
{
    if forecasts.len() == 0 {
        return None;
    }
    if json {
        let mut text = String::from_str("[");
        text.append(join(forecasts, ",").as_str());
        text.append("]");
        Some(text)
    } else {
        Some(join(forecasts, "\n\n"))
    }
}

/// The line for an event in the list of events: date, name and place.
pub open spec fn listed_text(date: Seq<char>, name: Seq<char>, location: Seq<char>) -> Seq<char> {
    date + " "@ + name + ", "@ + location
}

/// The line for an event with its date written out.
pub fn listed(date: &str, name: &str, location: &str) -> (text: String)
    ensures
        text@ == listed_text(date@, name@, location@),
{
    let mut text = String::from_str(date);
    text.append(" ");
    text.append(name);
    text.append(", ");
    text.append(location);
    text
}

/// The line for a saved event in the list of events, with the date as it
/// is typed in.
pub fn list_line(event: &SavedEvent) -> (text: String)
    ensures
        text@ == listed_text(event.when.formatted(DATE_INPUT_FORMAT@), event.name@, event.location@),
{
    listed(
        format_with(&event.when, DATE_INPUT_FORMAT).as_str(),
        event.name.as_str(),
        event.location.as_str(),
    )
}

} // verus!

//! Where a place is: from the store if an event was saved there, else from
//! what the geocoder answers.

use vstd::prelude::*;
use vstd::string::*;
use crate::error::{outcome, Error, ErrorView, Upstream, UpstreamView};
use crate::number::Binary64;
use crate::persistence::{SavedEvent, SavedEvents};
use crate::provider::Reply;

verus! {

/// Where the geocoder is asked; the place searched for follows.
pub const NOMINATIM_URL: &'static str =
    "https://nominatim.openstreetmap.org/search.php?format=jsonv2&q=";

/// One match of the geocoder. Where the text of a coordinate is no number,
/// what stands in its place says why.
#[derive(Debug)]
pub struct Location {
    pub lat: Result<Binary64, String>,
    pub lon: Result<Binary64, String>,
}

/// Whether the event at `i` is the first one saved at the place `query`.
pub open spec fn is_first_at(events: Seq<SavedEvent>, query: Seq<char>, i: int) -> bool {
    &&& 0 <= i < events.len()
    &&& events[i].location@ == query
    &&& forall|j: int| 0 <= j < i ==> (#[trigger] events[j]).location@ != query
}

/// The coordinates of a place as the first event saved there has them. The
/// place has to be spelled exactly as it was saved.
pub fn coordinates_from_saved_events(query: &str, saved: &SavedEvents) -> (found: Option<
    (Binary64, Binary64),
>)
    ensures
        match found {
            Some(pair) => exists|i: int|
                is_first_at(saved.events@, query@, i) && pair == (
                    (#[trigger] saved.events[i]).latitude,
                    saved.events[i].longitude,
                ),
            None => forall|j: int|
                0 <= j < saved.events.len() ==> (#[trigger] saved.events[j]).location@ != query@,
        },
{
    let wanted = String::from_str(query);
    let mut i: usize = 0;
    while i < saved.events.len()
        invariant
            i <= saved.events.len(),
            wanted@ == query@,
            forall|j: int| 0 <= j < i ==> (#[trigger] saved.events[j]).location@ != query@,
        decreases saved.events.len() - i,
    {
        if saved.events[i].location == wanted {
            assert(is_first_at(saved.events@, query@, i as int));
            return Some((saved.events[i].latitude, saved.events[i].longitude));
        }
        i = i + 1;
    }
    None
}

/// The address at which the geocoder is asked for a place.
pub fn search_url(query: &str) -> (url: String)
    ensures
        url@ == NOMINATIM_URL@ + query@,
{
    let mut url = String::from_str(NOMINATIM_URL);
    url.append(query);
    url
}

/// How to learn where a place is.
#[derive(Debug)]
pub enum Lookup {
    /// An event was saved at the place, with these coordinates.
    Known(Binary64, Binary64),
    /// No event was saved there: the geocoder has to be asked at this
    /// address.
    Ask(String),
}

/// How to learn where a place is: the store is looked through before the
/// geocoder is asked.
pub fn lookup(query: &str, saved: &SavedEvents) -> (found: Lookup)
    ensures
        match found {
            Lookup::Known(latitude, longitude) => exists|i: int|
                is_first_at(saved.events@, query@, i) && latitude == (
                #[trigger] saved.events[i]).latitude && longitude == saved.events[i].longitude,
            Lookup::Ask(url) => {
                &&& url@ == NOMINATIM_URL@ + query@
                &&& forall|j: int|
                    0 <= j < saved.events.len() ==> (#[trigger] saved.events[j]).location@
                        != query@
            },
        },
{
    match coordinates_from_saved_events(query, saved) {
        Some((latitude, longitude)) => Lookup::Known(latitude, longitude),
        None => Lookup::Ask(search_url(query)),
    }
}

/// What the geocoder's answer says of where the place `query` is: the
/// coordinates of the first match. An answer that is of no use is
/// `GeocodingFailed` with what the answer held; an answer without a match
/// is `GeocodingFailed` with the place searched for; and a first match with
/// a coordinate that is no number is `GeocodingFailed` with the cause, that
/// of the latitude first.
pub open spec fn located(query: Seq<char>, reply: Reply<Vec<Location>>) -> Result<
    (Binary64, Binary64),
    ErrorView,
> {
    match reply.failure() {
        Some(failure) => Err(ErrorView::GeocodingFailed(failure)),
        None => {
            let matches = reply->parsed->Ok_0@;
            if matches.len() == 0 {
                Err(ErrorView::GeocodingFailed(UpstreamView::NoResults(query)))
            } else {
                match (matches[0].lat, matches[0].lon) {
                    (Ok(latitude), Ok(longitude)) => Ok((latitude, longitude)),
                    (Err(cause), _) => Err(
                        ErrorView::GeocodingFailed(
                            UpstreamView::Malformed { url: reply->url@, cause: cause@ },
                        ),
                    ),
                    (_, Err(cause)) => Err(
                        ErrorView::GeocodingFailed(
                            UpstreamView::Malformed { url: reply->url@, cause: cause@ },
                        ),
                    ),
                }
            }
        },
    }
}

/// The coordinates of the place `query` as the geocoder's answer gives
/// them.
pub fn coordinates(query: &str, reply: Reply<Vec<Location>>) -> (place: Result<
    (Binary64, Binary64),
    Error,
>)
    ensures
        outcome(place) == located(query@, reply),
{
    match reply {
        Reply::Unreachable { cause } => Err(Error::GeocodingFailed(Upstream::Transport(cause))),
        Reply::Answered { url, status, body, parsed } => {
            if status < 200 || status >= 300 {
                return Err(Error::GeocodingFailed(Upstream::Status { url, status, body }));
            }
            let mut matches = match parsed {
                Ok(matches) => matches,
                Err(cause) => {
                    return Err(Error::GeocodingFailed(Upstream::Malformed { url, cause }));
                },
            };
            if matches.len() == 0 {
                return Err(
                    Error::GeocodingFailed(Upstream::NoResults(String::from_str(query))),
                );
            }
            let first = matches.remove(0);
            match (first.lat, first.lon) {
                (Ok(latitude), Ok(longitude)) => Ok((latitude, longitude)),
                (Err(cause), _) => Err(Error::GeocodingFailed(Upstream::Malformed { url, cause })),
                (_, Err(cause)) => Err(Error::GeocodingFailed(Upstream::Malformed { url, cause })),
            }
        },
    }
}

} // verus!

//! What passes between the library and the services it asks: the address of
//! a request going out, and the answer coming back.

use vstd::prelude::*;
use vstd::string::*;
use crate::error::{Upstream, UpstreamView};
use crate::text::{decimal, decimal_text};

verus! {

/// What `reqwest::Url::parse_with_params` makes of a base address and a list
/// of query parameters: the address with the parameters added to its query,
/// or nothing where the base is no absolute address.
pub uninterp spec fn url_with_params(
    base: Seq<char>,
    params: Seq<(Seq<char>, Seq<char>)>,
) -> Option<Seq<char>>;

/// The phrase that `reqwest::StatusCode::canonical_reason` has for a status
/// code, or nothing where it has none or the number is no status code.
pub uninterp spec fn canonical_reason_of(status: u16) -> Option<Seq<char>>;

/// The names and values of a list of parameters as plain text.
pub open spec fn pairs_text(params: Seq<(String, String)>) -> Seq<(Seq<char>, Seq<char>)> {
    Seq::new(params.len(), |i: int| (params[i].0@, params[i].1@))
}

/// Builds an address with `reqwest::Url::parse_with_params`.
///
/// Trusted: the outcome depends on the base and on the names and values of
/// the parameters, in their order, and on nothing else. Nothing is claimed
/// about how the address is spelled.
#[verifier::external_body]
pub(crate) fn parse_with_params(base: &str, params: &Vec<(String, String)>) -> (url: Option<String>)
    ensures
        url matches Some(address) ==> url_with_params(base@, pairs_text(params@)) == Some(
            address@,
        ),
        url is None ==> url_with_params(base@, pairs_text(params@)) is None,
{
    match reqwest::Url::parse_with_params(base, params) {
        Ok(url) => Some(url.to_string()),
        Err(_) => None,
    }
}

/// Looks up the phrase for a status code with
/// `reqwest::StatusCode::canonical_reason`, after
/// `reqwest::StatusCode::from_u16` has made a status code of the number.
///
/// Trusted: the phrase depends on the number alone. Nothing is claimed
/// about which numbers have a phrase.
#[verifier::external_body]
pub(crate) fn reason_phrase(status: u16) -> (reason: Option<&'static str>)
    ensures
        reason matches Some(phrase) ==> canonical_reason_of(status) == Some(phrase@),
        reason is None ==> canonical_reason_of(status) is None,
{
    match reqwest::StatusCode::from_u16(status) {
        Ok(code) => code.canonical_reason(),
        Err(_) => None,
    }
}

/// A status written out with a phrase: the number, and behind it the
/// phrase or a note that there is none.
pub open spec fn status_with(status: u16, reason: Option<Seq<char>>) -> Seq<char> {
    decimal(status as nat) + " "@ + match reason {
        Some(phrase) => phrase,
        None => "<unknown status code>"@,
    }
}

/// A status written out: the number and its phrase.
pub open spec fn status_text_of(status: u16) -> Seq<char> {
    status_with(status, canonical_reason_of(status))
}

/// A status written out with the phrase that was looked up for it.
pub fn status_text(status: u16, reason: Option<&'static str>) -> (text: String)
    ensures
        text@ == status_with(
            status,
            match reason {
                Some(phrase) => Some(phrase@),
                None => None,
            },
        ),
{
    let mut text = decimal_text(status as u64);
    text.append(" ");
    match reason {
        Some(phrase) => text.append(phrase),
        None => text.append("<unknown status code>"),
    }
    text
}

/// Whether a status code reports success: the codes from 200 to 299 do.
pub open spec fn is_success(status: u16) -> bool {
    200 <= status < 300
}

/// The answer to one request. `T` is what the body of a good answer is read
/// as.
#[derive(Debug)]
pub enum Reply<T> {
    /// The request failed before any answer came; `cause` says why.
    Unreachable { cause: String },
    /// An answer came from `url` with this status and this body. `parsed`
    /// is the body read as a `T`, or what kept it from being read so.
    Answered { url: String, status: u16, body: String, parsed: Result<T, String> },
}

impl<T> Reply<T> {
    /// Why this answer is of no use, if it is not. The status is looked at
    /// before the body is.
    pub open spec fn failure(self) -> Option<UpstreamView> {
        match self {
            Reply::Unreachable { cause } => Some(UpstreamView::Transport(cause@)),
            Reply::Answered { url, status, body, parsed } => if !is_success(status) {
                Some(UpstreamView::Status { url: url@, status, body: body@ })
            } else {
                match parsed {
                    Ok(_) => None,
                    Err(cause) => Some(UpstreamView::Malformed { url: url@, cause: cause@ }),
                }
            },
        }
    }

    /// What a good answer holds, or why the answer is of no use.
    pub fn content(self) -> (content: Result<T, Upstream>)
        ensures
            match self.failure() {
                Some(failure) => content is Err && content->Err_0@ == failure,
                None => content == Ok::<T, Upstream>(self->parsed->Ok_0),
            },
    {
        match self {
            Reply::Unreachable { cause } => Err(Upstream::Transport(cause)),
            Reply::Answered { url, status, body, parsed } => {
                if status < 200 || status >= 300 {
                    Err(Upstream::Status { url, status, body })
                } else {
                    match parsed {
                        Ok(value) => Ok(value),
                        Err(cause) => Err(Upstream::Malformed { url, cause }),
                    }
                }
            },
        }
    }
}

} // verus!

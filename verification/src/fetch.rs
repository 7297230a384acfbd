//! One fetch for one league: what is asked of the provider, how its answer
//! is judged, and what the outcome does to the cache.

use crate::cache::Cache;
use crate::cache::Snapshot;
use crate::calendar::iso_date_text;
use crate::calendar::Window;
use crate::calendar::WindowMode;
use crate::calendar::WindowView;
use crate::models::Match;
use crate::text::lowercase_of;
use crate::text::pairs_view;
use crate::text::uppercase;
use crate::text::uppercase_of;
use vstd::prelude::*;
use vstd::string::StringExecFns;

verus! {

/// Where the provider is reached.
pub const FOOTBALL_DATA_URL: &'static str = "http://api.football-data.org/v4";

/// The path of the matches resource below [`FOOTBALL_DATA_URL`].
pub const MATCHES_PATH: &'static str = "/matches";

/// The header that carries the access token.
pub const AUTH_HEADER: &'static str = "X-Auth-Token";

/// Why a fetch brought no matches.
#[derive(Clone, Debug, PartialEq, Eq)]
pub enum FetchError {
    /// No answer came: the connection, the name lookup or a timeout failed.
    Transport(String),
    /// The provider answered with a status outside 200 to 299.
    UpstreamStatus(u16, String),
    /// The answer was not a list of matches.
    Decode(String),
}

/// The text that reports `error`.
pub open spec fn message_of(error: FetchError) -> Seq<char> {
    match error {
        FetchError::Transport(detail) => "Error sending request to the server: "@ + detail@,
        FetchError::UpstreamStatus(_, detail) => "Error from the server: "@ + detail@,
        FetchError::Decode(detail) => detail@,
    }
}

impl FetchError {
    /// The text that reports the error.
    pub fn message(&self) -> (text: String)
        ensures
            text@ == message_of(*self),
    {
        match self {
            FetchError::Transport(detail) => String::from_str(
                "Error sending request to the server: ",
            ).concat(detail.as_str()),
            FetchError::UpstreamStatus(_, detail) => String::from_str(
                "Error from the server: ",
            ).concat(detail.as_str()),
            FetchError::Decode(detail) => detail.clone(),
        }
    }
}

/// A request as the characters of its parts.
pub struct RequestView {
    pub key: Seq<char>,
    pub competition: Seq<char>,
    pub filter: Seq<char>,
    pub range: Option<(Seq<char>, Seq<char>)>,
}

/// The request for the league `key` over `window`.
pub open spec fn request_for(key: Seq<char>, window: WindowView) -> RequestView {
    RequestView {
        key,
        competition: uppercase_of(key),
        filter: iso_date_text(window.reference),
        range: if window.mode == WindowMode::Day {
            None
        } else {
            Some((iso_date_text(window.from), iso_date_text(window.to)))
        },
    }
}

/// The query parameters of `request`, in the order they are sent.
pub open spec fn query_of(request: RequestView) -> Seq<(Seq<char>, Seq<char>)> {
    let always = seq![("filter"@, request.filter), ("competitions"@, request.competition)];
    match request.range {
        Some((from, to)) => always + seq![("dateFrom"@, from), ("dateTo"@, to)],
        None => always,
    }
}

/// What one fetch asks of the provider.
#[derive(Clone, Debug, PartialEq, Eq)]
pub struct FetchRequest {
    /// The league's key, under which the outcome is stored.
    pub key: String,
    /// The league's code as the provider spells it, in upper case.
    pub competition: String,
    /// The reference day, as ISO text.
    pub filter: String,
    /// The first and the last day asked for, as ISO text, where the window
    /// is wider than the reference day.
    pub range: Option<(String, String)>,
}

impl View for FetchRequest {
    type V = RequestView;

    open spec fn view(&self) -> RequestView {
        RequestView {
            key: self.key@,
            competition: self.competition@,
            filter: self.filter@,
            range: match self.range {
                Some((from, to)) => Some((from@, to@)),
                None => None,
            },
        }
    }
}

impl FetchRequest {
    /// The request for the league `key` over `window`.
    pub fn new(key: &str, window: &Window) -> (request: FetchRequest)
        ensures
            request@ == request_for(key@, window@),
    {
        let range = match window.mode() {
            WindowMode::Day => None,
            _ => Some((window.from().iso(), window.to().iso())),
        };
        FetchRequest {
            key: String::from_str(key),
            competition: uppercase(key),
            filter: window.reference().iso(),
            range,
        }
    }

    /// The address that the request goes to.
    pub fn endpoint() -> (url: String)
        ensures
            url@ == FOOTBALL_DATA_URL@ + MATCHES_PATH@,
    {
        String::from_str(FOOTBALL_DATA_URL).concat(MATCHES_PATH)
    }

    /// The query parameters, in the order they are sent.
    pub fn query(&self) -> (pairs: Vec<(String, String)>)
        ensures
            pairs_view(pairs@) == query_of(self@),
    {
        let mut pairs: Vec<(String, String)> = Vec::new();
        pairs.push((String::from_str("filter"), self.filter.clone()));
        pairs.push((String::from_str("competitions"), self.competition.clone()));
        match &self.range {
            Some((from, to)) => {
                pairs.push((String::from_str("dateFrom"), from.clone()));
                pairs.push((String::from_str("dateTo"), to.clone()));
            },
            None => {},
        }
        assert(pairs_view(pairs@) =~= query_of(self@));
        pairs
    }
}

/// Whether `status` reports success.
pub open spec fn is_success(status: u16) -> bool {
    200 <= status <= 299
}

/// Whether `status` reports success.
pub fn accepts(status: u16) -> (r: bool)
    ensures
        r == is_success(status),
{
    200 <= status && status <= 299
}

/// Judges how sending the request went: `Err` with a detail where no answer
/// came, else the status of the answer and its reason. `Ok` says that the
/// body is to be decoded.
pub fn on_response(sent: Result<(u16, String), String>) -> (r: Result<(), FetchError>)
    ensures
        r == match sent {
            Err(detail) => Err::<(), FetchError>(FetchError::Transport(detail)),
            Ok((status, reason)) => if is_success(status) {
                Ok(())
            } else {
                Err(FetchError::UpstreamStatus(status, reason))
            },
        },
{
    match sent {
        Err(detail) => Err(FetchError::Transport(detail)),
        Ok((status, reason)) => {
            if accepts(status) {
                Ok(())
            } else {
                Err(FetchError::UpstreamStatus(status, reason))
            }
        },
    }
}

/// Judges the decoded body of an accepted answer: the matches, or `Err` with
/// a detail where the body was no list of matches.
pub fn on_body(decoded: Result<Vec<Match>, String>) -> (r: Result<Vec<Match>, FetchError>)
    ensures
        r == match decoded {
            Ok(records) => Ok::<Vec<Match>, FetchError>(records),
            Err(detail) => Err(FetchError::Decode(detail)),
        },
{
    match decoded {
        Ok(records) => Ok(records),
        Err(detail) => Err(FetchError::Decode(detail)),
    }
}

/// The cache after the outcome of a fetch for `key` is committed to
/// `before`: matches replace what was stored, an empty list removes it, and
/// a failure changes nothing.
pub open spec fn committed(
    before: Snapshot,
    key: Seq<char>,
    outcome: Result<Vec<Match>, FetchError>,
) -> Snapshot {
    match outcome {
        Ok(records) => if records@.len() > 0 {
            before.insert(lowercase_of(key), records@)
        } else {
            before.remove(lowercase_of(key))
        },
        Err(_) => before,
    }
}

/// A fetch that has come to its end: the league's key and the outcome.
pub type Arrival = (Seq<char>, Result<Vec<Match>, FetchError>);

/// The cache after `arrivals` are committed to `before`, one after the other.
pub open spec fn committed_all(before: Snapshot, arrivals: Seq<Arrival>) -> Snapshot
    decreases arrivals.len(),
{
    if arrivals.len() == 0 {
        before
    } else {
        committed(committed_all(before, arrivals.drop_last()), arrivals.last().0, arrivals.last().1)
    }
}

/// Commits the outcome of a fetch for `key` to the cache, and hands a
/// failure back for reporting.
pub fn commit(cache: &mut Cache, key: &str, outcome: Result<Vec<Match>, FetchError>) -> (r: Result<
    (),
    FetchError,
>)
    ensures
        final(cache)@ == committed(old(cache)@, key@, outcome),
        r == match outcome {
            Ok(_) => Ok::<(), FetchError>(()),
            Err(error) => Err(error),
        },
{
    match outcome {
        Ok(records) => {
            if records.len() > 0 {
                cache.put(key, records);
            } else {
                cache.remove(key);
            }
            Ok(())
        },
        Err(error) => Err(error),
    }
}

} // verus!

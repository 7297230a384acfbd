//! The records that the data provider reports, as plain values.

use crate::text::text_view;
use reqwest::Url;
use vstd::prelude::*;

verus! {

/// The address that `Url::parse` makes of `text`, written out; `None` where
/// it takes `text` for no address.
pub uninterp spec fn address_of(text: Seq<char>) -> Option<Seq<char>>;

/// Whether `text` is an address as `Url::parse` writes one.
pub open spec fn is_address(text: Seq<char>) -> bool {
    exists|raw: Seq<char>| #[trigger] address_of(raw) == Some(text)
}

/// Calls `Url::parse` and turns the address back into a string. Trusted:
/// the outcome depends on the text alone, and is named [`address_of`].
/// Nothing is claimed of which texts are addresses.
#[verifier::external_body]
fn parse_address(text: &str) -> (r: Option<String>)
    ensures
        text_view(r) == address_of(text@),
{
    Url::parse(text).ok().map(String::from)
}

/// A well-formed address of a crest or an emblem.
#[derive(Debug, PartialEq, Eq)]
pub struct Address {
    text: String,
}

impl View for Address {
    type V = Seq<char>;

    closed spec fn view(&self) -> Seq<char> {
        self.text@
    }
}

impl Address {
    #[verifier::type_invariant]
    pub closed spec fn well_formed(self) -> bool {
        is_address(self.text@)
    }

    /// The address that `text` stands for, if it is well-formed.
    pub fn parse(text: &str) -> (r: Option<Address>)
        ensures
            r is Some <==> address_of(text@) is Some,
            r matches Some(address) ==> Some(address@) == address_of(text@),
    {
        match parse_address(text) {
            Some(text) => Some(Address { text }),
            None => None,
        }
    }

    /// The address as text.
    pub fn as_str(&self) -> (text: &str)
        ensures
            text@ == self@,
            is_address(text@),
    {
        proof {
            use_type_invariant(self);
        }
        self.text.as_str()
    }
}

impl Clone for Address {
    fn clone(&self) -> (copy: Address)
        ensures
            copy@ == self@,
    {
        proof {
            use_type_invariant(self);
        }
        Address { text: self.text.clone() }
    }
}

/// An instant in UTC: whole seconds since the Unix epoch, and the nanoseconds
/// into that second.
#[derive(Clone, Copy, Debug, PartialEq, Eq, Structural)]
pub struct Timestamp {
    pub seconds: i64,
    pub nanos: u32,
}

/// The goals of both sides at one point of a match. A side that is `None`
/// has nothing recorded yet, which is not the same as zero.
#[derive(Clone, Debug, PartialEq, Eq)]
pub struct DetailedScore {
    pub home: Option<usize>,
    pub away: Option<usize>,
}

/// The score of a match at half time and at full time.
#[derive(Clone, Debug, PartialEq, Eq)]
pub struct Score {
    pub winner: Option<String>,
    pub duration: String,
    pub half_time: DetailedScore,
    pub full_time: DetailedScore,
}

/// One side of a match.
#[derive(Clone, Debug, PartialEq, Eq)]
pub struct Team {
    pub id: usize,
    pub name: String,
    pub short_name: String,
    pub tla: String,
    /// Where the crest is found, if the provider gave an address.
    pub crest: Option<Address>,
}

/// The competition a match belongs to.
#[derive(Clone, Debug, PartialEq, Eq)]
pub struct Competition {
    pub id: usize,
    pub name: String,
    pub code: String,
    pub competition_type: String,
    /// Where the emblem is found, if the provider gave an address.
    pub emblem: Option<Address>,
}

/// One scheduled or played match.
#[derive(Clone, Debug, PartialEq, Eq)]
pub struct Match {
    pub competition: Competition,
    pub id: usize,
    pub utc_date: Timestamp,
    pub status: String,
    pub matchday: Option<usize>,
    pub stage: String,
    pub group: Option<String>,
    pub last_updated: Timestamp,
    pub home_team: Team,
    pub away_team: Team,
    pub score: Score,
}

/// The body of one answer of the provider.
#[derive(Clone, Debug, PartialEq, Eq)]
pub struct Matches {
    pub matches: Vec<Match>,
}

} // verus!

//! The texts that a front end shows: titles, match lines, league lists and
//! suggestions. Nothing here sends anything.

use crate::cache::Cache;
use crate::cache::Snapshot;
use crate::leagues::name_of;
use crate::leagues::Entries;
use crate::leagues::KeySet;
use crate::models::Match;
use crate::models::Score;
use crate::models::Timestamp;
use crate::query::looked_up;
use crate::query::Lookup;
use crate::text::contains;
use crate::text::lowercase;
use crate::text::lowercase_of;
use crate::text::occurs_in;
use crate::text::pairs_view;
use crate::text::text_view;
use chrono::DateTime;
use chrono::FixedOffset;
use std::fmt::Write;
use vstd::prelude::*;
use vstd::string::StringExecFns;

verus! {

/// The offset from UTC, in seconds, of the clock that kick-off times are
/// shown in.
pub const DISPLAY_OFFSET_SECS: i32 = 25_200;

/// The pattern that kick-off times are shown in: day, month, year, hour and
/// minute, and the offset of the clock.
pub const DISPLAY_PATTERN: &'static str = "%d/%m/%Y %R %Z";

/// The icon of the data provider.
pub const FOOTBALL_DATA_ICON: &'static str =
    "https://www.football-data.org/assets/favicons/favicon-32x32.png";

/// The credit shown below a list of matches.
pub const CREDIT: &'static str = "Data from https://www.football-data.org";

/// What is shown for a tracked league without matches.
pub const NO_MATCHES: &'static str = "No matches are scheduled for this week";

/// What is shown for a key that is no tracked league.
pub const INVALID_LEAGUE: &'static str =
    "Invalid league ID. For a list of valid leagues, use /leagues";

/// The title of the list of leagues.
pub const LEAGUES_TITLE: &'static str = "**Leagues**";

/// The hint shown above the list of leagues.
pub const LEAGUES_HINT: &'static str =
    "Use the short league name to query matches, for example: `/matches pl` for Premier League, `/matches sa` for Serie A, ...";

/// The line shown below the help.
pub const HELP_NOTE: &'static str =
    "This is a bot to post current week's football matches. Data is from https://www.football-data.org";

/// The text that `chrono` prints for the instant `seconds` and `nanos` on a
/// clock `offset` seconds east of UTC, in the given pattern; `None` where
/// `chrono` cannot hold the instant or the offset, or rejects the pattern.
pub uninterp spec fn instant_text(seconds: int, nanos: int, offset: int, pattern: Seq<char>) -> Option<
    Seq<char>,
>;

/// Calls `DateTime::from_timestamp`, `FixedOffset::east_opt`,
/// `DateTime::with_timezone` and `DateTime::format`, and writes the result
/// out. Trusted: the outcome depends on the four arguments alone, and is
/// named [`instant_text`]. Nothing is claimed of what the text holds.
#[verifier::external_body]
fn format_instant(seconds: i64, nanos: u32, offset: i32, pattern: &str) -> (r: Option<String>)
    ensures
        text_view(r) == instant_text(seconds as int, nanos as int, offset as int, pattern@),
{
    let instant = DateTime::from_timestamp(seconds, nanos)?;
    let clock = FixedOffset::east_opt(offset)?;
    let mut text = String::new();
    write!(text, "{}", instant.with_timezone(&clock).format(pattern)).ok()?;
    Some(text)
}

/// The kick-off time `at` as it is shown, if `chrono` can print it.
pub fn kickoff_text(at: &Timestamp) -> (r: Option<String>)
    ensures
        text_view(r) == instant_text(
            at.seconds as int,
            at.nanos as int,
            DISPLAY_OFFSET_SECS as int,
            DISPLAY_PATTERN@,
        ),
{
    format_instant(at.seconds, at.nanos, DISPLAY_OFFSET_SECS, DISPLAY_PATTERN)
}

/// The character of the digit `d`.
pub open spec fn digit_char(d: nat) -> char {
    if d == 0 {
        '0'
    } else if d == 1 {
        '1'
    } else if d == 2 {
        '2'
    } else if d == 3 {
        '3'
    } else if d == 4 {
        '4'
    } else if d == 5 {
        '5'
    } else if d == 6 {
        '6'
    } else if d == 7 {
        '7'
    } else if d == 8 {
        '8'
    } else {
        '9'
    }
}

/// The number `n` in decimal digits, without leading zeros.
pub open spec fn decimal_text(n: nat) -> Seq<char>
    decreases n,
{
    if n < 10 {
        seq![digit_char(n)]
    } else {
        decimal_text(n / 10).push(digit_char(n % 10))
    }
}

fn digit(d: u128) -> (r: &'static str)
    requires
        d < 10,
    ensures
        r@ == seq![digit_char(d as nat)],
{
    proof {
        reveal_strlit("0");
        reveal_strlit("1");
        reveal_strlit("2");
        reveal_strlit("3");
        reveal_strlit("4");
        reveal_strlit("5");
        reveal_strlit("6");
        reveal_strlit("7");
        reveal_strlit("8");
        reveal_strlit("9");
    }
    let r = if d == 0 {
        "0"
    } else if d == 1 {
        "1"
    } else if d == 2 {
        "2"
    } else if d == 3 {
        "3"
    } else if d == 4 {
        "4"
    } else if d == 5 {
        "5"
    } else if d == 6 {
        "6"
    } else if d == 7 {
        "7"
    } else if d == 8 {
        "8"
    } else {
        "9"
    };
    assert(r@ =~= seq![digit_char(d as nat)]);
    r
}

/// The number `n` in decimal digits, without leading zeros.
pub fn decimal(n: u128) -> (text: String)
    ensures
        text@ == decimal_text(n as nat),
    decreases n,
{
    if n < 10 {
        String::from_str(digit(n))
    } else {
        let mut text = decimal(n / 10);
        text.append(digit(n % 10));
        text
    }
}

/// The goals that are shown for a match: those at full time where both sides
/// have them, else those at half time where both sides have them, else none
/// for either side.
pub open spec fn shown_score(score: Score) -> (usize, usize) {
    match (score.full_time.home, score.full_time.away) {
        (Some(home), Some(away)) => (home, away),
        _ => match (score.half_time.home, score.half_time.away) {
            (Some(home), Some(away)) => (home, away),
            _ => (0, 0),
        },
    }
}

/// The goals that are shown for a match, home side first.
pub fn resolve_score(score: &Score) -> (r: (usize, usize))
    ensures
        r == shown_score(*score),
{
    match (score.full_time.home, score.full_time.away) {
        (Some(home), Some(away)) => (home, away),
        _ => match (score.half_time.home, score.half_time.away) {
            (Some(home), Some(away)) => (home, away),
            _ => (0, 0),
        },
    }
}

/// The heading of the match that stands at place `number` of a list, with
/// its round where it has one.
pub open spec fn title_of(number: nat, matchday: Option<usize>) -> Seq<char> {
    match matchday {
        Some(round) => "Match "@ + decimal_text(number) + " - Round "@ + decimal_text(round as nat),
        None => "Match "@ + decimal_text(number),
    }
}

/// The heading of the match that stands at place `number` of a list.
pub fn match_title(number: usize, matchday: Option<usize>) -> (text: String)
    ensures
        text@ == title_of(number as nat, matchday),
{
    let mut text = String::from_str("Match ");
    text.append(decimal(number as u128).as_str());
    match matchday {
        Some(round) => {
            text.append(" - Round ");
            text.append(decimal(round as u128).as_str());
        },
        None => {},
    }
    text
}

/// The line of one match: both sides with the goals shown for them, and the
/// kick-off time as the text `kickoff`.
pub open spec fn line_of(m: Match, kickoff: Seq<char>) -> Seq<char> {
    "**"@ + m.home_team.short_name@ + " "@ + decimal_text(shown_score(m.score).0 as nat) + " - "@
        + decimal_text(shown_score(m.score).1 as nat) + " "@ + m.away_team.short_name@ + "** ("@
        + kickoff + ")"@
}

/// The line of one match, with the kick-off time as the text `kickoff`.
pub fn match_line(m: &Match, kickoff: &str) -> (text: String)
    ensures
        text@ == line_of(*m, kickoff@),
{
    let (home, away) = resolve_score(&m.score);
    let mut text = String::from_str("**");
    text.append(m.home_team.short_name.as_str());
    text.append(" ");
    text.append(decimal(home as u128).as_str());
    text.append(" - ");
    text.append(decimal(away as u128).as_str());
    text.append(" ");
    text.append(m.away_team.short_name.as_str());
    text.append("** (");
    text.append(kickoff);
    text.append(")");
    text
}

/// The kick-off time of `m` as it is shown, if `chrono` can print it.
pub open spec fn kickoff_of(m: Match) -> Option<Seq<char>> {
    instant_text(
        m.utc_date.seconds as int,
        m.utc_date.nanos as int,
        DISPLAY_OFFSET_SECS as int,
        DISPLAY_PATTERN@,
    )
}

/// Whether the kick-off time of every match can be printed.
pub open spec fn printable(records: Seq<Match>) -> bool {
    forall|i: int| 0 <= i < records.len() ==> kickoff_of(#[trigger] records[i]) is Some
}

/// The heading and the line of the match at `i`, counted from 0.
pub open spec fn field_of(records: Seq<Match>, i: int) -> (Seq<char>, Seq<char>) {
    (
        title_of((i + 1) as nat, records[i].matchday),
        line_of(records[i], kickoff_of(records[i])->Some_0),
    )
}

/// The heading and the line of every match, in the order of the list.
pub open spec fn fields_of(records: Seq<Match>) -> Seq<(Seq<char>, Seq<char>)> {
    Seq::new(records.len(), |i: int| field_of(records, i))
}

/// The heading and the line of every match, in the order of the list;
/// `None` where some kick-off time cannot be printed.
pub fn match_fields(records: &Vec<Match>) -> (r: Option<Vec<(String, String)>>)
    ensures
        r is Some <==> printable(records@),
        r matches Some(fields) ==> pairs_view(fields@) == fields_of(records@),
{
    let mut fields: Vec<(String, String)> = Vec::new();
    let mut i: usize = 0;
    while i < records.len()
        invariant
            i <= records.len(),
            fields@.len() == i,
            forall|j: int| 0 <= j < i ==> kickoff_of(#[trigger] records@[j]) is Some,
            forall|j: int|
                0 <= j < i ==> ((#[trigger] fields@[j]).0@, fields@[j].1@) == field_of(records@, j),
        decreases records.len() - i,
    {
        let m = &records[i];
        match kickoff_text(&m.utc_date) {
            Some(kickoff) => {
                fields.push((match_title(i + 1, m.matchday), match_line(m, kickoff.as_str())));
            },
            None => {
                assert(kickoff_of(records@[i as int]) is None);
                return None;
            },
        }
        i += 1;
    }
    assert(pairs_view(fields@) =~= fields_of(records@));
    Some(fields)
}

/// The emblem shown beside a list of matches: that of the competition of the
/// first match, or nothing.
pub open spec fn emblem_of(records: Seq<Match>) -> Seq<char> {
    if records.len() > 0 {
        match records[0].competition.emblem {
            Some(address) => address@,
            None => Seq::empty(),
        }
    } else {
        Seq::empty()
    }
}

/// The emblem shown beside a list of matches.
pub fn emblem(records: &Vec<Match>) -> (address: String)
    ensures
        address@ == emblem_of(records@),
{
    if records.len() > 0 {
        match &records[0].competition.emblem {
            Some(address) => String::from_str(address.as_str()),
            None => String::new(),
        }
    } else {
        String::new()
    }
}

/// The name of a league as a title.
pub open spec fn heading_of(name: Seq<char>) -> Seq<char> {
    "**"@ + name + "**"@
}

/// The name of a league as a title.
pub fn heading(name: &str) -> (text: String)
    ensures
        text@ == heading_of(name@),
{
    let mut text = String::from_str("**");
    text.append(name);
    text.append("**");
    text
}

/// What is shown to a reader who asked for the matches of a league.
#[derive(Clone, Debug, PartialEq, Eq)]
pub enum Answer {
    /// The key is no tracked league: [`INVALID_LEAGUE`] is shown.
    Invalid,
    /// The league has no matches: its title and [`NO_MATCHES`] are shown.
    Empty { title: String },
    /// The league's title, the emblem of its competition, and the heading and
    /// the line of each match.
    Listing { title: String, thumbnail: String, fields: Vec<(String, String)> },
}

/// An answer as characters.
pub enum AnswerView {
    Invalid,
    Empty { title: Seq<char> },
    Listing { title: Seq<char>, thumbnail: Seq<char>, fields: Seq<(Seq<char>, Seq<char>)> },
}

impl View for Answer {
    type V = AnswerView;

    open spec fn view(&self) -> AnswerView {
        match *self {
            Answer::Invalid => AnswerView::Invalid,
            Answer::Empty { title } => AnswerView::Empty { title: title@ },
            Answer::Listing { title, thumbnail, fields } => AnswerView::Listing {
                title: title@,
                thumbnail: thumbnail@,
                fields: pairs_view(fields@),
            },
        }
    }
}

/// An optional answer as characters.
pub open spec fn answer_view(answer: Option<Answer>) -> Option<AnswerView> {
    match answer {
        Some(a) => Some(a@),
        None => None,
    }
}

/// What is shown for `raw_key` when `keys` are tracked and the cache holds
/// `cache`; `None` where the league has matches and some kick-off time
/// cannot be printed.
pub open spec fn answer_for(keys: Entries, cache: Snapshot, raw_key: Seq<char>) -> Option<AnswerView> {
    let title = heading_of(name_of(keys, lowercase_of(raw_key)));
    match looked_up(keys, cache, raw_key) {
        Lookup::InvalidKey => Some(AnswerView::Invalid),
        Lookup::NoData => Some(AnswerView::Empty { title }),
        Lookup::Data(records) => if printable(records) {
            Some(AnswerView::Listing { title, thumbnail: emblem_of(records), fields: fields_of(records) })
        } else {
            None
        },
    }
}

/// What is shown to a reader who asked for the matches of `raw_key`.
pub fn answer(keys: &KeySet, cache: &Cache, raw_key: &str) -> (r: Option<Answer>)
    ensures
        answer_view(r) == answer_for(keys@, cache@, raw_key@),
{
    let folded = lowercase(raw_key);
    let title = match keys.name(folded.as_str()) {
        Some(name) => heading(name),
        None => {
            return Some(Answer::Invalid);
        },
    };
    match cache.get_folded(folded.as_str()) {
        None => Some(Answer::Empty { title }),
        Some(records) => match match_fields(records) {
            Some(fields) => Some(Answer::Listing { title, thumbnail: emblem(records), fields }),
            None => None,
        },
    }
}

/// Every league as a pair of key and name, in the order of the registry.
pub fn league_fields(keys: &KeySet) -> (fields: Vec<(String, String)>)
    ensures
        pairs_view(fields@) == keys@,
{
    let mut fields: Vec<(String, String)> = Vec::new();
    let count = keys.len();
    let mut i: usize = 0;
    while i < count
        invariant
            i <= count,
            count == keys@.len(),
            fields@.len() == i,
            forall|j: int| 0 <= j < i ==> ((#[trigger] fields@[j]).0@, fields@[j].1@) == keys@[j],
        decreases count - i,
    {
        match keys.get(i) {
            Some(league) => {
                fields.push((league.key.clone(), league.name.clone()));
            },
            None => {},
        }
        i += 1;
    }
    assert(pairs_view(fields@) =~= keys@);
    fields
}

/// The label under which a league is suggested: its key, a dash and its name.
pub open spec fn label_of(key: Seq<char>, name: Seq<char>) -> Seq<char> {
    key + " - "@ + name
}

/// The suggestions for the typed text `input`: a label and a key for every
/// league whose key holds `input`, in the order of the registry.
pub open spec fn suggestions_for(keys: Entries, input: Seq<char>) -> Seq<(Seq<char>, Seq<char>)>
    decreases keys.len(),
{
    if keys.len() == 0 {
        Seq::empty()
    } else {
        let earlier = suggestions_for(keys.drop_last(), input);
        let (key, name) = keys.last();
        if occurs_in(input, key) {
            earlier.push((label_of(key, name), key))
        } else {
            earlier
        }
    }
}

/// The suggestions for the typed text `input`, each a label and a key.
pub fn suggestions(keys: &KeySet, input: &str) -> (found: Vec<(String, String)>)
    ensures
        pairs_view(found@) == suggestions_for(keys@, input@),
{
    let mut found: Vec<(String, String)> = Vec::new();
    let count = keys.len();
    let mut i: usize = 0;
    assert(keys@.take(0) =~= Entries::empty());
    while i < count
        invariant
            i <= count,
            count == keys@.len(),
            pairs_view(found@) == suggestions_for(keys@.take(i as int), input@),
        decreases count - i,
    {
        assert(keys@.take(i + 1).drop_last() =~= keys@.take(i as int));
        assert(keys@.take(i + 1).last() == keys@[i as int]);
        match keys.get(i) {
            Some(league) => {
                if contains(league.key.as_str(), input) {
                    let mut label = league.key.clone();
                    label.append(" - ");
                    label.append(league.name.as_str());
                    let ghost before = found@;
                    found.push((label, league.key.clone()));
                    assert(pairs_view(found@) =~= pairs_view(before).push(
                        (label_of(league.key@, league.name@), league.key@),
                    ));
                }
            },
            None => {},
        }
        i += 1;
    }
    assert(keys@.take(count as int) =~= keys@);
    found
}

/// The answer to a ping that took `millis` milliseconds.
pub open spec fn pong_of(millis: nat) -> Seq<char> {
    "**Pong! "@ + decimal_text(millis) + " ms**"@
}

/// The answer to a ping that took `millis` milliseconds.
pub fn pong(millis: u128) -> (text: String)
    ensures
        text@ == pong_of(millis as nat),
{
    let mut text = String::from_str("**Pong! ");
    text.append(decimal(millis).as_str());
    text.append(" ms**");
    text
}

} // verus!

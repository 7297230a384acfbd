//! The leagues that are tracked: a fixed registry from short key to name.

use vstd::prelude::*;
use vstd::string::StringExecFns;

verus! {

/// A registry as the sequence of its entries, each a key and a name.
pub type Entries = Seq<(Seq<char>, Seq<char>)>;

/// Whether some entry has the key `key`.
pub open spec fn has_key(entries: Entries, key: Seq<char>) -> bool {
    exists|i: int| 0 <= i < entries.len() && (#[trigger] entries[i]).0 == key
}

/// Whether no two entries share a key.
pub open spec fn distinct_keys(entries: Entries) -> bool {
    forall|i: int, j: int|
        0 <= i < j < entries.len() ==> (#[trigger] entries[i]).0 != (#[trigger] entries[j]).0
}

/// The position of the entry with key `key`, where there is one.
pub open spec fn position_of(entries: Entries, key: Seq<char>) -> int {
    choose|i: int| 0 <= i < entries.len() && (#[trigger] entries[i]).0 == key
}

/// The name registered under `key`, where there is one.
pub open spec fn name_of(entries: Entries, key: Seq<char>) -> Seq<char> {
    entries[position_of(entries, key)].1
}

/// The leagues that are tracked from the start, in the order they are listed.
pub open spec fn standard_entries() -> Entries {
    seq![
        ("wc"@, "FIFA World Cup"@),
        ("cl"@, "UEFA Champions League"@),
        ("bl1"@, "Bundesliga"@),
        ("ded"@, "Eredivisie"@),
        ("bsa"@, "Campeonato Brasileiro Séria A"@),
        ("pd"@, "Primera Division (La Liga)"@),
        ("fl1"@, "Ligue 1"@),
        ("elc"@, "Championship"@),
        ("ppl"@, "Primeira Liga"@),
        ("ec"@, "European Championship"@),
        ("sa"@, "Serie A"@),
        ("pl"@, "Premier League"@),
        ("cli"@, "Copa Libertadores"@),
    ]
}

/// One tracked league.
#[derive(Clone, Debug, PartialEq, Eq)]
pub struct League {
    /// The short key that users type, in lower case.
    pub key: String,
    /// The name shown for the league.
    pub name: String,
}

impl League {
    /// The league as a pair of key and name.
    pub open spec fn entry(self) -> (Seq<char>, Seq<char>) {
        (self.key@, self.name@)
    }
}

/// The registry of tracked leagues. Keys are matched as they were registered;
/// no key is registered twice.
#[derive(Debug, PartialEq, Eq)]
pub struct KeySet {
    leagues: Vec<League>,
}

impl View for KeySet {
    type V = Entries;

    closed spec fn view(&self) -> Entries {
        self.leagues@.map_values(|l: League| l.entry())
    }
}

impl KeySet {
    #[verifier::type_invariant]
    pub closed spec fn well_formed(self) -> bool {
        distinct_keys(self@)
    }

    /// A registry without leagues.
    pub fn new() -> (keys: KeySet)
        ensures
            keys@ == Entries::empty(),
    {
        let keys = KeySet { leagues: Vec::new() };
        assert(keys@ =~= Entries::empty());
        keys
    }

    /// The number of leagues.
    pub fn len(&self) -> (n: usize)
        ensures
            n == self@.len(),
            distinct_keys(self@),
    {
        proof {
            use_type_invariant(self);
        }
        self.leagues.len()
    }

    /// The league at `index`, in the order of registration.
    pub fn get(&self, index: usize) -> (r: Option<&League>)
        ensures
            r is Some <==> index < self@.len(),
            r matches Some(l) ==> l.entry() == self@[index as int],
    {
        if index < self.leagues.len() {
            Some(&self.leagues[index])
        } else {
            None
        }
    }

    /// Where the league with key `key` stands, if it is registered.
    pub fn position(&self, key: &str) -> (r: Option<usize>)
        ensures
            r is Some <==> has_key(self@, key@),
            r matches Some(i) ==> i < self@.len() && self@[i as int].0 == key@ && i
                == position_of(self@, key@),
    {
        proof {
            use_type_invariant(self);
        }
        let mut i: usize = 0;
        while i < self.leagues.len()
            invariant
                i <= self.leagues.len(),
                self@.len() == self.leagues.len(),
                distinct_keys(self@),
                forall|j: int| 0 <= j < i ==> (#[trigger] self@[j]).0 != key@,
            decreases self.leagues.len() - i,
        {
            if self.leagues[i].key.as_str().eq(key) {
                assert(self@[i as int].0 == key@);
                return Some(i);
            }
            i += 1;
        }
        None
    }

    /// Whether a league with key `key` is registered.
    pub fn contains(&self, key: &str) -> (r: bool)
        ensures
            r == has_key(self@, key@),
    {
        self.position(key).is_some()
    }

    /// The name of the league with key `key`, if it is registered.
    pub fn name(&self, key: &str) -> (r: Option<&str>)
        ensures
            r is Some <==> has_key(self@, key@),
            r matches Some(n) ==> n@ == name_of(self@, key@),
    {
        match self.position(key) {
            Some(i) => Some(self.leagues[i].name.as_str()),
            None => None,
        }
    }

    /// Registers a league under `key`, unless the key is taken. Says whether
    /// the league was added.
    pub fn register(&mut self, key: &str, name: &str) -> (added: bool)
        ensures
            added == !has_key(old(self)@, key@),
            added ==> final(self)@ == old(self)@.push((key@, name@)),
            !added ==> final(self)@ == old(self)@,
    {
        proof {
            use_type_invariant(&*self);
        }
        if self.contains(key) {
            return false;
        }
        let mut leagues: Vec<League> = Vec::new();
        core::mem::swap(&mut self.leagues, &mut leagues);
        leagues.push(League { key: String::from_str(key), name: String::from_str(name) });
        proof {
            let entries = leagues@.map_values(|l: League| l.entry());
            assert(entries =~= old(self)@.push((key@, name@)));
            assert forall|i: int, j: int| 0 <= i < j < entries.len() implies (#[trigger] entries[i]).0
                != (#[trigger] entries[j]).0 by {
                if j < old(self)@.len() {
                    assert(old(self)@[i].0 != old(self)@[j].0);
                } else {
                    assert(old(self)@[i].0 != key@);
                }
            }
        }
        self.leagues = leagues;
        true
    }

    /// The registry of the leagues that are tracked from the start.
    pub fn standard() -> (keys: KeySet)
        ensures
            keys@ == standard_entries(),
    {
        let mut keys = KeySet::new();
        proof {
            reveal_strlit("wc");
            reveal_strlit("cl");
            reveal_strlit("bl1");
            reveal_strlit("ded");
            reveal_strlit("bsa");
            reveal_strlit("pd");
            reveal_strlit("fl1");
            reveal_strlit("elc");
            reveal_strlit("ppl");
            reveal_strlit("ec");
            reveal_strlit("sa");
            reveal_strlit("pl");
            reveal_strlit("cli");
            assert("wc"@ =~= seq!['w', 'c']);
            assert("cl"@ =~= seq!['c', 'l']);
            assert("bl1"@ =~= seq!['b', 'l', '1']);
            assert("ded"@ =~= seq!['d', 'e', 'd']);
            assert("bsa"@ =~= seq!['b', 's', 'a']);
            assert("pd"@ =~= seq!['p', 'd']);
            assert("fl1"@ =~= seq!['f', 'l', '1']);
            assert("elc"@ =~= seq!['e', 'l', 'c']);
            assert("ppl"@ =~= seq!['p', 'p', 'l']);
            assert("ec"@ =~= seq!['e', 'c']);
            assert("sa"@ =~= seq!['s', 'a']);
            assert("pl"@ =~= seq!['p', 'l']);
            assert("cli"@ =~= seq!['c', 'l', 'i']);
        }
        let added = keys.register("wc", "FIFA World Cup");
        assert(added);
        let added = keys.register("cl", "UEFA Champions League");
        assert(added);
        let added = keys.register("bl1", "Bundesliga");
        assert(added);
        let added = keys.register("ded", "Eredivisie");
        assert(added);
        let added = keys.register("bsa", "Campeonato Brasileiro Séria A");
        assert(added);
        let added = keys.register("pd", "Primera Division (La Liga)");
        assert(added);
        let added = keys.register("fl1", "Ligue 1");
        assert(added);
        let added = keys.register("elc", "Championship");
        assert(added);
        let added = keys.register("ppl", "Primeira Liga");
        assert(added);
        let added = keys.register("ec", "European Championship");
        assert(added);
        let added = keys.register("sa", "Serie A");
        assert(added);
        let added = keys.register("pl", "Premier League");
        assert(added);
        let added = keys.register("cli", "Copa Libertadores");
        assert(added);
        assert(keys@ =~= standard_entries());
        keys
    }
}

} // verus!

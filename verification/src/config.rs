//! The configuration: a mapping from setting names to values.
//!
//! Names that this version of the application does not know are kept as they
//! are, so that a file written by a newer version survives a round trip.
use crate::error::GuideError;
use vstd::prelude::*;

verus! {

/// One named setting.
#[derive(Debug, PartialEq, Eq)]
pub struct Setting {
    pub key: String,
    pub value: String,
}

impl View for Setting {
    type V = (Seq<char>, Seq<char>);

    open spec fn view(&self) -> (Seq<char>, Seq<char>) {
        (self.key@, self.value@)
    }
}

impl Clone for Setting {
    fn clone(&self) -> (r: Setting)
        ensures
            r == *self,
    {
        Setting { key: self.key.clone(), value: self.value.clone() }
    }
}

/// The views of a run of settings, in order.
pub open spec fn setting_views(settings: Seq<Setting>) -> Seq<(Seq<char>, Seq<char>)> {
    Seq::new(settings.len(), |i: int| settings[i]@)
}

/// The mapping that a run of settings stands for: where a name occurs more
/// than once, the last occurrence counts.
pub open spec fn settings_map(s: Seq<(Seq<char>, Seq<char>)>) -> Map<Seq<char>, Seq<char>>
    decreases s.len(),
{
    if s.len() == 0 {
        Map::empty()
    } else {
        settings_map(s.drop_last()).insert(s.last().0, s.last().1)
    }
}

/// No two settings share a name.
pub open spec fn distinct_keys(s: Seq<(Seq<char>, Seq<char>)>) -> bool {
    forall|i: int, j: int| 0 <= i < j < s.len() ==> s[i].0 != s[j].0
}

/// Some setting of `s` has the name `key`.
pub open spec fn has_key(s: Seq<(Seq<char>, Seq<char>)>, key: Seq<char>) -> bool {
    exists|i: int| 0 <= i < s.len() && s[i].0 == key
}

/// A mapping holds exactly the names of the run it stands for.
pub proof fn lemma_settings_map_dom(s: Seq<(Seq<char>, Seq<char>)>, key: Seq<char>)
    ensures
        settings_map(s).contains_key(key) <==> has_key(s, key),
    decreases s.len(),
{
    if s.len() > 0 {
        let front = s.drop_last();
        lemma_settings_map_dom(front, key);
        if has_key(s, key) && s.last().0 != key {
            let i = choose|i: int| 0 <= i < s.len() && s[i].0 == key;
            assert(front[i].0 == key);
        }
    }
}

/// Among distinct names, each setting's value is the one that the mapping
/// gives for its name.
pub proof fn lemma_settings_map_value(s: Seq<(Seq<char>, Seq<char>)>, i: int)
    requires
        distinct_keys(s),
        0 <= i < s.len(),
    ensures
        settings_map(s).contains_key(s[i].0),
        settings_map(s)[s[i].0] == s[i].1,
    decreases s.len(),
{
    if i < s.len() - 1 {
        lemma_settings_map_value(s.drop_last(), i);
    }
}

/// The configuration. Its view is the mapping from names to values.
#[derive(Debug)]
pub struct Config {
    entries: Vec<Setting>,
}

impl View for Config {
    type V = Map<Seq<char>, Seq<char>>;

    closed spec fn view(&self) -> Map<Seq<char>, Seq<char>> {
        settings_map(setting_views(self.entries@))
    }
}

/// The place of the setting named `key` among `entries`, if there is one.
fn key_position(entries: &Vec<Setting>, key: &String) -> (r: Option<usize>)
    ensures
        r is Some <==> has_key(setting_views(entries@), key@),
        r matches Some(k) ==> k < entries.len() && entries[k as int].key@ == key@,
{
    let ghost views = setting_views(entries@);
    let mut i: usize = 0;
    while i < entries.len()
        invariant
            i <= entries.len(),
            views == setting_views(entries@),
            forall|a: int| 0 <= a < i ==> views[a].0 != key@,
        decreases entries.len() - i,
    {
        if entries[i].key == *key {
            assert(views[i as int].0 == key@);
            return Some(i);
        }
        i += 1;
    }
    None
}

/// Replacing the value of a name that is there, or adding a name that is not,
/// is an insertion into the mapping.
proof fn lemma_update_is_insert(
    s: Seq<(Seq<char>, Seq<char>)>,
    t: Seq<(Seq<char>, Seq<char>)>,
    key: Seq<char>,
    value: Seq<char>,
)
    requires
        distinct_keys(s),
        (exists|k: int| 0 <= k < s.len() && s[k].0 == key && t == s.update(k, (key, value))) || (
        !has_key(s, key) && t == s.push((key, value))),
    ensures
        distinct_keys(t),
        settings_map(t) == settings_map(s).insert(key, value),
{
    if has_key(s, key) {
        let k = choose|k: int| 0 <= k < s.len() && s[k].0 == key && t == s.update(k, (key, value));
        let want = settings_map(s).insert(key, value);
        assert forall|q: Seq<char>| settings_map(t).contains_key(q) == want.contains_key(q) by {
            lemma_settings_map_dom(t, q);
            lemma_settings_map_dom(s, q);
            if has_key(t, q) {
                let i = choose|i: int| 0 <= i < t.len() && t[i].0 == q;
                assert(s[i].0 == q);
            }
            if has_key(s, q) {
                let i = choose|i: int| 0 <= i < s.len() && s[i].0 == q;
                assert(t[i].0 == q);
            }
        }
        assert forall|q: Seq<char>| settings_map(t).contains_key(q) implies settings_map(t)[q]
            == want[q] by {
            lemma_settings_map_dom(t, q);
            let i = choose|i: int| 0 <= i < t.len() && t[i].0 == q;
            lemma_settings_map_value(t, i);
            if i != k {
                assert(s[i] == t[i]);
                lemma_settings_map_value(s, i);
            }
        }
    } else {
        assert(t.drop_last() =~= s);
    }
}

impl Config {
    #[verifier::type_invariant]
    spec fn inv(self) -> bool {
        distinct_keys(setting_views(self.entries@))
    }

    /// A configuration without settings.
    pub fn new() -> (r: Config)
        ensures
            r@ == Map::<Seq<char>, Seq<char>>::empty(),
    {
        Config { entries: Vec::new() }
    }

    /// The number of settings.
    pub fn len(&self) -> (n: usize)
        ensures
            n == self@.len(),
            self@.dom().finite(),
    {
        proof {
            use_type_invariant(self);
            lemma_len(setting_views(self.entries@));
        }
        self.entries.len()
    }

    /// The value of the setting named `key`, if it is set.
    pub fn get(&self, key: &str) -> (r: Option<&String>)
        ensures
            match r {
                Some(v) => self@.contains_key(key@) && self@[key@] == v@,
                None => !self@.contains_key(key@),
            },
    {
        proof {
            use_type_invariant(self);
            lemma_settings_map_dom(setting_views(self.entries@), key@);
        }
        let name = key.to_owned();
        match key_position(&self.entries, &name) {
            Some(k) => {
                proof {
                    lemma_settings_map_value(setting_views(self.entries@), k as int);
                }
                Some(&self.entries[k].value)
            },
            None => None,
        }
    }

    /// Sets the setting named `key` to `value`, whether or not it was set.
    pub fn set(&mut self, key: String, value: String)
        ensures
            final(self)@ == old(self)@.insert(key@, value@),
    {
        proof {
            use_type_invariant(&*self);
        }
        let ghost before = setting_views(self.entries@);
        let mut entries: Vec<Setting> = Vec::new();
        core::mem::swap(&mut self.entries, &mut entries);
        let ghost k = key@;
        let ghost v = value@;
        match key_position(&entries, &key) {
            Some(i) => {
                entries.set(i, Setting { key, value });
                assert(setting_views(entries@) =~= before.update(i as int, (k, v)));
            },
            None => {
                entries.push(Setting { key, value });
                assert(setting_views(entries@) =~= before.push((k, v)));
            },
        }
        proof {
            lemma_update_is_insert(before, setting_views(entries@), k, v);
        }
        self.entries = entries;
    }

    /// The configuration that a run of settings stands for. Where a name
    /// occurs more than once, the last occurrence counts.
    pub fn from_settings(settings: Vec<Setting>) -> (r: Config)
        ensures
            r@ == settings_map(setting_views(settings@)),
    {
        let ghost all = setting_views(settings@);
        let mut out = Config::new();
        let mut i: usize = 0;
        while i < settings.len()
            invariant
                i <= settings.len(),
                all == setting_views(settings@),
                out@ == settings_map(all.take(i as int)),
            decreases settings.len() - i,
        {
            let s = settings[i].clone();
            assert(all.take(i + 1).drop_last() =~= all.take(i as int));
            out.set(s.key, s.value);
            i += 1;
        }
        assert(all.take(settings.len() as int) =~= all);
        out
    }

    /// Ends a change that was prepared on a copy: where saving the copy
    /// went well, the copy takes this configuration's place; where it failed,
    /// this configuration stays as it was and the failure is handed on.
    pub fn adopt(&mut self, next: Config, saved: Result<(), GuideError>) -> (r: Result<
        (),
        GuideError,
    >)
        ensures
            r == saved,
            final(self)@ == if saved is Ok {
                next@
            } else {
                old(self)@
            },
    {
        if saved.is_ok() {
            proof {
                use_type_invariant(&next);
            }
            *self = next;
        }
        saved
    }

    /// The settings, one for each name.
    pub fn settings(&self) -> (r: Vec<Setting>)
        ensures
            distinct_keys(setting_views(r@)),
            settings_map(setting_views(r@)) == self@,
    {
        proof {
            use_type_invariant(self);
        }
        let mut out: Vec<Setting> = Vec::new();
        let mut i: usize = 0;
        while i < self.entries.len()
            invariant
                i <= self.entries.len(),
                out.len() == i,
                forall|a: int| 0 <= a < i ==> (#[trigger] out[a])@ == self.entries[a]@,
            decreases self.entries.len() - i,
        {
            out.push(self.entries[i].clone());
            i += 1;
        }
        assert(setting_views(out@) =~= setting_views(self.entries@));
        out
    }

    /// The stored configuration over the defaults: every stored setting as it
    /// is, known to this version or not, and the default for each name that
    /// storage lacks.
    pub fn load(stored: &Config, defaults: &Config) -> (r: Config)
        ensures
            r@ == defaults@.union_prefer_right(stored@),
    {
        proof {
            use_type_invariant(stored);
        }
        let ghost all = setting_views(stored.entries@);
        let mut out = defaults.clone();
        let mut i: usize = 0;
        while i < stored.entries.len()
            invariant
                i <= stored.entries.len(),
                all == setting_views(stored.entries@),
                out@ == defaults@.union_prefer_right(settings_map(all.take(i as int))),
            decreases stored.entries.len() - i,
        {
            let s = stored.entries[i].clone();
            assert(all.take(i + 1).drop_last() =~= all.take(i as int));
            out.set(s.key, s.value);
            i += 1;
        }
        assert(all.take(stored.entries.len() as int) =~= all);
        out
    }
}

impl Clone for Config {
    fn clone(&self) -> (r: Config)
        ensures
            r@ == self@,
    {
        Config::from_settings(self.settings())
    }
}

/// Among distinct names the mapping has as many names as the run has settings.
proof fn lemma_len(s: Seq<(Seq<char>, Seq<char>)>)
    requires
        distinct_keys(s),
    ensures
        settings_map(s).dom().finite(),
        settings_map(s).len() == s.len(),
    decreases s.len(),
{
    if s.len() > 0 {
        let front = s.drop_last();
        lemma_len(front);
        lemma_settings_map_dom(front, s.last().0);
    }
}

/// Loading keeps what storage holds and fills in what it lacks: a stored
/// name keeps its stored value, known or not; a name that only the defaults
/// have gets the default; no other name appears.
pub proof fn load_keeps_stored_settings(
    defaults: Map<Seq<char>, Seq<char>>,
    stored: Map<Seq<char>, Seq<char>>,
    key: Seq<char>,
)
    ensures
        stored.contains_key(key) ==> defaults.union_prefer_right(stored).contains_key(key)
            && defaults.union_prefer_right(stored)[key] == stored[key],
        !stored.contains_key(key) && defaults.contains_key(key) ==> defaults.union_prefer_right(
            stored,
        ).contains_key(key) && defaults.union_prefer_right(stored)[key] == defaults[key],
        !stored.contains_key(key) && !defaults.contains_key(key) ==> !defaults.union_prefer_right(
            stored,
        ).contains_key(key),
{
}

/// Loading what was loaded changes nothing.
pub proof fn load_twice_is_load_once(
    defaults: Map<Seq<char>, Seq<char>>,
    stored: Map<Seq<char>, Seq<char>>,
)
    ensures
        defaults.union_prefer_right(defaults.union_prefer_right(stored))
            == defaults.union_prefer_right(stored),
{
}

} // verus!

//! The catalog as the remote service describes it: namespaces of routes,
//! discovery rules per domain, and topical categories.
//!
//! Where the wire format is a JSON object with free keys, the type here is
//! a keyed list: the entries in the order in which they were received,
//! with no key occurring twice. That order is the catalog order of every
//! search.

use vstd::prelude::*;
use crate::text::str_eq;

verus! {

/// A value that arrives either as one string or as a list of strings.
#[derive(Debug, Clone, PartialEq)]
pub enum MultiType {
    Single(String),
    Multiple(Vec<String>),
}

/// A discovery configuration that arrives either alone or as a list.
#[derive(Debug, Clone, PartialEq)]
pub enum RadarType {
    Single(RadarItem),
    Multiple(Vec<RadarItem>),
}

/// One discovery configuration of a route.
#[derive(Debug, Clone, PartialEq)]
pub struct RadarItem {
    pub source: MultiType,
    pub target: Option<String>,
    pub title: Option<String>,
}

/// What a route needs or supports.
#[derive(Debug, Clone)]
pub struct Features {
    pub require_config: Option<RequireConfig>,
    pub require_puppeteer: Option<bool>,
    pub anti_crawler: Option<bool>,
    pub support_radar: Option<bool>,
    pub support_bt: Option<bool>,
    pub support_podcast: Option<bool>,
    pub support_scihub: Option<bool>,
}

/// The configuration a route requires: a plain flag, or the settings by name.
#[derive(Debug, Clone)]
pub enum RequireConfig {
    Bool(bool),
    List(Vec<ConfigDetail>),
}

/// One required setting.
#[derive(Debug, Clone)]
pub struct ConfigDetail {
    pub name: String,
    pub optional: Option<bool>,
    pub description: Option<String>,
}

/// The description of one route.
#[derive(Debug, Clone)]
pub struct RouteDetails {
    pub path: MultiType,
    pub name: String,
    pub url: Option<String>,
    pub maintainers: Vec<String>,
    pub example: Option<String>,
    pub parameters: Option<Keyed<serde_json::Value>>,
    pub description: Option<String>,
    pub categories: Option<Vec<String>>,
    pub features: Option<Features>,
    pub radar: Option<RadarType>,
    pub location: Option<String>,
    pub view: Option<u64>,
}

/// The routes of one namespace, each under its route key; a namespace may
/// come without any.
#[derive(Debug, Clone)]
pub struct RoutesMap {
    pub routes: Option<Keyed<RouteDetails>>,
}

/// All namespaces, each under its name.
pub type NamespaceResp = Keyed<RoutesMap>;

/// The discovery rules of all domains, each under its domain.
pub type RulesResp = Keyed<RulesInfo>;

/// The discovery rules of one domain: its name, and the rules of each
/// section (a sub-domain, or "." for the domain itself).
#[derive(Debug, Clone)]
pub struct RulesInfo {
    pub name: String,
    pub sections: Keyed<Vec<RouteInfo>>,
}

/// One discovery rule.
#[derive(Debug, Clone)]
pub struct RouteInfo {
    pub title: String,
    pub docs: String,
    pub source: Vec<String>,
    pub target: String,
}

/// The services of one category, each under its key.
#[derive(Debug)]
pub struct CategoryItems(pub Keyed<CategoryInfo>);

/// One service of a category.
#[derive(Debug)]
pub struct CategoryInfo {
    pub name: String,
    pub url: Option<String>,
    pub categories: Vec<String>,
    pub description: Option<String>,
    pub lang: Option<String>,
    pub routes: Keyed<RouteDetails>,
    pub zh: Option<ZhTranslation>,
}

/// The translated fields of a service.
#[derive(Debug)]
pub struct ZhTranslation {
    pub name: Option<String>,
    pub description: Option<String>,
    pub path: Option<String>,
    pub maintainers: Option<Vec<String>>,
    pub example: Option<String>,
    pub parameters: Option<Keyed<serde_json::Value>>,
}

/// The keys of a list of entries, in order.
pub open spec fn keys_of<T>(entries: Seq<(String, T)>) -> Seq<Seq<char>> {
    Seq::new(entries.len(), |i: int| entries[i].0@)
}

/// No key occurs twice in a list of entries.
pub open spec fn distinct_keys<T>(entries: Seq<(String, T)>) -> bool {
    forall|i: int, j: int|
        0 <= i < j < entries.len() ==> (#[trigger] entries[i]).0@ != (#[trigger] entries[j]).0@
}

/// Whether no key occurs twice in a list of entries.
pub fn has_distinct_keys<T>(entries: &Vec<(String, T)>) -> (r: bool)
    ensures
        r == distinct_keys(entries@),
{
    let mut j: usize = 0;
    while j < entries.len()
        invariant
            j <= entries.len(),
            forall|a: int, b: int|
                0 <= a < b < j ==> (#[trigger] entries@[a]).0@ != (#[trigger] entries@[b]).0@,
        decreases entries.len() - j,
    {
        let mut i: usize = 0;
        while i < j
            invariant
                i <= j < entries.len(),
                forall|a: int| 0 <= a < i ==> (#[trigger] entries@[a]).0@ != entries@[j as int].0@,
            decreases j - i,
        {
            if str_eq(entries[i].0.as_str(), entries[j].0.as_str()) {
                return false;
            }
            i += 1;
        }
        j += 1;
    }
    true
}

/// A list of entries under keys, in which no key occurs twice: a mapping
/// that keeps the order of its entries.
#[derive(Debug)]
pub struct Keyed<T> {
    entries: Vec<(String, T)>,
}

impl<T> View for Keyed<T> {
    type V = Seq<(String, T)>;

    closed spec fn view(&self) -> Seq<(String, T)> {
        self.entries@
    }
}

impl<T: Clone> Clone for Keyed<T> {
    /// A list with the same keys in the same order, each over a clone of
    /// its value.
    fn clone(&self) -> (r: Keyed<T>)
        ensures
            keys_of(r@) == keys_of(self@),
    {
        let entries = self.entries();
        let mut out: Vec<(String, T)> = Vec::new();
        let mut i: usize = 0;
        while i < entries.len()
            invariant
                i <= entries.len(),
                out.len() == i,
                forall|j: int| 0 <= j < i ==> (#[trigger] out@[j]).0@ == entries@[j].0@,
            decreases entries.len() - i,
        {
            out.push((entries[i].0.clone(), entries[i].1.clone()));
            i += 1;
        }
        assert(distinct_keys(out@)) by {
            assert forall|a: int, b: int| 0 <= a < b < out@.len() implies (#[trigger] out@[a]).0@ != (
            #[trigger] out@[b]).0@ by {
                assert(entries@[a].0@ != entries@[b].0@);
            }
        }
        assert(keys_of(out@) =~= keys_of(entries@));
        Keyed { entries: out }
    }
}

impl<T> Keyed<T> {
    #[verifier::type_invariant]
    spec fn well_formed(self) -> bool {
        distinct_keys(self.entries@)
    }

    /// The empty list.
    pub fn new() -> (r: Keyed<T>)
        ensures
            r@.len() == 0,
    {
        Keyed { entries: Vec::new() }
    }

    /// The keyed list of the given entries, in their order; nothing where
    /// a key occurs twice among them.
    pub fn from_entries(entries: Vec<(String, T)>) -> (r: Option<Keyed<T>>)
        ensures
            match r {
                Some(list) => list@ == entries@ && distinct_keys(entries@),
                None => !distinct_keys(entries@),
            },
    {
        if has_distinct_keys(&entries) {
            Some(Keyed { entries })
        } else {
            None
        }
    }

    /// The entries of the list, in order.
    pub fn entries(&self) -> (r: &Vec<(String, T)>)
        ensures
            r@ == self@,
            distinct_keys(self@),
    {
        proof {
            use_type_invariant(self);
        }
        &self.entries
    }

    /// The entries of the list, handed out.
    pub fn into_entries(self) -> (r: Vec<(String, T)>)
        ensures
            r@ == self@,
            distinct_keys(self@),
    {
        proof {
            use_type_invariant(&self);
        }
        self.entries
    }

    /// The number of entries.
    pub fn len(&self) -> (r: usize)
        ensures
            r == self@.len(),
    {
        self.entries.len()
    }

    /// The entry under `key`, which is the only one there.
    pub fn get(&self, key: &str) -> (r: Option<&T>)
        ensures
            match r {
                Some(found) => exists|i: int|
                    0 <= i < self@.len() && (#[trigger] self@[i]).0@ == key@ && *found == self@[i].1
                        && position_of(self@, key@) == Some(i),
                None => forall|i: int| 0 <= i < self@.len() ==> (#[trigger] self@[i]).0@ != key@,
            },
            r.is_some() == position_of(self@, key@).is_some(),
    {
        let r = find(self.entries(), key);
        proof {
            lemma_position_is_first(self@, key@);
        }
        r
    }
}

/// The position of the first entry under `key`, if there is one.
pub open spec fn position_of<T>(entries: Seq<(String, T)>, key: Seq<char>) -> Option<int>
    decreases entries.len(),
{
    if entries.len() == 0 {
        None
    } else {
        match position_of(entries.drop_last(), key) {
            Some(i) => Some(i),
            None => if entries.last().0@ == key {
                Some(entries.len() - 1)
            } else {
                None
            },
        }
    }
}

/// Looks up the first entry under `key` in a list of entries.
pub fn find<'a, T>(entries: &'a Vec<(String, T)>, key: &str) -> (r: Option<&'a T>)
    ensures
        match r {
            Some(found) => position_of(entries@, key@) matches Some(i) && 0 <= i < entries.len()
                && *found == entries@[i].1,
            None => position_of(entries@, key@).is_none(),
        },
{
    let mut i: usize = 0;
    while i < entries.len()
        invariant
            i <= entries.len(),
            position_of(entries@.take(i as int), key@).is_none(),
        decreases entries.len() - i,
    {
        proof {
            assert(entries@.take(i + 1).drop_last() =~= entries@.take(i as int));
        }
        if str_eq(entries[i].0.as_str(), key) {
            proof {
                lemma_position_stays(entries@, key@, i + 1);
            }
            return Some(&entries[i].1);
        }
        i += 1;
    }
    assert(entries@.take(entries.len() as int) =~= entries@);
    None
}

/// A position found in a prefix is the position found in the whole list.
proof fn lemma_position_stays<T>(entries: Seq<(String, T)>, key: Seq<char>, n: int)
    requires
        0 <= n <= entries.len(),
        position_of(entries.take(n), key).is_some(),
    ensures
        position_of(entries, key) == position_of(entries.take(n), key),
    decreases entries.len() - n,
{
    if n < entries.len() {
        assert(entries.take(n + 1).drop_last() =~= entries.take(n));
        lemma_position_stays(entries, key, n + 1);
    } else {
        assert(entries.take(n) =~= entries);
    }
}

/// What `position_of` finds is the first entry under the key.
pub proof fn lemma_position_is_first<T>(entries: Seq<(String, T)>, key: Seq<char>)
    ensures
        match position_of(entries, key) {
            Some(i) => 0 <= i < entries.len() && entries[i].0@ == key && forall|j: int|
                0 <= j < i ==> (#[trigger] entries[j]).0@ != key,
            None => forall|j: int| 0 <= j < entries.len() ==> (#[trigger] entries[j]).0@ != key,
        },
    decreases entries.len(),
{
    if entries.len() > 0 {
        lemma_position_is_first(entries.drop_last(), key);
        assert(forall|j: int|
            0 <= j < entries.len() - 1 ==> entries.drop_last()[j] == #[trigger] entries[j]);
    }
}

/// Where no key occurs twice, the entry under a key is the one that a
/// lookup finds.
pub proof fn lemma_distinct_keys_lookup<T>(entries: Seq<(String, T)>, i: int)
    requires
        distinct_keys(entries),
        0 <= i < entries.len(),
    ensures
        position_of(entries, entries[i].0@) == Some(i),
{
    lemma_position_is_first(entries, entries[i].0@);
}

/// Where no key occurs twice, the keys of a list differ from each other.
pub proof fn lemma_keys_differ<T>(entries: Seq<(String, T)>)
    requires
        distinct_keys(entries),
    ensures
        keys_of(entries).no_duplicates(),
{
    assert forall|i: int, j: int|
        0 <= i < keys_of(entries).len() && 0 <= j < keys_of(entries).len() && i != j implies keys_of(
        entries,
    )[i] != keys_of(entries)[j] by {
        if i < j {
            assert(entries[i].0@ != entries[j].0@);
        } else {
            assert(entries[j].0@ != entries[i].0@);
        }
    }
}

} // verus!

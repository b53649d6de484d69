//! The property mirror cache: the last value that the tracked object reported
//! for each key of its default subject.

use vstd::hash_map::StringHashMap;
use vstd::prelude::*;

verus! {

/// The subject whose properties are mirrored: the object's global scope.
pub const DEFAULT_SUBJECT: u32 = 0;

/// What one property-changed notification does to the mirrored properties.
///
/// Only the default subject counts. A notification without a key changes
/// nothing; one with a key and a value sets the key; one with a key and no
/// value removes it.
pub open spec fn apply_change(
    entries: Map<Seq<char>, Seq<char>>,
    subject: u32,
    key: Option<Seq<char>>,
    value: Option<Seq<char>>,
) -> Map<Seq<char>, Seq<char>> {
    if subject != DEFAULT_SUBJECT {
        entries
    } else {
        match (key, value) {
            (Some(k), Some(v)) => entries.insert(k, v),
            (Some(k), None) => entries.remove(k),
            (None, _) => entries,
        }
    }
}

/// The view of an optional string slice.
pub open spec fn text(s: Option<&str>) -> Option<Seq<char>> {
    match s {
        Some(s) => Some(s@),
        None => None,
    }
}

/// Last known state of the tracked object's properties. Entries outlive the
/// object that reported them: nothing but a notification changes the cache.
pub struct MirrorCache {
    entries: StringHashMap<String>,
}

impl View for MirrorCache {
    type V = Map<Seq<char>, Seq<char>>;

    closed spec fn view(&self) -> Map<Seq<char>, Seq<char>> {
        self.entries@.map_values(|v: String| v@)
    }
}

impl MirrorCache {
    /// An empty cache.
    pub fn new() -> (cache: Self)
        ensures
            cache@ == Map::<Seq<char>, Seq<char>>::empty(),
    {
        let cache = Self { entries: StringHashMap::new() };
        assert(cache@ =~= Map::<Seq<char>, Seq<char>>::empty());
        cache
    }

    /// Mirrors one property-changed notification into the cache.
    pub fn apply(&mut self, subject: u32, key: Option<&str>, value: Option<&str>)
        ensures
            final(self)@ == apply_change(old(self)@, subject, text(key), text(value)),
    {
        if subject != DEFAULT_SUBJECT {
            return ;
        }
        if let Some(k) = key {
            match value {
                Some(v) => {
                    self.entries.insert(k.to_owned(), v.to_owned());
                    assert(self@ =~= old(self)@.insert(k@, v@));
                },
                None => {
                    self.entries.remove(k);
                    assert(self@ =~= old(self)@.remove(k@));
                },
            }
        }
    }

    /// The value mirrored for `key`, if the cache holds one.
    pub fn get(&self, key: &str) -> (value: Option<String>)
        ensures
            match value {
                Some(v) => self@.contains_key(key@) && self@[key@] == v@,
                None => !self@.contains_key(key@),
            },
    {
        match self.entries.get(key) {
            Some(v) => Some(v.clone()),
            None => None,
        }
    }

    /// Whether the cache holds a value for `key`.
    pub fn contains_key(&self, key: &str) -> (found: bool)
        ensures
            found == self@.contains_key(key@),
    {
        self.entries.contains_key(key)
    }

    /// The number of mirrored keys.
    pub fn len(&self) -> (count: usize)
        ensures
            count == self@.len(),
    {
        proof {
            lemma_map_values_len(self.entries@);
        }
        self.entries.len()
    }

    /// Whether nothing is mirrored.
    pub fn is_empty(&self) -> (empty: bool)
        ensures
            empty == (self@.len() == 0),
    {
        self.len() == 0
    }
}

/// Mapping the values of a map leaves its keys, and so its size, as they were.
proof fn lemma_map_values_len(m: Map<Seq<char>, String>)
    ensures
        m.map_values(|v: String| v@).dom() == m.dom(),
        m.map_values(|v: String| v@).len() == m.len(),
{
    assert(m.map_values(|v: String| v@).dom() =~= m.dom());
}

/// Mirroring the same notification a second time changes nothing.
pub proof fn lemma_apply_change_idempotent(
    entries: Map<Seq<char>, Seq<char>>,
    subject: u32,
    key: Option<Seq<char>>,
    value: Option<Seq<char>>,
)
    ensures
        apply_change(apply_change(entries, subject, key, value), subject, key, value)
            == apply_change(entries, subject, key, value),
{
    let once = apply_change(entries, subject, key, value);
    assert(apply_change(once, subject, key, value) =~= once);
}

} // verus!

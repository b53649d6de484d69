//! What the broker says of an object when it announces it, and the rule that
//! picks the one object whose properties are mirrored.

use vstd::prelude::*;

verus! {

/// The kinds of broker object that are told apart.
#[derive(Clone, Copy, Debug, PartialEq, Eq, Structural)]
pub enum ObjectKind {
    /// A key/value store shared between the broker's clients.
    Metadata,
    /// Anything else.
    Other,
}

/// What the broker tells of an object when it announces it.
#[derive(Debug)]
pub struct ObjectDescriptor {
    /// The broker's id of the object: unique while the object lives.
    pub id: u32,
    /// What kind of object it is.
    pub kind: ObjectKind,
    /// The properties given with the announcement, as key and value pairs;
    /// `None` where the broker gave no property bag at all.
    pub props: Option<Vec<(String, String)>>,
}

/// The property by which the broker names a metadata object.
pub const SELECTOR_KEY: &'static str = "metadata.name";

/// The broker's name for its settings store.
pub const SELECTOR_VALUE: &'static str = "settings";

/// Picks the one metadata object to mirror: the one whose property `key`
/// has the value `value`.
#[derive(Debug)]
pub struct Selector {
    /// The property that is looked at.
    pub key: String,
    /// The value that it must have.
    pub value: String,
}

/// The value of the first pair in `props`, at or after `start`, whose key is `key`.
pub open spec fn lookup_from(props: Seq<(String, String)>, key: Seq<char>, start: int) -> Option<
    Seq<char>,
>
    decreases props.len() - start,
{
    if start < 0 || start >= props.len() {
        None
    } else if props[start].0@ == key {
        Some(props[start].1@)
    } else {
        lookup_from(props, key, start + 1)
    }
}

/// The value that a property bag gives for `key`: that of the first pair with this key.
pub open spec fn lookup(props: Seq<(String, String)>, key: Seq<char>) -> Option<Seq<char>> {
    lookup_from(props, key, 0)
}

/// Whether the pair at `i` is the first in `props` whose key is `key`.
pub open spec fn is_first_match(props: Seq<(String, String)>, key: Seq<char>, i: int) -> bool {
    &&& 0 <= i < props.len()
    &&& props[i].0@ == key
    &&& forall|j: int| 0 <= j < i ==> (#[trigger] props[j]).0@ != key
}

/// A lookup gives the value of the first pair with the key, and nothing
/// exactly where no pair has the key.
pub proof fn lemma_lookup_is_first_match(props: Seq<(String, String)>, key: Seq<char>)
    ensures
        match lookup(props, key) {
            Some(v) => exists|i: int| #[trigger] is_first_match(props, key, i) && props[i].1@ == v,
            None => forall|i: int| 0 <= i < props.len() ==> (#[trigger] props[i]).0@ != key,
        },
{
    lemma_lookup_from(props, key, 0);
}

/// The same of a lookup that starts at `start`, where no pair before `start`
/// has the key.
proof fn lemma_lookup_from(props: Seq<(String, String)>, key: Seq<char>, start: int)
    requires
        0 <= start <= props.len(),
        forall|j: int| 0 <= j < start ==> (#[trigger] props[j]).0@ != key,
    ensures
        match lookup_from(props, key, start) {
            Some(v) => exists|i: int| #[trigger] is_first_match(props, key, i) && props[i].1@ == v,
            None => forall|i: int| 0 <= i < props.len() ==> (#[trigger] props[i]).0@ != key,
        },
    decreases props.len() - start,
{
    if start < props.len() {
        if props[start].0@ == key {
            assert(is_first_match(props, key, start));
        } else {
            lemma_lookup_from(props, key, start + 1);
        }
    }
}

/// Looks `key` up in a property bag. Where a key occurs more than once the first pair counts.
pub fn find_property<'a>(props: &'a Vec<(String, String)>, key: &str) -> (found: Option<&'a String>)
    ensures
        match found {
            Some(v) => lookup(props@, key@) == Some(v@),
            None => lookup(props@, key@).is_none(),
        },
{
    let wanted = key.to_owned();
    let mut i: usize = 0;
    while i < props.len()
        invariant
            i <= props.len(),
            wanted@ == key@,
            lookup(props@, key@) == lookup_from(props@, key@, i as int),
        decreases props.len() - i,
    {
        if props[i].0 == wanted {
            return Some(&props[i].1);
        }
        i += 1;
    }
    None
}

impl Selector {
    /// Whether an announced object is the one to mirror: a metadata object
    /// whose properties give this selector's value for its key.
    pub open spec fn selects(&self, desc: &ObjectDescriptor) -> bool {
        &&& desc.kind == ObjectKind::Metadata
        &&& desc.props matches Some(props)
        &&& lookup(props@, self.key@) == Some(self.value@)
    }

    /// The selector for `key` and `value`.
    pub fn new(key: &str, value: &str) -> (selector: Selector)
        ensures
            selector.key@ == key@,
            selector.value@ == value@,
    {
        Selector { key: key.to_owned(), value: value.to_owned() }
    }

    /// The selector of the broker's settings store.
    pub fn settings() -> (selector: Selector)
        ensures
            selector.key@ == SELECTOR_KEY@,
            selector.value@ == SELECTOR_VALUE@,
    {
        Selector::new(SELECTOR_KEY, SELECTOR_VALUE)
    }

    /// Whether `desc` is the object to mirror.
    pub fn matches(&self, desc: &ObjectDescriptor) -> (selected: bool)
        ensures
            selected == self.selects(desc),
    {
        match desc.kind {
            ObjectKind::Metadata => match &desc.props {
                Some(props) => match find_property(props, self.key.as_str()) {
                    Some(found) => *found == self.value,
                    None => false,
                },
                None => false,
            },
            ObjectKind::Other => false,
        }
    }
}

} // verus!

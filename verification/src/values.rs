//! Attribute values and items, as a table stores them.

use vstd::prelude::*;

verus! {

/// One attribute value of an item.
#[derive(Debug, PartialEq, Eq)]
pub enum AttributeValue {
    /// A string.
    S(String),
    /// A number, written out in decimal.
    N(String),
    /// A boolean.
    Bool(bool),
    /// The null value.
    Null(bool),
    /// Binary data.
    B(Vec<u8>),
    /// A set of strings.
    Ss(Vec<String>),
    /// A set of numbers, each written out in decimal.
    Ns(Vec<String>),
    /// A set of binary data.
    Bs(Vec<Vec<u8>>),
    /// A list of values.
    L(Vec<AttributeValue>),
    /// Named values, in the order in which they were given.
    M(Vec<(String, AttributeValue)>),
}

/// The mathematical counterpart of [`AttributeValue`].
pub ghost enum Attribute {
    S(Seq<char>),
    N(Seq<char>),
    Bool(bool),
    Null(bool),
    B(Seq<u8>),
    Ss(Seq<Seq<char>>),
    Ns(Seq<Seq<char>>),
    Bs(Seq<Seq<u8>>),
    L(Seq<Attribute>),
    M(Seq<(Seq<char>, Attribute)>),
}

/// The mathematical counterpart of an attribute value.
pub open spec fn attribute_of(value: AttributeValue) -> Attribute
    decreases value,
{
    match value {
        AttributeValue::S(s) => Attribute::S(s@),
        AttributeValue::N(n) => Attribute::N(n@),
        AttributeValue::Bool(b) => Attribute::Bool(b),
        AttributeValue::Null(b) => Attribute::Null(b),
        AttributeValue::B(bytes) => Attribute::B(bytes@),
        AttributeValue::Ss(texts) => Attribute::Ss(Seq::new(texts@.len(), |i: int| texts@[i]@)),
        AttributeValue::Ns(texts) => Attribute::Ns(Seq::new(texts@.len(), |i: int| texts@[i]@)),
        AttributeValue::Bs(blobs) => Attribute::Bs(Seq::new(blobs@.len(), |i: int| blobs@[i]@)),
        AttributeValue::L(values) => Attribute::L(
            Seq::new(
                values@.len(),
                |i: int|
                    if 0 <= i < values@.len() {
                        attribute_of(values@[i])
                    } else {
                        Attribute::Null(true)
                    },
            ),
        ),
        AttributeValue::M(entries) => Attribute::M(
            Seq::new(
                entries@.len(),
                |i: int|
                    if 0 <= i < entries@.len() {
                        (entries@[i].0@, attribute_of(entries@[i].1))
                    } else {
                        (Seq::empty(), Attribute::Null(true))
                    },
            ),
        ),
    }
}

impl View for AttributeValue {
    type V = Attribute;

    open spec fn view(&self) -> Attribute {
        attribute_of(*self)
    }
}

/// The entries of an item or of a map value, as pairs of a name and a value.
pub type Entries = Seq<(Seq<char>, Attribute)>;

/// The mathematical counterpart of a list of named values.
pub open spec fn entries_view(entries: Seq<(String, AttributeValue)>) -> Entries {
    Seq::new(entries.len(), |i: int| (entries[i].0@, entries[i].1@))
}

/// Whether `i` is the first place in `entries` that holds the name `key`.
pub open spec fn first_at(entries: Entries, key: Seq<char>, i: int) -> bool {
    &&& 0 <= i < entries.len()
    &&& entries[i].0 == key
    &&& forall|j: int| 0 <= j < i ==> (#[trigger] entries[j]).0 != key
}

/// Whether some entry holds the name `key`.
pub open spec fn has_key(entries: Entries, key: Seq<char>) -> bool {
    exists|i: int| first_at(entries, key, i)
}

/// The value that `entries` holds under `key`: that of the first entry with
/// this name.
pub open spec fn lookup(entries: Entries, key: Seq<char>) -> Option<Attribute> {
    if has_key(entries, key) {
        Some(entries[choose|i: int| first_at(entries, key, i)].1)
    } else {
        None
    }
}

/// `entries` with `value` stored under `key`: in place of the first entry
/// with this name, or at the end if there is none.
pub open spec fn put(entries: Entries, key: Seq<char>, value: Attribute) -> Entries {
    if has_key(entries, key) {
        entries.update(choose|i: int| first_at(entries, key, i), (key, value))
    } else {
        entries.push((key, value))
    }
}

/// Whether no name occurs twice in `entries`.
pub open spec fn distinct_keys(entries: Entries) -> bool {
    forall|i: int, j: int|
        0 <= i < j < entries.len() ==> (#[trigger] entries[i]).0 != (#[trigger] entries[j]).0
}

/// At most one place is the first to hold a name.
pub proof fn lemma_first_at_unique(entries: Entries, key: Seq<char>, i: int, j: int)
    requires
        first_at(entries, key, i),
        first_at(entries, key, j),
    ensures
        i == j,
{
    if i < j {
        assert(entries[i].0 != key);
    } else if j < i {
        assert(entries[j].0 != key);
    }
}

/// A name keeps what it holds when the entry of another name is replaced
/// or added: `after` is `entries` with an entry named `key` at place `at`,
/// which is either the place of an entry of that name or the end.
proof fn lemma_lookup_elsewhere(
    entries: Entries,
    after: Entries,
    key: Seq<char>,
    at: int,
    other: Seq<char>,
)
    requires
        other != key,
        0 <= at <= entries.len(),
        at < entries.len() ==> entries[at].0 == key && after.len() == entries.len(),
        at == entries.len() ==> after.len() == entries.len() + 1,
        after[at].0 == key,
        forall|j: int| 0 <= j < entries.len() && j != at ==> after[j] == entries[j],
    ensures
        lookup(after, other) == lookup(entries, other),
{
    assert forall|i: int| first_at(entries, other, i) <==> first_at(after, other, i) by {
        if first_at(entries, other, i) {
            assert forall|j: int| 0 <= j < i implies (#[trigger] after[j]).0 != other by {
                if j != at {
                    assert(after[j] == entries[j]);
                }
            }
        }
        if first_at(after, other, i) {
            assert forall|j: int| 0 <= j < i implies (#[trigger] entries[j]).0 != other by {
                if j != at {
                    assert(after[j] == entries[j]);
                }
            }
        }
    }
    if has_key(entries, other) {
        let a = choose|i: int| first_at(entries, other, i);
        assert(first_at(after, other, a));
        let b = choose|i: int| first_at(after, other, i);
        lemma_first_at_unique(after, other, a, b);
        assert(after[a] == entries[a]);
    } else if has_key(after, other) {
        let b = choose|i: int| first_at(after, other, i);
        assert(first_at(entries, other, b));
    }
}

/// What was put under a name is found there, and every other name holds
/// what it held before.
pub proof fn law_lookup_after_put(entries: Entries, key: Seq<char>, value: Attribute, other: Seq<char>)
    ensures
        lookup(put(entries, key, value), key) == Some(value),
        other != key ==> lookup(put(entries, key, value), other) == lookup(entries, other),
{
    let after = put(entries, key, value);
    let at = if has_key(entries, key) {
        choose|i: int| first_at(entries, key, i)
    } else {
        entries.len() as int
    };
    assert(first_at(after, key, at)) by {
        assert forall|j: int| 0 <= j < at implies (#[trigger] after[j]).0 != key by {
            assert(after[j] == entries[j]);
            if !has_key(entries, key) && entries[j].0 == key {
                lemma_has_first(entries, key, j);
            }
        }
    }
    let found = choose|i: int| first_at(after, key, i);
    lemma_first_at_unique(after, key, at, found);
    if other != key {
        lemma_lookup_elsewhere(entries, after, key, at, other);
    }
}

/// If some entry holds a name, some entry is the first to hold it.
pub proof fn lemma_has_first(entries: Entries, key: Seq<char>, i: int)
    requires
        0 <= i < entries.len(),
        entries[i].0 == key,
    ensures
        has_key(entries, key),
    decreases i,
{
    if forall|j: int| 0 <= j < i ==> (#[trigger] entries[j]).0 != key {
        assert(first_at(entries, key, i));
    } else {
        let j = choose|j: int| 0 <= j < i && (#[trigger] entries[j]).0 == key;
        lemma_has_first(entries, key, j);
    }
}

/// Putting a value keeps the names distinct.
pub proof fn law_put_keeps_keys_distinct(entries: Entries, key: Seq<char>, value: Attribute)
    requires
        distinct_keys(entries),
    ensures
        distinct_keys(put(entries, key, value)),
{
    let after = put(entries, key, value);
    if has_key(entries, key) {
        let at = choose|i: int| first_at(entries, key, i);
        assert forall|i: int, j: int| 0 <= i < j < after.len() implies (#[trigger] after[i]).0 != (
        #[trigger] after[j]).0 by {
            assert(after[i].0 == entries[i].0);
            assert(after[j].0 == entries[j].0);
        }
    } else {
        assert forall|i: int, j: int| 0 <= i < j < after.len() implies (#[trigger] after[i]).0 != (
        #[trigger] after[j]).0 by {
            if j == entries.len() {
                assert(after[i] == entries[i]);
                if entries[i].0 == key {
                    lemma_has_first(entries, key, i);
                }
            } else {
                assert(after[i] == entries[i]);
                assert(after[j] == entries[j]);
            }
        }
    }
}

/// An item: named attribute values. A name holds one value; storing under
/// a name that is taken replaces what it held.
#[derive(Debug, PartialEq, Eq)]
pub struct Item {
    /// The entries, in the order in which their names were first stored.
    pub entries: Vec<(String, AttributeValue)>,
}

impl View for Item {
    type V = Entries;

    open spec fn view(&self) -> Entries {
        entries_view(self.entries@)
    }
}

impl Item {
    /// An item without entries.
    pub fn new() -> (item: Item)
        ensures
            item@ == Seq::<(Seq<char>, Attribute)>::empty(),
    {
        let item = Item { entries: Vec::new() };
        assert(item@ =~= Seq::<(Seq<char>, Attribute)>::empty());
        item
    }

    /// Finds the first entry named `key`.
    fn find(&self, key: &String) -> (at: Option<usize>)
        ensures
            at matches Some(i) ==> first_at(self@, key@, i as int),
            at is None ==> !has_key(self@, key@),
    {
        let mut i: usize = 0;
        while i < self.entries.len()
            invariant
                i <= self.entries.len(),
                forall|j: int| 0 <= j < i ==> (#[trigger] self@[j]).0 != key@,
            decreases self.entries.len() - i,
        {
            if self.entries[i].0 == *key {
                return Some(i);
            }
            i = i + 1;
        }
        assert forall|k: int| !first_at(self@, key@, k) by {
            if 0 <= k < self@.len() {
                assert(self@[k].0 != key@);
            }
        }
        None
    }

    /// The value stored under `key`, if there is one.
    pub fn get(&self, key: &str) -> (found: Option<&AttributeValue>)
        ensures
            match found {
                Some(value) => lookup(self@, key@) == Some(value@),
                None => lookup(self@, key@) is None,
            },
    {
        let name = key.to_owned();
        match self.find(&name) {
            Some(i) => {
                proof {
                    let chosen = choose|k: int| first_at(self@, key@, k);
                    lemma_first_at_unique(self@, key@, i as int, chosen);
                }
                Some(&self.entries[i].1)
            },
            None => None,
        }
    }

    /// Stores `value` under `key` and hands the item back.
    pub fn item(self, key: &str, value: AttributeValue) -> (stored: Item)
        ensures
            stored@ == put(self@, key@, value@),
    {
        let name = key.to_owned();
        let ghost before = self@;
        let ghost added = value@;
        let at = self.find(&name);
        let mut entries = self.entries;
        match at {
            Some(i) => {
                proof {
                    let chosen = choose|k: int| first_at(before, key@, k);
                    lemma_first_at_unique(before, key@, i as int, chosen);
                }
                entries.set(i, (name, value));
                let stored = Item { entries };
                assert(stored@ =~= put(before, key@, added));
                stored
            },
            None => {
                entries.push((name, value));
                let stored = Item { entries };
                assert(stored@ =~= put(before, key@, added));
                stored
            },
        }
    }
}

} // verus!

use vstd::prelude::*;

verus! {

/// The value half of an attribute.
#[derive(Clone, Debug, PartialEq, Eq)]
pub enum Value {
    Bool(bool),
    I64(i64),
    String(String),
}

/// One key/value label attached to a measurement.
#[derive(Clone, Debug, PartialEq, Eq)]
pub struct KeyValue {
    pub key: String,
    pub value: Value,
}

impl KeyValue {
    pub fn new(key: &str, value: Value) -> (r: KeyValue)
        ensures
            r.key@ == key@,
            r.value == value,
    {
        KeyValue { key: String::from_str(key), value }
    }
}

/// The labels that a list of key/value pairs stands for: each key maps to the
/// value of its last occurrence, and the order of distinct keys is irrelevant.
pub open spec fn labels_of(entries: Seq<KeyValue>) -> Map<Seq<char>, Value>
    decreases entries.len(),
{
    if entries.len() == 0 {
        Map::empty()
    } else {
        let last = entries.last();
        labels_of(entries.drop_last()).insert(last.key@, last.value)
    }
}

/// An immutable set of labels attached to one measurement.
#[derive(Clone, Debug)]
pub struct AttributeSet {
    entries: Vec<KeyValue>,
}

impl View for AttributeSet {
    type V = Map<Seq<char>, Value>;

    closed spec fn view(&self) -> Map<Seq<char>, Value> {
        labels_of(self.entries@)
    }
}

impl AttributeSet {
    /// The set that holds no label.
    pub fn empty() -> (r: AttributeSet)
        ensures
            r@ == Map::<Seq<char>, Value>::empty(),
    {
        let r = AttributeSet { entries: Vec::new() };
        proof {
            assert(r.entries@.len() == 0);
        }
        r
    }

    /// Whether the set holds no label.
    pub fn is_empty(&self) -> (r: bool)
        ensures
            r == (self@.dom().len() == 0),
    {
        proof {
            lemma_labels_finite(self.entries@);
            if self.entries@.len() > 0 {
                let last = self.entries@.last();
                assert(self@.dom().contains(last.key@));
            }
        }
        self.entries.len() == 0
    }

    /// The value attached to `key`, if any.
    pub fn get(&self, key: &str) -> (r: Option<&Value>)
        ensures
            match r {
                Some(v) => self@.contains_key(key@) && self@[key@] == *v,
                None => !self@.contains_key(key@),
            },
    {
        let wanted = String::from_str(key);
        let mut i: usize = self.entries.len();
        while i > 0
            invariant
                i <= self.entries@.len(),
                wanted@ == key@,
                forall|j: int| i <= j < self.entries@.len() ==> #[trigger] self.entries@[j].key@ != key@,
            decreases i,
        {
            i = i - 1;
            if self.entries[i].key == wanted {
                proof {
                    lemma_labels_last_wins(self.entries@, i as int);
                }
                return Some(&self.entries[i].value);
            }
        }
        proof {
            lemma_labels_absent(self.entries@, key@);
        }
        None
    }
}

impl From<Vec<KeyValue>> for AttributeSet {
    fn from(entries: Vec<KeyValue>) -> (r: AttributeSet)
        ensures
            r@ == labels_of(entries@),
    {
        AttributeSet { entries }
    }
}

impl vstd::std_specs::convert::FromSpecImpl<Vec<KeyValue>> for AttributeSet {
    open spec fn obeys_from_spec() -> bool {
        true
    }

    closed spec fn from_spec(entries: Vec<KeyValue>) -> AttributeSet {
        AttributeSet { entries }
    }
}

proof fn lemma_labels_finite(entries: Seq<KeyValue>)
    ensures
        labels_of(entries).dom().finite(),
        entries.len() == 0 ==> labels_of(entries).dom().len() == 0,
    decreases entries.len(),
{
    if entries.len() > 0 {
        lemma_labels_finite(entries.drop_last());
    }
}

/// Where no later entry has the key of entry `i`, the labels give it that entry's value.
proof fn lemma_labels_last_wins(entries: Seq<KeyValue>, i: int)
    requires
        0 <= i < entries.len(),
        forall|j: int| i < j < entries.len() ==> #[trigger] entries[j].key@ != entries[i].key@,
    ensures
        labels_of(entries).contains_key(entries[i].key@),
        labels_of(entries)[entries[i].key@] == entries[i].value,
    decreases entries.len(),
{
    if i < entries.len() - 1 {
        let rest = entries.drop_last();
        assert forall|j: int| i < j < rest.len() implies #[trigger] rest[j].key@ != rest[i].key@ by {
            assert(rest[j] == entries[j]);
        }
        lemma_labels_last_wins(rest, i);
        assert(entries.last() == entries[entries.len() - 1]);
    }
}

/// A key that no entry has is not labelled.
proof fn lemma_labels_absent(entries: Seq<KeyValue>, key: Seq<char>)
    requires
        forall|j: int| 0 <= j < entries.len() ==> #[trigger] entries[j].key@ != key,
    ensures
        !labels_of(entries).contains_key(key),
    decreases entries.len(),
{
    if entries.len() > 0 {
        let rest = entries.drop_last();
        assert forall|j: int| 0 <= j < rest.len() implies #[trigger] rest[j].key@ != key by {
            assert(rest[j] == entries[j]);
        }
        lemma_labels_absent(rest, key);
        assert(entries.last() == entries[entries.len() - 1]);
    }
}

} // verus!

use vstd::prelude::*;
use std::sync::Arc;
use crate::attributes::AttributeSet;
use vstd::std_specs::convert::IntoSpec;

verus! {

/// An SDK implemented instrument that records a distribution of values.
///
/// Implementations are shared between threads, so recording takes `&self`
/// and any bookkeeping lives behind the implementation's own synchronisation.
pub trait SyncHistogram<T>: Send + Sync {
    /// Holds once this recorder has been handed `value` with `attributes`.
    spec fn took(&self, value: T, attributes: AttributeSet) -> bool;

    /// Adds an additional value to the distribution.
    fn record(&self, value: T, attributes: AttributeSet)
        ensures
            self.took(value, attributes),
    ;
}

/// Relies on `Arc::clone`: the new handle points at the same allocation as `a`.
#[verifier::external_body]
fn share<A>(a: &Arc<A>) -> (r: Arc<A>)
    ensures
        r == *a,
{
    Arc::clone(a)
}

/// The label of a histogram whose values have the type described by `value_type`.
pub open spec fn histogram_label_of(value_type: Seq<char>) -> Seq<char> {
    "Histogram<"@ + value_type + ">"@
}

/// Builds the label of a histogram whose values have the type described by `value_type`.
pub fn histogram_label(value_type: &str) -> (r: String)
    ensures
        r@ == histogram_label_of(value_type@),
{
    let mut label = String::from_str("Histogram<");
    label.append(value_type);
    label.append(">");
    label
}

/// Distinct value types give distinct labels.
pub proof fn lemma_label_distinguishes_types(a: Seq<char>, b: Seq<char>)
    requires
        a != b,
    ensures
        histogram_label_of(a) != histogram_label_of(b),
{
    let head = "Histogram<"@;
    let tail = ">"@;
    if histogram_label_of(a) == histogram_label_of(b) {
        let la = histogram_label_of(a);
        assert(la.len() == head.len() + a.len() + tail.len());
        assert(a.len() == b.len());
        assert(a =~= la.subrange(head.len() as int, (head.len() + a.len()) as int));
        assert(b =~= histogram_label_of(b).subrange(head.len() as int, (head.len() + b.len()) as int));
    }
}

/// An instrument that records a distribution of values.
#[verifier::reject_recursive_types(T)]
pub struct Histogram<T>(Arc<Box<dyn SyncHistogram<T>>>);

impl<T> Clone for Histogram<T> {
    /// Another handle on the same recorder.
    fn clone(&self) -> (r: Self)
        ensures
            r.shares_recorder(self),
    {
        Histogram(share(&self.0))
    }
}

impl<T> Histogram<T> {
    /// The recorder that measurements are handed to.
    pub closed spec fn recorder(&self) -> Arc<Box<dyn SyncHistogram<T>>> {
        self.0
    }

    /// Whether both handles reach the same recorder.
    pub open spec fn shares_recorder(&self, other: &Histogram<T>) -> bool {
        self.recorder() == other.recorder()
    }

    /// Whether the recorder behind this handle has been handed `value` with `attributes`.
    pub open spec fn has_taken(&self, value: T, attributes: AttributeSet) -> bool {
        self.recorder().took(value, attributes)
    }

    /// Create a new histogram.
    pub fn new(inner: Arc<Box<dyn SyncHistogram<T>>>) -> (r: Self)
        ensures
            r.recorder() == inner,
    {
        Histogram(inner)
    }

    /// Adds an additional value to the distribution.
    pub fn record<A: Into<AttributeSet>>(&self, value: T, attributes: A)
        ensures
            A::obeys_into_spec() ==> self.has_taken(value, attributes.into_spec()),
            exists|set: AttributeSet|
                call_ensures(<A as Into<AttributeSet>>::into, (attributes,), set)
                    && #[trigger] self.has_taken(value, set),
    {
        let set = attributes.into();
        let ghost handed = (value, set);
        self.0.record(value, set);
        assert(self.has_taken(handed.0, handed.1));
    }
}

/// A clone and the histogram it was cloned from hand measurements to one recorder:
/// what was recorded through either has been taken by the recorder of both.
pub proof fn lemma_clone_records_to_origin<T>(
    origin: Histogram<T>,
    copy: Histogram<T>,
    value: T,
    attributes: AttributeSet,
)
    requires
        copy.shares_recorder(&origin),
    ensures
        copy.has_taken(value, attributes) <==> origin.has_taken(value, attributes),
{
}

} // verus!

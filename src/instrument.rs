use vstd::prelude::*;
use crate::histogram::Histogram;
use std::sync::Arc;

verus! {

/// Why a provider could not create an instrument.
#[derive(Clone, Debug, PartialEq, Eq)]
pub enum MetricsError {
    /// The instrument's descriptor is not valid.
    InvalidInstrumentConfiguration(String),
    /// The request conflicts with an instrument that already exists.
    Config(String),
    /// Any other failure of the provider.
    Other(String),
}

/// The part of an SDK that creates histograms whose values have type `T`.
pub trait HistogramProvider<T> {
    /// Holds when `result` is an answer of this provider to a request for a
    /// histogram with the given name, description and unit.
    spec fn answers(
        &self,
        name: String,
        description: Option<String>,
        unit: Option<String>,
        result: Result<Histogram<T>, MetricsError>,
    ) -> bool;

    /// Creates a histogram with the given name, description and unit, or says why it cannot.
    fn histogram(&self, name: String, description: Option<String>, unit: Option<String>) -> (r:
        Result<Histogram<T>, MetricsError>)
        ensures
            self.answers(name, description, unit, r),
    ;
}

/// The descriptor of an instrument, and the provider that will create it.
#[verifier::reject_recursive_types(T)]
pub struct InstrumentBuilder<'a, T> {
    pub provider: &'a Arc<Box<dyn HistogramProvider<T>>>,
    pub name: String,
    pub description: Option<String>,
    pub unit: Option<String>,
}

impl<'a, T> InstrumentBuilder<'a, T> {
    /// A descriptor with `name` alone, for `provider`.
    pub fn new(provider: &'a Arc<Box<dyn HistogramProvider<T>>>, name: &str) -> (r: Self)
        ensures
            r.provider == provider,
            r.name@ == name@,
            r.description is None,
            r.unit is None,
    {
        InstrumentBuilder { provider, name: String::from_str(name), description: None, unit: None }
    }

    /// The same descriptor with `description`.
    pub fn with_description(self, description: &str) -> (r: Self)
        ensures
            r.provider == self.provider,
            r.name == self.name,
            r.description matches Some(d) && d@ == description@,
            r.unit == self.unit,
    {
        InstrumentBuilder { description: Some(String::from_str(description)), ..self }
    }

    /// The same descriptor with `unit`.
    pub fn with_unit(self, unit: &str) -> (r: Self)
        ensures
            r.provider == self.provider,
            r.name == self.name,
            r.description == self.description,
            r.unit matches Some(u) && u@ == unit@,
    {
        InstrumentBuilder { unit: Some(String::from_str(unit)), ..self }
    }
}

impl<T> Histogram<T> {
    /// Asks the builder's provider for a histogram with the builder's descriptor,
    /// and hands back the provider's answer as it came.
    pub fn from_builder(builder: InstrumentBuilder<'_, T>) -> (r: Result<Histogram<T>, MetricsError>)
        ensures
            builder.provider.answers(builder.name, builder.description, builder.unit, r),
    {
        builder.provider.histogram(builder.name, builder.description, builder.unit)
    }
}

impl<'a, T> TryFrom<InstrumentBuilder<'a, T>> for Histogram<T> {
    type Error = MetricsError;

    fn try_from(builder: InstrumentBuilder<'a, T>) -> (r: Result<Histogram<T>, MetricsError>)
        ensures
            builder.provider.answers(builder.name, builder.description, builder.unit, r),
    {
        Histogram::from_builder(builder)
    }
}

impl<'a, T> vstd::std_specs::convert::TryFromSpecImpl<InstrumentBuilder<'a, T>> for Histogram<T> {
    /// The answer is the provider's, which no function of the builder alone fixes.
    open spec fn obeys_try_from_spec() -> bool {
        false
    }

    closed spec fn try_from_spec(builder: InstrumentBuilder<'a, T>) -> Result<Histogram<T>, MetricsError> {
        arbitrary()
    }
}

} // verus!

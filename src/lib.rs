//! A histogram instrument: a cheap, shareable handle that hands each measurement,
//! with its labels, to a recorder supplied by a metrics SDK.

pub mod attributes;
pub mod histogram;
pub mod instrument;

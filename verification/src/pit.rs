//! Publication semantics of curve points: when a value counts as known.
//!
//! Curve values here are dated by their valuation date only, their
//! availability is inferred rather than evidenced, and so they are never
//! eligible as formal point-in-time data.
use vstd::prelude::*;

verus! {

/// The time precision with which a value is stamped.
#[non_exhaustive]
#[derive(Debug, Clone, Copy, PartialEq, Eq, Hash, Structural)]
pub enum TimePrecision {
    /// A calendar date, without time of day.
    Date,
}

/// The evidence for when a value became available.
#[non_exhaustive]
#[derive(Debug, Clone, Copy, PartialEq, Eq, Hash, Structural)]
pub enum AvailabilityEvidence {
    /// Availability published by the official source.
    Official,
    /// Availability inferred, not evidenced.
    Inferred,
}

/// Whether values qualify as formal point-in-time data.
#[non_exhaustive]
#[derive(Debug, Clone, Copy, PartialEq, Eq, Hash, Structural)]
pub enum PitEligibility {
    /// Eligible as formal point-in-time data.
    Eligible,
    /// Not eligible.
    NotEligible,
}

/// The publication semantics of yield-curve points: date precision,
/// inferred availability, not eligible as formal point-in-time data.
pub fn yield_curve_publication_semantics() -> (r: (TimePrecision, AvailabilityEvidence, PitEligibility))
    ensures
        r == (TimePrecision::Date, AvailabilityEvidence::Inferred, PitEligibility::NotEligible),
{
    (TimePrecision::Date, AvailabilityEvidence::Inferred, PitEligibility::NotEligible)
}

/// Whether yield-curve points are formal point-in-time data: never (the
/// third part of the publication semantics).
pub fn is_formal_pit_eligible() -> (r: bool)
    ensures
        !r,
{
    match yield_curve_publication_semantics().2 {
        PitEligibility::Eligible => true,
        PitEligibility::NotEligible => false,
    }
}

} // verus!

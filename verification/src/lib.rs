//! yieldx: the L0 value objects of a yield-curve kernel and their batch
//! validation.
//!
//! The kernel owns identity and validation only: tenor, curve kind, rate
//! convention, the seven-part point identity, the official / derived split,
//! and the curve batch whose identities are unique. It does not fetch,
//! authenticate, cache or redistribute, and it grants no provider
//! authorization.

pub mod error;
pub mod parse;
pub mod pit;
pub mod routing;
pub mod text;
pub mod value;

pub use error::{YieldCurveError, YieldCurveErrorKind, YieldCurveResult};
pub use parse::{batch_from_fixture, FixtureDocument, FixtureIdentity, FixturePoint};
pub use pit::{
    is_formal_pit_eligible, yield_curve_publication_semantics, AvailabilityEvidence,
    PitEligibility, TimePrecision,
};
pub use routing::{
    guard_provider_adapter_scope, kernel_owns, receive_routed_batch, YieldCurveCapability,
    YieldCurveRouteSource, PROVIDER_ADAPTERS_IMPLEMENTED, PROVIDER_ADAPTERS_PLANNED, ROUTE_SOURCES,
};
pub use value::{
    validate_curve_batch, validate_curve_point, Date, Frequency, Period, Unit, YieldCurveBatch,
    YieldCurveCode, YieldCurveConvention, YieldCurveKind, YieldCurveMissingReason, YieldCurvePoint,
    YieldCurvePointIdentity, YieldCurvePointOrigin, YieldCurveRate, YieldCurveTenor, TENOR_CATALOG,
};

//! The receiving end of curve routing, and the kernel's capability boundary.
//!
//! The kernel receives curve points routed to it by upstream providers and
//! only checks identity and batch rules; it never fetches, authenticates,
//! caches or redistributes. The provider catalog is a plan, not a grant.
use vstd::prelude::*;

use crate::error::{YieldCurveError, YieldCurveErrorKind, YieldCurveResult};
use crate::value::curve::{spec_batch_check, spec_point_views};
use crate::value::{Frequency, Unit, YieldCurveBatch, YieldCurvePoint};

verus! {

/// The number of planned provider adapters (a plan, not a list of grants).
pub const PROVIDER_ADAPTERS_PLANNED: usize = 32;

/// The number of implemented provider adapters.
pub const PROVIDER_ADAPTERS_IMPLEMENTED: usize = 0;

/// An upstream source that routes curve points to this domain.
///
/// Only the receiving semantics are declared: no endpoint, credential or
/// rate limit.
#[non_exhaustive]
#[derive(Debug, Clone, Copy, PartialEq, Eq, Hash, Structural)]
pub enum YieldCurveRouteSource {
    /// US Treasury daily par yield curve (1M to 30Y).
    TreasuryDs06,
    /// US Treasury real yield curve (TIPS).
    TreasuryDs07,
    /// The ECB's YC dataflow (point mapping approved by this domain).
    EcbYcDataflow,
    /// The UK S07 yield curve.
    UkS07,
}

/// Every declared route source.
pub const ROUTE_SOURCES: [YieldCurveRouteSource; 4] = [
    YieldCurveRouteSource::TreasuryDs06,
    YieldCurveRouteSource::TreasuryDs07,
    YieldCurveRouteSource::EcbYcDataflow,
    YieldCurveRouteSource::UkS07,
];

/// The readable label of a route source.
pub open spec fn spec_route_label(s: YieldCurveRouteSource) -> Seq<char> {
    match s {
        YieldCurveRouteSource::TreasuryDs06 => "treasuryx:DS06"@,
        YieldCurveRouteSource::TreasuryDs07 => "treasuryx:DS07"@,
        YieldCurveRouteSource::EcbYcDataflow => "ecbx:YC-dataflow"@,
        YieldCurveRouteSource::UkS07 => "ukx:S07"@,
    }
}

impl YieldCurveRouteSource {
    /// The readable label.
    pub fn label(self) -> (r: &'static str)
        ensures
            r@ == spec_route_label(self),
    {
        match self {
            Self::TreasuryDs06 => "treasuryx:DS06",
            Self::TreasuryDs07 => "treasuryx:DS07",
            Self::EcbYcDataflow => "ecbx:YC-dataflow",
            Self::UkS07 => "ukx:S07",
        }
    }
}

/// Distinct route sources have distinct labels.
pub proof fn lemma_route_labels_distinct(a: YieldCurveRouteSource, b: YieldCurveRouteSource)
    ensures
        spec_route_label(a) == spec_route_label(b) <==> a == b,
{
    reveal_strlit("treasuryx:DS06");
    reveal_strlit("treasuryx:DS07");
    reveal_strlit("ecbx:YC-dataflow");
    reveal_strlit("ukx:S07");
    if spec_route_label(a) == spec_route_label(b) {
        let x = spec_route_label(a);
        let y = spec_route_label(b);
        assert(x.len() == y.len());
        assert(x[0] == y[0]);
        assert(x[x.len() - 1] == y[y.len() - 1]);
    }
}

/// The message of a refused routed batch: the source's label, then the
/// reason of the batch check.
pub open spec fn spec_routed_message(source: YieldCurveRouteSource, reason: Seq<char>) -> Seq<char> {
    "来自 "@ + spec_route_label(source) + " 的路由批被拒绝："@ + reason
}

/// The error that a refused routed batch gives: the same kind, the message
/// naming the source.
pub open spec fn spec_routed_error(
    source: YieldCurveRouteSource,
    e: (YieldCurveErrorKind, Seq<char>),
) -> (YieldCurveErrorKind, Seq<char>) {
    (e.0, spec_routed_message(source, e.1))
}

/// Writes the message of a refused routed batch.
fn routed_message(source: YieldCurveRouteSource, reason: &String) -> (m: String)
    ensures
        m@ == spec_routed_message(source, reason@),
{
    let mut message = String::from_str("来自 ");
    message.append(source.label());
    message.append(" 的路由批被拒绝：");
    message.append(reason.as_str());
    message
}

/// Receives a batch of curve points routed from upstream: identity and batch
/// checks only; no fetching, authentication or caching.
///
/// The checks are exactly those of [`YieldCurveBatch::new`]; a refusal keeps
/// its kind and its message names the source.
///
/// # Errors
///
/// The error of the batch check, of the same kind, the source named in its
/// message.
pub fn receive_routed_batch(
    source: YieldCurveRouteSource,
    points: Vec<YieldCurvePoint>,
    frequency: Frequency,
    unit: Unit,
) -> (r: YieldCurveResult<YieldCurveBatch>)
    ensures
        match r {
            Ok(b) => spec_batch_check(spec_point_views(points@)) is Ok && b.spec_points() == points@
                && b.spec_frequency() == frequency && b.spec_unit() == unit && b.spec_well_formed(),
            Err(e) => spec_batch_check(spec_point_views(points@)) is Err && e@ == spec_routed_error(
                source,
                spec_batch_check(spec_point_views(points@))->Err_0,
            ),
        },
{
    match YieldCurveBatch::new(points, frequency, unit) {
        Ok(batch) => Ok(batch),
        Err(error) => {
            let labelled = match &error {
                YieldCurveError::Invalid(m) => YieldCurveError::Invalid(routed_message(source, m)),
                YieldCurveError::Missing(m) => YieldCurveError::Missing(routed_message(source, m)),
                YieldCurveError::AuthorizationDenied(m) => YieldCurveError::AuthorizationDenied(
                    routed_message(source, m),
                ),
                YieldCurveError::RoutedElsewhere(m) => YieldCurveError::RoutedElsewhere(
                    routed_message(source, m),
                ),
                YieldCurveError::WriteAuthorityDenied(m) => YieldCurveError::WriteAuthorityDenied(
                    routed_message(source, m),
                ),
                YieldCurveError::SemanticallyRejected(m) => YieldCurveError::SemanticallyRejected(
                    routed_message(source, m),
                ),
                YieldCurveError::NotApplicable(m) => YieldCurveError::NotApplicable(
                    routed_message(source, m),
                ),
                YieldCurveError::Invariant(m) => YieldCurveError::Invariant(routed_message(source, m)),
            };
            Err(labelled)
        },
    }
}

/// Routing keeps the kind of every refusal; its message names the source
/// and keeps the underlying reason at its end.
pub proof fn lemma_routed_error_keeps_kind(
    source: YieldCurveRouteSource,
    e: (YieldCurveErrorKind, Seq<char>),
)
    ensures
        spec_routed_error(source, e).0 == e.0,
        ({
            let m = spec_routed_error(source, e).1;
            let head = "来自 "@.len();
            let label = spec_route_label(source);
            &&& m.subrange(head as int, (head + label.len()) as int) == label
            &&& m.subrange(m.len() - e.1.len(), m.len() as int) == e.1
        }),
{
    let m = spec_routed_error(source, e).1;
    let a = "来自 "@;
    let label = spec_route_label(source);
    let c = " 的路由批被拒绝："@;
    assert(m == a + label + c + e.1);
    assert(m.subrange(a.len() as int, (a.len() + label.len()) as int) =~= label);
    assert(m.subrange(m.len() - e.1.len(), m.len() as int) =~= e.1);
}

/// A capability of the kernel.
#[non_exhaustive]
#[derive(Debug, Clone, Copy, PartialEq, Eq, Hash, Structural)]
pub enum YieldCurveCapability {
    /// L0 value objects and identity.
    L0ValueObjects,
    /// Batch validation (uniqueness and derived completeness).
    BatchValidation,
    /// HTTP access (not owned by the kernel).
    HttpFetch,
    /// Authentication (not owned by the kernel).
    Authentication,
    /// Caching (not owned by the kernel).
    Cache,
    /// Redistribution (not owned by the kernel).
    Redistribution,
}

/// Whether this domain owns a capability: only the value objects and batch
/// validation; HTTP, authentication, caching and redistribution never.
pub fn kernel_owns(capability: YieldCurveCapability) -> (r: bool)
    ensures
        r == (capability == YieldCurveCapability::L0ValueObjects || capability
            == YieldCurveCapability::BatchValidation),
{
    match capability {
        YieldCurveCapability::L0ValueObjects | YieldCurveCapability::BatchValidation => true,
        _ => false,
    }
}

/// The message of the provider-authorization guard.
pub open spec fn spec_provider_scope_message() -> Seq<char> {
    "kernel 不是 provider：32 个 provider 为规划目录（0/32），本域不得据此批任何 provider 授权"@
}

/// The provider-authorization guard: the kernel grants no provider
/// authorization, ever.
///
/// # Errors
///
/// Always `WriteAuthorityDenied`.
pub fn guard_provider_adapter_scope() -> (r: YieldCurveResult<()>)
    ensures
        r matches Err(e) && e@ == (
            YieldCurveErrorKind::WriteAuthorityDenied,
            spec_provider_scope_message(),
        ),
{
    Err(
        YieldCurveError::WriteAuthorityDenied(
            String::from_str(
                "kernel 不是 provider：32 个 provider 为规划目录（0/32），本域不得据此批任何 provider 授权",
            ),
        ),
    )
}

} // verus!

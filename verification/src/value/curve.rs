//! Curve points and curve batches: the rate, the official / derived split,
//! and uniqueness of identities within a batch.
//!
//! The two central checks of the kernel live here:
//!
//! 1. the canonical key is unique within a batch: a repeated identity is
//!    refused (never silently deduplicated, never overwritten);
//! 2. a derived point is complete: a `Derived` point declares at least one
//!    input identity, and an `Official` point declares none.
use vstd::prelude::*;

use vstd::std_specs::cmp::PartialEqSpecImpl;

use crate::error::{YieldCurveError, YieldCurveErrorKind, YieldCurveResult};
use crate::text::{message_with_count, spec_dec, str_eq};
use crate::value::identity::{lemma_canonical_key_injective, spec_canonical_key, IdentityView};
use crate::value::{
    spec_date_error, spec_is_valid_date, Date, Frequency, Unit, YieldCurveConvention,
    YieldCurvePointIdentity,
};

verus! {

/// A named reason for a missing value (a gap is never silently turned into 0).
#[non_exhaustive]
#[derive(Debug, Clone, Copy, PartialEq, Eq, Hash, Structural)]
pub enum YieldCurveMissingReason {
    /// The upstream cell is empty.
    SourceBlank,
    /// The upstream has not published this period yet.
    NotPublishedYet,
    /// The point does not apply to this tenor.
    NotApplicable,
}

/// A curve value.
///
/// A present value is held as the IEEE 754 binary64 encoding of the number
/// that the upstream delivered (`f64::to_bits`), kept as delivered. Two
/// values compare as the numbers do: `0.0` equals `-0.0`, and NaN equals
/// nothing.
#[non_exhaustive]
#[derive(Debug, Clone, Copy)]
pub enum YieldCurveRate {
    /// The upstream's number, as its binary64 encoding.
    Present(u64),
    /// Missing, with a named reason.
    Missing(YieldCurveMissingReason),
}

/// Whether a binary64 encoding is a NaN: all eleven exponent bits set and a
/// non-zero fraction.
pub open spec fn spec_is_nan_bits(bits: u64) -> bool {
    (bits >> 52u64) & 0x7ffu64 == 0x7ffu64 && bits & 0xf_ffff_ffff_ffffu64 != 0
}

/// IEEE 754 equality of two binary64 encodings: no NaN is equal to anything,
/// the two zeros are equal, and otherwise equal numbers have equal encodings.
pub open spec fn spec_float_bits_eq(a: u64, b: u64) -> bool {
    &&& !spec_is_nan_bits(a)
    &&& !spec_is_nan_bits(b)
    &&& (a == b || (a & 0x7fff_ffff_ffff_ffffu64 == 0 && b & 0x7fff_ffff_ffff_ffffu64 == 0))
}

/// IEEE 754 equality of two binary64 encodings.
fn float_bits_eq(a: u64, b: u64) -> (r: bool)
    ensures
        r == spec_float_bits_eq(a, b),
{
    let nan_a = (a >> 52u64) & 0x7ffu64 == 0x7ffu64 && a & 0xf_ffff_ffff_ffffu64 != 0;
    let nan_b = (b >> 52u64) & 0x7ffu64 == 0x7ffu64 && b & 0xf_ffff_ffff_ffffu64 != 0;
    if nan_a || nan_b {
        false
    } else {
        a == b || (a & 0x7fff_ffff_ffff_ffffu64 == 0 && b & 0x7fff_ffff_ffff_ffffu64 == 0)
    }
}

/// What `==` means on curve values: present values compare as numbers,
/// missing values by their reason.
pub open spec fn spec_rate_eq(a: YieldCurveRate, b: YieldCurveRate) -> bool {
    match (a, b) {
        (YieldCurveRate::Present(x), YieldCurveRate::Present(y)) => spec_float_bits_eq(x, y),
        (YieldCurveRate::Missing(x), YieldCurveRate::Missing(y)) => x == y,
        _ => false,
    }
}

impl PartialEq for YieldCurveRate {
    fn eq(&self, other: &Self) -> (r: bool) {
        match (self, other) {
            (YieldCurveRate::Present(x), YieldCurveRate::Present(y)) => float_bits_eq(*x, *y),
            (YieldCurveRate::Missing(x), YieldCurveRate::Missing(y)) => *x == *y,
            _ => false,
        }
    }
}

impl PartialEqSpecImpl for YieldCurveRate {
    open spec fn obeys_eq_spec() -> bool {
        true
    }

    open spec fn eq_spec(&self, other: &YieldCurveRate) -> bool {
        spec_rate_eq(*self, *other)
    }
}

/// Finiteness is decided by the exponent field alone: an encoding is finite
/// exactly when its eleven exponent bits are not all set, whatever its sign
/// and fraction, so a negative number is as finite as its magnitude.
pub proof fn lemma_finite_is_exponent_only(bits: u64)
    ensures
        spec_is_finite_bits(bits) <==> bits & 0x7ff0_0000_0000_0000u64 != 0x7ff0_0000_0000_0000u64,
        spec_is_finite_bits(bits ^ 0x8000_0000_0000_0000u64) == spec_is_finite_bits(bits),
        spec_is_finite_bits(bits & 0x800f_ffff_ffff_ffffu64),
{
    assert(((bits >> 52u64) & 0x7ffu64 != 0x7ffu64) <==> (bits & 0x7ff0_0000_0000_0000u64
        != 0x7ff0_0000_0000_0000u64)) by (bit_vector);
    assert((((bits ^ 0x8000_0000_0000_0000u64) >> 52u64) & 0x7ffu64) == ((bits >> 52u64) & 0x7ffu64))
        by (bit_vector);
    assert(((bits & 0x800f_ffff_ffff_ffffu64) >> 52u64) & 0x7ffu64 == 0u64) by (bit_vector);
}

/// A sign change never changes whether a point passes its checks: the
/// point check refuses a present value only for NaN and the infinities.
pub proof fn lemma_point_check_ignores_sign(p: PointView, bits: u64)
    ensures
        spec_point_check(PointView { rate: YieldCurveRate::Present(bits), ..p }) == spec_point_check(
            PointView { rate: YieldCurveRate::Present(bits ^ 0x8000_0000_0000_0000u64), ..p },
        ),
{
    lemma_finite_is_exponent_only(bits);
}

/// Present values compare as IEEE numbers: an encoding that is not a NaN
/// equals itself; two encodings are equal only when they are the same
/// encoding or the two zeros; and a number other than zero never equals its
/// negation. A NaN equals nothing.
pub proof fn lemma_float_equality_is_numeric(a: u64, b: u64)
    ensures
        a & 0x7ff0_0000_0000_0000u64 == 0x7ff0_0000_0000_0000u64 && a & 0x000f_ffff_ffff_ffffu64 != 0
            ==> !spec_float_bits_eq(a, b) && !spec_float_bits_eq(b, a),
        !(a & 0x7ff0_0000_0000_0000u64 == 0x7ff0_0000_0000_0000u64 && a & 0x000f_ffff_ffff_ffffu64
            != 0) ==> spec_float_bits_eq(a, a),
        spec_float_bits_eq(a, b) ==> a == b || ((a == 0 || a == 0x8000_0000_0000_0000u64) && (b == 0
            || b == 0x8000_0000_0000_0000u64)),
        spec_float_bits_eq(0, 0x8000_0000_0000_0000u64),
        a != 0 && a != 0x8000_0000_0000_0000u64 ==> !spec_float_bits_eq(
            a,
            a ^ 0x8000_0000_0000_0000u64,
        ),
{
    assert((a >> 52u64) & 0x7ffu64 == 0x7ffu64 && a & 0xf_ffff_ffff_ffffu64 != 0 <==> (a
        & 0x7ff0_0000_0000_0000u64 == 0x7ff0_0000_0000_0000u64 && a & 0x000f_ffff_ffff_ffffu64 != 0))
        by (bit_vector);
    assert(a & 0x7fff_ffff_ffff_ffffu64 == 0 <==> (a == 0 || a == 0x8000_0000_0000_0000u64))
        by (bit_vector);
    assert(b & 0x7fff_ffff_ffff_ffffu64 == 0 <==> (b == 0 || b == 0x8000_0000_0000_0000u64))
        by (bit_vector);
    assert(a != 0 && a != 0x8000_0000_0000_0000u64 ==> a != a ^ 0x8000_0000_0000_0000u64)
        by (bit_vector);
    assert(((0u64 >> 52u64) & 0x7ffu64) == 0u64) by (bit_vector);
    assert(((0x8000_0000_0000_0000u64 >> 52u64) & 0x7ffu64) == 0u64) by (bit_vector);
    assert(0x8000_0000_0000_0000u64 & 0x7fff_ffff_ffff_ffffu64 == 0) by (bit_vector);
    assert(0u64 & 0x7fff_ffff_ffff_ffffu64 == 0) by (bit_vector);
}

/// Curve values compare as `==` on the numbers does: a present value and
/// its negation are different values unless the value is a zero, and a
/// present value never equals a missing one.
pub proof fn lemma_rate_equality_keeps_sign(bits: u64, reason: YieldCurveMissingReason)
    ensures
        bits != 0 && bits != 0x8000_0000_0000_0000u64 ==> !spec_rate_eq(
            YieldCurveRate::Present(bits),
            YieldCurveRate::Present(bits ^ 0x8000_0000_0000_0000u64),
        ),
        !spec_rate_eq(YieldCurveRate::Present(bits), YieldCurveRate::Missing(reason)),
        spec_rate_eq(YieldCurveRate::Missing(reason), YieldCurveRate::Missing(reason)),
{
    lemma_float_equality_is_numeric(bits, bits ^ 0x8000_0000_0000_0000u64);
}

/// The origin of a value: official or derived.
#[non_exhaustive]
#[derive(Debug, Clone, Copy, PartialEq, Eq, Hash, Structural)]
pub enum YieldCurvePointOrigin {
    /// An official point (given directly by the upstream).
    Official,
    /// A derived point (computed from other curve points).
    Derived,
}

/// Whether a binary64 encoding is a finite number: NaN and the two
/// infinities are exactly the encodings whose eleven exponent bits are all
/// ones.
pub open spec fn spec_is_finite_bits(bits: u64) -> bool {
    (bits >> 52u64) & 0x7ffu64 != 0x7ffu64
}

/// A curve point.
#[derive(Debug, PartialEq)]
pub struct YieldCurvePoint {
    /// The seven-part identity.
    pub identity: YieldCurvePointIdentity,
    /// The value (or its named absence).
    pub rate: YieldCurveRate,
    /// Official or derived.
    pub origin: YieldCurvePointOrigin,
    /// The rate convention.
    pub convention: YieldCurveConvention,
    /// The input identities of a derived point: `None` for an official
    /// point, a non-empty list for a derived one.
    pub derived_from: Option<Vec<YieldCurvePointIdentity>>,
}

/// A curve point as plain values.
pub struct PointView {
    /// The identity.
    pub identity: IdentityView,
    /// The value.
    pub rate: YieldCurveRate,
    /// Official or derived.
    pub origin: YieldCurvePointOrigin,
    /// The convention token.
    pub convention: Seq<char>,
    /// The input identities, if declared.
    pub derived_from: Option<Seq<IdentityView>>,
}

/// A list of identities as plain values.
pub open spec fn spec_identity_views(ids: Seq<YieldCurvePointIdentity>) -> Seq<IdentityView> {
    ids.map_values(|id: YieldCurvePointIdentity| id@)
}

impl View for YieldCurvePoint {
    type V = PointView;

    open spec fn view(&self) -> PointView {
        PointView {
            identity: self.identity@,
            rate: self.rate,
            origin: self.origin,
            convention: self.convention@,
            derived_from: match self.derived_from {
                Some(v) => Some(spec_identity_views(v@)),
                None => None,
            },
        }
    }
}

impl Clone for YieldCurvePoint {
    fn clone(&self) -> (r: Self)
        ensures
            r@ == self@,
    {
        let derived_from = match &self.derived_from {
            Some(inputs) => Some(clone_identities(inputs)),
            None => None,
        };
        YieldCurvePoint {
            identity: self.identity.clone(),
            rate: self.rate,
            origin: self.origin,
            convention: self.convention.clone(),
            derived_from,
        }
    }
}

/// Copies a list of identities, each copy seen as the identity it copies.
fn clone_identities(ids: &Vec<YieldCurvePointIdentity>) -> (r: Vec<YieldCurvePointIdentity>)
    ensures
        spec_identity_views(r@) == spec_identity_views(ids@),
{
    let mut out: Vec<YieldCurvePointIdentity> = Vec::new();
    let mut i: usize = 0;
    while i < ids.len()
        invariant
            0 <= i <= ids@.len(),
            out@.len() == i,
            forall|j: int| 0 <= j < i ==> (#[trigger] out@[j])@ == ids@[j]@,
        decreases ids@.len() - i,
    {
        out.push(ids[i].clone());
        i = i + 1;
    }
    assert(spec_identity_views(out@) =~= spec_identity_views(ids@));
    out
}

/// The message for a derived point without inputs.
pub open spec fn spec_incomplete_derived_message() -> Seq<char> {
    "派生点必须声明至少一个输入身份（不完整派生必须拒绝）"@
}

/// The message for an official point with inputs.
pub open spec fn spec_official_with_inputs_message() -> Seq<char> {
    "官方点不得声明派生输入"@
}

/// The message for a NaN or infinite value.
pub open spec fn spec_non_finite_message() -> Seq<char> {
    "曲线取值不得为 NaN 或无穷（缺失须用具名原因表达）"@
}

/// The first impossible date among `dates`, as `Date::new` reports it.
pub open spec fn spec_dates_check(dates: Seq<Date>) -> Result<(), Seq<char>>
    decreases dates.len(),
{
    if dates.len() == 0 {
        Ok(())
    } else if !dates[0].spec_is_valid() {
        Err(spec_date_error(dates[0].year as int, dates[0].month as int, dates[0].day as int))
    } else {
        spec_dates_check(dates.drop_first())
    }
}

/// The valuation dates of a list of identities.
pub open spec fn spec_dates_of(ids: Seq<IdentityView>) -> Seq<Date> {
    ids.map_values(|id: IdentityView| id.valuation_date)
}

/// What `validate_curve_point` gives: `Ok`, or the kind and message of the
/// error, checked in this order: the valuation date, the inputs' dates, the
/// official / derived rule, the value's finiteness.
pub open spec fn spec_point_check(p: PointView) -> Result<(), (YieldCurveErrorKind, Seq<char>)> {
    let d = p.identity.valuation_date;
    if !d.spec_is_valid() {
        Err((YieldCurveErrorKind::Invalid, spec_date_error(d.year as int, d.month as int, d.day as int)))
    } else if p.derived_from is Some && spec_dates_check(spec_dates_of(p.derived_from->0)) is Err {
        Err((YieldCurveErrorKind::Invalid, spec_dates_check(spec_dates_of(p.derived_from->0))->Err_0))
    } else if p.origin == YieldCurvePointOrigin::Derived && (p.derived_from is None
        || p.derived_from->0.len() == 0) {
        Err((YieldCurveErrorKind::SemanticallyRejected, spec_incomplete_derived_message()))
    } else if p.origin == YieldCurvePointOrigin::Official && p.derived_from is Some {
        Err((YieldCurveErrorKind::SemanticallyRejected, spec_official_with_inputs_message()))
    } else if p.rate is Present && !spec_is_finite_bits(p.rate->Present_0) {
        Err((YieldCurveErrorKind::Invalid, spec_non_finite_message()))
    } else {
        Ok(())
    }
}

/// A point that passes every check.
pub open spec fn spec_point_ok(p: PointView) -> bool {
    spec_point_check(p) is Ok
}

/// Forgets the detail of an error result.
pub open spec fn spec_err_view(r: YieldCurveResult<()>) -> Result<(), (YieldCurveErrorKind, Seq<char>)> {
    match r {
        Ok(_) => Ok(()),
        Err(e) => Err(e@),
    }
}

impl YieldCurvePoint {
    /// Builds a curve point and checks it.
    ///
    /// # Errors
    ///
    /// As [`validate_curve_point`].
    pub fn new(
        identity: YieldCurvePointIdentity,
        rate: YieldCurveRate,
        origin: YieldCurvePointOrigin,
        convention: YieldCurveConvention,
        derived_from: Option<Vec<YieldCurvePointIdentity>>,
    ) -> (r: YieldCurveResult<Self>)
        ensures
            ({
                let p = YieldCurvePoint { identity, rate, origin, convention, derived_from };
                match r {
                    Ok(q) => q == p && spec_point_ok(p@),
                    Err(e) => spec_point_check(p@) == Err::<(), (YieldCurveErrorKind, Seq<char>)>(e@),
                }
            }),
    {
        let point = Self { identity, rate, origin, convention, derived_from };
        validate_curve_point(&point)?;
        Ok(point)
    }
}

/// Whether a binary64 encoding is a finite number.
fn is_finite_bits(bits: u64) -> (r: bool)
    ensures
        r == spec_is_finite_bits(bits),
{
    (bits >> 52u64) & 0x7ffu64 != 0x7ffu64
}

/// Checks that every input identity has a real calendar date.
fn check_input_dates(inputs: &Vec<YieldCurvePointIdentity>) -> (r: YieldCurveResult<()>)
    ensures
        match r {
            Ok(_) => spec_dates_check(spec_dates_of(spec_identity_views(inputs@))) is Ok,
            Err(e) => e@.0 == YieldCurveErrorKind::Invalid && spec_dates_check(
                spec_dates_of(spec_identity_views(inputs@)),
            ) == Err::<(), Seq<char>>(e@.1),
        },
{
    let ghost ds = spec_dates_of(spec_identity_views(inputs@));
    let mut i: usize = 0;
    assert(ds.skip(0) =~= ds);
    while i < inputs.len()
        invariant
            0 <= i <= inputs@.len(),
            ds == spec_dates_of(spec_identity_views(inputs@)),
            spec_dates_check(ds) == spec_dates_check(ds.skip(i as int)),
        decreases inputs@.len() - i,
    {
        let date = inputs[i].valuation_date;
        proof {
            assert(ds.skip(i as int)[0] == date);
            assert(ds.skip(i as int).drop_first() =~= ds.skip(i + 1));
        }
        match Date::new(date.year, date.month, date.day) {
            Ok(_) => {},
            Err(e) => {
                return Err(e);
            },
        }
        i = i + 1;
    }
    proof {
        assert(ds.skip(i as int).len() == 0);
    }
    Ok(())
}

/// Checks the internal consistency of a curve point.
///
/// # Errors
///
/// - a valuation date or an input's date that is not a real date: `Invalid`
/// - `Derived` without inputs, or with an empty list: `SemanticallyRejected`
/// - `Official` with inputs: `SemanticallyRejected`
/// - a value that is NaN or infinite: `Invalid`
pub fn validate_curve_point(point: &YieldCurvePoint) -> (r: YieldCurveResult<()>)
    ensures
        spec_err_view(r) == spec_point_check(point@),
{
    let date = point.identity.valuation_date;
    match Date::new(date.year, date.month, date.day) {
        Ok(_) => {},
        Err(e) => {
            return Err(e);
        },
    }
    if let Some(inputs) = &point.derived_from {
        check_input_dates(inputs)?;
    }
    match point.origin {
        YieldCurvePointOrigin::Derived => {
            let complete = match &point.derived_from {
                Some(inputs) => inputs.len() > 0,
                None => false,
            };
            if !complete {
                return Err(
                    YieldCurveError::SemanticallyRejected(
                        String::from_str("派生点必须声明至少一个输入身份（不完整派生必须拒绝）"),
                    ),
                );
            }
        },
        YieldCurvePointOrigin::Official => {
            if point.derived_from.is_some() {
                return Err(
                    YieldCurveError::SemanticallyRejected(String::from_str("官方点不得声明派生输入")),
                );
            }
        },
    }
    match point.rate {
        YieldCurveRate::Present(bits) => {
            if !is_finite_bits(bits) {
                return Err(
                    YieldCurveError::Invalid(
                        String::from_str("曲线取值不得为 NaN 或无穷（缺失须用具名原因表达）"),
                    ),
                );
            }
            Ok(())
        },
        _ => Ok(()),
    }
}

// ---------------------------------------------------------------------------
// Batch
// ---------------------------------------------------------------------------

/// The message for a repeated identity, found at 1-based position `pos`.
pub open spec fn spec_duplicate_message(pos: nat) -> Seq<char> {
    "批内重复身份出现在第 "@ + spec_dec(pos) + " 个点；canonical_key 在批内必须唯一（不得静默去重）"@
}

/// A list of points as plain values.
pub open spec fn spec_point_views(ps: Seq<YieldCurvePoint>) -> Seq<PointView> {
    ps.map_values(|p: YieldCurvePoint| p@)
}

/// Whether the identity of point `i` already occurs among the points before it.
pub open spec fn spec_repeats_earlier(ps: Seq<PointView>, i: int) -> bool {
    exists|j: int| 0 <= j < i && (#[trigger] ps[j]).identity == ps[i].identity
}

/// What checking the first `n` points of a batch gives: the first point that
/// fails its own check, or repeats an earlier identity, decides the error.
pub open spec fn spec_batch_check_upto(ps: Seq<PointView>, n: nat) -> Result<
    (),
    (YieldCurveErrorKind, Seq<char>),
>
    decreases n,
{
    if n == 0 {
        Ok(())
    } else {
        match spec_batch_check_upto(ps, (n - 1) as nat) {
            Err(e) => Err(e),
            Ok(_) => {
                if spec_point_check(ps[n - 1]) is Err {
                    spec_point_check(ps[n - 1])
                } else if spec_repeats_earlier(ps, n - 1) {
                    Err((YieldCurveErrorKind::SemanticallyRejected, spec_duplicate_message(n)))
                } else {
                    Ok(())
                }
            },
        }
    }
}

/// What `validate_curve_batch` gives for a list of points.
pub open spec fn spec_batch_check(ps: Seq<PointView>) -> Result<
    (),
    (YieldCurveErrorKind, Seq<char>),
> {
    spec_batch_check_upto(ps, ps.len())
}

/// Every point passes its own check and no two points share an identity.
pub open spec fn spec_batch_ok(ps: Seq<PointView>) -> bool {
    &&& forall|i: int| 0 <= i < ps.len() ==> spec_point_ok(#[trigger] ps[i])
    &&& forall|i: int, j: int|
        0 <= i < j < ps.len() ==> (#[trigger] ps[i]).identity != (#[trigger] ps[j]).identity
}

/// A batch check accepts a list exactly when every point is valid and all
/// identities are pairwise distinct: nothing valid is refused, and no
/// repeated identity slips through, wherever in the list it stands.
pub proof fn lemma_batch_check_accepts_exactly(ps: Seq<PointView>)
    ensures
        spec_batch_check(ps) is Ok <==> spec_batch_ok(ps),
{
    lemma_batch_check_upto(ps, ps.len());
    assert(ps.take(ps.len() as int) =~= ps);
}

/// Once the first `n` points fail, the whole list fails with that error.
pub proof fn lemma_batch_error_persists(ps: Seq<PointView>, n: nat, m: nat)
    requires
        n <= m,
        spec_batch_check_upto(ps, n) is Err,
    ensures
        spec_batch_check_upto(ps, m) == spec_batch_check_upto(ps, n),
    decreases m - n,
{
    if n < m {
        lemma_batch_error_persists(ps, n, (m - 1) as nat);
    }
}

proof fn lemma_batch_check_upto(ps: Seq<PointView>, n: nat)
    requires
        n <= ps.len(),
    ensures
        spec_batch_check_upto(ps, n) is Ok <==> spec_batch_ok(ps.take(n as int)),
    decreases n,
{
    if n > 0 {
        lemma_batch_check_upto(ps, (n - 1) as nat);
        let p = ps.take(n as int);
        let q = ps.take(n - 1);
        assert forall|i: int| 0 <= i < n - 1 implies q[i] == p[i] && p[i] == ps[i] by {}
        if spec_batch_check_upto(ps, n) is Ok {
            assert forall|i: int| 0 <= i < p.len() implies spec_point_ok(#[trigger] p[i]) by {
                if i < n - 1 {
                    assert(q[i] == p[i]);
                }
            }
            assert forall|i: int, j: int| 0 <= i < j < p.len() implies (#[trigger] p[i]).identity
                != (#[trigger] p[j]).identity by {
                if j < n - 1 {
                    assert(q[i] == p[i] && q[j] == p[j]);
                } else {
                    assert(p[i] == ps[i]);
                    assert(!spec_repeats_earlier(ps, n - 1));
                }
            }
        } else if spec_batch_ok(p) {
            assert(spec_batch_ok(q)) by {
                assert forall|i: int| 0 <= i < q.len() implies spec_point_ok(#[trigger] q[i]) by {
                    assert(q[i] == p[i]);
                }
                assert forall|i: int, j: int| 0 <= i < j < q.len() implies (#[trigger] q[i]).identity
                    != (#[trigger] q[j]).identity by {
                    assert(q[i] == p[i] && q[j] == p[j]);
                }
            }
            assert(spec_point_ok(p[n - 1]));
            if spec_repeats_earlier(ps, n - 1) {
                let j = choose|j: int| 0 <= j < n - 1 && (#[trigger] ps[j]).identity == ps[n
                    - 1].identity;
                assert(p[j] == ps[j] && p[n - 1] == ps[n - 1]);
            }
        }
    } else {
        assert(ps.take(0).len() == 0);
    }
}

/// Checks a batch of curve points (any candidate list, no batch needed).
///
/// Each point is checked on its own, and the canonical key must be unique
/// within the list. An empty list is accepted.
///
/// # Errors
///
/// `SemanticallyRejected` at the first repeated identity; the error of the
/// first point that fails its own check.
pub fn validate_curve_batch(points: &[YieldCurvePoint]) -> (r: YieldCurveResult<()>)
    ensures
        spec_err_view(r) == spec_batch_check(spec_point_views(points@)),
{
    let ghost pv = spec_point_views(points@);
    let mut seen: Vec<String> = Vec::new();
    let mut i: usize = 0;
    while i < points.len()
        invariant
            0 <= i <= points@.len(),
            seen@.len() == i,
            forall|j: int| 0 <= j < i ==> (#[trigger] seen@[j])@ == spec_canonical_key(points@[j].identity@),
            pv == spec_point_views(points@),
            spec_batch_check_upto(pv, i as nat) is Ok,
        decreases points@.len() - i,
    {
        let point = &points[i];
        let pos = i + 1;
        match validate_curve_point(point) {
            Ok(_) => {},
            Err(e) => {
                proof {
                    lemma_batch_error_persists(pv, pos as nat, points@.len());
                }
                return Err(e);
            },
        }
        let key = point.identity.canonical_key();
        let mut j: usize = 0;
        while j < seen.len()
            invariant
                0 <= j <= seen@.len(),
                seen@.len() == i,
                i < points@.len(),
                pos == i + 1,
                pv == spec_point_views(points@),
                spec_batch_check_upto(pv, i as nat) is Ok,
                spec_point_ok(points@[i as int]@),
                key@ == spec_canonical_key(points@[i as int].identity@),
                forall|k: int| 0 <= k < i ==> (#[trigger] seen@[k])@ == spec_canonical_key(points@[k].identity@),
                forall|k: int| 0 <= k < j ==> points@[k].identity@ != points@[i as int].identity@,
            decreases seen@.len() - j,
        {
            if str_eq(seen[j].as_str(), key.as_str()) {
                proof {
                    lemma_canonical_key_injective(points@[j as int].identity@, points@[i as int].identity@);
                    assert(pv[j as int].identity == pv[i as int].identity);
                    assert(spec_repeats_earlier(pv, i as int));
                    lemma_batch_error_persists(pv, pos as nat, points@.len());
                }
                return Err(
                    YieldCurveError::SemanticallyRejected(
                        message_with_count(
                            "批内重复身份出现在第 ",
                            pos,
                            " 个点；canonical_key 在批内必须唯一（不得静默去重）",
                        ),
                    ),
                );
            }
            proof {
                lemma_canonical_key_injective(points@[j as int].identity@, points@[i as int].identity@);
            }
            j = j + 1;
        }
        proof {
            assert(!spec_repeats_earlier(pv, i as int));
        }
        seen.push(key);
        i = i + 1;
    }
    Ok(())
}

/// The points of a batch: every point valid, no identity twice.
#[derive(Debug, PartialEq)]
struct UniquePoints {
    points: Vec<YieldCurvePoint>,
}

impl UniquePoints {
    /// Every point passes its own check and the identities are pairwise
    /// distinct.
    #[verifier::type_invariant]
    spec fn is_unique(self) -> bool {
        spec_batch_ok(spec_point_views(self.points@))
    }
}

/// Copies a list of points, each copy seen as the point it copies.
fn clone_points(points: &Vec<YieldCurvePoint>) -> (r: Vec<YieldCurvePoint>)
    ensures
        spec_point_views(r@) == spec_point_views(points@),
{
    let mut out: Vec<YieldCurvePoint> = Vec::new();
    let mut i: usize = 0;
    while i < points.len()
        invariant
            0 <= i <= points@.len(),
            out@.len() == i,
            forall|j: int| 0 <= j < i ==> (#[trigger] out@[j])@ == points@[j]@,
        decreases points@.len() - i,
    {
        out.push(points[i].clone());
        i = i + 1;
    }
    assert(spec_point_views(out@) =~= spec_point_views(points@));
    out
}

/// A batch of curve points whose identities are pairwise distinct.
///
/// The points are private: the only way in is [`YieldCurveBatch::new`],
/// which guarantees unique canonical keys, and every batch keeps that.
#[derive(Debug, PartialEq)]
pub struct YieldCurveBatch {
    points: UniquePoints,
    /// The batch's frequency.
    pub frequency: Frequency,
    /// The batch's source-side unit (kept, not converted).
    pub unit: Unit,
}

impl Clone for YieldCurveBatch {
    fn clone(&self) -> (r: Self)
        ensures
            spec_point_views(r.spec_points()) == spec_point_views(self.spec_points()),
            r.spec_frequency() == self.spec_frequency(),
            r.spec_unit() == self.spec_unit(),
    {
        proof {
            use_type_invariant(&self.points);
        }
        let points = clone_points(&self.points.points);
        YieldCurveBatch { points: UniquePoints { points }, frequency: self.frequency, unit: self.unit }
    }
}

impl YieldCurveBatch {
    /// The points of the batch, in order.
    pub closed spec fn spec_points(&self) -> Seq<YieldCurvePoint> {
        self.points.points@
    }

    /// The batch's frequency.
    pub closed spec fn spec_frequency(&self) -> Frequency {
        self.frequency
    }

    /// The batch's unit.
    pub closed spec fn spec_unit(&self) -> Unit {
        self.unit
    }

    /// What every batch built by [`YieldCurveBatch::new`] keeps: each point
    /// passes its own check and no two points share an identity.
    pub open spec fn spec_well_formed(&self) -> bool {
        spec_batch_ok(spec_point_views(self.spec_points()))
    }

    /// Builds a batch and checks it: every point valid, every identity
    /// distinct. The empty batch is accepted.
    ///
    /// # Errors
    ///
    /// As [`validate_curve_batch`].
    pub fn new(points: Vec<YieldCurvePoint>, frequency: Frequency, unit: Unit) -> (r: YieldCurveResult<Self>)
        ensures
            match r {
                Ok(b) => spec_batch_check(spec_point_views(points@)) is Ok && b.spec_points()
                    == points@ && b.spec_frequency() == frequency && b.spec_unit() == unit
                    && b.spec_well_formed(),
                Err(e) => spec_batch_check(spec_point_views(points@)) == Err::<
                    (),
                    (YieldCurveErrorKind, Seq<char>),
                >(e@),
            },
    {
        proof {
            lemma_batch_check_accepts_exactly(spec_point_views(points@));
        }
        match validate_curve_batch(points.as_slice()) {
            Ok(_) => {},
            Err(e) => {
                return Err(e);
            },
        }
        Ok(Self { points: UniquePoints { points }, frequency, unit })
    }

    /// All points of the batch, read-only, in insertion order; every point
    /// is valid and no identity occurs twice.
    pub fn points(&self) -> (r: &[YieldCurvePoint])
        ensures
            r@ == self.spec_points(),
            self.spec_well_formed(),
    {
        proof {
            use_type_invariant(&self.points);
        }
        self.points.points.as_slice()
    }

    /// The batch's frequency.
    pub fn frequency(&self) -> (r: Frequency)
        ensures
            r == self.spec_frequency(),
    {
        self.frequency
    }

    /// The batch's source-side unit.
    pub fn unit(&self) -> (r: Unit)
        ensures
            r == self.spec_unit(),
    {
        self.unit
    }

    /// The number of points.
    pub fn len(&self) -> (r: usize)
        ensures
            r == self.spec_points().len(),
    {
        self.points.points.len()
    }

    /// Whether the batch has no points.
    pub fn is_empty(&self) -> (r: bool)
        ensures
            r == (self.spec_points().len() == 0),
    {
        self.points.points.len() == 0
    }
}

} // verus!

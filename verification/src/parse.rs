//! Building a curve batch from a synthetic fixture document.
//!
//! The library has no live source: every input is a fixture on disk, so a
//! document must declare itself synthetic (`"_synthetic": true`), or it is
//! refused rather than taken for source fact. Failure is atomic: an unknown
//! token, a missing value or a broken rule refuses the whole document, and a
//! repeated identity is refused (never silently deduplicated).
//!
//! The JSON text itself is read into [`FixtureDocument`] by a JSON reader
//! outside this library; everything after that is decided here.
use vstd::prelude::*;

use crate::error::{YieldCurveError, YieldCurveErrorKind, YieldCurveResult};
use crate::text::{
    message_with_count, spec_byte_len, spec_dec, spec_is_blank, spec_is_token, spec_token_fault, str_eq,
    token_fault, TokenFault,
};
use crate::value::curve::{
    lemma_batch_check_accepts_exactly, lemma_batch_error_persists, spec_batch_check, spec_batch_ok, spec_identity_views, spec_point_check,
    spec_point_views, PointView,
};
use crate::value::identity::{spec_code_error, IdentityView};
use crate::value::tenor::{
    spec_convention_error, spec_kind_from_label, spec_tenor_from_label, spec_unknown_kind_message,
    spec_unknown_tenor_message,
};
use crate::value::{
    spec_parse_date, Date, Frequency, Unit, YieldCurveBatch, YieldCurveCode, YieldCurveConvention,
    YieldCurveKind, YieldCurveMissingReason, YieldCurvePoint, YieldCurvePointIdentity,
    YieldCurvePointOrigin, YieldCurveRate, YieldCurveTenor,
};

verus! {

/// A fixture document as read from JSON.
pub struct FixtureDocument {
    /// The `_synthetic` flag: the document declares itself a synthetic sample.
    pub synthetic: bool,
    /// The `_note`: a synthetic document must carry one that is not blank.
    pub note: Option<String>,
    /// The document kind; only `kernel_fixture` is accepted.
    pub kind: String,
    /// The frequency token.
    pub frequency: String,
    /// The unit token.
    pub unit: String,
    /// The points.
    pub points: Vec<FixturePoint>,
}

/// A curve point as read from a fixture.
pub struct FixturePoint {
    /// The source token.
    pub source: String,
    /// The series token.
    pub series: String,
    /// The currency token.
    pub currency: String,
    /// The valuation date text.
    pub valuation_date: String,
    /// The tenor label.
    pub maturity: String,
    /// The curve-kind label.
    pub curve_kind: String,
    /// The vintage token, if any.
    pub vintage: Option<String>,
    /// `rate_percent`, as the binary64 encoding of the JSON number.
    pub rate_percent: Option<u64>,
    /// The missing-reason token, if any.
    pub missing_reason: Option<String>,
    /// The origin token.
    pub origin: String,
    /// The convention token.
    pub convention: String,
    /// The input identities (an empty list when none are given).
    pub derived_from: Vec<FixtureIdentity>,
}

/// An input identity as read from a fixture.
pub struct FixtureIdentity {
    /// The source token.
    pub source: String,
    /// The series token.
    pub series: String,
    /// The currency token.
    pub currency: String,
    /// The valuation date text.
    pub valuation_date: String,
    /// The tenor label.
    pub maturity: String,
    /// The curve-kind label.
    pub curve_kind: String,
    /// The vintage token, if any.
    pub vintage: Option<String>,
}

/// The view of an optional string.
pub open spec fn spec_opt_view(s: Option<String>) -> Option<Seq<char>> {
    match s {
        Some(v) => Some(v@),
        None => None,
    }
}

// ---------------------------------------------------------------------------
// Tokens
// ---------------------------------------------------------------------------

/// The frequency that a token names, if any.
pub open spec fn spec_frequency_from(s: Seq<char>) -> Option<Frequency> {
    if s == "daily"@ {
        Some(Frequency::Daily)
    } else if s == "weekly"@ {
        Some(Frequency::Weekly)
    } else if s == "monthly"@ {
        Some(Frequency::Monthly)
    } else if s == "quarterly"@ {
        Some(Frequency::Quarterly)
    } else if s == "annual"@ {
        Some(Frequency::Annual)
    } else if s == "event"@ {
        Some(Frequency::Event)
    } else if s == "irregular"@ {
        Some(Frequency::Irregular)
    } else {
        None
    }
}

/// The message for an unknown frequency token of `n` bytes.
pub open spec fn spec_unknown_frequency_message(n: nat) -> Seq<char> {
    "未知的频率令牌（长度 "@ + spec_dec(n) + "）"@
}

/// Reads a frequency token.
pub(crate) fn parse_frequency(token: &str) -> (r: YieldCurveResult<Frequency>)
    ensures
        match r {
            Ok(f) => spec_frequency_from(token@) == Some(f),
            Err(e) => spec_frequency_from(token@) is None && e@ == (
                YieldCurveErrorKind::SemanticallyRejected,
                spec_unknown_frequency_message(spec_byte_len(token@)),
            ),
        },
{
    if str_eq(token, "daily") {
        Ok(Frequency::Daily)
    } else if str_eq(token, "weekly") {
        Ok(Frequency::Weekly)
    } else if str_eq(token, "monthly") {
        Ok(Frequency::Monthly)
    } else if str_eq(token, "quarterly") {
        Ok(Frequency::Quarterly)
    } else if str_eq(token, "annual") {
        Ok(Frequency::Annual)
    } else if str_eq(token, "event") {
        Ok(Frequency::Event)
    } else if str_eq(token, "irregular") {
        Ok(Frequency::Irregular)
    } else {
        Err(
            YieldCurveError::SemanticallyRejected(
                message_with_count("未知的频率令牌（长度 ", token.as_bytes().len(), "）"),
            ),
        )
    }
}

/// The unit that a token names, if any.
pub open spec fn spec_unit_from(s: Seq<char>) -> Option<Unit> {
    if s == "percent"@ {
        Some(Unit::Percent)
    } else if s == "bp"@ {
        Some(Unit::BasisPoint)
    } else if s == "undeclared"@ {
        Some(Unit::Undeclared)
    } else {
        None
    }
}

/// Every unit has its own token and no two tokens name the same unit: the
/// reading of unit tokens loses no unit and confuses none (basis points are
/// never read as percent).
pub proof fn lemma_unit_tokens_name_distinct_units(a: Seq<char>, b: Seq<char>, u: Unit)
    ensures
        spec_unit_from(a) is Some && spec_unit_from(a) == spec_unit_from(b) ==> a == b,
        exists|t: Seq<char>| spec_unit_from(t) == Some(u),
{
    match u {
        Unit::Percent => assert(spec_unit_from("percent"@) == Some(u)),
        Unit::BasisPoint => {
            reveal_strlit("percent");
            reveal_strlit("bp");
            assert("percent"@.len() != "bp"@.len());
            assert(spec_unit_from("bp"@) == Some(u));
        },
        Unit::Undeclared => {
            reveal_strlit("percent");
            reveal_strlit("bp");
            reveal_strlit("undeclared");
            assert("percent"@.len() != "undeclared"@.len());
            assert("bp"@.len() != "undeclared"@.len());
            assert(spec_unit_from("undeclared"@) == Some(u));
        },
    }
}

/// Every frequency has its own token and no two tokens name the same
/// frequency: a weekly series is never read as daily, nor any other
/// frequency as another.
pub proof fn lemma_frequency_tokens_name_distinct_frequencies(a: Seq<char>, b: Seq<char>, f: Frequency)
    ensures
        spec_frequency_from(a) is Some && spec_frequency_from(a) == spec_frequency_from(b) ==> a == b,
        exists|t: Seq<char>| spec_frequency_from(t) == Some(f),
{
    reveal_strlit("daily");
    reveal_strlit("weekly");
    reveal_strlit("monthly");
    reveal_strlit("quarterly");
    reveal_strlit("annual");
    reveal_strlit("event");
    reveal_strlit("irregular");
    let d = "daily"@;
    let w = "weekly"@;
    let m = "monthly"@;
    let q = "quarterly"@;
    let y = "annual"@;
    let e = "event"@;
    let i = "irregular"@;
    assert(d[0] != w[0] && d[0] != m[0] && d[0] != q[0] && d[0] != y[0] && d[0] != e[0] && d[0] != i[0]);
    assert(w[0] != m[0] && w[0] != q[0] && w[0] != y[0] && w[0] != e[0] && w[0] != i[0]);
    assert(m[0] != q[0] && m[0] != y[0] && m[0] != e[0] && m[0] != i[0]);
    assert(q[0] != y[0] && q[0] != e[0] && q[0] != i[0]);
    assert(y[0] != e[0] && y[0] != i[0]);
    assert(e[0] != i[0]);
    match f {
        Frequency::Daily => assert(spec_frequency_from(d) == Some(f)),
        Frequency::Weekly => assert(spec_frequency_from(w) == Some(f)),
        Frequency::Monthly => assert(spec_frequency_from(m) == Some(f)),
        Frequency::Quarterly => assert(spec_frequency_from(q) == Some(f)),
        Frequency::Annual => assert(spec_frequency_from(y) == Some(f)),
        Frequency::Event => assert(spec_frequency_from(e) == Some(f)),
        Frequency::Irregular => assert(spec_frequency_from(i) == Some(f)),
    }
}

/// The message for an unknown unit token of `n` bytes.
pub open spec fn spec_unknown_unit_message(n: nat) -> Seq<char> {
    "未知的单位令牌（长度 "@ + spec_dec(n) + "）；不得静默假定单位"@
}

/// Reads a unit token (a unit is never assumed silently).
pub(crate) fn parse_unit(token: &str) -> (r: YieldCurveResult<Unit>)
    ensures
        match r {
            Ok(u) => spec_unit_from(token@) == Some(u),
            Err(e) => spec_unit_from(token@) is None && e@ == (
                YieldCurveErrorKind::SemanticallyRejected,
                spec_unknown_unit_message(spec_byte_len(token@)),
            ),
        },
{
    if str_eq(token, "percent") {
        Ok(Unit::Percent)
    } else if str_eq(token, "bp") {
        Ok(Unit::BasisPoint)
    } else if str_eq(token, "undeclared") {
        Ok(Unit::Undeclared)
    } else {
        Err(
            YieldCurveError::SemanticallyRejected(
                message_with_count("未知的单位令牌（长度 ", token.as_bytes().len(), "）；不得静默假定单位"),
            ),
        )
    }
}

/// The missing reason that a token names, if any.
pub open spec fn spec_missing_reason_from(s: Seq<char>) -> Option<YieldCurveMissingReason> {
    if s == "source_blank"@ {
        Some(YieldCurveMissingReason::SourceBlank)
    } else if s == "not_published_yet"@ {
        Some(YieldCurveMissingReason::NotPublishedYet)
    } else if s == "not_applicable"@ {
        Some(YieldCurveMissingReason::NotApplicable)
    } else {
        None
    }
}

/// The message for an unknown missing-reason token of `n` bytes.
pub open spec fn spec_unknown_reason_message(n: nat) -> Seq<char> {
    "未知的 missing_reason 令牌（长度 "@ + spec_dec(n) + "）"@
}

/// Reads a missing-reason token.
pub(crate) fn parse_missing_reason(token: &str) -> (r: YieldCurveResult<YieldCurveMissingReason>)
    ensures
        match r {
            Ok(m) => spec_missing_reason_from(token@) == Some(m),
            Err(e) => spec_missing_reason_from(token@) is None && e@ == (
                YieldCurveErrorKind::SemanticallyRejected,
                spec_unknown_reason_message(spec_byte_len(token@)),
            ),
        },
{
    if str_eq(token, "source_blank") {
        Ok(YieldCurveMissingReason::SourceBlank)
    } else if str_eq(token, "not_published_yet") {
        Ok(YieldCurveMissingReason::NotPublishedYet)
    } else if str_eq(token, "not_applicable") {
        Ok(YieldCurveMissingReason::NotApplicable)
    } else {
        Err(
            YieldCurveError::SemanticallyRejected(
                message_with_count("未知的 missing_reason 令牌（长度 ", token.as_bytes().len(), "）"),
            ),
        )
    }
}

/// The origin that a token names, if any.
pub open spec fn spec_origin_from(s: Seq<char>) -> Option<YieldCurvePointOrigin> {
    if s == "official"@ {
        Some(YieldCurvePointOrigin::Official)
    } else if s == "derived"@ {
        Some(YieldCurvePointOrigin::Derived)
    } else {
        None
    }
}

/// The message for an unknown origin token of `n` bytes.
pub open spec fn spec_unknown_origin_message(n: nat) -> Seq<char> {
    "未知的 origin 令牌（长度 "@ + spec_dec(n) + "）"@
}

// ---------------------------------------------------------------------------
// Identities
// ---------------------------------------------------------------------------

/// What building an identity from its seven texts gives: the identity, or
/// the error of the first part that does not read, in field order.
pub open spec fn spec_identity_result(
    source: Seq<char>,
    series: Seq<char>,
    currency: Seq<char>,
    valuation_date: Seq<char>,
    maturity: Seq<char>,
    curve_kind: Seq<char>,
    vintage: Option<Seq<char>>,
) -> Result<IdentityView, (YieldCurveErrorKind, Seq<char>)> {
    if spec_token_fault(source) is Some {
        Err(spec_code_error(spec_token_fault(source)->0))
    } else if spec_token_fault(series) is Some {
        Err(spec_code_error(spec_token_fault(series)->0))
    } else if spec_token_fault(currency) is Some {
        Err(spec_code_error(spec_token_fault(currency)->0))
    } else if spec_parse_date(vstd::utf8::encode_utf8(valuation_date)) is Err {
        Err(
            (
                YieldCurveErrorKind::Invalid,
                spec_parse_date(vstd::utf8::encode_utf8(valuation_date))->Err_0,
            ),
        )
    } else if spec_tenor_from_label(maturity) is None {
        Err(
            (
                YieldCurveErrorKind::SemanticallyRejected,
                spec_unknown_tenor_message(spec_byte_len(maturity)),
            ),
        )
    } else if spec_kind_from_label(curve_kind) is None {
        Err(
            (
                YieldCurveErrorKind::SemanticallyRejected,
                spec_unknown_kind_message(spec_byte_len(curve_kind)),
            ),
        )
    } else if vintage is Some && spec_token_fault(vintage->0) is Some {
        Err(spec_code_error(spec_token_fault(vintage->0)->0))
    } else {
        Ok(
            IdentityView {
                source,
                series,
                currency,
                valuation_date: spec_parse_date(vstd::utf8::encode_utf8(valuation_date))->Ok_0,
                maturity: spec_tenor_from_label(maturity)->0,
                curve_kind: spec_kind_from_label(curve_kind)->0,
                vintage,
            },
        )
    }
}

/// What building an input identity of a fixture gives.
pub open spec fn spec_fixture_identity(f: FixtureIdentity) -> Result<
    IdentityView,
    (YieldCurveErrorKind, Seq<char>),
> {
    spec_identity_result(
        f.source@,
        f.series@,
        f.currency@,
        f.valuation_date@,
        f.maturity@,
        f.curve_kind@,
        spec_opt_view(f.vintage),
    )
}

/// Builds an identity from its seven texts.
pub(crate) fn build_identity(
    source: &str,
    series: &str,
    currency: &str,
    valuation_date: &str,
    maturity: &str,
    curve_kind: &str,
    vintage: Option<&str>,
) -> (r: YieldCurveResult<YieldCurvePointIdentity>)
    ensures
        ({
            let v = match vintage {
                Some(t) => Some(t@),
                None => None,
            };
            match r {
                Ok(id) => spec_identity_result(
                    source@,
                    series@,
                    currency@,
                    valuation_date@,
                    maturity@,
                    curve_kind@,
                    v,
                ) == Ok::<IdentityView, (YieldCurveErrorKind, Seq<char>)>(id@),
                Err(e) => spec_identity_result(
                    source@,
                    series@,
                    currency@,
                    valuation_date@,
                    maturity@,
                    curve_kind@,
                    v,
                ) == Err::<IdentityView, (YieldCurveErrorKind, Seq<char>)>(e@),
            }
        }),
{
    let source = YieldCurveCode::new(source)?;
    let series = YieldCurveCode::new(series)?;
    let currency = YieldCurveCode::new(currency)?;
    let valuation_date = Date::parse(valuation_date)?;
    let maturity = YieldCurveTenor::parse(maturity)?;
    let curve_kind = YieldCurveKind::parse(curve_kind)?;
    let vintage = match vintage {
        Some(value) => Some(YieldCurveCode::new(value)?),
        None => None,
    };
    Ok(YieldCurvePointIdentity { source, series, currency, valuation_date, maturity, curve_kind, vintage })
}

/// What building the first `n` input identities gives: the identities, or
/// the error of the first one that does not read.
pub open spec fn spec_inputs_upto(ids: Seq<FixtureIdentity>, n: nat) -> Result<
    Seq<IdentityView>,
    (YieldCurveErrorKind, Seq<char>),
>
    decreases n,
{
    if n == 0 {
        Ok(Seq::empty())
    } else {
        match spec_inputs_upto(ids, (n - 1) as nat) {
            Err(e) => Err(e),
            Ok(vs) => match spec_fixture_identity(ids[n - 1]) {
                Err(e) => Err(e),
                Ok(v) => Ok(vs.push(v)),
            },
        }
    }
}

proof fn lemma_inputs_error_persists(ids: Seq<FixtureIdentity>, n: nat, m: nat)
    requires
        n <= m,
        spec_inputs_upto(ids, n) is Err,
    ensures
        spec_inputs_upto(ids, m) == spec_inputs_upto(ids, n),
    decreases m - n,
{
    if n < m {
        lemma_inputs_error_persists(ids, n, (m - 1) as nat);
    }
}

/// Builds every input identity of a fixture point, in order.
fn build_inputs(inputs: &Vec<FixtureIdentity>) -> (r: YieldCurveResult<Vec<YieldCurvePointIdentity>>)
    ensures
        match r {
            Ok(v) => spec_inputs_upto(inputs@, inputs@.len()) == Ok::<
                Seq<IdentityView>,
                (YieldCurveErrorKind, Seq<char>),
            >(spec_identity_views(v@)),
            Err(e) => spec_inputs_upto(inputs@, inputs@.len()) == Err::<
                Seq<IdentityView>,
                (YieldCurveErrorKind, Seq<char>),
            >(e@),
        },
{
    let mut built: Vec<YieldCurvePointIdentity> = Vec::new();
    let mut i: usize = 0;
    assert(spec_identity_views(built@) =~= Seq::<IdentityView>::empty());
    while i < inputs.len()
        invariant
            0 <= i <= inputs@.len(),
            spec_inputs_upto(inputs@, i as nat) == Ok::<
                Seq<IdentityView>,
                (YieldCurveErrorKind, Seq<char>),
            >(spec_identity_views(built@)),
        decreases inputs@.len() - i,
    {
        let input = &inputs[i];
        let vintage = match &input.vintage {
            Some(v) => Some(v.as_str()),
            None => None,
        };
        match build_identity(
            input.source.as_str(),
            input.series.as_str(),
            input.currency.as_str(),
            input.valuation_date.as_str(),
            input.maturity.as_str(),
            input.curve_kind.as_str(),
            vintage,
        ) {
            Ok(id) => {
                let ghost before = built@;
                built.push(id);
                proof {
                    assert(spec_identity_views(built@) =~= spec_identity_views(before).push(id@));
                }
            },
            Err(e) => {
                proof {
                    lemma_inputs_error_persists(inputs@, (i + 1) as nat, inputs@.len());
                }
                return Err(e);
            },
        }
        i = i + 1;
    }
    Ok(built)
}

/// What reading a fixture point's value gives.
pub open spec fn spec_rate_result(rate: Option<u64>, reason: Option<Seq<char>>) -> Result<
    YieldCurveRate,
    (YieldCurveErrorKind, Seq<char>),
> {
    match (rate, reason) {
        (Some(_), Some(_)) => Err(
            (
                YieldCurveErrorKind::SemanticallyRejected,
                "rate_percent 与 missing_reason 不得同时给出（取值歧义）"@,
            ),
        ),
        (None, None) => Err(
            (YieldCurveErrorKind::Missing, "rate_percent 与 missing_reason 必须恰有其一"@),
        ),
        (Some(bits), None) => Ok(YieldCurveRate::Present(bits)),
        (None, Some(r)) => match spec_missing_reason_from(r) {
            Some(m) => Ok(YieldCurveRate::Missing(m)),
            None => Err(
                (
                    YieldCurveErrorKind::SemanticallyRejected,
                    spec_unknown_reason_message(spec_byte_len(r)),
                ),
            ),
        },
    }
}

/// The input identities that a fixture point declares: none for an empty
/// list, else the built list (when it reads).
pub open spec fn spec_fixture_inputs(f: FixturePoint) -> Option<Seq<IdentityView>> {
    if f.derived_from@.len() == 0 {
        None
    } else {
        Some(spec_inputs_upto(f.derived_from@, f.derived_from@.len())->Ok_0)
    }
}

/// What building a fixture point gives: the point, or the first error in
/// the order identity, value, origin, inputs, convention, point check.
#[verifier::opaque]
pub open spec fn spec_point_result(f: FixturePoint) -> Result<PointView, (YieldCurveErrorKind, Seq<char>)> {
    let id = spec_identity_result(
        f.source@,
        f.series@,
        f.currency@,
        f.valuation_date@,
        f.maturity@,
        f.curve_kind@,
        spec_opt_view(f.vintage),
    );
    let rate = spec_rate_result(f.rate_percent, spec_opt_view(f.missing_reason));
    let inputs = spec_inputs_upto(f.derived_from@, f.derived_from@.len());
    if id is Err {
        Err(id->Err_0)
    } else if rate is Err {
        Err(rate->Err_0)
    } else if spec_origin_from(f.origin@) is None {
        Err(
            (
                YieldCurveErrorKind::SemanticallyRejected,
                spec_unknown_origin_message(spec_byte_len(f.origin@)),
            ),
        )
    } else if f.derived_from@.len() > 0 && inputs is Err {
        Err(inputs->Err_0)
    } else if spec_token_fault(f.convention@) is Some {
        Err(spec_convention_error(spec_token_fault(f.convention@)->0))
    } else {
        let p = PointView {
            identity: id->Ok_0,
            rate: rate->Ok_0,
            origin: spec_origin_from(f.origin@)->0,
            convention: f.convention@,
            derived_from: spec_fixture_inputs(f),
        };
        match spec_point_check(p) {
            Ok(_) => Ok(p),
            Err(e) => Err(e),
        }
    }
}

/// Builds a curve point from a fixture point.
pub(crate) fn build_point(point: &FixturePoint) -> (r: YieldCurveResult<YieldCurvePoint>)
    ensures
        match r {
            Ok(p) => spec_point_result(*point) == Ok::<PointView, (YieldCurveErrorKind, Seq<char>)>(
                p@,
            ),
            Err(e) => spec_point_result(*point) == Err::<
                PointView,
                (YieldCurveErrorKind, Seq<char>),
            >(e@),
        },
{
    reveal(spec_point_result);
    let vintage = match &point.vintage {
        Some(v) => Some(v.as_str()),
        None => None,
    };
    let identity = build_identity(
        point.source.as_str(),
        point.series.as_str(),
        point.currency.as_str(),
        point.valuation_date.as_str(),
        point.maturity.as_str(),
        point.curve_kind.as_str(),
        vintage,
    )?;
    let rate = match (point.rate_percent, &point.missing_reason) {
        (Some(_), Some(_)) => {
            return Err(
                YieldCurveError::SemanticallyRejected(
                    String::from_str("rate_percent 与 missing_reason 不得同时给出（取值歧义）"),
                ),
            );
        },
        (None, None) => {
            return Err(
                YieldCurveError::Missing(String::from_str("rate_percent 与 missing_reason 必须恰有其一")),
            );
        },
        (Some(bits), None) => YieldCurveRate::Present(bits),
        (None, Some(reason)) => YieldCurveRate::Missing(parse_missing_reason(reason.as_str())?),
    };
    let origin = if str_eq(point.origin.as_str(), "official") {
        YieldCurvePointOrigin::Official
    } else if str_eq(point.origin.as_str(), "derived") {
        YieldCurvePointOrigin::Derived
    } else {
        return Err(
            YieldCurveError::SemanticallyRejected(
                message_with_count("未知的 origin 令牌（长度 ", point.origin.as_str().as_bytes().len(), "）"),
            ),
        );
    };
    let derived_from = if point.derived_from.len() == 0 {
        None
    } else {
        Some(build_inputs(&point.derived_from)?)
    };
    let convention = YieldCurveConvention::new(point.convention.as_str())?;
    YieldCurvePoint::new(identity, rate, origin, convention, derived_from)
}

// ---------------------------------------------------------------------------
// Documents
// ---------------------------------------------------------------------------

/// What building the first `n` points of a document gives.
pub open spec fn spec_points_upto(fs: Seq<FixturePoint>, n: nat) -> Result<
    Seq<PointView>,
    (YieldCurveErrorKind, Seq<char>),
>
    decreases n,
{
    if n == 0 {
        Ok(Seq::empty())
    } else {
        match spec_points_upto(fs, (n - 1) as nat) {
            Err(e) => Err(e),
            Ok(vs) => match spec_point_result(fs[n - 1]) {
                Err(e) => Err(e),
                Ok(v) => Ok(vs.push(v)),
            },
        }
    }
}

proof fn lemma_points_error_persists(fs: Seq<FixturePoint>, n: nat, m: nat)
    requires
        n <= m,
        spec_points_upto(fs, n) is Err,
    ensures
        spec_points_upto(fs, m) == spec_points_upto(fs, n),
    decreases m - n,
{
    if n < m {
        lemma_points_error_persists(fs, n, (m - 1) as nat);
    }
}

/// The message for a document that does not declare itself synthetic.
pub open spec fn spec_unmarked_message() -> Seq<char> {
    "夹具必须显式标注 \"_synthetic\": true；未标注来源的输入不得当作源事实"@
}

/// The message for a document without a note, or with a blank one.
pub open spec fn spec_note_message() -> Seq<char> {
    "合成夹具必须携带非空白 \"_note\" 说明；缺失、null 或空白均拒绝"@
}

/// Whether a document carries a note that is not blank (absent, null and
/// whitespace-only notes are refused).
pub open spec fn spec_note_ok(note: Option<String>) -> bool {
    match note {
        Some(n) => !spec_is_blank(n@),
        None => false,
    }
}

/// Whether the note is present and not blank.
fn note_ok(note: &Option<String>) -> (r: bool)
    ensures
        r == spec_note_ok(*note),
{
    match note {
        Some(n) => match token_fault(n.as_str()) {
            Some(TokenFault::Blank) => false,
            _ => true,
        },
        None => false,
    }
}

/// The message for a document of another kind, whose kind is `n` bytes long.
pub open spec fn spec_wrong_kind_message(n: nat) -> Seq<char> {
    "文档类型须为 kernel_fixture（实际长度 "@ + spec_dec(n) + "）"@
}

/// What building a batch from a fixture document gives: the points, the
/// frequency and the unit, or the first error in the order synthetic flag,
/// note, document kind, frequency, unit, points, batch check.
pub open spec fn spec_document_result(d: FixtureDocument) -> Result<
    (Seq<PointView>, Frequency, Unit),
    (YieldCurveErrorKind, Seq<char>),
> {
    let pts = spec_points_upto(d.points@, d.points@.len());
    if !d.synthetic {
        Err((YieldCurveErrorKind::SemanticallyRejected, spec_unmarked_message()))
    } else if !spec_note_ok(d.note) {
        Err((YieldCurveErrorKind::SemanticallyRejected, spec_note_message()))
    } else if d.kind@ != "kernel_fixture"@ {
        Err(
            (
                YieldCurveErrorKind::SemanticallyRejected,
                spec_wrong_kind_message(spec_byte_len(d.kind@)),
            ),
        )
    } else if spec_frequency_from(d.frequency@) is None {
        Err(
            (
                YieldCurveErrorKind::SemanticallyRejected,
                spec_unknown_frequency_message(spec_byte_len(d.frequency@)),
            ),
        )
    } else if spec_unit_from(d.unit@) is None {
        Err(
            (
                YieldCurveErrorKind::SemanticallyRejected,
                spec_unknown_unit_message(spec_byte_len(d.unit@)),
            ),
        )
    } else if pts is Err {
        Err(pts->Err_0)
    } else if spec_batch_check(pts->Ok_0) is Err {
        Err(spec_batch_check(pts->Ok_0)->Err_0)
    } else {
        Ok((pts->Ok_0, spec_frequency_from(d.frequency@)->0, spec_unit_from(d.unit@)->0))
    }
}


// ---------------------------------------------------------------------------
// What is accepted, stated directly
// ---------------------------------------------------------------------------

/// The seven texts of an identity are accepted: three valid tokens, a real
/// ISO date, a known tenor label, a known curve-kind label, and a vintage
/// that is absent or a valid token.
pub open spec fn spec_identity_accepts(
    source: Seq<char>,
    series: Seq<char>,
    currency: Seq<char>,
    valuation_date: Seq<char>,
    maturity: Seq<char>,
    curve_kind: Seq<char>,
    vintage: Option<Seq<char>>,
) -> bool {
    &&& spec_is_token(source)
    &&& spec_is_token(series)
    &&& spec_is_token(currency)
    &&& spec_parse_date(vstd::utf8::encode_utf8(valuation_date)) is Ok
    &&& spec_tenor_from_label(maturity) is Some
    &&& spec_kind_from_label(curve_kind) is Some
    &&& (vintage is None || spec_is_token(vintage->0))
}

/// An identity is built exactly when its texts are accepted, and then it
/// holds the tokens as given, the parsed date and the named tenor and kind.
pub proof fn lemma_identity_accepts_exactly(
    source: Seq<char>,
    series: Seq<char>,
    currency: Seq<char>,
    valuation_date: Seq<char>,
    maturity: Seq<char>,
    curve_kind: Seq<char>,
    vintage: Option<Seq<char>>,
)
    ensures
        spec_identity_result(source, series, currency, valuation_date, maturity, curve_kind, vintage)
            is Ok <==> spec_identity_accepts(
            source,
            series,
            currency,
            valuation_date,
            maturity,
            curve_kind,
            vintage,
        ),
        spec_identity_accepts(source, series, currency, valuation_date, maturity, curve_kind, vintage)
            ==> spec_identity_result(
            source,
            series,
            currency,
            valuation_date,
            maturity,
            curve_kind,
            vintage,
        ) == Ok::<IdentityView, (YieldCurveErrorKind, Seq<char>)>(
            IdentityView {
                source,
                series,
                currency,
                valuation_date: spec_parse_date(vstd::utf8::encode_utf8(valuation_date))->Ok_0,
                maturity: spec_tenor_from_label(maturity)->0,
                curve_kind: spec_kind_from_label(curve_kind)->0,
                vintage,
            },
        ),
{
}

/// The identities that a list of fixture identities builds, one for one.
pub open spec fn spec_built_identities(ids: Seq<FixtureIdentity>) -> Seq<IdentityView> {
    Seq::new(ids.len(), |i: int| spec_fixture_identity(ids[i])->Ok_0)
}

/// The first `n` input identities build exactly when each of them builds,
/// and then they give the identities one for one, in order.
pub proof fn lemma_inputs_accept_exactly(ids: Seq<FixtureIdentity>, n: nat)
    requires
        n <= ids.len(),
    ensures
        spec_inputs_upto(ids, n) is Ok <==> (forall|i: int|
            0 <= i < n ==> #[trigger] spec_fixture_identity(ids[i]) is Ok),
        spec_inputs_upto(ids, n) is Ok ==> spec_inputs_upto(ids, n)->Ok_0 == spec_built_identities(
            ids,
        ).take(n as int),
    decreases n,
{
    if n > 0 {
        lemma_inputs_accept_exactly(ids, (n - 1) as nat);
        if spec_inputs_upto(ids, n) is Ok {
            assert(spec_inputs_upto(ids, n)->Ok_0 =~= spec_built_identities(ids).take(n as int));
        }
        if !(spec_inputs_upto(ids, (n - 1) as nat) is Ok) {
            let k = choose|i: int| 0 <= i < n - 1 && !(#[trigger] spec_fixture_identity(ids[i]) is Ok);
            assert(0 <= k < n && !(spec_fixture_identity(ids[k]) is Ok));
        }
    } else {
        assert(spec_built_identities(ids).take(0) =~= Seq::<IdentityView>::empty());
    }
}

/// A value reads exactly when one of a number and a known missing reason is
/// given.
proof fn lemma_rate_accepts_exactly(rate: Option<u64>, reason: Option<String>)
    ensures
        spec_rate_result(rate, spec_opt_view(reason)) is Ok <==> ((rate is Some) != (reason is Some)
            && (reason is Some ==> spec_missing_reason_from(reason->0@) is Some)),
{
}

/// The point that a fixture point stands for once each of its parts reads.
pub open spec fn spec_built_point(f: FixturePoint) -> PointView {
    PointView {
        identity: spec_identity_result(
            f.source@,
            f.series@,
            f.currency@,
            f.valuation_date@,
            f.maturity@,
            f.curve_kind@,
            spec_opt_view(f.vintage),
        )->Ok_0,
        rate: spec_rate_result(f.rate_percent, spec_opt_view(f.missing_reason))->Ok_0,
        origin: spec_origin_from(f.origin@)->0,
        convention: f.convention@,
        derived_from: if f.derived_from@.len() == 0 {
            None
        } else {
            Some(spec_built_identities(f.derived_from@))
        },
    }
}

/// A fixture point is accepted: its identity reads, exactly one of a number
/// and a known missing reason is given, the origin is `official` or
/// `derived`, every input identity reads, the convention is a valid token,
/// and the point it stands for passes the point check.
pub open spec fn spec_point_accepts(f: FixturePoint) -> bool {
    &&& spec_identity_accepts(
        f.source@,
        f.series@,
        f.currency@,
        f.valuation_date@,
        f.maturity@,
        f.curve_kind@,
        spec_opt_view(f.vintage),
    )
    &&& (f.rate_percent is Some) != (f.missing_reason is Some)
    &&& (f.missing_reason is Some ==> spec_missing_reason_from(f.missing_reason->0@) is Some)
    &&& spec_origin_from(f.origin@) is Some
    &&& forall|i: int|
        0 <= i < f.derived_from@.len() ==> #[trigger] spec_fixture_identity(f.derived_from@[i]) is Ok
    &&& spec_is_token(f.convention@)
    &&& spec_point_check(spec_built_point(f)) is Ok
}

/// A fixture point builds exactly when it is accepted, and then it gives the
/// point it stands for (no inputs for an empty list, else all of them in
/// order).
pub proof fn lemma_point_accepts_exactly(f: FixturePoint)
    ensures
        spec_point_result(f) is Ok <==> spec_point_accepts(f),
        spec_point_accepts(f) ==> spec_point_result(f) == Ok::<
            PointView,
            (YieldCurveErrorKind, Seq<char>),
        >(spec_built_point(f)),
{
    reveal(spec_point_result);
    let ids = f.derived_from@;
    lemma_rate_accepts_exactly(f.rate_percent, f.missing_reason);
    lemma_identity_accepts_exactly(
        f.source@,
        f.series@,
        f.currency@,
        f.valuation_date@,
        f.maturity@,
        f.curve_kind@,
        spec_opt_view(f.vintage),
    );
    lemma_inputs_accept_exactly(ids, ids.len());
    assert(spec_built_identities(ids).take(ids.len() as int) =~= spec_built_identities(ids));
    if spec_inputs_upto(ids, ids.len()) is Ok {
        assert(spec_fixture_inputs(f) == spec_built_point(f).derived_from);
    }
}

/// The points that a list of fixture points builds, one for one.
pub open spec fn spec_built_points(fs: Seq<FixturePoint>) -> Seq<PointView> {
    Seq::new(fs.len(), |i: int| spec_built_point(fs[i]))
}

/// The first `n` points build exactly when each of them is accepted, and
/// then they give the points they stand for, in order.
pub proof fn lemma_points_accept_exactly(fs: Seq<FixturePoint>, n: nat)
    requires
        n <= fs.len(),
    ensures
        spec_points_upto(fs, n) is Ok <==> (forall|i: int|
            0 <= i < n ==> #[trigger] spec_point_accepts(fs[i])),
        spec_points_upto(fs, n) is Ok ==> spec_points_upto(fs, n)->Ok_0 == spec_built_points(
            fs,
        ).take(n as int),
    decreases n,
{
    if n > 0 {
        lemma_points_accept_exactly(fs, (n - 1) as nat);
        lemma_point_accepts_exactly(fs[n - 1]);
        if spec_points_upto(fs, n) is Ok {
            assert forall|i: int| 0 <= i < n implies #[trigger] spec_point_accepts(fs[i]) by {
                if i < n - 1 {
                    lemma_point_accepts_exactly(fs[i]);
                }
            }
            assert(spec_points_upto(fs, n)->Ok_0 =~= spec_built_points(fs).take(n as int));
        }
        if !(spec_points_upto(fs, (n - 1) as nat) is Ok) {
            let k = choose|i: int| 0 <= i < n - 1 && !(#[trigger] spec_point_accepts(fs[i]));
            assert(0 <= k < n && !spec_point_accepts(fs[k]));
        }
    } else {
        assert(spec_built_points(fs).take(0) =~= Seq::<PointView>::empty());
    }
}

/// A fixture document is accepted: marked synthetic, a note that is not
/// blank, kind `kernel_fixture`, a known frequency and unit, every point
/// accepted, and the points pairwise distinct in identity.
pub open spec fn spec_document_accepts(d: FixtureDocument) -> bool {
    &&& d.synthetic
    &&& spec_note_ok(d.note)
    &&& d.kind@ == "kernel_fixture"@
    &&& spec_frequency_from(d.frequency@) is Some
    &&& spec_unit_from(d.unit@) is Some
    &&& forall|i: int| 0 <= i < d.points@.len() ==> #[trigger] spec_point_accepts(d.points@[i])
    &&& spec_batch_ok(spec_built_points(d.points@))
}

/// A document builds a batch exactly when it is accepted, and then the batch
/// holds the points it stands for, in order, with its frequency and unit.
pub proof fn lemma_document_accepts_exactly(d: FixtureDocument)
    ensures
        spec_document_result(d) is Ok <==> spec_document_accepts(d),
        spec_document_accepts(d) ==> spec_document_result(d) == Ok::<
            (Seq<PointView>, Frequency, Unit),
            (YieldCurveErrorKind, Seq<char>),
        >(
            (
                spec_built_points(d.points@),
                spec_frequency_from(d.frequency@)->0,
                spec_unit_from(d.unit@)->0,
            ),
        ),
{
    let fs = d.points@;
    lemma_points_accept_exactly(fs, fs.len());
    assert(spec_built_points(fs).take(fs.len() as int) =~= spec_built_points(fs));
    lemma_batch_check_accepts_exactly(spec_built_points(fs));
}

/// Builds a curve batch from a fixture document read from JSON.
///
/// # Errors
///
/// - not marked synthetic, no note or a blank one, another document kind, an unknown token, a value
///   given both as a number and as a missing reason: `SemanticallyRejected`
/// - a value given neither way: `Missing`
/// - an illegal token or date: the error of its constructor
/// - a repeated identity or an incomplete derived point: `SemanticallyRejected`
pub fn batch_from_fixture(document: &FixtureDocument) -> (r: YieldCurveResult<YieldCurveBatch>)
    ensures
        match r {
            Ok(b) => spec_document_result(*document) == Ok::<
                (Seq<PointView>, Frequency, Unit),
                (YieldCurveErrorKind, Seq<char>),
            >((spec_point_views(b.spec_points()), b.spec_frequency(), b.spec_unit()))
                && b.spec_well_formed(),
            Err(e) => spec_document_result(*document) == Err::<
                (Seq<PointView>, Frequency, Unit),
                (YieldCurveErrorKind, Seq<char>),
            >(e@),
        },
{
    if !document.synthetic {
        return Err(
            YieldCurveError::SemanticallyRejected(
                String::from_str("夹具必须显式标注 \"_synthetic\": true；未标注来源的输入不得当作源事实"),
            ),
        );
    }
    if !note_ok(&document.note) {
        return Err(
            YieldCurveError::SemanticallyRejected(
                String::from_str("合成夹具必须携带非空白 \"_note\" 说明；缺失、null 或空白均拒绝"),
            ),
        );
    }
    if !str_eq(document.kind.as_str(), "kernel_fixture") {
        return Err(
            YieldCurveError::SemanticallyRejected(
                message_with_count(
                    "文档类型须为 kernel_fixture（实际长度 ",
                    document.kind.as_str().as_bytes().len(),
                    "）",
                ),
            ),
        );
    }
    let frequency = parse_frequency(document.frequency.as_str())?;
    let unit = parse_unit(document.unit.as_str())?;
    let mut points: Vec<YieldCurvePoint> = Vec::new();
    let mut i: usize = 0;
    assert(spec_point_views(points@) =~= Seq::<PointView>::empty());
    while i < document.points.len()
        invariant
            0 <= i <= document.points@.len(),
            document.synthetic,
            spec_note_ok(document.note),
            document.kind@ == "kernel_fixture"@,
            spec_frequency_from(document.frequency@) == Some(frequency),
            spec_unit_from(document.unit@) == Some(unit),
            spec_points_upto(document.points@, i as nat) == Ok::<
                Seq<PointView>,
                (YieldCurveErrorKind, Seq<char>),
            >(spec_point_views(points@)),
        decreases document.points@.len() - i,
    {
        match build_point(&document.points[i]) {
            Ok(p) => {
                let ghost before = points@;
                points.push(p);
                proof {
                    assert(spec_point_views(points@) =~= spec_point_views(before).push(p@));
                }
            },
            Err(e) => {
                proof {
                    lemma_points_error_persists(
                        document.points@,
                        (i + 1) as nat,
                        document.points@.len(),
                    );
                }
                return Err(e);
            },
        }
        i = i + 1;
    }
    YieldCurveBatch::new(points, frequency, unit)
}

} // verus!

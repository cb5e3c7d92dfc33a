//! Tenor, curve kind and rate convention: the three structural identity
//! dimensions of a curve point.
//!
//! Tenors carry an order (by increasing months to maturity); curve kinds are
//! the three states nominal / real / OIS; the convention's domain is not
//! fixed upstream, so only its shape as an identity is checked here.
use vstd::prelude::*;
use vstd::std_specs::cmp::{PartialOrdSpec, PartialOrdSpecImpl};

use core::cmp::Ordering;

use crate::error::{YieldCurveError, YieldCurveErrorKind, YieldCurveResult};
use crate::text::{message_with_count, spec_byte_len, spec_dec, spec_is_token, spec_token_fault, str_eq, token_fault, TokenFault};

verus! {

/// A standard tenor.
///
/// The declaration order is the order of increasing months to maturity.
#[non_exhaustive]
#[derive(Debug, Clone, Copy, PartialEq, Eq, Ord, Hash, Structural)]
pub enum YieldCurveTenor {
    /// 1 month.
    M1,
    /// 3 months.
    M3,
    /// 6 months.
    M6,
    /// 1 year.
    Y1,
    /// 2 years.
    Y2,
    /// 3 years.
    Y3,
    /// 5 years.
    Y5,
    /// 7 years.
    Y7,
    /// 10 years.
    Y10,
    /// 20 years.
    Y20,
    /// 30 years.
    Y30,
}

/// The months to maturity of a tenor.
pub open spec fn spec_tenor_months(t: YieldCurveTenor) -> int {
    match t {
        YieldCurveTenor::M1 => 1,
        YieldCurveTenor::M3 => 3,
        YieldCurveTenor::M6 => 6,
        YieldCurveTenor::Y1 => 12,
        YieldCurveTenor::Y2 => 24,
        YieldCurveTenor::Y3 => 36,
        YieldCurveTenor::Y5 => 60,
        YieldCurveTenor::Y7 => 84,
        YieldCurveTenor::Y10 => 120,
        YieldCurveTenor::Y20 => 240,
        YieldCurveTenor::Y30 => 360,
    }
}

/// The position of a tenor in the declaration (0 for `M1`, 10 for `Y30`).
pub open spec fn spec_tenor_rank(t: YieldCurveTenor) -> int {
    match t {
        YieldCurveTenor::M1 => 0,
        YieldCurveTenor::M3 => 1,
        YieldCurveTenor::M6 => 2,
        YieldCurveTenor::Y1 => 3,
        YieldCurveTenor::Y2 => 4,
        YieldCurveTenor::Y3 => 5,
        YieldCurveTenor::Y5 => 6,
        YieldCurveTenor::Y7 => 7,
        YieldCurveTenor::Y10 => 8,
        YieldCurveTenor::Y20 => 9,
        YieldCurveTenor::Y30 => 10,
    }
}

/// The canonical (case-sensitive) label of a tenor.
pub open spec fn spec_tenor_label(t: YieldCurveTenor) -> Seq<char> {
    match t {
        YieldCurveTenor::M1 => "1M"@,
        YieldCurveTenor::M3 => "3M"@,
        YieldCurveTenor::M6 => "6M"@,
        YieldCurveTenor::Y1 => "1Y"@,
        YieldCurveTenor::Y2 => "2Y"@,
        YieldCurveTenor::Y3 => "3Y"@,
        YieldCurveTenor::Y5 => "5Y"@,
        YieldCurveTenor::Y7 => "7Y"@,
        YieldCurveTenor::Y10 => "10Y"@,
        YieldCurveTenor::Y20 => "20Y"@,
        YieldCurveTenor::Y30 => "30Y"@,
    }
}

/// The tenor whose canonical label is `s`, if any.
pub open spec fn spec_tenor_from_label(s: Seq<char>) -> Option<YieldCurveTenor> {
    if s == "1M"@ {
        Some(YieldCurveTenor::M1)
    } else if s == "3M"@ {
        Some(YieldCurveTenor::M3)
    } else if s == "6M"@ {
        Some(YieldCurveTenor::M6)
    } else if s == "1Y"@ {
        Some(YieldCurveTenor::Y1)
    } else if s == "2Y"@ {
        Some(YieldCurveTenor::Y2)
    } else if s == "3Y"@ {
        Some(YieldCurveTenor::Y3)
    } else if s == "5Y"@ {
        Some(YieldCurveTenor::Y5)
    } else if s == "7Y"@ {
        Some(YieldCurveTenor::Y7)
    } else if s == "10Y"@ {
        Some(YieldCurveTenor::Y10)
    } else if s == "20Y"@ {
        Some(YieldCurveTenor::Y20)
    } else if s == "30Y"@ {
        Some(YieldCurveTenor::Y30)
    } else {
        None
    }
}

/// The message for an unknown label of `byte_len` bytes.
pub open spec fn spec_unknown_tenor_message(byte_len: nat) -> Seq<char> {
    "未知的期限标签（长度 "@ + spec_dec(byte_len) + "）；仅接受规范形态且大小写敏感"@
}

impl YieldCurveTenor {
    /// Months to maturity.
    pub fn months(self) -> (r: u32)
        ensures
            r == spec_tenor_months(self),
    {
        match self {
            Self::M1 => 1,
            Self::M3 => 3,
            Self::M6 => 6,
            Self::Y1 => 12,
            Self::Y2 => 24,
            Self::Y3 => 36,
            Self::Y5 => 60,
            Self::Y7 => 84,
            Self::Y10 => 120,
            Self::Y20 => 240,
            Self::Y30 => 360,
        }
    }

    /// The canonical label (case-sensitive, to avoid silent equivalences).
    pub fn label(self) -> (r: &'static str)
        ensures
            r@ == spec_tenor_label(self),
    {
        match self {
            Self::M1 => "1M",
            Self::M3 => "3M",
            Self::M6 => "6M",
            Self::Y1 => "1Y",
            Self::Y2 => "2Y",
            Self::Y3 => "3Y",
            Self::Y5 => "5Y",
            Self::Y7 => "7Y",
            Self::Y10 => "10Y",
            Self::Y20 => "20Y",
            Self::Y30 => "30Y",
        }
    }

    /// Parses a tenor label; only the canonical forms of
    /// [`YieldCurveTenor::label`] are accepted.
    ///
    /// # Errors
    ///
    /// `SemanticallyRejected` for any other string (case included).
    pub fn parse(input: &str) -> (r: YieldCurveResult<Self>)
        ensures
            match r {
                Ok(t) => spec_tenor_label(t) == input@ && spec_tenor_from_label(input@) == Some(t),
                Err(e) => (forall|t: YieldCurveTenor| spec_tenor_label(t) != input@)
                    && spec_tenor_from_label(input@) is None && e@ == (
                    YieldCurveErrorKind::SemanticallyRejected,
                    spec_unknown_tenor_message(spec_byte_len(input@)),
                ),
            },
    {
        if str_eq(input, "1M") {
            Ok(Self::M1)
        } else if str_eq(input, "3M") {
            Ok(Self::M3)
        } else if str_eq(input, "6M") {
            Ok(Self::M6)
        } else if str_eq(input, "1Y") {
            Ok(Self::Y1)
        } else if str_eq(input, "2Y") {
            Ok(Self::Y2)
        } else if str_eq(input, "3Y") {
            Ok(Self::Y3)
        } else if str_eq(input, "5Y") {
            Ok(Self::Y5)
        } else if str_eq(input, "7Y") {
            Ok(Self::Y7)
        } else if str_eq(input, "10Y") {
            Ok(Self::Y10)
        } else if str_eq(input, "20Y") {
            Ok(Self::Y20)
        } else if str_eq(input, "30Y") {
            Ok(Self::Y30)
        } else {
            Err(
                YieldCurveError::SemanticallyRejected(
                    message_with_count(
                        "未知的期限标签（长度 ",
                        input.as_bytes().len(),
                        "）；仅接受规范形态且大小写敏感",
                    ),
                ),
            )
        }
    }
}

/// Every tenor, in declaration order.
pub const TENOR_CATALOG: [YieldCurveTenor; 11] = [
    YieldCurveTenor::M1,
    YieldCurveTenor::M3,
    YieldCurveTenor::M6,
    YieldCurveTenor::Y1,
    YieldCurveTenor::Y2,
    YieldCurveTenor::Y3,
    YieldCurveTenor::Y5,
    YieldCurveTenor::Y7,
    YieldCurveTenor::Y10,
    YieldCurveTenor::Y20,
    YieldCurveTenor::Y30,
];

/// The declaration order of tenors is the order of their months to
/// maturity: one tenor is declared before another exactly when it matures
/// sooner.
pub proof fn lemma_tenor_order_is_maturity_order(t: YieldCurveTenor, u: YieldCurveTenor)
    ensures
        spec_tenor_rank(t) < spec_tenor_rank(u) <==> spec_tenor_months(t) < spec_tenor_months(u),
        spec_tenor_rank(t) == spec_tenor_rank(u) <==> t == u,
{
}

/// How two tenors compare: by their months to maturity, which follow the
/// declaration order.
pub open spec fn tenor_ordering(a: YieldCurveTenor, b: YieldCurveTenor) -> Option<Ordering> {
    if spec_tenor_months(a) < spec_tenor_months(b) {
        Some(Ordering::Less)
    } else if spec_tenor_months(a) == spec_tenor_months(b) {
        Some(Ordering::Equal)
    } else {
        Some(Ordering::Greater)
    }
}

impl PartialOrd for YieldCurveTenor {
    fn partial_cmp(&self, other: &Self) -> (r: Option<Ordering>) {
        let a = self.months();
        let b = other.months();
        if a < b {
            Some(Ordering::Less)
        } else if a == b {
            Some(Ordering::Equal)
        } else {
            Some(Ordering::Greater)
        }
    }
}

impl PartialOrdSpecImpl for YieldCurveTenor {
    open spec fn obeys_partial_cmp_spec() -> bool {
        true
    }

    open spec fn partial_cmp_spec(&self, other: &YieldCurveTenor) -> Option<Ordering> {
        tenor_ordering(*self, *other)
    }
}

/// Tenors are ordered by increasing months to maturity, which is their
/// declaration order: `a < b` exactly when `a` matures sooner, and two
/// tenors compare equal only when they are the same tenor.
pub proof fn lemma_tenor_less_is_sooner(a: YieldCurveTenor, b: YieldCurveTenor)
    ensures
        PartialOrdSpec::partial_cmp_spec(&a, &b) == Some(Ordering::Less) <==> spec_tenor_months(a) < spec_tenor_months(
            b,
        ),
        PartialOrdSpec::partial_cmp_spec(&a, &b) == Some(Ordering::Less) <==> spec_tenor_rank(a) < spec_tenor_rank(b),
        PartialOrdSpec::partial_cmp_spec(&a, &b) == Some(Ordering::Equal) <==> a == b,
        PartialOrdSpec::partial_cmp_spec(&a, &b) == Some(Ordering::Greater) <==> spec_tenor_months(b)
            < spec_tenor_months(a),
{
}

/// Distinct tenors have distinct labels, so `parse` gives back the tenor
/// whose label it reads.
pub proof fn lemma_tenor_label_injective(t: YieldCurveTenor, u: YieldCurveTenor)
    ensures
        spec_tenor_label(t) == spec_tenor_label(u) <==> t == u,
{
    reveal_strlit("1M");
    reveal_strlit("3M");
    reveal_strlit("6M");
    reveal_strlit("1Y");
    reveal_strlit("2Y");
    reveal_strlit("3Y");
    reveal_strlit("5Y");
    reveal_strlit("7Y");
    reveal_strlit("10Y");
    reveal_strlit("20Y");
    reveal_strlit("30Y");
    if spec_tenor_label(t) == spec_tenor_label(u) {
        let a = spec_tenor_label(t);
        let b = spec_tenor_label(u);
        assert(a.len() == b.len());
        assert(a[0] == b[0]);
        assert(a[1] == b[1]);
    }
}

/// Reading a tenor's label gives the tenor back.
pub proof fn lemma_tenor_label_round_trip(t: YieldCurveTenor)
    ensures
        spec_tenor_from_label(spec_tenor_label(t)) == Some(t),
{
    lemma_tenor_label_injective(t, YieldCurveTenor::M1);
    lemma_tenor_label_injective(t, YieldCurveTenor::M3);
    lemma_tenor_label_injective(t, YieldCurveTenor::M6);
    lemma_tenor_label_injective(t, YieldCurveTenor::Y1);
    lemma_tenor_label_injective(t, YieldCurveTenor::Y2);
    lemma_tenor_label_injective(t, YieldCurveTenor::Y3);
    lemma_tenor_label_injective(t, YieldCurveTenor::Y5);
    lemma_tenor_label_injective(t, YieldCurveTenor::Y7);
    lemma_tenor_label_injective(t, YieldCurveTenor::Y10);
    lemma_tenor_label_injective(t, YieldCurveTenor::Y20);
}

/// The catalog lists every tenor once, in declaration order, so its months
/// increase strictly along it.
pub proof fn lemma_tenor_catalog_in_order(i: int, j: int)
    requires
        0 <= i < j < 11,
    ensures
        spec_tenor_rank(TENOR_CATALOG[i]) == i,
        spec_tenor_months(TENOR_CATALOG[i]) < spec_tenor_months(TENOR_CATALOG[j]),
{
}

/// A tenor label holds no `;`.
pub proof fn lemma_tenor_label_no_semicolon(t: YieldCurveTenor)
    ensures
        !spec_tenor_label(t).contains(';'),
{
    reveal_strlit("1M");
    reveal_strlit("3M");
    reveal_strlit("6M");
    reveal_strlit("1Y");
    reveal_strlit("2Y");
    reveal_strlit("3Y");
    reveal_strlit("5Y");
    reveal_strlit("7Y");
    reveal_strlit("10Y");
    reveal_strlit("20Y");
    reveal_strlit("30Y");
    let l = spec_tenor_label(t);
    assert(forall|i: int| 0 <= i < l.len() ==> l[i] != ';');
}

// ---------------------------------------------------------------------------
// Curve kind
// ---------------------------------------------------------------------------

/// The kind of a curve.
#[non_exhaustive]
#[derive(Debug, Clone, Copy, PartialEq, Eq, Hash, Structural)]
pub enum YieldCurveKind {
    /// Nominal curve.
    Nominal,
    /// Real (inflation-adjusted) curve.
    Real,
    /// Overnight-index-swap (OIS) curve.
    Ois,
}

/// The canonical label of a curve kind.
pub open spec fn spec_kind_label(k: YieldCurveKind) -> Seq<char> {
    match k {
        YieldCurveKind::Nominal => "nominal"@,
        YieldCurveKind::Real => "real"@,
        YieldCurveKind::Ois => "ois"@,
    }
}

/// The curve kind whose canonical label is `s`, if any.
pub open spec fn spec_kind_from_label(s: Seq<char>) -> Option<YieldCurveKind> {
    if s == "nominal"@ {
        Some(YieldCurveKind::Nominal)
    } else if s == "real"@ {
        Some(YieldCurveKind::Real)
    } else if s == "ois"@ {
        Some(YieldCurveKind::Ois)
    } else {
        None
    }
}

/// The message for an unknown curve-kind label of `byte_len` bytes.
pub open spec fn spec_unknown_kind_message(byte_len: nat) -> Seq<char> {
    "未知的曲线种类标签（长度 "@ + spec_dec(byte_len) + "）"@
}

impl YieldCurveKind {
    /// The canonical label.
    pub fn label(self) -> (r: &'static str)
        ensures
            r@ == spec_kind_label(self),
    {
        match self {
            Self::Nominal => "nominal",
            Self::Real => "real",
            Self::Ois => "ois",
        }
    }

    /// Parses a curve-kind label.
    ///
    /// # Errors
    ///
    /// `SemanticallyRejected` for a label outside the three states.
    pub fn parse(input: &str) -> (r: YieldCurveResult<Self>)
        ensures
            match r {
                Ok(k) => spec_kind_label(k) == input@ && spec_kind_from_label(input@) == Some(k),
                Err(e) => (forall|k: YieldCurveKind| spec_kind_label(k) != input@)
                    && spec_kind_from_label(input@) is None && e@ == (
                    YieldCurveErrorKind::SemanticallyRejected,
                    spec_unknown_kind_message(spec_byte_len(input@)),
                ),
            },
    {
        if str_eq(input, "nominal") {
            Ok(Self::Nominal)
        } else if str_eq(input, "real") {
            Ok(Self::Real)
        } else if str_eq(input, "ois") {
            Ok(Self::Ois)
        } else {
            Err(
                YieldCurveError::SemanticallyRejected(
                    message_with_count("未知的曲线种类标签（长度 ", input.as_bytes().len(), "）"),
                ),
            )
        }
    }
}

/// Distinct curve kinds have distinct labels.
pub proof fn lemma_kind_label_injective(k: YieldCurveKind, l: YieldCurveKind)
    ensures
        spec_kind_label(k) == spec_kind_label(l) <==> k == l,
{
    reveal_strlit("nominal");
    reveal_strlit("real");
    reveal_strlit("ois");
    if spec_kind_label(k) == spec_kind_label(l) {
        assert(spec_kind_label(k).len() == spec_kind_label(l).len());
        assert(spec_kind_label(k)[0] == spec_kind_label(l)[0]);
    }
}

/// Reading a curve kind's label gives the kind back.
pub proof fn lemma_kind_label_round_trip(k: YieldCurveKind)
    ensures
        spec_kind_from_label(spec_kind_label(k)) == Some(k),
{
    lemma_kind_label_injective(k, YieldCurveKind::Nominal);
    lemma_kind_label_injective(k, YieldCurveKind::Real);
}

/// A curve-kind label holds no `;`.
pub proof fn lemma_kind_label_no_semicolon(k: YieldCurveKind)
    ensures
        !spec_kind_label(k).contains(';'),
{
    reveal_strlit("nominal");
    reveal_strlit("real");
    reveal_strlit("ois");
    let l = spec_kind_label(k);
    assert(forall|i: int| 0 <= i < l.len() ==> l[i] != ';');
}

// ---------------------------------------------------------------------------
// Rate convention
// ---------------------------------------------------------------------------

/// A rate convention: only a distinguishable non-empty identity; the library
/// neither lists the conventions nor computes with them.
#[derive(Debug, PartialEq, Eq, Hash)]
pub struct YieldCurveConvention(String);

impl Clone for YieldCurveConvention {
    fn clone(&self) -> (r: Self)
        ensures
            r@ == self@,
    {
        proof {
            use_type_invariant(self);
        }
        Self(self.0.clone())
    }
}

/// The error that `YieldCurveConvention::new` gives for a broken rule.
pub open spec fn spec_convention_error(f: TokenFault) -> (YieldCurveErrorKind, Seq<char>) {
    match f {
        TokenFault::Blank => (YieldCurveErrorKind::Missing, "利率惯例不得为空"@),
        TokenFault::TooLong => (YieldCurveErrorKind::Invalid, "利率惯例标识过长（上限 64）"@),
        TokenFault::Control => (YieldCurveErrorKind::Invalid, "利率惯例不得含控制字符"@),
        TokenFault::Untrimmed => (YieldCurveErrorKind::Invalid, "利率惯例不得含前后空白（避免静默等值）"@),
    }
}

impl View for YieldCurveConvention {
    type V = Seq<char>;

    closed spec fn view(&self) -> Seq<char> {
        self.0@
    }
}

impl YieldCurveConvention {
    /// Every convention is a valid identity token.
    #[verifier::type_invariant]
    spec fn is_token(self) -> bool {
        spec_is_token(self.0@)
    }

    /// Builds and checks a convention.
    ///
    /// # Errors
    ///
    /// `Missing` when empty or blank; `Invalid` when over 64 characters, holding a
    /// control character, or starting or ending with whitespace.
    pub fn new(value: &str) -> (r: YieldCurveResult<Self>)
        ensures
            match r {
                Ok(c) => spec_token_fault(value@) is None && c@ == value@,
                Err(e) => spec_token_fault(value@) is Some && e@ == spec_convention_error(
                    spec_token_fault(value@)->0,
                ),
            },
    {
        match token_fault(value) {
            None => Ok(Self(String::from_str(value))),
            Some(TokenFault::Blank) => Err(YieldCurveError::Missing(String::from_str("利率惯例不得为空"))),
            Some(TokenFault::TooLong) => Err(
                YieldCurveError::Invalid(String::from_str("利率惯例标识过长（上限 64）")),
            ),
            Some(TokenFault::Control) => Err(
                YieldCurveError::Invalid(String::from_str("利率惯例不得含控制字符")),
            ),
            Some(TokenFault::Untrimmed) => Err(
                YieldCurveError::Invalid(String::from_str("利率惯例不得含前后空白（避免静默等值）")),
            ),
        }
    }

    /// The convention as a string slice.
    ///
    /// What it reads is always a valid identity token.
    pub fn as_str(&self) -> (r: &str)
        ensures
            r@ == self@,
            spec_is_token(r@),
    {
        proof {
            use_type_invariant(self);
        }
        self.0.as_str()
    }
}

} // verus!

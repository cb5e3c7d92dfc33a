//! Error classification and the error type of the crate.
//!
//! Kinds are split by how a caller should react, so that callers never have
//! to match on message text.
use vstd::prelude::*;

verus! {

/// How a caller should react to an error.
#[non_exhaustive]
#[derive(Debug, Clone, Copy, PartialEq, Eq, Hash, Structural)]
pub enum YieldCurveErrorKind {
    /// The input's shape or value is illegal; retrying is pointless.
    Invalid,
    /// A required item is missing.
    Missing,
    /// An authorization check failed (fail-closed landing point).
    AuthorizationDenied,
    /// The product does not belong to this domain and was routed elsewhere.
    RoutedElsewhere,
    /// A write that only another domain may make.
    WriteAuthorityDenied,
    /// Structurally readable but semantically not accepted.
    SemanticallyRejected,
    /// A planned capability that is not implemented.
    NotApplicable,
    /// An invariant was broken (a bug inside the library).
    Invariant,
}

/// The error of this crate: a kind and a message.
#[non_exhaustive]
#[derive(Debug)]
pub enum YieldCurveError {
    /// Illegal input.
    Invalid(String),
    /// A required item is missing.
    Missing(String),
    /// An authorization check failed.
    AuthorizationDenied(String),
    /// The product does not belong to this domain.
    RoutedElsewhere(String),
    /// A write that only another domain may make.
    WriteAuthorityDenied(String),
    /// Semantically not accepted.
    SemanticallyRejected(String),
    /// A planned capability is not implemented.
    NotApplicable(String),
    /// An invariant was broken.
    Invariant(String),
}

/// The result type of this crate.
pub type YieldCurveResult<T> = Result<T, YieldCurveError>;

/// The kind that each variant maps to.
pub open spec fn spec_kind_of(e: &YieldCurveError) -> YieldCurveErrorKind {
    match e {
        YieldCurveError::Invalid(_) => YieldCurveErrorKind::Invalid,
        YieldCurveError::Missing(_) => YieldCurveErrorKind::Missing,
        YieldCurveError::AuthorizationDenied(_) => YieldCurveErrorKind::AuthorizationDenied,
        YieldCurveError::RoutedElsewhere(_) => YieldCurveErrorKind::RoutedElsewhere,
        YieldCurveError::WriteAuthorityDenied(_) => YieldCurveErrorKind::WriteAuthorityDenied,
        YieldCurveError::SemanticallyRejected(_) => YieldCurveErrorKind::SemanticallyRejected,
        YieldCurveError::NotApplicable(_) => YieldCurveErrorKind::NotApplicable,
        YieldCurveError::Invariant(_) => YieldCurveErrorKind::Invariant,
    }
}

/// The message that a variant carries.
pub open spec fn spec_reason_of(e: &YieldCurveError) -> Seq<char> {
    match e {
        YieldCurveError::Invalid(m) => m@,
        YieldCurveError::Missing(m) => m@,
        YieldCurveError::AuthorizationDenied(m) => m@,
        YieldCurveError::RoutedElsewhere(m) => m@,
        YieldCurveError::WriteAuthorityDenied(m) => m@,
        YieldCurveError::SemanticallyRejected(m) => m@,
        YieldCurveError::NotApplicable(m) => m@,
        YieldCurveError::Invariant(m) => m@,
    }
}

impl View for YieldCurveError {
    /// An error is seen as its kind and its message.
    type V = (YieldCurveErrorKind, Seq<char>);

    open spec fn view(&self) -> (YieldCurveErrorKind, Seq<char>) {
        (spec_kind_of(self), spec_reason_of(self))
    }
}

/// The fixed heading that the rendering of each kind starts with.
pub open spec fn spec_heading(kind: YieldCurveErrorKind) -> Seq<char> {
    match kind {
        YieldCurveErrorKind::Invalid => "输入非法："@,
        YieldCurveErrorKind::Missing => "缺少必需项："@,
        YieldCurveErrorKind::AuthorizationDenied => "授权判定未通过："@,
        YieldCurveErrorKind::RoutedElsewhere => "不属于本域，已路由他处："@,
        YieldCurveErrorKind::WriteAuthorityDenied => "越权写入被拒绝："@,
        YieldCurveErrorKind::SemanticallyRejected => "语义不被接受："@,
        YieldCurveErrorKind::NotApplicable => "规划能力尚未实现："@,
        YieldCurveErrorKind::Invariant => "不变量被破坏："@,
    }
}

/// The kind names the variant: each kind comes from exactly one variant, so
/// no two variants share a kind.
pub proof fn lemma_kind_names_variant(e: &YieldCurveError)
    ensures
        (spec_kind_of(e) == YieldCurveErrorKind::Invalid) == (e is Invalid),
        (spec_kind_of(e) == YieldCurveErrorKind::Missing) == (e is Missing),
        (spec_kind_of(e) == YieldCurveErrorKind::AuthorizationDenied) == (e is AuthorizationDenied),
        (spec_kind_of(e) == YieldCurveErrorKind::RoutedElsewhere) == (e is RoutedElsewhere),
        (spec_kind_of(e) == YieldCurveErrorKind::WriteAuthorityDenied) == (e is WriteAuthorityDenied),
        (spec_kind_of(e) == YieldCurveErrorKind::SemanticallyRejected) == (e is SemanticallyRejected),
        (spec_kind_of(e) == YieldCurveErrorKind::NotApplicable) == (e is NotApplicable),
        (spec_kind_of(e) == YieldCurveErrorKind::Invariant) == (e is Invariant),
{
}

/// The rendering of every error is non-empty, whatever its message: each
/// kind's heading has text of its own.
pub proof fn lemma_rendering_non_empty(e: &YieldCurveError)
    ensures
        (spec_heading(e@.0) + e@.1).len() > 0,
{
    reveal_strlit("输入非法：");
    reveal_strlit("缺少必需项：");
    reveal_strlit("授权判定未通过：");
    reveal_strlit("不属于本域，已路由他处：");
    reveal_strlit("越权写入被拒绝：");
    reveal_strlit("语义不被接受：");
    reveal_strlit("规划能力尚未实现：");
    reveal_strlit("不变量被破坏：");
}

impl YieldCurveError {
    /// The kind, by which callers decide how to react.
    pub fn kind(&self) -> (k: YieldCurveErrorKind)
        ensures
            k == self@.0,
    {
        match self {
            Self::Invalid(_) => YieldCurveErrorKind::Invalid,
            Self::Missing(_) => YieldCurveErrorKind::Missing,
            Self::AuthorizationDenied(_) => YieldCurveErrorKind::AuthorizationDenied,
            Self::RoutedElsewhere(_) => YieldCurveErrorKind::RoutedElsewhere,
            Self::WriteAuthorityDenied(_) => YieldCurveErrorKind::WriteAuthorityDenied,
            Self::SemanticallyRejected(_) => YieldCurveErrorKind::SemanticallyRejected,
            Self::NotApplicable(_) => YieldCurveErrorKind::NotApplicable,
            Self::Invariant(_) => YieldCurveErrorKind::Invariant,
        }
    }

    /// Whether retrying may help: this layer has no network, so only an
    /// `Invariant` error is retryable.
    pub fn is_retryable(&self) -> (r: bool)
        ensures
            r == (self@.0 == YieldCurveErrorKind::Invariant),
    {
        match self.kind() {
            YieldCurveErrorKind::Invariant => true,
            _ => false,
        }
    }

    /// The human-readable rendering: the kind's heading, then the message.
    pub fn to_string(&self) -> (s: String)
        ensures
            s@ == spec_heading(self@.0) + self@.1,
    {
        let (heading, reason): (&str, &String) = match self {
            Self::Invalid(m) => ("输入非法：", m),
            Self::Missing(m) => ("缺少必需项：", m),
            Self::AuthorizationDenied(m) => ("授权判定未通过：", m),
            Self::RoutedElsewhere(m) => ("不属于本域，已路由他处：", m),
            Self::WriteAuthorityDenied(m) => ("越权写入被拒绝：", m),
            Self::SemanticallyRejected(m) => ("语义不被接受：", m),
            Self::NotApplicable(m) => ("规划能力尚未实现：", m),
            Self::Invariant(m) => ("不变量被破坏：", m),
        };
        let mut s = String::from_str(heading);
        s.append(reason.as_str());
        s
    }
}

} // verus!

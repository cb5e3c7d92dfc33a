use yieldx::routing::guard_provider_adapter_scope;
use yieldx::{YieldCurveError, YieldCurveErrorKind};

fn all_variants() -> Vec<YieldCurveError> {
    vec![
        YieldCurveError::Invalid("a".into()),
        YieldCurveError::Missing("b".into()),
        YieldCurveError::AuthorizationDenied("c".into()),
        YieldCurveError::RoutedElsewhere("d".into()),
        YieldCurveError::WriteAuthorityDenied("e".into()),
        YieldCurveError::SemanticallyRejected("f".into()),
        YieldCurveError::NotApplicable("g".into()),
        YieldCurveError::Invariant("h".into()),
    ]
}

#[test]
fn kind_maps_every_variant_distinctly() {
    let kinds: Vec<YieldCurveErrorKind> =
        all_variants().iter().map(YieldCurveError::kind).collect();
    let unique: std::collections::HashSet<_> = kinds.iter().collect();
    assert_eq!(unique.len(), kinds.len(), "每个变体须映射到互不相同的分类");
}

#[test]
fn only_invariant_is_retryable() {
    for error in all_variants() {
        let expected = error.kind() == YieldCurveErrorKind::Invariant;
        assert_eq!(error.is_retryable(), expected, "分类 {:?}", error.kind());
    }
}

#[test]
fn non_kernel_capability_denial_is_readable_and_carries_no_endpoint() {
    let error = guard_provider_adapter_scope().expect_err("kernel 不得批授权");
    assert_eq!(error.kind(), YieldCurveErrorKind::WriteAuthorityDenied);
    let message = error.to_string();
    assert!(!message.is_empty());
    assert!(
        !message.contains("http") && !message.contains("://"),
        "错误消息不得含端点字面量：{message}"
    );
}

#[test]
fn rendering_is_heading_then_message() {
    assert_eq!(YieldCurveError::Invalid("x".into()).to_string(), "输入非法：x");
    assert_eq!(YieldCurveError::Missing("y".into()).to_string(), "缺少必需项：y");
    assert_eq!(
        YieldCurveError::SemanticallyRejected("z".into()).to_string(),
        "语义不被接受：z"
    );
    assert_eq!(YieldCurveError::Invariant("w".into()).to_string(), "不变量被破坏：w");
    for error in all_variants() {
        assert!(!error.to_string().is_empty());
    }
}

#[test]
fn rendering_is_non_empty_even_for_an_empty_message() {
    let errors = vec![
        YieldCurveError::Invalid(String::new()),
        YieldCurveError::Missing(String::new()),
        YieldCurveError::AuthorizationDenied(String::new()),
        YieldCurveError::RoutedElsewhere(String::new()),
        YieldCurveError::WriteAuthorityDenied(String::new()),
        YieldCurveError::SemanticallyRejected(String::new()),
        YieldCurveError::NotApplicable(String::new()),
        YieldCurveError::Invariant(String::new()),
    ];
    for error in errors {
        assert!(!error.to_string().is_empty(), "分类 {:?}", error.kind());
    }
}

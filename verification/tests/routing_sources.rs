use yieldx::{
    guard_provider_adapter_scope, kernel_owns, receive_routed_batch, Date, Frequency, Unit,
    YieldCurveCapability, YieldCurveCode, YieldCurveConvention, YieldCurveErrorKind,
    YieldCurveKind, YieldCurvePoint, YieldCurvePointIdentity, YieldCurvePointOrigin,
    YieldCurveRate, YieldCurveRouteSource, YieldCurveTenor, PROVIDER_ADAPTERS_IMPLEMENTED,
    PROVIDER_ADAPTERS_PLANNED, ROUTE_SOURCES,
};

fn identity(maturity: YieldCurveTenor) -> YieldCurvePointIdentity {
    YieldCurvePointIdentity {
        source: YieldCurveCode::new("treasury").expect("合法令牌"),
        series: YieldCurveCode::new("DS06").expect("合法令牌"),
        currency: YieldCurveCode::new("USD").expect("合法令牌"),
        valuation_date: Date::new(2026, 8, 14).expect("合法日期"),
        maturity,
        curve_kind: YieldCurveKind::Nominal,
        vintage: None,
    }
}

fn point(maturity: YieldCurveTenor) -> YieldCurvePoint {
    YieldCurvePoint::new(
        identity(maturity),
        YieldCurveRate::Present(4.25f64.to_bits()),
        YieldCurvePointOrigin::Official,
        YieldCurveConvention::new("act365f").expect("合法惯例"),
        None,
    )
    .expect("合法点")
}

#[test]
fn all_declared_route_sources_are_distinct_and_labelled() {
    assert_eq!(ROUTE_SOURCES.len(), 4);
    let labels: std::collections::HashSet<&str> =
        ROUTE_SOURCES.iter().map(|s| s.label()).collect();
    assert_eq!(labels.len(), 4, "来源标签必须互不相同");
    assert!(labels.contains("treasuryx:DS06"));
    assert!(labels.contains("ukx:S07"));
}

#[test]
fn routed_batch_is_accepted_and_duplicates_are_rejected_with_source_label() {
    let batch = receive_routed_batch(
        YieldCurveRouteSource::TreasuryDs06,
        vec![point(YieldCurveTenor::Y2), point(YieldCurveTenor::Y10)],
        Frequency::Daily,
        Unit::Percent,
    )
    .expect("接收成功");
    assert_eq!(batch.len(), 2);

    let error = receive_routed_batch(
        YieldCurveRouteSource::UkS07,
        vec![point(YieldCurveTenor::Y10), point(YieldCurveTenor::Y10)],
        Frequency::Daily,
        Unit::Percent,
    )
    .expect_err("重复身份必须拒绝");
    assert_eq!(error.kind(), YieldCurveErrorKind::SemanticallyRejected);
    assert!(
        error.to_string().contains("ukx:S07"),
        "拒绝消息须带来源标签：{}",
        error.to_string()
    );
}

#[test]
fn kernel_owns_only_value_objects_and_batch_validation() {
    assert!(kernel_owns(YieldCurveCapability::L0ValueObjects));
    assert!(kernel_owns(YieldCurveCapability::BatchValidation));
    for capability in [
        YieldCurveCapability::HttpFetch,
        YieldCurveCapability::Authentication,
        YieldCurveCapability::Cache,
        YieldCurveCapability::Redistribution,
    ] {
        assert!(!kernel_owns(capability), "kernel 不拥有 {capability:?}");
    }
}

#[test]
fn provider_adapters_are_unimplemented_and_unauthorized() {
    assert_eq!(PROVIDER_ADAPTERS_PLANNED, 32);
    assert_eq!(PROVIDER_ADAPTERS_IMPLEMENTED, 0);
    let error = guard_provider_adapter_scope().expect_err("kernel 不得批 provider 授权");
    assert_eq!(error.kind(), YieldCurveErrorKind::WriteAuthorityDenied);
}

#[test]
fn routed_refusal_message_and_other_kinds() {
    let error = receive_routed_batch(
        YieldCurveRouteSource::EcbYcDataflow,
        vec![point(YieldCurveTenor::Y10), point(YieldCurveTenor::Y10)],
        Frequency::Daily,
        Unit::Percent,
    )
    .expect_err("重复");
    assert_eq!(
        error.to_string(),
        "语义不被接受：来自 ecbx:YC-dataflow 的路由批被拒绝：批内重复身份出现在第 2 个点；canonical_key 在批内必须唯一（不得静默去重）"
    );
    let mut infinite = point(YieldCurveTenor::Y5);
    infinite.rate = YieldCurveRate::Present(f64::INFINITY.to_bits());
    let invalid = receive_routed_batch(
        YieldCurveRouteSource::TreasuryDs07,
        vec![infinite],
        Frequency::Daily,
        Unit::Percent,
    )
    .expect_err("无穷");
    assert_eq!(invalid.kind(), YieldCurveErrorKind::Invalid, "分类不变");
    assert_eq!(
        invalid.to_string(),
        "输入非法：来自 treasuryx:DS07 的路由批被拒绝：曲线取值不得为 NaN 或无穷（缺失须用具名原因表达）"
    );
    assert_eq!(
        guard_provider_adapter_scope().expect_err("恒拒绝").to_string(),
        "越权写入被拒绝：kernel 不是 provider：32 个 provider 为规划目录（0/32），本域不得据此批任何 provider 授权"
    );
}

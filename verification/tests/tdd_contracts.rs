use yieldx::{
    batch_from_fixture, guard_provider_adapter_scope, is_formal_pit_eligible, kernel_owns,
    receive_routed_batch, validate_curve_batch, validate_curve_point,
    yield_curve_publication_semantics, AvailabilityEvidence, Date, FixtureDocument,
    FixtureIdentity, FixturePoint, Frequency, Period, PitEligibility, TimePrecision, Unit,
    YieldCurveBatch, YieldCurveCapability, YieldCurveCode, YieldCurveConvention, YieldCurveKind,
    YieldCurvePoint, YieldCurvePointIdentity, YieldCurvePointOrigin, YieldCurveRate,
    YieldCurveRouteSource, YieldCurveTenor,
};

fn code(value: &str) -> YieldCurveCode {
    YieldCurveCode::new(value).expect("合法令牌")
}

fn identity(maturity: YieldCurveTenor) -> YieldCurvePointIdentity {
    YieldCurvePointIdentity {
        source: code("us_treasury_yield"),
        series: code("par_yield"),
        currency: code("USD"),
        valuation_date: Date::parse("2026-08-14").expect("合法日期"),
        maturity,
        curve_kind: YieldCurveKind::Nominal,
        vintage: None,
    }
}

fn official(maturity: YieldCurveTenor, rate: f64) -> YieldCurvePoint {
    YieldCurvePoint::new(
        identity(maturity),
        YieldCurveRate::Present(rate.to_bits()),
        YieldCurvePointOrigin::Official,
        YieldCurveConvention::new("act365f").expect("合法惯例"),
        None,
    )
    .expect("合法官方点")
}

fn fixture_identity(series: &str, maturity: &str) -> FixtureIdentity {
    FixtureIdentity {
        source: "us_treasury_yield".to_string(),
        series: series.to_string(),
        currency: "USD".to_string(),
        valuation_date: "2026-08-14".to_string(),
        maturity: maturity.to_string(),
        curve_kind: "nominal".to_string(),
        vintage: None,
    }
}

fn fixture_point(
    series: &str,
    maturity: &str,
    rate: f64,
    origin: &str,
    inputs: Vec<FixtureIdentity>,
) -> FixturePoint {
    FixturePoint {
        source: "us_treasury_yield".to_string(),
        series: series.to_string(),
        currency: "USD".to_string(),
        valuation_date: "2026-08-14".to_string(),
        maturity: maturity.to_string(),
        curve_kind: "nominal".to_string(),
        vintage: None,
        rate_percent: Some(rate.to_bits()),
        missing_reason: None,
        origin: origin.to_string(),
        convention: "act365f".to_string(),
        derived_from: inputs,
    }
}

fn document(points: Vec<FixturePoint>) -> FixtureDocument {
    FixtureDocument {
        synthetic: true,
        note: Some("合成样本，不构成任何证据".to_string()),
        kind: "kernel_fixture".to_string(),
        frequency: "daily".to_string(),
        unit: "percent".to_string(),
        points,
    }
}

/// Three official par-yield points (2Y, 10Y, 30Y).
fn sovereign_par_official() -> FixtureDocument {
    document(vec![
        fixture_point("par_yield", "2Y", 3.9, "official", Vec::new()),
        fixture_point("par_yield", "10Y", 4.25, "official", Vec::new()),
        fixture_point("par_yield", "30Y", 4.6, "official", Vec::new()),
    ])
}

/// Two official points and a spread derived from them.
fn with_derived_spread() -> FixtureDocument {
    document(vec![
        fixture_point("par_yield", "2Y", 3.9, "official", Vec::new()),
        fixture_point("par_yield", "10Y", 4.25, "official", Vec::new()),
        fixture_point(
            "spread_2s10s",
            "10Y",
            0.35,
            "derived",
            vec![fixture_identity("par_yield", "2Y"), fixture_identity("par_yield", "10Y")],
        ),
    ])
}

/// A derived point that declares no inputs.
fn negative_incomplete_derived() -> FixtureDocument {
    document(vec![fixture_point("spread_2s10s", "10Y", 0.35, "derived", Vec::new())])
}

#[test]
fn date_parse_is_strict_iso() {
    assert!(Date::parse("2026-08-14").is_ok());
    for bad in [
        "2026/08/14",
        "2026-8-14",
        "2026-08-14T00:00:00",
        "2026-02-30",
    ] {
        assert!(Date::parse(bad).is_err(), "{bad} 必须被拒绝");
    }
}

#[test]
fn period_parse_covers_four_forms() {
    assert!(matches!(Period::parse("2026-08-14"), Ok(Period::Day(_))));
    assert!(matches!(
        Period::parse("2026-08"),
        Ok(Period::Month { month: 8, .. })
    ));
    assert!(matches!(
        Period::parse("2026-Q4"),
        Ok(Period::Quarter { quarter: 4, .. })
    ));
    assert!(matches!(Period::parse("2026"), Ok(Period::Year(2026))));
    assert!(Period::parse("2026-Q5").is_err(), "季度上限 4");
}

#[test]
fn code_new_rejects_blank_and_control_chars() {
    assert!(YieldCurveCode::new("USD").is_ok());
    assert!(YieldCurveCode::new("").is_err());
    assert!(YieldCurveCode::new("  ").is_err());
    assert!(YieldCurveCode::new(" USD").is_err(), "前后空白必须拒绝");
    assert!(YieldCurveCode::new("a\nb").is_err(), "控制字符必须拒绝");
    assert!(
        YieldCurveCode::new(&"x".repeat(65)).is_err(),
        "超长必须拒绝"
    );
}

#[test]
fn code_as_str_round_trips() {
    let token = code("par_yield");
    assert_eq!(token.as_str(), "par_yield");
    assert_eq!(token, code("par_yield"), "同值必须相等");
    assert_ne!(token, code("breakeven_spread"), "不同令牌不得静默等值");
}

#[test]
fn tenor_parse_rejects_non_canonical_labels() {
    assert_eq!(
        YieldCurveTenor::parse("10Y").expect("规范标签"),
        YieldCurveTenor::Y10
    );
    assert!(YieldCurveTenor::parse("10y").is_err(), "大小写必须敏感");
    assert!(YieldCurveTenor::parse("4Y").is_err(), "非规范期限必须拒绝");
    assert!(YieldCurveTenor::parse("").is_err());
}

#[test]
fn tenor_months_increase_with_order() {
    assert_eq!(YieldCurveTenor::M1.months(), 1);
    assert_eq!(YieldCurveTenor::Y10.months(), 120);
    assert_eq!(YieldCurveTenor::Y30.months(), 360);
    let mut previous = 0;
    for maturity in [
        YieldCurveTenor::M1,
        YieldCurveTenor::M3,
        YieldCurveTenor::M6,
        YieldCurveTenor::Y1,
        YieldCurveTenor::Y30,
    ] {
        assert!(maturity.months() > previous, "月数必须递增");
        previous = maturity.months();
    }
    assert!(YieldCurveTenor::M1 < YieldCurveTenor::Y30);
}

#[test]
fn convention_new_rejects_blank_and_whitespace() {
    assert!(YieldCurveConvention::new("act365f").is_ok());
    assert!(YieldCurveConvention::new("").is_err());
    assert!(YieldCurveConvention::new("  ").is_err());
    assert!(YieldCurveConvention::new(" act365f").is_err());
    assert!(YieldCurveConvention::new("a\tb").is_err());
    assert!(YieldCurveConvention::new(&"x".repeat(65)).is_err());
}

#[test]
fn convention_as_str_round_trips() {
    let convention = YieldCurveConvention::new("act365f").expect("合法惯例");
    assert_eq!(convention.as_str(), "act365f");
}

#[test]
fn canonical_key_covers_all_seven_dimensions() {
    let base = identity(YieldCurveTenor::Y10).canonical_key();
    assert!(base.contains("source=us_treasury_yield"));
    assert!(base.contains("series=par_yield"));
    assert!(base.contains("currency=USD"));
    assert!(base.contains("valuation_date=2026-08-14"));
    assert!(base.contains("maturity=10Y"));
    assert!(base.contains("curve_kind=nominal"));
    assert!(base.contains("vintage=-"), "缺 vintage 必须渲染为占位符");

    let mut vintaged = identity(YieldCurveTenor::Y10);
    vintaged.vintage = Some(code("v2"));
    assert_ne!(vintaged.canonical_key(), base, "vintage 必须进入规范键");

    let mut other_kind = identity(YieldCurveTenor::Y10);
    other_kind.curve_kind = YieldCurveKind::Real;
    assert_ne!(
        other_kind.canonical_key(),
        base,
        "curve_kind 必须进入规范键"
    );
}

#[test]
fn point_new_enforces_derived_completeness() {
    let incomplete = YieldCurvePoint::new(
        identity(YieldCurveTenor::Y5),
        YieldCurveRate::Present(4.0f64.to_bits()),
        YieldCurvePointOrigin::Derived,
        YieldCurveConvention::new("act365f").expect("合法惯例"),
        None,
    );
    assert!(incomplete.is_err(), "派生点缺输入必须拒绝");

    let complete = YieldCurvePoint::new(
        identity(YieldCurveTenor::Y5),
        YieldCurveRate::Present(4.0f64.to_bits()),
        YieldCurvePointOrigin::Derived,
        YieldCurveConvention::new("act365f").expect("合法惯例"),
        Some(vec![identity(YieldCurveTenor::Y2)]),
    );
    assert!(complete.is_ok(), "完整派生点必须通过");
}

#[test]
fn batch_new_rejects_duplicate_canonical_key() {
    let error = YieldCurveBatch::new(
        vec![
            official(YieldCurveTenor::Y10, 4.25),
            official(YieldCurveTenor::Y10, 4.30),
        ],
        Frequency::Daily,
        Unit::Percent,
    )
    .expect_err("重复身份必须拒绝");
    assert_eq!(
        error.kind(),
        yieldx::YieldCurveErrorKind::SemanticallyRejected
    );

    let ok = YieldCurveBatch::new(
        vec![
            official(YieldCurveTenor::Y2, 3.9),
            official(YieldCurveTenor::Y10, 4.25),
        ],
        Frequency::Daily,
        Unit::Percent,
    );
    assert!(ok.is_ok(), "不同期限可共存");
}

#[test]
fn batch_points_expose_read_only_slice() {
    let batch = YieldCurveBatch::new(
        vec![
            official(YieldCurveTenor::Y2, 3.9),
            official(YieldCurveTenor::Y10, 4.25),
        ],
        Frequency::Daily,
        Unit::Percent,
    )
    .expect("合法批");
    let points = batch.points();
    assert_eq!(points.len(), 2);
    assert_eq!(points[0].identity.maturity, YieldCurveTenor::Y2);
    assert_eq!(points[1].identity.maturity, YieldCurveTenor::Y10);
}

#[test]
fn batch_len_matches_point_count() {
    let batch = YieldCurveBatch::new(
        vec![
            official(YieldCurveTenor::Y2, 3.9),
            official(YieldCurveTenor::Y10, 4.25),
        ],
        Frequency::Daily,
        Unit::Percent,
    )
    .expect("合法批");
    assert_eq!(batch.len(), 2);
    assert_eq!(batch.len(), batch.points().len());
}

#[test]
fn empty_batch_is_valid_and_reports_empty() {
    let empty =
        YieldCurveBatch::new(Vec::new(), Frequency::Daily, Unit::Percent).expect("空批必须合法");
    assert!(empty.is_empty());
    assert_eq!(empty.len(), 0);
    assert_eq!(empty.frequency, Frequency::Daily);
    assert_eq!(empty.unit, Unit::Percent);
}

#[test]
fn validate_point_rejects_derived_inputs_on_official() {
    let point = YieldCurvePoint {
        identity: identity(YieldCurveTenor::Y10),
        rate: YieldCurveRate::Present(4.25f64.to_bits()),
        origin: YieldCurvePointOrigin::Official,
        convention: YieldCurveConvention::new("act365f").expect("合法惯例"),
        derived_from: Some(vec![identity(YieldCurveTenor::Y2)]),
    };
    assert_eq!(
        validate_curve_point(&point).expect_err("必须拒绝").kind(),
        yieldx::YieldCurveErrorKind::SemanticallyRejected
    );
    assert!(validate_curve_point(&official(YieldCurveTenor::Y10, 4.25)).is_ok());
}

#[test]
fn validate_batch_rejects_duplicates() {
    let ok = YieldCurveBatch::new(
        vec![
            official(YieldCurveTenor::Y2, 3.9),
            official(YieldCurveTenor::Y10, 4.25),
        ],
        Frequency::Daily,
        Unit::Percent,
    )
    .expect("合法批");
    assert!(validate_curve_batch(ok.points()).is_ok());

    let duplicate = [
        official(YieldCurveTenor::Y2, 3.9),
        official(YieldCurveTenor::Y10, 4.25),
        official(YieldCurveTenor::Y10, 4.50),
    ];
    assert_eq!(
        validate_curve_batch(&duplicate)
            .expect_err("非首点的重复也必须拒绝")
            .kind(),
        yieldx::YieldCurveErrorKind::SemanticallyRejected
    );
    assert!(
        YieldCurveBatch::new(duplicate.to_vec(), Frequency::Daily, Unit::Percent).is_err(),
        "构造入口同样必须拒绝"
    );
}

#[test]
fn routed_batch_validates_and_labels_source() {
    let batch = receive_routed_batch(
        YieldCurveRouteSource::TreasuryDs06,
        vec![official(YieldCurveTenor::Y10, 4.25)],
        Frequency::Daily,
        Unit::Percent,
    )
    .expect("接收成功");
    assert_eq!(batch.len(), 1);

    let error = receive_routed_batch(
        YieldCurveRouteSource::UkS07,
        vec![
            official(YieldCurveTenor::Y10, 4.25),
            official(YieldCurveTenor::Y10, 4.5),
        ],
        Frequency::Daily,
        Unit::Percent,
    )
    .expect_err("重复身份必须拒绝");
    assert!(
        error.to_string().contains("ukx:S07"),
        "拒绝消息须带来源：{}",
        error.to_string()
    );
}

#[test]
fn kernel_owns_only_l0_capabilities() {
    assert!(kernel_owns(YieldCurveCapability::L0ValueObjects));
    assert!(kernel_owns(YieldCurveCapability::BatchValidation));
    for capability in [
        YieldCurveCapability::HttpFetch,
        YieldCurveCapability::Authentication,
        YieldCurveCapability::Cache,
        YieldCurveCapability::Redistribution,
    ] {
        assert!(!kernel_owns(capability), "kernel 不拥有 {capability:?}");
    }
}

#[test]
fn provider_adapter_scope_is_denied() {
    let error = guard_provider_adapter_scope().expect_err("kernel 不批 provider 授权");
    assert_eq!(
        error.kind(),
        yieldx::YieldCurveErrorKind::WriteAuthorityDenied
    );
}

#[test]
fn fixture_parse_handles_official_and_derived() {
    let official_batch = batch_from_fixture(&sovereign_par_official()).expect("官方样本可解析");
    assert_eq!(official_batch.len(), 3);

    let derived_batch = batch_from_fixture(&with_derived_spread()).expect("派生样本可解析");
    assert_eq!(derived_batch.len(), 3);
    assert_eq!(
        derived_batch.points()[2].origin,
        YieldCurvePointOrigin::Derived
    );

    let negative = batch_from_fixture(&negative_incomplete_derived());
    assert!(negative.is_err(), "不完整派生负向样本必须拒绝");
}

#[test]
fn publication_triple_is_date_inferred_not_eligible() {
    assert_eq!(
        yield_curve_publication_semantics(),
        (
            TimePrecision::Date,
            AvailabilityEvidence::Inferred,
            PitEligibility::NotEligible
        )
    );
}

#[test]
fn formal_pit_is_never_eligible() {
    assert!(!is_formal_pit_eligible());
    assert_eq!(
        yield_curve_publication_semantics().2,
        PitEligibility::NotEligible
    );
}

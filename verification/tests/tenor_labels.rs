use yieldx::{YieldCurveConvention, YieldCurveErrorKind, YieldCurveKind, YieldCurveTenor, TENOR_CATALOG};

#[test]
fn tenor_order_matches_maturity_months() {
    let mut previous = 0;
    for tenor in TENOR_CATALOG {
        let months = tenor.months();
        assert!(
            months > previous,
            "{} 的到期月数必须严格递增（前值 {previous}）",
            tenor.label()
        );
        previous = months;
    }
    assert!(
        YieldCurveTenor::M1 < YieldCurveTenor::Y30,
        "排序语义按到期递增"
    );
    assert_eq!(TENOR_CATALOG.len(), 11);
}

#[test]
fn tenor_parse_is_case_sensitive_and_round_trips() {
    for tenor in TENOR_CATALOG {
        assert_eq!(
            YieldCurveTenor::parse(tenor.label()).expect("规范标签必须可解析"),
            tenor
        );
    }
    assert!(YieldCurveTenor::parse("10y").is_err(), "大小写必须敏感");
    assert!(YieldCurveTenor::parse("4Y").is_err(), "非规范期限必须拒绝");
    assert!(YieldCurveTenor::parse("").is_err());
}

#[test]
fn curve_kind_covers_three_states() {
    for (label, kind) in [
        ("nominal", YieldCurveKind::Nominal),
        ("real", YieldCurveKind::Real),
        ("ois", YieldCurveKind::Ois),
    ] {
        assert_eq!(
            YieldCurveKind::parse(label).expect("规范标签必须可解析"),
            kind
        );
        assert_eq!(kind.label(), label);
    }
    assert!(
        YieldCurveKind::parse("forward").is_err(),
        "三态之外必须拒绝"
    );
}

#[test]
fn convention_rejects_blank_and_whitespace() {
    assert_eq!(
        YieldCurveConvention::new("act365f")
            .expect("合法惯例")
            .as_str(),
        "act365f"
    );
    assert!(YieldCurveConvention::new("").is_err());
    assert!(YieldCurveConvention::new("  ").is_err());
    assert!(YieldCurveConvention::new(" act365f").is_err());
    assert!(YieldCurveConvention::new("a\tb").is_err());
    assert!(YieldCurveConvention::new(&"x".repeat(65)).is_err());
}

#[test]
fn unknown_labels_report_their_byte_length() {
    let error = YieldCurveTenor::parse("10y").expect_err("小写");
    assert_eq!(error.kind(), YieldCurveErrorKind::SemanticallyRejected);
    assert_eq!(
        error.to_string(),
        "语义不被接受：未知的期限标签（长度 3）；仅接受规范形态且大小写敏感"
    );
    assert_eq!(
        YieldCurveKind::parse("名义").expect_err("中文").to_string(),
        "语义不被接受：未知的曲线种类标签（长度 6）"
    );
    let months: Vec<u32> = TENOR_CATALOG.iter().map(|t| t.months()).collect();
    assert_eq!(months, vec![1, 3, 6, 12, 24, 36, 60, 84, 120, 240, 360]);
    let labels: Vec<&str> = TENOR_CATALOG.iter().map(|t| t.label()).collect();
    assert_eq!(
        labels,
        vec!["1M", "3M", "6M", "1Y", "2Y", "3Y", "5Y", "7Y", "10Y", "20Y", "30Y"]
    );
}

#[test]
fn convention_errors_name_the_rule() {
    assert_eq!(
        YieldCurveConvention::new("").expect_err("空").to_string(),
        "缺少必需项：利率惯例不得为空"
    );
    assert_eq!(
        YieldCurveConvention::new(&"x".repeat(65)).expect_err("超长").to_string(),
        "输入非法：利率惯例标识过长（上限 64）"
    );
    assert_eq!(
        YieldCurveConvention::new("a\tb").expect_err("控制字符").to_string(),
        "输入非法：利率惯例不得含控制字符"
    );
    assert_eq!(
        YieldCurveConvention::new("act365f ").expect_err("尾随空白").to_string(),
        "输入非法：利率惯例不得含前后空白（避免静默等值）"
    );
    assert!(YieldCurveConvention::new(&"é".repeat(64)).is_ok(), "按字符计长度");
    assert!(YieldCurveConvention::new(&"é".repeat(65)).is_err());
    let convention = YieldCurveConvention::new("act/365").expect("合法");
    assert_eq!(convention.clone(), convention);
}

#[test]
fn tenor_comparison_follows_months_for_every_pair() {
    for a in TENOR_CATALOG {
        for b in TENOR_CATALOG {
            assert_eq!(a < b, a.months() < b.months(), "{a:?} 与 {b:?}");
            assert_eq!(a == b, a.months() == b.months());
            assert_eq!(a.partial_cmp(&b), Some(a.cmp(&b)), "与 Ord 一致");
        }
    }
}

use yieldx::{
    Date, YieldCurveCode, YieldCurveErrorKind, YieldCurveKind, YieldCurvePointIdentity,
    YieldCurveTenor,
};

fn code(value: &str) -> YieldCurveCode {
    YieldCurveCode::new(value).expect("合法令牌")
}

fn identity() -> YieldCurvePointIdentity {
    YieldCurvePointIdentity {
        source: code("treasury"),
        series: code("DS06"),
        currency: code("USD"),
        valuation_date: Date::new(2026, 8, 14).expect("合法日期"),
        maturity: YieldCurveTenor::Y10,
        curve_kind: YieldCurveKind::Nominal,
        vintage: None,
    }
}

#[test]
fn canonical_key_is_stable_and_fully_qualified() {
    let key = identity().canonical_key();
    assert_eq!(
        key,
        "source=treasury;series=DS06;currency=USD;valuation_date=2026-08-14;maturity=10Y;curve_kind=nominal;vintage=-"
    );
    assert_eq!(identity().canonical_key(), key, "同身份必须同键");
}

#[test]
fn every_identity_dimension_changes_the_key() {
    let base = identity().canonical_key();

    let mut other = identity();
    other.source = code("ecb");
    assert_ne!(other.canonical_key(), base, "source 必须参与身份");

    let mut other = identity();
    other.series = code("DS07");
    assert_ne!(other.canonical_key(), base, "series 必须参与身份");

    let mut other = identity();
    other.currency = code("EUR");
    assert_ne!(other.canonical_key(), base, "currency 必须参与身份");

    let mut other = identity();
    other.valuation_date = Date::new(2026, 8, 15).expect("合法日期");
    assert_ne!(other.canonical_key(), base, "valuation_date 必须参与身份");

    let mut other = identity();
    other.maturity = YieldCurveTenor::Y30;
    assert_ne!(other.canonical_key(), base, "maturity 必须参与身份");

    let mut other = identity();
    other.curve_kind = YieldCurveKind::Real;
    assert_ne!(other.canonical_key(), base, "curve_kind 必须参与身份");

    let mut other = identity();
    other.vintage = Some(code("v2"));
    assert_ne!(other.canonical_key(), base, "vintage 必须参与身份");
}

#[test]
fn delimiter_and_escape_tokens_cannot_collide() {
    let mut left = identity();
    left.source = code("a;series=b");
    left.series = code("c");
    let mut right = identity();
    right.source = code("a");
    right.series = code("b;series=c");
    assert_ne!(left.canonical_key(), right.canonical_key());

    right = left.clone();
    right.source = code("a%3Bseries%3Db");
    assert_ne!(left.canonical_key(), right.canonical_key());
}

#[test]
fn literal_vintage_placeholder_is_not_missing_vintage() {
    let absent = identity();
    let mut literal = absent.clone();
    literal.vintage = Some(code("-"));
    assert_ne!(absent.canonical_key(), literal.canonical_key());
    literal.vintage = Some(code("%2D"));
    let mut dash = absent.clone();
    dash.vintage = Some(code("-"));
    assert_ne!(literal.canonical_key(), dash.canonical_key());
}

#[test]
fn code_rejects_blank_and_overlong() {
    assert!(YieldCurveCode::new("").is_err());
    assert!(YieldCurveCode::new("  ").is_err());
    assert!(YieldCurveCode::new(" usd").is_err());
    assert!(YieldCurveCode::new("a\nb").is_err());
    assert!(YieldCurveCode::new(&"x".repeat(65)).is_err());
}

#[test]
fn canonical_key_escapes_exactly_the_reserved_characters() {
    let mut id = identity();
    id.source = code("a%b;c=d");
    id.vintage = Some(code("-"));
    assert_eq!(
        id.canonical_key(),
        "source=a%25b%3Bc%3Dd;series=DS06;currency=USD;valuation_date=2026-08-14;maturity=10Y;curve_kind=nominal;vintage=%2D"
    );
    id.vintage = Some(code("%2D"));
    assert!(id.canonical_key().ends_with("vintage=%252D"));
    id.source = code("收益率");
    assert!(id.canonical_key().starts_with("source=收益率;series="));
}

#[test]
fn code_errors_name_the_rule() {
    let blank = YieldCurveCode::new(" \t ").expect_err("空白");
    assert_eq!(blank.kind(), YieldCurveErrorKind::Missing);
    assert_eq!(blank.to_string(), "缺少必需项：身份令牌不得为空");
    let long = YieldCurveCode::new(&"x".repeat(65)).expect_err("超长");
    assert_eq!(long.to_string(), "输入非法：身份令牌过长（上限 64）");
    let control = YieldCurveCode::new("a\u{7f}b").expect_err("控制字符");
    assert_eq!(control.to_string(), "输入非法：身份令牌不得含控制字符");
    let padded = YieldCurveCode::new("usd\u{3000}").expect_err("全角空白");
    assert_eq!(padded.to_string(), "输入非法：身份令牌不得含前后空白（避免静默等值）");
    assert_eq!(code(&"x".repeat(64)).as_str().len(), 64);
    assert!(YieldCurveCode::new(&"é".repeat(40)).is_ok(), "按字符计长度");
    assert!(YieldCurveCode::new(&"é".repeat(64)).is_ok());
    assert!(YieldCurveCode::new(&"é".repeat(65)).is_err());
    assert_eq!(code("a b").as_str(), "a b", "内部空白保留");
}

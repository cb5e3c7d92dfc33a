use yieldx::{
    batch_from_fixture, FixtureDocument, FixtureIdentity, FixturePoint, Frequency, Unit,
    YieldCurveErrorKind, YieldCurveMissingReason, YieldCurvePointOrigin, YieldCurveRate,
};

fn point(maturity: &str) -> FixturePoint {
    FixturePoint {
        source: "treasury".to_string(),
        series: "DS06".to_string(),
        currency: "USD".to_string(),
        valuation_date: "2026-08-14".to_string(),
        maturity: maturity.to_string(),
        curve_kind: "nominal".to_string(),
        vintage: None,
        rate_percent: Some(4.25f64.to_bits()),
        missing_reason: None,
        origin: "official".to_string(),
        convention: "act365f".to_string(),
        derived_from: Vec::new(),
    }
}

fn input(maturity: &str) -> FixtureIdentity {
    FixtureIdentity {
        source: "treasury".to_string(),
        series: "DS06".to_string(),
        currency: "USD".to_string(),
        valuation_date: "2026-08-14".to_string(),
        maturity: maturity.to_string(),
        curve_kind: "nominal".to_string(),
        vintage: None,
    }
}

fn document(points: Vec<FixturePoint>) -> FixtureDocument {
    FixtureDocument {
        synthetic: true,
        note: Some("合成样本".to_string()),
        kind: "kernel_fixture".to_string(),
        frequency: "daily".to_string(),
        unit: "percent".to_string(),
        points,
    }
}

fn ok_document() -> FixtureDocument {
    let mut blank = point("5Y");
    blank.rate_percent = None;
    blank.missing_reason = Some("source_blank".to_string());
    document(vec![point("10Y"), blank])
}

fn message(doc: &FixtureDocument) -> String {
    batch_from_fixture(doc).expect_err("必须拒绝").to_string()
}

#[test]
fn fixture_document_builds_the_batch() {
    let batch = batch_from_fixture(&ok_document()).expect("解析成功");
    assert_eq!(batch.len(), 2);
    assert_eq!(batch.unit, Unit::Percent);
    assert_eq!(batch.frequency, Frequency::Daily);
    assert_eq!(batch.points()[0].rate, YieldCurveRate::Present(4.25f64.to_bits()));
    assert_eq!(
        batch.points()[1].rate,
        YieldCurveRate::Missing(YieldCurveMissingReason::SourceBlank)
    );
}

#[test]
fn fixture_note_must_be_present_and_not_blank() {
    for note in [None, Some(String::new()), Some(" \t\u{3000}".to_string())] {
        let mut doc = ok_document();
        doc.note = note;
        let error = batch_from_fixture(&doc).expect_err("缺失或空白的 _note 须拒绝");
        assert_eq!(error.kind(), YieldCurveErrorKind::SemanticallyRejected);
        assert_eq!(
            error.to_string(),
            "语义不被接受：合成夹具必须携带非空白 \"_note\" 说明；缺失、null 或空白均拒绝"
        );
    }
    let mut unmarked = ok_document();
    unmarked.synthetic = false;
    unmarked.note = None;
    assert_eq!(
        message(&unmarked),
        "语义不被接受：夹具必须显式标注 \"_synthetic\": true；未标注来源的输入不得当作源事实"
    );
    let mut padded = ok_document();
    padded.note = Some(" 合成样本 ".to_string());
    assert!(batch_from_fixture(&padded).is_ok(), "非空白即可");
}

#[test]
fn fixture_unmarked_or_other_kind_is_refused() {
    let mut unmarked = ok_document();
    unmarked.synthetic = false;
    let error = batch_from_fixture(&unmarked).expect_err("未标注");
    assert_eq!(error.kind(), YieldCurveErrorKind::SemanticallyRejected);
    assert_eq!(
        error.to_string(),
        "语义不被接受：夹具必须显式标注 \"_synthetic\": true；未标注来源的输入不得当作源事实"
    );
    let mut other = ok_document();
    other.kind = "live_dump".to_string();
    assert_eq!(
        message(&other),
        "语义不被接受：文档类型须为 kernel_fixture（实际长度 9）"
    );
}

#[test]
fn fixture_value_must_be_exactly_one_of_number_or_reason() {
    let mut ambiguous = ok_document();
    ambiguous.points[0].missing_reason = Some("source_blank".to_string());
    let error = batch_from_fixture(&ambiguous).expect_err("歧义");
    assert_eq!(error.kind(), YieldCurveErrorKind::SemanticallyRejected);
    let mut absent = ok_document();
    absent.points[0].rate_percent = None;
    let error = batch_from_fixture(&absent).expect_err("缺取值");
    assert_eq!(error.kind(), YieldCurveErrorKind::Missing);
    assert_eq!(error.to_string(), "缺少必需项：rate_percent 与 missing_reason 必须恰有其一");
    let mut unknown = ok_document();
    unknown.points[1].missing_reason = Some("lost".to_string());
    assert_eq!(message(&unknown), "语义不被接受：未知的 missing_reason 令牌（长度 4）");
}

#[test]
fn fixture_bad_tokens_and_dates_are_refused() {
    let mut tenor = ok_document();
    tenor.points[0].maturity = "10y".to_string();
    assert!(batch_from_fixture(&tenor).is_err(), "期限大小写必须敏感");
    let mut date = ok_document();
    date.points[0].valuation_date = "2026-8-14".to_string();
    assert_eq!(
        batch_from_fixture(&date).expect_err("日期").kind(),
        YieldCurveErrorKind::Invalid
    );
    let mut frequency = ok_document();
    frequency.frequency = "hourly".to_string();
    assert_eq!(message(&frequency), "语义不被接受：未知的频率令牌（长度 6）");
    let mut unit = ok_document();
    unit.unit = "parsec".to_string();
    assert_eq!(message(&unit), "语义不被接受：未知的单位令牌（长度 6）；不得静默假定单位");
    let mut origin = ok_document();
    origin.points[0].origin = "estimated".to_string();
    assert_eq!(message(&origin), "语义不被接受：未知的 origin 令牌（长度 9）");
    let mut convention = ok_document();
    convention.points[0].convention = " act365f".to_string();
    assert_eq!(
        message(&convention),
        "输入非法：利率惯例不得含前后空白（避免静默等值）"
    );
    let mut source = ok_document();
    source.points[0].source = String::new();
    assert_eq!(message(&source), "缺少必需项：身份令牌不得为空");
}

#[test]
fn fixture_duplicate_identity_is_refused() {
    let mut second = point("10Y");
    second.rate_percent = Some(4.30f64.to_bits());
    let duplicate = document(vec![point("10Y"), second]);
    assert_eq!(
        message(&duplicate),
        "语义不被接受：批内重复身份出现在第 2 个点；canonical_key 在批内必须唯一（不得静默去重）"
    );
}

#[test]
fn fixture_incomplete_derived_point_is_refused() {
    let mut derived = point("5Y");
    derived.origin = "derived".to_string();
    let error = batch_from_fixture(&document(vec![derived])).expect_err("不完整派生");
    assert_eq!(error.kind(), YieldCurveErrorKind::SemanticallyRejected);
}

#[test]
fn fixture_complete_derived_point_with_vintage_builds() {
    let mut derived = point("5Y");
    derived.origin = "derived".to_string();
    derived.vintage = Some("v2".to_string());
    derived.derived_from = vec![input("2Y")];
    let batch = batch_from_fixture(&document(vec![derived])).expect("完整派生点");
    assert_eq!(batch.points()[0].origin, YieldCurvePointOrigin::Derived);
    let key = batch.points()[0].identity.canonical_key();
    assert!(key.contains("vintage=v2"), "vintage 必须进入规范键：{key}");
    let mut bad_input = point("5Y");
    bad_input.origin = "derived".to_string();
    let mut broken = input("2Y");
    broken.valuation_date = "2026-02-30".to_string();
    bad_input.derived_from = vec![input("1Y"), broken];
    assert_eq!(
        message(&document(vec![bad_input])),
        "输入非法：日超出该月实际天数（已含闰年规则）"
    );
}

use yieldx::{Date, Period, YieldCurveErrorKind};

#[test]
fn date_parses_strict_iso_only() {
    assert_eq!(
        Date::parse("2026-08-15").expect("合法日期"),
        Date {
            year: 2026,
            month: 8,
            day: 15
        }
    );
    for bad in [
        "2026-2-3",
        "2026/08/15",
        "2026-08-15T00:00:00",
        "20260815",
        "2026-13-01",
        "2026-02-29",
        "",
    ] {
        assert!(Date::parse(bad).is_err(), "{bad} 必须被拒绝");
    }
}

#[test]
fn date_honours_leap_year_rules() {
    assert!(Date::parse("2024-02-29").is_ok(), "2024 是闰年");
    assert!(Date::parse("2000-02-29").is_ok(), "2000 是 400 倍数闰年");
    assert!(Date::parse("1900-02-29").is_err(), "1900 非闰年");
}

#[test]
fn period_parses_four_forms_and_rejects_others() {
    assert!(matches!(Period::parse("2026-08-15"), Ok(Period::Day(_))));
    assert!(matches!(
        Period::parse("2026-08"),
        Ok(Period::Month { month: 8, .. })
    ));
    assert!(matches!(
        Period::parse("2026-Q3"),
        Ok(Period::Quarter { quarter: 3, .. })
    ));
    assert_eq!(Period::parse("2026").expect("年度期间"), Period::Year(2026));
    for bad in ["2026-13", "2026-Q5", "26-08", "2026-8", "2026/08"] {
        assert!(Period::parse(bad).is_err(), "{bad} 必须被拒绝");
    }
}

#[test]
fn date_iso_rendering_is_zero_padded() {
    assert_eq!(
        Date::new(2026, 8, 5).expect("合法日期").to_iso_string(),
        "2026-08-05"
    );
}

#[test]
fn adversarial_period_year_range_is_consistent() {
    for period in ["0000", "0999", "0000-01", "0999-Q1"] {
        assert!(Period::parse(period).is_err(), "非法年份：{period}");
    }
}

#[test]
fn date_new_reports_each_rule() {
    let year = Date::new(999, 1, 1).expect_err("三位年份");
    assert_eq!(year.kind(), YieldCurveErrorKind::Invalid);
    assert_eq!(year.to_string(), "输入非法：年份须为 4 位形态（1000–9999）");
    let month = Date::new(2026, 13, 1).expect_err("13 月");
    assert_eq!(month.to_string(), "输入非法：月份须在 1–12 之间");
    let day = Date::new(2026, 4, 31).expect_err("4 月 31 日");
    assert_eq!(day.to_string(), "输入非法：日超出该月实际天数（已含闰年规则）");
    assert!(Date::new(2026, 4, 0).is_err());
    assert_eq!(Date::new(9999, 12, 31).expect("上界").day, 31);
    assert_eq!(Date::new(1000, 1, 1).expect("下界").year, 1000);
}

#[test]
fn date_parse_reports_shape_and_digit_errors() {
    assert_eq!(
        Date::parse("2026/08/15").expect_err("分隔符").to_string(),
        "输入非法：日期须为严格 ISO 形态 YYYY-MM-DD"
    );
    assert_eq!(
        Date::parse("2o26-08-15").expect_err("年份非数字").to_string(),
        "输入非法：年份须为 4 位数字"
    );
    assert_eq!(
        Date::parse("2026-0x-15").expect_err("月份非数字").to_string(),
        "输入非法：月/日须为 2 位数字"
    );
    assert_eq!(
        Date::parse("0999-01-01").expect_err("三位年份").to_string(),
        "输入非法：年份须为 4 位形态（1000–9999）"
    );
}

#[test]
fn iso_rendering_follows_the_format_for_every_year() {
    assert_eq!(Date { year: 5, month: 1, day: 2 }.to_iso_string(), "0005-01-02");
    assert_eq!(Date { year: -5, month: 12, day: 30 }.to_iso_string(), "-005-12-30");
    assert_eq!(Date { year: 12345, month: 100, day: 7 }.to_iso_string(), "12345-100-07");
    assert_eq!(
        Date { year: -32768, month: 0, day: 0 }.to_iso_string(),
        format!("{:04}-{:02}-{:02}", -32768i16, 0u8, 0u8)
    );
    let date = Date::parse("2024-02-29").expect("闰日");
    assert_eq!(Date::parse(&date.to_iso_string()).expect("往返"), date);
}

#[test]
fn period_reports_each_rule() {
    assert_eq!(
        Period::parse("2026-Q0").expect_err("季度 0").to_string(),
        "输入非法：季度须在 1–4 之间"
    );
    assert_eq!(
        Period::parse("2026-Qx").expect_err("季度非数字").to_string(),
        "输入非法：季度须为 1 位数字"
    );
    assert_eq!(
        Period::parse("2026-00").expect_err("月 0").to_string(),
        "输入非法：月份须在 1–12 之间"
    );
    assert_eq!(
        Period::parse("20261").expect_err("五位").to_string(),
        "输入非法：期间须为 YYYY / YYYY-MM / YYYY-Qn / YYYY-MM-DD 之一"
    );
    let lower = Period::parse("2026-q2").expect_err("季度标记只认大写 Q");
    assert_eq!(lower.kind(), YieldCurveErrorKind::Invalid);
    assert_eq!(lower.to_string(), "输入非法：月/日须为 2 位数字");
    assert_eq!(
        Period::parse("2026-02-29").expect_err("非闰年").kind(),
        YieldCurveErrorKind::Invalid
    );
}

#[test]
fn date_parse_reads_back_its_rendering_and_nothing_else() {
    for (year, month, day) in [(1000, 1, 1), (2024, 2, 29), (2026, 8, 14), (9999, 12, 31)] {
        let date = Date::new(year, month, day).expect("合法日期");
        let text = date.to_iso_string();
        assert_eq!(Date::parse(&text).expect("渲染结果可读回"), date);
    }
    assert!(Date::parse("2026-8-14").is_err());
    assert!(Date::parse("+026-08-14").is_err());
    assert!(Date::parse("2026-08-1４").is_err());
}

#[test]
fn ten_byte_period_is_the_date_parse() {
    for text in ["2026-08-14", "2024-02-29", "2023-02-29", "2026/08/14", "0999-01-01"] {
        match (Period::parse(text), Date::parse(text)) {
            (Ok(period), Ok(date)) => assert_eq!(period, Period::Day(date)),
            (Err(a), Err(b)) => {
                assert_eq!(a.kind(), b.kind());
                assert_eq!(a.to_string(), b.to_string());
            }
            _ => panic!("期间与日期对 {text} 的判定不一致"),
        }
    }
}

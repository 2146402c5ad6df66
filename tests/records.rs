use plot::clock::{tokyo_minute_of, Stamp};
use plot::record::{get_attribute_values_str, Attr, Record, RecordError};
use plot::table::{sort_by_time, time_sequential_dataframe, Row, Table, TableBuildError};

fn text(s: &str) -> Attr {
    Attr::Text(s.to_string())
}

fn number(s: &str) -> Attr {
    Attr::Number(s.to_string())
}

fn record(ts: Option<&str>, kwh: &str, watt: &str, r: &str, t: Option<&str>) -> Record {
    let mut fields = Vec::new();
    if let Some(ts) = ts {
        fields.push(("measured_at".to_string(), text(ts)));
    }
    fields.push(("sensor_id".to_string(), text("smartmeter")));
    fields.push(("message_id".to_string(), number("7")));
    fields.push(("cumulative_kwh".to_string(), number(kwh)));
    fields.push(("instant_watt".to_string(), number(watt)));
    fields.push(("instant_ampere_R".to_string(), number(r)));
    if let Some(t) = t {
        fields.push(("instant_ampere_T".to_string(), number(t)));
    }
    Record { fields }
}

#[test]
fn attribute_text_by_type_tag() {
    let rec = Record {
        fields: vec![
            ("a".to_string(), text("x")),
            ("b".to_string(), number("1.5")),
            ("c".to_string(), Attr::Unsupported("BOOL(true)".to_string())),
        ],
    };
    assert_eq!(get_attribute_values_str(&rec, &"a".to_string()), Ok(Some("x".to_string())));
    assert_eq!(get_attribute_values_str(&rec, &"b".to_string()), Ok(Some("1.5".to_string())));
    assert_eq!(get_attribute_values_str(&rec, &"z".to_string()), Ok(None));
    assert_eq!(
        get_attribute_values_str(&rec, &"c".to_string()),
        Err(RecordError::UnsupportedAttributeType("c".to_string()))
    );
}

#[test]
fn timestamp_is_shown_in_tokyo_and_cut_to_the_minute() {
    let s = tokyo_minute_of("2023-01-01T00:15:42.5Z").unwrap();
    assert_eq!(s, Stamp { utc_secs: 1_672_532_100, offset_secs: 32_400 });
    assert_eq!(s.to_rfc3339(), "2023-01-01T09:15:00+09:00");
    assert_eq!(tokyo_minute_of("yesterday"), None);
}

#[test]
fn table_keeps_one_row_per_timestamped_record() {
    let items = vec![
        record(Some("2023-01-01T09:15:30+09:00"), "100.5", "320", "2.0", Some("1.5")),
        record(None, "100.6", "330", "2.1", None),
        record(Some("not a time"), "100.7", "340", "2.2", None),
        record(Some("2023-01-01T00:45:00Z"), "100.8", "350", "2.3", None),
    ];
    let built = time_sequential_dataframe(&items).unwrap();
    assert_eq!(built.table.rows.len(), 2);
    assert_eq!(built.discarded, vec!["not a time".to_string()]);
    let first = &built.table.rows[0];
    assert_eq!(first.measured_at, Stamp { utc_secs: 1_672_532_100, offset_secs: 32_400 });
    assert_eq!(first.sensor_id, Some("smartmeter".to_string()));
    assert_eq!(first.message_id, Some(7));
    assert_eq!(first.cumulative_kwh, Some(100_500_000));
    assert_eq!(first.instant_watt, Some(320_000_000));
    assert_eq!(first.instant_ampere_r, Some(2_000_000));
    assert_eq!(first.instant_ampere_t, Some(1_500_000));
    let second = &built.table.rows[1];
    assert_eq!(second.measured_at, Stamp { utc_secs: 1_672_533_900, offset_secs: 32_400 });
    assert_eq!(second.instant_ampere_t, None);
}

#[test]
fn table_has_the_fixed_column_order() {
    let built = time_sequential_dataframe(&Vec::new()).unwrap();
    assert_eq!(built.table.rows.len(), 0);
    assert_eq!(
        built.table.column_names(),
        vec![
            "measured_at",
            "sensor_id",
            "message_id",
            "cumulative_kwh",
            "instant_watt",
            "instant_ampere_R",
            "instant_ampere_T"
        ]
    );
}

#[test]
fn unsupported_attribute_fails_the_build() {
    let mut rec = record(Some("2023-01-01T09:15:30+09:00"), "1", "2", "3", None);
    rec.fields.push(("instant_ampere_T".to_string(), Attr::Unsupported("NULL".to_string())));
    let r = time_sequential_dataframe(&vec![rec]);
    assert_eq!(
        r.err(),
        Some(TableBuildError::UnsupportedAttributeType("instant_ampere_T".to_string()))
    );
}

#[test]
fn non_numeric_cell_fails_the_build() {
    let rec = record(Some("2023-01-01T09:15:30+09:00"), "1", "lots", "3", None);
    let r = time_sequential_dataframe(&vec![rec]);
    assert_eq!(
        r.err(),
        Some(TableBuildError::NotANumber {
            column: "instant_watt".to_string(),
            text: "lots".to_string()
        })
    );
}

fn row_at(utc: i64, n: u32) -> Row {
    Row {
        measured_at: Stamp { utc_secs: utc, offset_secs: 32_400 },
        sensor_id: None,
        message_id: Some(n),
        cumulative_kwh: None,
        instant_watt: None,
        instant_ampere_r: None,
        instant_ampere_t: None,
    }
}

#[test]
fn rows_sort_by_time() {
    let t = Table { rows: vec![row_at(300, 1), row_at(100, 2), row_at(200, 3), row_at(100, 4)] };
    let s = sort_by_time(t);
    let ids: Vec<u32> = s.rows.iter().map(|r| r.message_id.unwrap()).collect();
    assert_eq!(ids, vec![2, 4, 3, 1]);
}

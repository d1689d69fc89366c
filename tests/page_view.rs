use appinsights::container::{ContextTags, KeyMap, Measurements, Properties};
use appinsights::context::TelemetryContext;
use appinsights::contracts::{Base, Data, Envelope, PageViewData};
use appinsights::page_view::PageViewTelemetry;
use appinsights::time::Timestamp;
use appinsights::uri::Uri;
use appinsights::uuid::Uuid;

fn timestamp(year: i32, month: u32, day: u32, hour: u32, min: u32, sec: u32, milli: u32) -> Timestamp {
    let instant = chrono::NaiveDate::from_ymd_opt(year, month, day)
        .unwrap()
        .and_hms_milli_opt(hour, min, sec, milli)
        .unwrap()
        .and_utc();
    Timestamp::from_unix(instant.timestamp(), instant.timestamp_subsec_nanos()).unwrap()
}

fn strings(entries: &[(&str, &str)]) -> Properties {
    let mut map = KeyMap::new();
    for (k, v) in entries {
        map.insert(k.to_string(), v.to_string());
    }
    map
}

fn page_view_at(time: Timestamp) -> PageViewTelemetry {
    PageViewTelemetry::new_at(
        "page updated".to_string(),
        Uri::parse("https://example.com/main.html").unwrap(),
        time,
    )
}

#[test]
fn it_overrides_properties_from_context() {
    let time = timestamp(2019, 1, 2, 3, 4, 5, 800);

    let mut context = TelemetryContext::new("instrumentation".into(), ContextTags::new(), Properties::new());
    context.properties_mut().insert("test".into(), "ok".into());
    context.properties_mut().insert("no-write".into(), "fail".into());

    let mut telemetry = page_view_at(time);
    telemetry.properties_mut().insert("no-write".into(), "ok".into());
    telemetry.measurements_mut().insert("latency".into(), 200.0f64.to_bits());

    let envelop = Envelope::from_page_view(context, telemetry);

    let expected = Envelope {
        name: "Microsoft.ApplicationInsights.PageView".into(),
        time: "2019-01-02T03:04:05.800Z".into(),
        i_key: Some("instrumentation".into()),
        tags: Some(ContextTags::new()),
        data: Some(Base::Data(Data::PageViewData(PageViewData {
            ver: 2,
            name: "page updated".into(),
            url: Some("https://example.com/main.html".into()),
            duration: None,
            referrer_uri: None,
            id: String::new(),
            properties: Some({
                let mut properties = Properties::new();
                properties.insert("test".into(), "ok".into());
                properties.insert("no-write".into(), "ok".into());
                properties
            }),
            measurements: Some({
                let mut measurement = Measurements::new();
                measurement.insert("latency".into(), 200.0f64.to_bits());
                measurement
            }),
        }))),
    };

    assert_eq!(envelop, expected)
}

#[test]
fn it_overrides_tags_from_context() {
    let time = timestamp(2019, 1, 2, 3, 4, 5, 700);

    let mut context = TelemetryContext::new("instrumentation".into(), ContextTags::new(), Properties::new());
    context.tags_mut().insert("test".into(), "ok".into());
    context.tags_mut().insert("no-write".into(), "fail".into());

    let mut telemetry = page_view_at(time);
    telemetry.tags_mut().insert("no-write".into(), "ok".into());

    let envelop = Envelope::from_page_view(context, telemetry);

    let expected = Envelope {
        name: "Microsoft.ApplicationInsights.PageView".into(),
        time: "2019-01-02T03:04:05.700Z".into(),
        i_key: Some("instrumentation".into()),
        tags: Some({
            let mut tags = ContextTags::new();
            tags.insert("test".into(), "ok".into());
            tags.insert("no-write".into(), "ok".into());
            tags
        }),
        data: Some(Base::Data(Data::PageViewData(PageViewData {
            ver: 2,
            name: "page updated".into(),
            url: Some("https://example.com/main.html".into()),
            duration: None,
            referrer_uri: None,
            id: String::new(),
            properties: Some(Properties::new()),
            measurements: Some(Measurements::new()),
        }))),
    };

    assert_eq!(envelop, expected)
}

#[test]
fn combine_prefers_overlay_values() {
    let base = strings(&[("a", "1"), ("b", "2")]);
    let overlay = strings(&[("b", "3"), ("c", "4")]);
    let merged = KeyMap::combine(base, overlay);
    assert_eq!(merged.len(), 3);
    assert_eq!(merged.get(&"a".to_string()), Some(&"1".to_string()));
    assert_eq!(merged.get(&"b".to_string()), Some(&"3".to_string()));
    assert_eq!(merged.get(&"c".to_string()), Some(&"4".to_string()));
    assert_eq!(merged.get(&"d".to_string()), None);
}

#[test]
fn combine_with_empty_side_keeps_other() {
    let m = strings(&[("x", "1"), ("y", "2")]);
    assert_eq!(KeyMap::combine(strings(&[("x", "1"), ("y", "2")]), Properties::new()), m);
    assert_eq!(KeyMap::combine(Properties::new(), strings(&[("x", "1"), ("y", "2")])), m);
    assert!(KeyMap::combine(Properties::new(), Properties::new()).is_empty());
}

#[test]
fn insert_replaces_and_returns_old_value() {
    let mut m = Properties::new();
    assert_eq!(m.insert("k".into(), "v1".into()), None);
    assert_eq!(m.insert("k".into(), "v2".into()), Some("v1".to_string()));
    assert_eq!(m.len(), 1);
    assert_eq!(m.get(&"k".to_string()), Some(&"v2".to_string()));
}

#[test]
fn equality_ignores_insertion_order() {
    let a = strings(&[("a", "1"), ("b", "2")]);
    let b = strings(&[("b", "2"), ("a", "1")]);
    let c = strings(&[("a", "1"), ("b", "3")]);
    assert_eq!(a, b);
    assert_ne!(a, c);
    assert_ne!(a, strings(&[("a", "1")]));
}

#[test]
fn timestamp_formats_with_milliseconds_and_z() {
    assert_eq!(timestamp(2019, 1, 2, 3, 4, 5, 800).to_rfc3339_millis(), "2019-01-02T03:04:05.800Z");
    assert_eq!(timestamp(2019, 1, 2, 3, 4, 5, 0).to_rfc3339_millis(), "2019-01-02T03:04:05.000Z");
    let t = Timestamp::from_unix(1546398245, 123_456_789).unwrap();
    assert_eq!(t.to_rfc3339_millis(), "2019-01-02T03:04:05.123Z");
}

#[test]
fn timestamp_rejects_out_of_range_values() {
    assert!(Timestamp::from_unix(0, 1_000_000_000).is_none());
    assert!(Timestamp::from_unix(253402300800, 0).is_none());
    assert!(Timestamp::from_unix(-62167219201, 0).is_none());
    assert_eq!(Timestamp::from_unix(253402300799, 999_999_999).unwrap().to_rfc3339_millis(), "9999-12-31T23:59:59.999Z");
    assert_eq!(Timestamp::from_unix(-62167219200, 0).unwrap().to_rfc3339_millis(), "0000-01-01T00:00:00.000Z");
}

#[test]
fn uri_is_normalized_by_parser() {
    let u = Uri::parse("HTTPS://example.com/main.html").unwrap();
    assert_eq!(u.as_str(), "https://example.com/main.html");
    assert!(Uri::parse("not a uri").is_none());
}

#[test]
fn default_id_is_empty_string() {
    let context = TelemetryContext::new("key".into(), ContextTags::new(), Properties::new());
    let envelope = Envelope::from_page_view(context, page_view_at(timestamp(2020, 5, 6, 7, 8, 9, 10)));
    match envelope.data {
        Some(Base::Data(Data::PageViewData(d))) => assert_eq!(d.id, ""),
        _ => panic!("page view payload expected"),
    }
}

#[test]
fn set_id_is_rendered_hyphenated() {
    let id = Uuid::from_bytes([
        0x67, 0xe5, 0x50, 0x44, 0x10, 0xb1, 0x42, 0x6f, 0x92, 0x47, 0xbb, 0x68, 0x0e, 0x5f, 0xe0, 0xc8,
    ]);
    assert_eq!(id.to_hyphenated(), "67e55044-10b1-426f-9247-bb680e5fe0c8");
    let mut telemetry = page_view_at(timestamp(2020, 5, 6, 7, 8, 9, 10));
    telemetry.set_id(Some(id));
    let context = TelemetryContext::new("key".into(), ContextTags::new(), Properties::new());
    match Envelope::from_page_view(context, telemetry).data {
        Some(Base::Data(Data::PageViewData(d))) => assert_eq!(d.id, "67e55044-10b1-426f-9247-bb680e5fe0c8"),
        _ => panic!("page view payload expected"),
    }
}

#[test]
fn empty_instrumentation_key_is_absent() {
    let context = TelemetryContext::new(String::new(), ContextTags::new(), Properties::new());
    let envelope = Envelope::from_page_view(context, page_view_at(timestamp(2020, 5, 6, 7, 8, 9, 10)));
    assert_eq!(envelope.i_key, None);
    assert_eq!(envelope.tags, Some(ContextTags::new()));
}

#[test]
fn conversion_is_idempotent() {
    let make = || {
        let mut context = TelemetryContext::new("key".into(), strings(&[("t", "1")]), strings(&[("p", "1")]));
        context.tags_mut().insert("u".into(), "2".into());
        let mut telemetry = page_view_at(timestamp(2021, 2, 3, 4, 5, 6, 7));
        telemetry.properties_mut().insert("p".into(), "2".into());
        (context, telemetry)
    };
    let (c1, t1) = make();
    let (c2, t2) = make();
    assert_eq!(Envelope::from_page_view(c1, t1), Envelope::from_page_view(c2, t2));
}

#[test]
fn envelope_holds_one_page_view_payload() {
    let context = TelemetryContext::new("key".into(), ContextTags::new(), Properties::new());
    let envelope = Envelope::from_page_view(context, page_view_at(timestamp(2020, 1, 1, 0, 0, 0, 0)));
    assert!(matches!(envelope.data, Some(Base::Data(Data::PageViewData(_)))));
    assert_eq!(envelope.name, "Microsoft.ApplicationInsights.PageView");
}

#[test]
fn new_page_view_starts_empty() {
    let t = PageViewTelemetry::new("home".into(), Uri::parse("https://example.com/").unwrap());
    assert!(t.properties().is_empty());
    assert!(t.tags().is_empty());
    assert!(t.measurements().is_empty());
    assert_eq!(t.id(), None);
    assert_eq!(t.name(), "home");
    assert_eq!(t.uri().as_str(), "https://example.com/");
}

#[test]
fn clock_reading_is_held_within_range() {
    let t = Timestamp::from_clock_reading(1546398245, 800_000_000);
    assert_eq!((t.unix_secs(), t.subsec_nanos()), (1546398245, 800_000_000));
    let t = Timestamp::from_clock_reading(i64::MAX, 5);
    assert_eq!((t.unix_secs(), t.subsec_nanos()), (253402300799, 999_999_999));
    let t = Timestamp::from_clock_reading(i64::MIN, 5);
    assert_eq!((t.unix_secs(), t.subsec_nanos()), (-62167219200, 0));
    let t = Timestamp::from_clock_reading(59, 1_500_000_000);
    assert_eq!((t.unix_secs(), t.subsec_nanos()), (59, 999_999_999));
}

#[test]
fn now_is_after_1970_on_this_machine() {
    let t = Timestamp::now();
    assert!(t.unix_secs() > 1_500_000_000);
    assert!(t.subsec_nanos() < 1_000_000_000);
}

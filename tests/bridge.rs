use naradamuni::decimal::parse_i32;
use naradamuni::exporter::{scrape, samples, GaugeValue, Sample, Series};
use naradamuni::ingest::{
    ingest, ingest_status, parse_reading, DecimalValues, Field, IngestError, PayloadTexts,
};
use naradamuni::reading::Reading;
use naradamuni::store::ReadingStore;

fn bits_of(text: &Option<String>) -> Option<u64> {
    text.as_deref().and_then(|t| t.parse::<f64>().ok()).map(f64::to_bits)
}

fn decimals_of(t: &PayloadTexts) -> DecimalValues {
    DecimalValues {
        temperature: bits_of(&t.temperature),
        humidity: bits_of(&t.humidity),
        heat_index: bits_of(&t.heat_index),
        flow_rate: bits_of(&t.flow_rate),
        distance: bits_of(&t.distance),
    }
}

fn texts_from(body: &str) -> PayloadTexts {
    let value: serde_json::Value = serde_json::from_str(body).unwrap();
    PayloadTexts::from_json(&value)
}

fn post(store: &mut ReadingStore, body: &str) -> u16 {
    let texts = texts_from(body);
    let decimals = decimals_of(&texts);
    let outcome = ingest(store, &texts, &decimals);
    ingest_status(&outcome)
}

fn find<'a>(v: &'a [Sample], s: Series) -> &'a Sample {
    v.iter().find(|x| x.series == s).unwrap()
}

fn reading(id: &str, loc: &str, t: f64, w: i32) -> Reading {
    Reading {
        device_id: id.to_string(),
        device_location: loc.to_string(),
        temperature: t.to_bits(),
        humidity: (t + 1.0).to_bits(),
        heat_index: (t + 2.0).to_bits(),
        flow_rate: (t + 3.0).to_bits(),
        distance: (t + 4.0).to_bits(),
        water_level: w,
    }
}

const GOOD: &str = r#"{"fds_dev_id":"0xA1","fds_dev_loc":"Lab-1","t":"27.5","h":"60.2","hic":"28.1","l_hour":"3.4","d_cm":"12.0","w_level":"1"}"#;

#[test]
fn end_to_end_post_then_scrape() {
    let mut store = ReadingStore::new();
    assert_eq!(post(&mut store, GOOD), 201);
    let v = scrape(&store);
    let t = find(&v, Series::Temperature);
    assert_eq!(t.device_id, "0xA1");
    assert_eq!(t.device_location, "Lab-1");
    assert_eq!(t.value, GaugeValue::Float(27.5f64.to_bits()));
    let w = find(&v, Series::WaterLevel);
    assert_eq!(w.device_id, "0xA1");
    assert_eq!(w.value, GaugeValue::Int(1));
    assert_eq!(find(&v, Series::Humidity).value, GaugeValue::Float(60.2f64.to_bits()));
    assert_eq!(find(&v, Series::HeatIndex).value, GaugeValue::Float(28.1f64.to_bits()));
    assert_eq!(find(&v, Series::FlowRate).value, GaugeValue::Float(3.4f64.to_bits()));
    assert_eq!(find(&v, Series::Distance).value, GaugeValue::Float(12.0f64.to_bits()));
}

#[test]
fn fresh_store_exports_default_reading() {
    let store = ReadingStore::new();
    let v = scrape(&store);
    assert_eq!(v.len(), 6);
    for s in &v {
        assert_eq!(s.device_id, "0x00");
        assert_eq!(s.device_location, "Pune-India");
    }
    for s in [Series::Temperature, Series::Humidity, Series::HeatIndex, Series::FlowRate, Series::Distance] {
        assert_eq!(find(&v, s).value, GaugeValue::Float(0.0f64.to_bits()));
    }
    assert_eq!(find(&v, Series::WaterLevel).value, GaugeValue::Int(0));
}

#[test]
fn non_numeric_water_level_is_rejected_and_store_kept() {
    let mut store = ReadingStore::new();
    let bad = GOOD.replace(r#""w_level":"1""#, r#""w_level":"abc""#);
    let texts = texts_from(&bad);
    let outcome = ingest(&mut store, &texts, &decimals_of(&texts));
    assert_eq!(outcome, Err(IngestError::Malformed(Field::WaterLevel)));
    assert_eq!(ingest_status(&outcome), 400);
    let snap = store.snapshot();
    assert_eq!(snap.device_id, "0x00");
    assert_eq!(snap.device_location, "Pune-India");
    assert_eq!(snap.water_level, 0);

    assert_eq!(post(&mut store, GOOD), 201);
    assert_eq!(post(&mut store, &bad), 400);
    let snap = store.snapshot();
    assert_eq!(snap.device_id, "0xA1");
    assert_eq!(snap.water_level, 1);
    assert_eq!(snap.temperature, 27.5f64.to_bits());
}

#[test]
fn missing_member_is_reported_in_field_order() {
    let mut store = ReadingStore::new();
    let no_id = GOOD.replace(r#""fds_dev_id":"0xA1","#, "");
    let texts = texts_from(&no_id);
    assert_eq!(
        ingest(&mut store, &texts, &decimals_of(&texts)),
        Err(IngestError::MissingField(Field::DeviceId))
    );
    let no_h_bad_t = GOOD.replace(r#""h":"60.2","#, "").replace(r#""t":"27.5""#, r#""t":"warm""#);
    let texts = texts_from(&no_h_bad_t);
    assert_eq!(
        ingest(&mut store, &texts, &decimals_of(&texts)),
        Err(IngestError::Malformed(Field::Temperature))
    );
    let numeric_loc = GOOD.replace(r#""fds_dev_loc":"Lab-1""#, r#""fds_dev_loc":7"#);
    let texts = texts_from(&numeric_loc);
    assert_eq!(
        ingest(&mut store, &texts, &decimals_of(&texts)),
        Err(IngestError::MissingField(Field::DeviceLocation))
    );
    let no_level = GOOD.replace(r#","w_level":"1""#, "");
    let texts = texts_from(&no_level);
    assert_eq!(
        ingest(&mut store, &texts, &decimals_of(&texts)),
        Err(IngestError::MissingField(Field::WaterLevel))
    );
    assert_eq!(store.snapshot().device_id, "0x00");
}

#[test]
fn json_members_are_read_by_key() {
    let texts = texts_from(GOOD);
    assert_eq!(texts.device_id.as_deref(), Some("0xA1"));
    assert_eq!(texts.device_location.as_deref(), Some("Lab-1"));
    assert_eq!(texts.temperature.as_deref(), Some("27.5"));
    assert_eq!(texts.humidity.as_deref(), Some("60.2"));
    assert_eq!(texts.heat_index.as_deref(), Some("28.1"));
    assert_eq!(texts.flow_rate.as_deref(), Some("3.4"));
    assert_eq!(texts.distance.as_deref(), Some("12.0"));
    assert_eq!(texts.water_level.as_deref(), Some("1"));
    let not_object = texts_from("[1,2]");
    assert!(not_object.device_id.is_none());
    assert!(not_object.water_level.is_none());
}

#[test]
fn parse_reading_keeps_values_unchanged() {
    let texts = texts_from(GOOD);
    let decimals = decimals_of(&texts);
    let r = parse_reading(&texts, &decimals).unwrap();
    assert_eq!(r.device_id, "0xA1");
    assert_eq!(r.device_location, "Lab-1");
    assert_eq!(f64::from_bits(r.temperature), 27.5);
    assert_eq!(f64::from_bits(r.humidity), 60.2);
    assert_eq!(f64::from_bits(r.heat_index), 28.1);
    assert_eq!(f64::from_bits(r.flow_rate), 3.4);
    assert_eq!(f64::from_bits(r.distance), 12.0);
    assert_eq!(r.water_level, 1);
}

#[test]
fn integer_text_parsing() {
    assert_eq!(parse_i32("0"), Some(0));
    assert_eq!(parse_i32("1"), Some(1));
    assert_eq!(parse_i32("+7"), Some(7));
    assert_eq!(parse_i32("-12"), Some(-12));
    assert_eq!(parse_i32("007"), Some(7));
    assert_eq!(parse_i32("2147483647"), Some(i32::MAX));
    assert_eq!(parse_i32("-2147483648"), Some(i32::MIN));
    assert_eq!(parse_i32("2147483648"), None);
    assert_eq!(parse_i32("-2147483649"), None);
    assert_eq!(parse_i32("99999999999999999999"), None);
    assert_eq!(parse_i32(""), None);
    assert_eq!(parse_i32("-"), None);
    assert_eq!(parse_i32("+"), None);
    assert_eq!(parse_i32("abc"), None);
    assert_eq!(parse_i32(" 1"), None);
    assert_eq!(parse_i32("1.0"), None);
    for text in ["0", "+7", "-12", "2147483647", "-2147483648", "2147483648", "", "-", "x1"] {
        assert_eq!(parse_i32(text), text.parse::<i32>().ok());
    }
}

#[test]
fn last_replacement_wins_whole() {
    let mut store = ReadingStore::new();
    let a = reading("0xA1", "Lab-1", 20.0, 1);
    let b = reading("0xB2", "Lab-2", 30.0, 0);
    store.replace(a.duplicate());
    store.replace(b.duplicate());
    let snap = store.snapshot();
    assert_eq!(snap.device_id, b.device_id);
    assert_eq!(snap.device_location, b.device_location);
    assert_eq!(snap.temperature, b.temperature);
    assert_eq!(snap.humidity, b.humidity);
    assert_eq!(snap.heat_index, b.heat_index);
    assert_eq!(snap.flow_rate, b.flow_rate);
    assert_eq!(snap.distance, b.distance);
    assert_eq!(snap.water_level, b.water_level);
}

#[test]
fn snapshot_after_replace_reads_the_write() {
    let mut store = ReadingStore::new();
    let r = reading("dev", "here", -3.25, 1);
    store.replace(r.duplicate());
    for _ in 0..3 {
        let snap = store.snapshot();
        assert_eq!(snap.device_id, "dev");
        assert_eq!(snap.temperature, (-3.25f64).to_bits());
        assert_eq!(snap.water_level, 1);
    }
}

#[test]
fn samples_carry_the_reading_labels_and_values() {
    let r = reading("0xC3", "Roof", 21.5, 0);
    let v = samples(&r);
    assert_eq!(v.len(), 6);
    for s in &v {
        assert_eq!(s.device_id, "0xC3");
        assert_eq!(s.device_location, "Roof");
    }
    assert_eq!(find(&v, Series::Temperature).value, GaugeValue::Float(21.5f64.to_bits()));
    assert_eq!(find(&v, Series::Humidity).value, GaugeValue::Float(22.5f64.to_bits()));
    assert_eq!(find(&v, Series::HeatIndex).value, GaugeValue::Float(23.5f64.to_bits()));
    assert_eq!(find(&v, Series::FlowRate).value, GaugeValue::Float(24.5f64.to_bits()));
    assert_eq!(find(&v, Series::Distance).value, GaugeValue::Float(25.5f64.to_bits()));
    assert_eq!(find(&v, Series::WaterLevel).value, GaugeValue::Int(0));
}

#[test]
fn two_scrapes_without_ingestion_agree() {
    let mut store = ReadingStore::new();
    assert_eq!(post(&mut store, GOOD), 201);
    let first = scrape(&store);
    let second = scrape(&store);
    assert_eq!(first.len(), second.len());
    for (x, y) in first.iter().zip(second.iter()) {
        assert_eq!(x.series, y.series);
        assert_eq!(x.device_id, y.device_id);
        assert_eq!(x.device_location, y.device_location);
        assert_eq!(x.value, y.value);
    }
}

#[test]
fn names_and_keys() {
    assert_eq!(Field::DeviceId.key(), "fds_dev_id");
    assert_eq!(Field::DeviceLocation.key(), "fds_dev_loc");
    assert_eq!(Field::Temperature.key(), "t");
    assert_eq!(Field::Humidity.key(), "h");
    assert_eq!(Field::HeatIndex.key(), "hic");
    assert_eq!(Field::FlowRate.key(), "l_hour");
    assert_eq!(Field::Distance.key(), "d_cm");
    assert_eq!(Field::WaterLevel.key(), "w_level");
    assert_eq!(Series::Temperature.name(), "environment_temperature");
    assert_eq!(Series::Humidity.name(), "environment_humidity");
    assert_eq!(Series::HeatIndex.name(), "heat_index");
    assert_eq!(Series::FlowRate.name(), "liter_per_hour");
    assert_eq!(Series::Distance.name(), "distance_in_cm");
    assert_eq!(Series::WaterLevel.name(), "water_level");
    assert!(Series::WaterLevel.is_integer());
    assert!(!Series::Temperature.is_integer());
    assert_eq!(Series::HeatIndex.help(), "HEAT Index calculated from DHT11 Sensor");
}

#[test]
fn status_codes() {
    assert_eq!(ingest_status(&Ok(())), 201);
    assert_eq!(ingest_status(&Err(IngestError::MissingField(Field::Humidity))), 400);
}

//! Translation of the current reading into labelled gauge samples.
//!
//! A scrape takes one snapshot of the store and yields one sample per
//! measured quantity, all six labelled with the device id and location of
//! that same snapshot. The caller writes them into its metrics registry,
//! which keeps every label pair it has seen, and encodes the registry.
use vstd::prelude::*;
use crate::reading::{Reading, ReadingView};
use crate::store::{ReadingStore, replaced};

verus! {

/// The six gauges, one per measured quantity.
#[derive(Clone, Copy, Debug, PartialEq, Eq, Structural)]
pub enum Series {
    Temperature,
    Humidity,
    HeatIndex,
    FlowRate,
    Distance,
    WaterLevel,
}

pub open spec fn series_name(s: Series) -> Seq<char> {
    match s {
        Series::Temperature => "environment_temperature"@,
        Series::Humidity => "environment_humidity"@,
        Series::HeatIndex => "heat_index"@,
        Series::FlowRate => "liter_per_hour"@,
        Series::Distance => "distance_in_cm"@,
        Series::WaterLevel => "water_level"@,
    }
}

pub open spec fn series_help(s: Series) -> Seq<char> {
    match s {
        Series::Temperature => "environment temperature in celsius from DHT11 Sensor"@,
        Series::Humidity => "environment humidity in percentage from DHT11 Sensor"@,
        Series::HeatIndex => "HEAT Index calculated from DHT11 Sensor"@,
        Series::FlowRate => "Flow Rate obtained from YF-S201 Sensor"@,
        Series::Distance => "Distance in centemeters obtained from HC-SR04 Ultrasonic Sensor"@,
        Series::WaterLevel => "Water level status obtained from WATER level sensor which is either 0 or 1, 0 being breached"@,
    }
}

impl Series {
    /// The metric name under which the gauge is exposed.
    pub fn name(&self) -> (r: &'static str)
        ensures
            r@ == series_name(*self),
    {
        proof {
            reveal_strlit("environment_temperature");
            reveal_strlit("environment_humidity");
            reveal_strlit("heat_index");
            reveal_strlit("liter_per_hour");
            reveal_strlit("distance_in_cm");
            reveal_strlit("water_level");
        }
        match self {
            Series::Temperature => "environment_temperature",
            Series::Humidity => "environment_humidity",
            Series::HeatIndex => "heat_index",
            Series::FlowRate => "liter_per_hour",
            Series::Distance => "distance_in_cm",
            Series::WaterLevel => "water_level",
        }
    }

    /// The help text that documents the gauge.
    pub fn help(&self) -> (r: &'static str)
        ensures
            r@ == series_help(*self),
    {
        proof {
            reveal_strlit("environment temperature in celsius from DHT11 Sensor");
            reveal_strlit("environment humidity in percentage from DHT11 Sensor");
            reveal_strlit("HEAT Index calculated from DHT11 Sensor");
            reveal_strlit("Flow Rate obtained from YF-S201 Sensor");
            reveal_strlit("Distance in centemeters obtained from HC-SR04 Ultrasonic Sensor");
            reveal_strlit("Water level status obtained from WATER level sensor which is either 0 or 1, 0 being breached");
        }
        match self {
            Series::Temperature => "environment temperature in celsius from DHT11 Sensor",
            Series::Humidity => "environment humidity in percentage from DHT11 Sensor",
            Series::HeatIndex => "HEAT Index calculated from DHT11 Sensor",
            Series::FlowRate => "Flow Rate obtained from YF-S201 Sensor",
            Series::Distance => "Distance in centemeters obtained from HC-SR04 Ultrasonic Sensor",
            Series::WaterLevel => "Water level status obtained from WATER level sensor which is either 0 or 1, 0 being breached",
        }
    }

    /// Whether the gauge holds integers rather than floating-point values.
    pub fn is_integer(&self) -> (r: bool)
        ensures
            r == (*self == Series::WaterLevel),
    {
        match self {
            Series::WaterLevel => true,
            _ => false,
        }
    }
}

/// A gauge value: binary64 bits for a floating-point gauge, or an integer.
#[derive(Clone, Copy, Debug, PartialEq, Eq, Structural)]
pub enum GaugeValue {
    Float(u64),
    Int(i64),
}

/// One value to set on one gauge under one label pair.
pub struct Sample {
    pub series: Series,
    pub device_id: String,
    pub device_location: String,
    pub value: GaugeValue,
}

pub ghost struct SampleView {
    pub series: Series,
    pub device_id: Seq<char>,
    pub device_location: Seq<char>,
    pub value: GaugeValue,
}

impl View for Sample {
    type V = SampleView;

    open spec fn view(&self) -> SampleView {
        SampleView {
            series: self.series,
            device_id: self.device_id@,
            device_location: self.device_location@,
            value: self.value,
        }
    }
}

/// The value that reading `r` gives gauge `s`, unchanged: the water level
/// widened to an integer gauge, the other fields as their bits.
pub open spec fn field_value(r: ReadingView, s: Series) -> GaugeValue {
    match s {
        Series::Temperature => GaugeValue::Float(r.temperature),
        Series::Humidity => GaugeValue::Float(r.humidity),
        Series::HeatIndex => GaugeValue::Float(r.heat_index),
        Series::FlowRate => GaugeValue::Float(r.flow_rate),
        Series::Distance => GaugeValue::Float(r.distance),
        Series::WaterLevel => GaugeValue::Int(r.water_level as i64),
    }
}

pub open spec fn sample_of(r: ReadingView, s: Series) -> SampleView {
    SampleView {
        series: s,
        device_id: r.device_id,
        device_location: r.device_location,
        value: field_value(r, s),
    }
}

/// The six samples of a reading, one per gauge, in a fixed order.
pub open spec fn samples_of(r: ReadingView) -> Seq<SampleView> {
    seq![
        sample_of(r, Series::Temperature),
        sample_of(r, Series::Humidity),
        sample_of(r, Series::HeatIndex),
        sample_of(r, Series::FlowRate),
        sample_of(r, Series::Distance),
        sample_of(r, Series::WaterLevel),
    ]
}

fn make_sample(r: &Reading, series: Series, value: GaugeValue) -> (s: Sample)
    requires
        value == field_value(r@, series),
    ensures
        s@ == sample_of(r@, series),
{
    Sample {
        series,
        device_id: r.device_id.clone(),
        device_location: r.device_location.clone(),
        value,
    }
}

/// The samples that export reading `r`.
pub fn samples(r: &Reading) -> (v: Vec<Sample>)
    ensures
        v.len() == samples_of(r@).len(),
        forall|i: int| 0 <= i < v.len() ==> #[trigger] v[i]@ == samples_of(r@)[i],
{
    let mut v: Vec<Sample> = Vec::new();
    v.push(make_sample(r, Series::Temperature, GaugeValue::Float(r.temperature)));
    v.push(make_sample(r, Series::Humidity, GaugeValue::Float(r.humidity)));
    v.push(make_sample(r, Series::HeatIndex, GaugeValue::Float(r.heat_index)));
    v.push(make_sample(r, Series::FlowRate, GaugeValue::Float(r.flow_rate)));
    v.push(make_sample(r, Series::Distance, GaugeValue::Float(r.distance)));
    v.push(make_sample(r, Series::WaterLevel, GaugeValue::Int(r.water_level as i64)));
    v
}

/// The samples of one scrape: all six taken from a single snapshot of the
/// store.
pub fn scrape(store: &ReadingStore) -> (v: Vec<Sample>)
    ensures
        v.len() == samples_of(store@).len(),
        forall|i: int| 0 <= i < v.len() ==> #[trigger] v[i]@ == samples_of(store@)[i],
{
    let current = store.snapshot();
    samples(&current)
}

/// A registry's gauge values, keyed by gauge and label pair.
pub type GaugeTable = Map<(Series, Seq<char>, Seq<char>), GaugeValue>;

/// The table after setting each sample in `ss`, first to last. A gauge
/// keeps every label pair it was ever set under.
pub open spec fn recorded(table: GaugeTable, ss: Seq<SampleView>) -> GaugeTable
    decreases ss.len(),
{
    if ss.len() == 0 {
        table
    } else {
        recorded(table, ss.drop_last()).insert(
            (ss.last().series, ss.last().device_id, ss.last().device_location),
            ss.last().value,
        )
    }
}

pub open spec fn sample_key(x: SampleView) -> (Series, Seq<char>, Seq<char>) {
    (x.series, x.device_id, x.device_location)
}

/// Setting the samples of one reading is six successive writes, one per
/// gauge, under that reading's label pair.
proof fn lemma_recorded_reading(table: GaugeTable, r: ReadingView)
    ensures
        ({
            let ss = samples_of(r);
            recorded(table, ss) == table.insert(sample_key(ss[0]), ss[0].value).insert(
                sample_key(ss[1]),
                ss[1].value,
            ).insert(sample_key(ss[2]), ss[2].value).insert(sample_key(ss[3]), ss[3].value).insert(
                sample_key(ss[4]),
                ss[4].value,
            ).insert(sample_key(ss[5]), ss[5].value)
        }),
{
    reveal_with_fuel(recorded, 7);
    let ss = samples_of(r);
    assert(ss.drop_last() =~= seq![ss[0], ss[1], ss[2], ss[3], ss[4]]);
    assert(ss.drop_last().drop_last() =~= seq![ss[0], ss[1], ss[2], ss[3]]);
    assert(ss.drop_last().drop_last().drop_last() =~= seq![ss[0], ss[1], ss[2]]);
    assert(ss.drop_last().drop_last().drop_last().drop_last() =~= seq![ss[0], ss[1]]);
    assert(ss.drop_last().drop_last().drop_last().drop_last().drop_last() =~= seq![ss[0]]);
    assert(ss.drop_last().drop_last().drop_last().drop_last().drop_last().drop_last()
        =~= Seq::<SampleView>::empty());
}

/// Exporting after `replace(r)` sets, under the label pair of `r`, each
/// gauge to `r`'s own value for it; every sample carries that label pair.
pub proof fn lemma_export_matches_reading(
    table: GaugeTable,
    before: ReadingView,
    r: ReadingView,
    s: Series,
)
    ensures
        forall|i: int|
            0 <= i < samples_of(replaced(before, r)).len() ==> {
                let x = #[trigger] samples_of(replaced(before, r))[i];
                &&& x.device_id == r.device_id
                &&& x.device_location == r.device_location
                &&& x.value == field_value(r, x.series)
            },
        recorded(table, samples_of(replaced(before, r))).contains_key(
            (s, r.device_id, r.device_location),
        ),
        recorded(table, samples_of(replaced(before, r)))[(s, r.device_id, r.device_location)]
            == field_value(r, s),
{
    lemma_recorded_reading(table, r);
}

/// Two scrapes with no replacement in between set the same values: the
/// second leaves the registry's table exactly as the first left it, so the
/// registry encodes the same body both times.
pub proof fn lemma_scrape_idempotent(table: GaugeTable, r: ReadingView)
    ensures
        recorded(recorded(table, samples_of(r)), samples_of(r)) == recorded(table, samples_of(r)),
{
    let ss = samples_of(r);
    lemma_recorded_reading(table, r);
    lemma_recorded_reading(recorded(table, ss), r);
    assert(recorded(recorded(table, ss), ss) =~= recorded(table, ss));
}

} // verus!

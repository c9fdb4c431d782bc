//! The metrics model: a fixed set of named gauges, each holding one value
//! per label set, and the two operations that write them.
//!
//! A gauge value is the bit pattern of an IEEE 754 double. A gauge exists
//! only from the moment something is written to it: a reading that a station
//! did not report writes nothing, so the value recorded earlier stays as it
//! is and no number is ever made up for the missing one.

use crate::client::{Measurement, Observation, Station};
use crate::text::texts;
use vstd::prelude::*;

verus! {

/// The bit pattern of the double `1.0`, the value of every station-info gauge.
pub const ONE: u64 = 0x3FF0_0000_0000_0000;

/// The instruments of the model.
#[derive(Debug, Clone, Copy, PartialEq, Eq, Structural)]
pub enum Metric {
    /// Station metadata, carried in the labels; its value is always one.
    Station,
    Elevation,
    Temperature,
    Dewpoint,
    BarometricPressure,
    Visibility,
    RelativeHumidity,
    WindChill,
}

impl Metric {
    /// The name under which the instrument is published.
    pub open spec fn name_of(self) -> Seq<char> {
        match self {
            Metric::Station => "nws_station"@,
            Metric::Elevation => "nws_elevation_meters"@,
            Metric::Temperature => "nws_temperature_degrees"@,
            Metric::Dewpoint => "nws_dewpoint_degrees"@,
            Metric::BarometricPressure => "nws_barometric_pressure_pascals"@,
            Metric::Visibility => "nws_visibility_meters"@,
            Metric::RelativeHumidity => "nws_relative_humidity"@,
            Metric::WindChill => "nws_wind_chill_degrees"@,
        }
    }

    /// The description published with the instrument; it names the unit.
    pub open spec fn help_of(self) -> Seq<char> {
        match self {
            Metric::Station => "Station metadata"@,
            Metric::Elevation => "Elevation in meters"@,
            Metric::Temperature => "Temperature in celsius"@,
            Metric::Dewpoint => "Dewpoint in celsius"@,
            Metric::BarometricPressure => "Barometric pressure in pascals"@,
            Metric::Visibility => "Visibility in meters"@,
            Metric::RelativeHumidity => "Relative humidity in percent (0-100)"@,
            Metric::WindChill => "Temperature with wind chill in celsius"@,
        }
    }

    /// The names of the labels of the instrument, in the order of their values.
    pub open spec fn label_names_of(self) -> Seq<Seq<char>> {
        match self {
            Metric::Station => seq!["station"@, "station_id"@, "station_name"@],
            _ => seq!["station"@],
        }
    }

    /// Every instrument, in the order in which they are registered.
    pub open spec fn catalogue() -> Seq<Metric> {
        seq![
            Metric::Station,
            Metric::Elevation,
            Metric::Temperature,
            Metric::Dewpoint,
            Metric::BarometricPressure,
            Metric::Visibility,
            Metric::RelativeHumidity,
            Metric::WindChill,
        ]
    }

    /// The name under which the instrument is published.
    pub fn name(&self) -> (name: &'static str)
        ensures
            name@ == self.name_of(),
    {
        match self {
            Metric::Station => "nws_station",
            Metric::Elevation => "nws_elevation_meters",
            Metric::Temperature => "nws_temperature_degrees",
            Metric::Dewpoint => "nws_dewpoint_degrees",
            Metric::BarometricPressure => "nws_barometric_pressure_pascals",
            Metric::Visibility => "nws_visibility_meters",
            Metric::RelativeHumidity => "nws_relative_humidity",
            Metric::WindChill => "nws_wind_chill_degrees",
        }
    }

    /// The description published with the instrument.
    pub fn help(&self) -> (help: &'static str)
        ensures
            help@ == self.help_of(),
    {
        match self {
            Metric::Station => "Station metadata",
            Metric::Elevation => "Elevation in meters",
            Metric::Temperature => "Temperature in celsius",
            Metric::Dewpoint => "Dewpoint in celsius",
            Metric::BarometricPressure => "Barometric pressure in pascals",
            Metric::Visibility => "Visibility in meters",
            Metric::RelativeHumidity => "Relative humidity in percent (0-100)",
            Metric::WindChill => "Temperature with wind chill in celsius",
        }
    }

    /// The names of the labels of the instrument, in the order of their values.
    pub fn label_names(&self) -> (names: Vec<&'static str>)
        ensures
            names@.len() == self.label_names_of().len(),
            forall|i: int| 0 <= i < names@.len() ==> names@[i]@ == self.label_names_of()[i],
    {
        let mut names: Vec<&'static str> = Vec::new();
        names.push("station");
        match self {
            Metric::Station => {
                names.push("station_id");
                names.push("station_name");
            },
            _ => {},
        }
        names
    }

    /// Every instrument, in the order in which they are registered.
    pub fn all() -> (metrics: Vec<Metric>)
        ensures
            metrics@ == Metric::catalogue(),
    {
        let mut metrics: Vec<Metric> = Vec::new();
        metrics.push(Metric::Station);
        metrics.push(Metric::Elevation);
        metrics.push(Metric::Temperature);
        metrics.push(Metric::Dewpoint);
        metrics.push(Metric::BarometricPressure);
        metrics.push(Metric::Visibility);
        metrics.push(Metric::RelativeHumidity);
        metrics.push(Metric::WindChill);
        assert(metrics@ =~= Metric::catalogue());
        metrics
    }
}

/// No two instruments share a name, so registering the catalogue can never
/// collide, and every name carries the prefix `nws_`.
pub proof fn lemma_names_distinct(a: Metric, b: Metric)
    ensures
        a != b ==> a.name_of() != b.name_of(),
        a.name_of().len() > 4,
        a.name_of().subrange(0, 4) == "nws_"@,
{
    reveal_strlit("nws_");
    reveal_strlit("nws_station");
    reveal_strlit("nws_elevation_meters");
    reveal_strlit("nws_temperature_degrees");
    reveal_strlit("nws_dewpoint_degrees");
    reveal_strlit("nws_barometric_pressure_pascals");
    reveal_strlit("nws_visibility_meters");
    reveal_strlit("nws_relative_humidity");
    reveal_strlit("nws_wind_chill_degrees");
    assert(a.name_of().subrange(0, 4) =~= "nws_"@);
    if a != b && a.name_of() == b.name_of() {
        assert(a.name_of().len() == b.name_of().len());
        assert(a.name_of()[4] == b.name_of()[4]);
    }
}

/// The catalogue lists every instrument exactly once.
pub proof fn lemma_catalogue_complete(metric: Metric)
    ensures
        Metric::catalogue().contains(metric),
        Metric::catalogue().no_duplicates(),
{
    let all = Metric::catalogue();
    assert(all[0] == Metric::Station && all[1] == Metric::Elevation && all[2]
        == Metric::Temperature && all[3] == Metric::Dewpoint && all[4] == Metric::BarometricPressure
        && all[5] == Metric::Visibility && all[6] == Metric::RelativeHumidity && all[7]
        == Metric::WindChill);
}

/// What identifies one gauge: the instrument and the values of its labels.
pub struct SampleKey {
    pub metric: Metric,
    pub labels: Seq<Seq<char>>,
}

/// One gauge with its current value.
#[derive(Debug)]
pub struct Sample {
    pub metric: Metric,
    pub labels: Vec<String>,
    pub value: u64,
}

impl Sample {
    /// What identifies the gauge of this sample.
    pub open spec fn key(&self) -> SampleKey {
        SampleKey { metric: self.metric, labels: texts(self.labels@) }
    }

    /// The labels of the sample: each label name of its instrument with the
    /// value that the sample has for it, in the order of the names.
    pub fn label_pairs(&self) -> (pairs: Vec<(String, String)>)
        ensures
            pairs@.len() == if self.metric.label_names_of().len() <= self.labels@.len() {
                self.metric.label_names_of().len()
            } else {
                self.labels@.len()
            },
            forall|i: int|
                0 <= i < pairs@.len() ==> (#[trigger] pairs@[i]).0@
                    == self.metric.label_names_of()[i] && pairs@[i].1@ == self.labels@[i]@,
    {
        let names = self.metric.label_names();
        let mut pairs: Vec<(String, String)> = Vec::new();
        let mut i: usize = 0;
        while i < names.len() && i < self.labels.len()
            invariant
                i <= names@.len(),
                i <= self.labels@.len(),
                pairs@.len() == i,
                names@.len() == self.metric.label_names_of().len(),
                forall|k: int|
                    0 <= k < names@.len() ==> names@[k]@ == self.metric.label_names_of()[k],
                forall|k: int|
                    0 <= k < i ==> (#[trigger] pairs@[k]).0@ == self.metric.label_names_of()[k]
                        && pairs@[k].1@ == self.labels@[k]@,
            decreases names@.len() - i,
        {
            pairs.push((String::from_str(names[i]), self.labels[i].clone()));
            i = i + 1;
        }
        pairs
    }
}

/// The key of the gauge of `metric` for the station referred to by `station`.
pub open spec fn gauge_key(metric: Metric, station: Seq<char>) -> SampleKey {
    SampleKey { metric, labels: seq![station] }
}

/// The key of the station-info gauge of a station.
pub open spec fn info_key(station: Station) -> SampleKey {
    SampleKey {
        metric: Metric::Station,
        labels: seq![
            station.properties.id@,
            station.properties.station_identifier@,
            station.properties.name@,
        ],
    }
}

/// The reading that an observation carries for an instrument, if any.
pub open spec fn reading(observation: Observation, metric: Metric) -> Option<u64> {
    match metric {
        Metric::Station => None,
        Metric::Elevation => observation.properties.elevation.value,
        Metric::Temperature => observation.properties.temperature.value,
        Metric::Dewpoint => observation.properties.dewpoint.value,
        Metric::BarometricPressure => observation.properties.barometric_pressure.value,
        Metric::Visibility => observation.properties.visibility.value,
        Metric::RelativeHumidity => observation.properties.relative_humidity.value,
        Metric::WindChill => observation.properties.wind_chill.value,
    }
}

/// The value that recording `observation` writes to the gauge `key`, if it
/// writes to that gauge at all.
pub open spec fn written(observation: Observation, key: SampleKey) -> Option<u64> {
    if key.labels == seq![observation.properties.station@] {
        reading(observation, key.metric)
    } else {
        None
    }
}

/// The gauges after `observation` is recorded: a gauge whose reading is
/// present holds exactly that reading, every other gauge is as it was.
pub open spec fn record_observation(
    gauges: Map<SampleKey, u64>,
    observation: Observation,
) -> Map<SampleKey, u64> {
    Map::new(
        |key: SampleKey| gauges.contains_key(key) || written(observation, key) is Some,
        |key: SampleKey|
            match written(observation, key) {
                Some(value) => value,
                None => gauges[key],
            },
    )
}

/// The gauges after the metadata of `station` is recorded.
pub open spec fn record_station(gauges: Map<SampleKey, u64>, station: Station) -> Map<
    SampleKey,
    u64,
> {
    gauges.insert(info_key(station), ONE)
}

/// The gauges after a reading that may be absent is written to one of them.
pub open spec fn set_from_measurement(
    gauges: Map<SampleKey, u64>,
    key: SampleKey,
    value: Option<u64>,
) -> Map<SampleKey, u64> {
    match value {
        Some(bits) => gauges.insert(key, bits),
        None => gauges,
    }
}

/// Every sample has one label value for each label name of its instrument.
pub open spec fn fully_labelled(samples: Seq<Sample>) -> bool {
    forall|i: int|
        0 <= i < samples.len() ==> (#[trigger] samples[i]).labels@.len()
            == samples[i].metric.label_names_of().len()
}

/// No two samples are about the same gauge.
pub open spec fn distinct_keys(samples: Seq<Sample>) -> bool {
    forall|i: int, j: int|
        0 <= i < j < samples.len() ==> (#[trigger] samples[i]).key() != (
        #[trigger] samples[j]).key()
}

/// Some sample is about the gauge `key`.
pub open spec fn holds(samples: Seq<Sample>, key: SampleKey) -> bool {
    exists|i: int| 0 <= i < samples.len() && (#[trigger] samples[i]).key() == key
}

/// The place of a sample about the gauge `key`.
pub open spec fn position(samples: Seq<Sample>, key: SampleKey) -> int {
    choose|i: int| 0 <= i < samples.len() && (#[trigger] samples[i]).key() == key
}

/// The gauges that a list of samples stands for.
pub open spec fn table(samples: Seq<Sample>) -> Map<SampleKey, u64> {
    Map::new(
        |key: SampleKey| holds(samples, key),
        |key: SampleKey| samples[position(samples, key)].value,
    )
}

proof fn lemma_table_at(samples: Seq<Sample>, i: int)
    requires
        distinct_keys(samples),
        0 <= i < samples.len(),
    ensures
        table(samples).contains_key(samples[i].key()),
        table(samples)[samples[i].key()] == samples[i].value,
{
    let key = samples[i].key();
    assert(holds(samples, key));
    let p = position(samples, key);
    assert(0 <= p < samples.len() && samples[p].key() == key);
    if p < i {
        assert(samples[p].key() != samples[i].key());
    } else if i < p {
        assert(samples[i].key() != samples[p].key());
    }
}

proof fn lemma_table_push(samples: Seq<Sample>, sample: Sample)
    requires
        distinct_keys(samples),
        !holds(samples, sample.key()),
    ensures
        distinct_keys(samples.push(sample)),
        table(samples.push(sample)) == table(samples).insert(sample.key(), sample.value),
{
    let grown = samples.push(sample);
    assert forall|i: int, j: int| 0 <= i < j < grown.len() implies (#[trigger] grown[i]).key() != (
    #[trigger] grown[j]).key() by {
        if j < samples.len() {
            assert(samples[i].key() != samples[j].key());
        } else {
            assert(samples[i].key() != sample.key());
        }
    }
    assert forall|key: SampleKey|
        table(grown).contains_key(key) <==> #[trigger] table(samples).insert(
            sample.key(),
            sample.value,
        ).contains_key(key) by {
        if holds(grown, key) {
            let i = position(grown, key);
            if i < samples.len() {
                assert(samples[i].key() == key);
            }
        }
        if holds(samples, key) {
            let i = position(samples, key);
            assert(grown[i].key() == key);
        }
        if key == sample.key() {
            assert(grown[samples.len() as int].key() == key);
        }
    }
    assert forall|key: SampleKey| table(grown).contains_key(key) implies #[trigger] table(
        grown,
    )[key] == table(samples).insert(sample.key(), sample.value)[key] by {
        let i = position(grown, key);
        lemma_table_at(grown, i);
        if i < samples.len() {
            lemma_table_at(samples, i);
        }
    }
    assert(table(grown) =~= table(samples).insert(sample.key(), sample.value));
}

proof fn lemma_table_update(samples: Seq<Sample>, at: int, sample: Sample)
    requires
        distinct_keys(samples),
        0 <= at < samples.len(),
        samples[at].key() == sample.key(),
    ensures
        distinct_keys(samples.update(at, sample)),
        table(samples.update(at, sample)) == table(samples).insert(sample.key(), sample.value),
{
    let changed = samples.update(at, sample);
    assert forall|i: int| 0 <= i < samples.len() implies (#[trigger] changed[i]).key()
        == samples[i].key() by {}
    assert forall|i: int, j: int| 0 <= i < j < changed.len() implies (
    #[trigger] changed[i]).key() != (#[trigger] changed[j]).key() by {
        assert(samples[i].key() != samples[j].key());
    }
    assert forall|key: SampleKey|
        table(changed).contains_key(key) <==> #[trigger] table(samples).insert(
            sample.key(),
            sample.value,
        ).contains_key(key) by {
        if holds(changed, key) {
            let i = position(changed, key);
            assert(samples[i].key() == key);
        }
        if holds(samples, key) {
            let i = position(samples, key);
            assert(changed[i].key() == key);
        }
        if key == sample.key() {
            assert(changed[at].key() == key);
        }
    }
    assert forall|key: SampleKey| table(changed).contains_key(key) implies #[trigger] table(
        changed,
    )[key] == table(samples).insert(sample.key(), sample.value)[key] by {
        let i = position(changed, key);
        lemma_table_at(changed, i);
        lemma_table_at(samples, i);
    }
    assert(table(changed) =~= table(samples).insert(sample.key(), sample.value));
}

/// Whether two lists of label values hold the same texts.
fn same_labels(left: &Vec<String>, right: &Vec<String>) -> (same: bool)
    ensures
        same == (texts(left@) == texts(right@)),
{
    if left.len() != right.len() {
        assert(texts(left@).len() != texts(right@).len());
        return false;
    }
    let mut i: usize = 0;
    while i < left.len()
        invariant
            i <= left.len(),
            left.len() == right.len(),
            forall|k: int| 0 <= k < i ==> left@[k]@ == right@[k]@,
        decreases left.len() - i,
    {
        if left[i] != right[i] {
            assert(texts(left@)[i as int] != texts(right@)[i as int]);
            return false;
        }
        i = i + 1;
    }
    assert(texts(left@) =~= texts(right@));
    true
}

/// The place of the sample about a gauge, if there is one.
fn find(samples: &Vec<Sample>, metric: Metric, labels: &Vec<String>) -> (found: Option<usize>)
    ensures
        match found {
            Some(i) => i < samples.len() && samples[i as int].key() == (SampleKey {
                metric,
                labels: texts(labels@),
            }),
            None => !holds(samples@, SampleKey { metric, labels: texts(labels@) }),
        },
{
    let ghost key = SampleKey { metric, labels: texts(labels@) };
    let mut i: usize = 0;
    while i < samples.len()
        invariant
            i <= samples.len(),
            key == (SampleKey { metric, labels: texts(labels@) }),
            forall|k: int| 0 <= k < i ==> (#[trigger] samples@[k]).key() != key,
        decreases samples.len() - i,
    {
        if samples[i].metric == metric && same_labels(&samples[i].labels, labels) {
            return Some(i);
        }
        i = i + 1;
    }
    None
}

/// Writes `value` to a gauge, creating the gauge where it does not exist yet.
fn put(samples: &mut Vec<Sample>, metric: Metric, labels: Vec<String>, value: u64)
    requires
        distinct_keys(old(samples)@),
        fully_labelled(old(samples)@),
        labels@.len() == metric.label_names_of().len(),
    ensures
        distinct_keys(final(samples)@),
        fully_labelled(final(samples)@),
        table(final(samples)@) == table(old(samples)@).insert(
            SampleKey { metric, labels: texts(labels@) },
            value,
        ),
{
    let found = find(samples, metric, &labels);
    let sample = Sample { metric, labels, value };
    match found {
        Some(i) => {
            proof {
                lemma_table_update(samples@, i as int, sample);
            }
            samples.set(i, sample);
        },
        None => {
            proof {
                lemma_table_push(samples@, sample);
            }
            samples.push(sample);
        },
    }
}

/// The gauges of the exporter.
///
/// Created empty: a gauge appears with the first value written to it, so a
/// station that was never polled with success has no gauge at all.
#[derive(Debug)]
pub struct ForecastMetrics {
    samples: Vec<Sample>,
}

impl View for ForecastMetrics {
    type V = Map<SampleKey, u64>;

    /// The gauges that exist, each with its current value.
    closed spec fn view(&self) -> Map<SampleKey, u64> {
        table(self.samples@)
    }
}

impl ForecastMetrics {
    #[verifier::type_invariant]
    spec fn well_formed(self) -> bool {
        distinct_keys(self.samples@) && fully_labelled(self.samples@)
    }

    /// A model in which no gauge exists yet.
    pub fn new() -> (metrics: Self)
        ensures
            metrics@ == Map::<SampleKey, u64>::empty(),
    {
        let metrics = ForecastMetrics { samples: Vec::new() };
        assert(metrics@ =~= Map::<SampleKey, u64>::empty());
        metrics
    }

    /// Writes `value` to the gauge of `metric` with these label values.
    fn set(&mut self, metric: Metric, labels: Vec<String>, value: u64)
        requires
            labels@.len() == metric.label_names_of().len(),
        ensures
            final(self)@ == old(self)@.insert(
                SampleKey { metric, labels: texts(labels@) },
                value,
            ),
    {
        proof {
            use_type_invariant(&*self);
        }
        let mut samples: Vec<Sample> = Vec::new();
        std::mem::swap(&mut samples, &mut self.samples);
        put(&mut samples, metric, labels, value);
        self.samples = samples;
    }

    /// Writes a reading to the gauge of `metric` for `station`, unless the
    /// reading is absent.
    fn set_from_measurement(&mut self, metric: Metric, station: &String, measurement: &Measurement)
        requires
            metric != Metric::Station,
        ensures
            final(self)@ == set_from_measurement(
                old(self)@,
                gauge_key(metric, station@),
                measurement.value,
            ),
    {
        if let Some(value) = measurement.value {
            let mut labels: Vec<String> = Vec::new();
            labels.push(station.clone());
            assert(texts(labels@) =~= seq![station@]);
            self.set(metric, labels, value);
        }
    }

    /// Records the metadata of a station: its info gauge, labelled with the
    /// station's reference, identifier and name, is set to one.
    pub fn station(&mut self, station: &Station)
        ensures
            final(self)@ == record_station(old(self)@, *station),
    {
        let mut labels: Vec<String> = Vec::new();
        labels.push(station.properties.id.clone());
        labels.push(station.properties.station_identifier.clone());
        labels.push(station.properties.name.clone());
        assert(texts(labels@) =~= info_key(*station).labels);
        self.set(Metric::Station, labels, ONE);
    }

    /// Records an observation: each gauge of the observed station whose
    /// reading is present is set to exactly that reading, and nothing else
    /// changes.
    pub fn observation(&mut self, obs: &Observation)
        ensures
            final(self)@ == record_observation(old(self)@, *obs),
    {
        let station = &obs.properties.station;
        self.set_from_measurement(Metric::Elevation, station, &obs.properties.elevation);
        self.set_from_measurement(Metric::Temperature, station, &obs.properties.temperature);
        self.set_from_measurement(Metric::Dewpoint, station, &obs.properties.dewpoint);
        self.set_from_measurement(
            Metric::BarometricPressure,
            station,
            &obs.properties.barometric_pressure,
        );
        self.set_from_measurement(Metric::Visibility, station, &obs.properties.visibility);
        self.set_from_measurement(
            Metric::RelativeHumidity,
            station,
            &obs.properties.relative_humidity,
        );
        self.set_from_measurement(Metric::WindChill, station, &obs.properties.wind_chill);
        assert(self@ =~= record_observation(old(self)@, *obs));
    }

    /// The current value of the gauge of `metric` with these label values,
    /// or `None` where that gauge does not exist.
    pub fn value(&self, metric: Metric, labels: &Vec<String>) -> (value: Option<u64>)
        ensures
            value == (if self@.contains_key(SampleKey { metric, labels: texts(labels@) }) {
                Some(self@[SampleKey { metric, labels: texts(labels@) }])
            } else {
                None
            }),
    {
        proof {
            use_type_invariant(self);
        }
        match find(&self.samples, metric, labels) {
            Some(i) => {
                proof {
                    lemma_table_at(self.samples@, i as int);
                }
                Some(self.samples[i].value)
            },
            None => None,
        }
    }

    /// The current value of the gauge of `metric` for the station referred
    /// to by `station`, or `None` where that gauge does not exist.
    pub fn gauge(&self, metric: Metric, station: &str) -> (value: Option<u64>)
        ensures
            value == (if self@.contains_key(gauge_key(metric, station@)) {
                Some(self@[gauge_key(metric, station@)])
            } else {
                None
            }),
    {
        let mut labels: Vec<String> = Vec::new();
        labels.push(String::from_str(station));
        assert(texts(labels@) =~= seq![station@]);
        self.value(metric, &labels)
    }

    /// Every gauge that exists, once each, with its current value.
    pub fn samples(&self) -> (samples: &Vec<Sample>)
        ensures
            distinct_keys(samples@),
            fully_labelled(samples@),
            self@ == table(samples@),
            forall|i: int|
                0 <= i < samples@.len() ==> self@.contains_key((#[trigger] samples@[i]).key())
                    && self@[samples@[i].key()] == samples@[i].value,
    {
        proof {
            use_type_invariant(self);
            assert forall|i: int| 0 <= i < self.samples@.len() implies self@.contains_key(
                (#[trigger] self.samples@[i]).key(),
            ) && self@[self.samples@[i].key()] == self.samples@[i].value by {
                lemma_table_at(self.samples@, i);
            }
        }
        &self.samples
    }
}

/// The gauges after a series of observations is recorded, oldest first.
pub open spec fn record_all(gauges: Map<SampleKey, u64>, observations: Seq<Observation>) -> Map<
    SampleKey,
    u64,
>
    decreases observations.len(),
{
    if observations.len() == 0 {
        gauges
    } else {
        record_observation(record_all(gauges, observations.drop_last()), observations.last())
    }
}

/// The value that the latest of the observations which write to the gauge
/// `key` writes to it, or `None` where none of them writes to it.
pub open spec fn latest_written(observations: Seq<Observation>, key: SampleKey) -> Option<u64>
    decreases observations.len(),
{
    if observations.len() == 0 {
        None
    } else if written(observations.last(), key) is Some {
        written(observations.last(), key)
    } else {
        latest_written(observations.drop_last(), key)
    }
}

/// Recording an observation sets each gauge of the observed station whose
/// reading is present to exactly that reading, leaves a gauge whose reading
/// is absent as it was (not created, not changed), and touches no gauge of
/// any other label set.
pub proof fn lemma_observation_pointwise(
    gauges: Map<SampleKey, u64>,
    observation: Observation,
    key: SampleKey,
)
    ensures
        ({
            let after = record_observation(gauges, observation);
            let station = observation.properties.station@;
            &&& key == gauge_key(key.metric, station) ==> match reading(observation, key.metric) {
                Some(value) => after.contains_key(key) && after[key] == value,
                None => after.contains_key(key) == gauges.contains_key(key) && (
                gauges.contains_key(key) ==> after[key] == gauges[key]),
            }
            &&& key != gauge_key(key.metric, station) ==> after.contains_key(key)
                == gauges.contains_key(key) && (gauges.contains_key(key) ==> after[key]
                == gauges[key])
        }),
{
}

/// Recording the same observation twice in a row gives the gauges that
/// recording it once gives.
pub proof fn lemma_observation_idempotent(gauges: Map<SampleKey, u64>, observation: Observation)
    ensures
        record_observation(record_observation(gauges, observation), observation)
            == record_observation(gauges, observation),
{
    assert(record_observation(record_observation(gauges, observation), observation)
        =~= record_observation(gauges, observation));
}

/// Recording the metadata of the same station twice in a row gives the
/// gauges that recording it once gives.
pub proof fn lemma_station_idempotent(gauges: Map<SampleKey, u64>, station: Station)
    ensures
        record_station(record_station(gauges, station), station) == record_station(
            gauges,
            station,
        ),
{
    assert(record_station(record_station(gauges, station), station) =~= record_station(
        gauges,
        station,
    ));
}

/// After any series of observations a gauge holds the value that the latest
/// observation with a reading for it carried; a gauge that none of them had
/// a reading for is as it was before the series.
pub proof fn lemma_gauge_holds_latest_reading(
    gauges: Map<SampleKey, u64>,
    observations: Seq<Observation>,
    key: SampleKey,
)
    ensures
        match latest_written(observations, key) {
            Some(value) => record_all(gauges, observations).contains_key(key) && record_all(
                gauges,
                observations,
            )[key] == value,
            None => record_all(gauges, observations).contains_key(key) == gauges.contains_key(key)
                && (gauges.contains_key(key) ==> record_all(gauges, observations)[key]
                == gauges[key]),
        },
    decreases observations.len(),
{
    if observations.len() > 0 {
        lemma_gauge_holds_latest_reading(gauges, observations.drop_last(), key);
    }
}

/// A station of which no observation was ever recorded has no gauge: from
/// an empty model, no series of observations of other stations creates one
/// for it, whatever the instrument.
pub proof fn lemma_unpolled_station_has_no_gauge(
    observations: Seq<Observation>,
    station: Seq<char>,
    metric: Metric,
)
    requires
        forall|i: int|
            0 <= i < observations.len() ==> (#[trigger] observations[i]).properties.station@
                != station,
    ensures
        !record_all(Map::empty(), observations).contains_key(gauge_key(metric, station)),
    decreases observations.len(),
{
    let key = gauge_key(metric, station);
    if observations.len() > 0 {
        let earlier = observations.drop_last();
        assert forall|i: int| 0 <= i < earlier.len() implies (
        #[trigger] earlier[i]).properties.station@ != station by {
            assert(earlier[i] == observations[i]);
        }
        lemma_unpolled_station_has_no_gauge(earlier, station, metric);
        let last = observations.last();
        assert(last == observations[observations.len() - 1]);
        assert(key.labels[0] == station);
        assert(seq![last.properties.station@][0] == last.properties.station@);
        assert(written(last, key) is None);
    }
}

/// Recording an observation creates gauges for no label set but that of the
/// observed station: the number of label sets grows with the stations
/// observed, never with the number of observations.
pub proof fn lemma_observation_adds_one_label_set(
    gauges: Map<SampleKey, u64>,
    observation: Observation,
    key: SampleKey,
)
    ensures
        record_observation(gauges, observation).contains_key(key) ==> gauges.contains_key(key)
            || key.labels == seq![observation.properties.station@],
{
}

/// Every gauge has one label value for each label name of its instrument.
pub open spec fn well_labelled(gauges: Map<SampleKey, u64>) -> bool {
    forall|key: SampleKey| #[trigger]
        gauges.contains_key(key) ==> key.labels.len() == key.metric.label_names_of().len()
}

/// The station is always a label: the first label of every instrument is
/// `station`, and recording keeps every gauge labelled as its instrument
/// says, starting from the empty model.
pub proof fn lemma_station_is_always_a_label(
    gauges: Map<SampleKey, u64>,
    observation: Observation,
    station: Station,
    metric: Metric,
)
    requires
        well_labelled(gauges),
    ensures
        metric.label_names_of().len() >= 1,
        metric.label_names_of()[0] == "station"@,
        well_labelled(Map::empty()),
        well_labelled(record_observation(gauges, observation)),
        well_labelled(record_station(gauges, station)),
{
    assert forall|key: SampleKey| #[trigger]
        record_observation(gauges, observation).contains_key(key) implies key.labels.len()
        == key.metric.label_names_of().len() by {
        if written(observation, key) is Some {
            assert(key.metric != Metric::Station);
        } else {
            assert(gauges.contains_key(key));
        }
    }
    assert forall|key: SampleKey| #[trigger]
        record_station(gauges, station).contains_key(key) implies key.labels.len()
        == key.metric.label_names_of().len() by {
        if key != info_key(station) {
            assert(gauges.contains_key(key));
        }
    }
}

} // verus!

//! The records that come in and go out, and the weather sample taken from a
//! record's fields.

use vstd::prelude::*;
use crate::reading::Reading;

verus! {

/// The mapping that a list of named values stands for: each name maps to the
/// value it is listed with, a later entry replacing an earlier one of the
/// same name.
pub open spec fn entries_map<V>(entries: Seq<(String, V)>) -> Map<Seq<char>, V>
    decreases entries.len(),
{
    if entries.len() == 0 {
        Map::empty()
    } else {
        entries_map(entries.drop_last()).insert(entries.last().0@, entries.last().1)
    }
}

/// No name is listed twice.
pub open spec fn distinct_names<V>(entries: Seq<(String, V)>) -> bool {
    forall|i: int, j: int| 0 <= i < j < entries.len() ==> entries[i].0@ != entries[j].0@
}

/// The value that `m` holds for `name`, if any.
pub open spec fn lookup<V>(m: Map<Seq<char>, V>, name: Seq<char>) -> Option<V> {
    if m.contains_key(name) {
        Some(m[name])
    } else {
        None
    }
}

proof fn lemma_entries_map_contains<V>(entries: Seq<(String, V)>, name: Seq<char>)
    ensures
        entries_map(entries).contains_key(name) <==> exists|i: int|
            0 <= i < entries.len() && #[trigger] entries[i].0@ == name,
    decreases entries.len(),
{
    if entries.len() > 0 {
        let front = entries.drop_last();
        lemma_entries_map_contains(front, name);
        if entries_map(entries).contains_key(name) {
            if entries.last().0@ == name {
                assert(entries[entries.len() - 1].0@ == name);
            } else {
                let i = choose|i: int| 0 <= i < front.len() && #[trigger] front[i].0@ == name;
                assert(entries[i].0@ == name);
            }
        }
        if exists|i: int| 0 <= i < entries.len() && #[trigger] entries[i].0@ == name {
            let i = choose|i: int| 0 <= i < entries.len() && #[trigger] entries[i].0@ == name;
            if i < front.len() {
                assert(front[i].0@ == name);
            }
        }
    }
}

proof fn lemma_entries_map_value<V>(entries: Seq<(String, V)>, i: int)
    requires
        distinct_names(entries),
        0 <= i < entries.len(),
    ensures
        entries_map(entries).contains_key(entries[i].0@),
        entries_map(entries)[entries[i].0@] == entries[i].1,
    decreases entries.len(),
{
    if i < entries.len() - 1 {
        let front = entries.drop_last();
        assert(front[i] == entries[i]);
        lemma_entries_map_value(front, i);
    }
}

proof fn lemma_entries_map_update<V>(entries: Seq<(String, V)>, i: int, entry: (String, V))
    requires
        distinct_names(entries),
        0 <= i < entries.len(),
        entries[i].0@ == entry.0@,
    ensures
        entries_map(entries.update(i, entry)) == entries_map(entries).insert(entry.0@, entry.1),
        distinct_names(entries.update(i, entry)),
    decreases entries.len(),
{
    let updated = entries.update(i, entry);
    let front = entries.drop_last();
    if i == entries.len() - 1 {
        assert(updated.drop_last() =~= front);
        assert(entries_map(updated) =~= entries_map(entries).insert(entry.0@, entry.1));
    } else {
        assert(front[i] == entries[i]);
        lemma_entries_map_update(front, i, entry);
        assert(updated.drop_last() =~= front.update(i, entry));
        assert(entries_map(updated) =~= entries_map(entries).insert(entry.0@, entry.1));
    }
}

proof fn lemma_entries_map_push<V>(entries: Seq<(String, V)>, entry: (String, V))
    ensures
        entries_map(entries.push(entry)) == entries_map(entries).insert(entry.0@, entry.1),
{
    assert(entries.push(entry).drop_last() =~= entries);
}

/// A mapping from field names to values. No name occurs twice: setting a
/// name that is present replaces its value.
#[derive(Debug)]
pub struct FieldMap<V> {
    entries: Vec<(String, V)>,
}

impl<V> View for FieldMap<V> {
    type V = Map<Seq<char>, V>;

    closed spec fn view(&self) -> Map<Seq<char>, V> {
        entries_map(self.entries@)
    }
}

impl<V> FieldMap<V> {
    #[verifier::type_invariant]
    spec fn well_formed(&self) -> bool {
        distinct_names(self.entries@)
    }

    /// The empty mapping.
    pub fn new() -> (m: Self)
        ensures
            m@ == Map::<Seq<char>, V>::empty(),
    {
        FieldMap { entries: Vec::new() }
    }

    /// Whether the mapping holds no name at all.
    pub fn is_empty(&self) -> (b: bool)
        ensures
            b <==> self@ == Map::<Seq<char>, V>::empty(),
    {
        proof {
            if self.entries@.len() > 0 {
                assert(self@.contains_key(self.entries@.last().0@));
            }
        }
        self.entries.len() == 0
    }

    fn position(&self, name: &String) -> (found: Option<usize>)
        ensures
            match found {
                Some(i) => i < self.entries@.len() && self.entries@[i as int].0@ == name@,
                None => forall|i: int|
                    0 <= i < self.entries@.len() ==> (#[trigger] self.entries@[i]).0@ != name@,
            },
    {
        let mut i: usize = 0;
        while i < self.entries.len()
            invariant
                i <= self.entries@.len(),
                forall|j: int| 0 <= j < i ==> (#[trigger] self.entries@[j]).0@ != name@,
            decreases self.entries@.len() - i,
        {
            if self.entries[i].0 == *name {
                return Some(i);
            }
            i = i + 1;
        }
        None
    }

    /// The value held for `name`, if any.
    pub fn get(&self, name: &str) -> (value: Option<&V>)
        ensures
            match value {
                Some(v) => lookup(self@, name@) == Some(*v),
                None => lookup(self@, name@) is None,
            },
    {
        let key = name.to_owned();
        proof {
            use_type_invariant(self);
            lemma_entries_map_contains(self.entries@, name@);
        }
        match self.position(&key) {
            Some(i) => {
                proof {
                    lemma_entries_map_value(self.entries@, i as int);
                }
                Some(&self.entries[i].1)
            },
            None => None,
        }
    }

    /// Sets the value for `name`, replacing the one it had.
    pub fn insert(&mut self, name: String, value: V)
        ensures
            final(self)@ == old(self)@.insert(name@, value),
    {
        proof {
            use_type_invariant(&*self);
        }
        let found = self.position(&name);
        // The list is taken out while it changes and put back whole.
        let mut entries: Vec<(String, V)> = Vec::new();
        std::mem::swap(&mut self.entries, &mut entries);
        match found {
            Some(i) => {
                proof {
                    lemma_entries_map_update(entries@, i as int, (name, value));
                }
                entries.set(i, (name, value));
            },
            None => {
                proof {
                    lemma_entries_map_push(entries@, (name, value));
                }
                entries.push((name, value));
            },
        }
        std::mem::swap(&mut self.entries, &mut entries);
    }
}

/// One field of an inbound record, as it was received.
#[derive(Debug)]
pub enum FieldValue {
    /// No value.
    Null,
    /// A truth value.
    Bool(bool),
    /// A number.
    Number(Reading),
    /// A piece of text.
    Text(String),
    /// A list or a nested record.
    Other,
}

/// The numeric fields of `raw`: the names whose value is a number, each with
/// that number.
pub open spec fn numeric_fields(raw: Map<Seq<char>, FieldValue>) -> Map<Seq<char>, Reading> {
    Map::new(
        |name: Seq<char>| raw.contains_key(name) && raw[name] is Number,
        |name: Seq<char>| raw[name]->Number_0,
    )
}

impl FieldMap<FieldValue> {
    /// The numeric fields: values of any other kind are dropped, never
    /// read as numbers.
    pub fn numeric(&self) -> (out: FieldMap<Reading>)
        ensures
            out@ == numeric_fields(self@),
    {
        let mut out: FieldMap<Reading> = FieldMap::new();
        let mut i: usize = 0;
        proof {
            use_type_invariant(self);
            assert(self.entries@.take(0) =~= Seq::empty());
            assert(out@ =~= numeric_fields(entries_map(self.entries@.take(0))));
        }
        while i < self.entries.len()
            invariant
                i <= self.entries@.len(),
                distinct_names(self.entries@),
                out@ == numeric_fields(entries_map(self.entries@.take(i as int))),
            decreases self.entries@.len() - i,
        {
            let ghost before = self.entries@.take(i as int);
            let ghost after = self.entries@.take(i + 1);
            proof {
                assert(after.drop_last() =~= before);
                assert(after.last() == self.entries@[i as int]);
                lemma_entries_map_contains(before, self.entries@[i as int].0@);
            }
            match &self.entries[i].1 {
                FieldValue::Number(reading) => {
                    out.insert(self.entries[i].0.clone(), *reading);
                },
                _ => {},
            }
            proof {
                assert(out@ =~= numeric_fields(entries_map(after)));
            }
            i = i + 1;
        }
        proof {
            assert(self.entries@.take(i as int) =~= self.entries@);
        }
        out
    }
}

/// One record as the metrics agent sends it.
#[derive(Debug)]
pub struct TelegrafMetric {
    pub name: String,
    pub timestamp: i64,
    pub tags: Option<FieldMap<String>>,
    pub fields: FieldMap<FieldValue>,
}

/// The answer sent back to the metrics agent.
#[derive(Debug, Clone, PartialEq, Eq)]
pub struct UploadResponse {
    pub success: bool,
    pub message: String,
}

/// Several records sent together.
#[derive(Debug)]
pub struct Batch {
    pub metrics: Vec<TelegrafMetric>,
}

/// What the metrics agent may send: one record, or several together.
#[derive(Debug)]
pub enum MetricsInput {
    Batch(Batch),
    Single(TelegrafMetric),
}

/// One weather sample. A field that the station did not report is absent;
/// none is ever made up.
#[derive(Clone, Copy, Debug, PartialEq, Eq)]
pub struct WeatherData {
    /// Degrees Celsius.
    pub temperature: Option<Reading>,
    /// Percent.
    pub humidity: Option<Reading>,
    /// Hectopascals.
    pub barometric_pressure: Option<Reading>,
    /// Degrees.
    pub wind_direction: Option<Reading>,
    /// Metres per second.
    pub wind_speed: Option<Reading>,
    /// Metres per second.
    pub wind_gust: Option<Reading>,
    /// Millimetres in the last hour.
    pub rainfall_hourly: Option<Reading>,
    /// Millimetres since the start of the day.
    pub rainfall_daily: Option<Reading>,
    /// Micrograms per cubic metre.
    pub pm2_5: Option<Reading>,
    /// Micrograms per cubic metre.
    pub pm10: Option<Reading>,
    /// Lux. Kept with the sample, never uploaded: the services take solar
    /// radiation, which is a different measurement.
    pub light_intensity: Option<Reading>,
    /// Parts per million. Kept with the sample, never uploaded.
    pub co2: Option<Reading>,
}

impl Default for WeatherData {
    fn default() -> (w: WeatherData)
        ensures
            w == WeatherData::spec_from_fields(Map::empty()),
    {
        WeatherData {
            temperature: None,
            humidity: None,
            barometric_pressure: None,
            wind_direction: None,
            wind_speed: None,
            wind_gust: None,
            rainfall_hourly: None,
            rainfall_daily: None,
            pm2_5: None,
            pm10: None,
            light_intensity: None,
            co2: None,
        }
    }
}

fn reading_of(fields: &FieldMap<Reading>, name: &str) -> (r: Option<Reading>)
    ensures
        r == lookup(fields@, name@),
{
    match fields.get(name) {
        Some(reading) => Some(*reading),
        None => None,
    }
}

impl WeatherData {
    /// The sample that the numeric fields `fields` stand for: each of the
    /// twelve known names gives its field, and every other name is ignored.
    pub open spec fn spec_from_fields(fields: Map<Seq<char>, Reading>) -> WeatherData {
        WeatherData {
            temperature: lookup(fields, "temperature"@),
            humidity: lookup(fields, "humidity"@),
            barometric_pressure: lookup(fields, "barometric_pressure"@),
            wind_direction: lookup(fields, "wind_direction"@),
            wind_speed: lookup(fields, "wind_speed"@),
            wind_gust: lookup(fields, "wind_gust"@),
            rainfall_hourly: lookup(fields, "rainfall_hourly"@),
            rainfall_daily: lookup(fields, "rainfall_daily"@),
            pm2_5: lookup(fields, "pm2_5"@),
            pm10: lookup(fields, "pm10"@),
            light_intensity: lookup(fields, "light_intensity"@),
            co2: lookup(fields, "co2"@),
        }
    }

    /// Takes the weather fields out of a record's numeric fields.
    pub fn from_fields(fields: &FieldMap<Reading>) -> (w: WeatherData)
        ensures
            w == WeatherData::spec_from_fields(fields@),
    {
        WeatherData {
            temperature: reading_of(fields, "temperature"),
            humidity: reading_of(fields, "humidity"),
            barometric_pressure: reading_of(fields, "barometric_pressure"),
            wind_direction: reading_of(fields, "wind_direction"),
            wind_speed: reading_of(fields, "wind_speed"),
            wind_gust: reading_of(fields, "wind_gust"),
            rainfall_hourly: reading_of(fields, "rainfall_hourly"),
            rainfall_daily: reading_of(fields, "rainfall_daily"),
            pm2_5: reading_of(fields, "pm2_5"),
            pm10: reading_of(fields, "pm10"),
            light_intensity: reading_of(fields, "light_intensity"),
            co2: reading_of(fields, "co2"),
        }
    }
}

} // verus!

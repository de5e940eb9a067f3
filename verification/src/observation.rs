//! Observations and how they are written for the service.

use vstd::prelude::*;
use crate::quantity::Quantity;
use crate::text::{
    decimal, decimal_string, members_text, object_text, optional_member, put_member, quoted,
    string_text, Member,
};
use crate::timestamp::Timestamp;

verus! {

/// One sample of measurements. Every field may be left unset; a field that
/// is unset is unknown to the service, not zero.
#[derive(Clone, Debug, PartialEq)]
pub struct Observation {
    /// The station that measured. Unset: the account's only station.
    pub station_id: Option<u32>,
    /// When it was measured. Unset: when the service receives it.
    pub time: Option<Timestamp>,
    /// Air temperature, in degrees Celsius.
    pub temperature: Option<Quantity>,
    /// Wind speed, in meters per second.
    pub wind_speed: Option<Quantity>,
    /// Wind direction, in degrees.
    pub wind_direction: Option<u16>,
    /// Wind gust, in meters per second.
    pub wind_gust: Option<Quantity>,
    /// Relative humidity, in percent.
    pub relative_humidity: Option<Quantity>,
    /// Dew point, in degrees Celsius.
    pub dew_point: Option<Quantity>,
    /// Atmospheric pressure, in pascal.
    pub pressure: Option<Quantity>,
    /// Precipitation over the last hour, in millimeters.
    pub precipitation: Option<Quantity>,
    /// UV index.
    pub uv_index: Option<u8>,
}

/// The value text of an integer field.
pub open spec fn integer_text(value: Option<u32>) -> Option<Seq<char>> {
    match value {
        Some(n) => Some(decimal(n as nat)),
        None => None,
    }
}

/// The value text of a quantity field.
pub open spec fn quantity_text(value: Option<Quantity>) -> Option<Seq<char>> {
    match value {
        Some(q) => Some(q@),
        None => None,
    }
}

/// The value text of a time field: the JSON string of the moment's text.
pub open spec fn time_text(value: Option<Timestamp>) -> Option<Seq<char>> {
    match value {
        Some(t) => Some(string_text(t.text())),
        None => None,
    }
}

/// Whether one of the members has the key `key`.
pub open spec fn has_key(members: Seq<Member>, key: Seq<char>) -> bool {
    exists|i: int| 0 <= i < members.len() && (#[trigger] members[i]).key == key
}

fn put_integer(
    out: &mut String,
    first: bool,
    key: &str,
    value: Option<u32>,
    Ghost(base): Ghost<Seq<char>>,
    Ghost(done): Ghost<Seq<Member>>,
) -> (still_first: bool)
    requires
        old(out)@ == base + members_text(done),
        first == (done.len() == 0),
    ensures
        final(out)@ == base + members_text(done + optional_member(key@, integer_text(value))),
        still_first == ((done + optional_member(key@, integer_text(value))).len() == 0),
{
    match value {
        Some(n) => {
            let text = decimal_string(n);
            put_member(out, first, key, Some(text.as_str()), Ghost(base), Ghost(done))
        },
        None => put_member(out, first, key, None, Ghost(base), Ghost(done)),
    }
}

fn put_quantity(
    out: &mut String,
    first: bool,
    key: &str,
    value: &Option<Quantity>,
    Ghost(base): Ghost<Seq<char>>,
    Ghost(done): Ghost<Seq<Member>>,
) -> (still_first: bool)
    requires
        old(out)@ == base + members_text(done),
        first == (done.len() == 0),
    ensures
        final(out)@ == base + members_text(done + optional_member(key@, quantity_text(*value))),
        still_first == ((done + optional_member(key@, quantity_text(*value))).len() == 0),
{
    match value {
        Some(q) => put_member(out, first, key, Some(q.as_str()), Ghost(base), Ghost(done)),
        None => put_member(out, first, key, None, Ghost(base), Ghost(done)),
    }
}

fn put_time(
    out: &mut String,
    first: bool,
    key: &str,
    value: &Option<Timestamp>,
    Ghost(base): Ghost<Seq<char>>,
    Ghost(done): Ghost<Seq<Member>>,
) -> (still_first: bool)
    requires
        old(out)@ == base + members_text(done),
        first == (done.len() == 0),
    ensures
        final(out)@ == base + members_text(done + optional_member(key@, time_text(*value))),
        still_first == ((done + optional_member(key@, time_text(*value))).len() == 0),
{
    match value {
        Some(t) => {
            let text = quoted(t.as_str());
            put_member(out, first, key, Some(text.as_str()), Ghost(base), Ghost(done))
        },
        None => put_member(out, first, key, None, Ghost(base), Ghost(done)),
    }
}

fn widen_u16(value: Option<u16>) -> (wide: Option<u32>)
    ensures
        wide == match value {
            Some(n) => Some(n as u32),
            None => None,
        },
{
    match value {
        Some(n) => Some(n as u32),
        None => None,
    }
}

fn widen_u8(value: Option<u8>) -> (wide: Option<u32>)
    ensures
        wide == match value {
            Some(n) => Some(n as u32),
            None => None,
        },
{
    match value {
        Some(n) => Some(n as u32),
        None => None,
    }
}

impl Observation {
    /// The wind direction as an integer field.
    pub open spec fn wind_direction_wide(&self) -> Option<u32> {
        match self.wind_direction {
            Some(n) => Some(n as u32),
            None => None,
        }
    }

    /// The UV index as an integer field.
    pub open spec fn uv_index_wide(&self) -> Option<u32> {
        match self.uv_index {
            Some(n) => Some(n as u32),
            None => None,
        }
    }

    /// The members of the observation's JSON object: one for each field
    /// that is set, under the key that the service reads it by, in the
    /// order of the fields; none for a field that is unset.
    pub open spec fn members(&self) -> Seq<Member> {
        Seq::<Member>::empty() + optional_member("station"@, integer_text(self.station_id))
            + optional_member("time"@, time_text(self.time)) + optional_member(
            "temp"@,
            quantity_text(self.temperature),
        ) + optional_member("wind"@, quantity_text(self.wind_speed)) + optional_member(
            "winddir"@,
            integer_text(self.wind_direction_wide()),
        ) + optional_member("gust"@, quantity_text(self.wind_gust)) + optional_member(
            "rh"@,
            quantity_text(self.relative_humidity),
        ) + optional_member("dewpoint"@, quantity_text(self.dew_point)) + optional_member(
            "pressure"@,
            quantity_text(self.pressure),
        ) + optional_member("precip"@, quantity_text(self.precipitation)) + optional_member(
            "uv"@,
            integer_text(self.uv_index_wide()),
        )
    }

    /// The observation's JSON object.
    pub open spec fn json(&self) -> Seq<char> {
        object_text(self.members())
    }

    /// Renders the observation as its JSON object.
    pub fn to_json(&self) -> (text: String)
        ensures
            text@ == self.json(),
    {
        let mut out = String::new();
        out.push('{');
        let ghost base = seq!['{'];
        let ghost m0 = Seq::<Member>::empty();
        assert(out@ =~= base + members_text(m0));
        let first = put_integer(&mut out, true, "station", self.station_id, Ghost(base), Ghost(m0));
        let ghost m1 = m0 + optional_member("station"@, integer_text(self.station_id));
        let first = put_time(&mut out, first, "time", &self.time, Ghost(base), Ghost(m1));
        let ghost m2 = m1 + optional_member("time"@, time_text(self.time));
        let first = put_quantity(
            &mut out,
            first,
            "temp",
            &self.temperature,
            Ghost(base),
            Ghost(m2),
        );
        let ghost m3 = m2 + optional_member("temp"@, quantity_text(self.temperature));
        let first = put_quantity(&mut out, first, "wind", &self.wind_speed, Ghost(base), Ghost(m3));
        let ghost m4 = m3 + optional_member("wind"@, quantity_text(self.wind_speed));
        let first = put_integer(
            &mut out,
            first,
            "winddir",
            widen_u16(self.wind_direction),
            Ghost(base),
            Ghost(m4),
        );
        let ghost m5 = m4 + optional_member("winddir"@, integer_text(self.wind_direction_wide()));
        let first = put_quantity(&mut out, first, "gust", &self.wind_gust, Ghost(base), Ghost(m5));
        let ghost m6 = m5 + optional_member("gust"@, quantity_text(self.wind_gust));
        let first = put_quantity(
            &mut out,
            first,
            "rh",
            &self.relative_humidity,
            Ghost(base),
            Ghost(m6),
        );
        let ghost m7 = m6 + optional_member("rh"@, quantity_text(self.relative_humidity));
        let first = put_quantity(
            &mut out,
            first,
            "dewpoint",
            &self.dew_point,
            Ghost(base),
            Ghost(m7),
        );
        let ghost m8 = m7 + optional_member("dewpoint"@, quantity_text(self.dew_point));
        let first = put_quantity(
            &mut out,
            first,
            "pressure",
            &self.pressure,
            Ghost(base),
            Ghost(m8),
        );
        let ghost m9 = m8 + optional_member("pressure"@, quantity_text(self.pressure));
        let first = put_quantity(
            &mut out,
            first,
            "precip",
            &self.precipitation,
            Ghost(base),
            Ghost(m9),
        );
        let ghost m10 = m9 + optional_member("precip"@, quantity_text(self.precipitation));
        let _ = put_integer(
            &mut out,
            first,
            "uv",
            widen_u8(self.uv_index),
            Ghost(base),
            Ghost(m10),
        );
        let ghost m11 = m10 + optional_member("uv"@, integer_text(self.uv_index_wide()));
        out.push('}');
        proof {
            assert(m11 == self.members());
            assert(out@ =~= self.json());
        }
        out
    }
}

impl Observation {
    /// An observation with no field set is the empty object.
    pub proof fn lemma_nothing_set(&self)
        requires
            self.station_id is None,
            self.time is None,
            self.temperature is None,
            self.wind_speed is None,
            self.wind_direction is None,
            self.wind_gust is None,
            self.relative_humidity is None,
            self.dew_point is None,
            self.pressure is None,
            self.precipitation is None,
            self.uv_index is None,
        ensures
            self.members() == Seq::<Member>::empty(),
            self.json() == seq!['{', '}'],
    {
        assert(self.members() =~= Seq::<Member>::empty());
        assert(self.json() =~= seq!['{', '}']);
    }
}

impl Default for Observation {
    /// The observation with every field unset.
    fn default() -> (unset: Self)
        ensures
            unset.station_id is None,
            unset.time is None,
            unset.temperature is None,
            unset.wind_speed is None,
            unset.wind_direction is None,
            unset.wind_gust is None,
            unset.relative_humidity is None,
            unset.dew_point is None,
            unset.pressure is None,
            unset.precipitation is None,
            unset.uv_index is None,
    {
        Observation {
            station_id: None,
            time: None,
            temperature: None,
            wind_speed: None,
            wind_direction: None,
            wind_gust: None,
            relative_humidity: None,
            dew_point: None,
            pressure: None,
            precipitation: None,
            uv_index: None,
        }
    }
}

/// A member list that ends with an optional member has a key where the
/// list before it has the key, or where the last member is there and has it.
pub proof fn lemma_has_key_step(
    done: Seq<Member>,
    key: Seq<char>,
    value: Option<Seq<char>>,
    wanted: Seq<char>,
)
    ensures
        has_key(done + optional_member(key, value), wanted) <==> has_key(done, wanted) || (
        value is Some && key == wanted),
{
    let now = done + optional_member(key, value);
    if has_key(done, wanted) {
        let i = choose|i: int| 0 <= i < done.len() && (#[trigger] done[i]).key == wanted;
        assert(now[i].key == wanted);
    }
    if value is Some && key == wanted {
        assert(now[done.len() as int].key == wanted);
    }
    if has_key(now, wanted) {
        let i = choose|i: int| 0 <= i < now.len() && (#[trigger] now[i]).key == wanted;
        if i < done.len() {
            assert(done[i].key == wanted);
        }
    }
}

impl Observation {
    /// The object of an observation has the key `wanted` exactly where
    /// `wanted` is the key of a field that is set.
    pub proof fn lemma_key_present(&self, wanted: Seq<char>)
        ensures
            has_key(self.members(), wanted) <==> {
                ||| (wanted == "station"@ && self.station_id is Some)
                ||| (wanted == "time"@ && self.time is Some)
                ||| (wanted == "temp"@ && self.temperature is Some)
                ||| (wanted == "wind"@ && self.wind_speed is Some)
                ||| (wanted == "winddir"@ && self.wind_direction is Some)
                ||| (wanted == "gust"@ && self.wind_gust is Some)
                ||| (wanted == "rh"@ && self.relative_humidity is Some)
                ||| (wanted == "dewpoint"@ && self.dew_point is Some)
                ||| (wanted == "pressure"@ && self.pressure is Some)
                ||| (wanted == "precip"@ && self.precipitation is Some)
                ||| (wanted == "uv"@ && self.uv_index is Some)
            },
    {
        let m0 = Seq::<Member>::empty();
        let m1 = m0 + optional_member("station"@, integer_text(self.station_id));
        let m2 = m1 + optional_member("time"@, time_text(self.time));
        let m3 = m2 + optional_member("temp"@, quantity_text(self.temperature));
        let m4 = m3 + optional_member("wind"@, quantity_text(self.wind_speed));
        let m5 = m4 + optional_member("winddir"@, integer_text(self.wind_direction_wide()));
        let m6 = m5 + optional_member("gust"@, quantity_text(self.wind_gust));
        let m7 = m6 + optional_member("rh"@, quantity_text(self.relative_humidity));
        let m8 = m7 + optional_member("dewpoint"@, quantity_text(self.dew_point));
        let m9 = m8 + optional_member("pressure"@, quantity_text(self.pressure));
        let m10 = m9 + optional_member("precip"@, quantity_text(self.precipitation));
        let m11 = m10 + optional_member("uv"@, integer_text(self.uv_index_wide()));
        assert(!has_key(m0, wanted));
        lemma_has_key_step(m0, "station"@, integer_text(self.station_id), wanted);
        lemma_has_key_step(m1, "time"@, time_text(self.time), wanted);
        lemma_has_key_step(m2, "temp"@, quantity_text(self.temperature), wanted);
        lemma_has_key_step(m3, "wind"@, quantity_text(self.wind_speed), wanted);
        lemma_has_key_step(m4, "winddir"@, integer_text(self.wind_direction_wide()), wanted);
        lemma_has_key_step(m5, "gust"@, quantity_text(self.wind_gust), wanted);
        lemma_has_key_step(m6, "rh"@, quantity_text(self.relative_humidity), wanted);
        lemma_has_key_step(m7, "dewpoint"@, quantity_text(self.dew_point), wanted);
        lemma_has_key_step(m8, "pressure"@, quantity_text(self.pressure), wanted);
        lemma_has_key_step(m9, "precip"@, quantity_text(self.precipitation), wanted);
        lemma_has_key_step(m10, "uv"@, integer_text(self.uv_index_wide()), wanted);
        assert(m11 == self.members());
    }

    /// A field that is unset is absent from the observation's object: no
    /// member has its key. A field that is set is there under its key.
    pub proof fn lemma_unset_fields_absent(&self)
        ensures
            has_key(self.members(), "station"@) <==> self.station_id is Some,
            has_key(self.members(), "time"@) <==> self.time is Some,
            has_key(self.members(), "temp"@) <==> self.temperature is Some,
            has_key(self.members(), "wind"@) <==> self.wind_speed is Some,
            has_key(self.members(), "winddir"@) <==> self.wind_direction is Some,
            has_key(self.members(), "gust"@) <==> self.wind_gust is Some,
            has_key(self.members(), "rh"@) <==> self.relative_humidity is Some,
            has_key(self.members(), "dewpoint"@) <==> self.dew_point is Some,
            has_key(self.members(), "pressure"@) <==> self.pressure is Some,
            has_key(self.members(), "precip"@) <==> self.precipitation is Some,
            has_key(self.members(), "uv"@) <==> self.uv_index is Some,
    {
        lemma_keys_differ();
        self.lemma_key_present("station"@);
        self.lemma_key_present("time"@);
        self.lemma_key_present("temp"@);
        self.lemma_key_present("wind"@);
        self.lemma_key_present("winddir"@);
        self.lemma_key_present("gust"@);
        self.lemma_key_present("rh"@);
        self.lemma_key_present("dewpoint"@);
        self.lemma_key_present("pressure"@);
        self.lemma_key_present("precip"@);
        self.lemma_key_present("uv"@);
    }
}

/// The lengths and first letters of the keys, which tell any two of them
/// apart.
proof fn lemma_keys_differ()
    ensures
        "station"@.len() == 7,
        "winddir"@.len() == 7,
        "station"@[0] == 's',
        "winddir"@[0] == 'w',
        "time"@.len() == 4,
        "temp"@.len() == 4,
        "wind"@.len() == 4,
        "gust"@.len() == 4,
        "time"@[0] == 't' && "time"@[1] == 'i',
        "temp"@[0] == 't' && "temp"@[1] == 'e',
        "wind"@[0] == 'w',
        "gust"@[0] == 'g',
        "rh"@.len() == 2,
        "uv"@.len() == 2,
        "rh"@[0] == 'r',
        "uv"@[0] == 'u',
        "dewpoint"@.len() == 8,
        "pressure"@.len() == 8,
        "dewpoint"@[0] == 'd',
        "pressure"@[0] == 'p',
        "precip"@.len() == 6,
{
    reveal_strlit("station");
    reveal_strlit("time");
    reveal_strlit("temp");
    reveal_strlit("wind");
    reveal_strlit("winddir");
    reveal_strlit("gust");
    reveal_strlit("rh");
    reveal_strlit("dewpoint");
    reveal_strlit("pressure");
    reveal_strlit("precip");
    reveal_strlit("uv");
}

} // verus!

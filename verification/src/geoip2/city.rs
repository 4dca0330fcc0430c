//! The parts of a city-level record.

use vstd::prelude::*;
use crate::lua::{LuaValue, is_table_of_len, table_get, lemma_entries_get};
use crate::serialize::{PushToLua, field, field_is};
use super::Names;
use crate::serialize::F64Bits;

pub use super::country::{Continent, Country, RepresentedCountry, Traits};

verus! {

/// The city of a network.
#[derive(Clone, Debug, Default, PartialEq, Eq)]
pub struct City {
    pub geoname_id: Option<u32>,
    pub names: Names,
}

impl PushToLua for City {
    open spec fn represented_by(&self, v: LuaValue) -> bool {
        &&& is_table_of_len(v, 2)
        &&& field_is(v, 0, "geoname_id"@, self.geoname_id)
        &&& field_is(v, 1, "names"@, self.names)
    }

    fn push_to_lua(&self) -> (v: LuaValue) {
        let mut es: Vec<(LuaValue, LuaValue)> = Vec::new();
        es.push(field("geoname_id", &self.geoname_id));
        es.push(field("names", &self.names));
        LuaValue::Table(es)
    }
}

/// Where a network is, and how precisely that is known.
#[derive(Clone, Debug, Default, PartialEq, Eq)]
pub struct Location {
    pub accuracy_radius: Option<u16>,
    pub latitude: Option<F64Bits>,
    pub longitude: Option<F64Bits>,
    pub metro_code: Option<u16>,
    pub time_zone: Option<String>,
}

impl PushToLua for Location {
    open spec fn represented_by(&self, v: LuaValue) -> bool {
        &&& is_table_of_len(v, 5)
        &&& field_is(v, 0, "accuracy_radius"@, self.accuracy_radius)
        &&& field_is(v, 1, "latitude"@, self.latitude)
        &&& field_is(v, 2, "longitude"@, self.longitude)
        &&& field_is(v, 3, "metro_code"@, self.metro_code)
        &&& field_is(v, 4, "time_zone"@, self.time_zone)
    }

    fn push_to_lua(&self) -> (v: LuaValue) {
        let mut es: Vec<(LuaValue, LuaValue)> = Vec::new();
        es.push(field("accuracy_radius", &self.accuracy_radius));
        es.push(field("latitude", &self.latitude));
        es.push(field("longitude", &self.longitude));
        es.push(field("metro_code", &self.metro_code));
        es.push(field("time_zone", &self.time_zone));
        LuaValue::Table(es)
    }
}

/// The postal code of a network.
#[derive(Clone, Debug, Default, PartialEq, Eq)]
pub struct Postal {
    pub code: Option<String>,
}

impl PushToLua for Postal {
    open spec fn represented_by(&self, v: LuaValue) -> bool {
        &&& is_table_of_len(v, 1)
        &&& field_is(v, 0, "code"@, self.code)
    }

    fn push_to_lua(&self) -> (v: LuaValue) {
        let mut es: Vec<(LuaValue, LuaValue)> = Vec::new();
        es.push(field("code", &self.code));
        LuaValue::Table(es)
    }
}

/// A subdivision of a country, such as a state or a province.
#[derive(Clone, Debug, Default, PartialEq, Eq)]
pub struct Subdivision {
    pub geoname_id: Option<u32>,
    pub iso_code: Option<String>,
    pub names: Names,
}

impl PushToLua for Subdivision {
    open spec fn represented_by(&self, v: LuaValue) -> bool {
        &&& is_table_of_len(v, 3)
        &&& field_is(v, 0, "geoname_id"@, self.geoname_id)
        &&& field_is(v, 1, "iso_code"@, self.iso_code)
        &&& field_is(v, 2, "names"@, self.names)
    }

    fn push_to_lua(&self) -> (v: LuaValue) {
        let mut es: Vec<(LuaValue, LuaValue)> = Vec::new();
        es.push(field("geoname_id", &self.geoname_id));
        es.push(field("iso_code", &self.iso_code));
        es.push(field("names", &self.names));
        LuaValue::Table(es)
    }
}
/// Reading a key of the Lua table of `City` gives the value that
/// represents the field of that name.
pub proof fn law_city_table_fields(x: City, v: LuaValue)
    requires
        x.represented_by(v),
    ensures
        x.geoname_id.represented_by(table_get(v, "geoname_id"@)),
        x.names.represented_by(table_get(v, "names"@)),
{
    reveal_strlit("geoname_id");
    assert("geoname_id"@.len() == 10);
    reveal_strlit("names");
    assert("names"@.len() == 5);
    let es = match v {
        LuaValue::Table(es) => es@,
        _ => Seq::empty(),
    };
    lemma_entries_get(es, "geoname_id"@, 0);
    lemma_entries_get(es, "names"@, 1);
}

/// Reading a key of the Lua table of `Location` gives the value that
/// represents the field of that name.
pub proof fn law_location_table_fields(x: Location, v: LuaValue)
    requires
        x.represented_by(v),
    ensures
        x.accuracy_radius.represented_by(table_get(v, "accuracy_radius"@)),
        x.latitude.represented_by(table_get(v, "latitude"@)),
        x.longitude.represented_by(table_get(v, "longitude"@)),
        x.metro_code.represented_by(table_get(v, "metro_code"@)),
        x.time_zone.represented_by(table_get(v, "time_zone"@)),
{
    reveal_strlit("accuracy_radius");
    assert("accuracy_radius"@.len() == 15);
    reveal_strlit("latitude");
    assert("latitude"@.len() == 8);
    reveal_strlit("longitude");
    assert("longitude"@[0] == 'l' && "longitude"@.len() == 9);
    reveal_strlit("metro_code");
    assert("metro_code"@.len() == 10);
    reveal_strlit("time_zone");
    assert("time_zone"@[0] == 't' && "time_zone"@.len() == 9);
    let es = match v {
        LuaValue::Table(es) => es@,
        _ => Seq::empty(),
    };
    lemma_entries_get(es, "accuracy_radius"@, 0);
    lemma_entries_get(es, "latitude"@, 1);
    lemma_entries_get(es, "longitude"@, 2);
    lemma_entries_get(es, "metro_code"@, 3);
    lemma_entries_get(es, "time_zone"@, 4);
}

/// Reading a key of the Lua table of `Postal` gives the value that
/// represents the field of that name.
pub proof fn law_postal_table_fields(x: Postal, v: LuaValue)
    requires
        x.represented_by(v),
    ensures
        x.code.represented_by(table_get(v, "code"@)),
{
    let es = match v {
        LuaValue::Table(es) => es@,
        _ => Seq::empty(),
    };
    lemma_entries_get(es, "code"@, 0);
}

/// Reading a key of the Lua table of `Subdivision` gives the value that
/// represents the field of that name.
pub proof fn law_subdivision_table_fields(x: Subdivision, v: LuaValue)
    requires
        x.represented_by(v),
    ensures
        x.geoname_id.represented_by(table_get(v, "geoname_id"@)),
        x.iso_code.represented_by(table_get(v, "iso_code"@)),
        x.names.represented_by(table_get(v, "names"@)),
{
    reveal_strlit("geoname_id");
    assert("geoname_id"@.len() == 10);
    reveal_strlit("iso_code");
    assert("iso_code"@.len() == 8);
    reveal_strlit("names");
    assert("names"@.len() == 5);
    let es = match v {
        LuaValue::Table(es) => es@,
        _ => Seq::empty(),
    };
    lemma_entries_get(es, "geoname_id"@, 0);
    lemma_entries_get(es, "iso_code"@, 1);
    lemma_entries_get(es, "names"@, 2);
}

} // verus!

//! The parts of a country-level record.

use vstd::prelude::*;
use crate::lua::{LuaValue, is_table_of_len, table_get, lemma_entries_get};
use crate::serialize::{PushToLua, field, field_is};
use super::Names;

verus! {

/// The continent of a network.
#[derive(Clone, Debug, Default, PartialEq, Eq)]
pub struct Continent {
    pub code: Option<String>,
    pub geoname_id: Option<u32>,
    pub names: Names,
}

impl PushToLua for Continent {
    open spec fn represented_by(&self, v: LuaValue) -> bool {
        &&& is_table_of_len(v, 3)
        &&& field_is(v, 0, "code"@, self.code)
        &&& field_is(v, 1, "geoname_id"@, self.geoname_id)
        &&& field_is(v, 2, "names"@, self.names)
    }

    fn push_to_lua(&self) -> (v: LuaValue) {
        let mut es: Vec<(LuaValue, LuaValue)> = Vec::new();
        es.push(field("code", &self.code));
        es.push(field("geoname_id", &self.geoname_id));
        es.push(field("names", &self.names));
        LuaValue::Table(es)
    }
}

/// A country, as where a network is or where it is registered.
#[derive(Clone, Debug, Default, PartialEq, Eq)]
pub struct Country {
    pub geoname_id: Option<u32>,
    pub is_in_european_union: Option<bool>,
    pub iso_code: Option<String>,
    pub names: Names,
}

impl PushToLua for Country {
    open spec fn represented_by(&self, v: LuaValue) -> bool {
        &&& is_table_of_len(v, 4)
        &&& field_is(v, 0, "geoname_id"@, self.geoname_id)
        &&& field_is(v, 1, "is_in_european_union"@, self.is_in_european_union)
        &&& field_is(v, 2, "iso_code"@, self.iso_code)
        &&& field_is(v, 3, "names"@, self.names)
    }

    fn push_to_lua(&self) -> (v: LuaValue) {
        let mut es: Vec<(LuaValue, LuaValue)> = Vec::new();
        es.push(field("geoname_id", &self.geoname_id));
        es.push(field("is_in_european_union", &self.is_in_european_union));
        es.push(field("iso_code", &self.iso_code));
        es.push(field("names", &self.names));
        LuaValue::Table(es)
    }
}

/// The country that a network's users represent, such as a military base abroad.
#[derive(Clone, Debug, Default, PartialEq, Eq)]
pub struct RepresentedCountry {
    pub geoname_id: Option<u32>,
    pub is_in_european_union: Option<bool>,
    pub iso_code: Option<String>,
    pub names: Names,
    pub representation_type: Option<String>,
}

impl PushToLua for RepresentedCountry {
    open spec fn represented_by(&self, v: LuaValue) -> bool {
        &&& is_table_of_len(v, 5)
        &&& field_is(v, 0, "geoname_id"@, self.geoname_id)
        &&& field_is(v, 1, "is_in_european_union"@, self.is_in_european_union)
        &&& field_is(v, 2, "iso_code"@, self.iso_code)
        &&& field_is(v, 3, "names"@, self.names)
        &&& field_is(v, 4, "representation_type"@, self.representation_type)
    }

    fn push_to_lua(&self) -> (v: LuaValue) {
        let mut es: Vec<(LuaValue, LuaValue)> = Vec::new();
        es.push(field("geoname_id", &self.geoname_id));
        es.push(field("is_in_european_union", &self.is_in_european_union));
        es.push(field("iso_code", &self.iso_code));
        es.push(field("names", &self.names));
        es.push(field("representation_type", &self.representation_type));
        LuaValue::Table(es)
    }
}

/// Traits of a network.
#[derive(Clone, Debug, Default, PartialEq, Eq)]
pub struct Traits {
    pub is_anycast: Option<bool>,
}

impl PushToLua for Traits {
    open spec fn represented_by(&self, v: LuaValue) -> bool {
        &&& is_table_of_len(v, 1)
        &&& field_is(v, 0, "is_anycast"@, self.is_anycast)
    }

    fn push_to_lua(&self) -> (v: LuaValue) {
        let mut es: Vec<(LuaValue, LuaValue)> = Vec::new();
        es.push(field("is_anycast", &self.is_anycast));
        LuaValue::Table(es)
    }
}
/// Reading a key of the Lua table of `Continent` gives the value that
/// represents the field of that name.
pub proof fn law_continent_table_fields(x: Continent, v: LuaValue)
    requires
        x.represented_by(v),
    ensures
        x.code.represented_by(table_get(v, "code"@)),
        x.geoname_id.represented_by(table_get(v, "geoname_id"@)),
        x.names.represented_by(table_get(v, "names"@)),
{
    reveal_strlit("code");
    assert("code"@.len() == 4);
    reveal_strlit("geoname_id");
    assert("geoname_id"@.len() == 10);
    reveal_strlit("names");
    assert("names"@.len() == 5);
    let es = match v {
        LuaValue::Table(es) => es@,
        _ => Seq::empty(),
    };
    lemma_entries_get(es, "code"@, 0);
    lemma_entries_get(es, "geoname_id"@, 1);
    lemma_entries_get(es, "names"@, 2);
}

/// Reading a key of the Lua table of `Country` gives the value that
/// represents the field of that name.
pub proof fn law_country_table_fields(x: Country, v: LuaValue)
    requires
        x.represented_by(v),
    ensures
        x.geoname_id.represented_by(table_get(v, "geoname_id"@)),
        x.is_in_european_union.represented_by(table_get(v, "is_in_european_union"@)),
        x.iso_code.represented_by(table_get(v, "iso_code"@)),
        x.names.represented_by(table_get(v, "names"@)),
{
    reveal_strlit("geoname_id");
    assert("geoname_id"@.len() == 10);
    reveal_strlit("is_in_european_union");
    assert("is_in_european_union"@.len() == 20);
    reveal_strlit("iso_code");
    assert("iso_code"@.len() == 8);
    reveal_strlit("names");
    assert("names"@.len() == 5);
    let es = match v {
        LuaValue::Table(es) => es@,
        _ => Seq::empty(),
    };
    lemma_entries_get(es, "geoname_id"@, 0);
    lemma_entries_get(es, "is_in_european_union"@, 1);
    lemma_entries_get(es, "iso_code"@, 2);
    lemma_entries_get(es, "names"@, 3);
}

/// Reading a key of the Lua table of `RepresentedCountry` gives the value that
/// represents the field of that name.
pub proof fn law_represented_country_table_fields(x: RepresentedCountry, v: LuaValue)
    requires
        x.represented_by(v),
    ensures
        x.geoname_id.represented_by(table_get(v, "geoname_id"@)),
        x.is_in_european_union.represented_by(table_get(v, "is_in_european_union"@)),
        x.iso_code.represented_by(table_get(v, "iso_code"@)),
        x.names.represented_by(table_get(v, "names"@)),
        x.representation_type.represented_by(table_get(v, "representation_type"@)),
{
    reveal_strlit("geoname_id");
    assert("geoname_id"@.len() == 10);
    reveal_strlit("is_in_european_union");
    assert("is_in_european_union"@.len() == 20);
    reveal_strlit("iso_code");
    assert("iso_code"@.len() == 8);
    reveal_strlit("names");
    assert("names"@.len() == 5);
    reveal_strlit("representation_type");
    assert("representation_type"@.len() == 19);
    let es = match v {
        LuaValue::Table(es) => es@,
        _ => Seq::empty(),
    };
    lemma_entries_get(es, "geoname_id"@, 0);
    lemma_entries_get(es, "is_in_european_union"@, 1);
    lemma_entries_get(es, "iso_code"@, 2);
    lemma_entries_get(es, "names"@, 3);
    lemma_entries_get(es, "representation_type"@, 4);
}

/// Reading a key of the Lua table of `Traits` gives the value that
/// represents the field of that name.
pub proof fn law_traits_table_fields(x: Traits, v: LuaValue)
    requires
        x.represented_by(v),
    ensures
        x.is_anycast.represented_by(table_get(v, "is_anycast"@)),
{
    let es = match v {
        LuaValue::Table(es) => es@,
        _ => Seq::empty(),
    };
    lemma_entries_get(es, "is_anycast"@, 0);
}

} // verus!

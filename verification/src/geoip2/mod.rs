//! The records that a MaxMind DB lookup decodes, held as plain values,
//! and the Lua tables that represent them.

use vstd::prelude::*;
use crate::lua::{LuaValue, is_table_of_len, table_get, lemma_entries_get};
use crate::serialize::{PushToLua, field, field_is};
use crate::names::{Language, language_code, law_language_codes, name_in, spec_language};

pub mod city;
pub mod country;

verus! {

/// Localized names of a place, one per language that MaxMind databases carry.
#[derive(Clone, Debug, Default, PartialEq, Eq)]
pub struct Names {
    pub german: Option<String>,
    pub english: Option<String>,
    pub spanish: Option<String>,
    pub french: Option<String>,
    pub japanese: Option<String>,
    pub brazilian_portuguese: Option<String>,
    pub russian: Option<String>,
    pub simplified_chinese: Option<String>,
}

/// On the Lua side names are keyed by MaxMind's language codes.
impl PushToLua for Names {
    open spec fn represented_by(&self, v: LuaValue) -> bool {
        &&& is_table_of_len(v, 8)
        &&& field_is(v, 0, "de"@, self.german)
        &&& field_is(v, 1, "en"@, self.english)
        &&& field_is(v, 2, "es"@, self.spanish)
        &&& field_is(v, 3, "fr"@, self.french)
        &&& field_is(v, 4, "ja"@, self.japanese)
        &&& field_is(v, 5, "pt-BR"@, self.brazilian_portuguese)
        &&& field_is(v, 6, "ru"@, self.russian)
        &&& field_is(v, 7, "zh-CN"@, self.simplified_chinese)
    }

    fn push_to_lua(&self) -> (v: LuaValue) {
        let mut es: Vec<(LuaValue, LuaValue)> = Vec::new();
        es.push(field("de", &self.german));
        es.push(field("en", &self.english));
        es.push(field("es", &self.spanish));
        es.push(field("fr", &self.french));
        es.push(field("ja", &self.japanese));
        es.push(field("pt-BR", &self.brazilian_portuguese));
        es.push(field("ru", &self.russian));
        es.push(field("zh-CN", &self.simplified_chinese));
        LuaValue::Table(es)
    }
}

/// A record of a country database.
#[derive(Clone, Debug, Default, PartialEq, Eq)]
pub struct Country {
    pub continent: country::Continent,
    pub country: country::Country,
    pub registered_country: country::Country,
    pub represented_country: country::RepresentedCountry,
    pub traits: country::Traits,
}

impl PushToLua for Country {
    open spec fn represented_by(&self, v: LuaValue) -> bool {
        &&& is_table_of_len(v, 5)
        &&& field_is(v, 0, "continent"@, self.continent)
        &&& field_is(v, 1, "country"@, self.country)
        &&& field_is(v, 2, "registered_country"@, self.registered_country)
        &&& field_is(v, 3, "represented_country"@, self.represented_country)
        &&& field_is(v, 4, "traits"@, self.traits)
    }

    fn push_to_lua(&self) -> (v: LuaValue) {
        let mut es: Vec<(LuaValue, LuaValue)> = Vec::new();
        es.push(field("continent", &self.continent));
        es.push(field("country", &self.country));
        es.push(field("registered_country", &self.registered_country));
        es.push(field("represented_country", &self.represented_country));
        es.push(field("traits", &self.traits));
        LuaValue::Table(es)
    }
}

/// A record of a city database.
#[derive(Clone, Debug, Default, PartialEq, Eq)]
pub struct City {
    pub city: city::City,
    pub continent: city::Continent,
    pub country: city::Country,
    pub location: city::Location,
    pub postal: city::Postal,
    pub registered_country: city::Country,
    pub represented_country: city::RepresentedCountry,
    pub subdivisions: Vec<city::Subdivision>,
    pub traits: city::Traits,
}

impl PushToLua for City {
    open spec fn represented_by(&self, v: LuaValue) -> bool {
        &&& is_table_of_len(v, 9)
        &&& field_is(v, 0, "city"@, self.city)
        &&& field_is(v, 1, "continent"@, self.continent)
        &&& field_is(v, 2, "country"@, self.country)
        &&& field_is(v, 3, "location"@, self.location)
        &&& field_is(v, 4, "postal"@, self.postal)
        &&& field_is(v, 5, "registered_country"@, self.registered_country)
        &&& field_is(v, 6, "represented_country"@, self.represented_country)
        &&& field_is(v, 7, "subdivisions"@, self.subdivisions)
        &&& field_is(v, 8, "traits"@, self.traits)
    }

    fn push_to_lua(&self) -> (v: LuaValue) {
        let mut es: Vec<(LuaValue, LuaValue)> = Vec::new();
        es.push(field("city", &self.city));
        es.push(field("continent", &self.continent));
        es.push(field("country", &self.country));
        es.push(field("location", &self.location));
        es.push(field("postal", &self.postal));
        es.push(field("registered_country", &self.registered_country));
        es.push(field("represented_country", &self.represented_country));
        es.push(field("subdivisions", &self.subdivisions));
        es.push(field("traits", &self.traits));
        LuaValue::Table(es)
    }
}

/// A record of an anonymous IP database.
#[derive(Clone, Debug, Default, PartialEq, Eq)]
pub struct AnonymousIp {
    pub is_anonymous: Option<bool>,
    pub is_anonymous_vpn: Option<bool>,
    pub is_hosting_provider: Option<bool>,
    pub is_public_proxy: Option<bool>,
    pub is_residential_proxy: Option<bool>,
    pub is_tor_exit_node: Option<bool>,
}

impl PushToLua for AnonymousIp {
    open spec fn represented_by(&self, v: LuaValue) -> bool {
        &&& is_table_of_len(v, 6)
        &&& field_is(v, 0, "is_anonymous"@, self.is_anonymous)
        &&& field_is(v, 1, "is_anonymous_vpn"@, self.is_anonymous_vpn)
        &&& field_is(v, 2, "is_hosting_provider"@, self.is_hosting_provider)
        &&& field_is(v, 3, "is_public_proxy"@, self.is_public_proxy)
        &&& field_is(v, 4, "is_residential_proxy"@, self.is_residential_proxy)
        &&& field_is(v, 5, "is_tor_exit_node"@, self.is_tor_exit_node)
    }

    fn push_to_lua(&self) -> (v: LuaValue) {
        let mut es: Vec<(LuaValue, LuaValue)> = Vec::new();
        es.push(field("is_anonymous", &self.is_anonymous));
        es.push(field("is_anonymous_vpn", &self.is_anonymous_vpn));
        es.push(field("is_hosting_provider", &self.is_hosting_provider));
        es.push(field("is_public_proxy", &self.is_public_proxy));
        es.push(field("is_residential_proxy", &self.is_residential_proxy));
        es.push(field("is_tor_exit_node", &self.is_tor_exit_node));
        LuaValue::Table(es)
    }
}

/// A record of an ASN database.
#[derive(Clone, Debug, Default, PartialEq, Eq)]
pub struct Asn {
    pub autonomous_system_number: Option<u32>,
    pub autonomous_system_organization: Option<String>,
}

impl PushToLua for Asn {
    open spec fn represented_by(&self, v: LuaValue) -> bool {
        &&& is_table_of_len(v, 2)
        &&& field_is(v, 0, "autonomous_system_number"@, self.autonomous_system_number)
        &&& field_is(v, 1, "autonomous_system_organization"@, self.autonomous_system_organization)
    }

    fn push_to_lua(&self) -> (v: LuaValue) {
        let mut es: Vec<(LuaValue, LuaValue)> = Vec::new();
        es.push(field("autonomous_system_number", &self.autonomous_system_number));
        es.push(field("autonomous_system_organization", &self.autonomous_system_organization));
        LuaValue::Table(es)
    }
}

/// A record of a connection type database.
#[derive(Clone, Debug, Default, PartialEq, Eq)]
pub struct ConnectionType {
    pub connection_type: Option<String>,
}

impl PushToLua for ConnectionType {
    open spec fn represented_by(&self, v: LuaValue) -> bool {
        &&& is_table_of_len(v, 1)
        &&& field_is(v, 0, "connection_type"@, self.connection_type)
    }

    fn push_to_lua(&self) -> (v: LuaValue) {
        let mut es: Vec<(LuaValue, LuaValue)> = Vec::new();
        es.push(field("connection_type", &self.connection_type));
        LuaValue::Table(es)
    }
}

/// A record of a density and income database.
#[derive(Clone, Debug, Default, PartialEq, Eq)]
pub struct DensityIncome {
    pub average_income: Option<u32>,
    pub population_density: Option<u32>,
}

impl PushToLua for DensityIncome {
    open spec fn represented_by(&self, v: LuaValue) -> bool {
        &&& is_table_of_len(v, 2)
        &&& field_is(v, 0, "average_income"@, self.average_income)
        &&& field_is(v, 1, "population_density"@, self.population_density)
    }

    fn push_to_lua(&self) -> (v: LuaValue) {
        let mut es: Vec<(LuaValue, LuaValue)> = Vec::new();
        es.push(field("average_income", &self.average_income));
        es.push(field("population_density", &self.population_density));
        LuaValue::Table(es)
    }
}

/// A record of a domain database.
#[derive(Clone, Debug, Default, PartialEq, Eq)]
pub struct Domain {
    pub domain: Option<String>,
}

impl PushToLua for Domain {
    open spec fn represented_by(&self, v: LuaValue) -> bool {
        &&& is_table_of_len(v, 1)
        &&& field_is(v, 0, "domain"@, self.domain)
    }

    fn push_to_lua(&self) -> (v: LuaValue) {
        let mut es: Vec<(LuaValue, LuaValue)> = Vec::new();
        es.push(field("domain", &self.domain));
        LuaValue::Table(es)
    }
}

/// A record of an ISP database.
#[derive(Clone, Debug, Default, PartialEq, Eq)]
pub struct Isp {
    pub autonomous_system_number: Option<u32>,
    pub autonomous_system_organization: Option<String>,
    pub isp: Option<String>,
    pub mobile_country_code: Option<String>,
    pub mobile_network_code: Option<String>,
    pub organization: Option<String>,
}

impl PushToLua for Isp {
    open spec fn represented_by(&self, v: LuaValue) -> bool {
        &&& is_table_of_len(v, 6)
        &&& field_is(v, 0, "autonomous_system_number"@, self.autonomous_system_number)
        &&& field_is(v, 1, "autonomous_system_organization"@, self.autonomous_system_organization)
        &&& field_is(v, 2, "isp"@, self.isp)
        &&& field_is(v, 3, "mobile_country_code"@, self.mobile_country_code)
        &&& field_is(v, 4, "mobile_network_code"@, self.mobile_network_code)
        &&& field_is(v, 5, "organization"@, self.organization)
    }

    fn push_to_lua(&self) -> (v: LuaValue) {
        let mut es: Vec<(LuaValue, LuaValue)> = Vec::new();
        es.push(field("autonomous_system_number", &self.autonomous_system_number));
        es.push(field("autonomous_system_organization", &self.autonomous_system_organization));
        es.push(field("isp", &self.isp));
        es.push(field("mobile_country_code", &self.mobile_country_code));
        es.push(field("mobile_network_code", &self.mobile_network_code));
        es.push(field("organization", &self.organization));
        LuaValue::Table(es)
    }
}

/// Reading a key of the Lua table of `Names` gives the value that
/// represents the field of that name.
pub proof fn law_names_table_fields(x: Names, v: LuaValue)
    requires
        x.represented_by(v),
    ensures
        x.german.represented_by(table_get(v, "de"@)),
        x.english.represented_by(table_get(v, "en"@)),
        x.spanish.represented_by(table_get(v, "es"@)),
        x.french.represented_by(table_get(v, "fr"@)),
        x.japanese.represented_by(table_get(v, "ja"@)),
        x.brazilian_portuguese.represented_by(table_get(v, "pt-BR"@)),
        x.russian.represented_by(table_get(v, "ru"@)),
        x.simplified_chinese.represented_by(table_get(v, "zh-CN"@)),
{
    reveal_strlit("de");
    assert("de"@[0] == 'd' && "de"@.len() == 2);
    reveal_strlit("en");
    assert("en"@[0] == 'e' && "en"@[1] == 'n' && "en"@.len() == 2);
    reveal_strlit("es");
    assert("es"@[0] == 'e' && "es"@[1] == 's' && "es"@.len() == 2);
    reveal_strlit("fr");
    assert("fr"@[0] == 'f' && "fr"@.len() == 2);
    reveal_strlit("ja");
    assert("ja"@[0] == 'j' && "ja"@.len() == 2);
    reveal_strlit("pt-BR");
    assert("pt-BR"@[0] == 'p' && "pt-BR"@.len() == 5);
    reveal_strlit("ru");
    assert("ru"@[0] == 'r' && "ru"@.len() == 2);
    reveal_strlit("zh-CN");
    assert("zh-CN"@[0] == 'z' && "zh-CN"@.len() == 5);
    let es = match v {
        LuaValue::Table(es) => es@,
        _ => Seq::empty(),
    };
    lemma_entries_get(es, "de"@, 0);
    lemma_entries_get(es, "en"@, 1);
    lemma_entries_get(es, "es"@, 2);
    lemma_entries_get(es, "fr"@, 3);
    lemma_entries_get(es, "ja"@, 4);
    lemma_entries_get(es, "pt-BR"@, 5);
    lemma_entries_get(es, "ru"@, 6);
    lemma_entries_get(es, "zh-CN"@, 7);
}

/// Reading a key of the Lua table of `Country` gives the value that
/// represents the field of that name.
pub proof fn law_country_table_fields(x: Country, v: LuaValue)
    requires
        x.represented_by(v),
    ensures
        x.continent.represented_by(table_get(v, "continent"@)),
        x.country.represented_by(table_get(v, "country"@)),
        x.registered_country.represented_by(table_get(v, "registered_country"@)),
        x.represented_country.represented_by(table_get(v, "represented_country"@)),
        x.traits.represented_by(table_get(v, "traits"@)),
{
    reveal_strlit("continent");
    assert("continent"@.len() == 9);
    reveal_strlit("country");
    assert("country"@.len() == 7);
    reveal_strlit("registered_country");
    assert("registered_country"@.len() == 18);
    reveal_strlit("represented_country");
    assert("represented_country"@.len() == 19);
    reveal_strlit("traits");
    assert("traits"@.len() == 6);
    let es = match v {
        LuaValue::Table(es) => es@,
        _ => Seq::empty(),
    };
    lemma_entries_get(es, "continent"@, 0);
    lemma_entries_get(es, "country"@, 1);
    lemma_entries_get(es, "registered_country"@, 2);
    lemma_entries_get(es, "represented_country"@, 3);
    lemma_entries_get(es, "traits"@, 4);
}

/// Reading a key of the Lua table of `City` gives the value that
/// represents the field of that name.
pub proof fn law_city_table_fields(x: City, v: LuaValue)
    requires
        x.represented_by(v),
    ensures
        x.city.represented_by(table_get(v, "city"@)),
        x.continent.represented_by(table_get(v, "continent"@)),
        x.country.represented_by(table_get(v, "country"@)),
        x.location.represented_by(table_get(v, "location"@)),
        x.postal.represented_by(table_get(v, "postal"@)),
        x.registered_country.represented_by(table_get(v, "registered_country"@)),
        x.represented_country.represented_by(table_get(v, "represented_country"@)),
        x.subdivisions.represented_by(table_get(v, "subdivisions"@)),
        x.traits.represented_by(table_get(v, "traits"@)),
{
    reveal_strlit("city");
    assert("city"@.len() == 4);
    reveal_strlit("continent");
    assert("continent"@.len() == 9);
    reveal_strlit("country");
    assert("country"@.len() == 7);
    reveal_strlit("location");
    assert("location"@.len() == 8);
    reveal_strlit("postal");
    assert("postal"@[0] == 'p' && "postal"@.len() == 6);
    reveal_strlit("registered_country");
    assert("registered_country"@.len() == 18);
    reveal_strlit("represented_country");
    assert("represented_country"@.len() == 19);
    reveal_strlit("subdivisions");
    assert("subdivisions"@.len() == 12);
    reveal_strlit("traits");
    assert("traits"@[0] == 't' && "traits"@.len() == 6);
    let es = match v {
        LuaValue::Table(es) => es@,
        _ => Seq::empty(),
    };
    lemma_entries_get(es, "city"@, 0);
    lemma_entries_get(es, "continent"@, 1);
    lemma_entries_get(es, "country"@, 2);
    lemma_entries_get(es, "location"@, 3);
    lemma_entries_get(es, "postal"@, 4);
    lemma_entries_get(es, "registered_country"@, 5);
    lemma_entries_get(es, "represented_country"@, 6);
    lemma_entries_get(es, "subdivisions"@, 7);
    lemma_entries_get(es, "traits"@, 8);
}

/// Reading a key of the Lua table of `AnonymousIp` gives the value that
/// represents the field of that name.
pub proof fn law_anonymous_ip_table_fields(x: AnonymousIp, v: LuaValue)
    requires
        x.represented_by(v),
    ensures
        x.is_anonymous.represented_by(table_get(v, "is_anonymous"@)),
        x.is_anonymous_vpn.represented_by(table_get(v, "is_anonymous_vpn"@)),
        x.is_hosting_provider.represented_by(table_get(v, "is_hosting_provider"@)),
        x.is_public_proxy.represented_by(table_get(v, "is_public_proxy"@)),
        x.is_residential_proxy.represented_by(table_get(v, "is_residential_proxy"@)),
        x.is_tor_exit_node.represented_by(table_get(v, "is_tor_exit_node"@)),
{
    reveal_strlit("is_anonymous");
    assert("is_anonymous"@.len() == 12);
    reveal_strlit("is_anonymous_vpn");
    assert("is_anonymous_vpn"@[3] == 'a' && "is_anonymous_vpn"@.len() == 16);
    reveal_strlit("is_hosting_provider");
    assert("is_hosting_provider"@.len() == 19);
    reveal_strlit("is_public_proxy");
    assert("is_public_proxy"@.len() == 15);
    reveal_strlit("is_residential_proxy");
    assert("is_residential_proxy"@.len() == 20);
    reveal_strlit("is_tor_exit_node");
    assert("is_tor_exit_node"@[3] == 't' && "is_tor_exit_node"@.len() == 16);
    let es = match v {
        LuaValue::Table(es) => es@,
        _ => Seq::empty(),
    };
    lemma_entries_get(es, "is_anonymous"@, 0);
    lemma_entries_get(es, "is_anonymous_vpn"@, 1);
    lemma_entries_get(es, "is_hosting_provider"@, 2);
    lemma_entries_get(es, "is_public_proxy"@, 3);
    lemma_entries_get(es, "is_residential_proxy"@, 4);
    lemma_entries_get(es, "is_tor_exit_node"@, 5);
}

/// Reading a key of the Lua table of `Asn` gives the value that
/// represents the field of that name.
pub proof fn law_asn_table_fields(x: Asn, v: LuaValue)
    requires
        x.represented_by(v),
    ensures
        x.autonomous_system_number.represented_by(table_get(v, "autonomous_system_number"@)),
        x.autonomous_system_organization.represented_by(table_get(v, "autonomous_system_organization"@)),
{
    reveal_strlit("autonomous_system_number");
    assert("autonomous_system_number"@.len() == 24);
    reveal_strlit("autonomous_system_organization");
    assert("autonomous_system_organization"@.len() == 30);
    let es = match v {
        LuaValue::Table(es) => es@,
        _ => Seq::empty(),
    };
    lemma_entries_get(es, "autonomous_system_number"@, 0);
    lemma_entries_get(es, "autonomous_system_organization"@, 1);
}

/// Reading a key of the Lua table of `ConnectionType` gives the value that
/// represents the field of that name.
pub proof fn law_connection_type_table_fields(x: ConnectionType, v: LuaValue)
    requires
        x.represented_by(v),
    ensures
        x.connection_type.represented_by(table_get(v, "connection_type"@)),
{
    let es = match v {
        LuaValue::Table(es) => es@,
        _ => Seq::empty(),
    };
    lemma_entries_get(es, "connection_type"@, 0);
}

/// Reading a key of the Lua table of `DensityIncome` gives the value that
/// represents the field of that name.
pub proof fn law_density_income_table_fields(x: DensityIncome, v: LuaValue)
    requires
        x.represented_by(v),
    ensures
        x.average_income.represented_by(table_get(v, "average_income"@)),
        x.population_density.represented_by(table_get(v, "population_density"@)),
{
    reveal_strlit("average_income");
    assert("average_income"@.len() == 14);
    reveal_strlit("population_density");
    assert("population_density"@.len() == 18);
    let es = match v {
        LuaValue::Table(es) => es@,
        _ => Seq::empty(),
    };
    lemma_entries_get(es, "average_income"@, 0);
    lemma_entries_get(es, "population_density"@, 1);
}

/// Reading a key of the Lua table of `Domain` gives the value that
/// represents the field of that name.
pub proof fn law_domain_table_fields(x: Domain, v: LuaValue)
    requires
        x.represented_by(v),
    ensures
        x.domain.represented_by(table_get(v, "domain"@)),
{
    let es = match v {
        LuaValue::Table(es) => es@,
        _ => Seq::empty(),
    };
    lemma_entries_get(es, "domain"@, 0);
}

/// Reading a key of the Lua table of `Isp` gives the value that
/// represents the field of that name.
pub proof fn law_isp_table_fields(x: Isp, v: LuaValue)
    requires
        x.represented_by(v),
    ensures
        x.autonomous_system_number.represented_by(table_get(v, "autonomous_system_number"@)),
        x.autonomous_system_organization.represented_by(table_get(v, "autonomous_system_organization"@)),
        x.isp.represented_by(table_get(v, "isp"@)),
        x.mobile_country_code.represented_by(table_get(v, "mobile_country_code"@)),
        x.mobile_network_code.represented_by(table_get(v, "mobile_network_code"@)),
        x.organization.represented_by(table_get(v, "organization"@)),
{
    reveal_strlit("autonomous_system_number");
    assert("autonomous_system_number"@.len() == 24);
    reveal_strlit("autonomous_system_organization");
    assert("autonomous_system_organization"@.len() == 30);
    reveal_strlit("isp");
    assert("isp"@.len() == 3);
    reveal_strlit("mobile_country_code");
    assert("mobile_country_code"@[7] == 'c' && "mobile_country_code"@.len() == 19);
    reveal_strlit("mobile_network_code");
    assert("mobile_network_code"@[7] == 'n' && "mobile_network_code"@.len() == 19);
    reveal_strlit("organization");
    assert("organization"@.len() == 12);
    let es = match v {
        LuaValue::Table(es) => es@,
        _ => Seq::empty(),
    };
    lemma_entries_get(es, "autonomous_system_number"@, 0);
    lemma_entries_get(es, "autonomous_system_organization"@, 1);
    lemma_entries_get(es, "isp"@, 2);
    lemma_entries_get(es, "mobile_country_code"@, 3);
    lemma_entries_get(es, "mobile_network_code"@, 4);
    lemma_entries_get(es, "organization"@, 5);
}

/// In the Lua table of a place's names, the key of each language is a
/// language tag asking for that language, and reading it gives the name in
/// that language.
pub proof fn law_names_table_by_language(n: Names, v: LuaValue, l: Language)
    requires
        n.represented_by(v),
    ensures
        spec_language(language_code(l)) == Some(l),
        name_in(n, l).represented_by(table_get(v, language_code(l))),
{
    law_language_codes(l);
    law_names_table_fields(n, v);
}

} // verus!

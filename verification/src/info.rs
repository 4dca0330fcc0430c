//! What the lookups give back: the raw record of a query, the country name,
//! and the combined ASN and country summary of an address.

use vstd::prelude::*;
use maxminddb::MaxMindDbError;
use crate::db::DBError;
use crate::geoip2::{Asn, Country};
use crate::lua::{LuaValue, is_table_of_len, table_get, lemma_entries_get};
use crate::names::{Language, name_for_lang, name_in, opt_chars, spec_language, spec_name_for_lang};
use crate::serialize::{PushToLua, field, field_is};
use crate::text::{decimal, digit_value, law_decimal_reads_back, push_decimal, read_decimal};

verus! {

/// The language tag used when a script names none.
pub open spec fn default_lang() -> Seq<char> {
    "en"@
}

/// The language tag asked for, or English when none is given.
pub fn requested_lang(arg: Option<String>) -> (r: String)
    ensures
        arg matches Some(s) ==> r@ == s@,
        arg is None ==> r@ == default_lang(),
{
    match arg {
        Some(s) => s,
        None => String::from_str("en"),
    }
}

/// The Lua value of a record that a raw query decoded: the table of the
/// record, or nil when the database holds no record for the address.
pub fn record_value<T: PushToLua>(decoded: Result<Option<T>, MaxMindDbError>) -> (r: Result<LuaValue, DBError>)
    ensures
        decoded matches Ok(Some(x)) ==> (r matches Ok(v) && x.represented_by(v)),
        decoded matches Ok(None) ==> r == Ok::<LuaValue, DBError>(LuaValue::Nil),
        decoded matches Err(e) ==> (r matches Err(x) && x.is_reader_error(e)),
{
    match decoded {
        Ok(Some(x)) => Ok(x.push_to_lua()),
        Ok(None) => Ok(LuaValue::Nil),
        Err(e) => Err(DBError::reader(e)),
    }
}

/// The name of the country of an address in the language `tag`, from the
/// country record decoded for it; `None` when there is no record, or the
/// country has no name.
pub fn country_name(decoded: Result<Option<Country>, MaxMindDbError>, tag: &str) -> (r: Result<Option<String>, DBError>)
    ensures
        decoded matches Ok(Some(c)) ==> (r matches Ok(n) && opt_chars(n) == opt_chars(
            spec_name_for_lang(c.country.names, tag@),
        )),
        decoded matches Ok(None) ==> r == Ok::<Option<String>, DBError>(None),
        decoded matches Err(e) ==> (r matches Err(x) && x.is_reader_error(e)),
{
    match decoded {
        Ok(Some(c)) => Ok(name_for_lang(&c.country.names, tag)),
        Ok(None) => Ok(None),
        Err(e) => Err(DBError::reader(e)),
    }
}

/// The label of an autonomous system number, such as `AS13335`.
pub fn asn_label(n: u32) -> (r: String)
    ensures
        r@ == "AS"@ + decimal(n as nat),
{
    let mut r = String::from_str("AS");
    push_decimal(&mut r, n);
    r
}

/// The network part of the summary of an address.
#[derive(Clone, Debug, Default, PartialEq, Eq)]
pub struct NetworkInfo {
    /// The network, in CIDR notation, that the ASN database holds the
    /// address under.
    pub range: Option<String>,
    /// The autonomous system number, as `AS` and its decimal digits.
    pub asn: Option<String>,
    pub organisation: Option<String>,
    pub provider: Option<String>,
    /// Always nil: the databases hold no reverse DNS names.
    pub hostname: Option<String>,
}

/// The country part of the summary of an address.
#[derive(Clone, Debug, Default, PartialEq, Eq)]
pub struct CountryInfo {
    pub code: Option<String>,
    pub name: Option<String>,
    pub registered_code: Option<String>,
    pub registered_name: Option<String>,
    pub continent_code: Option<String>,
    pub continent_name: Option<String>,
}

/// The summary of an address that the ASN and country databases give.
#[derive(Clone, Debug, Default, PartialEq, Eq)]
pub struct IpInfo {
    /// The address, as text.
    pub ip: String,
    pub network: NetworkInfo,
    pub country: CountryInfo,
}

impl PushToLua for NetworkInfo {
    open spec fn represented_by(&self, v: LuaValue) -> bool {
        &&& is_table_of_len(v, 5)
        &&& field_is(v, 0, "range"@, self.range)
        &&& field_is(v, 1, "asn"@, self.asn)
        &&& field_is(v, 2, "organisation"@, self.organisation)
        &&& field_is(v, 3, "provider"@, self.provider)
        &&& field_is(v, 4, "hostname"@, self.hostname)
    }

    fn push_to_lua(&self) -> (v: LuaValue) {
        let mut es: Vec<(LuaValue, LuaValue)> = Vec::new();
        es.push(field("range", &self.range));
        es.push(field("asn", &self.asn));
        es.push(field("organisation", &self.organisation));
        es.push(field("provider", &self.provider));
        es.push(field("hostname", &self.hostname));
        LuaValue::Table(es)
    }
}

impl PushToLua for CountryInfo {
    open spec fn represented_by(&self, v: LuaValue) -> bool {
        &&& is_table_of_len(v, 6)
        &&& field_is(v, 0, "code"@, self.code)
        &&& field_is(v, 1, "name"@, self.name)
        &&& field_is(v, 2, "registered_code"@, self.registered_code)
        &&& field_is(v, 3, "registered_name"@, self.registered_name)
        &&& field_is(v, 4, "continent_code"@, self.continent_code)
        &&& field_is(v, 5, "continent_name"@, self.continent_name)
    }

    fn push_to_lua(&self) -> (v: LuaValue) {
        let mut es: Vec<(LuaValue, LuaValue)> = Vec::new();
        es.push(field("code", &self.code));
        es.push(field("name", &self.name));
        es.push(field("registered_code", &self.registered_code));
        es.push(field("registered_name", &self.registered_name));
        es.push(field("continent_code", &self.continent_code));
        es.push(field("continent_name", &self.continent_name));
        LuaValue::Table(es)
    }
}

impl PushToLua for IpInfo {
    open spec fn represented_by(&self, v: LuaValue) -> bool {
        &&& is_table_of_len(v, 3)
        &&& field_is(v, 0, "ip"@, self.ip)
        &&& field_is(v, 1, "network"@, self.network)
        &&& field_is(v, 2, "country"@, self.country)
    }

    fn push_to_lua(&self) -> (v: LuaValue) {
        let mut es: Vec<(LuaValue, LuaValue)> = Vec::new();
        es.push(field("ip", &self.ip));
        es.push(field("network", &self.network));
        es.push(field("country", &self.country));
        LuaValue::Table(es)
    }
}

/// What the ASN database gives for an address: the network it holds the
/// address under, in CIDR notation, or the error of working it out, and
/// the decoded record.
pub struct AsnLookup {
    pub network: Result<String, MaxMindDbError>,
    pub record: Result<Option<Asn>, MaxMindDbError>,
}

/// The characters of the network, when it could be worked out.
pub open spec fn range_chars(range: Result<String, MaxMindDbError>) -> Option<Seq<char>> {
    match range {
        Ok(s) => Some(s@),
        Err(_) => None,
    }
}

/// `n` is the network part made of the network `range` and the ASN record
/// `rec`: the network when it could be worked out (nil otherwise), the
/// number as `AS` and its digits, the organisation as both organisation and
/// provider, and no hostname.
pub open spec fn network_info_of(n: NetworkInfo, range: Result<String, MaxMindDbError>, rec: Option<Asn>) -> bool {
    &&& opt_chars(n.range) == range_chars(range)
    &&& match rec {
        Some(a) => {
            &&& match a.autonomous_system_number {
                Some(num) => opt_chars(n.asn) == Some("AS"@ + decimal(num as nat)),
                None => n.asn is None,
            }
            &&& opt_chars(n.organisation) == opt_chars(a.autonomous_system_organization)
            &&& opt_chars(n.provider) == opt_chars(a.autonomous_system_organization)
        },
        None => n.asn is None && n.organisation is None && n.provider is None,
    }
    &&& n.hostname is None
}

/// `c` is the country part made of the country record `rec`, with names in
/// the language `tag`.
pub open spec fn country_info_of(c: CountryInfo, rec: Option<Country>, tag: Seq<char>) -> bool {
    match rec {
        Some(r) => {
            &&& opt_chars(c.code) == opt_chars(r.country.iso_code)
            &&& opt_chars(c.name) == opt_chars(spec_name_for_lang(r.country.names, tag))
            &&& opt_chars(c.registered_code) == opt_chars(r.registered_country.iso_code)
            &&& opt_chars(c.registered_name) == opt_chars(
                spec_name_for_lang(r.registered_country.names, tag),
            )
            &&& opt_chars(c.continent_code) == opt_chars(r.continent.code)
            &&& opt_chars(c.continent_name) == opt_chars(spec_name_for_lang(r.continent.names, tag))
        },
        None => {
            &&& c.code is None
            &&& c.name is None
            &&& c.registered_code is None
            &&& c.registered_name is None
            &&& c.continent_code is None
            &&& c.continent_name is None
        },
    }
}

fn network_info(range: Result<String, MaxMindDbError>, rec: Option<Asn>) -> (n: NetworkInfo)
    ensures
        network_info_of(n, range, rec),
{
    let range = match range {
        Ok(s) => Some(s),
        Err(_) => None,
    };
    match rec {
        Some(a) => {
            let asn = match a.autonomous_system_number {
                Some(num) => Some(asn_label(num)),
                None => None,
            };
            let provider = match &a.autonomous_system_organization {
                Some(s) => Some(s.clone()),
                None => None,
            };
            NetworkInfo {
                range,
                asn,
                organisation: a.autonomous_system_organization,
                provider,
                hostname: None,
            }
        },
        None => NetworkInfo { range, asn: None, organisation: None, provider: None, hostname: None },
    }
}

fn country_info(rec: Option<Country>, tag: &str) -> (c: CountryInfo)
    ensures
        country_info_of(c, rec, tag@),
{
    match rec {
        Some(r) => {
            let name = name_for_lang(&r.country.names, tag);
            let registered_name = name_for_lang(&r.registered_country.names, tag);
            let continent_name = name_for_lang(&r.continent.names, tag);
            CountryInfo {
                code: r.country.iso_code,
                name,
                registered_code: r.registered_country.iso_code,
                registered_name,
                continent_code: r.continent.code,
                continent_name,
            }
        },
        None => CountryInfo {
            code: None,
            name: None,
            registered_code: None,
            registered_name: None,
            continent_code: None,
            continent_name: None,
        },
    }
}

/// The summary of the address `ip` from what the ASN and the country
/// databases gave for it, with names in the language `tag`. A failed ASN
/// lookup or decoding is the error first, then a failed country lookup or
/// decoding.
pub fn ip_info(
    ip: String,
    asn: Result<AsnLookup, MaxMindDbError>,
    country: Result<Option<Country>, MaxMindDbError>,
    tag: &str,
) -> (r: Result<IpInfo, DBError>)
    ensures
        match asn {
            Err(e) => r matches Err(x) && x.is_reader_error(e),
            Ok(l) => match l.record {
                Err(e) => r matches Err(x) && x.is_reader_error(e),
                Ok(a) => match country {
                    Err(e) => r matches Err(x) && x.is_reader_error(e),
                    Ok(c) => r matches Ok(info) && info.ip@ == ip@ && network_info_of(
                        info.network,
                        l.network,
                        a,
                    ) && country_info_of(info.country, c, tag@),
                },
            },
        },
{
    let lookup = match asn {
        Ok(l) => l,
        Err(e) => return Err(DBError::reader(e)),
    };
    let record = match lookup.record {
        Ok(a) => a,
        Err(e) => return Err(DBError::reader(e)),
    };
    let network = network_info(lookup.network, record);
    let country = match country {
        Ok(c) => country_info(c, tag),
        Err(e) => return Err(DBError::reader(e)),
    };
    Ok(IpInfo { ip, network, country })
}

/// Reading a key of the Lua table of `NetworkInfo` gives the value that
/// represents the field of that name.
pub proof fn law_network_info_table_fields(x: NetworkInfo, v: LuaValue)
    requires
        x.represented_by(v),
    ensures
        x.range.represented_by(table_get(v, "range"@)),
        x.asn.represented_by(table_get(v, "asn"@)),
        x.organisation.represented_by(table_get(v, "organisation"@)),
        x.provider.represented_by(table_get(v, "provider"@)),
        x.hostname.represented_by(table_get(v, "hostname"@)),
{
    reveal_strlit("range");
    assert("range"@.len() == 5);
    reveal_strlit("asn");
    assert("asn"@.len() == 3);
    reveal_strlit("organisation");
    assert("organisation"@.len() == 12);
    reveal_strlit("provider");
    assert("provider"@[0] == 'p' && "provider"@.len() == 8);
    reveal_strlit("hostname");
    assert("hostname"@[0] == 'h' && "hostname"@.len() == 8);
    let es = match v {
        LuaValue::Table(es) => es@,
        _ => Seq::empty(),
    };
    lemma_entries_get(es, "range"@, 0);
    lemma_entries_get(es, "asn"@, 1);
    lemma_entries_get(es, "organisation"@, 2);
    lemma_entries_get(es, "provider"@, 3);
    lemma_entries_get(es, "hostname"@, 4);
}

/// Reading a key of the Lua table of `CountryInfo` gives the value that
/// represents the field of that name.
pub proof fn law_country_info_table_fields(x: CountryInfo, v: LuaValue)
    requires
        x.represented_by(v),
    ensures
        x.code.represented_by(table_get(v, "code"@)),
        x.name.represented_by(table_get(v, "name"@)),
        x.registered_code.represented_by(table_get(v, "registered_code"@)),
        x.registered_name.represented_by(table_get(v, "registered_name"@)),
        x.continent_code.represented_by(table_get(v, "continent_code"@)),
        x.continent_name.represented_by(table_get(v, "continent_name"@)),
{
    reveal_strlit("code");
    assert("code"@[0] == 'c' && "code"@.len() == 4);
    reveal_strlit("name");
    assert("name"@[0] == 'n' && "name"@.len() == 4);
    reveal_strlit("registered_code");
    assert("registered_code"@[11] == 'c' && "registered_code"@.len() == 15);
    reveal_strlit("registered_name");
    assert("registered_name"@[11] == 'n' && "registered_name"@.len() == 15);
    reveal_strlit("continent_code");
    assert("continent_code"@[10] == 'c' && "continent_code"@.len() == 14);
    reveal_strlit("continent_name");
    assert("continent_name"@[10] == 'n' && "continent_name"@.len() == 14);
    let es = match v {
        LuaValue::Table(es) => es@,
        _ => Seq::empty(),
    };
    lemma_entries_get(es, "code"@, 0);
    lemma_entries_get(es, "name"@, 1);
    lemma_entries_get(es, "registered_code"@, 2);
    lemma_entries_get(es, "registered_name"@, 3);
    lemma_entries_get(es, "continent_code"@, 4);
    lemma_entries_get(es, "continent_name"@, 5);
}

/// Reading a key of the Lua table of `IpInfo` gives the value that
/// represents the field of that name.
pub proof fn law_ip_info_table_fields(x: IpInfo, v: LuaValue)
    requires
        x.represented_by(v),
    ensures
        x.ip.represented_by(table_get(v, "ip"@)),
        x.network.represented_by(table_get(v, "network"@)),
        x.country.represented_by(table_get(v, "country"@)),
{
    reveal_strlit("ip");
    assert("ip"@.len() == 2);
    reveal_strlit("network");
    assert("network"@[0] == 'n' && "network"@.len() == 7);
    reveal_strlit("country");
    assert("country"@[0] == 'c' && "country"@.len() == 7);
    let es = match v {
        LuaValue::Table(es) => es@,
        _ => Seq::empty(),
    };
    lemma_entries_get(es, "ip"@, 0);
    lemma_entries_get(es, "network"@, 1);
    lemma_entries_get(es, "country"@, 2);
}

/// Every name in the country part of a summary is chosen for the requested
/// language by the same rule: the country's, the registered country's and
/// the continent's. When the tag asks for a language in which the place has
/// a name, that name is shown; places with the same names show the same
/// name.
pub proof fn law_summary_names_follow_language(c: CountryInfo, r: Country, tag: Seq<char>)
    requires
        country_info_of(c, Some(r), tag),
    ensures
        opt_chars(c.name) == opt_chars(spec_name_for_lang(r.country.names, tag)),
        opt_chars(c.registered_name) == opt_chars(spec_name_for_lang(r.registered_country.names, tag)),
        opt_chars(c.continent_name) == opt_chars(spec_name_for_lang(r.continent.names, tag)),
        forall|l: Language|
            spec_language(tag) == Some(l) && (#[trigger] name_in(r.continent.names, l)) is Some
                ==> opt_chars(c.continent_name) == opt_chars(name_in(r.continent.names, l)),
        forall|l: Language|
            spec_language(tag) == Some(l) && (#[trigger] name_in(r.country.names, l)) is Some
                ==> opt_chars(c.name) == opt_chars(name_in(r.country.names, l)),
        r.continent.names == r.country.names ==> opt_chars(c.continent_name) == opt_chars(c.name),
        r.registered_country.names == r.country.names ==> opt_chars(c.registered_name) == opt_chars(
            c.name,
        ),
{
}

/// The `asn` of the network part of a summary is `AS` followed by the
/// standard decimal text of the autonomous system number: digits that read
/// back in base 10 as the number, with no leading zero.
pub proof fn law_summary_asn_label(n: NetworkInfo, range: Result<String, MaxMindDbError>, a: Asn, num: u32)
    requires
        network_info_of(n, range, Some(a)),
        a.autonomous_system_number == Some(num),
    ensures
        n.asn matches Some(label) && label@.len() > 2 && label@.take(2) == "AS"@ && read_decimal(
            label@.skip(2),
        ) == num && (forall|i: int|
            2 <= i < label@.len() ==> 0 <= #[trigger] digit_value(label@[i]) < 10) && (num > 0
            ==> label@[2] != '0'),
{
    law_decimal_reads_back(num as nat);
    reveal_strlit("AS");
    let label = n.asn->Some_0;
    let d = decimal(num as nat);
    assert(label@ == "AS"@ + d);
    assert(label@.take(2) =~= "AS"@);
    assert(label@.skip(2) =~= d);
    assert forall|i: int| 2 <= i < label@.len() implies 0 <= #[trigger] digit_value(label@[i]) < 10 by {
        assert(label@[i] == d[i - 2]);
    }
}

} // verus!

use gm_maxminddb_geoip::db::DBError;
use gm_maxminddb_geoip::geoip2::{self, country, Asn, Names};
use gm_maxminddb_geoip::info::{
    country_name, ip_info, record_value, requested_lang, AsnLookup, CountryInfo, IpInfo, NetworkInfo,
};
use gm_maxminddb_geoip::lua::LuaValue;
use gm_maxminddb_geoip::serialize::PushToLua;
use maxminddb::MaxMindDbError;

fn s(x: &str) -> Option<String> {
    Some(x.to_string())
}

fn err(m: &str) -> MaxMindDbError {
    MaxMindDbError::invalid_database(m)
}

fn named(en: &str) -> Names {
    Names { english: s(en), ..Names::default() }
}

fn australia() -> geoip2::Country {
    geoip2::Country {
        continent: country::Continent { code: s("OC"), geoname_id: Some(6255151), names: named("Oceania") },
        country: country::Country {
            geoname_id: Some(2077456),
            is_in_european_union: None,
            iso_code: s("AU"),
            names: Names { simplified_chinese: s("澳大利亚"), ..named("Australia") },
        },
        registered_country: country::Country {
            geoname_id: Some(2077456),
            is_in_european_union: None,
            iso_code: s("AU"),
            names: named("Australia"),
        },
        ..geoip2::Country::default()
    }
}

fn cloudflare() -> AsnLookup {
    AsnLookup {
        network: Ok("1.1.1.0/24".to_string()),
        record: Ok(Some(Asn {
            autonomous_system_number: Some(13335),
            autonomous_system_organization: s("Cloudflare, Inc."),
        })),
    }
}

#[test]
fn ip_info_of_documented_example() {
    let info = ip_info("1.1.1.1".to_string(), Ok(cloudflare()), Ok(Some(australia())), "en").ok().unwrap();
    assert_eq!(
        info,
        IpInfo {
            ip: "1.1.1.1".to_string(),
            network: NetworkInfo {
                range: s("1.1.1.0/24"),
                asn: s("AS13335"),
                organisation: s("Cloudflare, Inc."),
                provider: s("Cloudflare, Inc."),
                hostname: None,
            },
            country: CountryInfo {
                code: s("AU"),
                name: s("Australia"),
                registered_code: s("AU"),
                registered_name: s("Australia"),
                continent_code: s("OC"),
                continent_name: s("Oceania"),
            },
        }
    );
}

#[test]
fn ip_info_names_follow_language() {
    let info = ip_info("1.1.1.1".to_string(), Ok(cloudflare()), Ok(Some(australia())), "zh-CN").ok().unwrap();
    assert_eq!(info.country.name, s("澳大利亚"));
    assert_eq!(info.country.registered_name, s("Australia"));
}

#[test]
fn ip_info_without_records() {
    let lookup = AsnLookup { network: Err(err("no network")), record: Ok(None) };
    let info = ip_info("::1".to_string(), Ok(lookup), Ok(None), "en").ok().unwrap();
    assert_eq!(info.network, NetworkInfo::default());
    assert_eq!(info.country, CountryInfo::default());
    assert_eq!(info.ip, "::1");
}

#[test]
fn ip_info_asn_record_without_number() {
    let lookup = AsnLookup {
        network: Ok("10.0.0.0/8".to_string()),
        record: Ok(Some(Asn { autonomous_system_number: None, autonomous_system_organization: s("Org") })),
    };
    let info = ip_info("10.1.2.3".to_string(), Ok(lookup), Ok(None), "en").ok().unwrap();
    assert_eq!(info.network.asn, None);
    assert_eq!(info.network.provider, s("Org"));
    assert_eq!(info.network.range, s("10.0.0.0/8"));
}

#[test]
fn ip_info_errors_in_order() {
    let r = ip_info("1.1.1.1".to_string(), Err(err("asn lookup")), Err(err("country")), "en");
    match r {
        Err(e) => assert_eq!(e.to_string(), "invalid database: asn lookup"),
        Ok(_) => panic!("expected an error"),
    }
    let lookup = AsnLookup { network: Err(err("x")), record: Err(err("asn decode")) };
    match ip_info("1.1.1.1".to_string(), Ok(lookup), Err(err("country")), "en") {
        Err(e) => assert_eq!(e.to_string(), "invalid database: asn decode"),
        Ok(_) => panic!("expected an error"),
    }
    match ip_info("1.1.1.1".to_string(), Ok(cloudflare()), Err(err("country")), "en") {
        Err(e) => assert_eq!(e.to_string(), "invalid database: country"),
        Ok(_) => panic!("expected an error"),
    }
}

#[test]
fn ip_info_table_shape() {
    let info = ip_info("1.1.1.1".to_string(), Ok(cloudflare()), Ok(Some(australia())), "en").ok().unwrap();
    let v = info.push_to_lua();
    let st = |x: &str| LuaValue::Str(x.to_string());
    match v {
        LuaValue::Table(es) => {
            assert_eq!(es.len(), 3);
            assert_eq!(es[0], (st("ip"), st("1.1.1.1")));
            assert_eq!(es[1].0, st("network"));
            assert_eq!(es[2].0, st("country"));
            match &es[1].1 {
                LuaValue::Table(n) => {
                    assert_eq!(n[0], (st("range"), st("1.1.1.0/24")));
                    assert_eq!(n[1], (st("asn"), st("AS13335")));
                    assert_eq!(n[2], (st("organisation"), st("Cloudflare, Inc.")));
                    assert_eq!(n[3], (st("provider"), st("Cloudflare, Inc.")));
                    assert_eq!(n[4], (st("hostname"), LuaValue::Nil));
                }
                _ => panic!("network is not a table"),
            }
            match &es[2].1 {
                LuaValue::Table(c) => {
                    assert_eq!(c[0], (st("code"), st("AU")));
                    assert_eq!(c[5], (st("continent_name"), st("Oceania")));
                }
                _ => panic!("country is not a table"),
            }
        }
        _ => panic!("not a table"),
    }
}

#[test]
fn country_names() {
    assert_eq!(country_name(Ok(Some(australia())), "en").ok().unwrap(), s("Australia"));
    assert_eq!(country_name(Ok(Some(australia())), "zh").ok().unwrap(), s("澳大利亚"));
    assert_eq!(country_name(Ok(Some(australia())), "ru").ok().unwrap(), s("Australia"));
    assert_eq!(country_name(Ok(None), "en").ok().unwrap(), None);
    assert_eq!(country_name(Ok(Some(geoip2::Country::default())), "en").ok().unwrap(), None);
    assert!(matches!(country_name(Err(err("bad")), "en"), Err(DBError::Internal(_))));
}

#[test]
fn raw_record_values() {
    let asn = Asn { autonomous_system_number: Some(1), autonomous_system_organization: None };
    let v = record_value(Ok(Some(asn))).ok().unwrap();
    assert_eq!(
        v,
        LuaValue::Table(vec![
            (LuaValue::Str("autonomous_system_number".to_string()), LuaValue::Integer(1)),
            (LuaValue::Str("autonomous_system_organization".to_string()), LuaValue::Nil),
        ])
    );
    assert_eq!(record_value::<Asn>(Ok(None)).ok().unwrap(), LuaValue::Nil);
    match record_value::<Asn>(Err(err("broken"))) {
        Err(e) => assert_eq!(e.to_string(), "invalid database: broken"),
        Ok(_) => panic!("expected an error"),
    }
}

#[test]
fn language_defaults_to_english() {
    assert_eq!(requested_lang(None), "en");
    assert_eq!(requested_lang(s("ja")), "ja");
}

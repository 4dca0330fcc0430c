use gm_maxminddb_geoip::geoip2::{self, city, country, Names};
use gm_maxminddb_geoip::lua::LuaValue;
use gm_maxminddb_geoip::serialize::{F64Bits, PushToLua};

fn st(s: &str) -> LuaValue {
    LuaValue::Str(s.to_string())
}

fn keys(v: &LuaValue) -> Vec<String> {
    match v {
        LuaValue::Table(es) => es
            .iter()
            .map(|(k, _)| match k {
                LuaValue::Str(s) => s.clone(),
                _ => panic!("non-string key"),
            })
            .collect(),
        _ => panic!("not a table"),
    }
}

fn get<'a>(v: &'a LuaValue, key: &str) -> &'a LuaValue {
    match v {
        LuaValue::Table(es) => &es.iter().find(|(k, _)| *k == st(key)).expect("missing key").1,
        _ => panic!("not a table"),
    }
}

#[test]
fn primitives() {
    assert_eq!(true.push_to_lua(), LuaValue::Boolean(true));
    assert_eq!(7u8.push_to_lua(), LuaValue::Integer(7));
    assert_eq!(65535u16.push_to_lua(), LuaValue::Integer(65535));
    assert_eq!(u32::MAX.push_to_lua(), LuaValue::Integer(4294967295));
    assert_eq!("hi".to_string().push_to_lua(), st("hi"));
    assert_eq!(F64Bits((-33.494f64).to_bits()).push_to_lua(), LuaValue::Number((-33.494f64).to_bits()));
    assert_eq!(None::<u32>.push_to_lua(), LuaValue::Nil);
    assert_eq!(Some(3u32).push_to_lua(), LuaValue::Integer(3));
}

#[test]
fn vectors_become_arrays() {
    let v: Vec<u16> = vec![1, 2, 3];
    assert_eq!(
        v.push_to_lua(),
        LuaValue::Array(vec![LuaValue::Integer(1), LuaValue::Integer(2), LuaValue::Integer(3)])
    );
    let empty: Vec<bool> = vec![];
    assert_eq!(empty.push_to_lua(), LuaValue::Array(vec![]));
}

#[test]
fn names_use_language_codes() {
    let n = Names { english: Some("Oceania".to_string()), ..Names::default() };
    let v = n.push_to_lua();
    assert_eq!(keys(&v), vec!["de", "en", "es", "fr", "ja", "pt-BR", "ru", "zh-CN"]);
    assert_eq!(*get(&v, "en"), st("Oceania"));
    assert_eq!(*get(&v, "de"), LuaValue::Nil);
}

#[test]
fn country_record_table() {
    let rec = geoip2::Country {
        continent: country::Continent {
            code: Some("OC".to_string()),
            geoname_id: Some(6255151),
            names: Names::default(),
        },
        country: country::Country {
            geoname_id: Some(2077456),
            is_in_european_union: Some(false),
            iso_code: Some("AU".to_string()),
            names: Names::default(),
        },
        ..geoip2::Country::default()
    };
    let v = rec.push_to_lua();
    assert_eq!(keys(&v), vec!["continent", "country", "registered_country", "represented_country", "traits"]);
    let c = get(&v, "country");
    assert_eq!(keys(c), vec!["geoname_id", "is_in_european_union", "iso_code", "names"]);
    assert_eq!(*get(c, "iso_code"), st("AU"));
    assert_eq!(*get(c, "geoname_id"), LuaValue::Integer(2077456));
    assert_eq!(*get(c, "is_in_european_union"), LuaValue::Boolean(false));
    assert_eq!(*get(get(&v, "continent"), "code"), st("OC"));
    assert_eq!(keys(get(&v, "represented_country")), vec!["geoname_id", "is_in_european_union", "iso_code", "names", "representation_type"]);
    assert_eq!(keys(get(&v, "traits")), vec!["is_anycast"]);
}

#[test]
fn city_record_table() {
    let rec = geoip2::City {
        location: city::Location {
            accuracy_radius: Some(100),
            latitude: Some(F64Bits(1.5f64.to_bits())),
            longitude: None,
            metro_code: None,
            time_zone: Some("Europe/Berlin".to_string()),
        },
        subdivisions: vec![
            city::Subdivision { iso_code: Some("BE".to_string()), ..city::Subdivision::default() },
            city::Subdivision { iso_code: Some("BB".to_string()), ..city::Subdivision::default() },
        ],
        ..geoip2::City::default()
    };
    let v = rec.push_to_lua();
    assert_eq!(
        keys(&v),
        vec!["city", "continent", "country", "location", "postal", "registered_country", "represented_country", "subdivisions", "traits"]
    );
    let loc = get(&v, "location");
    assert_eq!(keys(loc), vec!["accuracy_radius", "latitude", "longitude", "metro_code", "time_zone"]);
    assert_eq!(*get(loc, "latitude"), LuaValue::Number(1.5f64.to_bits()));
    assert_eq!(*get(loc, "longitude"), LuaValue::Nil);
    match get(&v, "subdivisions") {
        LuaValue::Array(items) => {
            assert_eq!(items.len(), 2);
            assert_eq!(*get(&items[0], "iso_code"), st("BE"));
            assert_eq!(*get(&items[1], "iso_code"), st("BB"));
            assert_eq!(keys(&items[0]), vec!["geoname_id", "iso_code", "names"]);
        }
        other => panic!("not an array: {:?}", other),
    }
    assert_eq!(keys(get(&v, "city")), vec!["geoname_id", "names"]);
    assert_eq!(keys(get(&v, "postal")), vec!["code"]);
}

#[test]
fn flat_record_tables() {
    let anon = geoip2::AnonymousIp {
        is_anonymous: Some(true),
        is_anonymous_vpn: Some(true),
        is_hosting_provider: None,
        is_public_proxy: Some(false),
        is_residential_proxy: None,
        is_tor_exit_node: Some(false),
    };
    let v = anon.push_to_lua();
    assert_eq!(
        keys(&v),
        vec!["is_anonymous", "is_anonymous_vpn", "is_hosting_provider", "is_public_proxy", "is_residential_proxy", "is_tor_exit_node"]
    );
    assert_eq!(*get(&v, "is_anonymous_vpn"), LuaValue::Boolean(true));
    assert_eq!(*get(&v, "is_hosting_provider"), LuaValue::Nil);

    let asn = geoip2::Asn {
        autonomous_system_number: Some(13335),
        autonomous_system_organization: Some("Cloudflare, Inc.".to_string()),
    };
    let v = asn.push_to_lua();
    assert_eq!(keys(&v), vec!["autonomous_system_number", "autonomous_system_organization"]);
    assert_eq!(*get(&v, "autonomous_system_number"), LuaValue::Integer(13335));

    let ct = geoip2::ConnectionType { connection_type: Some("Cable/DSL".to_string()) };
    assert_eq!(ct.push_to_lua(), LuaValue::Table(vec![(st("connection_type"), st("Cable/DSL"))]));

    let di = geoip2::DensityIncome { average_income: Some(32323), population_density: None };
    assert_eq!(
        di.push_to_lua(),
        LuaValue::Table(vec![
            (st("average_income"), LuaValue::Integer(32323)),
            (st("population_density"), LuaValue::Nil),
        ])
    );

    let dom = geoip2::Domain { domain: Some("example.com".to_string()) };
    assert_eq!(dom.push_to_lua(), LuaValue::Table(vec![(st("domain"), st("example.com"))]));

    let isp = geoip2::Isp {
        autonomous_system_number: Some(1),
        autonomous_system_organization: None,
        isp: Some("ISP".to_string()),
        mobile_country_code: Some("310".to_string()),
        mobile_network_code: Some("004".to_string()),
        organization: None,
    };
    let v = isp.push_to_lua();
    assert_eq!(
        keys(&v),
        vec!["autonomous_system_number", "autonomous_system_organization", "isp", "mobile_country_code", "mobile_network_code", "organization"]
    );
    assert_eq!(*get(&v, "mobile_network_code"), st("004"));
}

use gm_maxminddb_geoip::db::{
    first_existing, init_dbs, open_first_existing, open_required, refresh, with_databases, DBError, Databases,
    DbKind,
};
use gm_maxminddb_geoip::records::GeoIPRecord;
use maxminddb::MaxMindDbError;

fn key(out: &mut Vec<u8>, k: &str) {
    out.push(0x40 | k.len() as u8);
    out.extend_from_slice(k.as_bytes());
}

/// A database with one search-tree node whose records both point past the
/// tree: valid, and holding no data.
fn empty_mmdb() -> Vec<u8> {
    let mut out = vec![0, 0, 1, 0, 0, 1];
    out.extend_from_slice(&[0u8; 16]);
    out.extend_from_slice(b"\xab\xcd\xefMaxMind.com");
    out.push(0xE9);
    key(&mut out, "binary_format_major_version");
    out.extend_from_slice(&[0xA1, 2]);
    key(&mut out, "binary_format_minor_version");
    out.push(0xA0);
    key(&mut out, "build_epoch");
    out.extend_from_slice(&[0x00, 0x02]);
    key(&mut out, "database_type");
    key(&mut out, "Test");
    key(&mut out, "description");
    out.push(0xE0);
    key(&mut out, "ip_version");
    out.extend_from_slice(&[0xA1, 4]);
    key(&mut out, "languages");
    out.extend_from_slice(&[0x00, 0x04]);
    key(&mut out, "node_count");
    out.extend_from_slice(&[0xC1, 1]);
    key(&mut out, "record_size");
    out.extend_from_slice(&[0xA1, 24]);
    out
}

fn io_error() -> MaxMindDbError {
    MaxMindDbError::from(std::io::Error::new(std::io::ErrorKind::PermissionDenied, "denied"))
}

fn loaded() -> Databases {
    init_dbs(None, Some(Ok(empty_mmdb())), Some(Ok(empty_mmdb()))).ok().expect("loads")
}

#[test]
fn handmade_database_opens() {
    assert!(maxminddb::Reader::from_source(empty_mmdb()).is_ok());
}

#[test]
fn first_existing_path_wins() {
    assert_eq!(first_existing(&vec![false, true, true]), Some(1));
    assert_eq!(first_existing(&vec![true, true, false]), Some(0));
    assert_eq!(first_existing(&vec![false, false, false]), None);
    assert_eq!(first_existing(&vec![]), None);
}

#[test]
fn paths_check_garrysmod_before_data() {
    assert_eq!(
        DbKind::Default.paths(),
        vec!["garrysmod/maxminddb.mmdb", "garrysmod/data/maxminddb.dat", "garrysmod/data/maxminddb.mmdb"]
    );
    assert_eq!(DbKind::Asn.paths(), vec!["garrysmod/GeoLite2-ASN.mmdb", "garrysmod/data/GeoLite2-ASN.mmdb"]);
    assert_eq!(
        DbKind::Country.paths(),
        vec!["garrysmod/GeoLite2-Country.mmdb", "garrysmod/data/GeoLite2-Country.mmdb"]
    );
}

#[test]
fn error_messages() {
    assert_eq!(
        DBError::NotInstalled("x.mmdb").to_string(),
        "You didn't install the required MaxMindDB database: x.mmdb"
    );
    assert_eq!(
        DBError::DefaultNotInstalled.to_string(),
        "This GeoIP record requires a default/full database, but garrysmod/maxminddb.mmdb or garrysmod/data/maxminddb.dat was not found"
    );
    assert_eq!(DBError::reader(io_error()).to_string(), "i/o error: denied");
    assert_eq!(
        DBError::NotInstalled(DbKind::Asn.name()).to_string(),
        "You didn't install the required MaxMindDB database: GeoLite2-ASN.mmdb; expected garrysmod/GeoLite2-ASN.mmdb or garrysmod/data/GeoLite2-ASN.mmdb"
    );
}

#[test]
fn opening_found_databases() {
    assert!(matches!(open_first_existing(None), Ok(None)));
    assert!(matches!(open_first_existing(Some(Ok(empty_mmdb()))), Ok(Some(_))));
    assert!(matches!(open_first_existing(Some(Ok(vec![1, 2, 3]))), Err(DBError::Internal(_))));
    assert!(matches!(open_first_existing(Some(Err(io_error()))), Err(DBError::Internal(_))));
    assert!(matches!(open_required("asn", None), Err(DBError::NotInstalled("asn"))));
    assert!(matches!(open_required("asn", Some(Ok(empty_mmdb()))), Ok(_)));
    assert!(matches!(open_required("asn", Some(Ok(vec![]))), Err(DBError::Internal(_))));
}

#[test]
fn loading_reports_the_first_failure() {
    let asn_name = DbKind::Asn.name();
    let country_name = DbKind::Country.name();
    assert_eq!(
        asn_name,
        "GeoLite2-ASN.mmdb; expected garrysmod/GeoLite2-ASN.mmdb or garrysmod/data/GeoLite2-ASN.mmdb"
    );
    assert_eq!(
        country_name,
        "GeoLite2-Country.mmdb; expected garrysmod/GeoLite2-Country.mmdb or garrysmod/data/GeoLite2-Country.mmdb"
    );
    match init_dbs(None, None, None) {
        Err(DBError::NotInstalled(n)) => assert_eq!(n, asn_name),
        _ => panic!("expected the ASN database to be missing"),
    }
    match init_dbs(None, Some(Ok(empty_mmdb())), None) {
        Err(DBError::NotInstalled(n)) => assert_eq!(n, country_name),
        _ => panic!("expected the country database to be missing"),
    }
    assert!(matches!(init_dbs(Some(Ok(vec![0])), None, None), Err(DBError::Internal(_))));
    assert!(matches!(
        init_dbs(None, Some(Err(io_error())), Some(Ok(empty_mmdb()))),
        Err(DBError::Internal(_))
    ));
    let dbs = loaded();
    assert!(dbs.default.is_none());
    let with_default = init_dbs(Some(Ok(empty_mmdb())), Some(Ok(empty_mmdb())), Some(Ok(empty_mmdb())));
    assert!(with_default.ok().expect("loads").default.is_some());
}

#[test]
fn refresh_replaces_on_success() {
    let mut state: Result<Databases, DBError> = Err(DBError::DefaultNotInstalled);
    assert_eq!(refresh(&mut state, Ok(loaded())), None);
    assert!(state.is_ok());
}

#[test]
fn failed_refresh_keeps_loaded_databases() {
    let mut state: Result<Databases, DBError> = Ok(loaded());
    let failure = refresh(&mut state, Err(DBError::NotInstalled("gone.mmdb")));
    assert_eq!(failure, Some("You didn't install the required MaxMindDB database: gone.mmdb".to_string()));
    assert!(state.is_ok());
}

#[test]
fn failed_refresh_replaces_an_earlier_failure() {
    let mut state: Result<Databases, DBError> = Err(DBError::DefaultNotInstalled);
    let failure = refresh(&mut state, Err(DBError::NotInstalled("gone.mmdb")));
    assert!(failure.is_some());
    assert!(matches!(state, Err(DBError::NotInstalled("gone.mmdb"))));
}

#[test]
fn records_pick_their_database() {
    let dbs = loaded();
    assert!(std::ptr::eq(GeoIPRecord::Asn.reader(&dbs).ok().unwrap(), &dbs.asn));
    assert!(std::ptr::eq(GeoIPRecord::Country.reader(&dbs).ok().unwrap(), &dbs.country));
    for r in [
        GeoIPRecord::AnonymousIp,
        GeoIPRecord::City,
        GeoIPRecord::ConnectionType,
        GeoIPRecord::DensityIncome,
        GeoIPRecord::Domain,
        GeoIPRecord::Isp,
    ] {
        assert!(matches!(r.reader(&dbs), Err(DBError::DefaultNotInstalled)));
    }
    let full = init_dbs(Some(Ok(empty_mmdb())), Some(Ok(empty_mmdb())), Some(Ok(empty_mmdb())))
        .ok()
        .unwrap();
    let default = full.default.as_ref().unwrap();
    assert!(std::ptr::eq(GeoIPRecord::City.reader(&full).ok().unwrap(), default));
    assert!(std::ptr::eq(GeoIPRecord::Isp.reader(&full).ok().unwrap(), default));
}

#[test]
fn reloads_keep_the_latest_success() {
    let mut state: Result<Databases, DBError> = Err(DBError::DefaultNotInstalled);
    assert!(refresh(&mut state, Err(DBError::NotInstalled("a"))).is_some());
    assert!(matches!(state, Err(DBError::NotInstalled("a"))));
    assert_eq!(refresh(&mut state, Ok(loaded())), None);
    assert!(refresh(&mut state, Err(DBError::NotInstalled("b"))).is_some());
    assert!(refresh(&mut state, Err(DBError::DefaultNotInstalled)).is_some());
    assert!(state.is_ok());
}

#[test]
fn failed_reload_message_is_what_lookups_report() {
    let mut state: Result<Databases, DBError> = Err(DBError::DefaultNotInstalled);
    let failure = refresh(&mut state, Err(DBError::reader(io_error()))).unwrap();
    assert_eq!(failure, "i/o error: denied");
    match with_databases(&state, |_| Ok(())) {
        Err(e) => assert_eq!(e.as_ref().to_string(), failure),
        Ok(()) => panic!("expected the load failure"),
    }
}

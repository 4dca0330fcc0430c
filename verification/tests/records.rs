use gm_maxminddb_geoip::records::GeoIPRecord;

#[test]
fn numbers_follow_declaration_order() {
    let all = GeoIPRecord::all();
    assert_eq!(all.len(), 8);
    for (i, r) in all.iter().enumerate() {
        assert_eq!(r.id(), i as isize);
        assert_eq!(GeoIPRecord::try_from(i as isize), Ok(*r));
    }
    assert_eq!(GeoIPRecord::try_from(1), Ok(GeoIPRecord::Asn));
    assert_eq!(GeoIPRecord::try_from(4), Ok(GeoIPRecord::Country));
    assert_eq!(GeoIPRecord::try_from(7), Ok(GeoIPRecord::Isp));
}

#[test]
fn unknown_numbers_are_given_back() {
    assert_eq!(GeoIPRecord::try_from(8), Err(8));
    assert_eq!(GeoIPRecord::try_from(-1), Err(-1));
    assert_eq!(GeoIPRecord::try_from(isize::MAX), Err(isize::MAX));
}

#[test]
fn record_names() {
    let names: Vec<&str> = GeoIPRecord::all().iter().map(|r| r.name()).collect();
    assert_eq!(
        names,
        vec!["AnonymousIp", "Asn", "City", "ConnectionType", "Country", "DensityIncome", "Domain", "Isp"]
    );
}

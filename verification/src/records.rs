//! The kinds of record that a raw query can ask for, their numbers on the
//! Lua side, and the database each is read from.

use vstd::prelude::*;
use crate::db::{DBError, DBReader, Databases};

verus! {

/// A kind of GeoIP2 record. Lua scripts name them by number, as listed in
/// the module's `records` table.
#[derive(Clone, Copy, Debug, PartialEq, Eq)]
pub enum GeoIPRecord {
    AnonymousIp,
    Asn,
    City,
    ConnectionType,
    Country,
    DensityIncome,
    Domain,
    Isp,
}

/// How many kinds of record there are.
pub const RECORD_KINDS: usize = 8;

impl GeoIPRecord {
    /// The number of a kind of record: its place in the list above, from 0.
    pub open spec fn spec_id(self) -> int {
        match self {
            GeoIPRecord::AnonymousIp => 0,
            GeoIPRecord::Asn => 1,
            GeoIPRecord::City => 2,
            GeoIPRecord::ConnectionType => 3,
            GeoIPRecord::Country => 4,
            GeoIPRecord::DensityIncome => 5,
            GeoIPRecord::Domain => 6,
            GeoIPRecord::Isp => 7,
        }
    }

    /// The kind of record with the number `value`, if there is one.
    pub open spec fn spec_from_id(value: int) -> Option<GeoIPRecord> {
        if value == 0 {
            Some(GeoIPRecord::AnonymousIp)
        } else if value == 1 {
            Some(GeoIPRecord::Asn)
        } else if value == 2 {
            Some(GeoIPRecord::City)
        } else if value == 3 {
            Some(GeoIPRecord::ConnectionType)
        } else if value == 4 {
            Some(GeoIPRecord::Country)
        } else if value == 5 {
            Some(GeoIPRecord::DensityIncome)
        } else if value == 6 {
            Some(GeoIPRecord::Domain)
        } else if value == 7 {
            Some(GeoIPRecord::Isp)
        } else {
            None
        }
    }

    /// The number of this kind of record.
    pub fn id(&self) -> (r: isize)
        ensures
            r == self.spec_id(),
    {
        match self {
            GeoIPRecord::AnonymousIp => 0,
            GeoIPRecord::Asn => 1,
            GeoIPRecord::City => 2,
            GeoIPRecord::ConnectionType => 3,
            GeoIPRecord::Country => 4,
            GeoIPRecord::DensityIncome => 5,
            GeoIPRecord::Domain => 6,
            GeoIPRecord::Isp => 7,
        }
    }

    /// The kind of record with the number `value`; the number itself back
    /// when no kind has it.
    pub fn try_from(value: isize) -> (r: Result<GeoIPRecord, isize>)
        ensures
            Self::spec_from_id(value as int) matches Some(k) ==> r == Ok::<GeoIPRecord, isize>(k),
            Self::spec_from_id(value as int) is None ==> r == Err::<GeoIPRecord, isize>(value),
    {
        if value == 0 {
            Ok(GeoIPRecord::AnonymousIp)
        } else if value == 1 {
            Ok(GeoIPRecord::Asn)
        } else if value == 2 {
            Ok(GeoIPRecord::City)
        } else if value == 3 {
            Ok(GeoIPRecord::ConnectionType)
        } else if value == 4 {
            Ok(GeoIPRecord::Country)
        } else if value == 5 {
            Ok(GeoIPRecord::DensityIncome)
        } else if value == 6 {
            Ok(GeoIPRecord::Domain)
        } else if value == 7 {
            Ok(GeoIPRecord::Isp)
        } else {
            Err(value)
        }
    }

    pub open spec fn spec_name(self) -> Seq<char> {
        match self {
            GeoIPRecord::AnonymousIp => "AnonymousIp"@,
            GeoIPRecord::Asn => "Asn"@,
            GeoIPRecord::City => "City"@,
            GeoIPRecord::ConnectionType => "ConnectionType"@,
            GeoIPRecord::Country => "Country"@,
            GeoIPRecord::DensityIncome => "DensityIncome"@,
            GeoIPRecord::Domain => "Domain"@,
            GeoIPRecord::Isp => "Isp"@,
        }
    }

    /// The name of this kind of record in the `records` table.
    pub fn name(&self) -> (r: &'static str)
        ensures
            r@ == self.spec_name(),
    {
        match self {
            GeoIPRecord::AnonymousIp => "AnonymousIp",
            GeoIPRecord::Asn => "Asn",
            GeoIPRecord::City => "City",
            GeoIPRecord::ConnectionType => "ConnectionType",
            GeoIPRecord::Country => "Country",
            GeoIPRecord::DensityIncome => "DensityIncome",
            GeoIPRecord::Domain => "Domain",
            GeoIPRecord::Isp => "Isp",
        }
    }

    /// All kinds of record, in the order of their numbers.
    pub fn all() -> (r: Vec<GeoIPRecord>)
        ensures
            r@.len() == RECORD_KINDS,
            forall|i: int| 0 <= i < RECORD_KINDS ==> #[trigger] r@[i].spec_id() == i,
    {
        let mut r: Vec<GeoIPRecord> = Vec::new();
        r.push(GeoIPRecord::AnonymousIp);
        r.push(GeoIPRecord::Asn);
        r.push(GeoIPRecord::City);
        r.push(GeoIPRecord::ConnectionType);
        r.push(GeoIPRecord::Country);
        r.push(GeoIPRecord::DensityIncome);
        r.push(GeoIPRecord::Domain);
        r.push(GeoIPRecord::Isp);
        r
    }

    /// The database that holds this kind of record: ASN and country records
    /// have their own databases; the others are in the full database, which
    /// is optional.
    pub fn reader<'a>(&self, dbs: &'a Databases) -> (r: Result<&'a DBReader, DBError>)
        ensures
            *self == GeoIPRecord::Asn ==> r == Ok::<&DBReader, DBError>(&dbs.asn),
            *self == GeoIPRecord::Country ==> r == Ok::<&DBReader, DBError>(&dbs.country),
            *self != GeoIPRecord::Asn && *self != GeoIPRecord::Country ==> match dbs.default {
                Some(d) => r == Ok::<&DBReader, DBError>(&d),
                None => r == Err::<&DBReader, DBError>(DBError::DefaultNotInstalled),
            },
    {
        match self {
            GeoIPRecord::Asn => Ok(&dbs.asn),
            GeoIPRecord::Country => Ok(&dbs.country),
            _ => match &dbs.default {
                Some(d) => Ok(d),
                None => Err(DBError::DefaultNotInstalled),
            },
        }
    }
}

/// A record's number gives the record back, and only numbers 0 to 7 are
/// numbers of records.
pub proof fn law_record_ids(k: GeoIPRecord, value: int)
    ensures
        GeoIPRecord::spec_from_id(k.spec_id()) == Some(k),
        0 <= k.spec_id() < RECORD_KINDS,
        GeoIPRecord::spec_from_id(value) matches Some(j) ==> j.spec_id() == value,
        GeoIPRecord::spec_from_id(value) is Some <==> 0 <= value < RECORD_KINDS,
{
}

/// Distinct kinds of record have distinct numbers and distinct names.
pub proof fn law_records_distinct(a: GeoIPRecord, b: GeoIPRecord)
    requires
        a != b,
    ensures
        a.spec_id() != b.spec_id(),
        a.spec_name() != b.spec_name(),
{
    reveal_strlit("AnonymousIp");
    reveal_strlit("Asn");
    reveal_strlit("City");
    reveal_strlit("ConnectionType");
    reveal_strlit("Country");
    reveal_strlit("DensityIncome");
    reveal_strlit("Domain");
    reveal_strlit("Isp");
    assert("AnonymousIp"@.len() == 11 && "AnonymousIp"@[0] == 'A' && "AnonymousIp"@[1] == 'n' && "AnonymousIp"@[2] == 'o');
    assert("Asn"@.len() == 3 && "Asn"@[0] == 'A' && "Asn"@[1] == 's' && "Asn"@[2] == 'n');
    assert("City"@.len() == 4 && "City"@[0] == 'C' && "City"@[1] == 'i' && "City"@[2] == 't');
    assert("ConnectionType"@.len() == 14 && "ConnectionType"@[0] == 'C' && "ConnectionType"@[1] == 'o' && "ConnectionType"@[2] == 'n');
    assert("Country"@.len() == 7 && "Country"@[0] == 'C' && "Country"@[1] == 'o' && "Country"@[2] == 'u');
    assert("DensityIncome"@.len() == 13 && "DensityIncome"@[0] == 'D' && "DensityIncome"@[1] == 'e' && "DensityIncome"@[2] == 'n');
    assert("Domain"@.len() == 6 && "Domain"@[0] == 'D' && "Domain"@[1] == 'o' && "Domain"@[2] == 'm');
    assert("Isp"@.len() == 3 && "Isp"@[0] == 'I' && "Isp"@[1] == 's' && "Isp"@[2] == 'p');
}

} // verus!

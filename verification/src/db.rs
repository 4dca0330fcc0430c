//! The databases: where they are looked for, how they are opened, the
//! errors that loading and lookups give, and how a reload replaces them.

use vstd::prelude::*;
use maxminddb::{MaxMindDbError, Reader};

verus! {

#[verifier::external_type_specification]
#[verifier::external_body]
pub struct ExMaxMindDbError(MaxMindDbError);

/// An opened MaxMind DB reader. The reader is an outside type that
/// verification does not look into; lookups go through `reader`.
#[verifier::external_body]
pub struct OpenedReader {
    pub reader: Reader<Vec<u8>>,
}

/// A MaxMind DB database held in memory, with the bytes it was opened from.
pub struct DBReader {
    opened: OpenedReader,
    /// The bytes of the database file that `opened` was made from.
    source: Ghost<Seq<u8>>,
}

impl DBReader {
    /// The bytes of the database file the reader was opened from.
    pub closed spec fn source(&self) -> Seq<u8> {
        self.source@
    }

    /// The opened reader, for lookups.
    pub fn opened(&self) -> &OpenedReader {
        &self.opened
    }
}

/// Whether `maxminddb::Reader::from_source` accepts the bytes `bytes` as a
/// MaxMind DB database.
pub uninterp spec fn mmdb_accepts(bytes: Seq<u8>) -> bool;

/// Calls `maxminddb::Reader::from_source`, which reads and checks the
/// metadata of a database held in memory. Claimed: it succeeds exactly on
/// the byte strings that `mmdb_accepts` holds of, a function of the bytes
/// alone, and the reader it gives is made from those bytes. Which error it
/// gives otherwise, and what the reader holds, are left unsaid.
#[verifier::external_body]
fn reader_from_source(bytes: Vec<u8>) -> (r: Result<DBReader, MaxMindDbError>)
    ensures
        r is Ok <==> mmdb_accepts(bytes@),
        r matches Ok(d) ==> d.source() == bytes@,
{
    let source = Ghost(bytes@);
    match Reader::from_source(bytes) {
        Ok(reader) => Ok(DBReader { opened: OpenedReader { reader }, source }),
        Err(e) => Err(e),
    }
}

/// Calls the `Display` impl of `maxminddb::MaxMindDbError` for its message;
/// nothing is claimed of the text.
#[verifier::external_body]
fn mmdb_error_message(e: &MaxMindDbError) -> String {
    e.to_string()
}

/// An error of the MaxMind DB reader, with its message, which is made
/// once, where the error arises.
pub struct ReaderError {
    error: MaxMindDbError,
    message: String,
}

impl ReaderError {
    /// The reader's error.
    pub closed spec fn error(&self) -> MaxMindDbError {
        self.error
    }

    /// The message of the error, as the reader displayed it.
    pub closed spec fn text(&self) -> Seq<char> {
        self.message@
    }

    /// Holds the reader's error `error` with its message.
    pub fn new(error: MaxMindDbError) -> (r: ReaderError)
        ensures
            r.error() == error,
    {
        let message = mmdb_error_message(&error);
        ReaderError { error, message }
    }

    /// The reader's error.
    pub fn error_ref(&self) -> (r: &MaxMindDbError)
        ensures
            *r == self.error(),
    {
        &self.error
    }

    /// The message of the error.
    pub fn message(&self) -> (r: String)
        ensures
            r@ == self.text(),
    {
        self.message.clone()
    }
}

/// The error of loading the databases or of a lookup.
pub enum DBError {
    /// An error of the MaxMind DB reader: the file could not be read, is not
    /// a database, or a record could not be decoded.
    Internal(ReaderError),
    /// A required database was found under none of its paths; the text
    /// names it.
    NotInstalled(&'static str),
    /// The record asked for is held only by the optional full database,
    /// which was not found.
    DefaultNotInstalled,
}

impl DBError {
    /// The message of the error.
    pub open spec fn message(&self) -> Seq<char> {
        match self {
            DBError::Internal(e) => e.text(),
            DBError::NotInstalled(name) => "You didn't install the required MaxMindDB database: "@ + name@,
            DBError::DefaultNotInstalled => "This GeoIP record requires a default/full database, but garrysmod/maxminddb.mmdb or garrysmod/data/maxminddb.dat was not found"@,
        }
    }

    /// The error is the reader's error `e`.
    pub open spec fn is_reader_error(&self, e: MaxMindDbError) -> bool {
        self matches DBError::Internal(x) && x.error() == e
    }

    /// The error for the reader's error `e`.
    pub fn reader(e: MaxMindDbError) -> (r: DBError)
        ensures
            r.is_reader_error(e),
    {
        DBError::Internal(ReaderError::new(e))
    }

    /// The message shown for the error.
    pub fn to_string(&self) -> (r: String)
        ensures
            r@ == self.message(),
    {
        match self {
            DBError::Internal(e) => e.message(),
            DBError::NotInstalled(name) => {
                let mut r = String::from_str("You didn't install the required MaxMindDB database: ");
                r.append(name);
                r
            },
            DBError::DefaultNotInstalled => String::from_str(
                "This GeoIP record requires a default/full database, but garrysmod/maxminddb.mmdb or garrysmod/data/maxminddb.dat was not found",
            ),
        }
    }
}

/// The loaded databases.
pub struct Databases {
    /// The optional full database, which holds the records other than ASN
    /// and country ones (city, ISP, anonymous IP, connection type and so on).
    pub default: Option<DBReader>,
    /// The ASN database.
    pub asn: DBReader,
    /// The country database.
    pub country: DBReader,
}

/// The three databases that are looked for.
#[derive(Clone, Copy, Debug, PartialEq, Eq)]
pub enum DbKind {
    /// The optional full database.
    Default,
    /// The required ASN database.
    Asn,
    /// The required country database.
    Country,
}

impl DbKind {
    pub open spec fn spec_paths(self) -> Seq<Seq<char>> {
        match self {
            DbKind::Default => seq![
                "garrysmod/maxminddb.mmdb"@,
                "garrysmod/data/maxminddb.dat"@,
                "garrysmod/data/maxminddb.mmdb"@,
            ],
            DbKind::Asn => seq!["garrysmod/GeoLite2-ASN.mmdb"@, "garrysmod/data/GeoLite2-ASN.mmdb"@],
            DbKind::Country => seq![
                "garrysmod/GeoLite2-Country.mmdb"@,
                "garrysmod/data/GeoLite2-Country.mmdb"@,
            ],
        }
    }

    /// The paths the database is looked for under, in the order they are
    /// tried: `garrysmod/` before `garrysmod/data/`.
    pub fn paths(&self) -> (r: Vec<&'static str>)
        ensures
            r@.len() == self.spec_paths().len(),
            forall|i: int| 0 <= i < r@.len() ==> #[trigger] r@[i]@ == self.spec_paths()[i],
    {
        let mut r: Vec<&'static str> = Vec::new();
        match self {
            DbKind::Default => {
                r.push("garrysmod/maxminddb.mmdb");
                r.push("garrysmod/data/maxminddb.dat");
                r.push("garrysmod/data/maxminddb.mmdb");
            },
            DbKind::Asn => {
                r.push("garrysmod/GeoLite2-ASN.mmdb");
                r.push("garrysmod/data/GeoLite2-ASN.mmdb");
            },
            DbKind::Country => {
                r.push("garrysmod/GeoLite2-Country.mmdb");
                r.push("garrysmod/data/GeoLite2-Country.mmdb");
            },
        }
        r
    }

    /// How an error names a required database when it is missing.
    pub open spec fn spec_name(self) -> Seq<char> {
        match self {
            DbKind::Asn => "GeoLite2-ASN.mmdb; expected garrysmod/GeoLite2-ASN.mmdb or garrysmod/data/GeoLite2-ASN.mmdb"@,
            _ => "GeoLite2-Country.mmdb; expected garrysmod/GeoLite2-Country.mmdb or garrysmod/data/GeoLite2-Country.mmdb"@,
        }
    }

    /// How an error names a required database when it is missing; the full
    /// database is optional and never named.
    pub fn name(&self) -> (r: &'static str)
        requires
            !(*self is Default),
        ensures
            r@ == self.spec_name(),
    {
        match self {
            DbKind::Asn => "GeoLite2-ASN.mmdb; expected garrysmod/GeoLite2-ASN.mmdb or garrysmod/data/GeoLite2-ASN.mmdb",
            _ => "GeoLite2-Country.mmdb; expected garrysmod/GeoLite2-Country.mmdb or garrysmod/data/GeoLite2-Country.mmdb",
        }
    }
}

/// The index of the first path that exists, given for each path in order
/// whether it exists.
pub fn first_existing(exists: &Vec<bool>) -> (r: Option<usize>)
    ensures
        r matches Some(i) ==> i < exists@.len() && exists@[i as int] && forall|j: int|
            0 <= j < i ==> !exists@[j],
        r is None ==> forall|j: int| 0 <= j < exists@.len() ==> !exists@[j],
{
    let mut i: usize = 0;
    while i < exists.len()
        invariant
            i <= exists@.len(),
            forall|j: int| 0 <= j < i ==> !exists@[j],
        decreases exists@.len() - i,
    {
        if exists[i] {
            return Some(i);
        }
        i = i + 1;
    }
    None
}

/// What was found of a database: nothing, when none of its paths exists,
/// or the outcome of reading the file at the first path that exists.
pub type Found = Option<Result<Vec<u8>, MaxMindDbError>>;

/// How loading a database that was looked for turns out.
pub enum Load {
    /// None of its paths exists.
    Missing,
    /// Its file could not be read, or is not a database.
    Failed,
    /// It opens.
    Opens,
}

pub open spec fn load_of(found: Found) -> Load {
    match found {
        None => Load::Missing,
        Some(Ok(bytes)) => if mmdb_accepts(bytes@) { Load::Opens } else { Load::Failed },
        Some(Err(_)) => Load::Failed,
    }
}

/// `d` was opened from the file contents that were found.
pub open spec fn opened_from(d: DBReader, found: Found) -> bool {
    found matches Some(Ok(b)) && d.source() == b@
}

/// Opens a database that was looked for, if one was found.
pub fn open_first_existing(found: Found) -> (r: Result<Option<DBReader>, DBError>)
    ensures
        load_of(found) is Missing ==> r == Ok::<Option<DBReader>, DBError>(None),
        load_of(found) is Opens <==> r matches Ok(Some(_)),
        load_of(found) is Failed <==> r matches Err(DBError::Internal(_)),
        found matches Some(Err(e)) ==> (r matches Err(x) && x.is_reader_error(e)),
        r matches Ok(Some(d)) ==> opened_from(d, found),
{
    match found {
        None => Ok(None),
        Some(Err(e)) => Err(DBError::reader(e)),
        Some(Ok(bytes)) => match reader_from_source(bytes) {
            Ok(reader) => Ok(Some(reader)),
            Err(e) => Err(DBError::reader(e)),
        },
    }
}

/// Opens a database that must be there; `name` names it in the error when
/// it was not found.
pub fn open_required(name: &'static str, found: Found) -> (r: Result<DBReader, DBError>)
    ensures
        load_of(found) is Missing <==> r == Err::<DBReader, DBError>(DBError::NotInstalled(name)),
        load_of(found) is Opens <==> r is Ok,
        load_of(found) is Failed <==> r matches Err(DBError::Internal(_)),
        found matches Some(Err(e)) ==> (r matches Err(x) && x.is_reader_error(e)),
        r matches Ok(d) ==> opened_from(d, found),
{
    match open_first_existing(found) {
        Ok(Some(reader)) => Ok(reader),
        Ok(None) => Err(DBError::NotInstalled(name)),
        Err(e) => Err(e),
    }
}

/// Loads the databases from what was found of each: the full database may
/// be missing, the ASN and country databases may not. The first failure,
/// in the order full, ASN, country, is the error.
pub fn init_dbs(default: Found, asn: Found, country: Found) -> (r: Result<Databases, DBError>)
    ensures
        r is Ok <==> !(load_of(default) is Failed) && load_of(asn) is Opens && load_of(country) is Opens,
        r matches Ok(dbs) ==> (dbs.default is Some <==> load_of(default) is Opens),
        r matches Ok(dbs) ==> opened_from(dbs.asn, asn) && opened_from(dbs.country, country),
        r matches Ok(dbs) ==> (dbs.default matches Some(d) ==> opened_from(d, default)),
        load_of(default) is Failed ==> r matches Err(DBError::Internal(_)),
        !(load_of(default) is Failed) && load_of(asn) is Missing ==>
            (r matches Err(DBError::NotInstalled(n)) && n@ == DbKind::Asn.spec_name()),
        !(load_of(default) is Failed) && load_of(asn) is Failed ==> r matches Err(DBError::Internal(_)),
        !(load_of(default) is Failed) && load_of(asn) is Opens && load_of(country) is Missing ==>
            (r matches Err(DBError::NotInstalled(n)) && n@ == DbKind::Country.spec_name()),
        !(load_of(default) is Failed) && load_of(asn) is Opens && load_of(country) is Failed ==>
            r matches Err(DBError::Internal(_)),
        default matches Some(Err(e)) ==> (r matches Err(x) && x.is_reader_error(e)),
        !(load_of(default) is Failed) ==> (asn matches Some(Err(e)) ==> (r matches Err(x)
            && x.is_reader_error(e))),
        !(load_of(default) is Failed) && load_of(asn) is Opens ==> (country matches Some(Err(e))
            ==> (r matches Err(x) && x.is_reader_error(e))),
{
    let default = match open_first_existing(default) {
        Ok(d) => d,
        Err(e) => return Err(e),
    };
    let asn = match open_required(DbKind::Asn.name(), asn) {
        Ok(d) => d,
        Err(e) => return Err(e),
    };
    let country = match open_required(DbKind::Country.name(), country) {
        Ok(d) => d,
        Err(e) => return Err(e),
    };
    Ok(Databases { default, asn, country })
}

/// The state after taking in the load `refreshed`: a successful load, or
/// any load when none had succeeded, replaces the state; a failed load
/// leaves loaded databases in place.
pub open spec fn refresh_step(state: Result<Databases, DBError>, refreshed: Result<Databases, DBError>) -> Result<Databases, DBError> {
    if refreshed is Ok || state is Err {
        refreshed
    } else {
        state
    }
}

/// The state after the loads `loads` were taken in one after another, the
/// first of them being the initial load.
pub open spec fn state_after(loads: Seq<Result<Databases, DBError>>) -> Result<Databases, DBError>
    decreases loads.len(),
{
    if loads.len() <= 1 {
        loads[0]
    } else {
        refresh_step(state_after(loads.drop_last()), loads.last())
    }
}

/// Takes in a fresh load of the databases. A successful load replaces
/// whatever was loaded before. A failed one is reported by its message; it
/// replaces an earlier failure but leaves databases that were loaded in
/// place. Gives `None` on success and the failure's message otherwise.
pub fn refresh(state: &mut Result<Databases, DBError>, refreshed: Result<Databases, DBError>) -> (failure: Option<String>)
    ensures
        *final(state) == refresh_step(*old(state), refreshed),
        refreshed is Ok ==> *final(state) == refreshed && failure is None,
        refreshed is Err ==> failure is Some,
        refreshed is Err && (*old(state)) is Ok ==> *final(state) == *old(state),
        refreshed is Err && (*old(state)) is Err ==> *final(state) == refreshed,
        refreshed matches Err(e) ==> (failure matches Some(t) && t@ == e.message()),
{
    match refreshed {
        Ok(dbs) => {
            *state = Ok(dbs);
            None
        },
        Err(e) => {
            let message = e.to_string();
            if state.is_err() {
                *state = Err(e);
            }
            Some(message)
        },
    }
}

/// A value that is either lent by its owner or owned here.
pub enum MaybeBorrowed<'a, T> {
    Borrowed(&'a T),
    Owned(T),
}

impl<'a, T> MaybeBorrowed<'a, T> {
    /// The value, wherever it lives.
    pub fn as_ref(&self) -> (r: &T)
        ensures
            match self {
                MaybeBorrowed::Borrowed(b) => *r == **b,
                MaybeBorrowed::Owned(o) => *r == *o,
            },
    {
        match self {
            MaybeBorrowed::Borrowed(b) => b,
            MaybeBorrowed::Owned(o) => o,
        }
    }
}

/// The outcome of a lookup once the error of the lookup itself is owned.
pub open spec fn lift_outcome<'a, T>(x: Result<T, DBError>) -> Result<T, MaybeBorrowed<'a, DBError>> {
    match x {
        Ok(v) => Ok(v),
        Err(e) => Err(MaybeBorrowed::Owned(e)),
    }
}

/// Runs the lookup `f` on the loaded databases. When the databases failed
/// to load, that failure is the outcome, lent from the state, and `f` is not
/// run; otherwise the outcome is what `f` gives.
pub fn with_databases<'a, T, F: FnOnce(&'a Databases) -> Result<T, DBError>>(
    state: &'a Result<Databases, DBError>,
    f: F,
) -> (r: Result<T, MaybeBorrowed<'a, DBError>>)
    requires
        state is Ok ==> f.requires((&state->Ok_0,)),
    ensures
        state is Err ==> r == Err::<T, MaybeBorrowed<'a, DBError>>(MaybeBorrowed::Borrowed(&state->Err_0)),
        state is Ok ==> exists|x: Result<T, DBError>| f.ensures((&state->Ok_0,), x) && r == lift_outcome(x),
{
    match state {
        Err(e) => Err(MaybeBorrowed::Borrowed(e)),
        Ok(dbs) => {
            let x = f(dbs);
            let ghost outcome = x;
            let r = match x {
                Ok(v) => Ok(v),
                Err(e) => Err(MaybeBorrowed::Owned(e)),
            };
            assert(r == lift_outcome::<T>(outcome));
            r
        },
    }
}

proof fn lemma_loaded_iff_some_success(loads: Seq<Result<Databases, DBError>>)
    requires
        loads.len() > 0,
    ensures
        state_after(loads) is Ok <==> exists|i: int| 0 <= i < loads.len() && #[trigger] loads[i] is Ok,
    decreases loads.len(),
{
    if loads.len() > 1 {
        let prefix = loads.drop_last();
        lemma_loaded_iff_some_success(prefix);
        if loads.last() is Ok {
            assert(loads[loads.len() - 1] is Ok);
        } else {
            if state_after(prefix) is Ok {
                let i = choose|i: int| 0 <= i < prefix.len() && #[trigger] prefix[i] is Ok;
                assert(loads[i] is Ok);
            }
            if exists|i: int| 0 <= i < loads.len() && #[trigger] loads[i] is Ok {
                let i = choose|i: int| 0 <= i < loads.len() && #[trigger] loads[i] is Ok;
                assert(i < loads.len() - 1);
                assert(prefix[i] is Ok);
            }
        }
    }
}

proof fn lemma_latest_success(loads: Seq<Result<Databases, DBError>>, i: int)
    requires
        0 <= i < loads.len(),
        loads[i] is Ok,
        forall|j: int| i < j < loads.len() ==> #[trigger] loads[j] is Err,
    ensures
        state_after(loads) == loads[i],
    decreases loads.len(),
{
    if loads.len() > 1 && i < loads.len() - 1 {
        let prefix = loads.drop_last();
        assert(loads[loads.len() - 1] is Err);
        assert forall|j: int| i < j < prefix.len() implies #[trigger] prefix[j] is Err by {
            assert(loads[j] is Err);
        }
        lemma_latest_success(prefix, i);
    }
}

proof fn lemma_all_failed(loads: Seq<Result<Databases, DBError>>)
    requires
        loads.len() > 0,
        forall|j: int| 0 <= j < loads.len() ==> #[trigger] loads[j] is Err,
    ensures
        state_after(loads) == loads.last(),
    decreases loads.len(),
{
    if loads.len() > 1 {
        let prefix = loads.drop_last();
        assert forall|j: int| 0 <= j < prefix.len() implies #[trigger] prefix[j] is Err by {
            assert(loads[j] is Err);
        }
        lemma_all_failed(prefix);
        assert(prefix[prefix.len() - 1] is Err);
        assert(loads[loads.len() - 1] is Err);
    }
}

/// After an initial load and any number of reloads, the databases are
/// loaded exactly when some load succeeded; they are then the most recent
/// successful load, and otherwise the state holds the failure of the most
/// recent load.
pub proof fn law_reload_sequence(loads: Seq<Result<Databases, DBError>>)
    requires
        loads.len() > 0,
    ensures
        state_after(loads) is Ok <==> exists|i: int| 0 <= i < loads.len() && #[trigger] loads[i] is Ok,
        forall|i: int|
            #![trigger loads[i]]
            0 <= i < loads.len() && loads[i] is Ok && (forall|j: int|
                i < j < loads.len() ==> #[trigger] loads[j] is Err) ==> state_after(loads) == loads[i],
        (forall|i: int| 0 <= i < loads.len() ==> #[trigger] loads[i] is Err) ==> state_after(loads)
            == loads.last(),
{
    lemma_loaded_iff_some_success(loads);
    assert forall|i: int|
        #![trigger loads[i]]
        0 <= i < loads.len() && loads[i] is Ok && (forall|j: int|
            i < j < loads.len() ==> #[trigger] loads[j] is Err) implies state_after(loads) == loads[i] by {
        lemma_latest_success(loads, i);
    }
    if forall|i: int| 0 <= i < loads.len() ==> #[trigger] loads[i] is Err {
        lemma_all_failed(loads);
    }
}

/// The failure of a reload, when no databases are loaded, is the error that
/// the next lookup reports: the state holds it, `with_databases` hands it on
/// as it is, and so its message is the message the reload reported.
pub proof fn law_failed_reload_is_reported(state: Result<Databases, DBError>, e: DBError)
    requires
        state is Err,
    ensures
        refresh_step(state, Err(e)) == Err::<Databases, DBError>(e),
        refresh_step(state, Err(e))->Err_0.message() == e.message(),
{
}

} // verus!

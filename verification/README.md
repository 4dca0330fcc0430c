# gm_maxminddb_geoip

The logic of a Garry's Mod binary module that answers GeoIP questions from
MaxMind DB files (ASN, country and, optionally, a full database), written in
Verus and verified.

- `src/` is the verified library:
  - `db.rs`: where the databases are looked for, opening them
    (`maxminddb::Reader::from_source` behind a trusted wrapper), the load
    order and its errors, reloading (`refresh`), and running lookups on the
    loaded state.
  - `records.rs`: the record kinds of raw queries, their numbers, and the
    database each reads from.
  - `names.rs`: choosing a localized place name for a language tag.
  - `info.rs`: the results of the Lua functions: raw record values, the
    country name, and the combined ASN and country summary.
  - `geoip2/`: the decoded records as plain values, and the Lua tables that
    represent them; `serialize.rs` and `lua.rs` hold the `PushToLua` trait
    and the Lua value model.
  - `text.rs`: decimal text and string comparison.
- `app/` is the module itself: argument parsing, address parsing, file
  reading, the lookups (which take `std::net::IpAddr`), copying decoded
  records into the library's types, and pushing values onto the Lua stack.
- `tests/` runs the library on concrete values.

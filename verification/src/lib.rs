//! GeoIP lookups for Garry's Mod servers: the record model of MaxMind DB
//! databases, the rules that pick a database and a localized name, the
//! shape of the tables handed to Lua, and the loading of the databases.

pub mod lua;
pub mod serialize;
pub mod geoip2;
pub mod text;
pub mod names;
pub mod db;
pub mod records;
pub mod info;

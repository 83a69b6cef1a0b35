//! The settings of the service, resolved from the raw values of its
//! environment variables.

use vstd::prelude::*;
use vstd::string::*;

verus! {

/// Which backend holds the locks.
#[derive(Debug, Clone, Copy, PartialEq, Eq, Structural)]
pub enum StorageType {
    Memory,
    Redis,
}

/// The settings of the service.
#[derive(Debug)]
pub struct Config {
    pub storage_type: StorageType,
    pub redis_url: Option<String>,
    pub redis_username: Option<String>,
    pub redis_password: Option<String>,
    pub redis_db: Option<i64>,
    pub server_host: String,
    pub server_port: u16,
    pub memory_persist_enabled: bool,
    pub memory_persist_path: String,
    /// Seconds between two snapshots.
    pub memory_persist_interval: u64,
}

/// The raw value of each environment variable that the service reads, `None`
/// where the variable is not set.
#[derive(Debug)]
pub struct EnvValues {
    pub storage_type: Option<String>,
    pub redis_url: Option<String>,
    pub redis_username: Option<String>,
    pub redis_password: Option<String>,
    pub redis_db: Option<String>,
    pub server_host: Option<String>,
    pub server_port: Option<String>,
    pub memory_persist_enabled: Option<String>,
    pub memory_persist_path: Option<String>,
    pub memory_persist_interval: Option<String>,
}

/// The lower-case form of a text, as `str::to_lowercase` gives it.
pub uninterp spec fn lowercase_of(text: Seq<char>) -> Seq<char>;

/// The number that a text stands for as an `i64`, as `str::parse` gives it;
/// `None` where it stands for none.
pub uninterp spec fn parsed_i64(text: Seq<char>) -> Option<i64>;

/// The number that a text stands for as a `u16`, as `str::parse` gives it;
/// `None` where it stands for none.
pub uninterp spec fn parsed_u16(text: Seq<char>) -> Option<u16>;

/// The number that a text stands for as a `u64`, as `str::parse` gives it;
/// `None` where it stands for none.
pub uninterp spec fn parsed_u64(text: Seq<char>) -> Option<u64>;

/// `str::to_lowercase`: the result is the lower-case form of the text, which
/// depends on the text alone.
#[verifier::external_body]
fn lowercase(text: &String) -> (r: String)
    ensures
        r@ == lowercase_of(text@),
{
    text.to_lowercase()
}

/// `str::parse` to `i64`, with the error dropped: the result depends on the
/// text alone.
#[verifier::external_body]
fn parse_i64(text: &String) -> (r: Option<i64>)
    ensures
        r == parsed_i64(text@),
{
    text.parse::<i64>().ok()
}

/// `str::parse` to `u16`, with the error dropped: the result depends on the
/// text alone.
#[verifier::external_body]
fn parse_u16(text: &String) -> (r: Option<u16>)
    ensures
        r == parsed_u16(text@),
{
    text.parse::<u16>().ok()
}

/// `str::parse` to `u64`, with the error dropped: the result depends on the
/// text alone.
#[verifier::external_body]
fn parse_u64(text: &String) -> (r: Option<u64>)
    ensures
        r == parsed_u64(text@),
{
    text.parse::<u64>().ok()
}

/// The truth value that a text stands for: `true` and `false` stand for
/// themselves, every other text for none.
pub open spec fn parsed_bool(text: Seq<char>) -> Option<bool> {
    if text == "true"@ {
        Some(true)
    } else if text == "false"@ {
        Some(false)
    } else {
        None
    }
}

/// The view of an optional text.
pub open spec fn text_of(value: Option<String>) -> Option<Seq<char>> {
    match value {
        Some(s) => Some(s@),
        None => None,
    }
}

/// The backend that a lower-case text selects: `redis` selects the remote
/// backend, everything else the in-process one.
pub open spec fn storage_type_named(lowered: Seq<char>) -> StorageType {
    if lowered == "redis"@ {
        StorageType::Redis
    } else {
        StorageType::Memory
    }
}

/// The backend that a raw value selects: `redis`, in any mix of cases,
/// selects the remote backend; everything else, and no value, the
/// in-process one.
pub open spec fn storage_type_of(raw: Option<String>) -> StorageType {
    match raw {
        Some(s) => storage_type_named(lowercase_of(s@)),
        None => StorageType::Memory,
    }
}

/// The port that a raw value selects: the number it stands for, 8080 where
/// it stands for none or is not set.
pub open spec fn port_of(raw: Option<String>) -> u16 {
    match raw {
        Some(s) if parsed_u16(s@).is_some() => parsed_u16(s@).unwrap(),
        _ => 8080,
    }
}

/// The snapshot interval that a raw value selects: the number it stands
/// for, 30 where it stands for none or is not set.
pub open spec fn interval_of(raw: Option<String>) -> u64 {
    match raw {
        Some(s) if parsed_u64(s@).is_some() => parsed_u64(s@).unwrap(),
        _ => 30,
    }
}

/// Whether snapshots are on: what the raw value stands for, on where it
/// stands for nothing or is not set.
pub open spec fn persist_enabled_of(raw: Option<String>) -> bool {
    match raw {
        Some(s) if parsed_bool(s@).is_some() => parsed_bool(s@).unwrap(),
        _ => true,
    }
}

/// The database that a raw value selects, if it stands for a number.
pub open spec fn db_of(raw: Option<String>) -> Option<i64> {
    match raw {
        Some(s) => parsed_i64(s@),
        None => None,
    }
}

/// The text that a raw value selects: itself, or `fallback` where it is not
/// set.
pub open spec fn text_or(raw: Option<String>, fallback: Seq<char>) -> Seq<char> {
    match raw {
        Some(s) => s@,
        None => fallback,
    }
}

/// The raw value, or `fallback` where it is not set.
pub fn value_or(raw: Option<String>, fallback: &str) -> (r: String)
    ensures
        r@ == text_or(raw, fallback@),
{
    match raw {
        Some(s) => s,
        None => String::from_str(fallback),
    }
}

/// Reads a truth value: `true` and `false` stand for themselves, every
/// other text for none.
pub fn parse_bool(text: &String) -> (r: Option<bool>)
    ensures
        r == parsed_bool(text@),
{
    if *text == String::from_str("true") {
        Some(true)
    } else if *text == String::from_str("false") {
        Some(false)
    } else {
        None
    }
}

/// The backend that a text selects once it is in lower case: `redis`
/// selects the remote backend, everything else the in-process one.
pub fn storage_type_from(lowered: &String) -> (t: StorageType)
    ensures
        t == storage_type_named(lowered@),
{
    if *lowered == String::from_str("redis") {
        StorageType::Redis
    } else {
        StorageType::Memory
    }
}

/// The remote endpoint for a backend: none for the in-process backend; for
/// the remote one the given endpoint, or `redis://127.0.0.1:6379` where none
/// is given.
pub fn redis_url_for(storage_type: StorageType, given: Option<String>) -> (url: Option<String>)
    ensures
        text_of(url) == (if storage_type == StorageType::Redis {
            Some(text_or(given, "redis://127.0.0.1:6379"@))
        } else {
            None
        }),
{
    match storage_type {
        StorageType::Redis => Some(value_or(given, "redis://127.0.0.1:6379")),
        StorageType::Memory => None,
    }
}

/// The port to listen on: the number that was read, or 8080 where none was.
pub fn port_or_default(parsed: Option<u16>) -> (port: u16)
    ensures
        port == (if parsed.is_some() { parsed.unwrap() } else { 8080 }),
{
    match parsed {
        Some(p) => p,
        None => 8080,
    }
}

/// The seconds between two snapshots: the number that was read, or 30
/// where none was.
pub fn interval_or_default(parsed: Option<u64>) -> (seconds: u64)
    ensures
        seconds == (if parsed.is_some() { parsed.unwrap() } else { 30 }),
{
    match parsed {
        Some(n) => n,
        None => 30,
    }
}

/// Whether snapshots are on: the truth value that was read, or on where
/// none was.
pub fn persist_enabled_or_default(parsed: Option<bool>) -> (enabled: bool)
    ensures
        enabled == (if parsed.is_some() { parsed.unwrap() } else { true }),
{
    match parsed {
        Some(b) => b,
        None => true,
    }
}

impl Config {
    /// Resolves the settings from the raw values of the environment.
    ///
    /// The remote endpoint is set only where the remote backend is
    /// selected, to `redis://127.0.0.1:6379` unless a value is given. The
    /// host falls back to `127.0.0.1`, the port to 8080, the snapshot path
    /// to `./data/locks.json`, the snapshot interval to 30 seconds, and
    /// snapshots are on unless switched off.
    pub fn from_env(env: EnvValues) -> (c: Config)
        ensures
            c.storage_type == storage_type_of(env.storage_type),
            text_of(c.redis_url) == (if c.storage_type == StorageType::Redis {
                Some(text_or(env.redis_url, "redis://127.0.0.1:6379"@))
            } else {
                None
            }),
            c.redis_username == env.redis_username,
            c.redis_password == env.redis_password,
            c.redis_db == db_of(env.redis_db),
            c.server_host@ == text_or(env.server_host, "127.0.0.1"@),
            c.server_port == port_of(env.server_port),
            c.memory_persist_enabled == persist_enabled_of(env.memory_persist_enabled),
            c.memory_persist_path@ == text_or(env.memory_persist_path, "./data/locks.json"@),
            c.memory_persist_interval == interval_of(env.memory_persist_interval),
    {
        let storage_type = match &env.storage_type {
            Some(s) => {
                let lowered = lowercase(s);
                storage_type_from(&lowered)
            },
            None => StorageType::Memory,
        };
        let redis_url = redis_url_for(storage_type, env.redis_url);
        let redis_db = match &env.redis_db {
            Some(s) => parse_i64(s),
            None => None,
        };
        let server_port = port_or_default(
            match &env.server_port {
                Some(s) => parse_u16(s),
                None => None,
            },
        );
        let memory_persist_enabled = persist_enabled_or_default(
            match &env.memory_persist_enabled {
                Some(s) => parse_bool(s),
                None => None,
            },
        );
        let memory_persist_interval = interval_or_default(
            match &env.memory_persist_interval {
                Some(s) => parse_u64(s),
                None => None,
            },
        );
        Config {
            storage_type,
            redis_url,
            redis_username: env.redis_username,
            redis_password: env.redis_password,
            redis_db,
            server_host: value_or(env.server_host, "127.0.0.1"),
            server_port,
            memory_persist_enabled,
            memory_persist_path: value_or(env.memory_persist_path, "./data/locks.json"),
            memory_persist_interval,
        }
    }
}

} // verus!

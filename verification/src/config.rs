//! Process configuration: what the environment says, and the defaults for what it leaves
//! unsaid.

use crate::text::{all_digits, ascii_digit, chars_of, digits_value, same_text};
use vstd::prelude::*;

verus! {

#[derive(Debug, Clone)]
pub struct ServerConfig {
    pub host: String,
    pub port: u16,
}

#[derive(Debug, Clone)]
pub struct ClickHouseConfig {
    pub url: String,
    pub database: String,
}

#[derive(Debug, Clone)]
pub struct RedisConfig {
    pub url: String,
}

#[derive(Debug, Clone, Copy, PartialEq, Eq, Structural)]
pub struct CacheConfig {
    pub enabled: bool,
    pub ttl_seconds: u64,
}

#[derive(Debug, Clone)]
pub struct Config {
    pub server: ServerConfig,
    pub clickhouse: ClickHouseConfig,
    pub redis: RedisConfig,
    pub cache: CacheConfig,
}

/// The variables that the configuration is read from, each as the environment holds it.
#[derive(Debug, Clone)]
pub struct Environment {
    pub host: Option<String>,
    pub port: Option<String>,
    pub clickhouse_url: Option<String>,
    pub clickhouse_database: Option<String>,
    pub redis_url: Option<String>,
    pub cache_enabled: Option<String>,
    pub cache_ttl_seconds: Option<String>,
}

/// The digits of a numeral: the numeral without the plus sign that may precede it.
pub open spec fn unsigned_digits(text: Seq<char>) -> Seq<char> {
    if text.len() > 0 && text[0] == '+' {
        text.drop_first()
    } else {
        text
    }
}

/// The number that a text stands for, if it is a numeral of at least one decimal digit,
/// with or without a plus sign, that does not exceed `max`.
pub open spec fn parse_unsigned(text: Seq<char>, max: nat) -> Option<nat> {
    let digits = unsigned_digits(text);
    if digits.len() > 0 && all_digits(digits) && digits_value(digits) <= max {
        Some(digits_value(digits))
    } else {
        None
    }
}

/// The truth value that a text stands for: `true` and `false` and nothing else.
pub open spec fn parse_flag(text: Seq<char>) -> Option<bool> {
    if text == "true"@ {
        Some(true)
    } else if text == "false"@ {
        Some(false)
    } else {
        None
    }
}

proof fn lemma_digits_value_grows(digits: Seq<char>, k: int)
    requires
        0 <= k <= digits.len(),
        all_digits(digits),
    ensures
        digits_value(digits.take(k)) <= digits_value(digits),
    decreases digits.len() - k,
{
    if k == digits.len() {
        assert(digits.take(k) =~= digits);
    } else {
        lemma_digits_value_grows(digits, k + 1);
        let longer = digits.take(k + 1);
        assert(longer.drop_last() =~= digits.take(k));
        assert(longer.last() == digits[k]);
        assert(ascii_digit(digits[k]));
    }
}

/// Reads an unsigned decimal numeral that does not exceed `max`.
pub fn read_unsigned(text: &str, max: u64) -> (value: Option<u64>)
    ensures
        match value {
            Some(n) => parse_unsigned(text@, max as nat) == Some(n as nat),
            None => parse_unsigned(text@, max as nat) is None,
        },
{
    let chars = chars_of(text);
    let start: usize = if chars.len() > 0 && chars[0] == '+' {
        1
    } else {
        0
    };
    let ghost digits = unsigned_digits(text@);
    proof {
        assert(digits =~= chars@.skip(start as int));
    }
    if start == chars.len() {
        return None;
    }
    let mut value: u64 = 0;
    let mut i: usize = start;
    while i < chars.len()
        invariant
            start <= i <= chars.len(),
            digits == chars@.skip(start as int),
            digits == unsigned_digits(text@),
            all_digits(digits.take(i - start)),
            value == digits_value(digits.take(i - start)),
            value <= max,
        decreases chars.len() - i,
    {
        let c = chars[i];
        let ghost done = digits.take(i - start);
        let ghost next = digits.take(i + 1 - start);
        proof {
            assert(next.drop_last() =~= done);
            assert(next.last() == c);
            assert(digits[i - start] == c);
        }
        if !('0' <= c && c <= '9') {
            proof {
                assert(!ascii_digit(digits[i - start]));
            }
            return None;
        }
        let d: u64 = (c as u32 - '0' as u32) as u64;
        proof {
            assert forall|j: int| 0 <= j < next.len() implies ascii_digit(#[trigger] next[j]) by {
                if j < done.len() {
                    assert(done[j] == next[j]);
                }
            }
            assert(digits_value(next) == value * 10 + d);
        }
        if d > max || value > (max - d) / 10 {
            proof {
                assert(value * 10 + d > max);
                if all_digits(digits) {
                    lemma_digits_value_grows(digits, i + 1 - start);
                }
            }
            return None;
        }
        value = value * 10 + d;
        i += 1;
    }
    proof {
        assert(digits.take(digits.len() as int) =~= digits);
    }
    Some(value)
}

/// Reads `true` or `false`.
pub fn read_flag(text: &str) -> (value: Option<bool>)
    ensures
        value == parse_flag(text@),
{
    if same_text(text, "true") {
        Some(true)
    } else if same_text(text, "false") {
        Some(false)
    } else {
        None
    }
}

fn text_or(value: &Option<String>, default: &str) -> (text: String)
    ensures
        text@ == match *value {
            Some(given) => given@,
            None => default@,
        },
{
    match value {
        Some(given) => given.clone(),
        None => default.to_owned(),
    }
}

/// The port: what the variable says if it is a number up to 65535, and 8080 otherwise.
pub open spec fn port_of(value: Option<Seq<char>>) -> u16 {
    match value {
        Some(text) => match parse_unsigned(text, 65535) {
            Some(port) => port as u16,
            None => 8080,
        },
        None => 8080,
    }
}

/// Whether the cache is used: what the variable says if it is `true` or `false`, and yes
/// otherwise.
pub open spec fn cache_enabled_of(value: Option<Seq<char>>) -> bool {
    match value {
        Some(text) => match parse_flag(text) {
            Some(flag) => flag,
            None => true,
        },
        None => true,
    }
}

/// The time to live of a cache entry: what the variable says if it is a number of seconds,
/// and five minutes otherwise.
pub open spec fn cache_ttl_of(value: Option<Seq<char>>) -> u64 {
    match value {
        Some(text) => match parse_unsigned(text, u64::MAX as nat) {
            Some(seconds) => seconds as u64,
            None => 300,
        },
        None => 300,
    }
}

impl Config {
    /// The configuration that the environment asks for. A variable that is not set, or
    /// that cannot be read as what it should be, gives way to its default.
    pub fn from_env(vars: &Environment) -> (config: Config)
        ensures
            config.server.host@ == match vars.host {
                Some(host) => host@,
                None => "0.0.0.0"@,
            },
            config.server.port == port_of(vars.port.deep_view()),
            config.clickhouse.url@ == match vars.clickhouse_url {
                Some(url) => url@,
                None => "http://localhost:8123"@,
            },
            config.clickhouse.database@ == match vars.clickhouse_database {
                Some(database) => database@,
                None => "pivot"@,
            },
            config.redis.url@ == match vars.redis_url {
                Some(url) => url@,
                None => "redis://localhost:6379"@,
            },
            config.cache.enabled == cache_enabled_of(vars.cache_enabled.deep_view()),
            config.cache.ttl_seconds == cache_ttl_of(vars.cache_ttl_seconds.deep_view()),
    {
        let port: u16 = match &vars.port {
            Some(text) => match read_unsigned(text.as_str(), 65535) {
                Some(port) => port as u16,
                None => 8080,
            },
            None => 8080,
        };
        let enabled = match &vars.cache_enabled {
            Some(text) => match read_flag(text.as_str()) {
                Some(flag) => flag,
                None => true,
            },
            None => true,
        };
        let ttl_seconds = match &vars.cache_ttl_seconds {
            Some(text) => match read_unsigned(text.as_str(), u64::MAX) {
                Some(seconds) => seconds,
                None => 300,
            },
            None => 300,
        };
        Config {
            server: ServerConfig { host: text_or(&vars.host, "0.0.0.0"), port },
            clickhouse: ClickHouseConfig {
                url: text_or(&vars.clickhouse_url, "http://localhost:8123"),
                database: text_or(&vars.clickhouse_database, "pivot"),
            },
            redis: RedisConfig { url: text_or(&vars.redis_url, "redis://localhost:6379") },
            cache: CacheConfig { enabled, ttl_seconds },
        }
    }
}

} // verus!

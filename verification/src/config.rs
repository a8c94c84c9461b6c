//! Configuration parsed from environment variable text.
//!
//! The process environment is read outside this crate; the raw values
//! arrive here as optional strings.  Absent values fall back to the
//! documented defaults; present values must parse as decimal numbers,
//! and a value that does not is reported with its variable's name.

use vstd::prelude::*;
use vstd::string::{StrSliceExecFns, StringExecFns};

verus! {

/// Default server port.
pub const DEFAULT_PORT: u16 = 8000;

/// Default database connection string.
pub const DEFAULT_DATABASE_URL: &'static str =
    "host=localhost user=postgres password=postgres dbname=rocketbackend";

/// Default maximum number of pooled connections.
pub const DEFAULT_POOL_MAX_SIZE: usize = 20;

/// Default connection acquisition timeout, in seconds.
pub const DEFAULT_CONNECTION_TIMEOUT_SECS: u64 = 30;

/// Default maximum connection lifetime, in seconds.
pub const DEFAULT_MAX_LIFETIME_SECS: u64 = 1800;

/// Default idle connection timeout, in seconds.
pub const DEFAULT_IDLE_TIMEOUT_SECS: u64 = 600;

/// The raw environment values the configuration is read from, one per
/// variable, absent when the variable is unset.
pub struct EnvVars {
    pub port: Option<String>,
    pub database_url: Option<String>,
    pub db_pool_max_size: Option<String>,
    pub db_pool_connection_timeout: Option<String>,
    pub db_pool_max_lifetime: Option<String>,
    pub db_pool_idle_timeout: Option<String>,
}

/// Connection pool settings; `None` means no limit.
pub struct PoolConfig {
    pub max_size: usize,
    pub connection_timeout_secs: u64,
    pub max_lifetime_secs: Option<u64>,
    pub idle_timeout_secs: Option<u64>,
}

/// Application configuration.
pub struct Config {
    pub port: u16,
    pub database_url: String,
    pub db_pool: PoolConfig,
}

/// A configuration value that should be a number but is not; the
/// payload names the offending variable.
#[derive(Debug)]
pub enum ConfigError {
    InvalidNumber(String),
}

/// Decimal digit.
pub open spec fn is_digit(c: char) -> bool {
    '0' <= c && c <= '9'
}

/// Numeric value of a digit character.
pub open spec fn digit_value(c: char) -> int {
    c as int - 48
}

/// Whether every character of `s` is a digit.
pub open spec fn all_digits(s: Seq<char>) -> bool {
    forall|i: int| 0 <= i < s.len() ==> is_digit(#[trigger] s[i])
}

/// The value of a digit string, most significant digit first.
pub open spec fn digits_value(s: Seq<char>) -> int
    decreases s.len(),
{
    if s.len() == 0 {
        0
    } else {
        digits_value(s.drop_last()) * 10 + digit_value(s.last())
    }
}

/// The digits of a number text: a leading plus sign is not one of them.
pub open spec fn digits_part(s: Seq<char>) -> Seq<char> {
    if s.len() > 0 && s[0] == '+' {
        s.subrange(1, s.len() as int)
    } else {
        s
    }
}

/// Whether `s` is the text of an unsigned decimal number: at least one
/// digit, optionally preceded by a plus sign.
pub open spec fn is_number_text(s: Seq<char>) -> bool {
    digits_part(s).len() > 0 && all_digits(digits_part(s))
}

/// A digit string's value is non-negative.
pub proof fn lemma_digits_value_nonneg(s: Seq<char>)
    requires
        all_digits(s),
    ensures
        digits_value(s) >= 0,
    decreases s.len(),
{
    if s.len() > 0 {
        assert(all_digits(s.drop_last()));
        lemma_digits_value_nonneg(s.drop_last());
    }
}

/// Dropping trailing digits never increases a digit string's value.
pub proof fn lemma_digits_value_take(s: Seq<char>, i: int)
    requires
        all_digits(s),
        0 <= i <= s.len(),
    ensures
        digits_value(s.take(i)) <= digits_value(s),
    decreases s.len() - i,
{
    if i < s.len() {
        assert(s.take(i + 1).drop_last() =~= s.take(i));
        assert(s.take(i + 1).last() == s[i]);
        assert(all_digits(s.take(i)));
        lemma_digits_value_nonneg(s.take(i));
        assert(digits_value(s.take(i)) <= digits_value(s.take(i + 1)));
        lemma_digits_value_take(s, i + 1);
        assert(s.take(s.len() as int) =~= s);
    } else {
        assert(s.take(i) =~= s);
    }
}

/// Parse an unsigned decimal number, accepting an optional leading plus
/// sign; `None` when the text is not a number or its value does not fit.
pub fn parse_u64_str(s: &str) -> (r: Option<u64>)
    ensures
        (r is Some) == (is_number_text(s@) && digits_value(digits_part(s@)) <= u64::MAX),
        r matches Some(v) ==> v == digits_value(digits_part(s@)),
{
    let n = s.unicode_len();
    let start: usize = if n > 0 && s.get_char(0) == '+' {
        1
    } else {
        0
    };
    let ghost dp = digits_part(s@);
    proof {
        assert(dp =~= s@.subrange(start as int, n as int));
    }
    if start >= n {
        return None;
    }
    let mut acc: u64 = 0;
    let mut i: usize = start;
    while i < n
        invariant
            start <= i <= n,
            n == s@.len(),
            start < n,
            dp == digits_part(s@),
            dp =~= s@.subrange(start as int, n as int),
            all_digits(dp.take(i - start)),
            acc == digits_value(dp.take(i - start)),
        decreases n - i,
    {
        let c = s.get_char(i);
        if !(c >= '0' && c <= '9') {
            proof {
                assert(dp[i - start] == s@[i as int]);
                assert(!is_digit(dp[i - start]));
            }
            return None;
        }
        let d = (c as u8) - 48;
        proof {
            assert(dp.take(i - start + 1).drop_last() =~= dp.take(i - start));
            assert(dp.take(i - start + 1).last() == dp[i - start]);
            assert(dp[i - start] == s@[i as int]);
            vstd::arithmetic::div_mod::lemma_fundamental_div_mod(
                (u64::MAX - d) as int,
                10,
            );
        }
        if acc > (u64::MAX - d as u64) / 10 {
            proof {
                assert(digits_value(dp.take(i - start + 1)) > u64::MAX);
                if all_digits(dp) {
                    lemma_digits_value_take(dp, i - start + 1);
                }
            }
            return None;
        }
        acc = acc * 10 + d as u64;
        i += 1;
    }
    proof {
        assert(dp.take(n - start) =~= dp);
    }
    Some(acc)
}

/// The view of an optional borrowed value string.
pub open spec fn opt_val_view(s: Option<&str>) -> Option<Seq<char>> {
    match s {
        Some(t) => Some(t@),
        None => None,
    }
}

/// What an environment value parses to under a default: the default
/// when absent, its numeric value when it is a number that fits the
/// bound, and nothing otherwise.
pub open spec fn spec_parse_env(v: Option<Seq<char>>, default: int, max: int) -> Option<int> {
    match v {
        None => Some(default),
        Some(s) => if is_number_text(s) && digits_value(digits_part(s)) <= max {
            Some(digits_value(digits_part(s)))
        } else {
            None
        },
    }
}

/// Parse an environment value as a `u64`, with a default for an absent
/// value; `None` reports a present value that is not a number.
pub fn parse_u64_env(value: Option<&str>, default: u64) -> (r: Option<u64>)
    ensures
        (r is Some) == (spec_parse_env(opt_val_view(value), default as int, u64::MAX as int)
            is Some),
        r matches Some(v) ==> Some(v as int) == spec_parse_env(
            opt_val_view(value),
            default as int,
            u64::MAX as int,
        ),
{
    match value {
        None => Some(default),
        Some(s) => parse_u64_str(s),
    }
}

/// Parse an environment value as a `u16`, as [`parse_u64_env`] but with
/// the `u16` bound.
pub fn parse_u16_env(value: Option<&str>, default: u16) -> (r: Option<u16>)
    ensures
        (r is Some) == (spec_parse_env(opt_val_view(value), default as int, u16::MAX as int)
            is Some),
        r matches Some(v) ==> Some(v as int) == spec_parse_env(
            opt_val_view(value),
            default as int,
            u16::MAX as int,
        ),
{
    match value {
        None => Some(default),
        Some(s) => {
            match parse_u64_str(s) {
                Some(v) => if v <= u16::MAX as u64 {
                    Some(v as u16)
                } else {
                    None
                },
                None => None,
            }
        },
    }
}

/// Parse an environment value as a `usize`, as [`parse_u64_env`] but
/// with the `usize` bound.
pub fn parse_usize_env(value: Option<&str>, default: usize) -> (r: Option<usize>)
    ensures
        (r is Some) == (spec_parse_env(opt_val_view(value), default as int, usize::MAX as int)
            is Some),
        r matches Some(v) ==> Some(v as int) == spec_parse_env(
            opt_val_view(value),
            default as int,
            usize::MAX as int,
        ),
{
    match value {
        None => Some(default),
        Some(s) => {
            match parse_u64_str(s) {
                Some(v) => if v <= usize::MAX as u64 {
                    Some(v as usize)
                } else {
                    None
                },
                None => None,
            }
        },
    }
}

/// What an optional-duration value resolves to: the default when absent
/// or unparseable, the parsed value otherwise — and a resolved zero
/// means "no limit".
pub open spec fn spec_parse_optional_secs(v: Option<Seq<char>>, default: u64) -> Option<u64> {
    let secs: int = match v {
        None => default as int,
        Some(s) => if is_number_text(s) && digits_value(digits_part(s)) <= u64::MAX {
            digits_value(digits_part(s))
        } else {
            default as int
        },
    };
    if secs == 0 {
        None
    } else {
        Some(secs as u64)
    }
}

/// Parse an optional duration in seconds: an absent or unparseable
/// value falls back to the default, and zero means "no limit".
pub fn parse_optional_secs(value: Option<&str>, default: u64) -> (r: Option<u64>)
    ensures
        r == spec_parse_optional_secs(opt_val_view(value), default),
{
    let secs = match value {
        None => default,
        Some(s) => match parse_u64_str(s) {
            Some(v) => v,
            None => default,
        },
    };
    if secs == 0 {
        None
    } else {
        Some(secs)
    }
}

/// Parse the server port value, with its default.
pub fn parse_port(value: Option<&str>) -> (r: Option<u16>)
    ensures
        (r is Some) == (spec_parse_env(opt_val_view(value), DEFAULT_PORT as int, u16::MAX as int)
            is Some),
        r matches Some(v) ==> Some(v as int) == spec_parse_env(
            opt_val_view(value),
            DEFAULT_PORT as int,
            u16::MAX as int,
        ),
{
    parse_u16_env(value, DEFAULT_PORT)
}

/// The database connection string: the given value, or the default.
pub fn parse_database_url(value: Option<&str>) -> (r: String)
    ensures
        r@ == match opt_val_view(value) {
            Some(s) => s,
            None => DEFAULT_DATABASE_URL@,
        },
{
    match value {
        Some(s) => s.to_owned(),
        None => DEFAULT_DATABASE_URL.to_owned(),
    }
}

impl PoolConfig {
    /// Read the pool settings from the environment values: absent
    /// values fall back to the defaults; an unparseable size or
    /// connection timeout is reported with its variable's name, while
    /// the two optional durations fall back silently.
    pub fn from_env(env: &EnvVars) -> (r: Result<PoolConfig, ConfigError>)
        ensures
            (r is Ok) == (spec_parse_env(
                opt_string_view(&env.db_pool_max_size),
                DEFAULT_POOL_MAX_SIZE as int,
                usize::MAX as int,
            ) is Some && spec_parse_env(
                opt_string_view(&env.db_pool_connection_timeout),
                DEFAULT_CONNECTION_TIMEOUT_SECS as int,
                u64::MAX as int,
            ) is Some),
            r matches Ok(c) ==> {
                &&& Some(c.max_size as int) == spec_parse_env(
                    opt_string_view(&env.db_pool_max_size),
                    DEFAULT_POOL_MAX_SIZE as int,
                    usize::MAX as int,
                )
                &&& Some(c.connection_timeout_secs as int) == spec_parse_env(
                    opt_string_view(&env.db_pool_connection_timeout),
                    DEFAULT_CONNECTION_TIMEOUT_SECS as int,
                    u64::MAX as int,
                )
                &&& c.max_lifetime_secs == spec_parse_optional_secs(
                    opt_string_view(&env.db_pool_max_lifetime),
                    DEFAULT_MAX_LIFETIME_SECS,
                )
                &&& c.idle_timeout_secs == spec_parse_optional_secs(
                    opt_string_view(&env.db_pool_idle_timeout),
                    DEFAULT_IDLE_TIMEOUT_SECS,
                )
            },
            r matches Err(ConfigError::InvalidNumber(k)) ==> (k@ == "DB_POOL_MAX_SIZE"@
                && spec_parse_env(
                opt_string_view(&env.db_pool_max_size),
                DEFAULT_POOL_MAX_SIZE as int,
                usize::MAX as int,
            ) is None) || (k@ == "DB_POOL_CONNECTION_TIMEOUT"@ && spec_parse_env(
                opt_string_view(&env.db_pool_max_size),
                DEFAULT_POOL_MAX_SIZE as int,
                usize::MAX as int,
            ) is Some && spec_parse_env(
                opt_string_view(&env.db_pool_connection_timeout),
                DEFAULT_CONNECTION_TIMEOUT_SECS as int,
                u64::MAX as int,
            ) is None),
    {
        let max_size = match parse_usize_env(opt_as_deref(&env.db_pool_max_size),
            DEFAULT_POOL_MAX_SIZE) {
            Some(v) => v,
            None => {
                return Err(ConfigError::InvalidNumber(String::from_str("DB_POOL_MAX_SIZE")));
            },
        };
        let connection_timeout_secs = match parse_u64_env(
            opt_as_deref(&env.db_pool_connection_timeout),
            DEFAULT_CONNECTION_TIMEOUT_SECS,
        ) {
            Some(v) => v,
            None => {
                return Err(
                    ConfigError::InvalidNumber(String::from_str("DB_POOL_CONNECTION_TIMEOUT")),
                );
            },
        };
        let max_lifetime_secs = parse_optional_secs(
            opt_as_deref(&env.db_pool_max_lifetime),
            DEFAULT_MAX_LIFETIME_SECS,
        );
        let idle_timeout_secs = parse_optional_secs(
            opt_as_deref(&env.db_pool_idle_timeout),
            DEFAULT_IDLE_TIMEOUT_SECS,
        );
        Ok(
            PoolConfig {
                max_size,
                connection_timeout_secs,
                max_lifetime_secs,
                idle_timeout_secs,
            },
        )
    }
}

/// The view of an optional owned value string.
pub open spec fn opt_string_view(s: &Option<String>) -> Option<Seq<char>> {
    match s {
        Some(t) => Some(t@),
        None => None,
    }
}

/// Borrow an optional owned string as an optional slice.
fn opt_as_deref(s: &Option<String>) -> (r: Option<&str>)
    ensures
        opt_val_view(r) == opt_string_view(s),
{
    match s {
        Some(t) => Some(t.as_str()),
        None => None,
    }
}

impl Config {
    /// Read the whole configuration from the environment values; the
    /// first unparseable numeric value is reported with its variable's
    /// name (the port before the pool settings).
    pub fn from_env(env: &EnvVars) -> (r: Result<Config, ConfigError>)
        ensures
            (r is Ok) == (spec_parse_env(
                opt_string_view(&env.port),
                DEFAULT_PORT as int,
                u16::MAX as int,
            ) is Some && spec_parse_env(
                opt_string_view(&env.db_pool_max_size),
                DEFAULT_POOL_MAX_SIZE as int,
                usize::MAX as int,
            ) is Some && spec_parse_env(
                opt_string_view(&env.db_pool_connection_timeout),
                DEFAULT_CONNECTION_TIMEOUT_SECS as int,
                u64::MAX as int,
            ) is Some),
            r matches Ok(c) ==> {
                &&& Some(c.port as int) == spec_parse_env(
                    opt_string_view(&env.port),
                    DEFAULT_PORT as int,
                    u16::MAX as int,
                )
                &&& c.database_url@ == match opt_string_view(&env.database_url) {
                    Some(s) => s,
                    None => DEFAULT_DATABASE_URL@,
                }
                &&& Some(c.db_pool.max_size as int) == spec_parse_env(
                    opt_string_view(&env.db_pool_max_size),
                    DEFAULT_POOL_MAX_SIZE as int,
                    usize::MAX as int,
                )
                &&& Some(c.db_pool.connection_timeout_secs as int) == spec_parse_env(
                    opt_string_view(&env.db_pool_connection_timeout),
                    DEFAULT_CONNECTION_TIMEOUT_SECS as int,
                    u64::MAX as int,
                )
                &&& c.db_pool.max_lifetime_secs == spec_parse_optional_secs(
                    opt_string_view(&env.db_pool_max_lifetime),
                    DEFAULT_MAX_LIFETIME_SECS,
                )
                &&& c.db_pool.idle_timeout_secs == spec_parse_optional_secs(
                    opt_string_view(&env.db_pool_idle_timeout),
                    DEFAULT_IDLE_TIMEOUT_SECS,
                )
            },
            r matches Err(ConfigError::InvalidNumber(k)) ==> (k@ == "PORT"@ && spec_parse_env(
                opt_string_view(&env.port),
                DEFAULT_PORT as int,
                u16::MAX as int,
            ) is None) || (spec_parse_env(
                opt_string_view(&env.port),
                DEFAULT_PORT as int,
                u16::MAX as int,
            ) is Some && (k@ == "DB_POOL_MAX_SIZE"@ || k@ == "DB_POOL_CONNECTION_TIMEOUT"@)),
    {
        let port = match parse_port(opt_as_deref(&env.port)) {
            Some(v) => v,
            None => {
                return Err(ConfigError::InvalidNumber(String::from_str("PORT")));
            },
        };
        let database_url = parse_database_url(opt_as_deref(&env.database_url));
        let db_pool = match PoolConfig::from_env(env) {
            Ok(p) => p,
            Err(e) => {
                return Err(e);
            },
        };
        Ok(Config { port, database_url, db_pool })
    }
}

} // verus!

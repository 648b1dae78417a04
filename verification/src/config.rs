//! Process configuration: the rules that turn the values of the environment
//! into the settings of the service.

use crate::text::{decimal, digit_char};
use vstd::prelude::*;
use vstd::string::*;

verus! {

/// The port of a service whose environment names none that can be read.
pub const DEFAULT_PORT: u16 = 8080;

/// The address that the service binds to.
pub open spec fn default_host() -> Seq<char> {
    "127.0.0.1"@
}

/// Whether `c` is one of the ten ASCII digits.
pub open spec fn is_digit(c: char) -> bool {
    48 <= c as u32 <= 57
}

/// The number that the ASCII digit `c` stands for.
pub open spec fn digit_value(c: char) -> nat {
    (c as u32 - 48) as nat
}

/// Whether `s` is made of ASCII digits alone.
pub open spec fn all_digits(s: Seq<char>) -> bool {
    forall|i: int| 0 <= i < s.len() ==> is_digit(#[trigger] s[i])
}

/// The number that a sequence of ASCII digits writes in base ten.
pub open spec fn digits_value(s: Seq<char>) -> nat
    decreases s.len(),
{
    if s.len() == 0 {
        0
    } else {
        digits_value(s.drop_last()) * 10 + digit_value(s.last())
    }
}

/// `s` without one leading plus sign.
pub open spec fn unsigned_part(s: Seq<char>) -> Seq<char> {
    if s.len() > 0 && s[0] == '+' {
        s.skip(1)
    } else {
        s
    }
}

/// The port that `s` writes: an optional plus sign, then at least one ASCII
/// digit and nothing else, for a number up to 65535.
pub open spec fn parse_port(s: Seq<char>) -> Option<u16> {
    let digits = unsigned_part(s);
    if digits.len() > 0 && all_digits(digits) && digits_value(digits) <= u16::MAX {
        Some(digits_value(digits) as u16)
    } else {
        None
    }
}

/// The port of a service whose environment holds `value` for it.
pub open spec fn port_of(value: Option<Seq<char>>) -> u16 {
    match value {
        Some(s) => match parse_port(s) {
            Some(port) => port,
            None => DEFAULT_PORT,
        },
        None => DEFAULT_PORT,
    }
}

/// A longer sequence of digits never writes a smaller number than its prefix.
proof fn lemma_digits_value_prefix(s: Seq<char>, n: int)
    requires
        0 <= n <= s.len(),
    ensures
        digits_value(s.take(n)) <= digits_value(s),
    decreases s.len(),
{
    if n == s.len() {
        assert(s.take(n) =~= s);
    } else {
        lemma_digits_value_prefix(s.drop_last(), n);
        assert(s.drop_last().take(n) =~= s.take(n));
    }
}

/// The decimal numeral of a number is made of digits, starts with one, and
/// writes that number.
pub proof fn lemma_decimal_writes_its_number(n: nat)
    ensures
        decimal(n).len() > 0,
        all_digits(decimal(n)),
        digits_value(decimal(n)) == n,
    decreases n,
{
    if n < 10 {
        let s = decimal(n);
        assert(s.drop_last() =~= Seq::<char>::empty());
        assert(digits_value(s.drop_last()) == 0);
        assert(s.last() == digit_char(n as int));
    } else {
        lemma_decimal_writes_its_number(n / 10);
        let shorter = decimal(n / 10);
        let s = decimal(n);
        assert(s.drop_last() =~= shorter);
        assert(s.last() == digit_char((n % 10) as int));
        assert forall|i: int| 0 <= i < s.len() implies is_digit(#[trigger] s[i]) by {
            if i < shorter.len() {
                assert(s[i] == shorter[i]);
            }
        }
    }
}

/// A port number is read back from its decimal numeral: what the service
/// prints of a port, it also accepts as the value of `PORT`.
pub proof fn law_port_is_read_from_its_numeral(port: u16)
    ensures
        parse_port(decimal(port as nat)) == Some(port),
        port_of(Some(decimal(port as nat))) == port,
{
    lemma_decimal_writes_its_number(port as nat);
    let s = decimal(port as nat);
    assert(is_digit(s[0]));
    assert(unsigned_part(s) == s);
}

/// Reads a port number out of `s`.
pub fn read_port(s: &str) -> (port: Option<u16>)
    ensures
        port == parse_port(s@),
{
    let len = s.unicode_len();
    if len == 0 {
        return None;
    }
    let start: usize = if s.get_char(0) == '+' {
        1
    } else {
        0
    };
    if start == len {
        return None;
    }
    let ghost digits = unsigned_part(s@);
    assert(digits =~= s@.skip(start as int));
    let mut value: u32 = 0;
    let mut i: usize = start;
    while i < len
        invariant
            start <= i <= len,
            len == s@.len(),
            digits == unsigned_part(s@),
            digits == s@.skip(start as int),
            all_digits(digits.take(i - start)),
            value == digits_value(digits.take(i - start)),
            value <= u16::MAX,
        decreases len - i,
    {
        let c = s.get_char(i);
        let ghost prefix = digits.take(i - start);
        let ghost longer = digits.take(i + 1 - start);
        assert(longer.drop_last() =~= prefix);
        assert(longer.last() == c);
        if !(c >= '0' && c <= '9') {
            assert(!is_digit(digits[i - start]));
            return None;
        }
        let d: u32 = c as u32 - 48;
        value = value * 10 + d;
        assert(value == digits_value(longer));
        assert(all_digits(longer)) by {
            assert forall|k: int| 0 <= k < longer.len() implies is_digit(#[trigger] longer[k]) by {
                if k < prefix.len() {
                    assert(longer[k] == prefix[k]);
                }
            }
        }
        if value > 65535 {
            proof {
                lemma_digits_value_prefix(digits, i + 1 - start);
            }
            return None;
        }
        i = i + 1;
    }
    assert(digits.take(i - start) =~= digits);
    Some(value as u16)
}

/// The settings of the service.
#[derive(Clone, Debug, PartialEq, Eq)]
pub struct Config {
    pub host: String,
    pub port: u16,
    pub database_url: String,
    pub secret: String,
}

/// A setting without which the service does not start.
#[derive(Clone, Copy, Debug, PartialEq, Eq, Structural)]
pub enum ConfigError {
    /// The environment holds no `DATABASE_URL`.
    MissingDatabaseUrl,
    /// The environment holds no `SECRET`.
    MissingSecret,
}

/// The limits of the pool of database connections; times are in seconds.
#[derive(Clone, Copy, Debug, PartialEq, Eq, Structural)]
pub struct PoolSettings {
    pub max_connections: u32,
    pub min_connections: u32,
    pub connect_timeout: u64,
    pub acquire_timeout: u64,
    pub max_lifetime: u64,
    pub log_statements: bool,
}

/// The host to bind to, given the value of `HOST`: the loopback address,
/// whatever the environment holds.
pub fn set_host(value: Option<String>) -> (host: String)
    ensures
        host@ == default_host(),
{
    let fallback = String::from_str("127.0.0.1");
    let host = match value {
        Some(host) => host,
        None => String::from_str("127.0.0.1"),
    };
    if host == fallback {
        host
    } else {
        fallback
    }
}

/// The port to bind to, given the value of `PORT`: the number it writes, or
/// 8080 where it is absent or writes none.
pub fn set_port(value: Option<String>) -> (port: u16)
    ensures
        port == port_of(
            match value {
                Some(s) => Some(s@),
                None => None,
            },
        ),
{
    match value {
        Some(text) => match read_port(text.as_str()) {
            Some(port) => port,
            None => DEFAULT_PORT,
        },
        None => DEFAULT_PORT,
    }
}

/// The database address, given the value of `DATABASE_URL`, which the
/// service cannot do without.
pub fn set_db(value: Option<String>) -> (url: String)
    requires
        value is Some,
    ensures
        url == value->0,
{
    value.unwrap()
}

/// The signing secret, given the value of `SECRET`, which the service cannot
/// do without.
pub fn set_secret(value: Option<String>) -> (secret: String)
    requires
        value is Some,
    ensures
        secret == value->0,
{
    value.unwrap()
}

/// The address to bind to.
pub fn get_address(config: &Config) -> (address: (String, u16))
    ensures
        address.0@ == config.host@,
        address.1 == config.port,
{
    (config.host.clone(), config.port)
}

/// The signing secret.
pub fn get_secret(config: &Config) -> (secret: String)
    ensures
        secret@ == config.secret@,
{
    config.secret.clone()
}

/// The limits under which the service keeps its database connections.
pub fn pool_settings() -> (settings: PoolSettings)
    ensures
        settings == (PoolSettings {
            max_connections: 100,
            min_connections: 5,
            connect_timeout: 8,
            acquire_timeout: 8,
            max_lifetime: 8,
            log_statements: true,
        }),
{
    PoolSettings {
        max_connections: 100,
        min_connections: 5,
        connect_timeout: 8,
        acquire_timeout: 8,
        max_lifetime: 8,
        log_statements: true,
    }
}

impl Config {
    /// The settings that the values of `HOST`, `PORT`, `DATABASE_URL` and
    /// `SECRET` amount to. The database address is asked for first.
    pub fn from_values(
        host: Option<String>,
        port: Option<String>,
        database_url: Option<String>,
        secret: Option<String>,
    ) -> (r: Result<Config, ConfigError>)
        ensures
            match r {
                Ok(config) => {
                    &&& database_url is Some
                    &&& secret is Some
                    &&& config.host@ == default_host()
                    &&& config.port == port_of(
                        match port {
                            Some(s) => Some(s@),
                            None => None,
                        },
                    )
                    &&& config.database_url == database_url->0
                    &&& config.secret == secret->0
                },
                Err(ConfigError::MissingDatabaseUrl) => database_url is None,
                Err(ConfigError::MissingSecret) => database_url is Some && secret is None,
            },
    {
        if database_url.is_none() {
            return Err(ConfigError::MissingDatabaseUrl);
        }
        if secret.is_none() {
            return Err(ConfigError::MissingSecret);
        }
        Ok(
            Config {
                host: set_host(host),
                port: set_port(port),
                database_url: set_db(database_url),
                secret: set_secret(secret),
            },
        )
    }
}

} // verus!

//! Process configuration and how it is reported.
use vstd::prelude::*;

use crate::text::{find_last, opt_text};

verus! {

/// Pool size when none is configured.
pub const DEFAULT_DB_POOL_MAX: u32 = 5;

/// Page cap when none is configured.
pub const DEFAULT_API_MAX_PAGES: u32 = 100;

/// Stands in for the password of a connection string in reports.
pub const PASSWORD_MASK: &'static str = ":****";

/// Report lines, each completed by a value.
pub const REPORT_HEADING: &'static str = "Configuration loaded:";

pub const REPORT_DB_URL: &'static str = "  DATABASE_URL   : ";

pub const REPORT_API_URL: &'static str = "  SENSOR_API_URL : ";

pub const REPORT_POOL_MAX: &'static str = "  DB_POOL_MAX    : ";

pub const REPORT_MAX_PAGES: &'static str = "  API_MAX_PAGES  : ";

/// Application configuration, fixed once loaded.
#[derive(Debug, Clone)]
pub struct Config {
    /// PostgreSQL connection string.
    pub db_url: String,
    /// Maximum number of pooled database connections.
    pub db_pool_max: u32,
    /// Base URL of the upstream sensor API.
    pub api_url: String,
    /// Maximum number of upstream pages fetched in one pass.
    pub api_max_pages: u32,
}

pub struct ConfigView {
    pub db_url: Seq<char>,
    pub db_pool_max: u32,
    pub api_url: Seq<char>,
    pub api_max_pages: u32,
}

impl View for Config {
    type V = ConfigView;

    open spec fn view(&self) -> ConfigView {
        ConfigView {
            db_url: self.db_url@,
            db_pool_max: self.db_pool_max,
            api_url: self.api_url@,
            api_max_pages: self.api_max_pages,
        }
    }
}

/// The configuration variables.
#[derive(Debug, Clone, Copy, PartialEq, Eq)]
pub enum ConfigVar {
    DatabaseUrl,
    SensorApiUrl,
    DbPoolMax,
    ApiMaxPages,
}

impl ConfigVar {
    /// The environment variable's name.
    pub fn name(&self) -> (r: &'static str)
        ensures
            r@ == var_name(*self),
    {
        match self {
            ConfigVar::DatabaseUrl => "DATABASE_URL",
            ConfigVar::SensorApiUrl => "SENSOR_API_URL",
            ConfigVar::DbPoolMax => "DB_POOL_MAX",
            ConfigVar::ApiMaxPages => "API_MAX_PAGES",
        }
    }
}

pub open spec fn var_name(v: ConfigVar) -> Seq<char> {
    match v {
        ConfigVar::DatabaseUrl => "DATABASE_URL"@,
        ConfigVar::SensorApiUrl => "SENSOR_API_URL"@,
        ConfigVar::DbPoolMax => "DB_POOL_MAX"@,
        ConfigVar::ApiMaxPages => "API_MAX_PAGES"@,
    }
}

/// Why the configuration could not be loaded.
#[derive(Debug, Clone, Copy, PartialEq, Eq)]
pub enum ConfigError {
    /// A required variable is not set.
    Missing(ConfigVar),
    /// A numeric variable is not a decimal `u32`.
    Invalid(ConfigVar),
}

pub open spec fn is_digit(c: char) -> bool {
    '0' <= c && c <= '9'
}

/// Value of a string of decimal digits.
pub open spec fn digits_value(s: Seq<char>) -> int
    decreases s.len(),
{
    if s.len() == 0 {
        0
    } else {
        digits_value(s.drop_last()) * 10 + (s.last() as int - '0' as int)
    }
}

/// The digits of a number text: what follows an optional leading `+`.
pub open spec fn unsigned_digits(s: Seq<char>) -> Seq<char> {
    if s.len() > 0 && s[0] == '+' {
        s.subrange(1, s.len() as int)
    } else {
        s
    }
}

/// A `u32` written in decimal: an optional `+`, then one or more digits, no
/// larger than `u32::MAX`.
pub open spec fn decimal_u32(s: Seq<char>) -> Option<u32> {
    let d = unsigned_digits(s);
    if d.len() > 0 && (forall|i: int| 0 <= i < d.len() ==> is_digit(#[trigger] d[i]))
        && digits_value(d) <= u32::MAX {
        Some(digits_value(d) as u32)
    } else {
        None
    }
}

proof fn lemma_digits_value_grows(d: Seq<char>, i: int, j: int)
    requires
        0 <= i <= j <= d.len(),
        forall|k: int| 0 <= k < d.len() ==> is_digit(#[trigger] d[k]),
    ensures
        0 <= digits_value(d.subrange(0, i)) <= digits_value(d.subrange(0, j)),
    decreases j,
{
    if j > i {
        lemma_digits_value_grows(d, i, j - 1);
        assert(d.subrange(0, j).drop_last() =~= d.subrange(0, j - 1));
        assert(is_digit(d[j - 1]));
    } else {
        lemma_digits_value_nonneg(d, i);
    }
}

proof fn lemma_digits_value_nonneg(d: Seq<char>, i: int)
    requires
        0 <= i <= d.len(),
        forall|k: int| 0 <= k < d.len() ==> is_digit(#[trigger] d[k]),
    ensures
        0 <= digits_value(d.subrange(0, i)),
    decreases i,
{
    if i > 0 {
        lemma_digits_value_nonneg(d, i - 1);
        assert(d.subrange(0, i).drop_last() =~= d.subrange(0, i - 1));
        assert(is_digit(d[i - 1]));
    }
}

/// Reads a decimal `u32`, as `str::parse::<u32>` does.
pub fn parse_u32(s: &str) -> (r: Option<u32>)
    ensures
        r == decimal_u32(s@),
{
    let n = s.unicode_len();
    let start: usize = if n > 0 && s.get_char(0) == '+' {
        1
    } else {
        0
    };
    let ghost d = unsigned_digits(s@);
    assert(d =~= s@.subrange(start as int, n as int));
    if start == n {
        return None;
    }
    let mut i: usize = start;
    while i < n
        invariant
            n == s@.len(),
            start <= i <= n,
            d == unsigned_digits(s@),
            d =~= s@.subrange(start as int, n as int),
            forall|k: int| start <= k < i ==> is_digit(#[trigger] s@[k]),
        decreases n - i,
    {
        let c = s.get_char(i);
        if !('0' <= c && c <= '9') {
            assert(!is_digit(d[i - start]));
            return None;
        }
        i = i + 1;
    }
    assert(forall|k: int| 0 <= k < d.len() ==> is_digit(#[trigger] d[k])) by {
        assert forall|k: int| 0 <= k < d.len() implies is_digit(#[trigger] d[k]) by {
            assert(d[k] == s@[start + k]);
        }
    }
    let mut value: u32 = 0;
    let mut j: usize = start;
    assert(d.subrange(0, 0) =~= Seq::<char>::empty());
    while j < n
        invariant
            n == s@.len(),
            start <= j <= n,
            d == unsigned_digits(s@),
            d =~= s@.subrange(start as int, n as int),
            forall|k: int| 0 <= k < d.len() ==> is_digit(#[trigger] d[k]),
            value as int == digits_value(d.subrange(0, j - start)),
        decreases n - j,
    {
        let c = s.get_char(j);
        assert(c == d[j - start]);
        assert(is_digit(c));
        let digit: u32 = (c as u32) - ('0' as u32);
        assert(d.subrange(0, j + 1 - start).drop_last() =~= d.subrange(0, j - start));
        if value > (u32::MAX - digit) / 10 {
            proof {
                assert(value * 10 + digit > u32::MAX) by (nonlinear_arith)
                    requires
                        value > (u32::MAX - digit) / 10,
                        digit <= 9,
                ;
                lemma_digits_value_grows(d, j + 1 - start, d.len() as int);
                assert(d.subrange(0, d.len() as int) =~= d);
            }
            return None;
        }
        proof {
            assert(value * 10 + digit <= u32::MAX) by (nonlinear_arith)
                requires
                    value <= (u32::MAX - digit) / 10,
                    digit <= 9,
            ;
        }
        value = value * 10 + digit;
        j = j + 1;
    }
    assert(d.subrange(0, d.len() as int) =~= d);
    Some(value)
}

/// A numeric setting: its default when unset, else its decimal value (`None`: invalid).
pub open spec fn number_or(v: Option<Seq<char>>, default: u32) -> Option<u32> {
    match v {
        Some(t) => decimal_u32(t),
        None => Some(default),
    }
}

/// The configuration that the variables' values give, or the first problem.
pub open spec fn config_of(
    database_url: Option<Seq<char>>,
    sensor_api_url: Option<Seq<char>>,
    db_pool_max: Option<Seq<char>>,
    api_max_pages: Option<Seq<char>>,
) -> Result<ConfigView, ConfigError> {
    match (database_url, sensor_api_url) {
        (None, _) => Err(ConfigError::Missing(ConfigVar::DatabaseUrl)),
        (Some(_), None) => Err(ConfigError::Missing(ConfigVar::SensorApiUrl)),
        (Some(db), Some(api)) => match number_or(db_pool_max, DEFAULT_DB_POOL_MAX) {
            None => Err(ConfigError::Invalid(ConfigVar::DbPoolMax)),
            Some(pool) => match number_or(api_max_pages, DEFAULT_API_MAX_PAGES) {
                None => Err(ConfigError::Invalid(ConfigVar::ApiMaxPages)),
                Some(pages) => Ok(
                    ConfigView { db_url: db, db_pool_max: pool, api_url: api, api_max_pages: pages },
                ),
            },
        },
    }
}

pub open spec fn config_result_view(r: Result<Config, ConfigError>) -> Result<ConfigView, ConfigError> {
    match r {
        Ok(c) => Ok(c@),
        Err(e) => Err(e),
    }
}

/// Loads the configuration from the values of its variables (`None`: unset).
/// The connection string and the API URL are required; the pool size and the
/// page cap default to 5 and 100 and must otherwise be decimal `u32`s. The
/// first problem, in that order, is the error.
pub fn load_from_env(
    database_url: Option<String>,
    sensor_api_url: Option<String>,
    db_pool_max: Option<String>,
    api_max_pages: Option<String>,
) -> (r: Result<Config, ConfigError>)
    ensures
        config_result_view(r) == config_of(
            opt_text(database_url),
            opt_text(sensor_api_url),
            opt_text(db_pool_max),
            opt_text(api_max_pages),
        ),
{
    let db_url = match database_url {
        Some(u) => u,
        None => return Err(ConfigError::Missing(ConfigVar::DatabaseUrl)),
    };
    let api_url = match sensor_api_url {
        Some(u) => u,
        None => return Err(ConfigError::Missing(ConfigVar::SensorApiUrl)),
    };
    let db_pool_max = match db_pool_max {
        Some(v) => match parse_u32(v.as_str()) {
            Some(n) => n,
            None => return Err(ConfigError::Invalid(ConfigVar::DbPoolMax)),
        },
        None => DEFAULT_DB_POOL_MAX,
    };
    let api_max_pages = match api_max_pages {
        Some(v) => match parse_u32(v.as_str()) {
            Some(n) => n,
            None => return Err(ConfigError::Invalid(ConfigVar::ApiMaxPages)),
        },
        None => DEFAULT_API_MAX_PAGES,
    };
    Ok(Config { db_url, db_pool_max, api_url, api_max_pages })
}

/// A connection string with its password hidden: the text between the last
/// `:` before the last `@` and that `@` becomes `****`. Without such a pair
/// the string is kept as it is.
pub open spec fn masked_db_url(s: Seq<char>) -> Seq<char> {
    match s.index_of_last('@') {
        Some(at) => match s.subrange(0, at).index_of_last(':') {
            Some(colon) => s.subrange(0, colon) + PASSWORD_MASK@ + s.subrange(at, s.len() as int),
            None => s,
        },
        None => s,
    }
}

/// Hides the password of a connection string.
pub fn mask_db_url(url: &str) -> (r: String)
    ensures
        r@ == masked_db_url(url@),
{
    match find_last(url, '@') {
        Some(at) => {
            let head = url.substring_char(0, at);
            match find_last(head, ':') {
                Some(colon) => {
                    let n = url.unicode_len();
                    String::from_str(url.substring_char(0, colon)).concat(PASSWORD_MASK).concat(
                        url.substring_char(at, n),
                    )
                },
                None => String::from_str(url),
            }
        },
        None => String::from_str(url),
    }
}

/// The character of a decimal digit.
pub open spec fn digit_char(d: nat) -> char {
    seq!['0', '1', '2', '3', '4', '5', '6', '7', '8', '9'][d as int]
}

/// Decimal text of a number, without sign or leading zeros.
pub open spec fn decimal_text(n: nat) -> Seq<char>
    decreases n,
{
    if n < 10 {
        seq![digit_char(n)]
    } else {
        decimal_text(n / 10) + seq![digit_char(n % 10)]
    }
}

/// Relies on `u32`'s `Display` (through `ToString`): the number in decimal
/// digits, without sign or leading zeros.
#[verifier::external_body]
fn decimal_string(n: u32) -> (r: String)
    ensures
        r@ == decimal_text(n as nat),
{
    n.to_string()
}

/// The lines that report a configuration, with the password hidden.
pub open spec fn config_lines(c: ConfigView) -> Seq<Seq<char>> {
    seq![
        REPORT_HEADING@,
        REPORT_DB_URL@ + masked_db_url(c.db_url),
        REPORT_API_URL@ + c.api_url,
        REPORT_POOL_MAX@ + decimal_text(c.db_pool_max as nat),
        REPORT_MAX_PAGES@ + decimal_text(c.api_max_pages as nat),
    ]
}

pub open spec fn lines_view(v: Seq<String>) -> Seq<Seq<char>> {
    v.map_values(|l: String| l@)
}

impl Config {
    /// The lines to log for this configuration; the database password is masked.
    pub fn log_config(&self) -> (r: Vec<String>)
        ensures
            lines_view(r@) == config_lines(self@),
    {
        let mut lines: Vec<String> = Vec::new();
        lines.push(String::from_str(REPORT_HEADING));
        lines.push(String::from_str(REPORT_DB_URL).concat(mask_db_url(self.db_url.as_str()).as_str()));
        lines.push(String::from_str(REPORT_API_URL).concat(self.api_url.as_str()));
        lines.push(String::from_str(REPORT_POOL_MAX).concat(decimal_string(self.db_pool_max).as_str()));
        lines.push(
            String::from_str(REPORT_MAX_PAGES).concat(decimal_string(self.api_max_pages).as_str()),
        );
        assert(lines_view(lines@) =~= config_lines(self@));
        lines
    }
}

} // verus!

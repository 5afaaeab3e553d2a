//! Process configuration, read from the variables of the environment.

use vstd::prelude::*;
use crate::text::{parse_u64, parsed_u64, str_eq};

verus! {

/// What the pipeline is configured with.
#[derive(Debug)]
pub struct AppConfig {
    pub database_url: String,
    pub nasa_url: String,
    pub nasa_key: String,
    pub where_iss_url: String,
    /// Seconds between two catalog syncs.
    pub every_osdr: u64,
    /// Seconds between two position fetches.
    pub every_iss: u64,
    pub every_apod: u64,
    pub every_neo: u64,
    pub every_donki: u64,
    pub every_spacex: u64,
    /// The timeout of one outbound request, in whole seconds.
    pub http_timeout: u64,
    pub http_user_agent: String,
    pub db_max_connections: u32,
    pub osdr_list_limit: i64,
    pub trend_limit_default: i64,
}

impl Clone for AppConfig {
    fn clone(&self) -> (copy: Self)
        ensures
            copy == *self,
    {
        AppConfig {
            database_url: self.database_url.clone(),
            nasa_url: self.nasa_url.clone(),
            nasa_key: self.nasa_key.clone(),
            where_iss_url: self.where_iss_url.clone(),
            every_osdr: self.every_osdr,
            every_iss: self.every_iss,
            every_apod: self.every_apod,
            every_neo: self.every_neo,
            every_donki: self.every_donki,
            every_spacex: self.every_spacex,
            http_timeout: self.http_timeout,
            http_user_agent: self.http_user_agent.clone(),
            db_max_connections: self.db_max_connections,
            osdr_list_limit: self.osdr_list_limit,
            trend_limit_default: self.trend_limit_default,
        }
    }
}

/// Why no configuration could be made.
#[derive(Clone, Copy, Debug, PartialEq, Eq, Structural)]
pub enum ConfigError {
    /// `DATABASE_URL` is not set.
    MissingDatabaseUrl,
}

impl ConfigError {
    /// The message of the error.
    pub fn message(&self) -> (text: &'static str)
        ensures
            text@ == "DATABASE_URL is required"@,
    {
        "DATABASE_URL is required"
    }
}

/// The variables as pairs of texts.
pub open spec fn var_texts(vars: Seq<(String, String)>) -> Seq<(Seq<char>, Seq<char>)> {
    Seq::new(vars.len(), |i: int| (vars[i].0@, vars[i].1@))
}

/// The index of the first variable at or after `from` that is named `key`,
/// or the number of variables where there is none.
pub open spec fn first_var(vars: Seq<(Seq<char>, Seq<char>)>, key: Seq<char>, from: int) -> int
    decreases vars.len() - from,
{
    if from < 0 || from >= vars.len() {
        vars.len() as int
    } else if vars[from].0 == key {
        from
    } else {
        first_var(vars, key, from + 1)
    }
}

/// The value of the variable `key`: that of the first variable so named.
pub open spec fn var_value(vars: Seq<(Seq<char>, Seq<char>)>, key: Seq<char>) -> Option<Seq<char>> {
    let at = first_var(vars, key, 0);
    if at < vars.len() {
        Some(vars[at].1)
    } else {
        None
    }
}

/// A text setting: the variable's value, or `default` where it is not set.
pub open spec fn text_setting(vars: Seq<(Seq<char>, Seq<char>)>, key: Seq<char>, default: Seq<char>) -> Seq<
    char,
> {
    match var_value(vars, key) {
        Some(value) => value,
        None => default,
    }
}

/// A number setting: the number that the variable's value writes, or
/// `default` where it is not set or writes none.
pub open spec fn number_setting(vars: Seq<(Seq<char>, Seq<char>)>, key: Seq<char>, default: u64) -> u64 {
    match var_value(vars, key) {
        Some(value) => match parsed_u64(value) {
            Some(n) => n,
            None => default,
        },
        None => default,
    }
}

/// The value of the variable `key`.
fn env_var<'a>(vars: &'a Vec<(String, String)>, key: &str) -> (value: Option<&'a String>)
    ensures
        match value {
            Some(v) => var_value(var_texts(vars@), key@) == Some(v@),
            None => var_value(var_texts(vars@), key@) is None,
        },
{
    let mut i: usize = 0;
    while i < vars.len()
        invariant
            i <= vars.len(),
            first_var(var_texts(vars@), key@, 0) == first_var(var_texts(vars@), key@, i as int),
        decreases vars.len() - i,
    {
        if str_eq(vars[i].0.as_str(), key) {
            return Some(&vars[i].1);
        }
        i += 1;
    }
    None
}

/// The text setting `key`.
fn env_str(vars: &Vec<(String, String)>, key: &str, default: &str) -> (value: String)
    ensures
        value@ == text_setting(var_texts(vars@), key@, default@),
{
    match env_var(vars, key) {
        Some(v) => v.clone(),
        None => default.to_owned(),
    }
}

/// The number setting `key`.
fn env_u64(vars: &Vec<(String, String)>, key: &str, default: u64) -> (value: u64)
    ensures
        value == number_setting(var_texts(vars@), key@, default),
{
    match env_var(vars, key) {
        Some(v) => match parse_u64(v.as_str()) {
            Some(n) => n,
            None => default,
        },
        None => default,
    }
}

impl AppConfig {
    /// Whether `self` is the configuration that `vars` describe: every
    /// setting taken from its variable, or from its default where the
    /// variable is not set (for a number: or writes none).
    pub open spec fn describes(&self, vars: Seq<(Seq<char>, Seq<char>)>) -> bool {
        &&& var_value(vars, "DATABASE_URL"@) == Some(self.database_url@)
        &&& self.nasa_url@ == text_setting(
            vars,
            "NASA_API_URL"@,
            "https://visualization.osdr.nasa.gov/biodata/api/v2/datasets/?format=json"@,
        )
        &&& self.nasa_key@ == text_setting(vars, "NASA_API_KEY"@, ""@)
        &&& self.where_iss_url@ == text_setting(
            vars,
            "WHERE_ISS_URL"@,
            "https://api.wheretheiss.at/v1/satellites/25544"@,
        )
        &&& self.http_timeout == number_setting(vars, "HTTP_TIMEOUT_SECONDS"@, 20)
        &&& self.http_user_agent@ == text_setting(
            vars,
            "HTTP_USER_AGENT"@,
            "rust_iss/1.0 (+github.com/cursor)"@,
        )
        &&& self.db_max_connections as int == number_setting(vars, "DB_MAX_CONNECTIONS"@, 8)
            % 0x1_0000_0000
        &&& self.every_osdr == number_setting(vars, "FETCH_EVERY_SECONDS"@, 600)
        &&& self.every_iss == number_setting(vars, "ISS_EVERY_SECONDS"@, 120)
        &&& self.every_apod == number_setting(vars, "APOD_EVERY_SECONDS"@, 43_200)
        &&& self.every_neo == number_setting(vars, "NEO_EVERY_SECONDS"@, 7_200)
        &&& self.every_donki == number_setting(vars, "DONKI_EVERY_SECONDS"@, 3_600)
        &&& self.every_spacex == number_setting(vars, "SPACEX_EVERY_SECONDS"@, 3_600)
        &&& self.osdr_list_limit == wrapped_i64(number_setting(vars, "OSDR_LIST_LIMIT"@, 20))
        &&& self.trend_limit_default == wrapped_i64(number_setting(vars, "TREND_LIMIT"@, 240))
    }

    /// Makes the configuration from the variables of the environment, given
    /// as pairs of name and value. Only `DATABASE_URL` must be set.
    pub fn from_env(vars: &Vec<(String, String)>) -> (made: Result<AppConfig, ConfigError>)
        ensures
            match made {
                Ok(cfg) => cfg.describes(var_texts(vars@)),
                Err(e) => e == ConfigError::MissingDatabaseUrl && var_value(
                    var_texts(vars@),
                    "DATABASE_URL"@,
                ) is None,
            },
    {
        let database_url = match env_var(vars, "DATABASE_URL") {
            Some(url) => url.clone(),
            None => {
                return Err(ConfigError::MissingDatabaseUrl);
            },
        };
        let nasa_url = env_str(
            vars,
            "NASA_API_URL",
            "https://visualization.osdr.nasa.gov/biodata/api/v2/datasets/?format=json",
        );
        let nasa_key = env_str(vars, "NASA_API_KEY", "");
        let where_iss_url = env_str(
            vars,
            "WHERE_ISS_URL",
            "https://api.wheretheiss.at/v1/satellites/25544",
        );
        let http_timeout = env_u64(vars, "HTTP_TIMEOUT_SECONDS", 20);
        let http_user_agent = env_str(vars, "HTTP_USER_AGENT", "rust_iss/1.0 (+github.com/cursor)");
        let db_max_connections = low_u32(env_u64(vars, "DB_MAX_CONNECTIONS", 8));
        Ok(
            AppConfig {
                database_url,
                nasa_url,
                nasa_key,
                where_iss_url,
                db_max_connections,
                every_osdr: env_u64(vars, "FETCH_EVERY_SECONDS", 600),
                every_iss: env_u64(vars, "ISS_EVERY_SECONDS", 120),
                every_apod: env_u64(vars, "APOD_EVERY_SECONDS", 43_200),
                every_neo: env_u64(vars, "NEO_EVERY_SECONDS", 7_200),
                every_donki: env_u64(vars, "DONKI_EVERY_SECONDS", 3_600),
                every_spacex: env_u64(vars, "SPACEX_EVERY_SECONDS", 3_600),
                osdr_list_limit: as_wrapped_i64(env_u64(vars, "OSDR_LIST_LIMIT", 20)),
                trend_limit_default: as_wrapped_i64(env_u64(vars, "TREND_LIMIT", 240)),
                http_timeout,
                http_user_agent,
            },
        )
    }
}

/// `n` read as a signed number of the same 64 bits.
pub open spec fn wrapped_i64(n: u64) -> i64 {
    if n <= i64::MAX {
        n as i64
    } else {
        (n - 0x1_0000_0000_0000_0000) as i64
    }
}

/// The low 32 bits of `n`.
fn low_u32(n: u64) -> (low: u32)
    ensures
        low as int == n % 0x1_0000_0000,
{
    (n % 0x1_0000_0000) as u32
}

/// `n` read as a signed number of the same 64 bits.
fn as_wrapped_i64(n: u64) -> (signed: i64)
    ensures
        signed == wrapped_i64(n),
{
    if n <= 9223372036854775807u64 {
        n as i64
    } else {
        let below: u64 = n - 9223372036854775808u64;
        (below as i64) + i64::MIN
    }
}

} // verus!

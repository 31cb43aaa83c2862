//! The service configuration: read from YAML text, it gives the document
//! store's connection string and the shared API secret.
use vstd::prelude::*;

verus! {

/// What `yaml_rust` finds as a string under `key` in the first document of `text`.
pub uninterp spec fn yaml_text_entry(text: Seq<char>, key: Seq<char>) -> Option<Seq<char>>;

/// What `yaml_rust` finds as an integer under `key` in the first document of `text`.
pub uninterp spec fn yaml_integer_entry(text: Seq<char>, key: Seq<char>) -> Option<i64>;

/// Relies on `yaml_rust::YamlLoader::load_from_str`, indexing a `Yaml` by a key
/// and `Yaml::as_str`: the string entry `key` of the first document, if the text
/// parses and holds one. Depends on the two arguments alone.
#[verifier::external_body]
fn yaml_text(text: &str, key: &str) -> (r: Option<String>)
    ensures
        match r {
            Some(s) => yaml_text_entry(text@, key@) == Some(s@),
            None => yaml_text_entry(text@, key@) is None,
        },
{
    let docs = yaml_rust::YamlLoader::load_from_str(text).ok()?;
    docs.first()?[key].as_str().map(|s| s.to_string())
}

/// Relies on `yaml_rust::YamlLoader::load_from_str`, indexing a `Yaml` by a key
/// and `Yaml::as_i64`: the integer entry `key` of the first document, if the
/// text parses and holds one. Depends on the two arguments alone.
#[verifier::external_body]
fn yaml_integer(text: &str, key: &str) -> (r: Option<i64>)
    ensures
        r == yaml_integer_entry(text@, key@),
{
    let docs = yaml_rust::YamlLoader::load_from_str(text).ok()?;
    docs.first()?[key].as_i64()
}

/// The entries that the configuration must hold.
#[derive(Clone, Copy, Debug, PartialEq, Eq, Structural)]
pub enum ConfigKey {
    Username,
    Password,
    Host,
    DbPort,
    ApiPassword,
}

/// A configuration that cannot be used: the first required entry, in the
/// order username, password, host, dbport, api_password, that is missing or
/// of the wrong kind (or the text is not YAML at all, in which case it is the
/// username).
#[derive(Clone, Copy, Debug, PartialEq, Eq, Structural)]
pub enum ConfigError {
    Missing(ConfigKey),
}

/// The loaded configuration.
#[derive(Debug)]
pub struct Config {
    pub username: String,
    pub password: String,
    pub host: String,
    pub dbport: i64,
    pub api_password: String,
}

/// The outcome of loading `text` as a configuration.
pub open spec fn config_of(text: Seq<char>) -> Result<
    (Seq<char>, Seq<char>, Seq<char>, i64, Seq<char>),
    ConfigError,
> {
    let u = yaml_text_entry(text, "username"@);
    let p = yaml_text_entry(text, "password"@);
    let h = yaml_text_entry(text, "host"@);
    let d = yaml_integer_entry(text, "dbport"@);
    let a = yaml_text_entry(text, "api_password"@);
    if u is None {
        Err(ConfigError::Missing(ConfigKey::Username))
    } else if p is None {
        Err(ConfigError::Missing(ConfigKey::Password))
    } else if h is None {
        Err(ConfigError::Missing(ConfigKey::Host))
    } else if d is None {
        Err(ConfigError::Missing(ConfigKey::DbPort))
    } else if a is None {
        Err(ConfigError::Missing(ConfigKey::ApiPassword))
    } else {
        Ok((u->0, p->0, h->0, d->0, a->0))
    }
}

impl Config {
    pub open spec fn view_tuple(&self) -> (Seq<char>, Seq<char>, Seq<char>, i64, Seq<char>) {
        (self.username@, self.password@, self.host@, self.dbport, self.api_password@)
    }
}

/// Reads the configuration from YAML text: `username`, `password`, `host`
/// and `api_password` as strings, `dbport` as an integer, from the first
/// document.
pub fn load_config(text: &str) -> (r: Result<Config, ConfigError>)
    ensures
        match r {
            Ok(c) => config_of(text@) == Ok::<_, ConfigError>(c.view_tuple()),
            Err(e) => config_of(text@) == Err::<
                (Seq<char>, Seq<char>, Seq<char>, i64, Seq<char>),
                ConfigError,
            >(e),
        },
{
    let username = match yaml_text(text, "username") {
        Some(s) => s,
        None => return Err(ConfigError::Missing(ConfigKey::Username)),
    };
    let password = match yaml_text(text, "password") {
        Some(s) => s,
        None => return Err(ConfigError::Missing(ConfigKey::Password)),
    };
    let host = match yaml_text(text, "host") {
        Some(s) => s,
        None => return Err(ConfigError::Missing(ConfigKey::Host)),
    };
    let dbport = match yaml_integer(text, "dbport") {
        Some(n) => n,
        None => return Err(ConfigError::Missing(ConfigKey::DbPort)),
    };
    let api_password = match yaml_text(text, "api_password") {
        Some(s) => s,
        None => return Err(ConfigError::Missing(ConfigKey::ApiPassword)),
    };
    Ok(Config { username, password, host, dbport, api_password })
}

/// The decimal digit for `d < 10`.
pub open spec fn digit_char(d: nat) -> char {
    if d == 0 { '0' } else if d == 1 { '1' } else if d == 2 { '2' } else if d == 3 { '3' }
    else if d == 4 { '4' } else if d == 5 { '5' } else if d == 6 { '6' } else if d == 7 { '7' }
    else if d == 8 { '8' } else { '9' }
}

/// The decimal digits of `n`, without leading zeros.
pub open spec fn digits(n: nat) -> Seq<char>
    decreases n,
{
    if n < 10 {
        seq![digit_char(n)]
    } else {
        digits(n / 10).push(digit_char(n % 10))
    }
}

/// `n` written in decimal, with a leading `-` when negative.
pub open spec fn decimal(n: int) -> Seq<char> {
    if n < 0 {
        seq!['-'] + digits((-n) as nat)
    } else {
        digits(n as nat)
    }
}

fn digit_str(d: u64) -> (r: &'static str)
    requires
        d < 10,
    ensures
        r@ == seq![digit_char(d as nat)],
{
    proof {
        reveal_strlit("0");
        reveal_strlit("1");
        reveal_strlit("2");
        reveal_strlit("3");
        reveal_strlit("4");
        reveal_strlit("5");
        reveal_strlit("6");
        reveal_strlit("7");
        reveal_strlit("8");
        reveal_strlit("9");
    }
    if d == 0 { "0" } else if d == 1 { "1" } else if d == 2 { "2" } else if d == 3 { "3" }
    else if d == 4 { "4" } else if d == 5 { "5" } else if d == 6 { "6" } else if d == 7 { "7" }
    else if d == 8 { "8" } else { "9" }
}

fn push_digits(out: &mut String, n: u64)
    ensures
        final(out)@ == old(out)@ + digits(n as nat),
    decreases n,
{
    if n >= 10 {
        push_digits(out, n / 10);
    }
    out.append(digit_str(n % 10));
    proof {
        assert(old(out)@ + digits(n as nat) =~= final(out)@);
    }
}

/// Appends `n` in decimal to `out`.
pub fn push_decimal(out: &mut String, n: i64)
    ensures
        final(out)@ == old(out)@ + decimal(n as int),
{
    if n < 0 {
        out.append("-");
        proof {
            reveal_strlit("-");
        }
        let magnitude: u64 = ((-(n + 1)) as u64) + 1;
        push_digits(out, magnitude);
        proof {
            assert(final(out)@ =~= old(out)@ + decimal(n as int));
        }
    } else {
        push_digits(out, n as u64);
    }
}

/// The document store's connection string:
/// `mongodb://<username>:<password>@<host>:<dbport>`.
pub open spec fn connection_uri(c: (Seq<char>, Seq<char>, Seq<char>, i64, Seq<char>)) -> Seq<char> {
    "mongodb://"@ + c.0 + ":"@ + c.1 + "@"@ + c.2 + ":"@ + decimal(c.3 as int)
}

impl Config {
    /// The connection string of the document store that this configuration names.
    pub fn mongo_uri(&self) -> (r: String)
        ensures
            r@ == connection_uri(self.view_tuple()),
    {
        let mut r = String::from_str("mongodb://");
        r.append(self.username.as_str());
        r.append(":");
        r.append(self.password.as_str());
        r.append("@");
        r.append(self.host.as_str());
        r.append(":");
        push_decimal(&mut r, self.dbport);
        r
    }

    /// Whether `pword` is the shared API secret (a plain equality test).
    pub fn authorized(&self, pword: &String) -> (r: bool)
        ensures
            r == (pword@ == self.api_password@),
    {
        *pword == self.api_password
    }
}

} // verus!

//! The service's configuration: what the environment says, or the defaults.
use vstd::prelude::*;
use crate::text::{chars_start_with, from_chars, to_chars};

verus! {

/// The configuration of the service.
pub struct Config {
    pub database_url: String,
    pub fossology_url: String,
    pub fossology_api_token: String,
    pub temp_workspace_dir: String,
    pub server_port: u16,
    pub api_key_salt: String,
}

/// What the environment says: each setting as it was found, or `None`.
pub struct Settings {
    pub database_url: Option<String>,
    pub fossology_url: Option<String>,
    pub fossology_api_token: Option<String>,
    pub temp_workspace_dir: Option<String>,
    pub server_port: Option<String>,
    pub api_key_salt: Option<String>,
}

/// The value of a decimal digit, if the character is one.
pub open spec fn digit_value(c: char) -> Option<nat> {
    if '0' <= c <= '9' {
        Some((c as nat - '0' as nat) as nat)
    } else {
        None
    }
}

/// The number that a text of decimal digits denotes; the empty text
/// denotes 0, and a text with another character denotes nothing.
pub open spec fn number_of(digits: Seq<char>) -> Option<nat>
    decreases digits.len(),
{
    if digits.len() == 0 {
        Some(0)
    } else {
        match (number_of(digits.drop_last()), digit_value(digits.last())) {
            (Some(n), Some(d)) => Some(n * 10 + d),
            _ => None,
        }
    }
}

/// The port that a text denotes: decimal digits, at least one, after an
/// optional `+`, for a number of at most 65535.
pub open spec fn port_of(text: Seq<char>) -> Option<u16> {
    let digits = if text.len() > 0 && text[0] == '+' {
        text.drop_first()
    } else {
        text
    };
    if digits.len() == 0 {
        None
    } else {
        match number_of(digits) {
            Some(n) => if n <= 65535 {
                Some(n as u16)
            } else {
                None
            },
            None => None,
        }
    }
}

proof fn number_grows(digits: Seq<char>, shorter: int)
    requires
        0 <= shorter <= digits.len(),
        number_of(digits) is Some,
    ensures
        number_of(digits.take(shorter)) is Some,
        number_of(digits.take(shorter))->0 <= number_of(digits)->0,
    decreases digits.len(),
{
    if shorter == digits.len() {
        assert(digits.take(shorter) == digits);
    } else {
        number_grows(digits.drop_last(), shorter);
        assert(digits.drop_last().take(shorter) == digits.take(shorter));
    }
}

/// Reads a port from a text.
pub fn parse_port(text: &str) -> (port: Option<u16>)
    ensures
        port == port_of(text@),
{
    let v = to_chars(text);
    let start: usize = if v.len() > 0 && v[0] == '+' {
        1
    } else {
        0
    };
    if start == v.len() {
        return None;
    }
    let ghost digits = v@.skip(start as int);
    assert(digits == if text@.len() > 0 && text@[0] == '+' {
        text@.drop_first()
    } else {
        text@
    });
    assert(digits.len() > 0);
    let mut value: u32 = 0;
    let mut i: usize = start;
    assert(digits.take(0) =~= Seq::<char>::empty());
    while i < v.len()
        invariant
            start <= i <= v.len(),
            v@ == text@,
            digits.len() > 0,
            digits == if text@.len() > 0 && text@[0] == '+' {
                text@.drop_first()
            } else {
                text@
            },
            digits == v@.skip(start as int),
            number_of(digits.take(i - start)) == Some(value as nat),
            value <= 65535,
        decreases v.len() - i,
    {
        let c = v[i];
        assert(digits.take(i - start + 1).drop_last() == digits.take(i - start));
        assert(digits.take(i - start + 1).last() == c);
        if !('0' <= c && c <= '9') {
            proof {
                assert(digit_value(c) is None);
                assert(number_of(digits.take(i - start + 1)) is None);
                if number_of(digits) is Some {
                    number_grows(digits, i - start + 1);
                }
            }
            return None;
        }
        let d: u32 = (c as u32) - ('0' as u32);
        assert(digit_value(c) == Some(d as nat));
        value = value * 10 + d;
        assert(number_of(digits.take(i - start + 1)) == Some(value as nat));
        if value > 65535 {
            proof {
                if number_of(digits) is Some {
                    number_grows(digits, i - start + 1);
                }
            }
            return None;
        }
        i += 1;
    }
    assert(digits.take(digits.len() as int) == digits);
    Some(value as u16)
}

/// Mathematical value of a [`Config`].
pub struct ConfigView {
    pub database_url: Seq<char>,
    pub fossology_url: Seq<char>,
    pub fossology_api_token: Seq<char>,
    pub temp_workspace_dir: Seq<char>,
    pub server_port: u16,
    pub api_key_salt: Seq<char>,
}

impl View for Config {
    type V = ConfigView;

    open spec fn view(&self) -> ConfigView {
        ConfigView {
            database_url: self.database_url@,
            fossology_url: self.fossology_url@,
            fossology_api_token: self.fossology_api_token@,
            temp_workspace_dir: self.temp_workspace_dir@,
            server_port: self.server_port,
            api_key_salt: self.api_key_salt@,
        }
    }
}

/// A setting, or its default where the environment is silent.
pub open spec fn setting_or(setting: Option<String>, default: Seq<char>) -> Seq<char> {
    match setting {
        Some(s) => s@,
        None => default,
    }
}

fn or_default(setting: Option<String>, default: &str) -> (r: String)
    ensures
        r@ == setting_or(setting, default@),
{
    match setting {
        Some(s) => s,
        None => String::from_str(default),
    }
}

/// Why no configuration could be made.
pub enum ConfigError {
    /// The server port is no port; the text is what was found.
    InvalidPort(String),
}

impl Config {
    /// The configuration for what the environment says. Every setting has a
    /// default; only a server port that is no port is refused.
    pub fn from_settings(settings: Settings) -> (r: Result<Config, ConfigError>)
        ensures
            match r {
                Ok(config) => port_of(setting_or(settings.server_port, "8080"@)) is Some && config@
                    == (ConfigView {
                    database_url: setting_or(settings.database_url, "./data/legalscanner.db"@),
                    fossology_url: setting_or(settings.fossology_url, "http://localhost:8081"@),
                    fossology_api_token: setting_or(settings.fossology_api_token, ""@),
                    temp_workspace_dir: setting_or(
                        settings.temp_workspace_dir,
                        "/tmp/legalscanner"@,
                    ),
                    server_port: port_of(setting_or(settings.server_port, "8080"@))->0,
                    api_key_salt: setting_or(
                        settings.api_key_salt,
                        "default-salt-change-in-production"@,
                    ),
                }),
                Err(ConfigError::InvalidPort(text)) => port_of(
                    setting_or(settings.server_port, "8080"@),
                ) is None && text@ == setting_or(settings.server_port, "8080"@),
            },
    {
        let port_text = or_default(settings.server_port, "8080");
        match parse_port(port_text.as_str()) {
            Some(server_port) => Ok(
                Config {
                    database_url: or_default(settings.database_url, "./data/legalscanner.db"),
                    fossology_url: or_default(settings.fossology_url, "http://localhost:8081"),
                    fossology_api_token: or_default(settings.fossology_api_token, ""),
                    temp_workspace_dir: or_default(
                        settings.temp_workspace_dir,
                        "/tmp/legalscanner",
                    ),
                    server_port,
                    api_key_salt: or_default(
                        settings.api_key_salt,
                        "default-salt-change-in-production",
                    ),
                },
            ),
            None => Err(ConfigError::InvalidPort(port_text)),
        }
    }
}

/// The file that a database locator points to: what follows `sqlite://`,
/// or the locator itself where it does not begin so.
pub open spec fn database_file_of(database_url: Seq<char>) -> Seq<char> {
    if "sqlite://"@.is_prefix_of(database_url) {
        database_url.skip("sqlite://"@.len() as int)
    } else {
        database_url
    }
}

/// The file that a database locator points to.
pub fn database_file(database_url: &str) -> (file: String)
    ensures
        file@ == database_file_of(database_url@),
{
    let url = to_chars(database_url);
    let scheme = to_chars("sqlite://");
    if chars_start_with(&url, &scheme) {
        from_chars(&url, scheme.len(), url.len())
    } else {
        assert(url@.subrange(0, url.len() as int) == url@);
        from_chars(&url, 0, url.len())
    }
}

} // verus!

//! The service's settings: the host name to advertise, the port to serve on and
//! the directory that uploads land in.

use vstd::prelude::*;

verus! {

/// The settings that the advertiser and the server start from.
#[derive(Debug, Clone)]
pub struct Config {
    pub name: String,
    pub port: u16,
    pub path: String,
}

/// Why the settings could not be read.
#[derive(Debug, Clone, PartialEq, Eq)]
pub enum ConfigError {
    MissingName,
    MissingPort,
    /// The port is not a whole number from 0 to 65535.
    BadPort(String),
    MissingPath,
    /// A named standard directory does not exist on this system.
    NoDirectory(String),
    MissingAutoLaunch,
    /// The auto-launch switch is not one of the accepted words.
    BadAutoLaunch(String),
    /// A configuration was already set.
    AlreadyInitialized,
}

/// Whether `c` is one of `0` to `9`.
pub open spec fn is_digit(c: char) -> bool {
    '0' <= c <= '9'
}

/// The value of a string of decimal digits.
pub open spec fn digits_value(s: Seq<char>) -> nat
    decreases s.len(),
{
    if s.len() == 0 {
        0
    } else {
        digits_value(s.drop_last()) * 10 + ((s.last() as u32) - ('0' as u32)) as nat
    }
}

/// The port a text names: an optional `+`, then one or more digits whose value
/// is at most 65535.
pub open spec fn port_value(s: Seq<char>) -> Option<u16> {
    let d = if s.len() > 0 && s[0] == '+' { s.drop_first() } else { s };
    if d.len() > 0 && (forall|i: int| 0 <= i < d.len() ==> is_digit(#[trigger] d[i])) && digits_value(d)
        <= 65535 {
        Some(digits_value(d) as u16)
    } else {
        None
    }
}

/// Relies on `<u16 as FromStr>::from_str`, which takes an optional `+` followed
/// by digits only, and fails on a value above `u16::MAX`.
#[verifier::external_body]
fn parse_u16(s: &str) -> (r: Option<u16>)
    ensures
        r == port_value(s@),
{
    s.parse::<u16>().ok()
}

/// The words accepted for an on/off switch, and what each means.
pub open spec fn switch_value(s: Seq<char>) -> Option<bool> {
    if s == "true"@ || s == "t"@ || s == "yes"@ || s == "y"@ || s == "1"@ || s == "on"@ {
        Some(true)
    } else if s == "false"@ || s == "f"@ || s == "no"@ || s == "n"@ || s == "0"@ || s == "off"@ {
        Some(false)
    } else {
        None
    }
}

fn is_word(s: &str, word: &str) -> (r: bool)
    ensures
        r == (s@ == word@),
{
    crate::text::same_text(s, word)
}

/// Reads an on/off switch: `true`, `t`, `yes`, `y`, `1`, `on` or their opposites
/// `false`, `f`, `no`, `n`, `0`, `off`; anything else is no switch.
pub fn parse_switch(s: &str) -> (r: Option<bool>)
    ensures
        r == switch_value(s@),
{
    if is_word(s, "true") || is_word(s, "t") || is_word(s, "yes") || is_word(s, "y") || is_word(s, "1")
        || is_word(s, "on") {
        Some(true)
    } else if is_word(s, "false") || is_word(s, "f") || is_word(s, "no") || is_word(s, "n")
        || is_word(s, "0") || is_word(s, "off") {
        Some(false)
    } else {
        None
    }
}

/// Reads a port number.
pub fn parse_port(s: &str) -> (r: Result<u16, ConfigError>)
    ensures
        port_value(s@) matches Some(p) ==> r == Ok::<u16, ConfigError>(p),
        port_value(s@) is None ==> (r matches Err(ConfigError::BadPort(t)) && t@ == s@),
{
    match parse_u16(s) {
        Some(p) => Ok(p),
        None => Err(ConfigError::BadPort(String::from_str(s))),
    }
}

/// The names that stand for a standard directory of the user.
pub open spec fn is_standard_directory(name: Seq<char>) -> bool {
    name == "video"@ || name == "picture"@ || name == "desktop"@ || name == "download"@ || name
        == "document"@
}

/// Relies on `dirs::video_dir`, which looks the directory up on this system.
#[verifier::external_body]
fn video_dir() -> (r: Option<String>) {
    dirs::video_dir().and_then(|p| p.into_os_string().into_string().ok())
}

/// Relies on `dirs::picture_dir`, which looks the directory up on this system.
#[verifier::external_body]
fn picture_dir() -> (r: Option<String>) {
    dirs::picture_dir().and_then(|p| p.into_os_string().into_string().ok())
}

/// Relies on `dirs::desktop_dir`, which looks the directory up on this system.
#[verifier::external_body]
fn desktop_dir() -> (r: Option<String>) {
    dirs::desktop_dir().and_then(|p| p.into_os_string().into_string().ok())
}

/// Relies on `dirs::download_dir`, which looks the directory up on this system.
#[verifier::external_body]
fn download_dir() -> (r: Option<String>) {
    dirs::download_dir().and_then(|p| p.into_os_string().into_string().ok())
}

/// Relies on `dirs::document_dir`, which looks the directory up on this system.
#[verifier::external_body]
fn document_dir() -> (r: Option<String>) {
    dirs::document_dir().and_then(|p| p.into_os_string().into_string().ok())
}

/// The directory a setting names: `video`, `picture`, `desktop`, `download` and
/// `document` stand for the user's standard directories, which this system may
/// lack; any other text is a path as it stands.
pub fn resolve_base_directory(dir_name: &str) -> (r: Result<String, ConfigError>)
    ensures
        !is_standard_directory(dir_name@) ==> (r is Ok && r->Ok_0@ == dir_name@),
        r is Err ==> is_standard_directory(dir_name@) && (r matches Err(ConfigError::NoDirectory(t))
            && t@ == dir_name@),
{
    let found = if is_word(dir_name, "video") {
        video_dir()
    } else if is_word(dir_name, "picture") {
        picture_dir()
    } else if is_word(dir_name, "desktop") {
        desktop_dir()
    } else if is_word(dir_name, "download") {
        download_dir()
    } else if is_word(dir_name, "document") {
        document_dir()
    } else {
        return Ok(String::from_str(dir_name));
    };
    match found {
        Some(d) => Ok(d),
        None => Err(ConfigError::NoDirectory(String::from_str(dir_name))),
    }
}

impl Config {
    /// Builds the settings from the raw values of the settings file, and gives
    /// the auto-launch switch beside them. Each missing value is its own
    /// error, checked in the order name, port, path, auto launch.
    pub fn new(
        name: Option<String>,
        port: Option<String>,
        path: Option<String>,
        auto_launch: Option<String>,
    ) -> (r: Result<(Config, bool), ConfigError>)
        ensures
            match name {
                None => r == Err::<(Config, bool), ConfigError>(ConfigError::MissingName),
                Some(n) => match port {
                    None => r == Err::<(Config, bool), ConfigError>(ConfigError::MissingPort),
                    Some(p) => match port_value(p@) {
                        None => (r matches Err(ConfigError::BadPort(t)) && t@ == p@),
                        Some(pv) => match path {
                            None => r == Err::<(Config, bool), ConfigError>(ConfigError::MissingPath),
                            Some(d) => match r {
                                Ok((c, on)) => c.name == n && c.port == pv && (!is_standard_directory(
                                    d@,
                                ) ==> c.path@ == d@) && (auto_launch matches Some(a) && switch_value(
                                    a@,
                                ) == Some(on)),
                                Err(ConfigError::NoDirectory(t)) => is_standard_directory(d@) && t@
                                    == d@,
                                Err(e) => match auto_launch {
                                    None => e == ConfigError::MissingAutoLaunch,
                                    Some(a) => switch_value(a@) is None && (e matches ConfigError::BadAutoLaunch(
                                        t,
                                    ) && t@ == a@),
                                },
                            },
                        },
                    },
                },
            },
    {
        let name = match name {
            Some(n) => n,
            None => return Err(ConfigError::MissingName),
        };
        let port = match port {
            Some(p) => parse_port(p.as_str())?,
            None => return Err(ConfigError::MissingPort),
        };
        let path = match path {
            Some(d) => resolve_base_directory(d.as_str())?,
            None => return Err(ConfigError::MissingPath),
        };
        let auto_launch = match auto_launch {
            Some(a) => match parse_switch(a.as_str()) {
                Some(on) => on,
                None => return Err(ConfigError::BadAutoLaunch(a)),
            },
            None => return Err(ConfigError::MissingAutoLaunch),
        };
        Ok((Config { name, port, path }, auto_launch))
    }

    /// Sets the configuration once; a second setting is refused and leaves the
    /// first in place.
    pub fn init(slot: &mut Option<Config>, config: Config) -> (r: Result<(), ConfigError>)
        ensures
            *old(slot) is None ==> r is Ok && *final(slot) == Some(config),
            *old(slot) is Some ==> r == Err::<(), ConfigError>(ConfigError::AlreadyInitialized)
                && *final(slot) == *old(slot),
    {
        if slot.is_some() {
            return Err(ConfigError::AlreadyInitialized);
        }
        *slot = Some(config);
        Ok(())
    }

    /// The configuration that was set.
    pub fn get(slot: &Option<Config>) -> (r: &Config)
        requires
            slot is Some,
        ensures
            Some(*r) == *slot,
    {
        slot.as_ref().unwrap()
    }
}

} // verus!

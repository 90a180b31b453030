//! The local client's lockfile descriptor: a single line of exactly five
//! colon-separated fields, `name:pid:port:password:protocol`, where `pid`
//! and `port` must be decimal numbers.  A malformed line yields no partial
//! configuration.

use crate::text;
use vstd::prelude::*;
use vstd::string::*;

verus! {

/// Credentials and connection data taken from the lockfile.
#[derive(Debug, PartialEq)]
pub struct Config {
    pub name: String,
    pub pid: u32,
    pub port: u32,
    pub password: String,
    pub protocol: String,
}

/// Mathematical view of a lockfile configuration.
pub ghost struct ConfigView {
    pub name: Seq<char>,
    pub pid: u32,
    pub port: u32,
    pub password: Seq<char>,
    pub protocol: Seq<char>,
}

impl View for Config {
    type V = ConfigView;

    open spec fn view(&self) -> ConfigView {
        ConfigView {
            name: self.name@,
            pid: self.pid,
            port: self.port,
            password: self.password@,
            protocol: self.protocol@,
        }
    }
}

impl DeepView for Config {
    type V = ConfigView;

    open spec fn deep_view(&self) -> ConfigView {
        self.view()
    }
}

impl Clone for Config {
    fn clone(&self) -> (r: Self)
        ensures
            r@ == self@,
    {
        Config {
            name: self.name.clone(),
            pid: self.pid,
            port: self.port,
            password: self.password.clone(),
            protocol: self.protocol.clone(),
        }
    }
}

/// Raised when the lockfile text does not have the required shape.
#[derive(Clone, Copy, Debug, PartialEq, Eq)]
pub struct ParseConfigError;

/// A field that must be a decimal `u32`.
pub open spec fn spec_numeric_u32(s: Seq<char>) -> bool {
    s.len() > 0 && text::seq_is_digits(s) && text::digits_val(s) <= u32::MAX
}

/// A lockfile line is valid exactly when it has five colon-separated
/// fields with numeric `pid` and `port`.
pub open spec fn spec_lockfile_valid(s: Seq<char>) -> bool {
    let fields = text::spec_split(s, ':');
    fields.len() == 5 && spec_numeric_u32(fields[1]) && spec_numeric_u32(fields[2])
}

/// The configuration denoted by a valid lockfile line.
pub open spec fn spec_lockfile_config(s: Seq<char>) -> ConfigView {
    let fields = text::spec_split(s, ':');
    ConfigView {
        name: fields[0],
        pid: text::digits_val(fields[1]) as u32,
        port: text::digits_val(fields[2]) as u32,
        password: fields[3],
        protocol: fields[4],
    }
}

impl Config {
    /// Parse a lockfile line.  Parsing is total: it succeeds exactly on
    /// the valid lines and the result is determined by the input.
    pub fn from_str(s: &str) -> (r: Result<Config, ParseConfigError>)
        ensures
            spec_lockfile_valid(s@) ==> (r matches Ok(c) && c@ == spec_lockfile_config(s@)),
            !spec_lockfile_valid(s@) ==> r is Err,
    {
        let parts = text::split_char(s, ':');
        if parts.len() != 5 {
            return Err(ParseConfigError);
        }
        let pid = match text::parse_u32(parts[1].as_str()) {
            Some(v) => v,
            None => {
                return Err(ParseConfigError);
            },
        };
        let port = match text::parse_u32(parts[2].as_str()) {
            Some(v) => v,
            None => {
                return Err(ParseConfigError);
            },
        };
        Ok(
            Config {
                name: parts[0].clone(),
                pid,
                port,
                password: parts[3].clone(),
                protocol: parts[4].clone(),
            },
        )
    }
}

} // verus!

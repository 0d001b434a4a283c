//! The configuration of the server, composed from the values of its
//! environment.

use vstd::prelude::*;
use vstd::string::StringExecFns;
use crate::text::copy_of;

verus! {

/// The configuration of the server.
#[derive(Debug)]
pub struct Config {
    pub database_url: String,
    pub grpc_port: u16,
    pub http_port: Option<u16>,
    pub log_level: String,
    pub socketio_url: Option<String>,
}

impl Clone for Config {
    fn clone(&self) -> (copy: Self)
        ensures
            copy == *self,
    {
        Config {
            database_url: self.database_url.clone(),
            grpc_port: self.grpc_port,
            http_port: self.http_port,
            log_level: self.log_level.clone(),
            socketio_url: copy_of(&self.socketio_url),
        }
    }
}

/// What the environment holds of the variables that configure the server;
/// `None` stands for a variable that is not set.
#[derive(Debug)]
pub struct Environment {
    pub rdb_host: Option<String>,
    pub rdb_user: Option<String>,
    pub rdb_password: Option<String>,
    pub rdb_name: Option<String>,
    pub grpc_port: Option<String>,
    pub http_port: Option<String>,
    pub log_level: Option<String>,
    pub socketio_url: Option<String>,
}

/// The port of the RPC interface where none is configured.
pub const DEFAULT_GRPC_PORT: u16 = 50051;

/// The character is one of the ten decimal digits.
pub open spec fn is_decimal_digit(c: char) -> bool {
    '0' <= c <= '9'
}

/// The number that a sequence of decimal digits denotes.
pub open spec fn decimal_value(digits: Seq<char>) -> nat
    decreases digits.len(),
{
    if digits.len() == 0 {
        0
    } else {
        decimal_value(digits.drop_last()) * 10 + (digits.last() as u32 - '0' as u32) as nat
    }
}

/// What a text holds once a plus sign in front is taken away.
pub open spec fn unsigned_part(text: Seq<char>) -> Seq<char> {
    if text.len() > 0 && text[0] == '+' {
        text.drop_first()
    } else {
        text
    }
}

/// The number that a text denotes as a `u16`: the text is a plus sign, or
/// none, and then at least one decimal digit and nothing else, and the number
/// is at most 65535. Any other text, with a blank, a minus sign or an
/// underscore in it for instance, denotes none.
pub open spec fn parsed_u16(text: Seq<char>) -> Option<u16> {
    let digits = unsigned_part(text);
    if digits.len() > 0 && (forall|i: int| 0 <= i < digits.len() ==> is_decimal_digit(digits[i]))
        && decimal_value(digits) <= u16::MAX {
        Some(decimal_value(digits) as u16)
    } else {
        None
    }
}

/// `str::parse::<u16>`. Trusted: the result is the number that the text
/// denotes, and `None` where it denotes none. The standard library reads an
/// optional plus sign and then decimal digits only, and refuses an empty
/// text, a sign on its own, any other character, and a number that does not
/// fit.
#[verifier::external_body]
fn parse_u16(text: &str) -> (port: Option<u16>)
    ensures
        port == parsed_u16(text@),
{
    text.parse::<u16>().ok()
}

/// A value of the environment, or `fallback` where it is not set.
pub open spec fn value_or(value: Option<String>, fallback: Seq<char>) -> Seq<char> {
    match value {
        Some(value) => value@,
        None => fallback,
    }
}

/// The address of the database for the given user, password, host and name.
pub open spec fn database_url_text(
    user: Seq<char>,
    password: Seq<char>,
    host: Seq<char>,
    name: Seq<char>,
) -> Seq<char> {
    "mysql://"@ + user + ":"@ + password + "@"@ + host + ":3306/"@ + name
}

/// The port of the RPC interface: the number that `GRPC_PORT` denotes, and
/// the default where it is not set or denotes none.
pub open spec fn grpc_port_of(value: Option<String>) -> u16 {
    match value {
        Some(text) => match parsed_u16(text@) {
            Some(port) => port,
            None => DEFAULT_GRPC_PORT,
        },
        None => DEFAULT_GRPC_PORT,
    }
}

/// The port of the HTTP interface: the number that `HTTP_PORT` denotes, if
/// it is set and denotes one.
pub open spec fn http_port_of(value: Option<String>) -> Option<u16> {
    match value {
        Some(text) => parsed_u16(text@),
        None => None,
    }
}

fn value_or_default(value: &Option<String>, fallback: &str) -> (text: String)
    ensures
        text@ == value_or(*value, fallback@),
{
    match value {
        Some(value) => value.clone(),
        None => String::from_str(fallback),
    }
}

impl Config {
    /// Composes the configuration from the values of the environment. The
    /// database is addressed on port 3306 of `RDB_HOST` (`localhost` where
    /// not set), as `RDB_USER` (`root`) with `RDB_PASSWORD` (empty), by the
    /// name `RDB_NAME` (`db`). The log level is `info` where not set.
    pub fn from_env(environment: Environment) -> (config: Self)
        ensures
            config.database_url@ == database_url_text(
                value_or(environment.rdb_user, "root"@),
                value_or(environment.rdb_password, ""@),
                value_or(environment.rdb_host, "localhost"@),
                value_or(environment.rdb_name, "db"@),
            ),
            config.grpc_port == grpc_port_of(environment.grpc_port),
            config.http_port == http_port_of(environment.http_port),
            config.log_level@ == value_or(environment.log_level, "info"@),
            config.socketio_url == environment.socketio_url,
    {
        let host = value_or_default(&environment.rdb_host, "localhost");
        let user = value_or_default(&environment.rdb_user, "root");
        let password = value_or_default(&environment.rdb_password, "");
        let name = value_or_default(&environment.rdb_name, "db");
        let database_url = String::from_str("mysql://").concat(user.as_str()).concat(":").concat(
            password.as_str(),
        ).concat("@").concat(host.as_str()).concat(":3306/").concat(name.as_str());
        let grpc_port = match &environment.grpc_port {
            Some(text) => match parse_u16(text.as_str()) {
                Some(port) => port,
                None => DEFAULT_GRPC_PORT,
            },
            None => DEFAULT_GRPC_PORT,
        };
        let http_port = match &environment.http_port {
            Some(text) => parse_u16(text.as_str()),
            None => None,
        };
        let log_level = value_or_default(&environment.log_level, "info");
        Config {
            database_url,
            grpc_port,
            http_port,
            log_level,
            socketio_url: environment.socketio_url,
        }
    }
}

} // verus!

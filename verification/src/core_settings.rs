//! How the core is set up: the port of its HTTP server and what can stop it
//! from starting.
use vstd::prelude::*;
use crate::rpc::{digits_up_to, digits_value, is_digit};

verus! {

/// What can stop the core from starting.
pub enum InitError {
    /// The database's migrations could not be applied.
    ApplyMigrations(String),
    /// The HTTP server could not be started.
    StartHttpServer(String),
    /// The MCP server could not be started.
    InitMcpServer(String),
}

/// The digits of an unsigned number's text: what follows an optional `+`.
pub open spec fn unsigned_digits(s: Seq<char>) -> Seq<char> {
    if s.len() > 0 && s[0] == '+' { s.skip(1) } else { s }
}

/// Whether every character of `d` is a decimal digit.
pub open spec fn all_digits(d: Seq<char>) -> bool {
    forall|i: int| 0 <= i < d.len() ==> is_digit(#[trigger] d[i])
}

/// The number that `str::parse::<u16>` reads from `s`: an optional `+`,
/// then at least one decimal digit and nothing else, worth at most 65535.
pub open spec fn parsed_u16(s: Seq<char>) -> Option<int> {
    let d = unsigned_digits(s);
    if d.len() > 0 && all_digits(d) && digits_value(d) <= 65535 {
        Some(digits_value(d))
    } else {
        None
    }
}

/// Reads a port number as `str::parse::<u16>` does.
pub fn parse_u16(s: &str) -> (r: Option<u16>)
    ensures
        match parsed_u16(s@) {
            Some(v) => r matches Some(x) && x == v,
            None => r is None,
        },
{
    let n = s.unicode_len();
    let plus = n > 0 && s.get_char(0) == '+';
    let from: usize = if plus { 1 } else { 0 };
    assert(s@.skip(0) =~= s@);
    assert(plus == (s@.len() > 0 && s@[0] == '+'));
    assert(unsigned_digits(s@) == s@.skip(from as int));
    match digits_up_to(s, from, 65535) {
        Some(v) => Some(v as u16),
        None => None,
    }
}

/// The port of the core's HTTP server: the configured one when it reads as
/// a port number, else 11011.
pub fn http_port(setting: Option<&str>) -> (r: u16)
    ensures
        match setting {
            Some(s) => match parsed_u16(s@) {
                Some(v) => r == v,
                None => r == 11011,
            },
            None => r == 11011,
        },
{
    match setting {
        Some(s) => match parse_u16(s) {
            Some(p) => p,
            None => 11011,
        },
        None => 11011,
    }
}

} // verus!

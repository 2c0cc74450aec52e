//! Process settings: the address on which the exporter listens.

use crate::text::chars_of;
use vstd::prelude::*;

verus! {

/// The port to listen on where none is configured.
pub const DEFAULT_PORT: u16 = 14000;

/// Why the settings cannot be used.
#[derive(Clone, Copy, Debug, PartialEq, Eq)]
pub enum ConfigError {
    /// The configured port is no unsigned 16-bit number.
    InvalidPort,
}

/// The address on which the exporter listens.
#[derive(Debug)]
pub struct BindAddress {
    pub host: String,
    pub port: u16,
}

/// A decimal digit.
pub open spec fn is_digit(c: char) -> bool {
    '0' <= c <= '9'
}

/// The number that a string of decimal digits writes.
pub open spec fn decimal_value(digits: Seq<char>) -> nat
    decreases digits.len(),
{
    if digits.len() == 0 {
        0
    } else {
        decimal_value(digits.drop_last()) * 10 + (digits.last() as nat - '0' as nat) as nat
    }
}

/// The text without a leading plus sign.
pub open spec fn unsigned_part(text: Seq<char>) -> Seq<char> {
    if text.len() > 0 && text[0] == '+' {
        text.skip(1)
    } else {
        text
    }
}

/// The port that a text configures: its decimal value, where it consists of
/// at least one decimal digit after an optional plus sign and the value
/// fits in 16 bits.
pub open spec fn port_number(text: Seq<char>) -> Option<u16> {
    let digits = unsigned_part(text);
    if digits.len() > 0 && (forall|i: int| 0 <= i < digits.len() ==> is_digit(digits[i]))
        && decimal_value(digits) <= u16::MAX {
        Some(decimal_value(digits) as u16)
    } else {
        None
    }
}

/// The host to listen on: the configured one, or all interfaces.
pub open spec fn host_name(host: Option<Seq<char>>) -> Seq<char> {
    match host {
        Some(h) => h,
        None => "0.0.0.0"@,
    }
}

/// More digits never write a smaller number.
proof fn lemma_decimal_value_grows(digits: Seq<char>, n: int)
    requires
        0 <= n <= digits.len(),
        forall|i: int| 0 <= i < digits.len() ==> is_digit(digits[i]),
    ensures
        decimal_value(digits.take(n)) <= decimal_value(digits),
    decreases digits.len(),
{
    if n == digits.len() {
        assert(digits.take(n) =~= digits);
    } else {
        assert(digits.take(n) =~= digits.drop_last().take(n));
        lemma_decimal_value_grows(digits.drop_last(), n);
    }
}

/// Reads a port number.
pub fn parse_port(text: &str) -> (port: Option<u16>)
    ensures
        port == port_number(text@),
{
    let chars = chars_of(text);
    let start: usize = if chars.len() > 0 && chars[0] == '+' {
        1
    } else {
        0
    };
    if start == chars.len() {
        return None;
    }
    let ghost digits = unsigned_part(text@);
    let mut value: u32 = 0;
    let mut i: usize = start;
    while i < chars.len()
        invariant
            start <= i <= chars.len(),
            digits == chars@.skip(start as int),
            digits == unsigned_part(text@),
            forall|k: int| 0 <= k < i - start ==> is_digit(digits[k]),
            value == decimal_value(digits.take(i - start)),
            value <= u16::MAX,
        decreases chars.len() - i,
    {
        let c = chars[i];
        if !(c >= '0' && c <= '9') {
            assert(!is_digit(digits[i - start]));
            return None;
        }
        assert(digits.take(i - start + 1).drop_last() =~= digits.take(i - start));
        value = value * 10 + (c as u32 - '0' as u32);
        if value > 65535 {
            proof {
                if forall|k: int| 0 <= k < digits.len() ==> is_digit(digits[k]) {
                    lemma_decimal_value_grows(digits, i - start + 1);
                }
            }
            return None;
        }
        i = i + 1;
    }
    assert(digits.take(i - start) =~= digits);
    Some(value as u16)
}

/// Settles the address to listen on from what is configured.
///
/// A missing host means all interfaces and a missing port the default one.
/// A port that is configured must be an unsigned 16-bit number.
pub fn bind_address(host: Option<String>, port: Option<String>) -> (address: Result<
    BindAddress,
    ConfigError,
>)
    ensures
        match port {
            Some(p) => match port_number(p@) {
                Some(n) => address matches Ok(a) && a.port == n,
                None => address == Err::<BindAddress, ConfigError>(ConfigError::InvalidPort),
            },
            None => address matches Ok(a) && a.port == DEFAULT_PORT,
        },
        address matches Ok(a) ==> a.host@ == host_name(
            match host {
                Some(h) => Some(h@),
                None => None,
            },
        ),
{
    let port = match port {
        Some(p) => match parse_port(p.as_str()) {
            Some(n) => n,
            None => {
                return Err(ConfigError::InvalidPort);
            },
        },
        None => DEFAULT_PORT,
    };
    let host = match host {
        Some(h) => h,
        None => "0.0.0.0".to_owned(),
    };
    Ok(BindAddress { host, port })
}

} // verus!

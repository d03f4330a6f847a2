//! Where the bridge listens.

use vstd::prelude::*;
use vstd::string::*;

use crate::text::{decimal, join3, law_decimal_round_trip, parse_u16, parsed_u16, to_decimal};

verus! {

pub const DEFAULT_HOST: &'static str = "127.0.0.1";

pub const DEFAULT_PORT: u16 = 19829;

/// The host to bind to: the configured one, else the loopback address.
pub open spec fn host_for(host: Option<String>) -> Seq<char> {
    match host {
        Some(name) => name@,
        None => DEFAULT_HOST@,
    }
}

/// The port to bind to: the configured one where it is a port number, else the default.
pub open spec fn port_for(port: Option<String>) -> u16 {
    match port {
        Some(text) => match parsed_u16(text@) {
            Some(number) => number,
            None => DEFAULT_PORT,
        },
        None => DEFAULT_PORT,
    }
}

/// The address to bind to, from the configured host and port.
pub fn bind_address(host: Option<String>, port: Option<String>) -> (res: String)
    ensures
        res@ == host_for(host) + ":"@ + decimal(port_for(port) as nat),
{
    let name = match host {
        Some(name) => name,
        None => DEFAULT_HOST.to_owned(),
    };
    let number: u16 = match port {
        Some(text) => match parse_u16(text.as_str()) {
            Some(number) => number,
            None => DEFAULT_PORT,
        },
        None => DEFAULT_PORT,
    };
    let digits = to_decimal(number);
    join3(name.as_str(), ":", digits.as_str())
}

/// Every port number can be configured.
pub proof fn law_configured_port_is_used(port: u16, text: String)
    requires
        text@ == decimal(port as nat),
    ensures
        port_for(Some(text)) == port,
{
    law_decimal_round_trip(port);
}

/// The bridge listens on the loopback address and port 19829, unless a host is configured, or a port
/// that can be read as a number; each of the two stands on its own.
pub proof fn law_address(host: Option<String>, port: Option<String>, res: String)
    requires
        call_ensures(bind_address, (host, port), res),
    ensures
        exists|number: u16|
            {
                &&& res@ == (match host {
                    Some(name) => name@,
                    None => "127.0.0.1"@,
                }) + ":"@ + #[trigger] decimal(number as nat)
                &&& match port {
                    Some(text) => match parsed_u16(text@) {
                        Some(n) => number == n,
                        None => number == 19829,
                    },
                    None => number == 19829,
                }
            },
{
    let number = port_for(port);
    assert(res@ == host_for(host) + ":"@ + decimal(number as nat));
}

} // verus!

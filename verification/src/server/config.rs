//! The server's configuration: where it listens and how it reaches the
//! gateway. The values are read once at startup and do not change.

use std::path::PathBuf;
use vstd::prelude::*;

verus! {

/// `std::path::PathBuf`, carried through as it is.
#[verifier::external_type_specification]
#[verifier::external_body]
pub struct ExPathBuf(PathBuf);

/// The command line of the server.
#[derive(Debug)]
pub struct Cli {
    /// Path to the configuration file.
    pub config: PathBuf,
}

/// The server's configuration file.
#[derive(Debug, Clone)]
pub struct ServerConfig {
    pub server: ListenConfig,
    pub gateway: GatewayConfig,
}

/// Where the server listens for clients.
#[derive(Debug, Clone)]
pub struct ListenConfig {
    pub host: String,
    pub port: u16,
}

/// How the server reaches the gateway and keeps the link alive.
#[derive(Debug, Clone)]
pub struct GatewayConfig {
    pub url: String,
    pub node_id: String,
    pub heartbeat_interval_secs: u64,
    pub reconnect_base_ms: u64,
    pub reconnect_max_ms: u64,
}

/// The character of the decimal digit `d`.
pub open spec fn digit(d: nat) -> char {
    if d == 0 {
        '0'
    } else if d == 1 {
        '1'
    } else if d == 2 {
        '2'
    } else if d == 3 {
        '3'
    } else if d == 4 {
        '4'
    } else if d == 5 {
        '5'
    } else if d == 6 {
        '6'
    } else if d == 7 {
        '7'
    } else if d == 8 {
        '8'
    } else {
        '9'
    }
}

/// The decimal numeral of `n`, without leading zeros.
pub open spec fn decimal(n: nat) -> Seq<char>
    decreases n,
{
    if n < 10 {
        seq![digit(n)]
    } else {
        decimal(n / 10).push(digit(n % 10))
    }
}

fn digit_str(d: u16) -> (s: &'static str)
    requires
        d < 10,
    ensures
        s@ == seq![digit(d as nat)],
{
    proof {
        reveal_strlit("0");
        reveal_strlit("1");
        reveal_strlit("2");
        reveal_strlit("3");
        reveal_strlit("4");
        reveal_strlit("5");
        reveal_strlit("6");
        reveal_strlit("7");
        reveal_strlit("8");
        reveal_strlit("9");
    }
    let s = if d == 0 {
        "0"
    } else if d == 1 {
        "1"
    } else if d == 2 {
        "2"
    } else if d == 3 {
        "3"
    } else if d == 4 {
        "4"
    } else if d == 5 {
        "5"
    } else if d == 6 {
        "6"
    } else if d == 7 {
        "7"
    } else if d == 8 {
        "8"
    } else {
        "9"
    };
    assert(s@ =~= seq![digit(d as nat)]);
    s
}

fn append_decimal(out: &mut String, n: u16)
    ensures
        final(out)@ == old(out)@ + decimal(n as nat),
    decreases n,
{
    if n >= 10 {
        append_decimal(out, n / 10);
    }
    out.append(digit_str(n % 10));
    assert(out@ =~= old(out)@ + decimal(n as nat));
}

impl ServerConfig {
    /// The address to listen on: the host, a colon, and the port in decimal.
    pub fn listen_addr(&self) -> (addr: String)
        ensures
            addr@ == self.server.host@ + seq![':'] + decimal(self.server.port as nat),
    {
        proof {
            reveal_strlit(":");
        }
        let mut addr = self.server.host.clone();
        addr.append(":");
        assert(addr@ =~= self.server.host@ + seq![':']);
        append_decimal(&mut addr, self.server.port);
        addr
    }
}

} // verus!

//! The client that brings its own core server: it starts a local instant
//! server on a free port and reaches the target through it.

use crate::outside::{fresh_uuid, is_v4_uuid, random_in_range};
use crate::text::{decimal, push_decimal};
use vstd::prelude::*;

verus! {

/// The options of the instant-server client.
pub struct CommandLineArgs {
    /// Address of the target's core server.
    pub addr: String,
    /// Port of the target's core server.
    pub port: u16,
    /// The target's guest token.
    pub guest_jwt: String,
}

impl CommandLineArgs {
    /// The target's core address: `http://addr:port`.
    pub fn core_uri(&self) -> (uri: String)
        ensures
            uri@ == "http://"@ + self.addr@ + ":"@ + decimal(self.port as nat),
    {
        let mut s = String::new();
        s.append("http://");
        s.append(self.addr.as_str());
        s.append(":");
        push_decimal(&mut s, self.port as u64);
        s
    }
}

/// A fresh name for the instant server's working directory: a random
/// version-4 UUID in its lower-case hyphenated form.
pub fn instant_server_id() -> (id: String)
    ensures
        is_v4_uuid(id@),
{
    fresh_uuid()
}

/// The lowest port tried for the instant server.
pub const INSTANT_PORT_LOW: u16 = 10000;

/// One past the highest port tried for the instant server.
pub const INSTANT_PORT_HIGH: u16 = 20000;

/// A random port to try for the instant server.
pub fn instant_port_candidate() -> (port: u16)
    ensures
        INSTANT_PORT_LOW <= port < INSTANT_PORT_HIGH,
{
    random_in_range(INSTANT_PORT_LOW, INSTANT_PORT_HIGH)
}

/// The address of the instant server listening on `port`.
pub fn local_core_uri(port: u16) -> (uri: String)
    ensures
        uri@ == "http://127.0.0.1:"@ + decimal(port as nat),
{
    let mut s = String::new();
    s.append("http://127.0.0.1:");
    push_decimal(&mut s, port as u64);
    s
}

/// The arguments that start the instant server on `port`.
pub open spec fn instant_server_arguments(port: nat) -> Seq<Seq<char>> {
    seq![
        "--address"@,
        "0.0.0.0"@,
        "--port"@,
        decimal(port),
        "--mq-prefix"@,
        "colink-instant-server-"@ + decimal(port),
        "--core-uri"@,
        "http://127.0.0.1:"@ + decimal(port),
        "--inter-core-reverse-mode"@,
    ]
}

/// Builds the arguments that start the instant server on `port`.
pub fn instant_server_args(port: u16) -> (args: Vec<String>)
    ensures
        args@.map_values(|a: String| a@) == instant_server_arguments(port as nat),
{
    let mut args: Vec<String> = Vec::new();
    args.push("--address".to_owned());
    args.push("0.0.0.0".to_owned());
    args.push("--port".to_owned());
    let mut p = String::new();
    push_decimal(&mut p, port as u64);
    args.push(p);
    args.push("--mq-prefix".to_owned());
    let mut prefix = String::new();
    prefix.append("colink-instant-server-");
    push_decimal(&mut prefix, port as u64);
    args.push(prefix);
    args.push("--core-uri".to_owned());
    args.push(local_core_uri(port));
    args.push("--inter-core-reverse-mode".to_owned());
    proof {
        assert(args@.map_values(|a: String| a@) =~= instant_server_arguments(port as nat));
    }
    args
}

} // verus!

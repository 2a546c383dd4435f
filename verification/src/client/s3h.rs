//! The client that reaches a user's shell through the registries: it finds
//! the user's host first, then runs the session.

use super::common::spinner_frame;
use crate::approval::{cuttable_id, id_prefix, short_id};
use crate::keys::{known_core_addr_key, known_guest_jwt_key};
use crate::outside::{decode_lossy, opt_view, parse_url_host, url_host, utf8_lossy};
use vstd::prelude::*;
use vstd::utf8::encode_utf8;

verus! {

/// The options of the client.
pub struct CommandLineArgs {
    /// Address of the core server.
    pub addr: String,
    /// The user's token.
    pub jwt: String,
    /// The user whose shell is wanted.
    pub target: String,
}

impl CommandLineArgs {
    /// The registry entry that holds the target's core address.
    pub fn core_addr_entry(&self) -> (key: String)
        ensures
            key@ == "_internal:known_users:"@ + self.target@ + ":core_addr"@,
    {
        known_core_addr_key(self.target.as_str())
    }

    /// The registry entry that holds the target's guest token.
    pub fn guest_jwt_entry(&self) -> (key: String)
        ensures
            key@ == "_internal:known_users:"@ + self.target@ + ":guest_jwt"@,
    {
        known_guest_jwt_key(self.target.as_str())
    }
}

/// How many lookups may fail before the client gives up.
pub const RESOLVE_MISS_LIMIT: u64 = 480;

/// The model of a host lookup: the target and the number of failed lookups.
pub struct ResolverModel {
    pub target: Seq<char>,
    pub misses: nat,
}

/// What to do after a failed lookup: show `banner`, wait, and then give up
/// with `timeout` if it is there.
#[derive(Debug, PartialEq, Eq)]
pub struct MissStep {
    pub banner: Vec<u8>,
    pub timeout: Option<String>,
}

/// The repeated lookup of the target's host in the registries.
pub struct HostResolver {
    target: String,
    misses: u64,
}

impl View for HostResolver {
    type V = ResolverModel;

    closed spec fn view(&self) -> ResolverModel {
        ResolverModel { target: self.target@, misses: self.misses as nat }
    }
}

/// The status line of the lookup, followed by the spinner frame `frame`.
pub open spec fn resolving_line(target: Seq<char>, frame: Seq<char>) -> Seq<char> {
    "\x1b[01mResolving target host for user "@ + id_prefix(target) + " from registries..."@ + frame
        + "\x1b[0m"@
}

fn resolving_text(target: &str, frame: &str) -> (s: String)
    requires
        cuttable_id(target@),
    ensures
        s@ == resolving_line(target@, frame@),
{
    let mut s = String::new();
    s.append("\x1b[01mResolving target host for user ");
    let t = short_id(target);
    s.append(t.as_str());
    s.append(" from registries...");
    s.append(frame);
    s.append("\x1b[0m");
    s
}

impl HostResolver {
    /// The lookup invariant.
    pub closed spec fn wf(&self) -> bool {
        cuttable_id(self.target@)
    }

    /// Starts looking up the host of user `target`.
    pub fn new(target: String) -> (r: Self)
        requires
            cuttable_id(target@),
        ensures
            r.wf(),
            r@ == (ResolverModel { target: target@, misses: 0 }),
    {
        HostResolver { target, misses: 0 }
    }

    /// Whether the lookup has given up.
    pub fn gave_up(&self) -> (b: bool)
        ensures
            b == (self@.misses > RESOLVE_MISS_LIMIT),
    {
        self.misses > RESOLVE_MISS_LIMIT
    }

    /// The line shown before the first lookup.
    pub fn first_banner(&self) -> (line: Vec<u8>)
        requires
            self.wf(),
        ensures
            line@ == encode_utf8(resolving_line(self@.target, ""@)),
    {
        let s = resolving_text(self.target.as_str(), "");
        s.as_str().as_bytes_vec()
    }

    /// Records a failed lookup: the status line gets the next spinner
    /// frame, and after the 481st failure the lookup times out.
    pub fn on_miss(&mut self) -> (step: MissStep)
        requires
            old(self).wf(),
            old(self)@.misses <= RESOLVE_MISS_LIMIT,
        ensures
            final(self).wf(),
            final(self)@ == (ResolverModel {
                target: old(self)@.target,
                misses: old(self)@.misses + 1,
            }),
            step.banner@ == encode_utf8(
                "\r"@ + resolving_line(old(self)@.target, spinner_frame(old(self)@.misses)),
            ),
            step.timeout is Some <==> final(self)@.misses > RESOLVE_MISS_LIMIT,
            step.timeout matches Some(m) ==> m@ == "\n\x1b[01mTimeout: fail to find target "@
                + id_prefix(old(self)@.target) + "\x1b[0m\n"@,
    {
        let frame = super::common::spinner(self.misses);
        let mut line = String::new();
        line.append("\r");
        let body = resolving_text(self.target.as_str(), frame.as_str());
        line.append(body.as_str());
        let banner = line.as_str().as_bytes_vec();
        self.misses = self.misses + 1;
        if self.misses > RESOLVE_MISS_LIMIT {
            let mut m = String::new();
            m.append("\n\x1b[01mTimeout: fail to find target ");
            let t = short_id(self.target.as_str());
            m.append(t.as_str());
            m.append("\x1b[0m\n");
            MissStep { banner, timeout: Some(m) }
        } else {
            MissStep { banner, timeout: None }
        }
    }
}

/// The host named by a core address as the registry stores it.
pub fn core_addr_host(core_addr: &[u8]) -> (host: Option<String>)
    ensures
        opt_view(host) == url_host(utf8_lossy(core_addr@)),
{
    let text = decode_lossy(core_addr);
    parse_url_host(text.as_str())
}

/// The line that announces the host that was found.
pub fn found_banner(host: &str) -> (line: Vec<u8>)
    ensures
        line@ == encode_utf8("\n\x1b[01mFound target host: "@ + host@ + "\x1b[0m\n"@),
{
    let mut s = String::new();
    s.append("\n\x1b[01mFound target host: ");
    s.append(host);
    s.append("\x1b[0m\n");
    s.as_str().as_bytes_vec()
}

/// The address of the screen socket: the host and the port that the
/// server published.
pub fn screen_address(host: &str, port_reply: &[u8]) -> (addr: String)
    ensures
        addr@ == host@ + ":"@ + utf8_lossy(port_reply@),
{
    let mut s = String::new();
    s.append(host);
    s.append(":");
    let port = decode_lossy(port_reply);
    s.append(port.as_str());
    s
}

} // verus!

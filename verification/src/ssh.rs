//! Session configuration: resolution of optional connection parameters
//! to concrete defaults, the host-key trust policy, and the exact text
//! of connection targets and status messages. No I/O happens here; a
//! caller hands the resolved values to the transport.

use vstd::prelude::*;
use crate::text::{dec_str, push_u16_decimal};

verus! {

/// Trust rule for the remote host's key: `Strict` rejects an unknown or
/// changed key, `Accept` trusts any key without verification.
#[derive(Clone, Copy, Debug, PartialEq, Eq, Structural)]
pub enum HostKeyPolicy {
    Strict,
    Accept,
}

/// Optional connection parameters as a caller supplies them; every
/// absent field resolves to a fixed default before any network call.
#[derive(Debug, Clone)]
pub struct SshConfig {
    pub username: Option<String>,
    pub port: Option<u16>,
    pub strict_host_key_checking: Option<bool>,
    pub connect_timeout: Option<u64>,
}

/// A fully-resolved configuration: what the transport is actually given.
#[derive(Debug, Clone)]
pub struct ResolvedSshConfig {
    pub username: String,
    pub port: u16,
    pub host_key_policy: HostKeyPolicy,
    pub connect_timeout_secs: u64,
}

pub open spec fn spec_username(c: SshConfig) -> Seq<char> {
    match c.username {
        Some(u) => u@,
        None => "user"@,
    }
}

pub open spec fn spec_port(c: SshConfig) -> u16 {
    match c.port {
        Some(p) => p,
        None => 22,
    }
}

pub open spec fn spec_policy(c: SshConfig) -> HostKeyPolicy {
    match c.strict_host_key_checking {
        Some(false) => HostKeyPolicy::Accept,
        _ => HostKeyPolicy::Strict,
    }
}

pub open spec fn spec_timeout(c: SshConfig) -> u64 {
    match c.connect_timeout {
        Some(t) => t,
        None => 30,
    }
}

impl SshConfig {
    /// Resolves every optional parameter: username defaults to `user`,
    /// port to 22, host-key checking to strict, and the connect timeout
    /// to 30 seconds; `strict_host_key_checking = false` alone selects
    /// the `Accept` policy.
    pub fn resolve(&self) -> (r: ResolvedSshConfig)
        ensures
            r.username@ == spec_username(*self),
            r.port == spec_port(*self),
            r.host_key_policy == spec_policy(*self),
            r.connect_timeout_secs == spec_timeout(*self),
    {
        let username = match &self.username {
            Some(u) => u.clone(),
            None => "user".to_owned(),
        };
        let port = match self.port {
            Some(p) => p,
            None => 22,
        };
        let host_key_policy = match self.strict_host_key_checking {
            Some(false) => HostKeyPolicy::Accept,
            _ => HostKeyPolicy::Strict,
        };
        let connect_timeout_secs = match self.connect_timeout {
            Some(t) => t,
            None => 30,
        };
        ResolvedSshConfig { username, port, host_key_policy, connect_timeout_secs }
    }
}

impl Default for SshConfig {
    /// The stock configuration: unset username, and the defaults for
    /// port, strict checking and timeout spelled out.
    fn default() -> (r: Self)
        ensures
            r.username is None,
            r.port == Some(22u16),
            r.strict_host_key_checking == Some(true),
            r.connect_timeout == Some(30u64),
    {
        SshConfig {
            username: None,
            port: Some(22),
            strict_host_key_checking: Some(true),
            connect_timeout: Some(30),
        }
    }
}

/// The address handed to the transport: `user@ip`, with `:port`
/// appended only for a non-default port.
pub open spec fn spec_connection_target(user: Seq<char>, ip: Seq<char>, port: u16) -> Seq<char> {
    if port == 22 {
        user + "@"@ + ip
    } else {
        user + "@"@ + ip + ":"@ + dec_str(port as int)
    }
}

/// Builds the connection address for a resolved username, ip and port.
pub fn connection_target(username: &str, ip: &str, port: u16) -> (r: String)
    ensures
        r@ == spec_connection_target(username@, ip@, port),
{
    let mut out = String::new();
    out.append(username);
    out.append("@");
    out.append(ip);
    if port == 22 {
        proof {
            assert(out@ =~= spec_connection_target(username@, ip@, port));
        }
        out
    } else {
        out.append(":");
        push_u16_decimal(&mut out, port);
        proof {
            assert(out@ =~= spec_connection_target(username@, ip@, port));
        }
        out
    }
}

/// The description a successful connection probe reports; unlike the
/// connection target it always names the port.
pub open spec fn spec_success_message(user: Seq<char>, ip: Seq<char>, port: u16) -> Seq<char> {
    "Successfully connected to "@ + user + "@"@ + ip + ":"@ + dec_str(port as int)
}

/// Builds the success description for a connection probe.
pub fn success_message(username: &str, ip: &str, port: u16) -> (r: String)
    ensures
        r@ == spec_success_message(username@, ip@, port),
{
    let mut out = "Successfully connected to ".to_owned();
    out.append(username);
    out.append("@");
    out.append(ip);
    out.append(":");
    push_u16_decimal(&mut out, port);
    proof {
        assert(out@ =~= spec_success_message(username@, ip@, port));
    }
    out
}

/// The failure a connection attempt surfaces, prefixed onto the
/// transport's own description.
pub fn connect_failure_message(detail: &str) -> (r: String)
    ensures
        r@ == "Failed to connect: "@ + detail@,
{
    let mut out = "Failed to connect: ".to_owned();
    out.append(detail);
    out
}

/// The failure a connection probe surfaces, prefixed onto the
/// transport's own description.
pub fn test_failure_message(detail: &str) -> (r: String)
    ensures
        r@ == "Connection test failed: "@ + detail@,
{
    let mut out = "Connection test failed: ".to_owned();
    out.append(detail);
    out
}

} // verus!

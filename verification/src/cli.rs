//! Command-line surface: the argument records of the four subcommands and
//! the resolution of their defaults.
//!
//! These are the bare records the contracts speak of; the process that
//! parses the real command line fills them in and converts to and from its
//! own annotated copies.

use vstd::prelude::*;

verus! {

/// Port the relay's control listener is bound to; fixed by the protocol.
pub const CONTROL_PORT: u16 = 12345;

/// Data/proxy port used when none is given.
pub const DEFAULT_PROXY_PORT: u32 = 8080;

/// Arguments of the tunnel-serving subcommand.
#[derive(Clone, Debug)]
pub struct PortForwardArgs {
    /// Target to reverse-proxy, e.g. localhost:8080.
    pub target: String,
    /// Proxy to connect to; kept for compatibility, unused by the current
    /// transport, which always goes through the cluster.
    pub proxy: Option<String>,
    /// Deploy the relay before connecting.
    pub deploy: bool,
    /// Name for the relay's pod and service.
    pub name: Option<String>,
    /// Namespace for the relay; defaults to the context's namespace.
    pub namespace: Option<String>,
    /// Data port the relay listens on.
    pub port: Option<u32>,
    /// Override of the relay pod's image.
    pub proxy_image: Option<String>,
}

/// Arguments of the deploy subcommand.
#[derive(Clone, Debug)]
pub struct DeployArgs {
    /// Name for the relay's pod and service.
    pub name: Option<String>,
    /// Namespace for the relay; defaults to the context's namespace.
    pub namespace: Option<String>,
    /// Data port the relay listens on.
    pub port: Option<u32>,
    /// Override of the relay pod's image.
    pub proxy_image: Option<String>,
}

/// Arguments of the delete subcommand.
#[derive(Clone, Debug)]
pub struct DeleteArgs {
    /// Name of the relay's pod and service.
    pub name: Option<String>,
    /// Namespace of the relay; defaults to the context's namespace.
    pub namespace: Option<String>,
}

/// Arguments of the version subcommand.
#[derive(Clone, Debug)]
pub struct VersionArgs {}

/// The name a deployment runs under when none is given.
pub open spec fn spec_default_name() -> Seq<char> {
    "piggyback"@
}

/// The pod and service name to use: the one given, else the default.
pub fn resolve_name(name: Option<String>) -> (r: String)
    ensures
        r@ == match name {
            Some(n) => n@,
            None => spec_default_name(),
        },
{
    match name {
        Some(n) => n,
        None => String::from_str("piggyback"),
    }
}

/// The data port to use: the one given, else the default.
pub fn resolve_port(port: Option<u32>) -> (r: u32)
    ensures
        r == match port {
            Some(p) => p,
            None => DEFAULT_PROXY_PORT,
        },
{
    match port {
        Some(p) => p,
        None => DEFAULT_PROXY_PORT,
    }
}

/// The relay's own data-port setting, read from its environment as a string:
/// the value given, else the default written out.
pub fn resolve_port_var(v: Option<String>) -> (r: String)
    ensures
        r@ == match v {
            Some(s) => s@,
            None => "8080"@,
        },
{
    match v {
        Some(s) => s,
        None => String::from_str("8080"),
    }
}

} // verus!

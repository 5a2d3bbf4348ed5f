//! Node configuration: quote time-to-live and the environment-derived
//! settings the process is started with.

use vstd::prelude::*;

verus! {

/// Quote Time To Live config.
///
/// Specifies for how long, in seconds, a quote issued by the node will be
/// valid.
#[derive(Clone, Copy, Debug, PartialEq, Eq, Structural)]
pub struct QuoteTTLConfig {
    pub mint_ttl: u64,
    pub melt_ttl: u64,
}

/// The installed quote time-to-live settings.
#[derive(Clone, Copy, Debug, PartialEq, Eq, Structural)]
pub struct QuoteTTLConfigState {
    pub mint_ttl: u64,
    pub melt_ttl: u64,
}

impl QuoteTTLConfigState {
    /// Returns the number of seconds a new mint quote is valid for.
    pub fn mint_ttl(&self) -> (r: u64)
        ensures
            r == self.mint_ttl,
    {
        self.mint_ttl
    }

    /// Returns the number of seconds a new melt quote is valid for.
    pub fn melt_ttl(&self) -> (r: u64)
        ensures
            r == self.melt_ttl,
    {
        self.melt_ttl
    }
}

impl From<QuoteTTLConfig> for QuoteTTLConfigState {
    fn from(value: QuoteTTLConfig) -> Self {
        QuoteTTLConfigState { mint_ttl: value.mint_ttl, melt_ttl: value.melt_ttl }
    }
}

impl vstd::std_specs::convert::FromSpecImpl<QuoteTTLConfig> for QuoteTTLConfigState {
    open spec fn obeys_from_spec() -> bool {
        true
    }

    open spec fn from_spec(value: QuoteTTLConfig) -> Self {
        QuoteTTLConfigState { mint_ttl: value.mint_ttl, melt_ttl: value.melt_ttl }
    }
}

/// The settings read from the process environment at startup.
pub struct EnvVariables {
    /// Database connection string.
    pub pg_url: String,
    /// Endpoint of the remote signer.
    pub signer_url: String,
    pub grpc_port: u16,
    pub rest_port: u16,
    /// Seconds a fresh quote stays valid; the default applies when absent.
    pub quote_ttl: Option<u64>,
}

/// The default quote time-to-live, in seconds.
pub const DEFAULT_QUOTE_TTL: u64 = 3600;

/// The time-to-live configuration chosen for a given environment setting.
pub fn resolve_quote_ttl(quote_ttl: Option<u64>) -> (r: QuoteTTLConfig)
    ensures
        quote_ttl is Some ==> r.mint_ttl == quote_ttl->Some_0
            && r.melt_ttl == quote_ttl->Some_0,
        quote_ttl is None ==> r.mint_ttl == DEFAULT_QUOTE_TTL
            && r.melt_ttl == DEFAULT_QUOTE_TTL,
{
    let ttl = match quote_ttl {
        Some(v) => v,
        None => DEFAULT_QUOTE_TTL,
    };
    QuoteTTLConfig { mint_ttl: ttl, melt_ttl: ttl }
}

} // verus!

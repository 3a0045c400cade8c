//! What a context is configured with.

use crate::utils::{FlowRunId, NodeId};
use std::collections::HashMap;
use vstd::prelude::*;
use vstd::std_specs::hash::*;

verus! {

/// Where the chain's RPC endpoint is.
#[derive(Debug, PartialEq, Eq)]
pub struct SolanaClientConfig {
    pub url: String,
}

/// The addresses of the services a node may talk to.
#[derive(Debug, PartialEq, Eq)]
pub struct Endpoints {
    pub flow_server: String,
    pub supabase: String,
    pub supabase_anon_key: String,
}

impl Clone for Endpoints {
    fn clone(&self) -> (copy: Self)
        ensures
            copy == *self,
    {
        Endpoints {
            flow_server: self.flow_server.clone(),
            supabase: self.supabase.clone(),
            supabase_anon_key: self.supabase_anon_key.clone(),
        }
    }
}

/// The configuration of one flow run.
#[derive(Debug, PartialEq, Eq)]
pub struct ContextConfig {
    pub solana_client: SolanaClientConfig,
    pub environment: HashMap<String, String>,
    pub endpoints: Endpoints,
}

impl ContextConfig {
    /// Two configurations that say the same: the environments hold the same
    /// names with the same values, and everything else is equal.
    pub open spec fn agrees_with(&self, other: &ContextConfig) -> bool {
        &&& self.solana_client == other.solana_client
        &&& self.environment@ == other.environment@
        &&& self.endpoints == other.endpoints
    }
}

impl ContextConfig {
    /// A configuration that names no address and sets nothing in the
    /// environment.
    pub open spec fn is_blank(&self) -> bool {
        &&& self.solana_client.url@.len() == 0
        &&& self.environment@ == Map::<String, String>::empty()
        &&& self.endpoints.flow_server@.len() == 0
        &&& self.endpoints.supabase@.len() == 0
        &&& self.endpoints.supabase_anon_key@.len() == 0
    }
}

impl Clone for ContextConfig {
    fn clone(&self) -> (copy: Self)
        ensures
            copy.agrees_with(self),
    {
        ContextConfig {
            solana_client: SolanaClientConfig { url: self.solana_client.url.clone() },
            environment: self.environment.clone(),
            endpoints: self.endpoints.clone(),
        }
    }
}

impl Default for ContextConfig {
    /// A configuration with no addresses and an empty environment.
    fn default() -> (cfg: Self)
        ensures
            cfg.is_blank(),
    {
        ContextConfig {
            solana_client: SolanaClientConfig { url: String::new() },
            environment: HashMap::new(),
            endpoints: Endpoints {
                flow_server: String::new(),
                supabase: String::new(),
                supabase_anon_key: String::new(),
            },
        }
    }
}

/// What set a flow run going.
#[derive(Clone, Copy, Debug, PartialEq, Eq, Structural)]
pub enum FlowRunOrigin {
    /// A user started it.
    Start,
    /// A node of another flow run started it, at that node's attempt `times`.
    Interflow { flow_run_id: FlowRunId, node_id: NodeId, times: u32 },
}

} // verus!

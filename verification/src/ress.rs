//! Arguments of the `ress` stateless-sync subprotocol and the decision of
//! what its installation sets up.

use vstd::prelude::*;

verus! {

/// Command-line arguments of the `ress` subprotocol.
#[derive(Debug, Clone, Copy, PartialEq, Eq)]
pub struct RessArgs {
    /// Enable the ress stateless-sync subprotocol.
    pub enabled: bool,
    /// Maximum window (in blocks) for which witnesses are served.
    pub max_witness_window: u64,
    /// Maximum number of witnesses fetched in parallel.
    pub witness_max_parallel: usize,
    /// LRU cache size for witnesses.
    pub witness_cache_size: usize,
    /// Maximum simultaneous active ress connections.
    pub max_active_connections: usize,
}

impl Default for RessArgs {
    /// The values that the command line gives when no flag is passed: the
    /// subprotocol is off, witnesses are served for 64 blocks, 8 are fetched
    /// in parallel, 256 are cached, and 10 connections may be active.
    fn default() -> (r: RessArgs)
        ensures
            r == (RessArgs {
                enabled: false,
                max_witness_window: 64,
                witness_max_parallel: 8,
                witness_cache_size: 256,
                max_active_connections: 10,
            }),
    {
        RessArgs {
            enabled: false,
            max_witness_window: 64,
            witness_max_parallel: 8,
            witness_cache_size: 256,
            max_active_connections: 10,
        }
    }
}

/// The role in which this node takes part in the subprotocol.
#[derive(Debug, Clone, Copy, PartialEq, Eq)]
pub enum RessNodeType {
    /// A node that holds the full state and serves witnesses.
    Stateful,
}

/// What installing the subprotocol sets up: the witness provider's limits
/// and the protocol handler's role and connection limit.
#[derive(Debug, Clone, Copy, PartialEq, Eq)]
pub struct RessInstallPlan {
    pub max_witness_window: u64,
    pub witness_max_parallel: usize,
    pub witness_cache_size: usize,
    pub node_type: RessNodeType,
    pub max_active_connections: usize,
}

impl RessArgs {
    /// Decides whether the subprotocol is installed and with which limits:
    /// nothing is installed unless it is enabled, and then every limit is
    /// the one given on the command line.
    pub fn install_plan(&self) -> (r: Option<RessInstallPlan>)
        ensures
            r is Some <==> self.enabled,
            r matches Some(p) ==> p == (RessInstallPlan {
                max_witness_window: self.max_witness_window,
                witness_max_parallel: self.witness_max_parallel,
                witness_cache_size: self.witness_cache_size,
                node_type: RessNodeType::Stateful,
                max_active_connections: self.max_active_connections,
            }),
    {
        if !self.enabled {
            return None;
        }
        Some(RessInstallPlan {
            max_witness_window: self.max_witness_window,
            witness_max_parallel: self.witness_max_parallel,
            witness_cache_size: self.witness_cache_size,
            node_type: RessNodeType::Stateful,
            max_active_connections: self.max_active_connections,
        })
    }
}

} // verus!

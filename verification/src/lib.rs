//! Mitosis EVM customisation layer.
//!
//! The one behaviour in which the Mitosis execution layer departs from plain
//! Ethereum is a one-time write of the canonical Multicall3 bytecode into the
//! state at a single block of the Mitosis devnet.  This crate holds the rules
//! of that write (when it fires and what it writes), the thin wrapper types
//! that install it in a node, and the arguments of the optional `ress`
//! subprotocol.

pub mod executor;
pub mod hash;
pub mod primitives;
pub mod ress;
pub mod system_calls;

pub use executor::{MitosisBlockExecutor, MitosisBlockExecutorFactory, MitosisExecutorBuilder};
pub use primitives::{Address, B256, U256};
pub use ress::{RessArgs, RessInstallPlan, RessNodeType};
pub use system_calls::{deploy_multicall3_contract, multicall3_deployment_target};

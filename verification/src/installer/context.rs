//! What the installer has gathered by the time it installs.

use vstd::prelude::*;

verus! {

/// How to reach the Bitcoin node.
#[derive(Debug, PartialEq, Eq)]
pub struct BitcoindConfig {
    /// Where the node keeps its authentication cookie.
    pub cookie_path: String,
    /// The address of the node's RPC interface.
    pub addr: String,
}

/// The installer's state across its steps.
#[derive(Debug, PartialEq, Eq)]
pub struct Context {
    /// The signing devices that take part in the wallet, each by its make and
    /// the fingerprint of its master key.
    pub hws: Vec<(String, [u8; 4])>,
    /// The connection to the Bitcoin node, once it has been entered.
    pub bitcoind_config: Option<BitcoindConfig>,
}

} // verus!

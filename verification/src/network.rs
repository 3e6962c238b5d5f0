//! The Bitcoin networks a wallet can be installed for.

use vstd::prelude::*;

verus! {

/// A Bitcoin network.
#[derive(Debug, Clone, Copy, PartialEq, Eq, Structural)]
pub enum Network {
    Mainnet,
    Testnet,
    Regtest,
    Signet,
}

/// The networks in the order in which a picker offers them.
pub const NETWORKS: [Network; 4] = [
    Network::Mainnet,
    Network::Testnet,
    Network::Signet,
    Network::Regtest,
];

/// The name under which the main network is shown.
pub const MAINNET_LABEL: &'static str = "Bitcoin mainnet";

/// The name under which the test network is shown.
pub const TESTNET_LABEL: &'static str = "Bitcoin testnet";

/// The name under which a regression-test network is shown.
pub const REGTEST_LABEL: &'static str = "Bitcoin regtest";

/// The name under which the signet is shown.
pub const SIGNET_LABEL: &'static str = "Bitcoin signet";

impl Network {
    /// The name under which the network is shown.
    pub open spec fn label_text(self) -> &'static str {
        match self {
            Network::Mainnet => MAINNET_LABEL,
            Network::Testnet => TESTNET_LABEL,
            Network::Regtest => REGTEST_LABEL,
            Network::Signet => SIGNET_LABEL,
        }
    }

    /// The name under which the network is shown.
    pub fn label(&self) -> (text: &'static str)
        ensures
            text == self.label_text(),
    {
        match self {
            Network::Mainnet => MAINNET_LABEL,
            Network::Testnet => TESTNET_LABEL,
            Network::Regtest => REGTEST_LABEL,
            Network::Signet => SIGNET_LABEL,
        }
    }
}

/// The picker offers every network.
pub proof fn networks_are_complete(network: Network)
    ensures
        exists|i: int| 0 <= i < 4 && NETWORKS[i] == network,
{
    match network {
        Network::Mainnet => assert(NETWORKS[0] == network),
        Network::Testnet => assert(NETWORKS[1] == network),
        Network::Signet => assert(NETWORKS[2] == network),
        Network::Regtest => assert(NETWORKS[3] == network),
    }
}

/// The picker offers no network twice.
pub proof fn networks_are_distinct(i: int, j: int)
    requires
        0 <= i < 4,
        0 <= j < 4,
        NETWORKS[i] == NETWORKS[j],
    ensures
        i == j,
{
}

/// Two networks are shown under the same name only if they are the same
/// network.
pub proof fn labels_are_distinct(a: Network, b: Network)
    requires
        a.label_text()@ == b.label_text()@,
    ensures
        a == b,
{
    reveal_strlit("Bitcoin mainnet");
    reveal_strlit("Bitcoin testnet");
    reveal_strlit("Bitcoin regtest");
    reveal_strlit("Bitcoin signet");
    assert(Network::Mainnet.label_text()@[8] == 'm');
    assert(Network::Testnet.label_text()@[8] == 't');
    assert(Network::Regtest.label_text()@[8] == 'r');
    assert(Network::Signet.label_text()@[8] == 's');
}

} // verus!

//! Common types and data structures.

use vstd::prelude::*;
use vstd::string::StringExecFns;

pub mod utils;

verus! {

/// Network type (Mainnet, Testnet, or Regtest).
#[derive(Debug, Clone, Copy, PartialEq, Eq, Structural)]
pub enum Network {
    Mainnet,
    Testnet,
    Regtest,
}

impl Default for Network {
    fn default() -> (network: Self)
        ensures
            network == Network::Mainnet,
    {
        Network::Mainnet
    }
}

/// The consensus rules under which addresses and keys are encoded. Regtest
/// has no encoding of its own here: it uses that of the test network.
#[derive(Debug, Clone, Copy, PartialEq, Eq, Structural)]
pub enum ConsensusNetwork {
    MainNetwork,
    TestNetwork,
}

impl Network {
    /// The consensus network whose address grammar this network uses.
    pub open spec fn spec_consensus_network(self) -> ConsensusNetwork {
        match self {
            Network::Mainnet => ConsensusNetwork::MainNetwork,
            Network::Testnet => ConsensusNetwork::TestNetwork,
            Network::Regtest => ConsensusNetwork::TestNetwork,
        }
    }

    /// The consensus network whose address grammar this network uses.
    #[verifier::when_used_as_spec(spec_consensus_network)]
    pub fn consensus_network(self) -> (consensus: ConsensusNetwork)
        ensures
            consensus == self.spec_consensus_network(),
    {
        match self {
            Network::Mainnet => ConsensusNetwork::MainNetwork,
            Network::Testnet => ConsensusNetwork::TestNetwork,
            Network::Regtest => ConsensusNetwork::TestNetwork,
        }
    }
}

/// An address together with the kind of address it is.
#[derive(Debug, Clone, PartialEq, Eq)]
pub enum AddressType {
    Unified(String),
    Sapling(String),
    Orchard(String),
    Transparent(String),
}

/// Transaction status.
#[derive(Debug, Clone, Copy, PartialEq, Eq, Structural)]
pub enum TransactionStatus {
    Pending,
    Confirmed { height: u64 },
    Rejected,
}

/// Balance information, in zatoshis.
#[derive(Debug, Clone, Copy, PartialEq, Eq, Structural)]
pub struct Balance {
    pub transparent: u64,
    pub sapling: u64,
    pub orchard: u64,
    pub total: u64,
}

impl Balance {
    /// The total is the sum of the three pools.
    pub open spec fn wf(self) -> bool {
        self.total == self.transparent + self.sapling + self.orchard
    }
}

impl Default for Balance {
    fn default() -> (balance: Self)
        ensures
            balance == (Balance { transparent: 0, sapling: 0, orchard: 0, total: 0 }),
            balance.wf(),
    {
        Balance { transparent: 0, sapling: 0, orchard: 0, total: 0 }
    }
}

/// Transaction information.
#[derive(Debug, Clone, PartialEq, Eq)]
pub struct Transaction {
    pub txid: String,
    pub status: TransactionStatus,
    /// Negative for sent, positive for received; in zatoshis.
    pub amount: i64,
    pub fee: u64,
    pub memo: Option<String>,
    pub timestamp: Option<u64>,
}

/// Block information.
#[derive(Debug, Clone, PartialEq, Eq)]
pub struct BlockInfo {
    pub height: u64,
    pub hash: String,
    pub time: u64,
    pub size: u64,
}

/// The lowercase equivalent of a text, as Unicode defines it.
pub uninterp spec fn lowercase_of(text: Seq<char>) -> Seq<char>;

/// The lowercase equivalent of a text.
///
/// Calls `str::to_lowercase`. The contract only names the result: it is a
/// function of the text alone.
#[verifier::external_body]
fn to_lowercase(text: &str) -> (lowered: String)
    ensures
        lowered@ == lowercase_of(text@),
{
    text.to_lowercase()
}

/// The network that a lowercase name stands for: mainnet unless the name is
/// "testnet" or "regtest".
pub open spec fn network_named(name: Seq<char>) -> Network {
    if name == "testnet"@ {
        Network::Testnet
    } else if name == "regtest"@ {
        Network::Regtest
    } else {
        Network::Mainnet
    }
}

/// The network that a lowercase name stands for: mainnet unless the name is
/// "testnet" or "regtest".
pub fn network_from_name(name: &str) -> (network: Network)
    ensures
        network == network_named(name@),
{
    let name = String::from_str(name);
    if name == String::from_str("testnet") {
        Network::Testnet
    } else if name == String::from_str("regtest") {
        Network::Regtest
    } else {
        Network::Mainnet
    }
}

/// The network that a name stands for, whatever its case. Any name but
/// "testnet" and "regtest" stands for mainnet.
pub fn parse_network(network_str: &str) -> (network: Network)
    ensures
        network == network_named(lowercase_of(network_str@)),
{
    let name = to_lowercase(network_str);
    network_from_name(name.as_str())
}

/// The name of a known network, given in lowercase, stands for that network,
/// and a name that lowers to neither "testnet" nor "regtest" stands for
/// mainnet.
pub proof fn lemma_network_names()
    ensures
        network_named("testnet"@) == Network::Testnet,
        network_named("regtest"@) == Network::Regtest,
        network_named("mainnet"@) == Network::Mainnet,
{
    reveal_strlit("testnet");
    reveal_strlit("regtest");
    reveal_strlit("mainnet");
    assert("mainnet"@[0] != "testnet"@[0]);
    assert("mainnet"@[0] != "regtest"@[0]);
    assert("regtest"@[0] != "testnet"@[0]);
}

} // verus!

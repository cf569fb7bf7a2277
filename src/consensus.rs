//! Protocol constants that the wallet takes from the Zcash crates.
use vstd::prelude::*;
use vstd::string::StrSliceExecFns;
use zcash_primitives::transaction::fees::zip317::{FeeRule, MINIMUM_FEE};
use zcash_protocol::consensus::{Network, NetworkUpgrade, Parameters};

use crate::error::Error;

verus! {

/// The chains a wallet can follow.
#[derive(Debug, Clone, Copy, PartialEq, Eq, Structural)]
pub enum ChainType {
    Mainnet,
    Testnet,
}

/// The height at which the Sapling upgrade activated on `chain`.
pub open spec fn sapling_activation(chain: ChainType) -> u32 {
    match chain {
        ChainType::Mainnet => 419_200,
        ChainType::Testnet => 280_000,
    }
}

/// Relies on zcash_primitives' `FeeRule::standard().marginal_fee()`: the
/// ZIP-317 marginal fee of 5,000 zatoshis per logical action.
#[verifier::external_body]
pub(crate) fn standard_marginal_fee() -> (r: u64)
    ensures
        r == 5_000,
{
    u64::from(FeeRule::standard().marginal_fee())
}

/// Relies on zcash_primitives' `zip317::MINIMUM_FEE`: the ZIP-317 floor of
/// 10,000 zatoshis on any transaction's fee.
#[verifier::external_body]
pub(crate) fn zip317_minimum_fee() -> (r: u64)
    ensures
        r == 10_000,
{
    u64::from(MINIMUM_FEE)
}

/// Relies on zcash_protocol's `Parameters::activation_height` for the
/// Sapling upgrade: block 419,200 on mainnet and 280,000 on testnet.
#[verifier::external_body]
pub(crate) fn sapling_activation_height(chain: ChainType) -> (r: Option<u32>)
    ensures
        r == Some(sapling_activation(chain)),
{
    let network = match chain {
        ChainType::Mainnet => Network::MainNetwork,
        ChainType::Testnet => Network::TestNetwork,
    };
    network.activation_height(NetworkUpgrade::Sapling).map(u32::from)
}

/// The chain that a node names in its info: "main" or "test".
pub fn parse_network(chain_name: &String) -> (r: Result<ChainType, Error>)
    ensures
        chain_name@ == seq!['m', 'a', 'i', 'n'] ==> r == Ok::<ChainType, Error>(ChainType::Mainnet),
        chain_name@ == seq!['t', 'e', 's', 't'] ==> r == Ok::<ChainType, Error>(ChainType::Testnet),
        chain_name@ != seq!['m', 'a', 'i', 'n'] && chain_name@ != seq!['t', 'e', 's', 't'] ==> r is Err
            && r->Err_0 is Internal,
{
    let main = String::from_str("main");
    let test = String::from_str("test");
    proof {
        reveal_strlit("main");
        reveal_strlit("test");
        assert(main@ =~= seq!['m', 'a', 'i', 'n']);
        assert(test@ =~= seq!['t', 'e', 's', 't']);
    }
    if *chain_name == main {
        Ok(ChainType::Mainnet)
    } else if *chain_name == test {
        Ok(ChainType::Testnet)
    } else {
        let mut message = String::from_str("Unknown network: ");
        message.append(chain_name.as_str());
        Err(Error::Internal(message))
    }
}

} // verus!

use vstd::prelude::*;
use crate::data::{ChainConfig, ChainConfigV, wf_config};
use crate::error::ChainSpecError;

verus! {

/// A chain identity: one of the five known networks, or an arbitrary custom
/// configuration record.
#[derive(Clone, PartialEq, Eq, Debug)]
pub enum Genesis {
    Mainnet,
    OpMainnet,
    Sepolia,
    Holesky,
    Linea,
    Custom(ChainConfig),
}

/// The mathematical content of a [`Genesis`].
pub enum GenesisV {
    Mainnet,
    OpMainnet,
    Sepolia,
    Holesky,
    Linea,
    Custom(ChainConfigV),
}

impl View for Genesis {
    type V = GenesisV;

    open spec fn view(&self) -> GenesisV {
        match self {
            Genesis::Mainnet => GenesisV::Mainnet,
            Genesis::OpMainnet => GenesisV::OpMainnet,
            Genesis::Sepolia => GenesisV::Sepolia,
            Genesis::Holesky => GenesisV::Holesky,
            Genesis::Linea => GenesisV::Linea,
            Genesis::Custom(c) => GenesisV::Custom(c@),
        }
    }
}

/// Well-formedness of an identity: a custom record is in canonical order.
pub open spec fn wf_genesis(g: GenesisV) -> bool {
    match g {
        GenesisV::Custom(c) => wf_config(c),
        _ => true,
    }
}

/// The numeric chain id of each named network.
pub open spec fn named_chain_id(g: GenesisV) -> u64
    recommends
        !(g is Custom),
{
    match g {
        GenesisV::Mainnet => 1,
        GenesisV::OpMainnet => 10,
        GenesisV::Sepolia => 11155111,
        GenesisV::Holesky => 17000,
        GenesisV::Linea => 59144,
        GenesisV::Custom(_) => 0,
    }
}

/// What resolving a numeric chain id yields: the matching named variant, or
/// the unsupported-chain error carrying that exact id.
pub open spec fn spec_resolve_chain_id(id: u64) -> Result<Genesis, ChainSpecError> {
    if id == 1 {
        Ok(Genesis::Mainnet)
    } else if id == 10 {
        Ok(Genesis::OpMainnet)
    } else if id == 17000 {
        Ok(Genesis::Holesky)
    } else if id == 59144 {
        Ok(Genesis::Linea)
    } else if id == 11155111 {
        Ok(Genesis::Sepolia)
    } else {
        Err(ChainSpecError::ChainNotSupported(id))
    }
}

impl Genesis {
    /// Resolves a numeric chain id to its named network. Total: every id in
    /// the known set yields its variant, every other id yields
    /// `ChainNotSupported` with that id.
    pub fn from_chain_id(id: u64) -> (r: Result<Genesis, ChainSpecError>)
        ensures
            r == spec_resolve_chain_id(id),
            r matches Ok(g) ==> !(g@ is Custom) && named_chain_id(g@) == id && wf_genesis(g@),
            r matches Err(e) ==> e == ChainSpecError::ChainNotSupported(id),
    {
        match id {
            1u64 => Ok(Genesis::Mainnet),
            10u64 => Ok(Genesis::OpMainnet),
            17000u64 => Ok(Genesis::Holesky),
            59144u64 => Ok(Genesis::Linea),
            11155111u64 => Ok(Genesis::Sepolia),
            _ => Err(ChainSpecError::ChainNotSupported(id)),
        }
    }

    /// The configuration record of a custom identity, if this is one.
    pub fn custom_config(&self) -> (r: Option<&ChainConfig>)
        ensures
            self matches Genesis::Custom(c) ==> (r matches Some(rc) && *rc == c),
            r is None <==> !(self is Custom),
    {
        match self {
            Genesis::Custom(c) => Some(c),
            _ => None,
        }
    }
}

} // verus!

use vstd::prelude::*;
use crate::data::{ChainConfig, EvolveConfig, EvolveSection};
use crate::genesis::{Genesis, GenesisV};

verus! {

/// What overlay extraction yields on a configuration record: the overlay if
/// and only if the record's metadata held a well-formed `evolve` section;
/// absence — never an error — otherwise. A section that was present but
/// unreadable degrades to absence by design.
pub open spec fn spec_overlay_of_config(c: crate::data::ChainConfigV) -> Option<EvolveConfig> {
    match c.evolve {
        EvolveSection::Present(cfg) => Some(cfg),
        _ => None,
    }
}

/// What overlay extraction yields on an identity: absent for every named
/// variant, and for a custom record whatever extraction on the record yields.
pub open spec fn spec_overlay_of_genesis(g: GenesisV) -> Option<EvolveConfig> {
    match g {
        GenesisV::Custom(c) => spec_overlay_of_config(c),
        _ => None,
    }
}

/// A feature with activation height `activation` applies at block height
/// `height` iff its value is present, a height is given, and `height` is at
/// or above it. A present value without a height is inert: this is the
/// explicit policy for the otherwise ambiguous case.
pub open spec fn feature_active(value_present: bool, activation: Option<u64>, height: u64) -> bool {
    value_present && match activation {
        Some(h) => height >= h,
        None => false,
    }
}

impl EvolveConfig {
    /// Extracts the overlay from a configuration record's extension metadata.
    /// Returns `None` if no `evolve` section exists or if the section was
    /// unreadable.
    pub fn from_chain_config(config: &ChainConfig) -> (r: Option<EvolveConfig>)
        ensures
            r == spec_overlay_of_config(config@),
            r is Some <==> config@.evolve is Present,
    {
        match &config.evolve {
            EvolveSection::Present(cfg) => Some(*cfg),
            _ => None,
        }
    }

    /// Extracts the overlay from a chain identity. Returns `None` for every
    /// named variant.
    pub fn from_genesis(genesis: &Genesis) -> (r: Option<EvolveConfig>)
        ensures
            r == spec_overlay_of_genesis(genesis@),
            !(genesis@ is Custom) ==> r is None,
    {
        match genesis {
            Genesis::Custom(config) => Self::from_chain_config(config),
            _ => None,
        }
    }

    /// Whether the base-fee redirect applies at the given block height: the
    /// sink address and the activation height are both set, and the height is
    /// reached. A sink without a height is inert.
    pub fn base_fee_redirect_active_at(&self, height: u64) -> (r: bool)
        ensures
            r == feature_active(
                self.base_fee_sink is Some,
                self.base_fee_redirect_activation_height,
                height,
            ),
    {
        self.base_fee_sink.is_some() && match self.base_fee_redirect_activation_height {
            Some(h) => height >= h,
            None => false,
        }
    }

    /// Whether the mint precompile applies at the given block height: the
    /// admin address and the activation height are both set, and the height
    /// is reached. An admin without a height is inert.
    pub fn mint_precompile_active_at(&self, height: u64) -> (r: bool)
        ensures
            r == feature_active(
                self.mint_admin is Some,
                self.mint_precompile_activation_height,
                height,
            ),
    {
        self.mint_admin.is_some() && match self.mint_precompile_activation_height {
            Some(h) => height >= h,
            None => false,
        }
    }

    /// Whether the custom contract size limit applies at the given block
    /// height: the limit and the activation height are both set, and the
    /// height is reached. A limit without a height is inert.
    pub fn contract_size_limit_active_at(&self, height: u64) -> (r: bool)
        ensures
            r == feature_active(
                self.contract_size_limit is Some,
                self.contract_size_limit_activation_height,
                height,
            ),
    {
        self.contract_size_limit.is_some() && match self.contract_size_limit_activation_height {
            Some(h) => height >= h,
            None => false,
        }
    }
}

/// Each overlay feature is gated independently and strictly by block height:
/// with an activation height `h` given and the feature's value present, the
/// feature applies at every height at or above `h` and at no height below it,
/// whatever the other features say.
pub proof fn lemma_height_gating(cfg: EvolveConfig, h: u64, height: u64)
    requires
        cfg.mint_admin is Some,
        cfg.mint_precompile_activation_height == Some(h),
    ensures
        feature_active(cfg.mint_admin is Some, cfg.mint_precompile_activation_height, height)
            == (height >= h),
{
}

} // verus!

use evolve_chainspec::chainspec::{
    BaseFeeParamsKind, ChainSpec, OpChainSpec, LINEA_GENESIS_JSON,
};
use evolve_chainspec::data::{EthFork, EvolveSection, ForkCondition, ForkId};
use evolve_chainspec::error::ChainSpecError;
use evolve_chainspec::genesis::Genesis;
use evolve_chainspec::json::genesis_from_json;
use evolve_chainspec::data::EvolveConfig;

#[test]
fn test_resolution_known_ids() {
    assert_eq!(Genesis::from_chain_id(1), Ok(Genesis::Mainnet));
    assert_eq!(Genesis::from_chain_id(10), Ok(Genesis::OpMainnet));
    assert_eq!(Genesis::from_chain_id(17000), Ok(Genesis::Holesky));
    assert_eq!(Genesis::from_chain_id(59144), Ok(Genesis::Linea));
    assert_eq!(Genesis::from_chain_id(11155111), Ok(Genesis::Sepolia));
}

#[test]
fn test_resolution_unknown_ids_carry_the_id() {
    assert_eq!(Genesis::from_chain_id(2), Err(ChainSpecError::ChainNotSupported(2)));
    assert_eq!(Genesis::from_chain_id(0), Err(ChainSpecError::ChainNotSupported(0)));
    assert_eq!(
        Genesis::from_chain_id(11155420),
        Err(ChainSpecError::ChainNotSupported(11155420))
    );
    assert_eq!(
        Genesis::from_chain_id(u64::MAX),
        Err(ChainSpecError::ChainNotSupported(u64::MAX))
    );
}

#[test]
fn test_cross_family_conversion_is_refused() {
    assert!(matches!(
        ChainSpec::from_identity(&Genesis::OpMainnet),
        Err(ChainSpecError::InvalidConversion)
    ));
    assert!(matches!(
        OpChainSpec::from_identity(&Genesis::Mainnet),
        Err(ChainSpecError::InvalidConversion)
    ));
    assert!(matches!(
        OpChainSpec::from_identity(&Genesis::Sepolia),
        Err(ChainSpecError::InvalidConversion)
    ));
    assert!(matches!(
        OpChainSpec::from_identity(&Genesis::Holesky),
        Err(ChainSpecError::InvalidConversion)
    ));
    assert!(matches!(
        OpChainSpec::from_identity(&Genesis::Linea),
        Err(ChainSpecError::InvalidConversion)
    ));
}

#[test]
fn test_mainnet_ruleset_values() {
    let s = ChainSpec::from_identity(&Genesis::Mainnet).unwrap();
    assert_eq!(s.chain_id, 1);
    assert_eq!(s.hardforks.len(), 21);
    assert_eq!(s.hardforks[0], (ForkId::Eth(EthFork::Frontier), ForkCondition::Block(0)));
    assert_eq!(s.hardforks[11], (ForkId::Eth(EthFork::London), ForkCondition::Block(12965000)));
    assert_eq!(
        s.hardforks[14],
        (
            ForkId::Eth(EthFork::Paris),
            ForkCondition::Ttd {
                fork_block: None,
                activation_block: 15537394,
                total_difficulty: 58750000000000000000000,
            }
        )
    );
    assert_eq!(
        s.hardforks[16],
        (ForkId::Eth(EthFork::Cancun), ForkCondition::Timestamp(1710338135))
    );
    assert_eq!(s.prune_delete_limit, 20000);
    match &s.base_fee_params {
        BaseFeeParamsKind::Constant(p) => {
            assert_eq!(p.max_change_denominator, 8);
            assert_eq!(p.elasticity_multiplier, 2);
        }
        _ => panic!("mainnet base fee parameters are constant"),
    }
    assert_eq!(s.blob_params.cancun.update_fraction, 3338477);
    assert_eq!(s.blob_params.prague.update_fraction, 5007716);
    assert_eq!(s.blob_params.scheduled.len(), 2);
    assert_eq!(s.blob_params.scheduled[0].0, 1765290071);
    assert_eq!(s.blob_params.scheduled[0].1.target_blob_count, 10);
    assert_eq!(s.blob_params.scheduled[1].0, 1767747671);
    assert_eq!(s.blob_params.scheduled[1].1.max_blob_count, 21);
}

#[test]
fn test_sepolia_and_holesky_rulesets() {
    let sep = ChainSpec::from_identity(&Genesis::Sepolia).unwrap();
    assert_eq!(sep.chain_id, 11155111);
    assert_eq!(sep.hardforks.len(), 20);
    assert_eq!(sep.prune_delete_limit, 10000);
    assert_eq!(
        sep.hardforks[19],
        (ForkId::Eth(EthFork::Amsterdam), ForkCondition::Timestamp(1791294816))
    );
    let hol = ChainSpec::from_identity(&Genesis::Holesky).unwrap();
    assert_eq!(hol.chain_id, 17000);
    assert_eq!(hol.hardforks.len(), 19);
    assert_eq!(hol.blob_params.scheduled[0].0, 1759800000);
}

#[test]
fn test_op_mainnet_ruleset_values() {
    let s = OpChainSpec::from_identity(&Genesis::OpMainnet).unwrap();
    assert_eq!(s.inner.chain_id, 10);
    assert_eq!(s.inner.hardforks.len(), 27);
    assert_eq!(s.inner.hardforks[0], (ForkId::Eth(EthFork::Frontier), ForkCondition::Block(0)));
    assert_eq!(
        s.inner.hardforks[9],
        (ForkId::Eth(EthFork::Berlin), ForkCondition::Block(3950000))
    );
    // The boundary that keys the pre-Canyon base-fee parameters is in the
    // activation set itself.
    assert!(s
        .inner
        .hardforks
        .contains(&(ForkId::Eth(EthFork::London), ForkCondition::Block(105235063))));
    assert_eq!(
        s.inner.hardforks[14],
        (ForkId::Op(evolve_chainspec::data::OpFork::Bedrock), ForkCondition::Block(105235063))
    );
    assert_eq!(
        s.inner.hardforks[18],
        (ForkId::Eth(EthFork::Cancun), ForkCondition::Timestamp(1710374401))
    );
    assert_eq!(
        s.inner.hardforks[26],
        (ForkId::Op(evolve_chainspec::data::OpFork::Jovian), ForkCondition::Timestamp(1764691201))
    );
    match &s.inner.base_fee_params {
        BaseFeeParamsKind::Variable(v) => {
            assert_eq!(v.len(), 2);
            assert_eq!(v[0].0, ForkId::Eth(EthFork::London));
            assert_eq!(v[0].1.max_change_denominator, 50);
            assert_eq!(v[0].1.elasticity_multiplier, 6);
            assert_eq!(v[1].1.max_change_denominator, 250);
        }
        _ => panic!("the secondary family's base fee parameters are boundary-keyed"),
    }
    assert_eq!(s.inner.blob_params.scheduled.len(), 0);
}

#[test]
fn test_linea_ruleset_from_bundled_genesis() {
    let s = ChainSpec::from_identity(&Genesis::Linea).unwrap();
    assert_eq!(s.chain_id, 59144);
    assert!(s
        .hardforks
        .contains(&(ForkId::Eth(EthFork::London), ForkCondition::Block(0))));
}

#[test]
fn test_custom_ruleset_carries_fork_rules() {
    let g = Genesis::from_json_str(
        r#"{"chainId":1234,"homesteadBlock":0,"londonBlock":7,"shanghaiTime":99,"terminalTotalDifficulty":5,"mergeNetsplitBlock":3}"#,
    )
    .unwrap();
    let s = ChainSpec::from_identity(&g).unwrap();
    assert_eq!(s.chain_id, 1234);
    assert!(s.hardforks.contains(&(ForkId::Eth(EthFork::London), ForkCondition::Block(7))));
    assert!(s.hardforks.contains(&(
        ForkId::Eth(EthFork::Paris),
        ForkCondition::Ttd { fork_block: Some(3), activation_block: 0, total_difficulty: 5 }
    )));
    assert!(s
        .hardforks
        .contains(&(ForkId::Eth(EthFork::Shanghai), ForkCondition::Timestamp(99))));
    // The same record derives the secondary family's ruleset too.
    let op = OpChainSpec::from_identity(&g).unwrap();
    assert_eq!(op.inner.chain_id, 1234);
}

#[test]
fn test_custom_blob_schedule_overrides() {
    let g = Genesis::from_json_str(
        r#"{"chainId":7,"cancunTime":10,"bpo1Time":50,"blobSchedule":{"cancun":{"target":4,"max":8,"baseFeeUpdateFraction":111},"bpo1":{"target":12,"max":16,"baseFeeUpdateFraction":222}}}"#,
    )
    .unwrap();
    let s = ChainSpec::from_identity(&g).unwrap();
    assert_eq!(s.blob_params.cancun.target_blob_count, 4);
    assert_eq!(s.blob_params.cancun.max_blob_count, 8);
    assert_eq!(s.blob_params.cancun.update_fraction, 111);
    assert_eq!(s.blob_params.cancun.min_blob_fee, 1);
    // The record gives the first blob-parameter-only fork both a timestamp
    // and parameters, so it becomes a scheduled override.
    assert_eq!(s.blob_params.scheduled.len(), 1);
    assert_eq!(s.blob_params.scheduled[0].0, 50);
    assert_eq!(s.blob_params.scheduled[0].1.target_blob_count, 12);
    // The untouched hardforks keep their defaults.
    assert_eq!(s.blob_params.prague.update_fraction, 5007716);
}

#[test]
fn test_terminal_total_difficulty_beyond_64_bits() {
    let g = Genesis::from_json_str(
        r#"{"chainId":1,"terminalTotalDifficulty":58750000000000000000000}"#,
    )
    .unwrap();
    let s = ChainSpec::from_identity(&g).unwrap();
    assert!(s.hardforks.contains(&(
        ForkId::Eth(EthFork::Paris),
        ForkCondition::Ttd {
            fork_block: None,
            activation_block: 0,
            total_difficulty: 58750000000000000000000,
        }
    )));
}

#[test]
fn test_malformed_payload_is_rejected() {
    assert_eq!(
        Genesis::from_json_str("not json at all"),
        Err(ChainSpecError::MalformedPayload)
    );
    assert_eq!(
        Genesis::from_json_str(r#"{"noChainId":true}"#),
        Err(ChainSpecError::MalformedPayload)
    );
    assert_eq!(
        Genesis::from_json_str(r#"{"chainId":"one"}"#),
        Err(ChainSpecError::MalformedPayload)
    );
    assert_eq!(
        Genesis::from_json_str(r#"{"chainId":1,"londonBlock":"seven"}"#),
        Err(ChainSpecError::MalformedPayload)
    );
    assert_eq!(
        genesis_from_json(r#"{"alloc":{}}"#),
        Err(ChainSpecError::MalformedPayload)
    );
}

#[test]
fn test_genesis_from_json_reads_the_config_key() {
    let cfg = genesis_from_json(LINEA_GENESIS_JSON).unwrap();
    assert_eq!(cfg.chain_id, 59144);
    assert!(cfg.forks.contains(&(EthFork::Berlin, ForkCondition::Block(0))));
    assert_eq!(cfg.evolve, EvolveSection::Absent);
}

#[test]
fn test_bundled_linea_text_and_record_agree() {
    // The Genesis Loader's constructed record and the bundled textual
    // payload describe the same configuration.
    let parsed = genesis_from_json(LINEA_GENESIS_JSON).unwrap();
    assert_eq!(parsed, evolve_chainspec::chainspec::linea_genesis_config());
}

#[test]
fn test_blob_fraction_beyond_64_bits() {
    // The wire format carries the update fraction at 128-bit width.
    let g = Genesis::from_json_str(
        r#"{"chainId":7,"blobSchedule":{"cancun":{"target":4,"max":8,"baseFeeUpdateFraction":18446744073709551616}}}"#,
    )
    .unwrap();
    let s = ChainSpec::from_identity(&g).unwrap();
    assert_eq!(s.blob_params.cancun.update_fraction, 18446744073709551616);
}

#[test]
fn test_overlay_absent_for_named_variants() {
    assert_eq!(EvolveConfig::from_genesis(&Genesis::Mainnet), None);
    assert_eq!(EvolveConfig::from_genesis(&Genesis::OpMainnet), None);
    assert_eq!(EvolveConfig::from_genesis(&Genesis::Sepolia), None);
    assert_eq!(EvolveConfig::from_genesis(&Genesis::Holesky), None);
    assert_eq!(EvolveConfig::from_genesis(&Genesis::Linea), None);
}

#[test]
fn test_overlay_absent_without_section_and_on_bad_section() {
    let plain = Genesis::from_json_str(r#"{"chainId":5}"#).unwrap();
    assert_eq!(EvolveConfig::from_genesis(&plain), None);
    // A section that is not even an object degrades to absence, not an error.
    let bad = Genesis::from_json_str(r#"{"chainId":5,"evolve":17}"#).unwrap();
    assert_eq!(EvolveConfig::from_genesis(&bad), None);
    // A recognized field of the wrong shape poisons the whole section.
    let bad2 = Genesis::from_json_str(
        r#"{"chainId":5,"evolve":{"mintPrecompileActivationHeight":"soon"}}"#,
    )
    .unwrap();
    assert_eq!(EvolveConfig::from_genesis(&bad2), None);
    // An empty section is a well-formed overlay with every feature unset.
    let empty = Genesis::from_json_str(r#"{"chainId":5,"evolve":{}}"#).unwrap();
    assert_eq!(EvolveConfig::from_genesis(&empty), Some(EvolveConfig::default()));
}

#[test]
fn test_overlay_fields_are_read() {
    let g = Genesis::from_json_str(
        r#"{"chainId":5,"evolve":{"baseFeeSink":"0x0102030405060708090a0b0c0d0e0f1011121314","baseFeeRedirectActivationHeight":7,"mintAdmin":"0xaaaaaaaaaaaaaaaaaaaaaaaaaaaaaaaaaaaaaaaa","mintPrecompileActivationHeight":100,"contractSizeLimit":65536,"unknownKey":true}}"#,
    )
    .unwrap();
    let o = EvolveConfig::from_genesis(&g).unwrap();
    let sink = o.base_fee_sink.unwrap();
    assert_eq!(sink.head, 0x01020304);
    assert_eq!(sink.tail, 0x05060708090a0b0c0d0e0f1011121314);
    assert_eq!(o.base_fee_redirect_activation_height, Some(7));
    let admin = o.mint_admin.unwrap();
    assert_eq!(admin.head, 0xaaaaaaaa);
    assert_eq!(admin.tail, 0xaaaaaaaaaaaaaaaaaaaaaaaaaaaaaaaa);
    assert_eq!(o.mint_precompile_activation_height, Some(100));
    assert_eq!(o.contract_size_limit, Some(65536));
    assert_eq!(o.contract_size_limit_activation_height, None);
}

#[test]
fn test_mint_admin_height_gating() {
    let g = Genesis::from_json_str(
        r#"{"chainId":5,"evolve":{"mintAdmin":"0xaaaaaaaaaaaaaaaaaaaaaaaaaaaaaaaaaaaaaaaa","mintPrecompileActivationHeight":100}}"#,
    )
    .unwrap();
    let o = EvolveConfig::from_genesis(&g).unwrap();
    assert!(o.mint_precompile_active_at(100));
    assert!(o.mint_precompile_active_at(101));
    assert!(o.mint_precompile_active_at(u64::MAX));
    assert!(!o.mint_precompile_active_at(99));
    assert!(!o.mint_precompile_active_at(0));
    // The other features are gated independently: neither applies anywhere.
    assert!(!o.base_fee_redirect_active_at(100));
    assert!(!o.contract_size_limit_active_at(u64::MAX));
}

#[test]
fn test_feature_without_height_is_inert() {
    let g = Genesis::from_json_str(
        r#"{"chainId":5,"evolve":{"mintAdmin":"0xaaaaaaaaaaaaaaaaaaaaaaaaaaaaaaaaaaaaaaaa"}}"#,
    )
    .unwrap();
    let o = EvolveConfig::from_genesis(&g).unwrap();
    assert!(o.mint_admin.is_some());
    assert!(!o.mint_precompile_active_at(0));
    assert!(!o.mint_precompile_active_at(u64::MAX));
}

#[test]
fn test_error_descriptions() {
    assert_eq!(ChainSpecError::ChainNotSupported(7).describe(), "chain not supported");
    assert_eq!(ChainSpecError::InvalidConversion.describe(), "invalid conversion");
    assert_eq!(ChainSpecError::MalformedPayload.describe(), "malformed payload");
}

#[test]
fn test_custom_config_accessor() {
    assert!(Genesis::Mainnet.custom_config().is_none());
    let g = Genesis::from_json_str(r#"{"chainId":42}"#).unwrap();
    let cfg = g.custom_config().unwrap();
    assert_eq!(cfg.chain_id, 42);
}

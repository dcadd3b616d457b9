use evolve_chainspec::data::{BlobParams, EthFork};
use evolve_chainspec::genesis::Genesis;
use evolve_chainspec::json::genesis_from_json;
use evolve_chainspec::chainspec::OP_SEPOLIA_GENESIS_JSON;

#[test]
fn test_custom_genesis_bincode_roundtrip() {
    let mut config = genesis_from_json(OP_SEPOLIA_GENESIS_JSON).unwrap();

    config.blob_schedule.push((
        EthFork::Cancun,
        BlobParams {
            target_blob_count: 3,
            max_blob_count: 6,
            update_fraction: 3338477,
            min_blob_fee: 1,
            max_blobs_per_tx: 6,
            blob_base_cost: 0,
        },
    ));
    config.blob_schedule.push((
        EthFork::Prague,
        BlobParams {
            target_blob_count: 6,
            max_blob_count: 9,
            update_fraction: 5007716,
            min_blob_fee: 1,
            max_blobs_per_tx: 9,
            blob_base_cost: 0,
        },
    ));

    let genesis = Genesis::Custom(config);
    let buf = genesis.encode();
    let deserialized = Genesis::decode(buf.as_slice()).unwrap();

    assert_eq!(genesis, deserialized);
}

#[test]
fn test_named_variants_roundtrip() {
    for g in [
        Genesis::Mainnet,
        Genesis::OpMainnet,
        Genesis::Sepolia,
        Genesis::Holesky,
        Genesis::Linea,
    ] {
        let buf = g.encode();
        assert_eq!(Genesis::decode(buf.as_slice()).unwrap(), g);
    }
}

#[test]
fn test_custom_with_overlay_roundtrip() {
    let g = Genesis::from_json_str(
        r#"{"chainId":77,"londonBlock":1,"shanghaiTime":2,"terminalTotalDifficulty":3,"evolve":{"mintAdmin":"0xaaaaaaaaaaaaaaaaaaaaaaaaaaaaaaaaaaaaaaaa","mintPrecompileActivationHeight":100,"contractSizeLimit":65536}}"#,
    )
    .unwrap();
    let buf = g.encode();
    assert_eq!(Genesis::decode(buf.as_slice()).unwrap(), g);
}

#[test]
fn test_decode_rejects_trailing_and_garbage() {
    let mut buf = Genesis::Mainnet.encode();
    buf.push(0);
    assert!(Genesis::decode(buf.as_slice()).is_none());
    assert!(Genesis::decode(&[]).is_none());
    assert!(Genesis::decode(&[200]).is_none());
    assert!(Genesis::decode(&[5, 1, 2]).is_none());
}

#[test]
fn test_named_encodings_are_distinct() {
    assert_ne!(Genesis::Mainnet.encode(), Genesis::OpMainnet.encode());
    assert_ne!(Genesis::Sepolia.encode(), Genesis::Holesky.encode());
    assert_ne!(Genesis::Linea.encode(), Genesis::Mainnet.encode());
}

#[test]
fn test_hash_is_order_independent() {
    // The same record written with its keys and sections in different orders.
    let a = Genesis::from_json_str(
        r#"{"chainId":9,"londonBlock":4,"cancunTime":10,"blobSchedule":{"cancun":{"target":4,"max":8,"baseFeeUpdateFraction":111},"prague":{"target":6,"max":9,"baseFeeUpdateFraction":222}},"evolve":{"mintAdmin":"0xaaaaaaaaaaaaaaaaaaaaaaaaaaaaaaaaaaaaaaaa","mintPrecompileActivationHeight":100}}"#,
    )
    .unwrap();
    let b = Genesis::from_json_str(
        r#"{"evolve":{"mintPrecompileActivationHeight":100,"mintAdmin":"0xaaaaaaaaaaaaaaaaaaaaaaaaaaaaaaaaaaaaaaaa"},"blobSchedule":{"prague":{"baseFeeUpdateFraction":222,"max":9,"target":6},"cancun":{"max":8,"target":4,"baseFeeUpdateFraction":111}},"cancunTime":10,"londonBlock":4,"chainId":9}"#,
    )
    .unwrap();
    assert_eq!(a, b);
    assert_eq!(a.stable_hash(), b.stable_hash());
    assert_eq!(a.encode(), b.encode());
}

#[test]
fn test_hash_distinguishes_named_variants() {
    assert_ne!(Genesis::Mainnet.stable_hash(), Genesis::OpMainnet.stable_hash());
    assert_ne!(Genesis::Sepolia.stable_hash(), Genesis::Holesky.stable_hash());
}

#[test]
fn test_hash_is_deterministic() {
    let g = Genesis::from_json_str(r#"{"chainId":9,"londonBlock":4}"#).unwrap();
    assert_eq!(g.stable_hash(), g.stable_hash());
    let h = Genesis::from_json_str(r#"{"chainId":9,"londonBlock":4}"#).unwrap();
    assert_eq!(g.stable_hash(), h.stable_hash());
}

use vstd::prelude::*;
use crate::data::{BlobParams, ChainConfig, ChainConfigV, EthFork, ForkCondition, ForkId, OpFork, wf_config};
use crate::error::ChainSpecError;
use crate::genesis::Genesis;

verus! {

/// Bundled canonical genesis document for the Linea network, in its textual
/// form. The Genesis Loader below carries the same payload as a constructed
/// record, so that derivation needs no parsing; a test holds the two forms
/// to each other.
pub const LINEA_GENESIS_JSON: &'static str = r#"{"config":{"chainId":59144,"homesteadBlock":0,"daoForkBlock":0,"eip150Block":0,"eip155Block":0,"byzantiumBlock":0,"constantinopleBlock":0,"petersburgBlock":0,"istanbulBlock":0,"berlinBlock":0,"londonBlock":0}}"#;

/// Bundled canonical genesis document for the OP Sepolia network.
pub const OP_SEPOLIA_GENESIS_JSON: &'static str = r#"{"config":{"chainId":11155420,"homesteadBlock":0,"eip150Block":0,"eip155Block":0,"byzantiumBlock":0,"constantinopleBlock":0,"petersburgBlock":0,"istanbulBlock":0,"berlinBlock":0,"londonBlock":0,"terminalTotalDifficulty":0,"mergeNetsplitBlock":0,"shanghaiTime":1699981200,"cancunTime":1708534800}}"#;

/// EIP-1559 base-fee computation parameters.
#[derive(Clone, Copy, PartialEq, Eq, Structural, Debug)]
pub struct BaseFeeParams {
    pub max_change_denominator: u128,
    pub elasticity_multiplier: u128,
}

/// The base-fee computation mode: one constant parameter pair, or a schedule
/// keyed by activation boundary.
#[derive(Clone, PartialEq, Eq, Debug)]
pub enum BaseFeeParamsKind {
    Constant(BaseFeeParams),
    Variable(Vec<(ForkId, BaseFeeParams)>),
}

/// The mathematical content of a [`BaseFeeParamsKind`].
#[verifier::ext_equal]
pub enum BaseFeeKindV {
    Constant(BaseFeeParams),
    Variable(Seq<(ForkId, BaseFeeParams)>),
}

impl View for BaseFeeParamsKind {
    type V = BaseFeeKindV;

    open spec fn view(&self) -> BaseFeeKindV {
        match self {
            BaseFeeParamsKind::Constant(p) => BaseFeeKindV::Constant(*p),
            BaseFeeParamsKind::Variable(v) => BaseFeeKindV::Variable(v@),
        }
    }
}

/// The blob-fee schedule: parameters per hardfork, and scheduled overrides at
/// fixed timestamps.
#[derive(Clone, PartialEq, Eq, Debug)]
pub struct BlobSchedule {
    pub cancun: BlobParams,
    pub prague: BlobParams,
    pub osaka: BlobParams,
    pub scheduled: Vec<(u64, BlobParams)>,
}

/// The mathematical content of a [`BlobSchedule`].
#[verifier::ext_equal]
pub struct BlobScheduleV {
    pub cancun: BlobParams,
    pub prague: BlobParams,
    pub osaka: BlobParams,
    pub scheduled: Seq<(u64, BlobParams)>,
}

impl View for BlobSchedule {
    type V = BlobScheduleV;

    open spec fn view(&self) -> BlobScheduleV {
        BlobScheduleV {
            cancun: self.cancun,
            prague: self.prague,
            osaka: self.osaka,
            scheduled: self.scheduled@,
        }
    }
}

/// A concrete protocol ruleset for the primary execution-layer family.
#[derive(Clone, PartialEq, Eq, Debug)]
pub struct ChainSpec {
    pub chain_id: u64,
    pub hardforks: Vec<(ForkId, ForkCondition)>,
    pub base_fee_params: BaseFeeParamsKind,
    pub prune_delete_limit: u64,
    pub blob_params: BlobSchedule,
}

/// The mathematical content of a [`ChainSpec`].
#[verifier::ext_equal]
pub struct ChainSpecV {
    pub chain_id: u64,
    pub hardforks: Seq<(ForkId, ForkCondition)>,
    pub base_fee_params: BaseFeeKindV,
    pub prune_delete_limit: u64,
    pub blob_params: BlobScheduleV,
}

impl View for ChainSpec {
    type V = ChainSpecV;

    open spec fn view(&self) -> ChainSpecV {
        ChainSpecV {
            chain_id: self.chain_id,
            hardforks: self.hardforks@,
            base_fee_params: self.base_fee_params@,
            prune_delete_limit: self.prune_delete_limit,
            blob_params: self.blob_params@,
        }
    }
}

/// A concrete protocol ruleset for the secondary execution-layer family.
#[derive(Clone, PartialEq, Eq, Debug)]
pub struct OpChainSpec {
    pub inner: ChainSpec,
}

impl View for OpChainSpec {
    type V = ChainSpecV;

    open spec fn view(&self) -> ChainSpecV {
        self.inner@
    }
}

/// Blob parameters of the Cancun hardfork.
pub open spec fn blob_cancun() -> BlobParams {
    BlobParams {
        target_blob_count: 3,
        max_blob_count: 6,
        update_fraction: 3338477,
        min_blob_fee: 1,
        max_blobs_per_tx: 6,
        blob_base_cost: 0,
    }
}

/// Blob parameters of the Prague hardfork.
pub open spec fn blob_prague() -> BlobParams {
    BlobParams {
        target_blob_count: 6,
        max_blob_count: 9,
        update_fraction: 5007716,
        min_blob_fee: 1,
        max_blobs_per_tx: 9,
        blob_base_cost: 0,
    }
}

/// Blob parameters of the Osaka hardfork.
pub open spec fn blob_osaka() -> BlobParams {
    BlobParams {
        target_blob_count: 6,
        max_blob_count: 9,
        update_fraction: 5007716,
        min_blob_fee: 1,
        max_blobs_per_tx: 6,
        blob_base_cost: 8192,
    }
}

/// Blob parameters of the first blob-parameter-only hardfork.
pub open spec fn blob_bpo1() -> BlobParams {
    BlobParams {
        target_blob_count: 10,
        max_blob_count: 15,
        update_fraction: 8346193,
        min_blob_fee: 1,
        max_blobs_per_tx: 6,
        blob_base_cost: 8192,
    }
}

/// Blob parameters of the second blob-parameter-only hardfork.
pub open spec fn blob_bpo2() -> BlobParams {
    BlobParams {
        target_blob_count: 14,
        max_blob_count: 21,
        update_fraction: 11684671,
        min_blob_fee: 1,
        max_blobs_per_tx: 6,
        blob_base_cost: 8192,
    }
}

/// The primary family's constant base-fee parameters.
pub open spec fn eth_base_fee() -> BaseFeeParams {
    BaseFeeParams { max_change_denominator: 8, elasticity_multiplier: 2 }
}

/// The default blob schedule: Cancun, Prague and Osaka parameters, no
/// scheduled overrides.
pub open spec fn default_blob_schedule() -> BlobScheduleV {
    BlobScheduleV {
        cancun: blob_cancun(),
        prague: blob_prague(),
        osaka: blob_osaka(),
        scheduled: Seq::empty(),
    }
}

/// The value held under a key in an association list, scanning from the back.
pub open spec fn assoc_get<V>(s: Seq<(EthFork, V)>, k: EthFork) -> Option<V>
    decreases s.len(),
{
    if s.len() == 0 {
        None
    } else if s.last().0 == k {
        Some(s.last().1)
    } else {
        assoc_get(s.drop_last(), k)
    }
}

/// A scheduled blob override for a blob-parameter-only fork of a custom
/// record: present when the record gives both the fork's activation timestamp
/// and its blob parameters.
pub open spec fn bpo_entry(c: ChainConfigV, f: EthFork) -> Option<(u64, BlobParams)> {
    match (assoc_get(c.forks, f), assoc_get(c.blob_schedule, f)) {
        (Some(ForkCondition::Timestamp(t)), Some(p)) => Some((t, p)),
        _ => None,
    }
}

/// A singleton or empty sequence out of an option.
pub open spec fn opt_seq<T>(o: Option<T>) -> Seq<T> {
    match o {
        Some(t) => seq![t],
        None => Seq::empty(),
    }
}

/// The generic genesis-to-ruleset transform for a custom configuration
/// record: its chain id and fork-activation rules carried over verbatim, the
/// primary family's constant base-fee parameters, the default pruning limit,
/// and a blob schedule overridden per hardfork by the record, with the
/// record's blob-parameter-only forks becoming scheduled overrides at their
/// activation timestamps.
pub open spec fn spec_custom_chain_spec(c: ChainConfigV) -> ChainSpecV {
    ChainSpecV {
        chain_id: c.chain_id,
        hardforks: c.forks.map_values(|p: (EthFork, ForkCondition)| (ForkId::Eth(p.0), p.1)),
        base_fee_params: BaseFeeKindV::Constant(eth_base_fee()),
        prune_delete_limit: 20000,
        blob_params: BlobScheduleV {
            cancun: assoc_get(c.blob_schedule, EthFork::Cancun).unwrap_or(blob_cancun()),
            prague: assoc_get(c.blob_schedule, EthFork::Prague).unwrap_or(blob_prague()),
            osaka: assoc_get(c.blob_schedule, EthFork::Osaka).unwrap_or(blob_osaka()),
            scheduled: opt_seq(bpo_entry(c, EthFork::Bpo1)) + opt_seq(bpo_entry(c, EthFork::Bpo2)),
        },
    }
}

/// Looks a key up in an association list, scanning from the back.
fn assoc_find<V: Copy>(s: &Vec<(EthFork, V)>, k: EthFork) -> (r: Option<V>)
    ensures
        r == assoc_get(s@, k),
{
    let mut i: usize = s.len();
    assert(s@.take(i as int) =~= s@);
    while i > 0
        invariant
            i <= s@.len(),
            assoc_get(s@, k) == assoc_get(s@.take(i as int), k),
        decreases i,
    {
        assert(s@.take(i as int).last() == s@[i - 1]);
        assert(s@.take(i as int).drop_last() =~= s@.take(i - 1));
        if s[i - 1].0 == k {
            return Some(s[i - 1].1);
        }
        i = i - 1;
    }
    assert(s@.take(0) =~= Seq::<(EthFork, V)>::empty());
    None
}

/// Derives the ruleset of a custom configuration record.
pub fn custom_chain_spec(cfg: &ChainConfig) -> (r: ChainSpec)
    ensures
        r@ == spec_custom_chain_spec(cfg@),
{
    let mut hardforks: Vec<(ForkId, ForkCondition)> = Vec::new();
    let mut i: usize = 0;
    let ghost mapped = cfg.forks@.map_values(
        |p: (EthFork, ForkCondition)| (ForkId::Eth(p.0), p.1),
    );
    while i < cfg.forks.len()
        invariant
            i <= cfg.forks@.len(),
            mapped == cfg.forks@.map_values(|p: (EthFork, ForkCondition)| (ForkId::Eth(p.0), p.1)),
            hardforks@ =~= mapped.take(i as int),
        decreases cfg.forks@.len() - i,
    {
        hardforks.push((ForkId::Eth(cfg.forks[i].0), cfg.forks[i].1));
        i = i + 1;
    }
    assert(hardforks@ =~= mapped);

    let mut scheduled: Vec<(u64, BlobParams)> = Vec::new();
    let bpo1_time = assoc_find(&cfg.forks, EthFork::Bpo1);
    let bpo1_params = assoc_find(&cfg.blob_schedule, EthFork::Bpo1);
    match (bpo1_time, bpo1_params) {
        (Some(ForkCondition::Timestamp(t)), Some(p)) => scheduled.push((t, p)),
        _ => {},
    }
    let bpo2_time = assoc_find(&cfg.forks, EthFork::Bpo2);
    let bpo2_params = assoc_find(&cfg.blob_schedule, EthFork::Bpo2);
    match (bpo2_time, bpo2_params) {
        (Some(ForkCondition::Timestamp(t)), Some(p)) => scheduled.push((t, p)),
        _ => {},
    }
    assert(scheduled@ =~= opt_seq(bpo_entry(cfg@, EthFork::Bpo1)) + opt_seq(
        bpo_entry(cfg@, EthFork::Bpo2),
    ));

    let cancun = match assoc_find(&cfg.blob_schedule, EthFork::Cancun) {
        Some(p) => p,
        None => blob_cancun_params(),
    };
    let prague = match assoc_find(&cfg.blob_schedule, EthFork::Prague) {
        Some(p) => p,
        None => blob_prague_params(),
    };
    let osaka = match assoc_find(&cfg.blob_schedule, EthFork::Osaka) {
        Some(p) => p,
        None => blob_osaka_params(),
    };

    let r = ChainSpec {
        chain_id: cfg.chain_id,
        hardforks,
        base_fee_params: BaseFeeParamsKind::Constant(
            BaseFeeParams { max_change_denominator: 8, elasticity_multiplier: 2 },
        ),
        prune_delete_limit: 20000,
        blob_params: BlobSchedule { cancun, prague, osaka, scheduled },
    };
    assert(r@ =~~= spec_custom_chain_spec(cfg@));
    r
}

/// Cancun blob parameters, as a value.
pub fn blob_cancun_params() -> (r: BlobParams)
    ensures
        r == blob_cancun(),
{
    BlobParams {
        target_blob_count: 3,
        max_blob_count: 6,
        update_fraction: 3338477,
        min_blob_fee: 1,
        max_blobs_per_tx: 6,
        blob_base_cost: 0,
    }
}

/// Prague blob parameters, as a value.
pub fn blob_prague_params() -> (r: BlobParams)
    ensures
        r == blob_prague(),
{
    BlobParams {
        target_blob_count: 6,
        max_blob_count: 9,
        update_fraction: 5007716,
        min_blob_fee: 1,
        max_blobs_per_tx: 9,
        blob_base_cost: 0,
    }
}

/// Osaka blob parameters, as a value.
pub fn blob_osaka_params() -> (r: BlobParams)
    ensures
        r == blob_osaka(),
{
    BlobParams {
        target_blob_count: 6,
        max_blob_count: 9,
        update_fraction: 5007716,
        min_blob_fee: 1,
        max_blobs_per_tx: 6,
        blob_base_cost: 8192,
    }
}

/// The mainnet hardfork activation set.
pub open spec fn mainnet_forks() -> Seq<(ForkId, ForkCondition)> {
    seq![
        (ForkId::Eth(EthFork::Frontier), ForkCondition::Block(0)),
        (ForkId::Eth(EthFork::Homestead), ForkCondition::Block(1150000)),
        (ForkId::Eth(EthFork::Dao), ForkCondition::Block(1920000)),
        (ForkId::Eth(EthFork::Tangerine), ForkCondition::Block(2463000)),
        (ForkId::Eth(EthFork::SpuriousDragon), ForkCondition::Block(2675000)),
        (ForkId::Eth(EthFork::Byzantium), ForkCondition::Block(4370000)),
        (ForkId::Eth(EthFork::Constantinople), ForkCondition::Block(7280000)),
        (ForkId::Eth(EthFork::Petersburg), ForkCondition::Block(7280000)),
        (ForkId::Eth(EthFork::Istanbul), ForkCondition::Block(9069000)),
        (ForkId::Eth(EthFork::MuirGlacier), ForkCondition::Block(9200000)),
        (ForkId::Eth(EthFork::Berlin), ForkCondition::Block(12244000)),
        (ForkId::Eth(EthFork::London), ForkCondition::Block(12965000)),
        (ForkId::Eth(EthFork::ArrowGlacier), ForkCondition::Block(13773000)),
        (ForkId::Eth(EthFork::GrayGlacier), ForkCondition::Block(15050000)),
        (ForkId::Eth(EthFork::Paris), ForkCondition::Ttd { fork_block: None, activation_block: 15537394, total_difficulty: 58750000000000000000000 }),
        (ForkId::Eth(EthFork::Shanghai), ForkCondition::Timestamp(1681338455)),
        (ForkId::Eth(EthFork::Cancun), ForkCondition::Timestamp(1710338135)),
        (ForkId::Eth(EthFork::Prague), ForkCondition::Timestamp(1746612311)),
        (ForkId::Eth(EthFork::Osaka), ForkCondition::Timestamp(1764798551)),
        (ForkId::Eth(EthFork::Bpo1), ForkCondition::Timestamp(1765290071)),
        (ForkId::Eth(EthFork::Bpo2), ForkCondition::Timestamp(1767747671)),
    ]
}

/// The sepolia hardfork activation set.
pub open spec fn sepolia_forks() -> Seq<(ForkId, ForkCondition)> {
    seq![
        (ForkId::Eth(EthFork::Frontier), ForkCondition::Block(0)),
        (ForkId::Eth(EthFork::Homestead), ForkCondition::Block(0)),
        (ForkId::Eth(EthFork::Dao), ForkCondition::Block(0)),
        (ForkId::Eth(EthFork::Tangerine), ForkCondition::Block(0)),
        (ForkId::Eth(EthFork::SpuriousDragon), ForkCondition::Block(0)),
        (ForkId::Eth(EthFork::Byzantium), ForkCondition::Block(0)),
        (ForkId::Eth(EthFork::Constantinople), ForkCondition::Block(0)),
        (ForkId::Eth(EthFork::Petersburg), ForkCondition::Block(0)),
        (ForkId::Eth(EthFork::Istanbul), ForkCondition::Block(0)),
        (ForkId::Eth(EthFork::MuirGlacier), ForkCondition::Block(0)),
        (ForkId::Eth(EthFork::Berlin), ForkCondition::Block(0)),
        (ForkId::Eth(EthFork::London), ForkCondition::Block(0)),
        (ForkId::Eth(EthFork::Paris), ForkCondition::Ttd { fork_block: Some(1735371), activation_block: 1450409, total_difficulty: 17000000000000000 }),
        (ForkId::Eth(EthFork::Shanghai), ForkCondition::Timestamp(1677557088)),
        (ForkId::Eth(EthFork::Cancun), ForkCondition::Timestamp(1706655072)),
        (ForkId::Eth(EthFork::Prague), ForkCondition::Timestamp(1741159776)),
        (ForkId::Eth(EthFork::Osaka), ForkCondition::Timestamp(1760427360)),
        (ForkId::Eth(EthFork::Bpo1), ForkCondition::Timestamp(1761017184)),
        (ForkId::Eth(EthFork::Bpo2), ForkCondition::Timestamp(1761607008)),
        (ForkId::Eth(EthFork::Amsterdam), ForkCondition::Timestamp(1791294816)),
    ]
}

/// The holesky hardfork activation set.
pub open spec fn holesky_forks() -> Seq<(ForkId, ForkCondition)> {
    seq![
        (ForkId::Eth(EthFork::Frontier), ForkCondition::Block(0)),
        (ForkId::Eth(EthFork::Homestead), ForkCondition::Block(0)),
        (ForkId::Eth(EthFork::Dao), ForkCondition::Block(0)),
        (ForkId::Eth(EthFork::Tangerine), ForkCondition::Block(0)),
        (ForkId::Eth(EthFork::SpuriousDragon), ForkCondition::Block(0)),
        (ForkId::Eth(EthFork::Byzantium), ForkCondition::Block(0)),
        (ForkId::Eth(EthFork::Constantinople), ForkCondition::Block(0)),
        (ForkId::Eth(EthFork::Petersburg), ForkCondition::Block(0)),
        (ForkId::Eth(EthFork::Istanbul), ForkCondition::Block(0)),
        (ForkId::Eth(EthFork::MuirGlacier), ForkCondition::Block(0)),
        (ForkId::Eth(EthFork::Berlin), ForkCondition::Block(0)),
        (ForkId::Eth(EthFork::London), ForkCondition::Block(0)),
        (ForkId::Eth(EthFork::Paris), ForkCondition::Ttd { fork_block: Some(0), activation_block: 0, total_difficulty: 0 }),
        (ForkId::Eth(EthFork::Shanghai), ForkCondition::Timestamp(1696000704)),
        (ForkId::Eth(EthFork::Cancun), ForkCondition::Timestamp(1707305664)),
        (ForkId::Eth(EthFork::Prague), ForkCondition::Timestamp(1740434112)),
        (ForkId::Eth(EthFork::Osaka), ForkCondition::Timestamp(1759308480)),
        (ForkId::Eth(EthFork::Bpo1), ForkCondition::Timestamp(1759800000)),
        (ForkId::Eth(EthFork::Bpo2), ForkCondition::Timestamp(1760389824)),
    ]
}

/// The secondary family's mainnet hardfork activation set: the Ethereum
/// hardforks at their activation points on that network — Berlin at the
/// height recorded for its first era, the London-era forks and the merge at
/// the transition block — interleaved with the family's own hardforks.
pub open spec fn op_mainnet_forks() -> Seq<(ForkId, ForkCondition)> {
    seq![
        (ForkId::Eth(EthFork::Frontier), ForkCondition::Block(0)),
        (ForkId::Eth(EthFork::Homestead), ForkCondition::Block(0)),
        (ForkId::Eth(EthFork::Tangerine), ForkCondition::Block(0)),
        (ForkId::Eth(EthFork::SpuriousDragon), ForkCondition::Block(0)),
        (ForkId::Eth(EthFork::Byzantium), ForkCondition::Block(0)),
        (ForkId::Eth(EthFork::Constantinople), ForkCondition::Block(0)),
        (ForkId::Eth(EthFork::Petersburg), ForkCondition::Block(0)),
        (ForkId::Eth(EthFork::Istanbul), ForkCondition::Block(0)),
        (ForkId::Eth(EthFork::MuirGlacier), ForkCondition::Block(0)),
        (ForkId::Eth(EthFork::Berlin), ForkCondition::Block(3950000)),
        (ForkId::Eth(EthFork::London), ForkCondition::Block(105235063)),
        (ForkId::Eth(EthFork::ArrowGlacier), ForkCondition::Block(105235063)),
        (ForkId::Eth(EthFork::GrayGlacier), ForkCondition::Block(105235063)),
        (
            ForkId::Eth(EthFork::Paris),
            ForkCondition::Ttd { fork_block: Some(105235063), activation_block: 105235063, total_difficulty: 0 },
        ),
        (ForkId::Op(OpFork::Bedrock), ForkCondition::Block(105235063)),
        (ForkId::Op(OpFork::Regolith), ForkCondition::Timestamp(0)),
        (ForkId::Eth(EthFork::Shanghai), ForkCondition::Timestamp(1704992401)),
        (ForkId::Op(OpFork::Canyon), ForkCondition::Timestamp(1704992401)),
        (ForkId::Eth(EthFork::Cancun), ForkCondition::Timestamp(1710374401)),
        (ForkId::Op(OpFork::Ecotone), ForkCondition::Timestamp(1710374401)),
        (ForkId::Op(OpFork::Fjord), ForkCondition::Timestamp(1720627201)),
        (ForkId::Op(OpFork::Granite), ForkCondition::Timestamp(1726070401)),
        (ForkId::Op(OpFork::Holocene), ForkCondition::Timestamp(1736445601)),
        (ForkId::Eth(EthFork::Prague), ForkCondition::Timestamp(1746806401)),
        (ForkId::Op(OpFork::Isthmus), ForkCondition::Timestamp(1746806401)),
        (ForkId::Eth(EthFork::Osaka), ForkCondition::Timestamp(1764691201)),
        (ForkId::Op(OpFork::Jovian), ForkCondition::Timestamp(1764691201)),
    ]
}

/// The ruleset of the Ethereum mainnet: its full hardfork schedule, the
/// constant base-fee parameters, the mainnet pruning limit, and the default
/// blob schedule with the two scheduled blob-parameter-only overrides.
pub open spec fn mainnet_chain_spec() -> ChainSpecV {
    ChainSpecV {
        chain_id: 1,
        hardforks: mainnet_forks(),
        base_fee_params: BaseFeeKindV::Constant(eth_base_fee()),
        prune_delete_limit: 20000,
        blob_params: BlobScheduleV {
            cancun: blob_cancun(),
            prague: blob_prague(),
            osaka: blob_osaka(),
            scheduled: seq![(1765290071u64, blob_bpo1()), (1767747671u64, blob_bpo2())],
        },
    }
}

/// The ruleset of the Sepolia test network.
pub open spec fn sepolia_chain_spec() -> ChainSpecV {
    ChainSpecV {
        chain_id: 11155111,
        hardforks: sepolia_forks(),
        base_fee_params: BaseFeeKindV::Constant(eth_base_fee()),
        prune_delete_limit: 10000,
        blob_params: BlobScheduleV {
            cancun: blob_cancun(),
            prague: blob_prague(),
            osaka: blob_osaka(),
            scheduled: seq![(1761017184u64, blob_bpo1()), (1761607008u64, blob_bpo2())],
        },
    }
}

/// The ruleset of the Holesky test network.
pub open spec fn holesky_chain_spec() -> ChainSpecV {
    ChainSpecV {
        chain_id: 17000,
        hardforks: holesky_forks(),
        base_fee_params: BaseFeeKindV::Constant(eth_base_fee()),
        prune_delete_limit: 10000,
        blob_params: BlobScheduleV {
            cancun: blob_cancun(),
            prague: blob_prague(),
            osaka: blob_osaka(),
            scheduled: seq![(1759800000u64, blob_bpo1()), (1760389824u64, blob_bpo2())],
        },
    }
}

/// The ruleset of the secondary family's mainnet: its hardfork schedule, the
/// boundary-keyed base-fee schedule (the pre- and post-Canyon parameter
/// pairs), and the default blob schedule.
pub open spec fn op_mainnet_chain_spec() -> ChainSpecV {
    ChainSpecV {
        chain_id: 10,
        hardforks: op_mainnet_forks(),
        base_fee_params: BaseFeeKindV::Variable(
            seq![
                (
                    ForkId::Eth(EthFork::London),
                    BaseFeeParams { max_change_denominator: 50, elasticity_multiplier: 6 },
                ),
                (
                    ForkId::Op(OpFork::Canyon),
                    BaseFeeParams { max_change_denominator: 250, elasticity_multiplier: 6 },
                ),
            ],
        ),
        prune_delete_limit: 10000,
        blob_params: default_blob_schedule(),
    }
}

/// Builds the mainnet ruleset.
fn mainnet_rules() -> (r: ChainSpec)
    ensures
        r@ == mainnet_chain_spec(),
{
    let hardforks: Vec<(ForkId, ForkCondition)> = vec![
        (ForkId::Eth(EthFork::Frontier), ForkCondition::Block(0)),
        (ForkId::Eth(EthFork::Homestead), ForkCondition::Block(1150000)),
        (ForkId::Eth(EthFork::Dao), ForkCondition::Block(1920000)),
        (ForkId::Eth(EthFork::Tangerine), ForkCondition::Block(2463000)),
        (ForkId::Eth(EthFork::SpuriousDragon), ForkCondition::Block(2675000)),
        (ForkId::Eth(EthFork::Byzantium), ForkCondition::Block(4370000)),
        (ForkId::Eth(EthFork::Constantinople), ForkCondition::Block(7280000)),
        (ForkId::Eth(EthFork::Petersburg), ForkCondition::Block(7280000)),
        (ForkId::Eth(EthFork::Istanbul), ForkCondition::Block(9069000)),
        (ForkId::Eth(EthFork::MuirGlacier), ForkCondition::Block(9200000)),
        (ForkId::Eth(EthFork::Berlin), ForkCondition::Block(12244000)),
        (ForkId::Eth(EthFork::London), ForkCondition::Block(12965000)),
        (ForkId::Eth(EthFork::ArrowGlacier), ForkCondition::Block(13773000)),
        (ForkId::Eth(EthFork::GrayGlacier), ForkCondition::Block(15050000)),
        (ForkId::Eth(EthFork::Paris), ForkCondition::Ttd { fork_block: None, activation_block: 15537394, total_difficulty: 58750000000000000000000 }),
        (ForkId::Eth(EthFork::Shanghai), ForkCondition::Timestamp(1681338455)),
        (ForkId::Eth(EthFork::Cancun), ForkCondition::Timestamp(1710338135)),
        (ForkId::Eth(EthFork::Prague), ForkCondition::Timestamp(1746612311)),
        (ForkId::Eth(EthFork::Osaka), ForkCondition::Timestamp(1764798551)),
        (ForkId::Eth(EthFork::Bpo1), ForkCondition::Timestamp(1765290071)),
        (ForkId::Eth(EthFork::Bpo2), ForkCondition::Timestamp(1767747671)),
    ];
    let r = ChainSpec {
        chain_id: 1,
        hardforks,
        base_fee_params: BaseFeeParamsKind::Constant(
            BaseFeeParams { max_change_denominator: 8, elasticity_multiplier: 2 },
        ),
        prune_delete_limit: 20000,
        blob_params: BlobSchedule {
            cancun: blob_cancun_params(),
            prague: blob_prague_params(),
            osaka: blob_osaka_params(),
            scheduled: vec![(1765290071, blob_bpo1_params()), (1767747671, blob_bpo2_params())],
        },
    };
    assert(r@.hardforks =~= mainnet_forks());
    assert(r@ =~~= mainnet_chain_spec());
    r
}

/// Builds the sepolia ruleset.
fn sepolia_rules() -> (r: ChainSpec)
    ensures
        r@ == sepolia_chain_spec(),
{
    let hardforks: Vec<(ForkId, ForkCondition)> = vec![
        (ForkId::Eth(EthFork::Frontier), ForkCondition::Block(0)),
        (ForkId::Eth(EthFork::Homestead), ForkCondition::Block(0)),
        (ForkId::Eth(EthFork::Dao), ForkCondition::Block(0)),
        (ForkId::Eth(EthFork::Tangerine), ForkCondition::Block(0)),
        (ForkId::Eth(EthFork::SpuriousDragon), ForkCondition::Block(0)),
        (ForkId::Eth(EthFork::Byzantium), ForkCondition::Block(0)),
        (ForkId::Eth(EthFork::Constantinople), ForkCondition::Block(0)),
        (ForkId::Eth(EthFork::Petersburg), ForkCondition::Block(0)),
        (ForkId::Eth(EthFork::Istanbul), ForkCondition::Block(0)),
        (ForkId::Eth(EthFork::MuirGlacier), ForkCondition::Block(0)),
        (ForkId::Eth(EthFork::Berlin), ForkCondition::Block(0)),
        (ForkId::Eth(EthFork::London), ForkCondition::Block(0)),
        (ForkId::Eth(EthFork::Paris), ForkCondition::Ttd { fork_block: Some(1735371), activation_block: 1450409, total_difficulty: 17000000000000000 }),
        (ForkId::Eth(EthFork::Shanghai), ForkCondition::Timestamp(1677557088)),
        (ForkId::Eth(EthFork::Cancun), ForkCondition::Timestamp(1706655072)),
        (ForkId::Eth(EthFork::Prague), ForkCondition::Timestamp(1741159776)),
        (ForkId::Eth(EthFork::Osaka), ForkCondition::Timestamp(1760427360)),
        (ForkId::Eth(EthFork::Bpo1), ForkCondition::Timestamp(1761017184)),
        (ForkId::Eth(EthFork::Bpo2), ForkCondition::Timestamp(1761607008)),
        (ForkId::Eth(EthFork::Amsterdam), ForkCondition::Timestamp(1791294816)),
    ];
    let r = ChainSpec {
        chain_id: 11155111,
        hardforks,
        base_fee_params: BaseFeeParamsKind::Constant(
            BaseFeeParams { max_change_denominator: 8, elasticity_multiplier: 2 },
        ),
        prune_delete_limit: 10000,
        blob_params: BlobSchedule {
            cancun: blob_cancun_params(),
            prague: blob_prague_params(),
            osaka: blob_osaka_params(),
            scheduled: vec![(1761017184, blob_bpo1_params()), (1761607008, blob_bpo2_params())],
        },
    };
    assert(r@.hardforks =~= sepolia_forks());
    assert(r@ =~~= sepolia_chain_spec());
    r
}

/// Builds the holesky ruleset.
fn holesky_rules() -> (r: ChainSpec)
    ensures
        r@ == holesky_chain_spec(),
{
    let hardforks: Vec<(ForkId, ForkCondition)> = vec![
        (ForkId::Eth(EthFork::Frontier), ForkCondition::Block(0)),
        (ForkId::Eth(EthFork::Homestead), ForkCondition::Block(0)),
        (ForkId::Eth(EthFork::Dao), ForkCondition::Block(0)),
        (ForkId::Eth(EthFork::Tangerine), ForkCondition::Block(0)),
        (ForkId::Eth(EthFork::SpuriousDragon), ForkCondition::Block(0)),
        (ForkId::Eth(EthFork::Byzantium), ForkCondition::Block(0)),
        (ForkId::Eth(EthFork::Constantinople), ForkCondition::Block(0)),
        (ForkId::Eth(EthFork::Petersburg), ForkCondition::Block(0)),
        (ForkId::Eth(EthFork::Istanbul), ForkCondition::Block(0)),
        (ForkId::Eth(EthFork::MuirGlacier), ForkCondition::Block(0)),
        (ForkId::Eth(EthFork::Berlin), ForkCondition::Block(0)),
        (ForkId::Eth(EthFork::London), ForkCondition::Block(0)),
        (ForkId::Eth(EthFork::Paris), ForkCondition::Ttd { fork_block: Some(0), activation_block: 0, total_difficulty: 0 }),
        (ForkId::Eth(EthFork::Shanghai), ForkCondition::Timestamp(1696000704)),
        (ForkId::Eth(EthFork::Cancun), ForkCondition::Timestamp(1707305664)),
        (ForkId::Eth(EthFork::Prague), ForkCondition::Timestamp(1740434112)),
        (ForkId::Eth(EthFork::Osaka), ForkCondition::Timestamp(1759308480)),
        (ForkId::Eth(EthFork::Bpo1), ForkCondition::Timestamp(1759800000)),
        (ForkId::Eth(EthFork::Bpo2), ForkCondition::Timestamp(1760389824)),
    ];
    let r = ChainSpec {
        chain_id: 17000,
        hardforks,
        base_fee_params: BaseFeeParamsKind::Constant(
            BaseFeeParams { max_change_denominator: 8, elasticity_multiplier: 2 },
        ),
        prune_delete_limit: 10000,
        blob_params: BlobSchedule {
            cancun: blob_cancun_params(),
            prague: blob_prague_params(),
            osaka: blob_osaka_params(),
            scheduled: vec![(1759800000, blob_bpo1_params()), (1760389824, blob_bpo2_params())],
        },
    };
    assert(r@.hardforks =~= holesky_forks());
    assert(r@ =~~= holesky_chain_spec());
    r
}

/// First blob-parameter-only fork parameters, as a value.
pub fn blob_bpo1_params() -> (r: BlobParams)
    ensures
        r == blob_bpo1(),
{
    BlobParams {
        target_blob_count: 10,
        max_blob_count: 15,
        update_fraction: 8346193,
        min_blob_fee: 1,
        max_blobs_per_tx: 6,
        blob_base_cost: 8192,
    }
}

/// Second blob-parameter-only fork parameters, as a value.
pub fn blob_bpo2_params() -> (r: BlobParams)
    ensures
        r == blob_bpo2(),
{
    BlobParams {
        target_blob_count: 14,
        max_blob_count: 21,
        update_fraction: 11684671,
        min_blob_fee: 1,
        max_blobs_per_tx: 6,
        blob_base_cost: 8192,
    }
}

/// Builds the secondary family's mainnet ruleset.
fn op_mainnet_rules() -> (r: OpChainSpec)
    ensures
        r@ == op_mainnet_chain_spec(),
{
    let hardforks: Vec<(ForkId, ForkCondition)> = vec![
        (ForkId::Eth(EthFork::Frontier), ForkCondition::Block(0)),
        (ForkId::Eth(EthFork::Homestead), ForkCondition::Block(0)),
        (ForkId::Eth(EthFork::Tangerine), ForkCondition::Block(0)),
        (ForkId::Eth(EthFork::SpuriousDragon), ForkCondition::Block(0)),
        (ForkId::Eth(EthFork::Byzantium), ForkCondition::Block(0)),
        (ForkId::Eth(EthFork::Constantinople), ForkCondition::Block(0)),
        (ForkId::Eth(EthFork::Petersburg), ForkCondition::Block(0)),
        (ForkId::Eth(EthFork::Istanbul), ForkCondition::Block(0)),
        (ForkId::Eth(EthFork::MuirGlacier), ForkCondition::Block(0)),
        (ForkId::Eth(EthFork::Berlin), ForkCondition::Block(3950000)),
        (ForkId::Eth(EthFork::London), ForkCondition::Block(105235063)),
        (ForkId::Eth(EthFork::ArrowGlacier), ForkCondition::Block(105235063)),
        (ForkId::Eth(EthFork::GrayGlacier), ForkCondition::Block(105235063)),
        (
            ForkId::Eth(EthFork::Paris),
            ForkCondition::Ttd { fork_block: Some(105235063), activation_block: 105235063, total_difficulty: 0 },
        ),
        (ForkId::Op(OpFork::Bedrock), ForkCondition::Block(105235063)),
        (ForkId::Op(OpFork::Regolith), ForkCondition::Timestamp(0)),
        (ForkId::Eth(EthFork::Shanghai), ForkCondition::Timestamp(1704992401)),
        (ForkId::Op(OpFork::Canyon), ForkCondition::Timestamp(1704992401)),
        (ForkId::Eth(EthFork::Cancun), ForkCondition::Timestamp(1710374401)),
        (ForkId::Op(OpFork::Ecotone), ForkCondition::Timestamp(1710374401)),
        (ForkId::Op(OpFork::Fjord), ForkCondition::Timestamp(1720627201)),
        (ForkId::Op(OpFork::Granite), ForkCondition::Timestamp(1726070401)),
        (ForkId::Op(OpFork::Holocene), ForkCondition::Timestamp(1736445601)),
        (ForkId::Eth(EthFork::Prague), ForkCondition::Timestamp(1746806401)),
        (ForkId::Op(OpFork::Isthmus), ForkCondition::Timestamp(1746806401)),
        (ForkId::Eth(EthFork::Osaka), ForkCondition::Timestamp(1764691201)),
        (ForkId::Op(OpFork::Jovian), ForkCondition::Timestamp(1764691201)),
    ];
    let r = OpChainSpec {
        inner: ChainSpec {
            chain_id: 10,
            hardforks,
            base_fee_params: BaseFeeParamsKind::Variable(
                vec![
                    (
                        ForkId::Eth(EthFork::London),
                        BaseFeeParams { max_change_denominator: 50, elasticity_multiplier: 6 },
                    ),
                    (
                        ForkId::Op(OpFork::Canyon),
                        BaseFeeParams { max_change_denominator: 250, elasticity_multiplier: 6 },
                    ),
                ],
            ),
            prune_delete_limit: 10000,
            blob_params: BlobSchedule {
                cancun: blob_cancun_params(),
                prague: blob_prague_params(),
                osaka: blob_osaka_params(),
                scheduled: Vec::new(),
            },
        },
    };
    assert(r@.hardforks =~= op_mainnet_forks());
    assert(r@ =~~= op_mainnet_chain_spec());
    r
}

/// The fork-activation rules of the bundled Linea genesis payload: the
/// pre-merge hardforks through London, all active from the start.
pub open spec fn linea_config() -> ChainConfigV {
    ChainConfigV {
        chain_id: 59144,
        forks: seq![
            (EthFork::Frontier, ForkCondition::Block(0)),
            (EthFork::Homestead, ForkCondition::Block(0)),
            (EthFork::Dao, ForkCondition::Block(0)),
            (EthFork::Tangerine, ForkCondition::Block(0)),
            (EthFork::SpuriousDragon, ForkCondition::Block(0)),
            (EthFork::Byzantium, ForkCondition::Block(0)),
            (EthFork::Constantinople, ForkCondition::Block(0)),
            (EthFork::Petersburg, ForkCondition::Block(0)),
            (EthFork::Istanbul, ForkCondition::Block(0)),
            (EthFork::Berlin, ForkCondition::Block(0)),
            (EthFork::London, ForkCondition::Block(0)),
        ],
        blob_schedule: Seq::empty(),
        evolve: crate::data::EvolveSection::Absent,
    }
}

/// The Genesis Loader for Linea: the bundled canonical payload as a
/// configuration record.
pub fn linea_genesis_config() -> (r: ChainConfig)
    ensures
        r@ == linea_config(),
        wf_config(r@),
{
    let forks: Vec<(EthFork, ForkCondition)> = vec![
        (EthFork::Frontier, ForkCondition::Block(0)),
        (EthFork::Homestead, ForkCondition::Block(0)),
        (EthFork::Dao, ForkCondition::Block(0)),
        (EthFork::Tangerine, ForkCondition::Block(0)),
        (EthFork::SpuriousDragon, ForkCondition::Block(0)),
        (EthFork::Byzantium, ForkCondition::Block(0)),
        (EthFork::Constantinople, ForkCondition::Block(0)),
        (EthFork::Petersburg, ForkCondition::Block(0)),
        (EthFork::Istanbul, ForkCondition::Block(0)),
        (EthFork::Berlin, ForkCondition::Block(0)),
        (EthFork::London, ForkCondition::Block(0)),
    ];
    let r = ChainConfig {
        chain_id: 59144,
        forks,
        blob_schedule: Vec::new(),
        evolve: crate::data::EvolveSection::Absent,
    };
    assert(r@.forks =~= linea_config().forks);
    assert(r@.blob_schedule =~= linea_config().blob_schedule);
    assert(r@ =~~= linea_config());
    r
}

/// The ruleset of the Linea network: the generic transform of the bundled
/// genesis payload.
pub open spec fn linea_chain_spec() -> ChainSpecV {
    spec_custom_chain_spec(linea_config())
}

impl ChainSpec {
    /// Derives the primary family's ruleset from a chain identity: a
    /// hardcoded ruleset for each named network of this family, the generic
    /// transform of the bundled genesis payload for Linea, the generic
    /// transform for a custom record, and `InvalidConversion` for the
    /// secondary family's network. Total and deterministic on every identity
    /// of this family.
    pub fn from_identity(value: &Genesis) -> (r: Result<ChainSpec, ChainSpecError>)
        ensures
            value@ is Mainnet ==> (r matches Ok(s) && s@ == mainnet_chain_spec()),
            value@ is Sepolia ==> (r matches Ok(s) && s@ == sepolia_chain_spec()),
            value@ is Holesky ==> (r matches Ok(s) && s@ == holesky_chain_spec()),
            value@ is OpMainnet ==> r == Err::<ChainSpec, ChainSpecError>(
                ChainSpecError::InvalidConversion,
            ),
            value@ matches crate::genesis::GenesisV::Custom(c) ==> (r matches Ok(s) && s@
                == spec_custom_chain_spec(c)),
            value@ is Linea ==> (r matches Ok(s) && s@ == linea_chain_spec()),
    {
        match value {
            Genesis::Mainnet => Ok(mainnet_rules()),
            Genesis::Sepolia => Ok(sepolia_rules()),
            Genesis::Holesky => Ok(holesky_rules()),
            Genesis::OpMainnet => Err(ChainSpecError::InvalidConversion),
            Genesis::Linea => Ok(custom_chain_spec(&linea_genesis_config())),
            Genesis::Custom(cfg) => Ok(custom_chain_spec(cfg)),
        }
    }
}

impl OpChainSpec {
    /// Derives the secondary family's ruleset from a chain identity: the
    /// hardcoded ruleset for its named network, the generic transform for a
    /// custom record, and `InvalidConversion` for every network of the
    /// primary family.
    pub fn from_identity(value: &Genesis) -> (r: Result<OpChainSpec, ChainSpecError>)
        ensures
            value@ is OpMainnet ==> (r matches Ok(s) && s@ == op_mainnet_chain_spec()),
            value@ matches crate::genesis::GenesisV::Custom(c) ==> (r matches Ok(s) && s@
                == spec_custom_chain_spec(c)),
            !(value@ is OpMainnet) && !(value@ is Custom) ==> r == Err::<
                OpChainSpec,
                ChainSpecError,
            >(ChainSpecError::InvalidConversion),
    {
        match value {
            Genesis::OpMainnet => Ok(op_mainnet_rules()),
            Genesis::Custom(cfg) => Ok(OpChainSpec { inner: custom_chain_spec(cfg) }),
            _ => Err(ChainSpecError::InvalidConversion),
        }
    }
}

} // verus!

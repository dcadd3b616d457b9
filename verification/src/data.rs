use vstd::prelude::*;

verus! {

/// Configuration of the chain-specific consensus-rule extensions, read from
/// the `evolve` section of a custom configuration's extension metadata.
///
/// Every feature is independently optional. A feature whose value is present
/// but whose activation height is absent is inert: activation is granted only
/// by an explicit height (see the activation methods in `overlay`).
#[derive(Clone, Copy, PartialEq, Eq, Structural, Debug, Default)]
pub struct EvolveConfig {
    /// Address to redirect base fees to (instead of burning).
    pub base_fee_sink: Option<Address>,
    /// Block height at which the base-fee redirect activates.
    pub base_fee_redirect_activation_height: Option<u64>,
    /// Admin address for the mint precompile.
    pub mint_admin: Option<Address>,
    /// Block height at which the mint precompile activates.
    pub mint_precompile_activation_height: Option<u64>,
    /// Custom contract code size limit in bytes.
    pub contract_size_limit: Option<u64>,
    /// Block height at which the custom contract size limit activates.
    pub contract_size_limit_activation_height: Option<u64>,
}

/// What a custom configuration's extension metadata held under the `evolve`
/// key, as found when the record was built.
#[derive(Clone, Copy, PartialEq, Eq, Structural, Debug)]
pub enum EvolveSection {
    /// The metadata has no `evolve` key.
    Absent,
    /// The metadata has an `evolve` key, but its value does not fit the
    /// overlay's field set.
    Unreadable,
    /// A well-formed overlay section.
    Present(EvolveConfig),
}

/// A 20-byte account address, split into its first four bytes (`head`,
/// big-endian) and its last sixteen bytes (`tail`, big-endian).
#[derive(Clone, Copy, PartialEq, Eq, Structural, Debug)]
pub struct Address {
    pub head: u32,
    pub tail: u128,
}

/// The execution-layer hardforks of the primary chain family, in canonical
/// activation order.
#[derive(Clone, Copy, PartialEq, Eq, Structural, Debug)]
pub enum EthFork {
    Frontier,
    Homestead,
    Dao,
    Tangerine,
    SpuriousDragon,
    Byzantium,
    Constantinople,
    Petersburg,
    Istanbul,
    MuirGlacier,
    Berlin,
    London,
    ArrowGlacier,
    GrayGlacier,
    Paris,
    Shanghai,
    Cancun,
    Prague,
    Osaka,
    Bpo1,
    Bpo2,
    Amsterdam,
}

/// The canonical position of a hardfork in the activation order.
pub open spec fn fork_rank(f: EthFork) -> nat {
    match f {
        EthFork::Frontier => 0,
        EthFork::Homestead => 1,
        EthFork::Dao => 2,
        EthFork::Tangerine => 3,
        EthFork::SpuriousDragon => 4,
        EthFork::Byzantium => 5,
        EthFork::Constantinople => 6,
        EthFork::Petersburg => 7,
        EthFork::Istanbul => 8,
        EthFork::MuirGlacier => 9,
        EthFork::Berlin => 10,
        EthFork::London => 11,
        EthFork::ArrowGlacier => 12,
        EthFork::GrayGlacier => 13,
        EthFork::Paris => 14,
        EthFork::Shanghai => 15,
        EthFork::Cancun => 16,
        EthFork::Prague => 17,
        EthFork::Osaka => 18,
        EthFork::Bpo1 => 19,
        EthFork::Bpo2 => 20,
        EthFork::Amsterdam => 21,
    }
}

/// The hardforks of the secondary chain family, in canonical activation order.
#[derive(Clone, Copy, PartialEq, Eq, Structural, Debug)]
pub enum OpFork {
    Bedrock,
    Regolith,
    Canyon,
    Ecotone,
    Fjord,
    Granite,
    Holocene,
    Isthmus,
    Jovian,
}

/// A hardfork of either execution-layer family.
#[derive(Clone, Copy, PartialEq, Eq, Structural, Debug)]
pub enum ForkId {
    Eth(EthFork),
    Op(OpFork),
}

/// The condition under which a hardfork activates.
#[derive(Clone, Copy, PartialEq, Eq, Structural, Debug)]
pub enum ForkCondition {
    /// Active at and above this block height.
    Block(u64),
    /// Active at and above this block timestamp.
    Timestamp(u64),
    /// Active once the chain's total difficulty reaches this value; the block
    /// at which that happened is recorded where it is known. The difficulty
    /// is held as a 128-bit value — a deliberate narrowing from the 256-bit
    /// wire width, which every published network's terminal difficulty fits
    /// with room to spare; a wider value in a payload is rejected as
    /// malformed rather than truncated.
    Ttd { fork_block: Option<u64>, activation_block: u64, total_difficulty: u128 },
}

/// Per-hardfork blob-fee parameters.
#[derive(Clone, Copy, PartialEq, Eq, Structural, Debug)]
pub struct BlobParams {
    pub target_blob_count: u64,
    pub max_blob_count: u64,
    pub update_fraction: u128,
    pub min_blob_fee: u128,
    pub max_blobs_per_tx: u64,
    pub blob_base_cost: u64,
}

/// A custom chain configuration record: the numeric chain id, the
/// fork-activation rules, the per-hardfork blob-fee schedule, and the typed
/// overlay section extracted from the configuration's extension metadata.
///
/// The two association lists are kept strictly ascending in fork rank, so
/// that a record is a canonical representative of its contents: two records
/// built from the same associations in different orders are equal, field for
/// field.
#[derive(Clone, PartialEq, Eq, Debug)]
pub struct ChainConfig {
    pub chain_id: u64,
    pub forks: Vec<(EthFork, ForkCondition)>,
    pub blob_schedule: Vec<(EthFork, BlobParams)>,
    pub evolve: EvolveSection,
}

/// The mathematical content of a [`ChainConfig`].
pub struct ChainConfigV {
    pub chain_id: u64,
    pub forks: Seq<(EthFork, ForkCondition)>,
    pub blob_schedule: Seq<(EthFork, BlobParams)>,
    pub evolve: EvolveSection,
}

impl View for ChainConfig {
    type V = ChainConfigV;

    open spec fn view(&self) -> ChainConfigV {
        ChainConfigV {
            chain_id: self.chain_id,
            forks: self.forks@,
            blob_schedule: self.blob_schedule@,
            evolve: self.evolve,
        }
    }
}

/// Whether an association list is strictly ascending in fork rank (hence
/// keyed uniquely).
pub open spec fn assoc_sorted<V>(s: Seq<(EthFork, V)>) -> bool {
    forall|i: int, j: int|
        0 <= i < j < s.len() ==> fork_rank(s[i].0) < fork_rank(s[j].0)
}

/// The finite map that an association list stands for.
pub open spec fn assoc_map<V>(s: Seq<(EthFork, V)>) -> Map<EthFork, V>
    decreases s.len(),
{
    if s.len() == 0 {
        Map::empty()
    } else {
        assoc_map(s.drop_last()).insert(s.last().0, s.last().1)
    }
}

/// Well-formedness of a configuration record: both association lists are in
/// canonical (strictly ascending) order.
pub open spec fn wf_config(c: ChainConfigV) -> bool {
    assoc_sorted(c.forks) && assoc_sorted(c.blob_schedule)
}

/// The order-independent content of a configuration record: what the record
/// means, with the association lists read as maps.
pub open spec fn config_content(c: ChainConfigV) -> (u64, Map<EthFork, ForkCondition>, Map<
    EthFork,
    BlobParams,
>, EvolveSection) {
    (c.chain_id, assoc_map(c.forks), assoc_map(c.blob_schedule), c.evolve)
}

proof fn lemma_assoc_map_contains<V>(s: Seq<(EthFork, V)>, i: int)
    requires
        0 <= i < s.len(),
        assoc_sorted(s),
    ensures
        assoc_map(s).contains_key(s[i].0),
        assoc_map(s)[s[i].0] == s[i].1,
    decreases s.len(),
{
    if i == s.len() - 1 {
    } else {
        lemma_assoc_map_contains(s.drop_last(), i);
        assert(fork_rank(s[i].0) < fork_rank(s.last().0));
    }
}

proof fn lemma_assoc_map_dom<V>(s: Seq<(EthFork, V)>, k: EthFork)
    requires
        assoc_map(s).contains_key(k),
    ensures
        exists|i: int| 0 <= i < s.len() && s[i].0 == k,
    decreases s.len(),
{
    if s.len() > 0 {
        if s.last().0 == k {
            assert(s[s.len() - 1].0 == k);
        } else {
            lemma_assoc_map_dom(s.drop_last(), k);
            let i = choose|i: int| 0 <= i < s.drop_last().len() && s.drop_last()[i].0 == k;
            assert(s[i].0 == k);
        }
    }
}

/// Canonicity: a strictly ordered association list is determined by the map
/// it stands for. Two well-formed lists with the same map are equal, entry
/// for entry.
pub proof fn lemma_assoc_canonical<V>(a: Seq<(EthFork, V)>, b: Seq<(EthFork, V)>)
    requires
        assoc_sorted(a),
        assoc_sorted(b),
        assoc_map(a) == assoc_map(b),
    ensures
        a == b,
    decreases a.len(),
{
    if a.len() == 0 {
        if b.len() > 0 {
            lemma_assoc_map_contains(b, b.len() - 1);
            assert(assoc_map(a).contains_key(b.last().0));
            lemma_assoc_map_dom(a, b.last().0);
        }
        assert(a =~= b);
    } else {
        if b.len() == 0 {
            lemma_assoc_map_contains(a, a.len() - 1);
            lemma_assoc_map_dom(b, a.last().0);
        }
        // The last entries carry the maximal key of the common map, so they
        // agree; the rest agree by induction.
        lemma_assoc_map_contains(a, a.len() - 1);
        lemma_assoc_map_contains(b, b.len() - 1);
        lemma_assoc_map_dom(b, a.last().0);
        lemma_assoc_map_dom(a, b.last().0);
        let ia = choose|i: int| 0 <= i < a.len() && a[i].0 == b.last().0;
        let ib = choose|i: int| 0 <= i < b.len() && b[i].0 == a.last().0;
        assert(fork_rank(a[ia].0) <= fork_rank(a.last().0));
        assert(fork_rank(b[ib].0) <= fork_rank(b.last().0));
        assert(fork_rank(a.last().0) == fork_rank(b.last().0));
        assert(a.last().0 == b.last().0) by {
            lemma_rank_injective(a.last().0, b.last().0);
        }
        assert(a.last().1 == b.last().1) by {
            assert(assoc_map(a)[a.last().0] == a.last().1);
            assert(assoc_map(b)[b.last().0] == b.last().1);
        }
        assert(assoc_map(a.drop_last()) == assoc_map(b.drop_last())) by {
            lemma_assoc_map_pop(a);
            lemma_assoc_map_pop(b);
        }
        lemma_assoc_canonical(a.drop_last(), b.drop_last());
        assert(a.last() == b.last());
        assert(a.len() == b.len()) by {
            assert(a.drop_last().len() == b.drop_last().len());
        }
        assert forall|i: int| 0 <= i < a.len() implies a[i] == b[i] by {
            if i < a.len() - 1 {
                assert(a.drop_last()[i] == b.drop_last()[i]);
            }
        }
        assert(a =~= b);
    }
}

/// Ranks are distinct across distinct forks.
proof fn lemma_rank_injective(x: EthFork, y: EthFork)
    requires
        fork_rank(x) == fork_rank(y),
    ensures
        x == y,
{
}

/// Removing the last (maximal-key) entry removes exactly its key from the map.
proof fn lemma_assoc_map_pop<V>(s: Seq<(EthFork, V)>)
    requires
        s.len() > 0,
        assoc_sorted(s),
    ensures
        assoc_map(s.drop_last()) == assoc_map(s).remove(s.last().0),
{
    assert forall|k: EthFork| #[trigger] assoc_map(s.drop_last()).contains_key(k)
        implies k != s.last().0 by {
        lemma_assoc_map_dom(s.drop_last(), k);
        let i = choose|i: int| 0 <= i < s.drop_last().len() && s.drop_last()[i].0 == k;
        assert(fork_rank(s[i].0) < fork_rank(s.last().0));
    }
    assert(assoc_map(s.drop_last()) =~= assoc_map(s).remove(s.last().0));
}

} // verus!

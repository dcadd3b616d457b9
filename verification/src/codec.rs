use vstd::prelude::*;
use vstd::bytes::{
    spec_u128_to_le_bytes, spec_u32_to_le_bytes, spec_u64_to_le_bytes,
    lemma_auto_spec_u128_to_from_le_bytes, lemma_auto_spec_u32_to_from_le_bytes,
    lemma_auto_spec_u64_to_from_le_bytes, u128_to_le_bytes, u32_to_le_bytes, u64_to_le_bytes,
};
use crate::data::{
    Address, BlobParams, ChainConfigV, EthFork, EvolveConfig, EvolveSection, ForkCondition,
    assoc_sorted, fork_rank, wf_config,
};
use crate::genesis::{Genesis, GenesisV, wf_genesis};

verus! {

/// The offset basis of the 64-bit FNV-1a hash.
pub const FNV_OFFSET: u64 = 0xcbf29ce484222325;

/// The prime of the 64-bit FNV-1a hash.
pub const FNV_PRIME: u64 = 0x100000001b3;

/// The canonical encoding of a 64-bit integer: eight little-endian bytes.
pub open spec fn enc_u64(x: u64) -> Seq<u8> {
    spec_u64_to_le_bytes(x)
}

/// The canonical encoding of a 32-bit integer: four little-endian bytes.
pub open spec fn enc_u32(x: u32) -> Seq<u8> {
    spec_u32_to_le_bytes(x)
}

/// The canonical encoding of a 128-bit integer: sixteen little-endian bytes.
pub open spec fn enc_u128(x: u128) -> Seq<u8> {
    spec_u128_to_le_bytes(x)
}

/// The canonical encoding of an optional 64-bit integer: a presence byte,
/// then the value if present.
pub open spec fn enc_opt_u64(o: Option<u64>) -> Seq<u8> {
    match o {
        None => seq![0u8],
        Some(n) => seq![1u8] + enc_u64(n),
    }
}

/// The canonical encoding of an address: its head, then its tail.
pub open spec fn enc_addr(a: Address) -> Seq<u8> {
    enc_u32(a.head) + enc_u128(a.tail)
}

/// The canonical encoding of an optional address.
pub open spec fn enc_opt_addr(o: Option<Address>) -> Seq<u8> {
    match o {
        None => seq![0u8],
        Some(a) => seq![1u8] + enc_addr(a),
    }
}

/// The canonical encoding of an activation condition.
pub open spec fn enc_cond(c: ForkCondition) -> Seq<u8> {
    match c {
        ForkCondition::Block(n) => seq![0u8] + enc_u64(n),
        ForkCondition::Timestamp(n) => seq![1u8] + enc_u64(n),
        ForkCondition::Ttd { fork_block, activation_block, total_difficulty } => seq![2u8]
            + enc_opt_u64(fork_block) + enc_u64(activation_block) + enc_u128(total_difficulty),
    }
}

/// The canonical encoding of blob parameters: the six fields in order.
pub open spec fn enc_blob(p: BlobParams) -> Seq<u8> {
    enc_u64(p.target_blob_count) + enc_u64(p.max_blob_count) + enc_u128(p.update_fraction)
        + enc_u128(p.min_blob_fee) + enc_u64(p.max_blobs_per_tx) + enc_u64(p.blob_base_cost)
}

/// The canonical encoding of one fork-activation entry: the fork's rank, then
/// its condition.
pub open spec fn enc_fork_entry(e: (EthFork, ForkCondition)) -> Seq<u8> {
    seq![fork_rank(e.0) as u8] + enc_cond(e.1)
}

/// The canonical encoding of the fork-activation entries, in list order.
pub open spec fn enc_fork_entries(s: Seq<(EthFork, ForkCondition)>) -> Seq<u8>
    decreases s.len(),
{
    if s.len() == 0 {
        Seq::empty()
    } else {
        enc_fork_entry(s.first()) + enc_fork_entries(s.drop_first())
    }
}

/// The canonical encoding of one blob-schedule entry.
pub open spec fn enc_blob_entry(e: (EthFork, BlobParams)) -> Seq<u8> {
    seq![fork_rank(e.0) as u8] + enc_blob(e.1)
}

/// The canonical encoding of the blob-schedule entries, in list order.
pub open spec fn enc_blob_entries(s: Seq<(EthFork, BlobParams)>) -> Seq<u8>
    decreases s.len(),
{
    if s.len() == 0 {
        Seq::empty()
    } else {
        enc_blob_entry(s.first()) + enc_blob_entries(s.drop_first())
    }
}

/// The canonical encoding of the overlay configuration: its six optional
/// fields in order.
pub open spec fn enc_evolve(c: EvolveConfig) -> Seq<u8> {
    enc_opt_addr(c.base_fee_sink) + enc_opt_u64(c.base_fee_redirect_activation_height)
        + enc_opt_addr(c.mint_admin) + enc_opt_u64(c.mint_precompile_activation_height)
        + enc_opt_u64(c.contract_size_limit) + enc_opt_u64(
        c.contract_size_limit_activation_height,
    )
}

/// The canonical encoding of the overlay section.
pub open spec fn enc_section(s: EvolveSection) -> Seq<u8> {
    match s {
        EvolveSection::Absent => seq![0u8],
        EvolveSection::Unreadable => seq![1u8],
        EvolveSection::Present(c) => seq![2u8] + enc_evolve(c),
    }
}

/// The canonical encoding of a configuration record: the chain id, the two
/// length-prefixed association lists (whose canonical order the record's
/// well-formedness fixes), and the overlay section.
pub open spec fn enc_config(c: ChainConfigV) -> Seq<u8> {
    enc_u64(c.chain_id) + enc_u64(c.forks.len() as u64) + enc_fork_entries(c.forks) + enc_u64(
        c.blob_schedule.len() as u64,
    ) + enc_blob_entries(c.blob_schedule) + enc_section(c.evolve)
}

/// The canonical encoding of a chain identity: a variant tag, and for a
/// custom identity its configuration record. Equal identities have
/// byte-for-byte identical encodings, and the encoding of a well-formed
/// identity is order-independent because the record itself is canonical.
pub open spec fn enc_genesis(g: GenesisV) -> Seq<u8> {
    match g {
        GenesisV::Mainnet => seq![0u8],
        GenesisV::OpMainnet => seq![1u8],
        GenesisV::Sepolia => seq![2u8],
        GenesisV::Holesky => seq![3u8],
        GenesisV::Linea => seq![4u8],
        GenesisV::Custom(c) => seq![5u8] + enc_config(c),
    }
}

/// The 64-bit FNV-1a hash of a byte sequence.
pub open spec fn fnv1a(s: Seq<u8>) -> u64
    decreases s.len(),
{
    if s.len() == 0 {
        FNV_OFFSET
    } else {
        (fnv1a(s.drop_last()) ^ (s.last() as u64)).wrapping_mul(FNV_PRIME)
    }
}

/// Hashes a byte string with 64-bit FNV-1a.
pub fn hash_bytes(bytes: &Vec<u8>) -> (r: u64)
    ensures
        r == fnv1a(bytes@),
{
    let mut h: u64 = FNV_OFFSET;
    let mut i: usize = 0;
    while i < bytes.len()
        invariant
            i <= bytes@.len(),
            h == fnv1a(bytes@.take(i as int)),
        decreases bytes@.len() - i,
    {
        assert(bytes@.take(i + 1).drop_last() =~= bytes@.take(i as int));
        assert(bytes@.take(i + 1).last() == bytes@[i as int]);
        h = (h ^ (bytes[i] as u64)).wrapping_mul(FNV_PRIME);
        i = i + 1;
    }
    assert(bytes@.take(i as int) =~= bytes@);
    h
}

/// Appends the canonical encoding of a 64-bit integer.
fn put_u64(out: &mut Vec<u8>, x: u64)
    ensures
        final(out)@ == old(out)@ + enc_u64(x),
{
    let mut b = u64_to_le_bytes(x);
    out.append(&mut b);
}

/// Appends the canonical encoding of an optional 64-bit integer.
fn put_opt_u64(out: &mut Vec<u8>, o: &Option<u64>)
    ensures
        final(out)@ == old(out)@ + enc_opt_u64(*o),
{
    match o {
        None => {
            out.push(0u8);
            assert(final(out)@ =~= old(out)@ + enc_opt_u64(*o));
        },
        Some(n) => {
            out.push(1u8);
            put_u64(out, *n);
            assert(final(out)@ =~= old(out)@ + enc_opt_u64(*o));
        },
    }
}

/// Appends the canonical encoding of an optional address.
fn put_opt_addr(out: &mut Vec<u8>, o: &Option<Address>)
    ensures
        final(out)@ == old(out)@ + enc_opt_addr(*o),
{
    match o {
        None => {
            out.push(0u8);
            assert(final(out)@ =~= old(out)@ + enc_opt_addr(*o));
        },
        Some(a) => {
            out.push(1u8);
            let mut h = u32_to_le_bytes(a.head);
            out.append(&mut h);
            let mut t = u128_to_le_bytes(a.tail);
            out.append(&mut t);
            assert(final(out)@ =~= old(out)@ + enc_opt_addr(*o));
        },
    }
}

/// Appends the canonical encoding of an activation condition.
fn put_cond(out: &mut Vec<u8>, c: &ForkCondition)
    ensures
        final(out)@ == old(out)@ + enc_cond(*c),
{
    match c {
        ForkCondition::Block(n) => {
            out.push(0u8);
            put_u64(out, *n);
            assert(final(out)@ =~= old(out)@ + enc_cond(*c));
        },
        ForkCondition::Timestamp(n) => {
            out.push(1u8);
            put_u64(out, *n);
            assert(final(out)@ =~= old(out)@ + enc_cond(*c));
        },
        ForkCondition::Ttd { fork_block, activation_block, total_difficulty } => {
            out.push(2u8);
            put_opt_u64(out, fork_block);
            put_u64(out, *activation_block);
            let mut d = u128_to_le_bytes(*total_difficulty);
            out.append(&mut d);
            assert(final(out)@ =~= old(out)@ + enc_cond(*c));
        },
    }
}

/// Appends the canonical encoding of blob parameters.
fn put_blob(out: &mut Vec<u8>, p: &BlobParams)
    ensures
        final(out)@ == old(out)@ + enc_blob(*p),
{
    put_u64(out, p.target_blob_count);
    put_u64(out, p.max_blob_count);
    let mut f = u128_to_le_bytes(p.update_fraction);
    out.append(&mut f);
    let mut m = u128_to_le_bytes(p.min_blob_fee);
    out.append(&mut m);
    put_u64(out, p.max_blobs_per_tx);
    put_u64(out, p.blob_base_cost);
    assert(final(out)@ =~= old(out)@ + enc_blob(*p));
}

/// The canonical rank of a hardfork, as a byte.
fn fork_tag(f: &EthFork) -> (r: u8)
    ensures
        r as nat == fork_rank(*f),
{
    match f {
        EthFork::Frontier => 0,
        EthFork::Homestead => 1,
        EthFork::Dao => 2,
        EthFork::Tangerine => 3,
        EthFork::SpuriousDragon => 4,
        EthFork::Byzantium => 5,
        EthFork::Constantinople => 6,
        EthFork::Petersburg => 7,
        EthFork::Istanbul => 8,
        EthFork::MuirGlacier => 9,
        EthFork::Berlin => 10,
        EthFork::London => 11,
        EthFork::ArrowGlacier => 12,
        EthFork::GrayGlacier => 13,
        EthFork::Paris => 14,
        EthFork::Shanghai => 15,
        EthFork::Cancun => 16,
        EthFork::Prague => 17,
        EthFork::Osaka => 18,
        EthFork::Bpo1 => 19,
        EthFork::Bpo2 => 20,
        EthFork::Amsterdam => 21,
    }
}

/// Extending an entry list extends its encoding at the back.
proof fn lemma_enc_fork_entries_push(s: Seq<(EthFork, ForkCondition)>, e: (EthFork, ForkCondition))
    ensures
        enc_fork_entries(s.push(e)) == enc_fork_entries(s) + enc_fork_entry(e),
    decreases s.len(),
{
    if s.len() == 0 {
        assert(s.push(e).drop_first() =~= Seq::<(EthFork, ForkCondition)>::empty());
        assert(s.push(e).first() == e);
        assert(enc_fork_entries(s.push(e)) == enc_fork_entry(e) + enc_fork_entries(
            Seq::<(EthFork, ForkCondition)>::empty(),
        ));
        assert(enc_fork_entries(Seq::<(EthFork, ForkCondition)>::empty()) =~= Seq::<u8>::empty());
        assert(enc_fork_entries(s.push(e)) =~= enc_fork_entries(s) + enc_fork_entry(e));
    } else {
        assert(s.push(e).first() == s.first());
        assert(s.push(e).drop_first() =~= s.drop_first().push(e));
        lemma_enc_fork_entries_push(s.drop_first(), e);
        assert(enc_fork_entries(s.push(e)) == enc_fork_entry(s.first()) + enc_fork_entries(
            s.drop_first().push(e),
        ));
        assert(enc_fork_entry(s.first()) + (enc_fork_entries(s.drop_first()) + enc_fork_entry(e)) =~= (enc_fork_entry(
            s.first(),
        ) + enc_fork_entries(s.drop_first())) + enc_fork_entry(e));
        assert(enc_fork_entries(s.push(e)) =~= enc_fork_entries(s) + enc_fork_entry(e));
    }
}

/// Extending a blob-entry list extends its encoding at the back.
proof fn lemma_enc_blob_entries_push(s: Seq<(EthFork, BlobParams)>, e: (EthFork, BlobParams))
    ensures
        enc_blob_entries(s.push(e)) == enc_blob_entries(s) + enc_blob_entry(e),
    decreases s.len(),
{
    if s.len() == 0 {
        assert(s.push(e).drop_first() =~= Seq::<(EthFork, BlobParams)>::empty());
        assert(s.push(e).first() == e);
        assert(enc_blob_entries(s.push(e)) == enc_blob_entry(e) + enc_blob_entries(
            Seq::<(EthFork, BlobParams)>::empty(),
        ));
        assert(enc_blob_entries(Seq::<(EthFork, BlobParams)>::empty()) =~= Seq::<u8>::empty());
        assert(enc_blob_entries(s.push(e)) =~= enc_blob_entries(s) + enc_blob_entry(e));
    } else {
        assert(s.push(e).first() == s.first());
        assert(s.push(e).drop_first() =~= s.drop_first().push(e));
        lemma_enc_blob_entries_push(s.drop_first(), e);
        assert(enc_blob_entries(s.push(e)) == enc_blob_entry(s.first()) + enc_blob_entries(
            s.drop_first().push(e),
        ));
        assert(enc_blob_entry(s.first()) + (enc_blob_entries(s.drop_first()) + enc_blob_entry(e)) =~= (enc_blob_entry(
            s.first(),
        ) + enc_blob_entries(s.drop_first())) + enc_blob_entry(e));
        assert(enc_blob_entries(s.push(e)) =~= enc_blob_entries(s) + enc_blob_entry(e));
    }
}

/// Appends the canonical encoding of a configuration record.
#[verifier::rlimit(100)]
fn put_config(out: &mut Vec<u8>, c: &crate::data::ChainConfig)
    ensures
        final(out)@ == old(out)@ + enc_config(c@),
{
    put_u64(out, c.chain_id);

    put_u64(out, c.forks.len() as u64);
    let ghost before = out@;
    let mut i: usize = 0;
    while i < c.forks.len()
        invariant
            i <= c.forks@.len(),
            out@ == before + enc_fork_entries(c.forks@.take(i as int)),
        decreases c.forks@.len() - i,
    {
        proof {
            assert(c.forks@.take(i as int).push(c.forks@[i as int]) =~= c.forks@.take(i + 1));
            lemma_enc_fork_entries_push(c.forks@.take(i as int), c.forks@[i as int]);
        }
        out.push(fork_tag(&c.forks[i].0));
        put_cond(out, &c.forks[i].1);
        assert(out@ =~= before + enc_fork_entries(c.forks@.take(i + 1)));
        i = i + 1;
    }
    assert(c.forks@.take(i as int) =~= c.forks@);

    put_u64(out, c.blob_schedule.len() as u64);
    let ghost before2 = out@;
    let mut j: usize = 0;
    while j < c.blob_schedule.len()
        invariant
            j <= c.blob_schedule@.len(),
            out@ == before2 + enc_blob_entries(c.blob_schedule@.take(j as int)),
        decreases c.blob_schedule@.len() - j,
    {
        proof {
            assert(c.blob_schedule@.take(j as int).push(c.blob_schedule@[j as int])
                =~= c.blob_schedule@.take(j + 1));
            lemma_enc_blob_entries_push(
                c.blob_schedule@.take(j as int),
                c.blob_schedule@[j as int],
            );
        }
        out.push(fork_tag(&c.blob_schedule[j].0));
        put_blob(out, &c.blob_schedule[j].1);
        assert(out@ =~= before2 + enc_blob_entries(c.blob_schedule@.take(j + 1)));
        j = j + 1;
    }
    assert(c.blob_schedule@.take(j as int) =~= c.blob_schedule@);

    match &c.evolve {
        EvolveSection::Absent => {
            out.push(0u8);
        },
        EvolveSection::Unreadable => {
            out.push(1u8);
        },
        EvolveSection::Present(cfg) => {
            out.push(2u8);
            put_opt_addr(out, &cfg.base_fee_sink);
            put_opt_u64(out, &cfg.base_fee_redirect_activation_height);
            put_opt_addr(out, &cfg.mint_admin);
            put_opt_u64(out, &cfg.mint_precompile_activation_height);
            put_opt_u64(out, &cfg.contract_size_limit);
            put_opt_u64(out, &cfg.contract_size_limit_activation_height);
        },
    }
    assert(final(out)@ =~= old(out)@ + enc_config(c@));
}

impl Genesis {
    /// The canonical serialized form of this identity.
    pub fn encode(&self) -> (r: Vec<u8>)
        ensures
            r@ == enc_genesis(self@),
    {
        let mut out: Vec<u8> = Vec::new();
        match self {
            Genesis::Mainnet => {
                out.push(0u8);
                assert(out@ =~= enc_genesis(self@));
            },
            Genesis::OpMainnet => {
                out.push(1u8);
                assert(out@ =~= enc_genesis(self@));
            },
            Genesis::Sepolia => {
                out.push(2u8);
                assert(out@ =~= enc_genesis(self@));
            },
            Genesis::Holesky => {
                out.push(3u8);
                assert(out@ =~= enc_genesis(self@));
            },
            Genesis::Linea => {
                out.push(4u8);
                assert(out@ =~= enc_genesis(self@));
            },
            Genesis::Custom(c) => {
                out.push(5u8);
                put_config(&mut out, c);
                assert(out@ =~= enc_genesis(self@));
            },
        }
        out
    }

    /// A stable hash of this identity: the FNV-1a hash of its canonical
    /// serialized form. A deterministic function of the identity's content
    /// alone.
    pub fn stable_hash(&self) -> (r: u64)
        ensures
            r == fnv1a(enc_genesis(self@)),
    {
        let bytes = self.encode();
        hash_bytes(&bytes)
    }
}

/// Two identities with the same content — the same named variant, or custom
/// records that agree as maps, however they were assembled — are equal, so
/// their canonical encodings and their stable hashes are equal too.
pub proof fn lemma_content_determines_hash(a: GenesisV, b: GenesisV)
    requires
        wf_genesis(a),
        wf_genesis(b),
        genesis_content_eq(a, b),
    ensures
        a == b,
        enc_genesis(a) == enc_genesis(b),
        fnv1a(enc_genesis(a)) == fnv1a(enc_genesis(b)),
{
    match (a, b) {
        (GenesisV::Custom(ca), GenesisV::Custom(cb)) => {
            crate::data::lemma_assoc_canonical(ca.forks, cb.forks);
            crate::data::lemma_assoc_canonical(ca.blob_schedule, cb.blob_schedule);
            assert(ca =~= cb);
        },
        _ => {},
    }
}

/// Whether two identities have the same content: the same named variant, or
/// custom records whose chain ids, fork maps, blob maps and overlay sections
/// agree — regardless of the order their association lists were built in.
pub open spec fn genesis_content_eq(a: GenesisV, b: GenesisV) -> bool {
    match (a, b) {
        (GenesisV::Custom(ca), GenesisV::Custom(cb)) => crate::data::config_content(ca)
            == crate::data::config_content(cb),
        _ => a == b,
    }
}


/// The hardfork a rank byte denotes, if any.
pub open spec fn fork_of_tag(t: u8) -> Option<EthFork> {
    if t == 0 { Some(EthFork::Frontier) }
    else if t == 1 { Some(EthFork::Homestead) }
    else if t == 2 { Some(EthFork::Dao) }
    else if t == 3 { Some(EthFork::Tangerine) }
    else if t == 4 { Some(EthFork::SpuriousDragon) }
    else if t == 5 { Some(EthFork::Byzantium) }
    else if t == 6 { Some(EthFork::Constantinople) }
    else if t == 7 { Some(EthFork::Petersburg) }
    else if t == 8 { Some(EthFork::Istanbul) }
    else if t == 9 { Some(EthFork::MuirGlacier) }
    else if t == 10 { Some(EthFork::Berlin) }
    else if t == 11 { Some(EthFork::London) }
    else if t == 12 { Some(EthFork::ArrowGlacier) }
    else if t == 13 { Some(EthFork::GrayGlacier) }
    else if t == 14 { Some(EthFork::Paris) }
    else if t == 15 { Some(EthFork::Shanghai) }
    else if t == 16 { Some(EthFork::Cancun) }
    else if t == 17 { Some(EthFork::Prague) }
    else if t == 18 { Some(EthFork::Osaka) }
    else if t == 19 { Some(EthFork::Bpo1) }
    else if t == 20 { Some(EthFork::Bpo2) }
    else if t == 21 { Some(EthFork::Amsterdam) }
    else { None }
}

/// Reads one byte.
pub open spec fn de_byte(s: Seq<u8>) -> Option<(u8, Seq<u8>)> {
    if s.len() >= 1 {
        Some((s.first(), s.drop_first()))
    } else {
        None
    }
}

/// Reads a 64-bit integer.
pub open spec fn de_u64(s: Seq<u8>) -> Option<(u64, Seq<u8>)> {
    if s.len() >= 8 {
        Some((vstd::bytes::spec_u64_from_le_bytes(s.take(8)), s.skip(8)))
    } else {
        None
    }
}

/// Reads a 32-bit integer.
pub open spec fn de_u32(s: Seq<u8>) -> Option<(u32, Seq<u8>)> {
    if s.len() >= 4 {
        Some((vstd::bytes::spec_u32_from_le_bytes(s.take(4)), s.skip(4)))
    } else {
        None
    }
}

/// Reads a 128-bit integer.
pub open spec fn de_u128(s: Seq<u8>) -> Option<(u128, Seq<u8>)> {
    if s.len() >= 16 {
        Some((vstd::bytes::spec_u128_from_le_bytes(s.take(16)), s.skip(16)))
    } else {
        None
    }
}

/// Reads an optional 64-bit integer.
pub open spec fn de_opt_u64(s: Seq<u8>) -> Option<(Option<u64>, Seq<u8>)> {
    match de_byte(s) {
        None => None,
        Some((t, r)) => if t == 0 {
            Some((None, r))
        } else if t == 1 {
            match de_u64(r) {
                None => None,
                Some((x, r2)) => Some((Some(x), r2)),
            }
        } else {
            None
        },
    }
}

/// Reads an address.
pub open spec fn de_addr(s: Seq<u8>) -> Option<(Address, Seq<u8>)> {
    match de_u32(s) {
        None => None,
        Some((h, r)) => match de_u128(r) {
            None => None,
            Some((t, r2)) => Some((Address { head: h, tail: t }, r2)),
        },
    }
}

/// Reads an optional address.
pub open spec fn de_opt_addr(s: Seq<u8>) -> Option<(Option<Address>, Seq<u8>)> {
    match de_byte(s) {
        None => None,
        Some((t, r)) => if t == 0 {
            Some((None, r))
        } else if t == 1 {
            match de_addr(r) {
                None => None,
                Some((a, r2)) => Some((Some(a), r2)),
            }
        } else {
            None
        },
    }
}

/// Reads an activation condition.
pub open spec fn de_cond(s: Seq<u8>) -> Option<(ForkCondition, Seq<u8>)> {
    match de_byte(s) {
        None => None,
        Some((t, r)) => if t == 0 {
            match de_u64(r) {
                None => None,
                Some((n, r2)) => Some((ForkCondition::Block(n), r2)),
            }
        } else if t == 1 {
            match de_u64(r) {
                None => None,
                Some((n, r2)) => Some((ForkCondition::Timestamp(n), r2)),
            }
        } else if t == 2 {
            match de_opt_u64(r) {
                None => None,
                Some((fb, r2)) => match de_u64(r2) {
                    None => None,
                    Some((ab, r3)) => match de_u128(r3) {
                        None => None,
                        Some((td, r4)) => Some(
                            (
                                ForkCondition::Ttd {
                                    fork_block: fb,
                                    activation_block: ab,
                                    total_difficulty: td,
                                },
                                r4,
                            ),
                        ),
                    },
                },
            }
        } else {
            None
        },
    }
}

/// Reads blob parameters.
pub open spec fn de_blob(s: Seq<u8>) -> Option<(BlobParams, Seq<u8>)> {
    match de_u64(s) {
        None => None,
        Some((target, r)) => match de_u64(r) {
            None => None,
            Some((max, r2)) => match de_u128(r2) {
                None => None,
                Some((fraction, r3)) => match de_u128(r3) {
                    None => None,
                    Some((fee, r4)) => match de_u64(r4) {
                        None => None,
                        Some((per_tx, r5)) => match de_u64(r5) {
                            None => None,
                            Some((cost, r6)) => Some(
                                (
                                    BlobParams {
                                        target_blob_count: target,
                                        max_blob_count: max,
                                        update_fraction: fraction,
                                        min_blob_fee: fee,
                                        max_blobs_per_tx: per_tx,
                                        blob_base_cost: cost,
                                    },
                                    r6,
                                ),
                            ),
                        },
                    },
                },
            },
        },
    }
}

/// Reads one fork-activation entry.
pub open spec fn de_fork_entry(s: Seq<u8>) -> Option<((EthFork, ForkCondition), Seq<u8>)> {
    match de_byte(s) {
        None => None,
        Some((t, r)) => match fork_of_tag(t) {
            None => None,
            Some(f) => match de_cond(r) {
                None => None,
                Some((c, r2)) => Some(((f, c), r2)),
            },
        },
    }
}

/// Reads a counted list of fork-activation entries.
pub open spec fn de_fork_list(s: Seq<u8>, n: nat) -> Option<(
    Seq<(EthFork, ForkCondition)>,
    Seq<u8>,
)>
    decreases n,
{
    if n == 0 {
        Some((Seq::empty(), s))
    } else {
        match de_fork_entry(s) {
            None => None,
            Some((e, r)) => match de_fork_list(r, (n - 1) as nat) {
                None => None,
                Some((v, r2)) => Some((seq![e] + v, r2)),
            },
        }
    }
}

/// Reads one blob-schedule entry.
pub open spec fn de_blob_entry(s: Seq<u8>) -> Option<((EthFork, BlobParams), Seq<u8>)> {
    match de_byte(s) {
        None => None,
        Some((t, r)) => match fork_of_tag(t) {
            None => None,
            Some(f) => match de_blob(r) {
                None => None,
                Some((p, r2)) => Some(((f, p), r2)),
            },
        },
    }
}

/// Reads a counted list of blob-schedule entries.
pub open spec fn de_blob_list(s: Seq<u8>, n: nat) -> Option<(Seq<(EthFork, BlobParams)>, Seq<u8>)>
    decreases n,
{
    if n == 0 {
        Some((Seq::empty(), s))
    } else {
        match de_blob_entry(s) {
            None => None,
            Some((e, r)) => match de_blob_list(r, (n - 1) as nat) {
                None => None,
                Some((v, r2)) => Some((seq![e] + v, r2)),
            },
        }
    }
}

/// Reads the overlay configuration.
pub open spec fn de_evolve(s: Seq<u8>) -> Option<(EvolveConfig, Seq<u8>)> {
    match de_opt_addr(s) {
        None => None,
        Some((sink, r)) => match de_opt_u64(r) {
            None => None,
            Some((sink_h, r2)) => match de_opt_addr(r2) {
                None => None,
                Some((admin, r3)) => match de_opt_u64(r3) {
                    None => None,
                    Some((admin_h, r4)) => match de_opt_u64(r4) {
                        None => None,
                        Some((limit, r5)) => match de_opt_u64(r5) {
                            None => None,
                            Some((limit_h, r6)) => Some(
                                (
                                    EvolveConfig {
                                        base_fee_sink: sink,
                                        base_fee_redirect_activation_height: sink_h,
                                        mint_admin: admin,
                                        mint_precompile_activation_height: admin_h,
                                        contract_size_limit: limit,
                                        contract_size_limit_activation_height: limit_h,
                                    },
                                    r6,
                                ),
                            ),
                        },
                    },
                },
            },
        },
    }
}

/// Reads the overlay section.
pub open spec fn de_section(s: Seq<u8>) -> Option<(EvolveSection, Seq<u8>)> {
    match de_byte(s) {
        None => None,
        Some((t, r)) => if t == 0 {
            Some((EvolveSection::Absent, r))
        } else if t == 1 {
            Some((EvolveSection::Unreadable, r))
        } else if t == 2 {
            match de_evolve(r) {
                None => None,
                Some((c, r2)) => Some((EvolveSection::Present(c), r2)),
            }
        } else {
            None
        },
    }
}

/// Reads a configuration record.
pub open spec fn de_config(s: Seq<u8>) -> Option<(ChainConfigV, Seq<u8>)> {
    match de_u64(s) {
        None => None,
        Some((cid, r)) => match de_u64(r) {
            None => None,
            Some((n1, r2)) => match de_fork_list(r2, n1 as nat) {
                None => None,
                Some((forks, r3)) => match de_u64(r3) {
                    None => None,
                    Some((n2, r4)) => match de_blob_list(r4, n2 as nat) {
                        None => None,
                        Some((blobs, r5)) => match de_section(r5) {
                            None => None,
                            Some((sec, r6)) => Some(
                                (
                                    ChainConfigV {
                                        chain_id: cid,
                                        forks,
                                        blob_schedule: blobs,
                                        evolve: sec,
                                    },
                                    r6,
                                ),
                            ),
                        },
                    },
                },
            },
        },
    }
}

/// Reads a chain identity.
pub open spec fn de_genesis(s: Seq<u8>) -> Option<(GenesisV, Seq<u8>)> {
    match de_byte(s) {
        None => None,
        Some((t, r)) => if t == 0 {
            Some((GenesisV::Mainnet, r))
        } else if t == 1 {
            Some((GenesisV::OpMainnet, r))
        } else if t == 2 {
            Some((GenesisV::Sepolia, r))
        } else if t == 3 {
            Some((GenesisV::Holesky, r))
        } else if t == 4 {
            Some((GenesisV::Linea, r))
        } else if t == 5 {
            match de_config(r) {
                None => None,
                Some((c, r2)) => Some((GenesisV::Custom(c), r2)),
            }
        } else {
            None
        },
    }
}

/// What a byte string deserializes to: a chain identity, when the whole
/// string is that identity's canonical encoding.
pub open spec fn spec_decode(s: Seq<u8>) -> Option<GenesisV> {
    match de_genesis(s) {
        None => None,
        Some((g, r)) => if r.len() == 0 {
            Some(g)
        } else {
            None
        },
    }
}

proof fn lemma_rt_byte(t: u8, rest: Seq<u8>)
    ensures
        de_byte(seq![t] + rest) == Some((t, rest)),
{
    assert((seq![t] + rest).first() == t);
    assert((seq![t] + rest).drop_first() =~= rest);
}

proof fn lemma_rt_u64(x: u64, rest: Seq<u8>)
    ensures
        de_u64(enc_u64(x) + rest) == Some((x, rest)),
{
    lemma_auto_spec_u64_to_from_le_bytes();
    assert((enc_u64(x) + rest).take(8) =~= enc_u64(x));
    assert((enc_u64(x) + rest).skip(8) =~= rest);
}

proof fn lemma_rt_u32(x: u32, rest: Seq<u8>)
    ensures
        de_u32(enc_u32(x) + rest) == Some((x, rest)),
{
    lemma_auto_spec_u32_to_from_le_bytes();
    assert((enc_u32(x) + rest).take(4) =~= enc_u32(x));
    assert((enc_u32(x) + rest).skip(4) =~= rest);
}

proof fn lemma_rt_u128(x: u128, rest: Seq<u8>)
    ensures
        de_u128(enc_u128(x) + rest) == Some((x, rest)),
{
    lemma_auto_spec_u128_to_from_le_bytes();
    assert((enc_u128(x) + rest).take(16) =~= enc_u128(x));
    assert((enc_u128(x) + rest).skip(16) =~= rest);
}

proof fn lemma_rt_opt_u64(o: Option<u64>, rest: Seq<u8>)
    ensures
        de_opt_u64(enc_opt_u64(o) + rest) == Some((o, rest)),
{
    match o {
        None => {
            assert(enc_opt_u64(o) + rest =~= seq![0u8] + rest);
            lemma_rt_byte(0, rest);
        },
        Some(n) => {
            assert(enc_opt_u64(o) + rest =~= seq![1u8] + (enc_u64(n) + rest));
            lemma_rt_byte(1, enc_u64(n) + rest);
            lemma_rt_u64(n, rest);
        },
    }
}

proof fn lemma_rt_addr(a: Address, rest: Seq<u8>)
    ensures
        de_addr(enc_addr(a) + rest) == Some((a, rest)),
{
    assert(enc_addr(a) + rest =~= enc_u32(a.head) + (enc_u128(a.tail) + rest));
    lemma_rt_u32(a.head, enc_u128(a.tail) + rest);
    lemma_rt_u128(a.tail, rest);
}

proof fn lemma_rt_opt_addr(o: Option<Address>, rest: Seq<u8>)
    ensures
        de_opt_addr(enc_opt_addr(o) + rest) == Some((o, rest)),
{
    match o {
        None => {
            assert(enc_opt_addr(o) + rest =~= seq![0u8] + rest);
            lemma_rt_byte(0, rest);
        },
        Some(a) => {
            assert(enc_opt_addr(o) + rest =~= seq![1u8] + (enc_addr(a) + rest));
            lemma_rt_byte(1, enc_addr(a) + rest);
            lemma_rt_addr(a, rest);
        },
    }
}

proof fn lemma_rt_cond(c: ForkCondition, rest: Seq<u8>)
    ensures
        de_cond(enc_cond(c) + rest) == Some((c, rest)),
{
    match c {
        ForkCondition::Block(n) => {
            assert(enc_cond(c) + rest =~= seq![0u8] + (enc_u64(n) + rest));
            lemma_rt_byte(0, enc_u64(n) + rest);
            lemma_rt_u64(n, rest);
        },
        ForkCondition::Timestamp(n) => {
            assert(enc_cond(c) + rest =~= seq![1u8] + (enc_u64(n) + rest));
            lemma_rt_byte(1, enc_u64(n) + rest);
            lemma_rt_u64(n, rest);
        },
        ForkCondition::Ttd { fork_block, activation_block, total_difficulty } => {
            assert(enc_cond(c) + rest =~= seq![2u8] + (enc_opt_u64(fork_block) + (enc_u64(
                activation_block,
            ) + (enc_u128(total_difficulty) + rest))));
            lemma_rt_byte(
                2,
                enc_opt_u64(fork_block) + (enc_u64(activation_block) + (enc_u128(total_difficulty)
                    + rest)),
            );
            lemma_rt_opt_u64(
                fork_block,
                enc_u64(activation_block) + (enc_u128(total_difficulty) + rest),
            );
            lemma_rt_u64(activation_block, enc_u128(total_difficulty) + rest);
            lemma_rt_u128(total_difficulty, rest);
        },
    }
}

proof fn lemma_rt_blob(p: BlobParams, rest: Seq<u8>)
    ensures
        de_blob(enc_blob(p) + rest) == Some((p, rest)),
{
    let r5 = enc_u64(p.blob_base_cost) + rest;
    let r4 = enc_u64(p.max_blobs_per_tx) + r5;
    let r3 = enc_u128(p.min_blob_fee) + r4;
    let r2 = enc_u128(p.update_fraction) + r3;
    let r1 = enc_u64(p.max_blob_count) + r2;
    assert(enc_blob(p) + rest =~= enc_u64(p.target_blob_count) + r1);
    lemma_rt_u64(p.target_blob_count, r1);
    lemma_rt_u64(p.max_blob_count, r2);
    lemma_rt_u128(p.update_fraction, r3);
    lemma_rt_u128(p.min_blob_fee, r4);
    lemma_rt_u64(p.max_blobs_per_tx, r5);
    lemma_rt_u64(p.blob_base_cost, rest);
}

/// Ranks below 22 decode back to their forks.
proof fn lemma_fork_tag_rt(f: EthFork)
    ensures
        fork_rank(f) <= 21,
        fork_of_tag(fork_rank(f) as u8) == Some(f),
{
    match f {
        EthFork::Frontier => {},
        EthFork::Homestead => {},
        EthFork::Dao => {},
        EthFork::Tangerine => {},
        EthFork::SpuriousDragon => {},
        EthFork::Byzantium => {},
        EthFork::Constantinople => {},
        EthFork::Petersburg => {},
        EthFork::Istanbul => {},
        EthFork::MuirGlacier => {},
        EthFork::Berlin => {},
        EthFork::London => {},
        EthFork::ArrowGlacier => {},
        EthFork::GrayGlacier => {},
        EthFork::Paris => {},
        EthFork::Shanghai => {},
        EthFork::Cancun => {},
        EthFork::Prague => {},
        EthFork::Osaka => {},
        EthFork::Bpo1 => {},
        EthFork::Bpo2 => {},
        EthFork::Amsterdam => {},
    }
}

proof fn lemma_rt_fork_entry(e: (EthFork, ForkCondition), rest: Seq<u8>)
    ensures
        de_fork_entry(enc_fork_entry(e) + rest) == Some((e, rest)),
{
    lemma_fork_tag_rt(e.0);
    let t = fork_rank(e.0) as u8;
    assert(enc_fork_entry(e) + rest =~= seq![t] + (enc_cond(e.1) + rest));
    lemma_rt_byte(t, enc_cond(e.1) + rest);
    lemma_rt_cond(e.1, rest);
    assert(e == (e.0, e.1));
}

proof fn lemma_rt_fork_list(s: Seq<(EthFork, ForkCondition)>, rest: Seq<u8>)
    ensures
        de_fork_list(enc_fork_entries(s) + rest, s.len()) == Some((s, rest)),
    decreases s.len(),
{
    if s.len() == 0 {
        assert(enc_fork_entries(s) + rest =~= rest);
        assert(s =~= Seq::<(EthFork, ForkCondition)>::empty());
    } else {
        assert(enc_fork_entries(s) + rest =~= enc_fork_entry(s.first()) + (enc_fork_entries(
            s.drop_first(),
        ) + rest));
        lemma_rt_fork_entry(s.first(), enc_fork_entries(s.drop_first()) + rest);
        lemma_rt_fork_list(s.drop_first(), rest);
        assert(seq![s.first()] + s.drop_first() =~= s);
    }
}

proof fn lemma_rt_blob_entry(e: (EthFork, BlobParams), rest: Seq<u8>)
    ensures
        de_blob_entry(enc_blob_entry(e) + rest) == Some((e, rest)),
{
    lemma_fork_tag_rt(e.0);
    let t = fork_rank(e.0) as u8;
    assert(enc_blob_entry(e) + rest =~= seq![t] + (enc_blob(e.1) + rest));
    lemma_rt_byte(t, enc_blob(e.1) + rest);
    lemma_rt_blob(e.1, rest);
    assert(e == (e.0, e.1));
}

proof fn lemma_rt_blob_list(s: Seq<(EthFork, BlobParams)>, rest: Seq<u8>)
    ensures
        de_blob_list(enc_blob_entries(s) + rest, s.len()) == Some((s, rest)),
    decreases s.len(),
{
    if s.len() == 0 {
        assert(enc_blob_entries(s) + rest =~= rest);
        assert(s =~= Seq::<(EthFork, BlobParams)>::empty());
    } else {
        assert(enc_blob_entries(s) + rest =~= enc_blob_entry(s.first()) + (enc_blob_entries(
            s.drop_first(),
        ) + rest));
        lemma_rt_blob_entry(s.first(), enc_blob_entries(s.drop_first()) + rest);
        lemma_rt_blob_list(s.drop_first(), rest);
        assert(seq![s.first()] + s.drop_first() =~= s);
    }
}

/// Sequence concatenation is associative.
proof fn seq_assoc(a: Seq<u8>, b: Seq<u8>, c: Seq<u8>)
    ensures
        (a + b) + c == a + (b + c),
{
    assert((a + b) + c =~= a + (b + c));
}

proof fn lemma_rt_evolve(c: EvolveConfig, rest: Seq<u8>)
    ensures
        de_evolve(enc_evolve(c) + rest) == Some((c, rest)),
{
    let e1 = enc_opt_addr(c.base_fee_sink);
    let e2 = enc_opt_u64(c.base_fee_redirect_activation_height);
    let e3 = enc_opt_addr(c.mint_admin);
    let e4 = enc_opt_u64(c.mint_precompile_activation_height);
    let e5 = enc_opt_u64(c.contract_size_limit);
    let e6 = enc_opt_u64(c.contract_size_limit_activation_height);
    let r5 = e6 + rest;
    let r4 = e5 + r5;
    let r3 = e4 + r4;
    let r2 = e3 + r3;
    let r1 = e2 + r2;
    seq_assoc(e1 + e2 + e3 + e4 + e5, e6, rest);
    seq_assoc(e1 + e2 + e3 + e4, e5, r5);
    seq_assoc(e1 + e2 + e3, e4, r4);
    seq_assoc(e1 + e2, e3, r3);
    seq_assoc(e1, e2, r2);
    assert(enc_evolve(c) + rest == e1 + r1);
    lemma_rt_opt_addr(c.base_fee_sink, r1);
    lemma_rt_opt_u64(c.base_fee_redirect_activation_height, r2);
    lemma_rt_opt_addr(c.mint_admin, r3);
    lemma_rt_opt_u64(c.mint_precompile_activation_height, r4);
    lemma_rt_opt_u64(c.contract_size_limit, r5);
    lemma_rt_opt_u64(c.contract_size_limit_activation_height, rest);
}

proof fn lemma_rt_section(s: EvolveSection, rest: Seq<u8>)
    ensures
        de_section(enc_section(s) + rest) == Some((s, rest)),
{
    match s {
        EvolveSection::Absent => {
            assert(enc_section(s) + rest =~= seq![0u8] + rest);
            lemma_rt_byte(0, rest);
        },
        EvolveSection::Unreadable => {
            assert(enc_section(s) + rest =~= seq![1u8] + rest);
            lemma_rt_byte(1, rest);
        },
        EvolveSection::Present(c) => {
            assert(enc_section(s) + rest =~= seq![2u8] + (enc_evolve(c) + rest));
            lemma_rt_byte(2, enc_evolve(c) + rest);
            lemma_rt_evolve(c, rest);
        },
    }
}

/// Every fork in a strictly ordered list ranks at least its index.
proof fn lemma_sorted_rank_ge_index<V>(s: Seq<(EthFork, V)>, i: int)
    requires
        assoc_sorted(s),
        0 <= i < s.len(),
    ensures
        fork_rank(s[i].0) >= i,
    decreases i,
{
    if i > 0 {
        lemma_sorted_rank_ge_index(s, i - 1);
    }
}

/// A strictly ordered association list has at most one entry per rank, so at
/// most 22 entries.
proof fn lemma_sorted_len<V>(s: Seq<(EthFork, V)>)
    requires
        assoc_sorted(s),
    ensures
        s.len() <= 22,
{
    if s.len() > 22 {
        lemma_sorted_rank_ge_index(s, 22);
        lemma_fork_tag_rt(s[22].0);
    }
}

proof fn lemma_rt_config(c: ChainConfigV, rest: Seq<u8>)
    requires
        wf_config(c),
    ensures
        de_config(enc_config(c) + rest) == Some((c, rest)),
{
    lemma_sorted_len(c.forks);
    lemma_sorted_len(c.blob_schedule);
    let e1 = enc_u64(c.chain_id);
    let e2 = enc_u64(c.forks.len() as u64);
    let e3 = enc_fork_entries(c.forks);
    let e4 = enc_u64(c.blob_schedule.len() as u64);
    let e5 = enc_blob_entries(c.blob_schedule);
    let e6 = enc_section(c.evolve);
    let r4 = e6 + rest;
    let r3 = e5 + r4;
    let r2 = e4 + r3;
    let r1 = e3 + r2;
    let r0 = e2 + r1;
    seq_assoc(e1 + e2 + e3 + e4 + e5, e6, rest);
    seq_assoc(e1 + e2 + e3 + e4, e5, r4);
    seq_assoc(e1 + e2 + e3, e4, r3);
    seq_assoc(e1 + e2, e3, r2);
    seq_assoc(e1, e2, r1);
    assert(enc_config(c) + rest == e1 + r0);
    lemma_rt_u64(c.chain_id, r0);
    lemma_rt_u64(c.forks.len() as u64, r1);
    lemma_rt_fork_list(c.forks, r2);
    lemma_rt_u64(c.blob_schedule.len() as u64, r3);
    lemma_rt_blob_list(c.blob_schedule, r4);
    lemma_rt_section(c.evolve, rest);
    assert(c == ChainConfigV {
        chain_id: c.chain_id,
        forks: c.forks,
        blob_schedule: c.blob_schedule,
        evolve: c.evolve,
    });
}

/// Round trip: deserializing the canonical serialized form of any well-formed
/// chain identity — named or custom, whatever its blob-fee schedule and
/// overlay hold — yields that identity exactly.
#[verifier::rlimit(100)]
#[verifier::spinoff_prover]
pub proof fn lemma_roundtrip(g: GenesisV)
    requires
        wf_genesis(g),
    ensures
        spec_decode(enc_genesis(g)) == Some(g),
{
    let empty = Seq::<u8>::empty();
    match g {
        GenesisV::Mainnet => {
            assert(enc_genesis(g) =~= seq![0u8] + empty);
            lemma_rt_byte(0, empty);
        },
        GenesisV::OpMainnet => {
            assert(enc_genesis(g) =~= seq![1u8] + empty);
            lemma_rt_byte(1, empty);
        },
        GenesisV::Sepolia => {
            assert(enc_genesis(g) =~= seq![2u8] + empty);
            lemma_rt_byte(2, empty);
        },
        GenesisV::Holesky => {
            assert(enc_genesis(g) =~= seq![3u8] + empty);
            lemma_rt_byte(3, empty);
        },
        GenesisV::Linea => {
            assert(enc_genesis(g) =~= seq![4u8] + empty);
            lemma_rt_byte(4, empty);
        },
        GenesisV::Custom(c) => {
            assert(enc_genesis(g) =~= seq![5u8] + (enc_config(c) + empty));
            lemma_rt_byte(5, enc_config(c) + empty);
            lemma_rt_config(c, empty);
        },
    }
}


/// Reads one byte at the cursor.
fn rd_u8(s: &[u8], i: usize) -> (r: Option<(u8, usize)>)
    requires
        i <= s@.len(),
    ensures
        r matches Some((x, j)) ==> i <= j <= s@.len() && de_byte(s@.skip(i as int)) == Some(
            (x, s@.skip(j as int)),
        ),
        r is None ==> de_byte(s@.skip(i as int)) is None,
{
    if i < s.len() {
        proof {
            assert(s@.skip(i as int).first() == s@[i as int]);
            assert(s@.skip(i as int).drop_first() =~= s@.skip(i as int + 1));
        }
        Some((s[i], i + 1))
    } else {
        None
    }
}

/// Reads a 64-bit integer at the cursor.
fn rd_u64(s: &[u8], i: usize) -> (r: Option<(u64, usize)>)
    requires
        i <= s@.len(),
    ensures
        r matches Some((x, j)) ==> i <= j <= s@.len() && de_u64(s@.skip(i as int)) == Some(
            (x, s@.skip(j as int)),
        ),
        r is None ==> de_u64(s@.skip(i as int)) is None,
{
    if s.len() - i >= 8 {
        let sub = vstd::slice::slice_subrange(s, i, i + 8);
        let x = vstd::bytes::u64_from_le_bytes(sub);
        proof {
            assert(s@.skip(i as int).take(8) =~= s@.subrange(i as int, i as int + 8));
            assert(s@.skip(i as int).skip(8) =~= s@.skip(i as int + 8));
        }
        Some((x, i + 8))
    } else {
        None
    }
}

/// Reads a 32-bit integer at the cursor.
fn rd_u32(s: &[u8], i: usize) -> (r: Option<(u32, usize)>)
    requires
        i <= s@.len(),
    ensures
        r matches Some((x, j)) ==> i <= j <= s@.len() && de_u32(s@.skip(i as int)) == Some(
            (x, s@.skip(j as int)),
        ),
        r is None ==> de_u32(s@.skip(i as int)) is None,
{
    if s.len() - i >= 4 {
        let sub = vstd::slice::slice_subrange(s, i, i + 4);
        let x = vstd::bytes::u32_from_le_bytes(sub);
        proof {
            assert(s@.skip(i as int).take(4) =~= s@.subrange(i as int, i as int + 4));
            assert(s@.skip(i as int).skip(4) =~= s@.skip(i as int + 4));
        }
        Some((x, i + 4))
    } else {
        None
    }
}

/// Reads a 128-bit integer at the cursor.
fn rd_u128(s: &[u8], i: usize) -> (r: Option<(u128, usize)>)
    requires
        i <= s@.len(),
    ensures
        r matches Some((x, j)) ==> i <= j <= s@.len() && de_u128(s@.skip(i as int)) == Some(
            (x, s@.skip(j as int)),
        ),
        r is None ==> de_u128(s@.skip(i as int)) is None,
{
    if s.len() - i >= 16 {
        let sub = vstd::slice::slice_subrange(s, i, i + 16);
        let x = vstd::bytes::u128_from_le_bytes(sub);
        proof {
            assert(s@.skip(i as int).take(16) =~= s@.subrange(i as int, i as int + 16));
            assert(s@.skip(i as int).skip(16) =~= s@.skip(i as int + 16));
        }
        Some((x, i + 16))
    } else {
        None
    }
}

/// Reads an optional 64-bit integer at the cursor.
fn rd_opt_u64(s: &[u8], i: usize) -> (r: Option<(Option<u64>, usize)>)
    requires
        i <= s@.len(),
    ensures
        r matches Some((o, j)) ==> i <= j <= s@.len() && de_opt_u64(s@.skip(i as int)) == Some(
            (o, s@.skip(j as int)),
        ),
        r is None ==> de_opt_u64(s@.skip(i as int)) is None,
{
    match rd_u8(s, i) {
        None => None,
        Some((t, j)) => {
            if t == 0 {
                Some((None, j))
            } else if t == 1 {
                match rd_u64(s, j) {
                    None => None,
                    Some((x, k)) => Some((Some(x), k)),
                }
            } else {
                None
            }
        },
    }
}

/// Reads an optional address at the cursor.
fn rd_opt_addr(s: &[u8], i: usize) -> (r: Option<(Option<Address>, usize)>)
    requires
        i <= s@.len(),
    ensures
        r matches Some((o, j)) ==> i <= j <= s@.len() && de_opt_addr(s@.skip(i as int)) == Some(
            (o, s@.skip(j as int)),
        ),
        r is None ==> de_opt_addr(s@.skip(i as int)) is None,
{
    match rd_u8(s, i) {
        None => None,
        Some((t, j)) => {
            if t == 0 {
                Some((None, j))
            } else if t == 1 {
                match rd_u32(s, j) {
                    None => None,
                    Some((h, k)) => match rd_u128(s, k) {
                        None => None,
                        Some((tl, m)) => Some((Some(Address { head: h, tail: tl }), m)),
                    },
                }
            } else {
                None
            }
        },
    }
}

/// Reads an activation condition at the cursor.
fn rd_cond(s: &[u8], i: usize) -> (r: Option<(ForkCondition, usize)>)
    requires
        i <= s@.len(),
    ensures
        r matches Some((c, j)) ==> i <= j <= s@.len() && de_cond(s@.skip(i as int)) == Some(
            (c, s@.skip(j as int)),
        ),
        r is None ==> de_cond(s@.skip(i as int)) is None,
{
    match rd_u8(s, i) {
        None => None,
        Some((t, j)) => {
            if t == 0 {
                match rd_u64(s, j) {
                    None => None,
                    Some((n, k)) => Some((ForkCondition::Block(n), k)),
                }
            } else if t == 1 {
                match rd_u64(s, j) {
                    None => None,
                    Some((n, k)) => Some((ForkCondition::Timestamp(n), k)),
                }
            } else if t == 2 {
                match rd_opt_u64(s, j) {
                    None => None,
                    Some((fb, k)) => match rd_u64(s, k) {
                        None => None,
                        Some((ab, m)) => match rd_u128(s, m) {
                            None => None,
                            Some((td, p)) => Some(
                                (
                                    ForkCondition::Ttd {
                                        fork_block: fb,
                                        activation_block: ab,
                                        total_difficulty: td,
                                    },
                                    p,
                                ),
                            ),
                        },
                    },
                }
            } else {
                None
            }
        },
    }
}

/// Reads blob parameters at the cursor.
fn rd_blob(s: &[u8], i: usize) -> (r: Option<(BlobParams, usize)>)
    requires
        i <= s@.len(),
    ensures
        r matches Some((p, j)) ==> i <= j <= s@.len() && de_blob(s@.skip(i as int)) == Some(
            (p, s@.skip(j as int)),
        ),
        r is None ==> de_blob(s@.skip(i as int)) is None,
{
    match rd_u64(s, i) {
        None => None,
        Some((target, j)) => match rd_u64(s, j) {
            None => None,
            Some((max, k)) => match rd_u128(s, k) {
                None => None,
                Some((fraction, m)) => match rd_u128(s, m) {
                    None => None,
                    Some((fee, p)) => match rd_u64(s, p) {
                        None => None,
                        Some((per_tx, q)) => match rd_u64(s, q) {
                            None => None,
                            Some((cost, w)) => Some(
                                (
                                    BlobParams {
                                        target_blob_count: target,
                                        max_blob_count: max,
                                        update_fraction: fraction,
                                        min_blob_fee: fee,
                                        max_blobs_per_tx: per_tx,
                                        blob_base_cost: cost,
                                    },
                                    w,
                                ),
                            ),
                        },
                    },
                },
            },
        },
    }
}

/// The hardfork a rank byte denotes, as a value.
fn fork_from_tag(t: u8) -> (r: Option<EthFork>)
    ensures
        r == fork_of_tag(t),
{
    if t == 0 { Some(EthFork::Frontier) }
    else if t == 1 { Some(EthFork::Homestead) }
    else if t == 2 { Some(EthFork::Dao) }
    else if t == 3 { Some(EthFork::Tangerine) }
    else if t == 4 { Some(EthFork::SpuriousDragon) }
    else if t == 5 { Some(EthFork::Byzantium) }
    else if t == 6 { Some(EthFork::Constantinople) }
    else if t == 7 { Some(EthFork::Petersburg) }
    else if t == 8 { Some(EthFork::Istanbul) }
    else if t == 9 { Some(EthFork::MuirGlacier) }
    else if t == 10 { Some(EthFork::Berlin) }
    else if t == 11 { Some(EthFork::London) }
    else if t == 12 { Some(EthFork::ArrowGlacier) }
    else if t == 13 { Some(EthFork::GrayGlacier) }
    else if t == 14 { Some(EthFork::Paris) }
    else if t == 15 { Some(EthFork::Shanghai) }
    else if t == 16 { Some(EthFork::Cancun) }
    else if t == 17 { Some(EthFork::Prague) }
    else if t == 18 { Some(EthFork::Osaka) }
    else if t == 19 { Some(EthFork::Bpo1) }
    else if t == 20 { Some(EthFork::Bpo2) }
    else if t == 21 { Some(EthFork::Amsterdam) }
    else { None }
}

/// Reads a counted list of fork-activation entries at the cursor.
fn rd_fork_list(s: &[u8], i: usize, n: u64) -> (r: Option<(Vec<(EthFork, ForkCondition)>, usize)>)
    requires
        i <= s@.len(),
    ensures
        r matches Some((v, j)) ==> i <= j <= s@.len() && de_fork_list(s@.skip(i as int), n as nat)
            == Some((v@, s@.skip(j as int))),
        r is None ==> de_fork_list(s@.skip(i as int), n as nat) is None,
    decreases n,
{
    if n == 0 {
        let v: Vec<(EthFork, ForkCondition)> = Vec::new();
        proof {
            assert(v@ =~= Seq::<(EthFork, ForkCondition)>::empty());
        }
        Some((v, i))
    } else {
        match rd_u8(s, i) {
            None => None,
            Some((t, j)) => match fork_from_tag(t) {
                None => None,
                Some(f) => match rd_cond(s, j) {
                    None => None,
                    Some((c, k)) => match rd_fork_list(s, k, n - 1) {
                        None => None,
                        Some((mut v, m)) => {
                            v.insert(0, (f, c));
                            proof {
                                assert(v@ =~= seq![(f, c)] + v@.drop_first());
                            }
                            Some((v, m))
                        },
                    },
                },
            },
        }
    }
}

/// Reads a counted list of blob-schedule entries at the cursor.
fn rd_blob_list(s: &[u8], i: usize, n: u64) -> (r: Option<(Vec<(EthFork, BlobParams)>, usize)>)
    requires
        i <= s@.len(),
    ensures
        r matches Some((v, j)) ==> i <= j <= s@.len() && de_blob_list(s@.skip(i as int), n as nat)
            == Some((v@, s@.skip(j as int))),
        r is None ==> de_blob_list(s@.skip(i as int), n as nat) is None,
    decreases n,
{
    if n == 0 {
        let v: Vec<(EthFork, BlobParams)> = Vec::new();
        proof {
            assert(v@ =~= Seq::<(EthFork, BlobParams)>::empty());
        }
        Some((v, i))
    } else {
        match rd_u8(s, i) {
            None => None,
            Some((t, j)) => match fork_from_tag(t) {
                None => None,
                Some(f) => match rd_blob(s, j) {
                    None => None,
                    Some((p, k)) => match rd_blob_list(s, k, n - 1) {
                        None => None,
                        Some((mut v, m)) => {
                            v.insert(0, (f, p));
                            proof {
                                assert(v@ =~= seq![(f, p)] + v@.drop_first());
                            }
                            Some((v, m))
                        },
                    },
                },
            },
        }
    }
}

/// Reads the overlay section at the cursor.
fn rd_section(s: &[u8], i: usize) -> (r: Option<(EvolveSection, usize)>)
    requires
        i <= s@.len(),
    ensures
        r matches Some((e, j)) ==> i <= j <= s@.len() && de_section(s@.skip(i as int)) == Some(
            (e, s@.skip(j as int)),
        ),
        r is None ==> de_section(s@.skip(i as int)) is None,
{
    match rd_u8(s, i) {
        None => None,
        Some((t, j)) => {
            if t == 0 {
                Some((EvolveSection::Absent, j))
            } else if t == 1 {
                Some((EvolveSection::Unreadable, j))
            } else if t == 2 {
                match rd_opt_addr(s, j) {
                    None => None,
                    Some((sink, j1)) => match rd_opt_u64(s, j1) {
                        None => None,
                        Some((sink_h, j2)) => match rd_opt_addr(s, j2) {
                            None => None,
                            Some((admin, j3)) => match rd_opt_u64(s, j3) {
                                None => None,
                                Some((admin_h, j4)) => match rd_opt_u64(s, j4) {
                                    None => None,
                                    Some((limit, j5)) => match rd_opt_u64(s, j5) {
                                        None => None,
                                        Some((limit_h, j6)) => Some(
                                            (
                                                EvolveSection::Present(
                                                    EvolveConfig {
                                                        base_fee_sink: sink,
                                                        base_fee_redirect_activation_height: sink_h,
                                                        mint_admin: admin,
                                                        mint_precompile_activation_height: admin_h,
                                                        contract_size_limit: limit,
                                                        contract_size_limit_activation_height: limit_h,
                                                    },
                                                ),
                                                j6,
                                            ),
                                        ),
                                    },
                                },
                            },
                        },
                    },
                }
            } else {
                None
            }
        },
    }
}

/// Reads a configuration record at the cursor.
#[verifier::rlimit(100)]
fn rd_config(s: &[u8], i: usize) -> (r: Option<(crate::data::ChainConfig, usize)>)
    requires
        i <= s@.len(),
    ensures
        r matches Some((c, j)) ==> i <= j <= s@.len() && de_config(s@.skip(i as int)) == Some(
            (c@, s@.skip(j as int)),
        ),
        r is None ==> de_config(s@.skip(i as int)) is None,
{
    match rd_u64(s, i) {
        None => None,
        Some((cid, j)) => match rd_u64(s, j) {
            None => None,
            Some((n1, j1)) => match rd_fork_list(s, j1, n1) {
                None => None,
                Some((forks, j2)) => match rd_u64(s, j2) {
                    None => None,
                    Some((n2, j3)) => match rd_blob_list(s, j3, n2) {
                        None => None,
                        Some((blobs, j4)) => match rd_section(s, j4) {
                            None => None,
                            Some((sec, j5)) => Some(
                                (
                                    crate::data::ChainConfig {
                                        chain_id: cid,
                                        forks,
                                        blob_schedule: blobs,
                                        evolve: sec,
                                    },
                                    j5,
                                ),
                            ),
                        },
                    },
                },
            },
        },
    }
}

impl Genesis {
    /// Deserializes a canonical serialized form back into a chain identity:
    /// the inverse of `encode` on every well-formed identity, and `None` on
    /// every byte string that is not a whole canonical encoding.
    pub fn decode(bytes: &[u8]) -> (r: Option<Genesis>)
        ensures
            r matches Some(g) ==> spec_decode(bytes@) == Some(g@),
            r is None ==> spec_decode(bytes@) is None,
    {
        proof {
            assert(bytes@.skip(0) =~= bytes@);
        }
        let parsed: Option<(Genesis, usize)> = match rd_u8(bytes, 0) {
            None => None,
            Some((t, j)) => {
                if t == 0 {
                    Some((Genesis::Mainnet, j))
                } else if t == 1 {
                    Some((Genesis::OpMainnet, j))
                } else if t == 2 {
                    Some((Genesis::Sepolia, j))
                } else if t == 3 {
                    Some((Genesis::Holesky, j))
                } else if t == 4 {
                    Some((Genesis::Linea, j))
                } else if t == 5 {
                    match rd_config(bytes, j) {
                        None => None,
                        Some((c, k)) => Some((Genesis::Custom(c), k)),
                    }
                } else {
                    None
                }
            },
        };
        match parsed {
            None => None,
            Some((g, j)) => {
                if j == bytes.len() {
                    proof {
                        assert(bytes@.skip(j as int).len() == 0);
                    }
                    Some(g)
                } else {
                    proof {
                        assert(bytes@.skip(j as int).len() != 0);
                    }
                    None
                }
            },
        }
    }
}

} // verus!

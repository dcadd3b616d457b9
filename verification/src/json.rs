use vstd::prelude::*;
use crate::data::{
    Address, BlobParams, ChainConfig, ChainConfigV, EthFork, EvolveConfig, EvolveSection,
    ForkCondition, fork_rank, wf_config,
};
use crate::error::ChainSpecError;
use crate::genesis::{Genesis, GenesisV, wf_genesis};

verus! {

#[verifier::external_type_specification]
#[verifier::external_body]
pub struct ExValue(serde_json::Value);

/// The mathematical content of a parsed JSON document. A number token is
/// `Nat` when it is a plain unsigned decimal integer, with its value;
/// any other number token (negative, fractional, exponent form) is
/// `NumOther`. Object contents are read as a map from key to content.
pub enum JsonV {
    Null,
    Bool(bool),
    Nat(nat),
    NumOther,
    Str(Seq<char>),
    Arr(Seq<JsonV>),
    Obj(Map<Seq<char>, JsonV>),
}

/// The content of a parsed document value: a deterministic function of the
/// value, which the accessor wrappers below are specified against.
pub uninterp spec fn json_model(v: serde_json::Value) -> JsonV;

/// What a text parses to as a JSON document, if anything: a deterministic
/// function of the text alone.
pub uninterp spec fn doc_of(s: Seq<char>) -> Option<JsonV>;

/// What a 20-byte-address text (0x-prefixed hexadecimal) denotes, if
/// anything: a deterministic function of the text alone.
pub uninterp spec fn address_of(s: Seq<char>) -> Option<Address>;

/// Relies on serde_json::from_str::<Value>: returns the parsed document
/// exactly when the text is well-formed JSON, and the document's content is
/// a function of the text alone.
#[verifier::external_body]
fn parse_json(s: &str) -> (r: Option<serde_json::Value>)
    ensures
        r matches Some(v) ==> doc_of(s@) == Some(json_model(v)),
        r is Some <==> doc_of(s@) is Some,
{
    serde_json::from_str::<serde_json::Value>(s).ok()
}

/// Relies on serde_json::Value::get with a string index: on an object,
/// exactly the value under the key; `None` on anything else.
#[verifier::external_body]
fn json_get<'a>(v: &'a serde_json::Value, key: &str) -> (r: Option<&'a serde_json::Value>)
    ensures
        match json_model(*v) {
            JsonV::Obj(m) => {
                &&& (r is Some) == m.contains_key(key@)
                &&& (r matches Some(w) ==> json_model(*w) == m[key@])
            },
            _ => r is None,
        },
{
    v.get(key)
}

/// The 64-bit reading of a content value: its value when it is an unsigned
/// integer token in range, nothing otherwise.
pub open spec fn model_as_u64(j: JsonV) -> Option<u64> {
    match j {
        JsonV::Nat(k) => if k <= u64::MAX {
            Some(k as u64)
        } else {
            None
        },
        _ => None,
    }
}

/// The 128-bit reading of a content value.
pub open spec fn model_as_u128(j: JsonV) -> Option<u128> {
    match j {
        JsonV::Nat(k) => if k <= u128::MAX {
            Some(k as u128)
        } else {
            None
        },
        _ => None,
    }
}

/// Relies on serde_json::Value::as_u64 (a parse of the number token under
/// this build's number representation): the token's value exactly when it is
/// an unsigned integer in 64-bit range.
#[verifier::external_body]
fn json_as_u64(v: &serde_json::Value) -> (r: Option<u64>)
    ensures
        r == model_as_u64(json_model(*v)),
{
    v.as_u64()
}

/// Relies on serde_json::Value::as_number and serde_json::Number::as_u128:
/// the token's value exactly when it is an unsigned integer in 128-bit range.
#[verifier::external_body]
fn json_as_u128(v: &serde_json::Value) -> (r: Option<u128>)
    ensures
        r == model_as_u128(json_model(*v)),
{
    v.as_number().and_then(|n| n.as_u128())
}

/// Relies on serde_json::Value::as_str: the text held by the value, exactly
/// when it is a string.
#[verifier::external_body]
fn json_as_string(v: &serde_json::Value) -> (r: Option<String>)
    ensures
        match json_model(*v) {
            JsonV::Str(t) => r matches Some(x) && x@ == t,
            _ => r is None,
        },
{
    v.as_str().map(|s| s.to_string())
}

/// Relies on serde_json::Value::is_object.
#[verifier::external_body]
fn json_is_object(v: &serde_json::Value) -> (r: bool)
    ensures
        r == (json_model(*v) is Obj),
{
    v.is_object()
}

/// Relies on alloy_primitives::Address::from_str (hexadecimal decoding):
/// returns the denoted address, split into its first four and last sixteen
/// bytes, both big-endian.
#[verifier::external_body]
fn parse_address(s: &str) -> (r: Option<Address>)
    ensures
        r == address_of(s@),
{
    s.parse::<alloy_primitives::Address>().ok().map(|a| {
        let b: [u8; 20] = a.0.0;
        Address {
            head: u32::from_be_bytes([b[0], b[1], b[2], b[3]]),
            tail: u128::from_be_bytes([
                b[4], b[5], b[6], b[7], b[8], b[9], b[10], b[11], b[12], b[13], b[14], b[15],
                b[16], b[17], b[18], b[19],
            ]),
        }
    })
}

/// The outcome of reading one field of an object: the key was absent, held a
/// usable value, or held a value of the wrong shape.
pub enum FieldRead<T> {
    Absent,
    Value(T),
    Mismatch,
}

/// Whether a field read did not contradict the expected shape.
pub open spec fn field_ok<T>(f: FieldRead<T>) -> bool {
    !(f is Mismatch)
}

/// The optional value a field read yields.
pub open spec fn field_opt<T>(f: FieldRead<T>) -> Option<T> {
    match f {
        FieldRead::Value(t) => Some(t),
        _ => None,
    }
}

/// The value under a key of an object content; nothing on a missing key or
/// on content that is not an object.
pub open spec fn field_of(j: JsonV, key: Seq<char>) -> Option<JsonV> {
    match j {
        JsonV::Obj(m) => if m.contains_key(key) {
            Some(m[key])
        } else {
            None
        },
        _ => None,
    }
}

/// What reading an unsigned 64-bit field of a document yields.
pub open spec fn spec_read_u64(j: JsonV, key: Seq<char>) -> FieldRead<u64> {
    match field_of(j, key) {
        None => FieldRead::Absent,
        Some(x) => match model_as_u64(x) {
            Some(n) => FieldRead::Value(n),
            None => FieldRead::Mismatch,
        },
    }
}

/// What reading an unsigned 128-bit field of a document yields.
pub open spec fn spec_read_u128(j: JsonV, key: Seq<char>) -> FieldRead<u128> {
    match field_of(j, key) {
        None => FieldRead::Absent,
        Some(x) => match model_as_u128(x) {
            Some(n) => FieldRead::Value(n),
            None => FieldRead::Mismatch,
        },
    }
}

/// What reading an address field (a hexadecimal string) of a document yields.
pub open spec fn spec_read_address(j: JsonV, key: Seq<char>) -> FieldRead<Address> {
    match field_of(j, key) {
        None => FieldRead::Absent,
        Some(x) => match x {
            JsonV::Str(t) => match address_of(t) {
                Some(a) => FieldRead::Value(a),
                None => FieldRead::Mismatch,
            },
            _ => FieldRead::Mismatch,
        },
    }
}

/// Reads an unsigned 64-bit field of an object.
fn read_u64(v: &serde_json::Value, key: &str) -> (r: FieldRead<u64>)
    ensures
        r == spec_read_u64(json_model(*v), key@),
{
    match json_get(v, key) {
        None => FieldRead::Absent,
        Some(x) => match json_as_u64(x) {
            Some(n) => FieldRead::Value(n),
            None => FieldRead::Mismatch,
        },
    }
}

/// Reads an unsigned 128-bit field of an object.
fn read_u128(v: &serde_json::Value, key: &str) -> (r: FieldRead<u128>)
    ensures
        r == spec_read_u128(json_model(*v), key@),
{
    match json_get(v, key) {
        None => FieldRead::Absent,
        Some(x) => match json_as_u128(x) {
            Some(n) => FieldRead::Value(n),
            None => FieldRead::Mismatch,
        },
    }
}

/// Reads an address field of an object.
fn read_address(v: &serde_json::Value, key: &str) -> (r: FieldRead<Address>)
    ensures
        r == spec_read_address(json_model(*v), key@),
{
    match json_get(v, key) {
        None => FieldRead::Absent,
        Some(x) => match json_as_string(x) {
            None => FieldRead::Mismatch,
            Some(s) => match parse_address(s.as_str()) {
                Some(a) => FieldRead::Value(a),
                None => FieldRead::Mismatch,
            },
        },
    }
}

/// What the overlay section of a configuration document is: absent without
/// the `evolve` key; unreadable when the key holds anything but an object or
/// a recognized field has the wrong shape; otherwise the six optional fields.
pub open spec fn spec_overlay_of(j: JsonV) -> EvolveSection {
    match field_of(j, "evolve"@) {
        None => EvolveSection::Absent,
        Some(sec) => if !(sec is Obj) {
            EvolveSection::Unreadable
        } else {
            spec_section_of(sec)
        },
    }
}

/// The overlay read out of a present section object.
pub open spec fn spec_section_of(sec: JsonV) -> EvolveSection {
    let sink = spec_read_address(sec, "baseFeeSink"@);
    let sink_height = spec_read_u64(sec, "baseFeeRedirectActivationHeight"@);
    let admin = spec_read_address(sec, "mintAdmin"@);
    let admin_height = spec_read_u64(sec, "mintPrecompileActivationHeight"@);
    let limit = spec_read_u64(sec, "contractSizeLimit"@);
    let limit_height = spec_read_u64(sec, "contractSizeLimitActivationHeight"@);
    if field_ok(sink) && field_ok(sink_height) && field_ok(admin) && field_ok(admin_height)
        && field_ok(limit) && field_ok(limit_height) {
        EvolveSection::Present(
            EvolveConfig {
                base_fee_sink: field_opt(sink),
                base_fee_redirect_activation_height: field_opt(sink_height),
                mint_admin: field_opt(admin),
                mint_precompile_activation_height: field_opt(admin_height),
                contract_size_limit: field_opt(limit),
                contract_size_limit_activation_height: field_opt(limit_height),
            },
        )
    } else {
        EvolveSection::Unreadable
    }
}

/// Builds the overlay section from the six field reads: the section is
/// well-formed exactly when no recognized field contradicted its shape, and
/// then holds each field's optional value.
pub fn build_section(
    sink: FieldRead<Address>,
    sink_height: FieldRead<u64>,
    admin: FieldRead<Address>,
    admin_height: FieldRead<u64>,
    limit: FieldRead<u64>,
    limit_height: FieldRead<u64>,
) -> (r: EvolveSection)
    ensures
        (field_ok(sink) && field_ok(sink_height) && field_ok(admin) && field_ok(admin_height)
            && field_ok(limit) && field_ok(limit_height)) <==> !(r is Unreadable),
        r is Unreadable || r == EvolveSection::Present(
            EvolveConfig {
                base_fee_sink: field_opt(sink),
                base_fee_redirect_activation_height: field_opt(sink_height),
                mint_admin: field_opt(admin),
                mint_precompile_activation_height: field_opt(admin_height),
                contract_size_limit: field_opt(limit),
                contract_size_limit_activation_height: field_opt(limit_height),
            },
        ),
{
    let ok = !matches!(sink, FieldRead::Mismatch) && !matches!(sink_height, FieldRead::Mismatch)
        && !matches!(admin, FieldRead::Mismatch) && !matches!(admin_height, FieldRead::Mismatch)
        && !matches!(limit, FieldRead::Mismatch) && !matches!(limit_height, FieldRead::Mismatch);
    if !ok {
        EvolveSection::Unreadable
    } else {
        EvolveSection::Present(
            EvolveConfig {
                base_fee_sink: to_option(sink),
                base_fee_redirect_activation_height: to_option(sink_height),
                mint_admin: to_option(admin),
                mint_precompile_activation_height: to_option(admin_height),
                contract_size_limit: to_option(limit),
                contract_size_limit_activation_height: to_option(limit_height),
            },
        )
    }
}

/// The optional value of a field read, as an executable conversion.
fn to_option<T>(f: FieldRead<T>) -> (r: Option<T>)
    ensures
        r == field_opt(f),
{
    match f {
        FieldRead::Value(t) => Some(t),
        _ => None,
    }
}

/// Reads the `evolve` section out of a configuration object.
fn read_overlay(v: &serde_json::Value) -> (r: EvolveSection)
    ensures
        r == spec_overlay_of(json_model(*v)),
{
    match json_get(v, "evolve") {
        None => EvolveSection::Absent,
        Some(sec) => {
            if !json_is_object(sec) {
                EvolveSection::Unreadable
            } else {
                build_section(
                    read_address(sec, "baseFeeSink"),
                    read_u64(sec, "baseFeeRedirectActivationHeight"),
                    read_address(sec, "mintAdmin"),
                    read_u64(sec, "mintPrecompileActivationHeight"),
                    read_u64(sec, "contractSizeLimit"),
                    read_u64(sec, "contractSizeLimitActivationHeight"),
                )
            }
        },
    }
}

/// Every fork already listed ranks strictly below the given bound.
pub open spec fn forks_below<V>(s: Seq<(EthFork, V)>, bound: nat) -> bool {
    forall|i: int| 0 <= i < s.len() ==> fork_rank(#[trigger] s[i].0) < bound
}

/// The fork-list contribution of a block-activated fork read: one entry when
/// the key held a height, none otherwise.
pub open spec fn block_entry(fork: EthFork, f: FieldRead<u64>) -> Seq<(EthFork, ForkCondition)> {
    match field_opt(f) {
        Some(n) => seq![(fork, ForkCondition::Block(n))],
        None => Seq::empty(),
    }
}

/// The fork-list contribution of a timestamp-activated fork read.
pub open spec fn time_entry(fork: EthFork, f: FieldRead<u64>) -> Seq<(EthFork, ForkCondition)> {
    match field_opt(f) {
        Some(n) => seq![(fork, ForkCondition::Timestamp(n))],
        None => Seq::empty(),
    }
}

/// The fork-list contribution of the merge rules: one entry when a terminal
/// total difficulty is given, carrying the network-split block where given.
pub open spec fn paris_entry(ttd: FieldRead<u128>, net: FieldRead<u64>) -> Seq<(
    EthFork,
    ForkCondition,
)> {
    match field_opt(ttd) {
        Some(d) => seq![
            (
                EthFork::Paris,
                ForkCondition::Ttd {
                    fork_block: field_opt(net),
                    activation_block: 0,
                    total_difficulty: d,
                },
            ),
        ],
        None => Seq::empty(),
    }
}

/// The blob-schedule contribution of one per-hardfork read.
pub open spec fn blob_entry_of(fork: EthFork, f: FieldRead<BlobParams>) -> Seq<(
    EthFork,
    BlobParams,
)> {
    match field_opt(f) {
        Some(p) => seq![(fork, p)],
        None => Seq::empty(),
    }
}

/// Appends a block-activated fork when its key is present.
fn push_block_fork(
    forks: &mut Vec<(EthFork, ForkCondition)>,
    fork: EthFork,
    read: FieldRead<u64>,
) -> (ok: bool)
    requires
        forks_below(old(forks)@, fork_rank(fork)),
        crate::data::assoc_sorted(old(forks)@),
    ensures
        crate::data::assoc_sorted(final(forks)@),
        forks_below(final(forks)@, fork_rank(fork) + 1),
        final(forks)@ == old(forks)@ + block_entry(fork, read),
        ok == field_ok(read),
{
    match read {
        FieldRead::Absent => {
            assert(final(forks)@ =~= old(forks)@ + block_entry(fork, FieldRead::Absent));
            true
        },
        FieldRead::Mismatch => {
            assert(final(forks)@ =~= old(forks)@ + block_entry(fork, FieldRead::Mismatch));
            false
        },
        FieldRead::Value(n) => {
            forks.push((fork, ForkCondition::Block(n)));
            assert(final(forks)@ =~= old(forks)@ + block_entry(fork, FieldRead::Value(n)));
            true
        },
    }
}

/// As `push_block_fork`, for a timestamp-activated fork.
fn push_time_fork(
    forks: &mut Vec<(EthFork, ForkCondition)>,
    fork: EthFork,
    read: FieldRead<u64>,
) -> (ok: bool)
    requires
        forks_below(old(forks)@, fork_rank(fork)),
        crate::data::assoc_sorted(old(forks)@),
    ensures
        crate::data::assoc_sorted(final(forks)@),
        forks_below(final(forks)@, fork_rank(fork) + 1),
        final(forks)@ == old(forks)@ + time_entry(fork, read),
        ok == field_ok(read),
{
    match read {
        FieldRead::Absent => {
            assert(final(forks)@ =~= old(forks)@ + time_entry(fork, FieldRead::Absent));
            true
        },
        FieldRead::Mismatch => {
            assert(final(forks)@ =~= old(forks)@ + time_entry(fork, FieldRead::Mismatch));
            false
        },
        FieldRead::Value(n) => {
            forks.push((fork, ForkCondition::Timestamp(n)));
            assert(final(forks)@ =~= old(forks)@ + time_entry(fork, FieldRead::Value(n)));
            true
        },
    }
}

/// Appends the merge rules when a terminal total difficulty is given.
fn push_paris(
    forks: &mut Vec<(EthFork, ForkCondition)>,
    ttd: FieldRead<u128>,
    net: FieldRead<u64>,
) -> (ok: bool)
    requires
        forks_below(old(forks)@, fork_rank(EthFork::Paris)),
        crate::data::assoc_sorted(old(forks)@),
    ensures
        crate::data::assoc_sorted(final(forks)@),
        forks_below(final(forks)@, fork_rank(EthFork::Paris) + 1),
        final(forks)@ == old(forks)@ + paris_entry(ttd, net),
        ok == (field_ok(ttd) && field_ok(net)),
{
    let ok = !matches!(ttd, FieldRead::Mismatch) && !matches!(net, FieldRead::Mismatch);
    match ttd {
        FieldRead::Value(d) => {
            forks.push(
                (
                    EthFork::Paris,
                    ForkCondition::Ttd {
                        fork_block: to_option(net),
                        activation_block: 0,
                        total_difficulty: d,
                    },
                ),
            );
            assert(final(forks)@ =~= old(forks)@ + paris_entry(FieldRead::Value(d), net));
        },
        _ => {
            assert(final(forks)@ =~= old(forks)@ + paris_entry(ttd, net));
        },
    }
    ok
}

/// Reads the per-hardfork blob parameters under one key of the blob-schedule
/// object, with the defaults the wire format leaves implicit: a minimum blob
/// fee of one, per-transaction maximum equal to the block maximum, and no
/// base cost.
pub open spec fn spec_read_blob(bs: JsonV, key: Seq<char>) -> FieldRead<BlobParams> {
    match field_of(bs, key) {
        None => FieldRead::Absent,
        Some(e) => {
            let target = spec_read_u64(e, "target"@);
            let max = spec_read_u64(e, "max"@);
            let fraction = spec_read_u128(e, "baseFeeUpdateFraction"@);
            match (target, max, fraction) {
                (FieldRead::Value(t), FieldRead::Value(m), FieldRead::Value(f)) => FieldRead::Value(
                    BlobParams {
                        target_blob_count: t,
                        max_blob_count: m,
                        update_fraction: f,
                        min_blob_fee: 1,
                        max_blobs_per_tx: m,
                        blob_base_cost: 0,
                    },
                ),
                _ => FieldRead::Mismatch,
            }
        },
    }
}

/// Reads one per-hardfork entry of the blob-schedule object.
fn read_blob_entry(bs: &serde_json::Value, key: &str) -> (r: FieldRead<BlobParams>)
    ensures
        r == spec_read_blob(json_model(*bs), key@),
{
    match json_get(bs, key) {
        None => FieldRead::Absent,
        Some(e) => {
            let target = read_u64(e, "target");
            let max = read_u64(e, "max");
            let fraction = read_u128(e, "baseFeeUpdateFraction");
            match (target, max, fraction) {
                (FieldRead::Value(t), FieldRead::Value(m), FieldRead::Value(f)) => {
                    FieldRead::Value(
                        BlobParams {
                            target_blob_count: t,
                            max_blob_count: m,
                            update_fraction: f,
                            min_blob_fee: 1,
                            max_blobs_per_tx: m,
                            blob_base_cost: 0,
                        },
                    )
                },
                _ => FieldRead::Mismatch,
            }
        },
    }
}

/// Appends one blob-schedule entry when its key is present.
fn push_blob_entry(
    schedule: &mut Vec<(EthFork, BlobParams)>,
    fork: EthFork,
    read: FieldRead<BlobParams>,
) -> (ok: bool)
    requires
        forks_below(old(schedule)@, fork_rank(fork)),
        crate::data::assoc_sorted(old(schedule)@),
    ensures
        crate::data::assoc_sorted(final(schedule)@),
        forks_below(final(schedule)@, fork_rank(fork) + 1),
        final(schedule)@ == old(schedule)@ + blob_entry_of(fork, read),
        ok == field_ok(read),
{
    match read {
        FieldRead::Absent => {
            assert(final(schedule)@ =~= old(schedule)@ + blob_entry_of(
                fork,
                FieldRead::Absent,
            ));
            true
        },
        FieldRead::Mismatch => {
            assert(final(schedule)@ =~= old(schedule)@ + blob_entry_of(
                fork,
                FieldRead::Mismatch,
            ));
            false
        },
        FieldRead::Value(p) => {
            schedule.push((fork, p));
            assert(final(schedule)@ =~= old(schedule)@ + blob_entry_of(
                fork,
                FieldRead::Value(p),
            ));
            true
        },
    }
}

/// Whether every recognized key of the blob-schedule section, if the section
/// is there at all, holds a usable value.
pub open spec fn spec_blob_ok(j: JsonV) -> bool {
    match field_of(j, "blobSchedule"@) {
        None => true,
        Some(bs) => bs is Obj && field_ok(spec_read_blob(bs, "cancun"@)) && field_ok(
            spec_read_blob(bs, "prague"@),
        ) && field_ok(spec_read_blob(bs, "osaka"@)) && field_ok(spec_read_blob(bs, "bpo1"@))
            && field_ok(spec_read_blob(bs, "bpo2"@)),
    }
}

/// The blob schedule a configuration document carries, in canonical order.
pub open spec fn spec_blobs_of(j: JsonV) -> Seq<(EthFork, BlobParams)> {
    match field_of(j, "blobSchedule"@) {
        None => Seq::empty(),
        Some(bs) => blob_entry_of(EthFork::Cancun, spec_read_blob(bs, "cancun"@)) + blob_entry_of(
            EthFork::Prague,
            spec_read_blob(bs, "prague"@),
        ) + blob_entry_of(EthFork::Osaka, spec_read_blob(bs, "osaka"@)) + blob_entry_of(
            EthFork::Bpo1,
            spec_read_blob(bs, "bpo1"@),
        ) + blob_entry_of(EthFork::Bpo2, spec_read_blob(bs, "bpo2"@)),
    }
}

/// Reads the blob-schedule section: whether every recognized key was usable,
/// and the entries in canonical order.
#[verifier::rlimit(100)]
fn read_blob_schedule(v: &serde_json::Value) -> (r: (bool, Vec<(EthFork, BlobParams)>))
    ensures
        r.0 == spec_blob_ok(json_model(*v)),
        r.0 ==> r.1@ == spec_blobs_of(json_model(*v)),
        crate::data::assoc_sorted(r.1@),
{
    let mut schedule: Vec<(EthFork, BlobParams)> = Vec::new();
    match json_get(v, "blobSchedule") {
        None => (true, schedule),
        Some(bs) => {
            if !json_is_object(bs) {
                (false, schedule)
            } else {
                let mut ok: bool = true;
                ok = push_blob_entry(&mut schedule, EthFork::Cancun, read_blob_entry(bs, "cancun"))
                    && ok;
                ok = push_blob_entry(&mut schedule, EthFork::Prague, read_blob_entry(bs, "prague"))
                    && ok;
                ok = push_blob_entry(&mut schedule, EthFork::Osaka, read_blob_entry(bs, "osaka"))
                    && ok;
                ok = push_blob_entry(&mut schedule, EthFork::Bpo1, read_blob_entry(bs, "bpo1"))
                    && ok;
                ok = push_blob_entry(&mut schedule, EthFork::Bpo2, read_blob_entry(bs, "bpo2"))
                    && ok;
                (ok, schedule)
            }
        },
    }
}

/// Whether every recognized key of a configuration document holds a usable
/// value, so that the document deserializes.
pub open spec fn spec_reads_ok(j: JsonV) -> bool {
    field_ok(spec_read_u64(j, "homesteadBlock"@)) && field_ok(spec_read_u64(j, "daoForkBlock"@))
        && field_ok(spec_read_u64(j, "eip150Block"@)) && field_ok(spec_read_u64(j, "eip155Block"@))
        && field_ok(spec_read_u64(j, "byzantiumBlock"@)) && field_ok(
        spec_read_u64(j, "constantinopleBlock"@),
    ) && field_ok(spec_read_u64(j, "petersburgBlock"@)) && field_ok(
        spec_read_u64(j, "istanbulBlock"@),
    ) && field_ok(spec_read_u64(j, "muirGlacierBlock"@)) && field_ok(
        spec_read_u64(j, "berlinBlock"@),
    ) && field_ok(spec_read_u64(j, "londonBlock"@)) && field_ok(
        spec_read_u64(j, "arrowGlacierBlock"@),
    ) && field_ok(spec_read_u64(j, "grayGlacierBlock"@)) && field_ok(
        spec_read_u128(j, "terminalTotalDifficulty"@),
    ) && field_ok(spec_read_u64(j, "mergeNetsplitBlock"@)) && field_ok(
        spec_read_u64(j, "shanghaiTime"@),
    ) && field_ok(spec_read_u64(j, "cancunTime"@)) && field_ok(spec_read_u64(j, "pragueTime"@))
        && field_ok(spec_read_u64(j, "osakaTime"@)) && field_ok(spec_read_u64(j, "bpo1Time"@))
        && field_ok(spec_read_u64(j, "bpo2Time"@)) && field_ok(spec_read_u64(j, "amsterdamTime"@))
        && spec_blob_ok(j)
}

/// The fork-activation list a configuration document carries, in canonical
/// order.
pub open spec fn spec_forks_of(j: JsonV) -> Seq<(EthFork, ForkCondition)> {
    seq![(EthFork::Frontier, ForkCondition::Block(0))] + block_entry(
        EthFork::Homestead,
        spec_read_u64(j, "homesteadBlock"@),
    ) + block_entry(EthFork::Dao, spec_read_u64(j, "daoForkBlock"@)) + block_entry(
        EthFork::Tangerine,
        spec_read_u64(j, "eip150Block"@),
    ) + block_entry(EthFork::SpuriousDragon, spec_read_u64(j, "eip155Block"@)) + block_entry(
        EthFork::Byzantium,
        spec_read_u64(j, "byzantiumBlock"@),
    ) + block_entry(EthFork::Constantinople, spec_read_u64(j, "constantinopleBlock"@))
        + block_entry(EthFork::Petersburg, spec_read_u64(j, "petersburgBlock"@)) + block_entry(
        EthFork::Istanbul,
        spec_read_u64(j, "istanbulBlock"@),
    ) + block_entry(EthFork::MuirGlacier, spec_read_u64(j, "muirGlacierBlock"@)) + block_entry(
        EthFork::Berlin,
        spec_read_u64(j, "berlinBlock"@),
    ) + block_entry(EthFork::London, spec_read_u64(j, "londonBlock"@)) + block_entry(
        EthFork::ArrowGlacier,
        spec_read_u64(j, "arrowGlacierBlock"@),
    ) + block_entry(EthFork::GrayGlacier, spec_read_u64(j, "grayGlacierBlock"@)) + paris_entry(
        spec_read_u128(j, "terminalTotalDifficulty"@),
        spec_read_u64(j, "mergeNetsplitBlock"@),
    ) + time_entry(EthFork::Shanghai, spec_read_u64(j, "shanghaiTime"@)) + time_entry(
        EthFork::Cancun,
        spec_read_u64(j, "cancunTime"@),
    ) + time_entry(EthFork::Prague, spec_read_u64(j, "pragueTime"@)) + time_entry(
        EthFork::Osaka,
        spec_read_u64(j, "osakaTime"@),
    ) + time_entry(EthFork::Bpo1, spec_read_u64(j, "bpo1Time"@)) + time_entry(
        EthFork::Bpo2,
        spec_read_u64(j, "bpo2Time"@),
    ) + time_entry(EthFork::Amsterdam, spec_read_u64(j, "amsterdamTime"@))
}

/// What a configuration document deserializes to: the canonical record with
/// exactly the document's chain id, fork rules, blob schedule and overlay
/// section, or `MalformedPayload` when the chain id is missing or malformed
/// or any recognized key holds a value of the wrong shape. Never a partial
/// or default record.
pub open spec fn spec_config_of(j: JsonV) -> Result<ChainConfigV, ChainSpecError> {
    if !(spec_read_u64(j, "chainId"@) matches FieldRead::Value(_)) {
        Err(ChainSpecError::MalformedPayload)
    } else if !spec_reads_ok(j) {
        Err(ChainSpecError::MalformedPayload)
    } else {
        Ok(
            ChainConfigV {
                chain_id: spec_read_u64(j, "chainId"@)->Value_0,
                forks: spec_forks_of(j),
                blob_schedule: spec_blobs_of(j),
                evolve: spec_overlay_of(j),
            },
        )
    }
}

/// Builds a canonical configuration record from a parsed configuration
/// object: exactly `spec_config_of` the document's content.
#[verifier::rlimit(100)]
fn config_from_value(v: &serde_json::Value) -> (r: Result<ChainConfig, ChainSpecError>)
    ensures
        spec_config_of(json_model(*v)) matches Ok(cv) ==> (r matches Ok(c) && c@ == cv),
        spec_config_of(json_model(*v)) matches Err(e) ==> r == Err::<ChainConfig, ChainSpecError>(
            e,
        ),
        r matches Ok(c) ==> wf_config(c@),
{
    let ghost j = json_model(*v);

    let chain_id = match read_u64(v, "chainId") {
        FieldRead::Value(n) => n,
        _ => {
            return Err(ChainSpecError::MalformedPayload);
        },
    };

    let r_home = read_u64(v, "homesteadBlock");
    let r_dao = read_u64(v, "daoForkBlock");
    let r_tang = read_u64(v, "eip150Block");
    let r_spur = read_u64(v, "eip155Block");
    let r_byz = read_u64(v, "byzantiumBlock");
    let r_cons = read_u64(v, "constantinopleBlock");
    let r_pete = read_u64(v, "petersburgBlock");
    let r_ist = read_u64(v, "istanbulBlock");
    let r_muir = read_u64(v, "muirGlacierBlock");
    let r_berl = read_u64(v, "berlinBlock");
    let r_lond = read_u64(v, "londonBlock");
    let r_arrow = read_u64(v, "arrowGlacierBlock");
    let r_gray = read_u64(v, "grayGlacierBlock");
    let r_ttd = read_u128(v, "terminalTotalDifficulty");
    let r_net = read_u64(v, "mergeNetsplitBlock");
    let r_shan = read_u64(v, "shanghaiTime");
    let r_canc = read_u64(v, "cancunTime");
    let r_prag = read_u64(v, "pragueTime");
    let r_osak = read_u64(v, "osakaTime");
    let r_bpo1 = read_u64(v, "bpo1Time");
    let r_bpo2 = read_u64(v, "bpo2Time");
    let r_amst = read_u64(v, "amsterdamTime");
    let (blob_ok, schedule) = read_blob_schedule(v);

    let ok = !matches!(r_home, FieldRead::Mismatch) && !matches!(r_dao, FieldRead::Mismatch)
        && !matches!(r_tang, FieldRead::Mismatch) && !matches!(r_spur, FieldRead::Mismatch)
        && !matches!(r_byz, FieldRead::Mismatch) && !matches!(r_cons, FieldRead::Mismatch)
        && !matches!(r_pete, FieldRead::Mismatch) && !matches!(r_ist, FieldRead::Mismatch)
        && !matches!(r_muir, FieldRead::Mismatch) && !matches!(r_berl, FieldRead::Mismatch)
        && !matches!(r_lond, FieldRead::Mismatch) && !matches!(r_arrow, FieldRead::Mismatch)
        && !matches!(r_gray, FieldRead::Mismatch) && !matches!(r_ttd, FieldRead::Mismatch)
        && !matches!(r_net, FieldRead::Mismatch) && !matches!(r_shan, FieldRead::Mismatch)
        && !matches!(r_canc, FieldRead::Mismatch) && !matches!(r_prag, FieldRead::Mismatch)
        && !matches!(r_osak, FieldRead::Mismatch) && !matches!(r_bpo1, FieldRead::Mismatch)
        && !matches!(r_bpo2, FieldRead::Mismatch) && !matches!(r_amst, FieldRead::Mismatch)
        && blob_ok;
    assert(ok == spec_reads_ok(j));
    if !ok {
        return Err(ChainSpecError::MalformedPayload);
    }

    let mut forks: Vec<(EthFork, ForkCondition)> = Vec::new();
    forks.push((EthFork::Frontier, ForkCondition::Block(0)));
    assert(forks@ =~= seq![(EthFork::Frontier, ForkCondition::Block(0))]);
    let _ = push_block_fork(&mut forks, EthFork::Homestead, r_home);
    let _ = push_block_fork(&mut forks, EthFork::Dao, r_dao);
    let _ = push_block_fork(&mut forks, EthFork::Tangerine, r_tang);
    let _ = push_block_fork(&mut forks, EthFork::SpuriousDragon, r_spur);
    let _ = push_block_fork(&mut forks, EthFork::Byzantium, r_byz);
    let _ = push_block_fork(&mut forks, EthFork::Constantinople, r_cons);
    let _ = push_block_fork(&mut forks, EthFork::Petersburg, r_pete);
    let _ = push_block_fork(&mut forks, EthFork::Istanbul, r_ist);
    let _ = push_block_fork(&mut forks, EthFork::MuirGlacier, r_muir);
    let _ = push_block_fork(&mut forks, EthFork::Berlin, r_berl);
    let _ = push_block_fork(&mut forks, EthFork::London, r_lond);
    let _ = push_block_fork(&mut forks, EthFork::ArrowGlacier, r_arrow);
    let _ = push_block_fork(&mut forks, EthFork::GrayGlacier, r_gray);
    let _ = push_paris(&mut forks, r_ttd, r_net);
    let _ = push_time_fork(&mut forks, EthFork::Shanghai, r_shan);
    let _ = push_time_fork(&mut forks, EthFork::Cancun, r_canc);
    let _ = push_time_fork(&mut forks, EthFork::Prague, r_prag);
    let _ = push_time_fork(&mut forks, EthFork::Osaka, r_osak);
    let _ = push_time_fork(&mut forks, EthFork::Bpo1, r_bpo1);
    let _ = push_time_fork(&mut forks, EthFork::Bpo2, r_bpo2);
    let _ = push_time_fork(&mut forks, EthFork::Amsterdam, r_amst);
    assert(forks@ == spec_forks_of(j));

    let evolve = read_overlay(v);
    let r = ChainConfig { chain_id, forks, blob_schedule: schedule, evolve };
    assert(r@ == spec_config_of(j)->Ok_0);
    Ok(r)
}

impl Genesis {
    /// Parses a serialized configuration payload into a custom identity
    /// carrying exactly the payload's rules. Text that is no JSON document,
    /// or whose recognized keys hold values of the wrong shape, fails with
    /// `MalformedPayload`; a custom identity is never built from a partial
    /// or default record.
    pub fn from_json_str(s: &str) -> (r: Result<Genesis, ChainSpecError>)
        ensures
            doc_of(s@) is None ==> r == Err::<Genesis, ChainSpecError>(
                ChainSpecError::MalformedPayload,
            ),
            doc_of(s@) matches Some(j) ==> (match spec_config_of(j) {
                Ok(cv) => r matches Ok(g) && g@ == GenesisV::Custom(cv),
                Err(e) => r == Err::<Genesis, ChainSpecError>(e),
            }),
            r matches Ok(g) ==> g@ is Custom && wf_genesis(g@),
    {
        match parse_json(s) {
            None => Err(ChainSpecError::MalformedPayload),
            Some(v) => match config_from_value(&v) {
                Ok(c) => Ok(Genesis::Custom(c)),
                Err(e) => Err(e),
            },
        }
    }
}

/// Parses a full genesis document (a JSON object whose `config` key holds the
/// chain configuration) into a canonical configuration record carrying
/// exactly that configuration's rules; `MalformedPayload` on text that is no
/// JSON document, has no `config` key, or whose configuration does not
/// deserialize.
pub fn genesis_from_json(json: &str) -> (r: Result<ChainConfig, ChainSpecError>)
    ensures
        doc_of(json@) is None ==> r == Err::<ChainConfig, ChainSpecError>(
            ChainSpecError::MalformedPayload,
        ),
        doc_of(json@) matches Some(j) ==> (match field_of(j, "config"@) {
            None => r == Err::<ChainConfig, ChainSpecError>(ChainSpecError::MalformedPayload),
            Some(cj) => match spec_config_of(cj) {
                Ok(cv) => r matches Ok(c) && c@ == cv,
                Err(e) => r == Err::<ChainConfig, ChainSpecError>(e),
            },
        }),
        r matches Ok(c) ==> wf_config(c@),
{
    match parse_json(json) {
        None => Err(ChainSpecError::MalformedPayload),
        Some(v) => match json_get(&v, "config") {
            None => Err(ChainSpecError::MalformedPayload),
            Some(c) => config_from_value(c),
        },
    }
}

} // verus!

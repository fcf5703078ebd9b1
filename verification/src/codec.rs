//! Encoding records back into JSON documents, and the round-trip laws.
//!
//! The encoders state, at the mathematical level, the document shape each
//! record stands for: every field of the record appears under its key, an
//! absent optional field as null, a number in decimal notation, a decimal
//! in its kept spelling. The `lemma_*_round_trip` functions prove that
//! decoding an encoded record returns the record unchanged: no field is
//! lost or altered between the two directions.

use vstd::prelude::*;

use crate::decode::spec_decode_epoch;
use crate::decode::spec_decode_epoch_index;
use crate::decode::spec_decode_epoch_seq;
use crate::decode::spec_decode_ping;
use crate::decode::spec_decode_ping_time;
use crate::decode::spec_decode_ping_time_seq;
use crate::decode::spec_decode_validator_block;
use crate::decode::spec_decode_validator_block_seq;
use crate::decode::spec_decode_validator_detail;
use crate::decode::spec_decode_validator_seq;
use crate::decode::spec_dec_or_zero;
use crate::decode::spec_get;
use crate::decode::spec_opt_bool;
use crate::decode::spec_opt_i32;
use crate::decode::spec_opt_str;
use crate::decode::spec_opt_u32;
use crate::decode::spec_opt_u64;
use crate::decode::spec_req_i32;
use crate::decode::spec_req_network;
use crate::decode::spec_req_str;
use crate::decode::spec_u32_or_zero;
use crate::error::Field;
use crate::error::ParseErrorV;
use crate::json::JVal;
use crate::json::MemberV;
use crate::models::EpochIndexV;
use crate::models::Network;
use crate::models::EpochV;
use crate::models::PingTimeV;
use crate::models::PingV;
use crate::models::ValidatorBlockV;
use crate::models::ValidatorDetailV;
use crate::num::lemma_i32_string_round_trip;
use crate::num::lemma_token_u64_round_trip;
use crate::num::lemma_u32_string_round_trip;
use crate::num::spec_is_decimal;
use crate::text::spec_i64_string;
use crate::text::spec_u64_string;

verus! {

/// An optional text field's place in a document: the text, or null.
pub open spec fn spec_opt_str_val(x: Option<Seq<char>>) -> JVal {
    match x {
        Some(s) => JVal::Str(s),
        None => JVal::Null,
    }
}

/// Looking a key up in an object finds the member that carries it, when no
/// earlier member carries the same key.
proof fn lemma_get_at(ms: Seq<MemberV>, k: int)
    requires
        0 <= k < ms.len(),
        forall|i: int| 0 <= i && i < k ==> (#[trigger] ms[i].key) != ms[k].key,
    ensures
        spec_get(ms, ms[k].key) == Some(ms[k].value),
    decreases k,
{
    if k > 0 {
        assert(ms.drop_first()[k - 1] == ms[k]);
        assert(forall|i: int|
            0 <= i && i < k - 1 ==> (#[trigger] ms.drop_first()[i].key) == ms[i + 1].key);
        lemma_get_at(ms.drop_first(), k - 1);
    }
}

/// As `lemma_get_at`, with the distinctness of the keys shown by their
/// lengths or their first two characters.
proof fn lemma_get_at_distinct(ms: Seq<MemberV>, k: int)
    requires
        0 <= k < ms.len(),
        forall|i: int|
            0 <= i && i < k ==> ((#[trigger] ms[i].key).len() != ms[k].key.len()
                || ms[i].key[0] != ms[k].key[0] || ms[i].key[1] != ms[k].key[1]),
    ensures
        spec_get(ms, ms[k].key) == Some(ms[k].value),
{
    assert forall|i: int| 0 <= i && i < k implies (#[trigger] ms[i].key) != ms[k].key by {
        if ms[i].key == ms[k].key {
            assert(ms[i].key.len() == ms[k].key.len());
            assert(ms[i].key[0] == ms[k].key[0]);
            assert(ms[i].key[1] == ms[k].key[1]);
        }
    }
    lemma_get_at(ms, k);
}

/// The document a liveness probe reply stands for.
pub open spec fn spec_encode_ping(v: PingV) -> JVal {
    JVal::Obj(seq![MemberV { key: "answer"@, value: JVal::Str(v.answer) }])
}

/// Decoding an encoded probe reply returns it unchanged.
pub proof fn lemma_ping_round_trip(v: PingV)
    ensures
        spec_decode_ping(spec_encode_ping(v)) == Ok::<PingV, ParseErrorV>(v),
{
    let o = spec_encode_ping(v)->Obj_0;
    lemma_get_at(o, 0);
}

/// The document an epoch descriptor stands for.
pub open spec fn spec_encode_epoch(v: EpochV) -> JVal {
    JVal::Obj(
        seq![
            MemberV { key: "epoch"@, value: JVal::Num(spec_u64_string(v.epoch as int)) },
            MemberV {
                key: "starting_slot"@,
                value: JVal::Num(spec_u64_string(v.starting_slot as int)),
            },
            MemberV {
                key: "slots_in_epoch"@,
                value: JVal::Num(spec_u64_string(v.slots_in_epoch as int)),
            },
            MemberV { key: "network"@, value: JVal::Str(v.network.spec_segment()) },
            MemberV { key: "created_at"@, value: spec_opt_str_val(v.created_at) },
        ],
    )
}

/// Decoding an encoded epoch descriptor returns it unchanged.
pub proof fn lemma_epoch_round_trip(v: EpochV)
    ensures
        spec_decode_epoch(spec_encode_epoch(v)) == Ok::<EpochV, ParseErrorV>(v),
{
    reveal_strlit("epoch");
    reveal_strlit("starting_slot");
    reveal_strlit("slots_in_epoch");
    reveal_strlit("network");
    reveal_strlit("created_at");
    reveal_strlit("mainnet");
    reveal_strlit("testnet");
    let o = spec_encode_epoch(v)->Obj_0;
    lemma_get_at_distinct(o, 0);
    lemma_get_at_distinct(o, 1);
    lemma_get_at_distinct(o, 2);
    lemma_get_at_distinct(o, 3);
    lemma_get_at_distinct(o, 4);
    lemma_token_u64_round_trip(v.epoch);
    lemma_token_u64_round_trip(v.starting_slot);
    lemma_token_u64_round_trip(v.slots_in_epoch);
    assert(("mainnet"@)[0] != ("testnet"@)[0]);
}

/// The sequence of documents a sequence of epoch descriptors stands for.
pub open spec fn spec_encode_epoch_seq(es: Seq<EpochV>) -> Seq<JVal>
    decreases es.len(),
{
    if es.len() == 0 {
        Seq::empty()
    } else {
        seq![spec_encode_epoch(es[0])] + spec_encode_epoch_seq(es.drop_first())
    }
}

/// Decoding an encoded sequence of epoch descriptors returns it unchanged.
pub proof fn lemma_epoch_seq_round_trip(es: Seq<EpochV>)
    ensures
        spec_decode_epoch_seq(spec_encode_epoch_seq(es)) == Ok::<Seq<EpochV>, ParseErrorV>(es),
    decreases es.len(),
{
    let a = spec_encode_epoch_seq(es);
    if es.len() == 0 {
        assert(a =~= Seq::<JVal>::empty());
        assert(es =~= Seq::<EpochV>::empty());
    } else {
        assert(a.len() > 0);
        assert(a[0] == spec_encode_epoch(es[0]));
        lemma_epoch_round_trip(es[0]);
        assert(spec_decode_epoch(a[0]) == Ok::<EpochV, ParseErrorV>(es[0]));
        assert(a.drop_first() =~= spec_encode_epoch_seq(es.drop_first()));
        lemma_epoch_seq_round_trip(es.drop_first());
        assert(spec_decode_epoch_seq(a.drop_first()) == Ok::<Seq<EpochV>, ParseErrorV>(
            es.drop_first(),
        ));
        assert(seq![es[0]] + es.drop_first() =~= es);
    }
}

/// The document a page of epochs stands for.
pub open spec fn spec_encode_epoch_index(v: EpochIndexV) -> JVal {
    JVal::Obj(
        seq![
            MemberV { key: "epochs"@, value: JVal::Arr(spec_encode_epoch_seq(v.epochs)) },
            MemberV {
                key: "epochs_count"@,
                value: JVal::Num(spec_u64_string(v.epochs_count as int)),
            },
        ],
    )
}

/// Decoding an encoded page of epochs returns it unchanged.
pub proof fn lemma_epoch_index_round_trip(v: EpochIndexV)
    ensures
        spec_decode_epoch_index(spec_encode_epoch_index(v)) == Ok::<EpochIndexV, ParseErrorV>(v),
{
    reveal_strlit("epochs");
    reveal_strlit("epochs_count");
    let o = spec_encode_epoch_index(v)->Obj_0;
    lemma_get_at_distinct(o, 0);
    lemma_get_at_distinct(o, 1);
    lemma_epoch_seq_round_trip(v.epochs);
    lemma_token_u64_round_trip(v.epochs_count);
}


/// An optional unsigned number's place in a document: the number, or null.
pub open spec fn spec_opt_u64_val(x: Option<u64>) -> JVal {
    match x {
        Some(n) => JVal::Num(spec_u64_string(n as int)),
        None => JVal::Null,
    }
}

/// An optional signed number's place in a document: the number, or null.
pub open spec fn spec_opt_i32_val(x: Option<i32>) -> JVal {
    match x {
        Some(n) => JVal::Num(spec_i64_string(n as int)),
        None => JVal::Null,
    }
}

/// An optional unsigned number's place in a document: the number, or null.
pub open spec fn spec_opt_u32_val(x: Option<u32>) -> JVal {
    match x {
        Some(n) => JVal::Num(spec_u64_string(n as int)),
        None => JVal::Null,
    }
}

/// An optional truth value's place in a document: the value, or null.
pub open spec fn spec_opt_bool_val(x: Option<bool>) -> JVal {
    match x {
        Some(b) => JVal::Bool(b),
        None => JVal::Null,
    }
}

/// Whether an absent optional decimal, or a present well-formed one, is
/// spelled as the decoder accepts it.
pub open spec fn spec_opt_dec_wf(x: Option<Seq<char>>) -> bool {
    match x {
        Some(s) => spec_is_decimal(s),
        None => true,
    }
}

/// The document a latency sample stands for.
pub open spec fn spec_encode_ping_time(v: PingTimeV) -> JVal {
    JVal::Obj(
        seq![
            MemberV { key: "id"@, value: JVal::Num(spec_u64_string(v.id as int)) },
            MemberV { key: "batch_uuid"@, value: JVal::Str(v.batch_uuid) },
            MemberV { key: "network"@, value: JVal::Str(v.network.spec_segment()) },
            MemberV { key: "from_account"@, value: JVal::Str(v.from_account) },
            MemberV { key: "from_ip"@, value: JVal::Str(v.from_ip) },
            MemberV { key: "to_account"@, value: JVal::Str(v.to_account) },
            MemberV { key: "to_ip"@, value: JVal::Str(v.to_ip) },
            MemberV { key: "min_ms"@, value: spec_opt_str_val(v.min_ms) },
            MemberV { key: "avg_ms"@, value: spec_opt_str_val(v.avg_ms) },
            MemberV { key: "max_ms"@, value: spec_opt_str_val(v.max_ms) },
            MemberV { key: "mdev"@, value: spec_opt_str_val(v.mdev) },
            MemberV { key: "observed_at"@, value: spec_opt_str_val(v.observed_at) },
            MemberV { key: "created_at"@, value: spec_opt_str_val(v.created_at) },
            MemberV { key: "updated_at"@, value: spec_opt_str_val(v.updated_at) },
        ],
    )
}

/// Decoding an encoded latency sample returns it unchanged. The latency
/// figures must spell decimals, as every value of `Dec` does.
pub proof fn lemma_ping_time_round_trip(v: PingTimeV)
    requires
        spec_opt_dec_wf(v.min_ms),
        spec_opt_dec_wf(v.avg_ms),
        spec_opt_dec_wf(v.max_ms),
        spec_opt_dec_wf(v.mdev),
    ensures
        spec_decode_ping_time(spec_encode_ping_time(v)) == Ok::<PingTimeV, ParseErrorV>(v),
{
    reveal_strlit("id");
    reveal_strlit("batch_uuid");
    reveal_strlit("network");
    reveal_strlit("from_account");
    reveal_strlit("from_ip");
    reveal_strlit("to_account");
    reveal_strlit("to_ip");
    reveal_strlit("min_ms");
    reveal_strlit("avg_ms");
    reveal_strlit("max_ms");
    reveal_strlit("mdev");
    reveal_strlit("observed_at");
    reveal_strlit("created_at");
    reveal_strlit("updated_at");
    reveal_strlit("mainnet");
    reveal_strlit("testnet");
    let o = spec_encode_ping_time(v)->Obj_0;
    lemma_get_at_distinct(o, 0);
    lemma_get_at_distinct(o, 1);
    lemma_get_at_distinct(o, 2);
    lemma_get_at_distinct(o, 3);
    lemma_get_at_distinct(o, 4);
    lemma_get_at_distinct(o, 5);
    lemma_get_at_distinct(o, 6);
    lemma_get_at_distinct(o, 7);
    lemma_get_at_distinct(o, 8);
    lemma_get_at_distinct(o, 9);
    lemma_get_at_distinct(o, 10);
    lemma_get_at_distinct(o, 11);
    lemma_get_at_distinct(o, 12);
    lemma_get_at_distinct(o, 13);
    lemma_token_u64_round_trip(v.id);
    assert(("mainnet"@)[0] != ("testnet"@)[0]);
}

/// The sequence of documents a sequence of latency samples stands for.
pub open spec fn spec_encode_ping_time_seq(es: Seq<PingTimeV>) -> Seq<JVal>
    decreases es.len(),
{
    if es.len() == 0 {
        Seq::empty()
    } else {
        seq![spec_encode_ping_time(es[0])] + spec_encode_ping_time_seq(es.drop_first())
    }
}

/// Whether every latency figure in a sequence of samples spells a decimal.
pub open spec fn spec_ping_time_seq_wf(es: Seq<PingTimeV>) -> bool {
    forall|i: int|
        0 <= i && i < es.len() ==> (spec_opt_dec_wf((#[trigger] es[i]).min_ms) && spec_opt_dec_wf(
            es[i].avg_ms,
        ) && spec_opt_dec_wf(es[i].max_ms) && spec_opt_dec_wf(es[i].mdev))
}

/// Decoding an encoded sequence of latency samples returns it unchanged.
pub proof fn lemma_ping_time_seq_round_trip(es: Seq<PingTimeV>)
    requires
        spec_ping_time_seq_wf(es),
    ensures
        spec_decode_ping_time_seq(spec_encode_ping_time_seq(es)) == Ok::<
            Seq<PingTimeV>,
            ParseErrorV,
        >(es),
    decreases es.len(),
{
    let a = spec_encode_ping_time_seq(es);
    if es.len() == 0 {
        assert(a =~= Seq::<JVal>::empty());
        assert(es =~= Seq::<PingTimeV>::empty());
    } else {
        assert(a.len() > 0);
        assert(a[0] == spec_encode_ping_time(es[0]));
        lemma_ping_time_round_trip(es[0]);
        assert(spec_decode_ping_time(a[0]) == Ok::<PingTimeV, ParseErrorV>(es[0]));
        assert(a.drop_first() =~= spec_encode_ping_time_seq(es.drop_first()));
        assert(spec_ping_time_seq_wf(es.drop_first()));
        lemma_ping_time_seq_round_trip(es.drop_first());
        assert(spec_decode_ping_time_seq(a.drop_first()) == Ok::<Seq<PingTimeV>, ParseErrorV>(
            es.drop_first(),
        ));
        assert(seq![es[0]] + es.drop_first() =~= es);
    }
}

/// The document a block-production record stands for.
pub open spec fn spec_encode_validator_block(v: ValidatorBlockV) -> JVal {
    JVal::Obj(
        seq![
            MemberV { key: "epoch"@, value: JVal::Num(spec_u64_string(v.epoch as int)) },
            MemberV {
                key: "leader_slots"@,
                value: JVal::Num(spec_u64_string(v.leader_slots as int)),
            },
            MemberV {
                key: "blocks_produced"@,
                value: JVal::Num(spec_u64_string(v.blocks_produced as int)),
            },
            MemberV {
                key: "skipped_slots"@,
                value: JVal::Num(spec_u64_string(v.skipped_slots as int)),
            },
            MemberV { key: "skipped_slot_percent"@, value: JVal::Str(v.skipped_slot_percent) },
            MemberV { key: "created_at"@, value: spec_opt_str_val(v.created_at) },
            MemberV { key: "batch_uuid"@, value: JVal::Str(v.batch_uuid) },
        ],
    )
}

/// Decoding an encoded block-production record returns it unchanged. The
/// skipped-slot percent must spell a decimal, as every value of `Dec` does.
pub proof fn lemma_validator_block_round_trip(v: ValidatorBlockV)
    requires
        spec_is_decimal(v.skipped_slot_percent),
    ensures
        spec_decode_validator_block(spec_encode_validator_block(v)) == Ok::<
            ValidatorBlockV,
            ParseErrorV,
        >(v),
{
    reveal_strlit("epoch");
    reveal_strlit("leader_slots");
    reveal_strlit("blocks_produced");
    reveal_strlit("skipped_slots");
    reveal_strlit("skipped_slot_percent");
    reveal_strlit("created_at");
    reveal_strlit("batch_uuid");
    let o = spec_encode_validator_block(v)->Obj_0;
    lemma_get_at_distinct(o, 0);
    lemma_get_at_distinct(o, 1);
    lemma_get_at_distinct(o, 2);
    lemma_get_at_distinct(o, 3);
    lemma_get_at_distinct(o, 4);
    lemma_get_at_distinct(o, 5);
    lemma_get_at_distinct(o, 6);
    lemma_token_u64_round_trip(v.epoch);
    lemma_token_u64_round_trip(v.leader_slots);
    lemma_token_u64_round_trip(v.blocks_produced);
    lemma_token_u64_round_trip(v.skipped_slots);
}

/// The sequence of documents a block history stands for.
pub open spec fn spec_encode_validator_block_seq(es: Seq<ValidatorBlockV>) -> Seq<JVal>
    decreases es.len(),
{
    if es.len() == 0 {
        Seq::empty()
    } else {
        seq![spec_encode_validator_block(es[0])] + spec_encode_validator_block_seq(
            es.drop_first(),
        )
    }
}

/// Whether every skipped-slot percent in a block history spells a decimal.
pub open spec fn spec_validator_block_seq_wf(es: Seq<ValidatorBlockV>) -> bool {
    forall|i: int|
        0 <= i && i < es.len() ==> spec_is_decimal((#[trigger] es[i]).skipped_slot_percent)
}

/// Decoding an encoded block history returns it unchanged.
pub proof fn lemma_validator_block_seq_round_trip(es: Seq<ValidatorBlockV>)
    requires
        spec_validator_block_seq_wf(es),
    ensures
        spec_decode_validator_block_seq(spec_encode_validator_block_seq(es)) == Ok::<
            Seq<ValidatorBlockV>,
            ParseErrorV,
        >(es),
    decreases es.len(),
{
    let a = spec_encode_validator_block_seq(es);
    if es.len() == 0 {
        assert(a =~= Seq::<JVal>::empty());
        assert(es =~= Seq::<ValidatorBlockV>::empty());
    } else {
        assert(a.len() > 0);
        assert(a[0] == spec_encode_validator_block(es[0]));
        lemma_validator_block_round_trip(es[0]);
        assert(spec_decode_validator_block(a[0]) == Ok::<ValidatorBlockV, ParseErrorV>(es[0]));
        assert(a.drop_first() =~= spec_encode_validator_block_seq(es.drop_first()));
        assert(spec_validator_block_seq_wf(es.drop_first()));
        lemma_validator_block_seq_round_trip(es.drop_first());
        assert(spec_decode_validator_block_seq(a.drop_first()) == Ok::<
            Seq<ValidatorBlockV>,
            ParseErrorV,
        >(es.drop_first()));
        assert(seq![es[0]] + es.drop_first() =~= es);
    }
}

/// The document a validator snapshot stands for.
pub open spec fn spec_encode_validator_detail(v: ValidatorDetailV) -> JVal {
    JVal::Obj(
        seq![
            MemberV { key: "network"@, value: JVal::Str(v.network.spec_segment()) },
            MemberV { key: "account"@, value: JVal::Str(v.account) },
            MemberV { key: "name"@, value: spec_opt_str_val(v.name) },
            MemberV { key: "keybase_id"@, value: spec_opt_str_val(v.keybase_id) },
            MemberV { key: "www_url"@, value: spec_opt_str_val(v.www_url) },
            MemberV { key: "details"@, value: spec_opt_str_val(v.details) },
            MemberV { key: "created_at"@, value: spec_opt_str_val(v.created_at) },
            MemberV { key: "updated_at"@, value: spec_opt_str_val(v.updated_at) },
            MemberV {
                key: "total_score"@,
                value: JVal::Num(spec_i64_string(v.total_score as int)),
            },
            MemberV {
                key: "root_distance_score"@,
                value: JVal::Num(spec_i64_string(v.root_distance_score as int)),
            },
            MemberV {
                key: "vote_distance_score"@,
                value: JVal::Num(spec_i64_string(v.vote_distance_score as int)),
            },
            MemberV {
                key: "skipped_slot_score"@,
                value: JVal::Num(spec_i64_string(v.skipped_slot_score as int)),
            },
            MemberV { key: "software_version"@, value: spec_opt_str_val(v.software_version) },
            MemberV {
                key: "software_version_score"@,
                value: JVal::Num(spec_i64_string(v.software_version_score as int)),
            },
            MemberV {
                key: "stake_concentration_score"@,
                value: spec_opt_i32_val(v.stake_concentration_score),
            },
            MemberV {
                key: "data_center_concentration_score"@,
                value: spec_opt_i32_val(v.data_center_concentration_score),
            },
            MemberV {
                key: "published_information_score"@,
                value: JVal::Num(spec_i64_string(v.published_information_score as int)),
            },
            MemberV {
                key: "security_report_score"@,
                value: JVal::Num(spec_i64_string(v.security_report_score as int)),
            },
            MemberV { key: "active_stake"@, value: spec_opt_u64_val(v.active_stake) },
            MemberV { key: "commission"@, value: spec_opt_u32_val(v.commission) },
            MemberV { key: "delinquent"@, value: spec_opt_bool_val(v.delinquent) },
            MemberV { key: "data_center_key"@, value: spec_opt_str_val(v.data_center_key) },
            MemberV { key: "data_center_host"@, value: spec_opt_str_val(v.data_center_host) },
            MemberV {
                key: "autonomous_system_number"@,
                value: JVal::Num(spec_u64_string(v.autonomous_system_number as int)),
            },
            MemberV { key: "vote_account"@, value: spec_opt_str_val(v.vote_account) },
            MemberV { key: "skipped_slots"@, value: spec_opt_u64_val(v.skipped_slots) },
            MemberV { key: "skipped_slot_percent"@, value: JVal::Str(v.skipped_slot_percent) },
            MemberV { key: "ping_time"@, value: spec_opt_str_val(v.ping_time) },
            MemberV { key: "url"@, value: JVal::Str(v.url) },
        ],
    )
}


/// Part of the key lookups behind the snapshot round trip.
#[verifier::rlimit(100)]
#[verifier::spinoff_prover]
proof fn lemma_validator_detail_lookups_low(v: ValidatorDetailV)
    ensures
        spec_get(spec_encode_validator_detail(v)->Obj_0, spec_encode_validator_detail(v)->Obj_0[0].key) == Some(spec_encode_validator_detail(v)->Obj_0[0].value),
        spec_get(spec_encode_validator_detail(v)->Obj_0, spec_encode_validator_detail(v)->Obj_0[1].key) == Some(spec_encode_validator_detail(v)->Obj_0[1].value),
        spec_get(spec_encode_validator_detail(v)->Obj_0, spec_encode_validator_detail(v)->Obj_0[2].key) == Some(spec_encode_validator_detail(v)->Obj_0[2].value),
        spec_get(spec_encode_validator_detail(v)->Obj_0, spec_encode_validator_detail(v)->Obj_0[3].key) == Some(spec_encode_validator_detail(v)->Obj_0[3].value),
        spec_get(spec_encode_validator_detail(v)->Obj_0, spec_encode_validator_detail(v)->Obj_0[4].key) == Some(spec_encode_validator_detail(v)->Obj_0[4].value),
        spec_get(spec_encode_validator_detail(v)->Obj_0, spec_encode_validator_detail(v)->Obj_0[5].key) == Some(spec_encode_validator_detail(v)->Obj_0[5].value),
        spec_get(spec_encode_validator_detail(v)->Obj_0, spec_encode_validator_detail(v)->Obj_0[6].key) == Some(spec_encode_validator_detail(v)->Obj_0[6].value),
        spec_get(spec_encode_validator_detail(v)->Obj_0, spec_encode_validator_detail(v)->Obj_0[7].key) == Some(spec_encode_validator_detail(v)->Obj_0[7].value),
        spec_get(spec_encode_validator_detail(v)->Obj_0, spec_encode_validator_detail(v)->Obj_0[8].key) == Some(spec_encode_validator_detail(v)->Obj_0[8].value),
        spec_get(spec_encode_validator_detail(v)->Obj_0, spec_encode_validator_detail(v)->Obj_0[9].key) == Some(spec_encode_validator_detail(v)->Obj_0[9].value),
{
    reveal_strlit("network");
    reveal_strlit("account");
    reveal_strlit("name");
    reveal_strlit("keybase_id");
    reveal_strlit("www_url");
    reveal_strlit("details");
    reveal_strlit("created_at");
    reveal_strlit("updated_at");
    reveal_strlit("total_score");
    reveal_strlit("root_distance_score");
    reveal_strlit("vote_distance_score");
    reveal_strlit("skipped_slot_score");
    reveal_strlit("software_version");
    reveal_strlit("software_version_score");
    reveal_strlit("stake_concentration_score");
    reveal_strlit("data_center_concentration_score");
    reveal_strlit("published_information_score");
    reveal_strlit("security_report_score");
    reveal_strlit("active_stake");
    reveal_strlit("commission");
    reveal_strlit("delinquent");
    reveal_strlit("data_center_key");
    reveal_strlit("data_center_host");
    reveal_strlit("autonomous_system_number");
    reveal_strlit("vote_account");
    reveal_strlit("skipped_slots");
    reveal_strlit("skipped_slot_percent");
    reveal_strlit("ping_time");
    reveal_strlit("url");
    let o = spec_encode_validator_detail(v)->Obj_0;
    lemma_get_at_distinct(o, 0);
    lemma_get_at_distinct(o, 1);
    lemma_get_at_distinct(o, 2);
    lemma_get_at_distinct(o, 3);
    lemma_get_at_distinct(o, 4);
    lemma_get_at_distinct(o, 5);
    lemma_get_at_distinct(o, 6);
    lemma_get_at_distinct(o, 7);
    lemma_get_at_distinct(o, 8);
    lemma_get_at_distinct(o, 9);
}

/// Part of the key lookups behind the snapshot round trip.
#[verifier::rlimit(100)]
#[verifier::spinoff_prover]
proof fn lemma_validator_detail_lookups_mid(v: ValidatorDetailV)
    ensures
        spec_get(spec_encode_validator_detail(v)->Obj_0, spec_encode_validator_detail(v)->Obj_0[10].key) == Some(spec_encode_validator_detail(v)->Obj_0[10].value),
        spec_get(spec_encode_validator_detail(v)->Obj_0, spec_encode_validator_detail(v)->Obj_0[11].key) == Some(spec_encode_validator_detail(v)->Obj_0[11].value),
        spec_get(spec_encode_validator_detail(v)->Obj_0, spec_encode_validator_detail(v)->Obj_0[12].key) == Some(spec_encode_validator_detail(v)->Obj_0[12].value),
        spec_get(spec_encode_validator_detail(v)->Obj_0, spec_encode_validator_detail(v)->Obj_0[13].key) == Some(spec_encode_validator_detail(v)->Obj_0[13].value),
        spec_get(spec_encode_validator_detail(v)->Obj_0, spec_encode_validator_detail(v)->Obj_0[14].key) == Some(spec_encode_validator_detail(v)->Obj_0[14].value),
        spec_get(spec_encode_validator_detail(v)->Obj_0, spec_encode_validator_detail(v)->Obj_0[15].key) == Some(spec_encode_validator_detail(v)->Obj_0[15].value),
        spec_get(spec_encode_validator_detail(v)->Obj_0, spec_encode_validator_detail(v)->Obj_0[16].key) == Some(spec_encode_validator_detail(v)->Obj_0[16].value),
        spec_get(spec_encode_validator_detail(v)->Obj_0, spec_encode_validator_detail(v)->Obj_0[17].key) == Some(spec_encode_validator_detail(v)->Obj_0[17].value),
        spec_get(spec_encode_validator_detail(v)->Obj_0, spec_encode_validator_detail(v)->Obj_0[18].key) == Some(spec_encode_validator_detail(v)->Obj_0[18].value),
        spec_get(spec_encode_validator_detail(v)->Obj_0, spec_encode_validator_detail(v)->Obj_0[19].key) == Some(spec_encode_validator_detail(v)->Obj_0[19].value),
{
    reveal_strlit("network");
    reveal_strlit("account");
    reveal_strlit("name");
    reveal_strlit("keybase_id");
    reveal_strlit("www_url");
    reveal_strlit("details");
    reveal_strlit("created_at");
    reveal_strlit("updated_at");
    reveal_strlit("total_score");
    reveal_strlit("root_distance_score");
    reveal_strlit("vote_distance_score");
    reveal_strlit("skipped_slot_score");
    reveal_strlit("software_version");
    reveal_strlit("software_version_score");
    reveal_strlit("stake_concentration_score");
    reveal_strlit("data_center_concentration_score");
    reveal_strlit("published_information_score");
    reveal_strlit("security_report_score");
    reveal_strlit("active_stake");
    reveal_strlit("commission");
    reveal_strlit("delinquent");
    reveal_strlit("data_center_key");
    reveal_strlit("data_center_host");
    reveal_strlit("autonomous_system_number");
    reveal_strlit("vote_account");
    reveal_strlit("skipped_slots");
    reveal_strlit("skipped_slot_percent");
    reveal_strlit("ping_time");
    reveal_strlit("url");
    let o = spec_encode_validator_detail(v)->Obj_0;
    lemma_get_at_distinct(o, 10);
    lemma_get_at_distinct(o, 11);
    lemma_get_at_distinct(o, 12);
    lemma_get_at_distinct(o, 13);
    lemma_get_at_distinct(o, 14);
    lemma_get_at_distinct(o, 15);
    lemma_get_at_distinct(o, 16);
    lemma_get_at_distinct(o, 17);
    lemma_get_at_distinct(o, 18);
    lemma_get_at_distinct(o, 19);
}

/// Part of the key lookups behind the snapshot round trip.
#[verifier::rlimit(100)]
#[verifier::spinoff_prover]
proof fn lemma_validator_detail_lookups_high(v: ValidatorDetailV)
    ensures
        spec_get(spec_encode_validator_detail(v)->Obj_0, spec_encode_validator_detail(v)->Obj_0[20].key) == Some(spec_encode_validator_detail(v)->Obj_0[20].value),
        spec_get(spec_encode_validator_detail(v)->Obj_0, spec_encode_validator_detail(v)->Obj_0[21].key) == Some(spec_encode_validator_detail(v)->Obj_0[21].value),
        spec_get(spec_encode_validator_detail(v)->Obj_0, spec_encode_validator_detail(v)->Obj_0[22].key) == Some(spec_encode_validator_detail(v)->Obj_0[22].value),
        spec_get(spec_encode_validator_detail(v)->Obj_0, spec_encode_validator_detail(v)->Obj_0[23].key) == Some(spec_encode_validator_detail(v)->Obj_0[23].value),
        spec_get(spec_encode_validator_detail(v)->Obj_0, spec_encode_validator_detail(v)->Obj_0[24].key) == Some(spec_encode_validator_detail(v)->Obj_0[24].value),
        spec_get(spec_encode_validator_detail(v)->Obj_0, spec_encode_validator_detail(v)->Obj_0[25].key) == Some(spec_encode_validator_detail(v)->Obj_0[25].value),
        spec_get(spec_encode_validator_detail(v)->Obj_0, spec_encode_validator_detail(v)->Obj_0[26].key) == Some(spec_encode_validator_detail(v)->Obj_0[26].value),
        spec_get(spec_encode_validator_detail(v)->Obj_0, spec_encode_validator_detail(v)->Obj_0[27].key) == Some(spec_encode_validator_detail(v)->Obj_0[27].value),
        spec_get(spec_encode_validator_detail(v)->Obj_0, spec_encode_validator_detail(v)->Obj_0[28].key) == Some(spec_encode_validator_detail(v)->Obj_0[28].value),
{
    reveal_strlit("network");
    reveal_strlit("account");
    reveal_strlit("name");
    reveal_strlit("keybase_id");
    reveal_strlit("www_url");
    reveal_strlit("details");
    reveal_strlit("created_at");
    reveal_strlit("updated_at");
    reveal_strlit("total_score");
    reveal_strlit("root_distance_score");
    reveal_strlit("vote_distance_score");
    reveal_strlit("skipped_slot_score");
    reveal_strlit("software_version");
    reveal_strlit("software_version_score");
    reveal_strlit("stake_concentration_score");
    reveal_strlit("data_center_concentration_score");
    reveal_strlit("published_information_score");
    reveal_strlit("security_report_score");
    reveal_strlit("active_stake");
    reveal_strlit("commission");
    reveal_strlit("delinquent");
    reveal_strlit("data_center_key");
    reveal_strlit("data_center_host");
    reveal_strlit("autonomous_system_number");
    reveal_strlit("vote_account");
    reveal_strlit("skipped_slots");
    reveal_strlit("skipped_slot_percent");
    reveal_strlit("ping_time");
    reveal_strlit("url");
    let o = spec_encode_validator_detail(v)->Obj_0;
    lemma_get_at_distinct(o, 20);
    lemma_get_at_distinct(o, 21);
    lemma_get_at_distinct(o, 22);
    lemma_get_at_distinct(o, 23);
    lemma_get_at_distinct(o, 24);
    lemma_get_at_distinct(o, 25);
    lemma_get_at_distinct(o, 26);
    lemma_get_at_distinct(o, 27);
    lemma_get_at_distinct(o, 28);
}


/// Part of the field results behind the snapshot round trip.
#[verifier::rlimit(100)]
#[verifier::spinoff_prover]
proof fn lemma_validator_detail_fields_low(v: ValidatorDetailV)
    ensures
        spec_req_network(spec_encode_validator_detail(v)->Obj_0, "network"@, Field::Network) == Ok::<Network, ParseErrorV>(v.network),
        spec_req_str(spec_encode_validator_detail(v)->Obj_0, "account"@, Field::Account) == Ok::<Seq<char>, ParseErrorV>(v.account),
        spec_opt_str(spec_encode_validator_detail(v)->Obj_0, "name"@, Field::Name) == Ok::<Option<Seq<char>>, ParseErrorV>(v.name),
        spec_opt_str(spec_encode_validator_detail(v)->Obj_0, "keybase_id"@, Field::KeybaseId) == Ok::<Option<Seq<char>>, ParseErrorV>(v.keybase_id),
        spec_opt_str(spec_encode_validator_detail(v)->Obj_0, "www_url"@, Field::WwwUrl) == Ok::<Option<Seq<char>>, ParseErrorV>(v.www_url),
        spec_opt_str(spec_encode_validator_detail(v)->Obj_0, "details"@, Field::Details) == Ok::<Option<Seq<char>>, ParseErrorV>(v.details),
        spec_opt_str(spec_encode_validator_detail(v)->Obj_0, "created_at"@, Field::CreatedAt) == Ok::<Option<Seq<char>>, ParseErrorV>(v.created_at),
        spec_opt_str(spec_encode_validator_detail(v)->Obj_0, "updated_at"@, Field::UpdatedAt) == Ok::<Option<Seq<char>>, ParseErrorV>(v.updated_at),
        spec_req_i32(spec_encode_validator_detail(v)->Obj_0, "total_score"@, Field::TotalScore) == Ok::<i32, ParseErrorV>(v.total_score),
        spec_req_i32(spec_encode_validator_detail(v)->Obj_0, "root_distance_score"@, Field::RootDistanceScore) == Ok::<i32, ParseErrorV>(v.root_distance_score),
{
    lemma_validator_detail_lookups_low(v);
    reveal_strlit("mainnet");
    reveal_strlit("testnet");
    assert(("mainnet"@)[0] != ("testnet"@)[0]);
    lemma_i32_string_round_trip(v.total_score);
    lemma_i32_string_round_trip(v.root_distance_score);
}

/// Part of the field results behind the snapshot round trip.
#[verifier::rlimit(100)]
#[verifier::spinoff_prover]
proof fn lemma_validator_detail_fields_mid(v: ValidatorDetailV)
    ensures
        spec_req_i32(spec_encode_validator_detail(v)->Obj_0, "vote_distance_score"@, Field::VoteDistanceScore) == Ok::<i32, ParseErrorV>(v.vote_distance_score),
        spec_req_i32(spec_encode_validator_detail(v)->Obj_0, "skipped_slot_score"@, Field::SkippedSlotScore) == Ok::<i32, ParseErrorV>(v.skipped_slot_score),
        spec_opt_str(spec_encode_validator_detail(v)->Obj_0, "software_version"@, Field::SoftwareVersion) == Ok::<Option<Seq<char>>, ParseErrorV>(v.software_version),
        spec_req_i32(spec_encode_validator_detail(v)->Obj_0, "software_version_score"@, Field::SoftwareVersionScore) == Ok::<i32, ParseErrorV>(v.software_version_score),
        spec_opt_i32(spec_encode_validator_detail(v)->Obj_0, "stake_concentration_score"@, Field::StakeConcentrationScore) == Ok::<Option<i32>, ParseErrorV>(v.stake_concentration_score),
        spec_opt_i32(spec_encode_validator_detail(v)->Obj_0, "data_center_concentration_score"@, Field::DataCenterConcentrationScore) == Ok::<Option<i32>, ParseErrorV>(v.data_center_concentration_score),
        spec_req_i32(spec_encode_validator_detail(v)->Obj_0, "published_information_score"@, Field::PublishedInformationScore) == Ok::<i32, ParseErrorV>(v.published_information_score),
        spec_req_i32(spec_encode_validator_detail(v)->Obj_0, "security_report_score"@, Field::SecurityReportScore) == Ok::<i32, ParseErrorV>(v.security_report_score),
        spec_opt_u64(spec_encode_validator_detail(v)->Obj_0, "active_stake"@, Field::ActiveStake) == Ok::<Option<u64>, ParseErrorV>(v.active_stake),
        spec_opt_u32(spec_encode_validator_detail(v)->Obj_0, "commission"@, Field::Commission) == Ok::<Option<u32>, ParseErrorV>(v.commission),
{
    lemma_validator_detail_lookups_mid(v);
    lemma_i32_string_round_trip(v.vote_distance_score);
    lemma_i32_string_round_trip(v.skipped_slot_score);
    lemma_i32_string_round_trip(v.software_version_score);
    if v.stake_concentration_score is Some {
        lemma_i32_string_round_trip(v.stake_concentration_score->0);
    }
    if v.data_center_concentration_score is Some {
        lemma_i32_string_round_trip(v.data_center_concentration_score->0);
    }
    lemma_i32_string_round_trip(v.published_information_score);
    lemma_i32_string_round_trip(v.security_report_score);
    if v.active_stake is Some {
        lemma_token_u64_round_trip(v.active_stake->0);
    }
    if v.commission is Some {
        lemma_u32_string_round_trip(v.commission->0);
    }
}

/// Part of the field results behind the snapshot round trip.
#[verifier::rlimit(100)]
#[verifier::spinoff_prover]
proof fn lemma_validator_detail_fields_high(v: ValidatorDetailV)
    requires
        spec_is_decimal(v.skipped_slot_percent),
    ensures
        spec_opt_bool(spec_encode_validator_detail(v)->Obj_0, "delinquent"@, Field::Delinquent) == Ok::<Option<bool>, ParseErrorV>(v.delinquent),
        spec_opt_str(spec_encode_validator_detail(v)->Obj_0, "data_center_key"@, Field::DataCenterKey) == Ok::<Option<Seq<char>>, ParseErrorV>(v.data_center_key),
        spec_opt_str(spec_encode_validator_detail(v)->Obj_0, "data_center_host"@, Field::DataCenterHost) == Ok::<Option<Seq<char>>, ParseErrorV>(v.data_center_host),
        spec_u32_or_zero(spec_encode_validator_detail(v)->Obj_0, "autonomous_system_number"@, Field::AutonomousSystemNumber) == Ok::<u32, ParseErrorV>(v.autonomous_system_number),
        spec_opt_str(spec_encode_validator_detail(v)->Obj_0, "vote_account"@, Field::VoteAccount) == Ok::<Option<Seq<char>>, ParseErrorV>(v.vote_account),
        spec_opt_u64(spec_encode_validator_detail(v)->Obj_0, "skipped_slots"@, Field::SkippedSlots) == Ok::<Option<u64>, ParseErrorV>(v.skipped_slots),
        spec_dec_or_zero(spec_encode_validator_detail(v)->Obj_0, "skipped_slot_percent"@, Field::SkippedSlotPercent) == Ok::<Seq<char>, ParseErrorV>(v.skipped_slot_percent),
        spec_opt_str(spec_encode_validator_detail(v)->Obj_0, "ping_time"@, Field::PingTimeField) == Ok::<Option<Seq<char>>, ParseErrorV>(v.ping_time),
        spec_req_str(spec_encode_validator_detail(v)->Obj_0, "url"@, Field::Url) == Ok::<Seq<char>, ParseErrorV>(v.url),
{
    lemma_validator_detail_lookups_high(v);
    lemma_u32_string_round_trip(v.autonomous_system_number);
    if v.skipped_slots is Some {
        lemma_token_u64_round_trip(v.skipped_slots->0);
    }
}

/// Decoding an encoded validator snapshot returns it unchanged. The
/// skipped-slot percent must spell a decimal, as every value of `Dec` does.
#[verifier::rlimit(100)]
#[verifier::spinoff_prover]
pub proof fn lemma_validator_detail_round_trip(v: ValidatorDetailV)
    requires
        spec_is_decimal(v.skipped_slot_percent),
    ensures
        spec_decode_validator_detail(spec_encode_validator_detail(v)) == Ok::<
            ValidatorDetailV,
            ParseErrorV,
        >(v),
{
    lemma_validator_detail_fields_low(v);
    lemma_validator_detail_fields_mid(v);
    lemma_validator_detail_fields_high(v);
}

/// The sequence of documents a validator listing stands for.
pub open spec fn spec_encode_validator_seq(es: Seq<ValidatorDetailV>) -> Seq<JVal>
    decreases es.len(),
{
    if es.len() == 0 {
        Seq::empty()
    } else {
        seq![spec_encode_validator_detail(es[0])] + spec_encode_validator_seq(es.drop_first())
    }
}

/// Whether every skipped-slot percent in a listing spells a decimal.
pub open spec fn spec_validator_seq_wf(es: Seq<ValidatorDetailV>) -> bool {
    forall|i: int|
        0 <= i && i < es.len() ==> spec_is_decimal((#[trigger] es[i]).skipped_slot_percent)
}

/// Decoding an encoded validator listing returns it unchanged.
pub proof fn lemma_validator_seq_round_trip(es: Seq<ValidatorDetailV>)
    requires
        spec_validator_seq_wf(es),
    ensures
        spec_decode_validator_seq(spec_encode_validator_seq(es)) == Ok::<
            Seq<ValidatorDetailV>,
            ParseErrorV,
        >(es),
    decreases es.len(),
{
    let a = spec_encode_validator_seq(es);
    if es.len() == 0 {
        assert(a =~= Seq::<JVal>::empty());
        assert(es =~= Seq::<ValidatorDetailV>::empty());
    } else {
        assert(a.len() > 0);
        assert(a[0] == spec_encode_validator_detail(es[0]));
        lemma_validator_detail_round_trip(es[0]);
        assert(spec_decode_validator_detail(a[0]) == Ok::<ValidatorDetailV, ParseErrorV>(
            es[0],
        ));
        assert(a.drop_first() =~= spec_encode_validator_seq(es.drop_first()));
        assert(spec_validator_seq_wf(es.drop_first()));
        lemma_validator_seq_round_trip(es.drop_first());
        assert(spec_decode_validator_seq(a.drop_first()) == Ok::<
            Seq<ValidatorDetailV>,
            ParseErrorV,
        >(es.drop_first()));
        assert(seq![es[0]] + es.drop_first() =~= es);
    }
}


} // verus!

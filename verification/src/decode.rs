//! Decoding of JSON documents into the typed records.
//!
//! Every decoder is total over JSON documents and mirrors its `spec_` form
//! exactly. The field rules are the lenient ones the service requires: a
//! field marked optional may be absent or null, and then yields `None`
//! rather than a failure; a required field that is absent, or any field of
//! the wrong shape, yields a `ParseError` naming the field; a decimal field
//! accepts a number token or a string holding a decimal, and a defaulted
//! one is zero when absent or null.

use vstd::prelude::*;

use crate::error::Field;
use crate::error::ParseError;
use crate::error::ParseErrorV;
use crate::json::lemma_json_arr_view;
use crate::json::lemma_json_obj_view;
use crate::json::JVal;
use crate::json::Json;
use crate::json::Member;
use crate::json::MemberV;
use crate::models::spec_network_of;
use crate::models::Epoch;
use crate::models::EpochIndex;
use crate::models::EpochIndexV;
use crate::models::EpochV;
use crate::models::Network;
use crate::models::Ping;
use crate::models::PingTime;
use crate::models::PingTimeV;
use crate::models::PingV;
use crate::models::ValidatorBlock;
use crate::models::ValidatorBlockV;
use crate::models::ValidatorDetail;
use crate::models::ValidatorDetailV;
use crate::num::spec_is_decimal;
use crate::num::spec_parse_i32;
use crate::num::spec_parse_u32;
use crate::num::spec_token_u64;
use crate::num::parse_i32_chars;
use crate::num::parse_u32_chars;
use crate::num::parse_u64_token;
use crate::num::Dec;
use crate::text::str_eq;
use crate::text::str_to_chars;

verus! {

/// The value of the first member with the given key, if any.
pub open spec fn spec_get(ms: Seq<MemberV>, key: Seq<char>) -> Option<JVal>
    decreases ms.len(),
{
    if ms.len() == 0 {
        None
    } else if ms[0].key == key {
        Some(ms[0].value)
    } else {
        spec_get(ms.drop_first(), key)
    }
}

/// Looks a key up in an object's members, first match first.
pub fn jobj_get<'a>(ms: &'a Vec<Member>, key: &str) -> (r: Option<&'a Json>)
    ensures
        match r {
            Some(j) => spec_get(ms.deep_view(), key@) == Some(j.deep_view()),
            None => spec_get(ms.deep_view(), key@) is None,
        },
{
    let mut i: usize = 0;
    proof {
        assert(ms.deep_view().skip(0) =~= ms.deep_view());
    }
    while i < ms.len()
        invariant
            i <= ms@.len(),
            spec_get(ms.deep_view(), key@) == spec_get(ms.deep_view().skip(i as int), key@),
        decreases ms@.len() - i,
    {
        let memb = &ms[i];
        proof {
            assert(ms.deep_view().skip(i as int)[0] == ms@[i as int].deep_view());
        }
        if str_eq(memb.key.as_str(), key) {
            return Some(&memb.value);
        }
        i = i + 1;
        proof {
            assert(ms.deep_view().skip(i as int - 1).drop_first() =~= ms.deep_view().skip(
                i as int,
            ));
        }
    }
    proof {
        assert(ms.deep_view().skip(i as int) =~= Seq::<MemberV>::empty());
    }
    None
}

/// A required string field.
pub open spec fn spec_req_str(o: Seq<MemberV>, key: Seq<char>, f: Field) -> Result<
    Seq<char>,
    ParseErrorV,
> {
    match spec_get(o, key) {
        Some(v) => match v {
            JVal::Str(s) => Ok(s),
            _ => Err(ParseErrorV { field: f, value: None }),
        },
        None => Err(ParseErrorV { field: f, value: None }),
    }
}

fn get_str_req(ms: &Vec<Member>, key: &str, f: Field) -> (r: Result<String, ParseError>)
    ensures
        match r {
            Ok(v) => spec_req_str(ms.deep_view(), key@, f) == Ok::<Seq<char>, ParseErrorV>(v@),
            Err(e) => spec_req_str(ms.deep_view(), key@, f) == Err::<Seq<char>, ParseErrorV>(
                e@,
            ),
        },
{
    match jobj_get(ms, key) {
        Some(j) => match j {
            Json::Str(s) => Ok(s.clone()),
            _ => Err(ParseError { field: f, value: None }),
        },
        None => Err(ParseError { field: f, value: None }),
    }
}

/// An optional string field: absent or null is `None`, never a failure.
pub open spec fn spec_opt_str(o: Seq<MemberV>, key: Seq<char>, f: Field) -> Result<
    Option<Seq<char>>,
    ParseErrorV,
> {
    match spec_get(o, key) {
        Some(v) => match v {
            JVal::Str(s) => Ok(Some(s)),
            JVal::Null => Ok(None),
            _ => Err(ParseErrorV { field: f, value: None }),
        },
        None => Ok(None),
    }
}

fn get_str_opt(ms: &Vec<Member>, key: &str, f: Field) -> (r: Result<Option<String>, ParseError>)
    ensures
        match r {
            Ok(v) => spec_opt_str(ms.deep_view(), key@, f) == Ok::<
                Option<Seq<char>>,
                ParseErrorV,
            >(v.deep_view()),
            Err(e) => spec_opt_str(ms.deep_view(), key@, f) == Err::<
                Option<Seq<char>>,
                ParseErrorV,
            >(e@),
        },
{
    match jobj_get(ms, key) {
        Some(j) => match j {
            Json::Str(s) => Ok(Some(s.clone())),
            Json::Null => Ok(None),
            _ => Err(ParseError { field: f, value: None }),
        },
        None => Ok(None),
    }
}

/// A required field holding an unsigned number token.
pub open spec fn spec_req_u64(o: Seq<MemberV>, key: Seq<char>, f: Field) -> Result<
    u64,
    ParseErrorV,
> {
    match spec_get(o, key) {
        Some(v) => match v {
            JVal::Num(t) => match spec_token_u64(t) {
                Some(n) => Ok(n),
                None => Err(ParseErrorV { field: f, value: Some(t) }),
            },
            _ => Err(ParseErrorV { field: f, value: None }),
        },
        None => Err(ParseErrorV { field: f, value: None }),
    }
}

fn get_u64_req(ms: &Vec<Member>, key: &str, f: Field) -> (r: Result<u64, ParseError>)
    ensures
        match r {
            Ok(v) => spec_req_u64(ms.deep_view(), key@, f) == Ok::<u64, ParseErrorV>(v),
            Err(e) => spec_req_u64(ms.deep_view(), key@, f) == Err::<u64, ParseErrorV>(e@),
        },
{
    match jobj_get(ms, key) {
        Some(j) => match j {
            Json::Num(t) => {
                let v = str_to_chars(t.as_str());
                match parse_u64_token(&v) {
                    Some(n) => Ok(n),
                    None => Err(ParseError { field: f, value: Some(t.clone()) }),
                }
            },
            _ => Err(ParseError { field: f, value: None }),
        },
        None => Err(ParseError { field: f, value: None }),
    }
}

/// An optional field holding an unsigned number token.
pub open spec fn spec_opt_u64(o: Seq<MemberV>, key: Seq<char>, f: Field) -> Result<
    Option<u64>,
    ParseErrorV,
> {
    match spec_get(o, key) {
        Some(v) => match v {
            JVal::Num(t) => match spec_token_u64(t) {
                Some(n) => Ok(Some(n)),
                None => Err(ParseErrorV { field: f, value: Some(t) }),
            },
            JVal::Null => Ok(None),
            _ => Err(ParseErrorV { field: f, value: None }),
        },
        None => Ok(None),
    }
}

fn get_u64_opt(ms: &Vec<Member>, key: &str, f: Field) -> (r: Result<Option<u64>, ParseError>)
    ensures
        match r {
            Ok(v) => spec_opt_u64(ms.deep_view(), key@, f) == Ok::<Option<u64>, ParseErrorV>(v),
            Err(e) => spec_opt_u64(ms.deep_view(), key@, f) == Err::<Option<u64>, ParseErrorV>(
                e@,
            ),
        },
{
    match jobj_get(ms, key) {
        Some(j) => match j {
            Json::Num(t) => {
                let v = str_to_chars(t.as_str());
                match parse_u64_token(&v) {
                    Some(n) => Ok(Some(n)),
                    None => Err(ParseError { field: f, value: Some(t.clone()) }),
                }
            },
            Json::Null => Ok(None),
            _ => Err(ParseError { field: f, value: None }),
        },
        None => Ok(None),
    }
}

/// A required field holding a signed number token.
pub open spec fn spec_req_i32(o: Seq<MemberV>, key: Seq<char>, f: Field) -> Result<
    i32,
    ParseErrorV,
> {
    match spec_get(o, key) {
        Some(v) => match v {
            JVal::Num(t) => match spec_parse_i32(t) {
                Some(n) => Ok(n),
                None => Err(ParseErrorV { field: f, value: Some(t) }),
            },
            _ => Err(ParseErrorV { field: f, value: None }),
        },
        None => Err(ParseErrorV { field: f, value: None }),
    }
}

fn get_i32_req(ms: &Vec<Member>, key: &str, f: Field) -> (r: Result<i32, ParseError>)
    ensures
        match r {
            Ok(v) => spec_req_i32(ms.deep_view(), key@, f) == Ok::<i32, ParseErrorV>(v),
            Err(e) => spec_req_i32(ms.deep_view(), key@, f) == Err::<i32, ParseErrorV>(e@),
        },
{
    match jobj_get(ms, key) {
        Some(j) => match j {
            Json::Num(t) => {
                let v = str_to_chars(t.as_str());
                match parse_i32_chars(&v) {
                    Some(n) => Ok(n),
                    None => Err(ParseError { field: f, value: Some(t.clone()) }),
                }
            },
            _ => Err(ParseError { field: f, value: None }),
        },
        None => Err(ParseError { field: f, value: None }),
    }
}

/// An optional field holding a signed number token.
pub open spec fn spec_opt_i32(o: Seq<MemberV>, key: Seq<char>, f: Field) -> Result<
    Option<i32>,
    ParseErrorV,
> {
    match spec_get(o, key) {
        Some(v) => match v {
            JVal::Num(t) => match spec_parse_i32(t) {
                Some(n) => Ok(Some(n)),
                None => Err(ParseErrorV { field: f, value: Some(t) }),
            },
            JVal::Null => Ok(None),
            _ => Err(ParseErrorV { field: f, value: None }),
        },
        None => Ok(None),
    }
}

fn get_i32_opt(ms: &Vec<Member>, key: &str, f: Field) -> (r: Result<Option<i32>, ParseError>)
    ensures
        match r {
            Ok(v) => spec_opt_i32(ms.deep_view(), key@, f) == Ok::<Option<i32>, ParseErrorV>(v),
            Err(e) => spec_opt_i32(ms.deep_view(), key@, f) == Err::<Option<i32>, ParseErrorV>(
                e@,
            ),
        },
{
    match jobj_get(ms, key) {
        Some(j) => match j {
            Json::Num(t) => {
                let v = str_to_chars(t.as_str());
                match parse_i32_chars(&v) {
                    Some(n) => Ok(Some(n)),
                    None => Err(ParseError { field: f, value: Some(t.clone()) }),
                }
            },
            Json::Null => Ok(None),
            _ => Err(ParseError { field: f, value: None }),
        },
        None => Ok(None),
    }
}

/// An optional field holding an unsigned number token that fits `u32`.
pub open spec fn spec_opt_u32(o: Seq<MemberV>, key: Seq<char>, f: Field) -> Result<
    Option<u32>,
    ParseErrorV,
> {
    match spec_get(o, key) {
        Some(v) => match v {
            JVal::Num(t) => match spec_parse_u32(t) {
                Some(n) => Ok(Some(n)),
                None => Err(ParseErrorV { field: f, value: Some(t) }),
            },
            JVal::Null => Ok(None),
            _ => Err(ParseErrorV { field: f, value: None }),
        },
        None => Ok(None),
    }
}

fn get_u32_opt(ms: &Vec<Member>, key: &str, f: Field) -> (r: Result<Option<u32>, ParseError>)
    ensures
        match r {
            Ok(v) => spec_opt_u32(ms.deep_view(), key@, f) == Ok::<Option<u32>, ParseErrorV>(v),
            Err(e) => spec_opt_u32(ms.deep_view(), key@, f) == Err::<Option<u32>, ParseErrorV>(
                e@,
            ),
        },
{
    match jobj_get(ms, key) {
        Some(j) => match j {
            Json::Num(t) => {
                let v = str_to_chars(t.as_str());
                match parse_u32_chars(&v) {
                    Some(n) => Ok(Some(n)),
                    None => Err(ParseError { field: f, value: Some(t.clone()) }),
                }
            },
            Json::Null => Ok(None),
            _ => Err(ParseError { field: f, value: None }),
        },
        None => Ok(None),
    }
}

/// A number field that is zero when absent or null.
pub open spec fn spec_u32_or_zero(o: Seq<MemberV>, key: Seq<char>, f: Field) -> Result<
    u32,
    ParseErrorV,
> {
    match spec_opt_u32(o, key, f) {
        Ok(v) => match v {
            Some(n) => Ok(n),
            None => Ok(0u32),
        },
        Err(e) => Err(e),
    }
}

fn get_u32_or_zero(ms: &Vec<Member>, key: &str, f: Field) -> (r: Result<u32, ParseError>)
    ensures
        match r {
            Ok(v) => spec_u32_or_zero(ms.deep_view(), key@, f) == Ok::<u32, ParseErrorV>(v),
            Err(e) => spec_u32_or_zero(ms.deep_view(), key@, f) == Err::<u32, ParseErrorV>(e@),
        },
{
    match get_u32_opt(ms, key, f) {
        Ok(Some(n)) => Ok(n),
        Ok(None) => Ok(0),
        Err(e) => Err(e),
    }
}

/// An optional boolean field.
pub open spec fn spec_opt_bool(o: Seq<MemberV>, key: Seq<char>, f: Field) -> Result<
    Option<bool>,
    ParseErrorV,
> {
    match spec_get(o, key) {
        Some(v) => match v {
            JVal::Bool(b) => Ok(Some(b)),
            JVal::Null => Ok(None),
            _ => Err(ParseErrorV { field: f, value: None }),
        },
        None => Ok(None),
    }
}

fn get_bool_opt(ms: &Vec<Member>, key: &str, f: Field) -> (r: Result<Option<bool>, ParseError>)
    ensures
        match r {
            Ok(v) => spec_opt_bool(ms.deep_view(), key@, f) == Ok::<Option<bool>, ParseErrorV>(
                v,
            ),
            Err(e) => spec_opt_bool(ms.deep_view(), key@, f) == Err::<
                Option<bool>,
                ParseErrorV,
            >(e@),
        },
{
    match jobj_get(ms, key) {
        Some(j) => match j {
            Json::Bool(b) => Ok(Some(*b)),
            Json::Null => Ok(None),
            _ => Err(ParseError { field: f, value: None }),
        },
        None => Ok(None),
    }
}

/// A required network field: the exact literal `mainnet` or `testnet`; any
/// other literal fails, naming what was received.
pub open spec fn spec_req_network(o: Seq<MemberV>, key: Seq<char>, f: Field) -> Result<
    Network,
    ParseErrorV,
> {
    match spec_get(o, key) {
        Some(v) => match v {
            JVal::Str(s) => match spec_network_of(s) {
                Some(n) => Ok(n),
                None => Err(ParseErrorV { field: f, value: Some(s) }),
            },
            _ => Err(ParseErrorV { field: f, value: None }),
        },
        None => Err(ParseErrorV { field: f, value: None }),
    }
}

fn get_network_req(ms: &Vec<Member>, key: &str, f: Field) -> (r: Result<Network, ParseError>)
    ensures
        match r {
            Ok(v) => spec_req_network(ms.deep_view(), key@, f) == Ok::<Network, ParseErrorV>(v),
            Err(e) => spec_req_network(ms.deep_view(), key@, f) == Err::<Network, ParseErrorV>(
                e@,
            ),
        },
{
    match jobj_get(ms, key) {
        Some(j) => match j {
            Json::Str(s) => {
                if str_eq(s.as_str(), "mainnet") {
                    Ok(Network::Main)
                } else if str_eq(s.as_str(), "testnet") {
                    Ok(Network::Test)
                } else {
                    Err(ParseError { field: f, value: Some(s.clone()) })
                }
            },
            _ => Err(ParseError { field: f, value: None }),
        },
        None => Err(ParseError { field: f, value: None }),
    }
}

/// An optional decimal field: a number token, or a string holding a
/// decimal; absent or null is `None`.
pub open spec fn spec_opt_dec(o: Seq<MemberV>, key: Seq<char>, f: Field) -> Result<
    Option<Seq<char>>,
    ParseErrorV,
> {
    match spec_get(o, key) {
        Some(v) => match v {
            JVal::Str(s) => if spec_is_decimal(s) {
                Ok(Some(s))
            } else {
                Err(ParseErrorV { field: f, value: Some(s) })
            },
            JVal::Num(t) => if spec_is_decimal(t) {
                Ok(Some(t))
            } else {
                Err(ParseErrorV { field: f, value: Some(t) })
            },
            JVal::Null => Ok(None),
            _ => Err(ParseErrorV { field: f, value: None }),
        },
        None => Ok(None),
    }
}

fn get_dec_opt(ms: &Vec<Member>, key: &str, f: Field) -> (r: Result<Option<Dec>, ParseError>)
    ensures
        match r {
            Ok(v) => spec_opt_dec(ms.deep_view(), key@, f) == Ok::<
                Option<Seq<char>>,
                ParseErrorV,
            >(v.deep_view()),
            Err(e) => spec_opt_dec(ms.deep_view(), key@, f) == Err::<
                Option<Seq<char>>,
                ParseErrorV,
            >(e@),
        },
{
    match jobj_get(ms, key) {
        Some(j) => match j {
            Json::Str(s) => match Dec::parse(s.as_str()) {
                Some(d) => Ok(Some(d)),
                None => Err(ParseError { field: f, value: Some(s.clone()) }),
            },
            Json::Num(t) => match Dec::parse(t.as_str()) {
                Some(d) => Ok(Some(d)),
                None => Err(ParseError { field: f, value: Some(t.clone()) }),
            },
            Json::Null => Ok(None),
            _ => Err(ParseError { field: f, value: None }),
        },
        None => Ok(None),
    }
}

/// A decimal field that is zero when absent or null.
pub open spec fn spec_dec_or_zero(o: Seq<MemberV>, key: Seq<char>, f: Field) -> Result<
    Seq<char>,
    ParseErrorV,
> {
    match spec_opt_dec(o, key, f) {
        Ok(v) => match v {
            Some(s) => Ok(s),
            None => Ok("0"@),
        },
        Err(e) => Err(e),
    }
}

fn get_dec_or_zero(ms: &Vec<Member>, key: &str, f: Field) -> (r: Result<Dec, ParseError>)
    ensures
        match r {
            Ok(v) => spec_dec_or_zero(ms.deep_view(), key@, f) == Ok::<Seq<char>, ParseErrorV>(
                v@,
            ),
            Err(e) => spec_dec_or_zero(ms.deep_view(), key@, f) == Err::<
                Seq<char>,
                ParseErrorV,
            >(e@),
        },
{
    match get_dec_opt(ms, key, f) {
        Ok(Some(d)) => Ok(d),
        Ok(None) => Ok(Dec::zero()),
        Err(e) => Err(e),
    }
}

/// Decoding a liveness probe reply: an object with a required string field
/// `answer`.
pub open spec fn spec_decode_ping(jv: JVal) -> Result<PingV, ParseErrorV> {
    if !(jv is Obj) {
        Err(ParseErrorV { field: Field::Body, value: None })
    } else {
        match spec_req_str(jv->Obj_0, "answer"@, Field::Answer) {
            Ok(s) => Ok(PingV { answer: s }),
            Err(e) => Err(e),
        }
    }
}

/// Decodes a liveness probe reply.
pub fn decode_ping(j: &Json) -> (r: Result<Ping, ParseError>)
    ensures
        match r {
            Ok(v) => spec_decode_ping(j.deep_view()) == Ok::<PingV, ParseErrorV>(v@),
            Err(e) => spec_decode_ping(j.deep_view()) == Err::<PingV, ParseErrorV>(e@),
        },
{
    match j {
        Json::Obj(ms) => {
            proof {
                lemma_json_obj_view(ms);
            }
            match get_str_req(ms, "answer", Field::Answer) {
                Ok(s) => Ok(Ping { answer: s }),
                Err(e) => Err(e),
            }
        },
        _ => Err(ParseError { field: Field::Body, value: None }),
    }
}

/// Decoding a network epoch descriptor.
pub open spec fn spec_decode_epoch(jv: JVal) -> Result<EpochV, ParseErrorV> {
    if !(jv is Obj) {
        Err(ParseErrorV { field: Field::Body, value: None })
    } else {
        let o = jv->Obj_0;
        let epoch = spec_req_u64(o, "epoch"@, Field::Epoch);
        let starting_slot = spec_req_u64(o, "starting_slot"@, Field::StartingSlot);
        let slots_in_epoch = spec_req_u64(o, "slots_in_epoch"@, Field::SlotsInEpoch);
        let network = spec_req_network(o, "network"@, Field::Network);
        let created_at = spec_opt_str(o, "created_at"@, Field::CreatedAt);
        if epoch is Err {
            Err(epoch->Err_0)
        } else if starting_slot is Err {
            Err(starting_slot->Err_0)
        } else if slots_in_epoch is Err {
            Err(slots_in_epoch->Err_0)
        } else if network is Err {
            Err(network->Err_0)
        } else if created_at is Err {
            Err(created_at->Err_0)
        } else {
            Ok(
                EpochV {
                    epoch: epoch->Ok_0,
                    starting_slot: starting_slot->Ok_0,
                    slots_in_epoch: slots_in_epoch->Ok_0,
                    network: network->Ok_0,
                    created_at: created_at->Ok_0,
                },
            )
        }
    }
}

/// Decodes a network epoch descriptor.
pub fn decode_epoch(j: &Json) -> (r: Result<Epoch, ParseError>)
    ensures
        match r {
            Ok(v) => spec_decode_epoch(j.deep_view()) == Ok::<EpochV, ParseErrorV>(v@),
            Err(e) => spec_decode_epoch(j.deep_view()) == Err::<EpochV, ParseErrorV>(e@),
        },
{
    match j {
        Json::Obj(ms) => {
            proof {
                lemma_json_obj_view(ms);
            }
            let epoch = match get_u64_req(ms, "epoch", Field::Epoch) {
                Ok(v) => v,
                Err(e) => {
                    return Err(e);
                },
            };
            let starting_slot = match get_u64_req(ms, "starting_slot", Field::StartingSlot) {
                Ok(v) => v,
                Err(e) => {
                    return Err(e);
                },
            };
            let slots_in_epoch = match get_u64_req(ms, "slots_in_epoch", Field::SlotsInEpoch) {
                Ok(v) => v,
                Err(e) => {
                    return Err(e);
                },
            };
            let network = match get_network_req(ms, "network", Field::Network) {
                Ok(v) => v,
                Err(e) => {
                    return Err(e);
                },
            };
            let created_at = match get_str_opt(ms, "created_at", Field::CreatedAt) {
                Ok(v) => v,
                Err(e) => {
                    return Err(e);
                },
            };
            Ok(Epoch { epoch, starting_slot, slots_in_epoch, network, created_at })
        },
        _ => Err(ParseError { field: Field::Body, value: None }),
    }
}

/// Decoding every element of an epoch array, in order; the first element
/// that does not decode fails the whole array with its own failure.
pub open spec fn spec_decode_epoch_seq(a: Seq<JVal>) -> Result<Seq<EpochV>, ParseErrorV>
    decreases a.len(),
{
    if a.len() == 0 {
        Ok(Seq::empty())
    } else {
        match spec_decode_epoch(a[0]) {
            Err(e) => Err(e),
            Ok(v) => match spec_decode_epoch_seq(a.drop_first()) {
                Err(e) => Err(e),
                Ok(rest) => Ok(seq![v] + rest),
            },
        }
    }
}

fn decode_epoch_vec(a: &Vec<Json>, i: usize) -> (r: Result<Vec<Epoch>, ParseError>)
    requires
        i <= a@.len(),
    ensures
        match r {
            Ok(v) => spec_decode_epoch_seq(a.deep_view().skip(i as int)) == Ok::<
                Seq<EpochV>,
                ParseErrorV,
            >(v.deep_view()),
            Err(e) => spec_decode_epoch_seq(a.deep_view().skip(i as int)) == Err::<
                Seq<EpochV>,
                ParseErrorV,
            >(e@),
        },
    decreases a@.len() - i,
{
    if i == a.len() {
        let v: Vec<Epoch> = Vec::new();
        proof {
            assert(a.deep_view().skip(i as int) =~= Seq::<JVal>::empty());
            assert(v.deep_view() =~= Seq::<EpochV>::empty());
        }
        Ok(v)
    } else {
        proof {
            assert(a.deep_view().skip(i as int)[0] == a@[i as int].deep_view());
        }
        match decode_epoch(&a[i]) {
            Err(e) => Err(e),
            Ok(v) => {
                proof {
                    assert(a.deep_view().skip(i as int).drop_first() =~= a.deep_view().skip(
                        i as int + 1,
                    ));
                }
                match decode_epoch_vec(a, i + 1) {
                    Err(e) => Err(e),
                    Ok(rest) => {
                        let mut rest = rest;
                        let ghost r0 = rest.deep_view();
                        rest.insert(0, v);
                        proof {
                            assert(rest.deep_view() =~= seq![v@] + r0);
                        }
                        Ok(rest)
                    },
                }
            },
        }
    }
}

/// Decoding a page of epochs: an object with an `epochs` array and a total
/// `epochs_count`.
pub open spec fn spec_decode_epoch_index(jv: JVal) -> Result<EpochIndexV, ParseErrorV> {
    if !(jv is Obj) {
        Err(ParseErrorV { field: Field::Body, value: None })
    } else {
        let o = jv->Obj_0;
        match spec_get(o, "epochs"@) {
            Some(av) => if av is Arr {
                match spec_decode_epoch_seq(av->Arr_0) {
                    Err(e) => Err(e),
                    Ok(es) => match spec_req_u64(o, "epochs_count"@, Field::EpochsCount) {
                        Err(e) => Err(e),
                        Ok(n) => Ok(EpochIndexV { epochs: es, epochs_count: n }),
                    },
                }
            } else {
                Err(ParseErrorV { field: Field::Epochs, value: None })
            },
            None => Err(ParseErrorV { field: Field::Epochs, value: None }),
        }
    }
}

/// Decodes a page of epochs with the service's total count.
pub fn decode_epoch_index(j: &Json) -> (r: Result<EpochIndex, ParseError>)
    ensures
        match r {
            Ok(v) => spec_decode_epoch_index(j.deep_view()) == Ok::<EpochIndexV, ParseErrorV>(
                v@,
            ),
            Err(e) => spec_decode_epoch_index(j.deep_view()) == Err::<EpochIndexV, ParseErrorV>(
                e@,
            ),
        },
{
    match j {
        Json::Obj(ms) => {
            proof {
                lemma_json_obj_view(ms);
            }
            match jobj_get(ms, "epochs") {
                Some(av) => match av {
                    Json::Arr(a) => {
                        proof {
                            lemma_json_arr_view(a);
                            assert(a.deep_view().skip(0) =~= a.deep_view());
                        }
                        match decode_epoch_vec(a, 0) {
                            Err(e) => Err(e),
                            Ok(es) => match get_u64_req(ms, "epochs_count", Field::EpochsCount) {
                                Err(e) => Err(e),
                                Ok(n) => Ok(EpochIndex { epochs: es, epochs_count: n }),
                            },
                        }
                    },
                    _ => Err(ParseError { field: Field::Epochs, value: None }),
                },
                None => Err(ParseError { field: Field::Epochs, value: None }),
            }
        },
        _ => Err(ParseError { field: Field::Body, value: None }),
    }
}


/// Decoding a latency sample. The four latency figures tolerate absence and
/// arrive as text or as numbers; the three timestamps tolerate absence.
pub open spec fn spec_decode_ping_time(jv: JVal) -> Result<PingTimeV, ParseErrorV> {
    if !(jv is Obj) {
        Err(ParseErrorV { field: Field::Body, value: None })
    } else {
        let o = jv->Obj_0;
        let id = spec_req_u64(o, "id"@, Field::Id);
        let batch_uuid = spec_req_str(o, "batch_uuid"@, Field::BatchUuid);
        let network = spec_req_network(o, "network"@, Field::Network);
        let from_account = spec_req_str(o, "from_account"@, Field::FromAccount);
        let from_ip = spec_req_str(o, "from_ip"@, Field::FromIp);
        let to_account = spec_req_str(o, "to_account"@, Field::ToAccount);
        let to_ip = spec_req_str(o, "to_ip"@, Field::ToIp);
        let min_ms = spec_opt_dec(o, "min_ms"@, Field::MinMs);
        let avg_ms = spec_opt_dec(o, "avg_ms"@, Field::AvgMs);
        let max_ms = spec_opt_dec(o, "max_ms"@, Field::MaxMs);
        let mdev = spec_opt_dec(o, "mdev"@, Field::Mdev);
        let observed_at = spec_opt_str(o, "observed_at"@, Field::ObservedAt);
        let created_at = spec_opt_str(o, "created_at"@, Field::CreatedAt);
        let updated_at = spec_opt_str(o, "updated_at"@, Field::UpdatedAt);
        if id is Err {
            Err(id->Err_0)
        } else if batch_uuid is Err {
            Err(batch_uuid->Err_0)
        } else if network is Err {
            Err(network->Err_0)
        } else if from_account is Err {
            Err(from_account->Err_0)
        } else if from_ip is Err {
            Err(from_ip->Err_0)
        } else if to_account is Err {
            Err(to_account->Err_0)
        } else if to_ip is Err {
            Err(to_ip->Err_0)
        } else if min_ms is Err {
            Err(min_ms->Err_0)
        } else if avg_ms is Err {
            Err(avg_ms->Err_0)
        } else if max_ms is Err {
            Err(max_ms->Err_0)
        } else if mdev is Err {
            Err(mdev->Err_0)
        } else if observed_at is Err {
            Err(observed_at->Err_0)
        } else if created_at is Err {
            Err(created_at->Err_0)
        } else if updated_at is Err {
            Err(updated_at->Err_0)
        } else {
            Ok(
                PingTimeV {
                    id: id->Ok_0,
                    batch_uuid: batch_uuid->Ok_0,
                    network: network->Ok_0,
                    from_account: from_account->Ok_0,
                    from_ip: from_ip->Ok_0,
                    to_account: to_account->Ok_0,
                    to_ip: to_ip->Ok_0,
                    min_ms: min_ms->Ok_0,
                    avg_ms: avg_ms->Ok_0,
                    max_ms: max_ms->Ok_0,
                    mdev: mdev->Ok_0,
                    observed_at: observed_at->Ok_0,
                    created_at: created_at->Ok_0,
                    updated_at: updated_at->Ok_0,
                },
            )
        }
    }
}

/// Decodes a latency sample.
pub fn decode_ping_time(j: &Json) -> (r: Result<PingTime, ParseError>)
    ensures
        match r {
            Ok(v) => spec_decode_ping_time(j.deep_view()) == Ok::<PingTimeV, ParseErrorV>(v@),
            Err(e) => spec_decode_ping_time(j.deep_view()) == Err::<PingTimeV, ParseErrorV>(e@),
        },
{
    match j {
        Json::Obj(ms) => {
            proof {
                lemma_json_obj_view(ms);
            }
            let id = match get_u64_req(ms, "id", Field::Id) {
                Ok(v) => v,
                Err(e) => {
                    return Err(e);
                },
            };
            let batch_uuid = match get_str_req(ms, "batch_uuid", Field::BatchUuid) {
                Ok(v) => v,
                Err(e) => {
                    return Err(e);
                },
            };
            let network = match get_network_req(ms, "network", Field::Network) {
                Ok(v) => v,
                Err(e) => {
                    return Err(e);
                },
            };
            let from_account = match get_str_req(ms, "from_account", Field::FromAccount) {
                Ok(v) => v,
                Err(e) => {
                    return Err(e);
                },
            };
            let from_ip = match get_str_req(ms, "from_ip", Field::FromIp) {
                Ok(v) => v,
                Err(e) => {
                    return Err(e);
                },
            };
            let to_account = match get_str_req(ms, "to_account", Field::ToAccount) {
                Ok(v) => v,
                Err(e) => {
                    return Err(e);
                },
            };
            let to_ip = match get_str_req(ms, "to_ip", Field::ToIp) {
                Ok(v) => v,
                Err(e) => {
                    return Err(e);
                },
            };
            let min_ms = match get_dec_opt(ms, "min_ms", Field::MinMs) {
                Ok(v) => v,
                Err(e) => {
                    return Err(e);
                },
            };
            let avg_ms = match get_dec_opt(ms, "avg_ms", Field::AvgMs) {
                Ok(v) => v,
                Err(e) => {
                    return Err(e);
                },
            };
            let max_ms = match get_dec_opt(ms, "max_ms", Field::MaxMs) {
                Ok(v) => v,
                Err(e) => {
                    return Err(e);
                },
            };
            let mdev = match get_dec_opt(ms, "mdev", Field::Mdev) {
                Ok(v) => v,
                Err(e) => {
                    return Err(e);
                },
            };
            let observed_at = match get_str_opt(ms, "observed_at", Field::ObservedAt) {
                Ok(v) => v,
                Err(e) => {
                    return Err(e);
                },
            };
            let created_at = match get_str_opt(ms, "created_at", Field::CreatedAt) {
                Ok(v) => v,
                Err(e) => {
                    return Err(e);
                },
            };
            let updated_at = match get_str_opt(ms, "updated_at", Field::UpdatedAt) {
                Ok(v) => v,
                Err(e) => {
                    return Err(e);
                },
            };
            Ok(
                PingTime {
                    id,
                    batch_uuid,
                    network,
                    from_account,
                    from_ip,
                    to_account,
                    to_ip,
                    min_ms,
                    avg_ms,
                    max_ms,
                    mdev,
                    observed_at,
                    created_at,
                    updated_at,
                },
            )
        },
        _ => Err(ParseError { field: Field::Body, value: None }),
    }
}

/// Decoding every element of a latency-sample array, in order.
pub open spec fn spec_decode_ping_time_seq(a: Seq<JVal>) -> Result<Seq<PingTimeV>, ParseErrorV>
    decreases a.len(),
{
    if a.len() == 0 {
        Ok(Seq::empty())
    } else {
        match spec_decode_ping_time(a[0]) {
            Err(e) => Err(e),
            Ok(v) => match spec_decode_ping_time_seq(a.drop_first()) {
                Err(e) => Err(e),
                Ok(rest) => Ok(seq![v] + rest),
            },
        }
    }
}

fn decode_ping_time_vec(a: &Vec<Json>, i: usize) -> (r: Result<Vec<PingTime>, ParseError>)
    requires
        i <= a@.len(),
    ensures
        match r {
            Ok(v) => spec_decode_ping_time_seq(a.deep_view().skip(i as int)) == Ok::<
                Seq<PingTimeV>,
                ParseErrorV,
            >(v.deep_view()),
            Err(e) => spec_decode_ping_time_seq(a.deep_view().skip(i as int)) == Err::<
                Seq<PingTimeV>,
                ParseErrorV,
            >(e@),
        },
    decreases a@.len() - i,
{
    if i == a.len() {
        let v: Vec<PingTime> = Vec::new();
        proof {
            assert(a.deep_view().skip(i as int) =~= Seq::<JVal>::empty());
            assert(v.deep_view() =~= Seq::<PingTimeV>::empty());
        }
        Ok(v)
    } else {
        proof {
            assert(a.deep_view().skip(i as int)[0] == a@[i as int].deep_view());
        }
        match decode_ping_time(&a[i]) {
            Err(e) => Err(e),
            Ok(v) => {
                proof {
                    assert(a.deep_view().skip(i as int).drop_first() =~= a.deep_view().skip(
                        i as int + 1,
                    ));
                }
                match decode_ping_time_vec(a, i + 1) {
                    Err(e) => Err(e),
                    Ok(rest) => {
                        let mut rest = rest;
                        let ghost r0 = rest.deep_view();
                        rest.insert(0, v);
                        proof {
                            assert(rest.deep_view() =~= seq![v@] + r0);
                        }
                        Ok(rest)
                    },
                }
            },
        }
    }
}

/// Decoding a whole latency-sample response: a JSON array of samples.
pub open spec fn spec_decode_ping_times(jv: JVal) -> Result<Seq<PingTimeV>, ParseErrorV> {
    if jv is Arr {
        spec_decode_ping_time_seq(jv->Arr_0)
    } else {
        Err(ParseErrorV { field: Field::Body, value: None })
    }
}

/// Decodes a latency-sample response body: an array of samples.
pub fn decode_ping_times(j: &Json) -> (r: Result<Vec<PingTime>, ParseError>)
    ensures
        match r {
            Ok(v) => spec_decode_ping_times(j.deep_view()) == Ok::<Seq<PingTimeV>, ParseErrorV>(
                v.deep_view(),
            ),
            Err(e) => spec_decode_ping_times(j.deep_view()) == Err::<
                Seq<PingTimeV>,
                ParseErrorV,
            >(e@),
        },
{
    match j {
        Json::Arr(a) => {
            proof {
                lemma_json_arr_view(a);
                assert(a.deep_view().skip(0) =~= a.deep_view());
            }
            decode_ping_time_vec(a, 0)
        },
        _ => Err(ParseError { field: Field::Body, value: None }),
    }
}

/// Decoding one epoch's block-production record.
pub open spec fn spec_decode_validator_block(jv: JVal) -> Result<ValidatorBlockV, ParseErrorV> {
    if !(jv is Obj) {
        Err(ParseErrorV { field: Field::Body, value: None })
    } else {
        let o = jv->Obj_0;
        let epoch = spec_req_u64(o, "epoch"@, Field::Epoch);
        let leader_slots = spec_req_u64(o, "leader_slots"@, Field::LeaderSlots);
        let blocks_produced = spec_req_u64(o, "blocks_produced"@, Field::BlocksProduced);
        let skipped_slots = spec_req_u64(o, "skipped_slots"@, Field::SkippedSlots);
        let skipped_slot_percent = spec_dec_or_zero(
            o,
            "skipped_slot_percent"@,
            Field::SkippedSlotPercent,
        );
        let created_at = spec_opt_str(o, "created_at"@, Field::CreatedAt);
        let batch_uuid = spec_req_str(o, "batch_uuid"@, Field::BatchUuid);
        if epoch is Err {
            Err(epoch->Err_0)
        } else if leader_slots is Err {
            Err(leader_slots->Err_0)
        } else if blocks_produced is Err {
            Err(blocks_produced->Err_0)
        } else if skipped_slots is Err {
            Err(skipped_slots->Err_0)
        } else if skipped_slot_percent is Err {
            Err(skipped_slot_percent->Err_0)
        } else if created_at is Err {
            Err(created_at->Err_0)
        } else if batch_uuid is Err {
            Err(batch_uuid->Err_0)
        } else {
            Ok(
                ValidatorBlockV {
                    epoch: epoch->Ok_0,
                    leader_slots: leader_slots->Ok_0,
                    blocks_produced: blocks_produced->Ok_0,
                    skipped_slots: skipped_slots->Ok_0,
                    skipped_slot_percent: skipped_slot_percent->Ok_0,
                    created_at: created_at->Ok_0,
                    batch_uuid: batch_uuid->Ok_0,
                },
            )
        }
    }
}

/// Decodes one epoch's block-production record.
pub fn decode_validator_block(j: &Json) -> (r: Result<ValidatorBlock, ParseError>)
    ensures
        match r {
            Ok(v) => spec_decode_validator_block(j.deep_view()) == Ok::<
                ValidatorBlockV,
                ParseErrorV,
            >(v@),
            Err(e) => spec_decode_validator_block(j.deep_view()) == Err::<
                ValidatorBlockV,
                ParseErrorV,
            >(e@),
        },
{
    match j {
        Json::Obj(ms) => {
            proof {
                lemma_json_obj_view(ms);
            }
            let epoch = match get_u64_req(ms, "epoch", Field::Epoch) {
                Ok(v) => v,
                Err(e) => {
                    return Err(e);
                },
            };
            let leader_slots = match get_u64_req(ms, "leader_slots", Field::LeaderSlots) {
                Ok(v) => v,
                Err(e) => {
                    return Err(e);
                },
            };
            let blocks_produced = match get_u64_req(ms, "blocks_produced", Field::BlocksProduced) {
                Ok(v) => v,
                Err(e) => {
                    return Err(e);
                },
            };
            let skipped_slots = match get_u64_req(ms, "skipped_slots", Field::SkippedSlots) {
                Ok(v) => v,
                Err(e) => {
                    return Err(e);
                },
            };
            let skipped_slot_percent = match get_dec_or_zero(
                ms,
                "skipped_slot_percent",
                Field::SkippedSlotPercent,
            ) {
                Ok(v) => v,
                Err(e) => {
                    return Err(e);
                },
            };
            let created_at = match get_str_opt(ms, "created_at", Field::CreatedAt) {
                Ok(v) => v,
                Err(e) => {
                    return Err(e);
                },
            };
            let batch_uuid = match get_str_req(ms, "batch_uuid", Field::BatchUuid) {
                Ok(v) => v,
                Err(e) => {
                    return Err(e);
                },
            };
            Ok(
                ValidatorBlock {
                    epoch,
                    leader_slots,
                    blocks_produced,
                    skipped_slots,
                    skipped_slot_percent,
                    created_at,
                    batch_uuid,
                },
            )
        },
        _ => Err(ParseError { field: Field::Body, value: None }),
    }
}

/// Decoding every element of a block-history array, in order.
pub open spec fn spec_decode_validator_block_seq(a: Seq<JVal>) -> Result<
    Seq<ValidatorBlockV>,
    ParseErrorV,
>
    decreases a.len(),
{
    if a.len() == 0 {
        Ok(Seq::empty())
    } else {
        match spec_decode_validator_block(a[0]) {
            Err(e) => Err(e),
            Ok(v) => match spec_decode_validator_block_seq(a.drop_first()) {
                Err(e) => Err(e),
                Ok(rest) => Ok(seq![v] + rest),
            },
        }
    }
}

fn decode_validator_block_vec(a: &Vec<Json>, i: usize) -> (r: Result<
    Vec<ValidatorBlock>,
    ParseError,
>)
    requires
        i <= a@.len(),
    ensures
        match r {
            Ok(v) => spec_decode_validator_block_seq(a.deep_view().skip(i as int)) == Ok::<
                Seq<ValidatorBlockV>,
                ParseErrorV,
            >(v.deep_view()),
            Err(e) => spec_decode_validator_block_seq(a.deep_view().skip(i as int)) == Err::<
                Seq<ValidatorBlockV>,
                ParseErrorV,
            >(e@),
        },
    decreases a@.len() - i,
{
    if i == a.len() {
        let v: Vec<ValidatorBlock> = Vec::new();
        proof {
            assert(a.deep_view().skip(i as int) =~= Seq::<JVal>::empty());
            assert(v.deep_view() =~= Seq::<ValidatorBlockV>::empty());
        }
        Ok(v)
    } else {
        proof {
            assert(a.deep_view().skip(i as int)[0] == a@[i as int].deep_view());
        }
        match decode_validator_block(&a[i]) {
            Err(e) => Err(e),
            Ok(v) => {
                proof {
                    assert(a.deep_view().skip(i as int).drop_first() =~= a.deep_view().skip(
                        i as int + 1,
                    ));
                }
                match decode_validator_block_vec(a, i + 1) {
                    Err(e) => Err(e),
                    Ok(rest) => {
                        let mut rest = rest;
                        let ghost r0 = rest.deep_view();
                        rest.insert(0, v);
                        proof {
                            assert(rest.deep_view() =~= seq![v@] + r0);
                        }
                        Ok(rest)
                    },
                }
            },
        }
    }
}

/// Decoding a whole block-history response: a JSON array of records.
pub open spec fn spec_decode_validator_block_history(jv: JVal) -> Result<
    Seq<ValidatorBlockV>,
    ParseErrorV,
> {
    if jv is Arr {
        spec_decode_validator_block_seq(jv->Arr_0)
    } else {
        Err(ParseErrorV { field: Field::Body, value: None })
    }
}

/// Decodes a block-history response body: an array of records.
pub fn decode_validator_block_history(j: &Json) -> (r: Result<Vec<ValidatorBlock>, ParseError>)
    ensures
        match r {
            Ok(v) => spec_decode_validator_block_history(j.deep_view()) == Ok::<
                Seq<ValidatorBlockV>,
                ParseErrorV,
            >(v.deep_view()),
            Err(e) => spec_decode_validator_block_history(j.deep_view()) == Err::<
                Seq<ValidatorBlockV>,
                ParseErrorV,
            >(e@),
        },
{
    match j {
        Json::Arr(a) => {
            proof {
                lemma_json_arr_view(a);
                assert(a.deep_view().skip(0) =~= a.deep_view());
            }
            decode_validator_block_vec(a, 0)
        },
        _ => Err(ParseError { field: Field::Body, value: None }),
    }
}



/// Decoding a validator's scoring snapshot. Most fields are optional or
/// nullable; the autonomous-system number is zero when absent, and the
/// skipped-slot percent arrives as text and is zero when absent.
pub open spec fn spec_decode_validator_detail(jv: JVal) -> Result<ValidatorDetailV, ParseErrorV> {
    if !(jv is Obj) {
        Err(ParseErrorV { field: Field::Body, value: None })
    } else {
        let o = jv->Obj_0;
        let network = spec_req_network(o, "network"@, Field::Network);
        let account = spec_req_str(o, "account"@, Field::Account);
        let name = spec_opt_str(o, "name"@, Field::Name);
        let keybase_id = spec_opt_str(o, "keybase_id"@, Field::KeybaseId);
        let www_url = spec_opt_str(o, "www_url"@, Field::WwwUrl);
        let details = spec_opt_str(o, "details"@, Field::Details);
        let created_at = spec_opt_str(o, "created_at"@, Field::CreatedAt);
        let updated_at = spec_opt_str(o, "updated_at"@, Field::UpdatedAt);
        let total_score = spec_req_i32(o, "total_score"@, Field::TotalScore);
        let root_distance_score = spec_req_i32(o, "root_distance_score"@, Field::RootDistanceScore);
        let vote_distance_score = spec_req_i32(o, "vote_distance_score"@, Field::VoteDistanceScore);
        let skipped_slot_score = spec_req_i32(o, "skipped_slot_score"@, Field::SkippedSlotScore);
        let software_version = spec_opt_str(o, "software_version"@, Field::SoftwareVersion);
        let software_version_score = spec_req_i32(
            o,
            "software_version_score"@,
            Field::SoftwareVersionScore,
        );
        let stake_concentration_score = spec_opt_i32(
            o,
            "stake_concentration_score"@,
            Field::StakeConcentrationScore,
        );
        let data_center_concentration_score = spec_opt_i32(
            o,
            "data_center_concentration_score"@,
            Field::DataCenterConcentrationScore,
        );
        let published_information_score = spec_req_i32(
            o,
            "published_information_score"@,
            Field::PublishedInformationScore,
        );
        let security_report_score = spec_req_i32(
            o,
            "security_report_score"@,
            Field::SecurityReportScore,
        );
        let active_stake = spec_opt_u64(o, "active_stake"@, Field::ActiveStake);
        let commission = spec_opt_u32(o, "commission"@, Field::Commission);
        let delinquent = spec_opt_bool(o, "delinquent"@, Field::Delinquent);
        let data_center_key = spec_opt_str(o, "data_center_key"@, Field::DataCenterKey);
        let data_center_host = spec_opt_str(o, "data_center_host"@, Field::DataCenterHost);
        let autonomous_system_number = spec_u32_or_zero(
            o,
            "autonomous_system_number"@,
            Field::AutonomousSystemNumber,
        );
        let vote_account = spec_opt_str(o, "vote_account"@, Field::VoteAccount);
        let skipped_slots = spec_opt_u64(o, "skipped_slots"@, Field::SkippedSlots);
        let skipped_slot_percent = spec_dec_or_zero(
            o,
            "skipped_slot_percent"@,
            Field::SkippedSlotPercent,
        );
        let ping_time = spec_opt_str(o, "ping_time"@, Field::PingTimeField);
        let url = spec_req_str(o, "url"@, Field::Url);
        if network is Err {
            Err(network->Err_0)
        } else if account is Err {
            Err(account->Err_0)
        } else if name is Err {
            Err(name->Err_0)
        } else if keybase_id is Err {
            Err(keybase_id->Err_0)
        } else if www_url is Err {
            Err(www_url->Err_0)
        } else if details is Err {
            Err(details->Err_0)
        } else if created_at is Err {
            Err(created_at->Err_0)
        } else if updated_at is Err {
            Err(updated_at->Err_0)
        } else if total_score is Err {
            Err(total_score->Err_0)
        } else if root_distance_score is Err {
            Err(root_distance_score->Err_0)
        } else if vote_distance_score is Err {
            Err(vote_distance_score->Err_0)
        } else if skipped_slot_score is Err {
            Err(skipped_slot_score->Err_0)
        } else if software_version is Err {
            Err(software_version->Err_0)
        } else if software_version_score is Err {
            Err(software_version_score->Err_0)
        } else if stake_concentration_score is Err {
            Err(stake_concentration_score->Err_0)
        } else if data_center_concentration_score is Err {
            Err(data_center_concentration_score->Err_0)
        } else if published_information_score is Err {
            Err(published_information_score->Err_0)
        } else if security_report_score is Err {
            Err(security_report_score->Err_0)
        } else if active_stake is Err {
            Err(active_stake->Err_0)
        } else if commission is Err {
            Err(commission->Err_0)
        } else if delinquent is Err {
            Err(delinquent->Err_0)
        } else if data_center_key is Err {
            Err(data_center_key->Err_0)
        } else if data_center_host is Err {
            Err(data_center_host->Err_0)
        } else if autonomous_system_number is Err {
            Err(autonomous_system_number->Err_0)
        } else if vote_account is Err {
            Err(vote_account->Err_0)
        } else if skipped_slots is Err {
            Err(skipped_slots->Err_0)
        } else if skipped_slot_percent is Err {
            Err(skipped_slot_percent->Err_0)
        } else if ping_time is Err {
            Err(ping_time->Err_0)
        } else if url is Err {
            Err(url->Err_0)
        } else {
            Ok(
                ValidatorDetailV {
                    network: network->Ok_0,
                    account: account->Ok_0,
                    name: name->Ok_0,
                    keybase_id: keybase_id->Ok_0,
                    www_url: www_url->Ok_0,
                    details: details->Ok_0,
                    created_at: created_at->Ok_0,
                    updated_at: updated_at->Ok_0,
                    total_score: total_score->Ok_0,
                    root_distance_score: root_distance_score->Ok_0,
                    vote_distance_score: vote_distance_score->Ok_0,
                    skipped_slot_score: skipped_slot_score->Ok_0,
                    software_version: software_version->Ok_0,
                    software_version_score: software_version_score->Ok_0,
                    stake_concentration_score: stake_concentration_score->Ok_0,
                    data_center_concentration_score: data_center_concentration_score->Ok_0,
                    published_information_score: published_information_score->Ok_0,
                    security_report_score: security_report_score->Ok_0,
                    active_stake: active_stake->Ok_0,
                    commission: commission->Ok_0,
                    delinquent: delinquent->Ok_0,
                    data_center_key: data_center_key->Ok_0,
                    data_center_host: data_center_host->Ok_0,
                    autonomous_system_number: autonomous_system_number->Ok_0,
                    vote_account: vote_account->Ok_0,
                    skipped_slots: skipped_slots->Ok_0,
                    skipped_slot_percent: skipped_slot_percent->Ok_0,
                    ping_time: ping_time->Ok_0,
                    url: url->Ok_0,
                },
            )
        }
    }
}

/// Decodes a validator's scoring snapshot.
#[verifier::rlimit(60)]
pub fn decode_validator_detail(j: &Json) -> (r: Result<ValidatorDetail, ParseError>)
    ensures
        match r {
            Ok(v) => spec_decode_validator_detail(j.deep_view()) == Ok::<
                ValidatorDetailV,
                ParseErrorV,
            >(v@),
            Err(e) => spec_decode_validator_detail(j.deep_view()) == Err::<
                ValidatorDetailV,
                ParseErrorV,
            >(e@),
        },
{
    match j {
        Json::Obj(ms) => {
            proof {
                lemma_json_obj_view(ms);
            }
            let network = match get_network_req(ms, "network", Field::Network) {
                Ok(v) => v,
                Err(e) => {
                    return Err(e);
                },
            };
            let account = match get_str_req(ms, "account", Field::Account) {
                Ok(v) => v,
                Err(e) => {
                    return Err(e);
                },
            };
            let name = match get_str_opt(ms, "name", Field::Name) {
                Ok(v) => v,
                Err(e) => {
                    return Err(e);
                },
            };
            let keybase_id = match get_str_opt(ms, "keybase_id", Field::KeybaseId) {
                Ok(v) => v,
                Err(e) => {
                    return Err(e);
                },
            };
            let www_url = match get_str_opt(ms, "www_url", Field::WwwUrl) {
                Ok(v) => v,
                Err(e) => {
                    return Err(e);
                },
            };
            let details = match get_str_opt(ms, "details", Field::Details) {
                Ok(v) => v,
                Err(e) => {
                    return Err(e);
                },
            };
            let created_at = match get_str_opt(ms, "created_at", Field::CreatedAt) {
                Ok(v) => v,
                Err(e) => {
                    return Err(e);
                },
            };
            let updated_at = match get_str_opt(ms, "updated_at", Field::UpdatedAt) {
                Ok(v) => v,
                Err(e) => {
                    return Err(e);
                },
            };
            let total_score = match get_i32_req(ms, "total_score", Field::TotalScore) {
                Ok(v) => v,
                Err(e) => {
                    return Err(e);
                },
            };
            let root_distance_score = match get_i32_req(
                ms,
                "root_distance_score",
                Field::RootDistanceScore,
            ) {
                Ok(v) => v,
                Err(e) => {
                    return Err(e);
                },
            };
            let vote_distance_score = match get_i32_req(
                ms,
                "vote_distance_score",
                Field::VoteDistanceScore,
            ) {
                Ok(v) => v,
                Err(e) => {
                    return Err(e);
                },
            };
            let skipped_slot_score = match get_i32_req(
                ms,
                "skipped_slot_score",
                Field::SkippedSlotScore,
            ) {
                Ok(v) => v,
                Err(e) => {
                    return Err(e);
                },
            };
            let software_version = match get_str_opt(
                ms,
                "software_version",
                Field::SoftwareVersion,
            ) {
                Ok(v) => v,
                Err(e) => {
                    return Err(e);
                },
            };
            let software_version_score = match get_i32_req(
                ms,
                "software_version_score",
                Field::SoftwareVersionScore,
            ) {
                Ok(v) => v,
                Err(e) => {
                    return Err(e);
                },
            };
            let stake_concentration_score = match get_i32_opt(
                ms,
                "stake_concentration_score",
                Field::StakeConcentrationScore,
            ) {
                Ok(v) => v,
                Err(e) => {
                    return Err(e);
                },
            };
            let data_center_concentration_score = match get_i32_opt(
                ms,
                "data_center_concentration_score",
                Field::DataCenterConcentrationScore,
            ) {
                Ok(v) => v,
                Err(e) => {
                    return Err(e);
                },
            };
            let published_information_score = match get_i32_req(
                ms,
                "published_information_score",
                Field::PublishedInformationScore,
            ) {
                Ok(v) => v,
                Err(e) => {
                    return Err(e);
                },
            };
            let security_report_score = match get_i32_req(
                ms,
                "security_report_score",
                Field::SecurityReportScore,
            ) {
                Ok(v) => v,
                Err(e) => {
                    return Err(e);
                },
            };
            let active_stake = match get_u64_opt(ms, "active_stake", Field::ActiveStake) {
                Ok(v) => v,
                Err(e) => {
                    return Err(e);
                },
            };
            let commission = match get_u32_opt(ms, "commission", Field::Commission) {
                Ok(v) => v,
                Err(e) => {
                    return Err(e);
                },
            };
            let delinquent = match get_bool_opt(ms, "delinquent", Field::Delinquent) {
                Ok(v) => v,
                Err(e) => {
                    return Err(e);
                },
            };
            let data_center_key = match get_str_opt(ms, "data_center_key", Field::DataCenterKey) {
                Ok(v) => v,
                Err(e) => {
                    return Err(e);
                },
            };
            let data_center_host = match get_str_opt(
                ms,
                "data_center_host",
                Field::DataCenterHost,
            ) {
                Ok(v) => v,
                Err(e) => {
                    return Err(e);
                },
            };
            let autonomous_system_number = match get_u32_or_zero(
                ms,
                "autonomous_system_number",
                Field::AutonomousSystemNumber,
            ) {
                Ok(v) => v,
                Err(e) => {
                    return Err(e);
                },
            };
            let vote_account = match get_str_opt(ms, "vote_account", Field::VoteAccount) {
                Ok(v) => v,
                Err(e) => {
                    return Err(e);
                },
            };
            let skipped_slots = match get_u64_opt(ms, "skipped_slots", Field::SkippedSlots) {
                Ok(v) => v,
                Err(e) => {
                    return Err(e);
                },
            };
            let skipped_slot_percent = match get_dec_or_zero(
                ms,
                "skipped_slot_percent",
                Field::SkippedSlotPercent,
            ) {
                Ok(v) => v,
                Err(e) => {
                    return Err(e);
                },
            };
            let ping_time = match get_str_opt(ms, "ping_time", Field::PingTimeField) {
                Ok(v) => v,
                Err(e) => {
                    return Err(e);
                },
            };
            let url = match get_str_req(ms, "url", Field::Url) {
                Ok(v) => v,
                Err(e) => {
                    return Err(e);
                },
            };
            Ok(
                ValidatorDetail {
                    network,
                    account,
                    name,
                    keybase_id,
                    www_url,
                    details,
                    created_at,
                    updated_at,
                    total_score,
                    root_distance_score,
                    vote_distance_score,
                    skipped_slot_score,
                    software_version,
                    software_version_score,
                    stake_concentration_score,
                    data_center_concentration_score,
                    published_information_score,
                    security_report_score,
                    active_stake,
                    commission,
                    delinquent,
                    data_center_key,
                    data_center_host,
                    autonomous_system_number,
                    vote_account,
                    skipped_slots,
                    skipped_slot_percent,
                    ping_time,
                    url,
                },
            )
        },
        _ => Err(ParseError { field: Field::Body, value: None }),
    }
}

/// Decoding every element of a validator listing, in order.
pub open spec fn spec_decode_validator_seq(a: Seq<JVal>) -> Result<
    Seq<ValidatorDetailV>,
    ParseErrorV,
>
    decreases a.len(),
{
    if a.len() == 0 {
        Ok(Seq::empty())
    } else {
        match spec_decode_validator_detail(a[0]) {
            Err(e) => Err(e),
            Ok(v) => match spec_decode_validator_seq(a.drop_first()) {
                Err(e) => Err(e),
                Ok(rest) => Ok(seq![v] + rest),
            },
        }
    }
}

fn decode_validator_vec(a: &Vec<Json>, i: usize) -> (r: Result<Vec<ValidatorDetail>, ParseError>)
    requires
        i <= a@.len(),
    ensures
        match r {
            Ok(v) => spec_decode_validator_seq(a.deep_view().skip(i as int)) == Ok::<
                Seq<ValidatorDetailV>,
                ParseErrorV,
            >(v.deep_view()),
            Err(e) => spec_decode_validator_seq(a.deep_view().skip(i as int)) == Err::<
                Seq<ValidatorDetailV>,
                ParseErrorV,
            >(e@),
        },
    decreases a@.len() - i,
{
    if i == a.len() {
        let v: Vec<ValidatorDetail> = Vec::new();
        proof {
            assert(a.deep_view().skip(i as int) =~= Seq::<JVal>::empty());
            assert(v.deep_view() =~= Seq::<ValidatorDetailV>::empty());
        }
        Ok(v)
    } else {
        proof {
            assert(a.deep_view().skip(i as int)[0] == a@[i as int].deep_view());
        }
        match decode_validator_detail(&a[i]) {
            Err(e) => Err(e),
            Ok(v) => {
                proof {
                    assert(a.deep_view().skip(i as int).drop_first() =~= a.deep_view().skip(
                        i as int + 1,
                    ));
                }
                match decode_validator_vec(a, i + 1) {
                    Err(e) => Err(e),
                    Ok(rest) => {
                        let mut rest = rest;
                        let ghost r0 = rest.deep_view();
                        rest.insert(0, v);
                        proof {
                            assert(rest.deep_view() =~= seq![v@] + r0);
                        }
                        Ok(rest)
                    },
                }
            },
        }
    }
}

/// Decoding a whole validator listing: a JSON array of snapshots.
pub open spec fn spec_decode_validators(jv: JVal) -> Result<Seq<ValidatorDetailV>, ParseErrorV> {
    if jv is Arr {
        spec_decode_validator_seq(jv->Arr_0)
    } else {
        Err(ParseErrorV { field: Field::Body, value: None })
    }
}

/// Decodes a validator-listing response body: an array of snapshots.
pub fn decode_validators(j: &Json) -> (r: Result<Vec<ValidatorDetail>, ParseError>)
    ensures
        match r {
            Ok(v) => spec_decode_validators(j.deep_view()) == Ok::<
                Seq<ValidatorDetailV>,
                ParseErrorV,
            >(v.deep_view()),
            Err(e) => spec_decode_validators(j.deep_view()) == Err::<
                Seq<ValidatorDetailV>,
                ParseErrorV,
            >(e@),
        },
{
    match j {
        Json::Arr(a) => {
            proof {
                lemma_json_arr_view(a);
                assert(a.deep_view().skip(0) =~= a.deep_view());
            }
            decode_validator_vec(a, 0)
        },
        _ => Err(ParseError { field: Field::Body, value: None }),
    }
}



/// For a text-encoded numeric field: a string value that does not spell a
/// decimal fails the decode, naming the field and the received text; a
/// string that does spell one decodes to exactly that spelling, the value
/// that reading the string directly as a decimal gives.
pub proof fn lemma_text_numeric_field(o: Seq<MemberV>, key: Seq<char>, f: Field, s: Seq<char>)
    requires
        spec_get(o, key) == Some(JVal::Str(s)),
    ensures
        !spec_is_decimal(s) ==> spec_opt_dec(o, key, f) == Err::<Option<Seq<char>>, ParseErrorV>(
            ParseErrorV { field: f, value: Some(s) },
        ),
        spec_is_decimal(s) ==> spec_opt_dec(o, key, f) == Ok::<Option<Seq<char>>, ParseErrorV>(
            Some(s),
        ),
        !spec_is_decimal(s) ==> spec_dec_or_zero(o, key, f) == Err::<Seq<char>, ParseErrorV>(
            ParseErrorV { field: f, value: Some(s) },
        ),
        spec_is_decimal(s) ==> spec_dec_or_zero(o, key, f) == Ok::<Seq<char>, ParseErrorV>(s),
{
}

/// An optional field that is absent or null decodes to an absent or
/// defaulted value, never to a failure, under every optional-field rule.
pub proof fn lemma_optional_field_absent(o: Seq<MemberV>, key: Seq<char>, f: Field)
    requires
        spec_get(o, key) is None || spec_get(o, key) == Some(JVal::Null),
    ensures
        spec_opt_str(o, key, f) == Ok::<Option<Seq<char>>, ParseErrorV>(None),
        spec_opt_u64(o, key, f) == Ok::<Option<u64>, ParseErrorV>(None),
        spec_opt_i32(o, key, f) == Ok::<Option<i32>, ParseErrorV>(None),
        spec_opt_u32(o, key, f) == Ok::<Option<u32>, ParseErrorV>(None),
        spec_opt_bool(o, key, f) == Ok::<Option<bool>, ParseErrorV>(None),
        spec_opt_dec(o, key, f) == Ok::<Option<Seq<char>>, ParseErrorV>(None),
        spec_u32_or_zero(o, key, f) == Ok::<u32, ParseErrorV>(0u32),
        spec_dec_or_zero(o, key, f) == Ok::<Seq<char>, ParseErrorV>("0"@),
{
}


} // verus!

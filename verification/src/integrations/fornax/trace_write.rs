//! What may be written to a Fornax trace: the live-delivery gate, the
//! bridge's health before trust, digest records in place of content, and
//! de-duplicated tags.
use vstd::prelude::*;

use crate::digest::hex_lower;
use crate::digest::sha256;
use crate::digest::sha256_digest;
use crate::digest::spec_hex;
use crate::integrations::fornax::bridge_config::FornaxBridgeError;
use crate::integrations::fornax::bridge_daemon::FornaxBridgeDiscovery;
use crate::integrations::fornax::bridge_daemon::spec_versions_match;
use crate::integrations::fornax::bridge_protocol::BridgeHealth;
use crate::integrations::fornax::bridge_protocol::FORNAX_BRIDGE_PROTOCOL;
use crate::integrations::fornax::bridge_protocol::RecordValue;
use crate::integrations::fornax::bridge_protocol::SpanRecord;
use crate::integrations::fornax::bridge_protocol::fornax_bridge_version;
use crate::integrations::fornax::bridge_protocol::fornax_sdk_version;
use crate::json::JsonNumber;
use crate::json::JsonValue;
use crate::json::put_member;
use crate::json::spec_member_from;
use crate::text::owned;
use crate::text::str_eq;

verus! {

/// Trace writes stay disabled until live delivery was approved.
pub fn live_delivery_gate(live_delivery_approved: bool) -> (r: Result<(), FornaxBridgeError>)
    ensures
        live_delivery_approved <==> r is Ok,
        !live_delivery_approved ==> r == Err::<(), FornaxBridgeError>(FornaxBridgeError::LiveDeliveryNotApproved),
{
    if live_delivery_approved {
        Ok(())
    } else {
        Err(FornaxBridgeError::LiveDeliveryNotApproved)
    }
}

/// The bridge answering health checks must be the pinned build and the very
/// instance that discovery reported.
pub fn check_health(health: &BridgeHealth, discovery: &FornaxBridgeDiscovery) -> (r: Result<(), FornaxBridgeError>)
    ensures
        (spec_versions_match(health.protocol_version, health.bridge_version@, health.sdk_version@)
            && health.instance_id@ == discovery.instance_id@) <==> r is Ok,
        r is Err ==> r == Err::<(), FornaxBridgeError>(FornaxBridgeError::VersionMismatch),
{
    if health.protocol_version != FORNAX_BRIDGE_PROTOCOL || !str_eq(health.bridge_version.as_str(), fornax_bridge_version())
        || !str_eq(health.sdk_version.as_str(), fornax_sdk_version()) || !str_eq(
        health.instance_id.as_str(),
        discovery.instance_id.as_str(),
    ) {
        return Err(FornaxBridgeError::VersionMismatch);
    }
    Ok(())
}

/// A record of content by its digest: type `digest`, the SHA-256 of the
/// bytes in lower-case hex, their count, and their classification.
pub fn digest_record(bytes: &[u8], classification: &str) -> (r: SpanRecord)
    ensures
        r matches SpanRecord::Input { value: RecordValue::Json(JsonValue::Object(members)) } && {
            &&& spec_member_from(members@, "type"@, 0) matches Some(JsonValue::Str(t)) && t@ == "digest"@
            &&& spec_member_from(members@, "sha256"@, 0) matches Some(JsonValue::Str(h)) && h@ == spec_hex(
                sha256_digest(bytes@),
            )
            &&& spec_member_from(members@, "byteCount"@, 0) == Some(
                JsonValue::Number(JsonNumber::PosInt(bytes@.len() as u64)),
            )
            &&& spec_member_from(members@, "classification"@, 0) matches Some(JsonValue::Str(c)) && c@
                == classification@
        },
{
    let digest = sha256(bytes);
    let hex = hex_lower(&digest);
    let mut members: Vec<(String, JsonValue)> = Vec::new();
    put_member(&mut members, owned("type"), JsonValue::Str(owned("digest")));
    put_member(&mut members, owned("sha256"), JsonValue::Str(hex));
    put_member(&mut members, owned("byteCount"), JsonValue::Number(JsonNumber::PosInt(bytes.len() as u64)));
    put_member(&mut members, owned("classification"), JsonValue::Str(owned(classification)));
    proof {
        reveal_strlit("type");
        reveal_strlit("sha256");
        reveal_strlit("byteCount");
        reveal_strlit("classification");
        assert("type"@ != "sha256"@ && "type"@ != "byteCount"@ && "type"@ != "classification"@) by {
            assert("type"@.len() == 4 && "sha256"@.len() == 6 && "byteCount"@.len() == 9 && "classification"@.len()
                == 14);
        }
        assert("sha256"@ != "byteCount"@ && "sha256"@ != "classification"@ && "byteCount"@ != "classification"@)
            by {
            assert("sha256"@.len() == 6 && "byteCount"@.len() == 9 && "classification"@.len() == 14);
        }
    }
    SpanRecord::Input { value: RecordValue::Json(JsonValue::Object(members)) }
}

/// Tags holding each name once: a later value for a name replaces an
/// earlier one.
pub fn safe_tags(values: Vec<(String, JsonValue)>) -> (r: SpanRecord)
    ensures
        r matches SpanRecord::Tags { values: tags } && forall|k: Seq<char>|
            #![trigger spec_member_from(tags@, k, 0)]
            spec_member_from(tags@, k, 0) == spec_last_value(values@, k),
{
    let mut tags: Vec<(String, JsonValue)> = Vec::new();
    let mut rest = values;
    let ghost all = rest@;
    let n = rest.len();
    let mut i: usize = 0;
    while rest.len() > 0
        invariant
            n == all.len(),
            i + rest@.len() == all.len(),
            rest@ == all.skip(i as int),
            forall|k: Seq<char>|
                #![trigger spec_member_from(tags@, k, 0)]
                spec_member_from(tags@, k, 0) == spec_last_value(all.take(i as int), k),
        decreases rest.len(),
    {
        let (key, value) = rest.remove(0);
        let ghost kv = key@;
        let ghost before = tags@;
        proof {
            assert(all.skip(i as int)[0] == all[i as int]);
            assert(all.take(i + 1).drop_last() =~= all.take(i as int));
            assert(all.take(i + 1).last() == all[i as int]);
            assert(rest@ =~= all.skip(i + 1));
        }
        put_member(&mut tags, key, value);
        i += 1;
    }
    proof {
        assert(all.take(i as int) =~= all);
    }
    SpanRecord::Tags { values: tags }
}

/// The value of the last pair named `k`.
pub open spec fn spec_last_value(pairs: Seq<(String, JsonValue)>, k: Seq<char>) -> Option<JsonValue>
    decreases pairs.len(),
{
    if pairs.len() == 0 {
        None
    } else if pairs.last().0@ == k {
        Some(pairs.last().1)
    } else {
        spec_last_value(pairs.drop_last(), k)
    }
}

} // verus!

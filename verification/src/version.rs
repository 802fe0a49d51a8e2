//! Version negotiation: comparing protocol versions and computing and
//! verifying the checksum carried in a version response.
//!
//! The checksum is the 16-byte digest of the canonical encoding of the
//! version response rebuilt with its checksum field replaced by a single
//! zero placeholder byte, so either side can derive the same digest
//! independently and the checksum field does not participate in its own
//! hash.

use vstd::prelude::*;
use crate::codec::{encode, spec_encode};
use crate::types::{bytes_eq, copy_bytes, CheckResult, Content, ContentView, Telegram,
    TelegramView, STATION_ID_LEN};

verus! {

/// Digest that the outside hash assigns to a byte sequence.
pub uninterp spec fn md5_digest(data: Seq<u8>) -> Seq<u8>;

/// Relies on md5::compute: a 16-byte digest that is a function of the
/// input bytes alone.
#[verifier::external_body]
fn md5_of(data: &Vec<u8>) -> (r: Vec<u8>)
    ensures
        r@ == md5_digest(data@),
        r@.len() == 16,
{
    md5::compute(data.as_slice()).0.to_vec()
}

/// Result of holding the local protocol version against the peer's.
pub open spec fn spec_check_version(local: u8, peer: u8) -> CheckResult {
    if local == peer {
        CheckResult::VersionsMatch
    } else {
        CheckResult::VersionsMismatch
    }
}

/// Compares the local protocol version with the one a peer advertises.
pub fn check_version(local_version: u8, sender_version: u8) -> (r: CheckResult)
    ensures
        r == spec_check_version(local_version, sender_version),
{
    if sender_version == local_version {
        CheckResult::VersionsMatch
    } else {
        CheckResult::VersionsMismatch
    }
}

/// The version response rebuilt for digest computation: same logical
/// fields, checksum field a single zero placeholder byte.
pub open spec fn spec_pseudo_response(
    sender: Seq<u8>,
    receiver: Seq<u8>,
    version: u8,
    result: CheckResult,
) -> TelegramView {
    TelegramView {
        sender,
        receiver,
        content: ContentView::VersionResponse { result, version, checksum: seq![0u8] },
    }
}

/// The checksum both sides derive for a version response with the given
/// logical fields.
pub open spec fn spec_version_checksum(
    sender: Seq<u8>,
    receiver: Seq<u8>,
    version: u8,
    result: CheckResult,
) -> Seq<u8> {
    md5_digest(spec_encode(spec_pseudo_response(sender, receiver, version, result)))
}

/// Computes the checksum of a version response from its logical fields.
pub fn compute_checksum(
    sender: &Vec<u8>,
    receiver: &Vec<u8>,
    version: u8,
    result: CheckResult,
) -> (r: Vec<u8>)
    requires
        sender@.len() == STATION_ID_LEN,
        receiver@.len() == STATION_ID_LEN,
    ensures
        r@ == spec_version_checksum(sender@, receiver@, version, result),
        r@.len() == 16,
{
    let mut checksum: Vec<u8> = Vec::new();
    checksum.push(0u8);
    let pseudo = Telegram {
        sender: copy_bytes(sender),
        receiver: copy_bytes(receiver),
        content: Content::VersionResponse { result, version, checksum },
    };
    proof {
        assert(pseudo@ == spec_pseudo_response(sender@, receiver@, version, result));
    }
    let bytes = encode(&pseudo);
    md5_of(&bytes)
}

/// Verifies the checksum of a received version response byte-for-byte
/// against the digest recomputed from the advertised fields.
pub fn check_checksum(
    t: &Telegram,
    received_checksum: &Vec<u8>,
    remote_version: u8,
    remote_check_result: CheckResult,
) -> (r: bool)
    requires
        t.wf(),
    ensures
        r == (received_checksum@ == spec_version_checksum(
            t@.sender,
            t@.receiver,
            remote_version,
            remote_check_result,
        )),
{
    let computed = compute_checksum(&t.sender, &t.receiver, remote_version, remote_check_result);
    bytes_eq(received_checksum, &computed)
}

/// Checksum computation is a function of the logical version-response
/// fields alone: two computations over equal fields agree byte-for-byte,
/// whichever side makes them.
pub proof fn lemma_checksum_deterministic(
    sender1: Seq<u8>,
    receiver1: Seq<u8>,
    version1: u8,
    result1: CheckResult,
    sender2: Seq<u8>,
    receiver2: Seq<u8>,
    version2: u8,
    result2: CheckResult,
)
    requires
        sender1 == sender2,
        receiver1 == receiver2,
        version1 == version2,
        result1 == result2,
    ensures
        spec_version_checksum(sender1, receiver1, version1, result1) == spec_version_checksum(
            sender2,
            receiver2,
            version2,
            result2,
        ),
{
}

/// A checksum that differs from the expected digest in any one byte is
/// not the digest, so its verification fails.
pub proof fn lemma_flipped_checksum_rejected(
    sender: Seq<u8>,
    receiver: Seq<u8>,
    version: u8,
    result: CheckResult,
    tampered: Seq<u8>,
    i: int,
)
    requires
        0 <= i < tampered.len(),
        tampered.len() == spec_version_checksum(sender, receiver, version, result).len(),
        tampered[i] != spec_version_checksum(sender, receiver, version, result)[i],
    ensures
        tampered != spec_version_checksum(sender, receiver, version, result),
{
}

} // verus!

//! Laws that hold across the two roles of a session: the version
//! response a responder builds passes or fails the initiator's
//! verification exactly as the versions match or not.

use vstd::prelude::*;
use crate::initiator::{spec_handle, InitiatorState, InitiatorView};
use crate::responder::{spec_handle_responder, ResponderSession, ResponderState};
use crate::types::{CheckResult, ContentView, ProtocolFault, TelegramView};
use crate::version::{spec_check_version, spec_version_checksum};

verus! {

/// When the versions match, the version response a responder emits
/// carries exactly the checksum the initiator recomputes from the
/// response's own fields, so an initiator awaiting it verifies the
/// response and advances to `StatusRequestSent`, emitting the status
/// request.
pub proof fn lemma_handshake_match_accepted(
    resp: ResponderSession,
    init: InitiatorView,
    req: TelegramView,
)
    requires
        resp.conn != ResponderState::Terminated,
        init.conn == InitiatorState::VersionRequestSent,
        req.content matches ContentView::VersionRequest { version: v } && v == resp.version,
        init.version == resp.version,
    ensures
        ({
            let replies = spec_handle_responder(resp, req).1;
            &&& replies.len() == 1
            &&& (replies[0].content matches ContentView::VersionResponse {
                result,
                version,
                checksum,
            } && result == CheckResult::VersionsMatch && version == resp.version && checksum
                == spec_version_checksum(replies[0].sender, replies[0].receiver, version, result))
            &&& spec_handle(init, replies[0]).0.conn == InitiatorState::StatusRequestSent
            &&& (spec_handle(init, replies[0]).1 matches Some(r) && r.content
                == ContentView::StatusRequest)
        }),
{
}

/// When the versions differ, the responder answers with a mismatch
/// response carrying an empty checksum, and an initiator awaiting the
/// response terminates and emits release-for-maintenance — it never
/// sends a status request.
pub proof fn lemma_handshake_mismatch_rejected(
    resp: ResponderSession,
    init: InitiatorView,
    req: TelegramView,
)
    requires
        resp.conn != ResponderState::Terminated,
        init.conn == InitiatorState::VersionRequestSent,
        req.content matches ContentView::VersionRequest { version: v } && v != resp.version,
        init.version != resp.version,
    ensures
        ({
            let replies = spec_handle_responder(resp, req).1;
            &&& replies.len() == 1
            &&& (replies[0].content matches ContentView::VersionResponse {
                result,
                version,
                checksum,
            } && result == CheckResult::VersionsMismatch && version == resp.version
                && checksum.len() == 0)
            &&& spec_handle(init, replies[0]).0.conn == InitiatorState::Terminated
            &&& (spec_handle(init, replies[0]).1 matches Some(r) && r.content
                == ContentView::ReleaseForMaintenance)
            &&& spec_handle(init, replies[0]).2 == Some(ProtocolFault::VersionMismatch)
        }),
{
}

} // verus!

//! The two-round link-settings handshake: deciding, from each kernel
//! response, whether to issue the real request and whether the final answer
//! is valid.
//!
//! The kernel's link-settings command is self-describing in length. The probe
//! round asks with a word count of zero; the kernel answers with the negative
//! of the count it expects. The real round repeats the request with that
//! count negated back to positive, and its response must echo a positive
//! count and the same command code.

use vstd::prelude::*;

use crate::errors::EthtoolError;
use crate::errors::EthtoolErrorKind;
use crate::internal::EthtoolCommnad;
use crate::internal::EthtoolLinkSettings;
use crate::internal::settings_zeroed_with_cmd;

verus! {

/// Command code selecting the "get link settings" operation.
pub const ETHTOOL_GLINKSETTINGS: u32 = 0x4C;

/// Holds when a probe response obeys the negative-sentinel contract: the
/// command code is echoed unchanged and the word-count field carries the
/// negative of the true count. The count itself must fit the signed byte it
/// travels in, so `i8::MIN` (whose negation does not) is also a violation.
pub open spec fn probe_reply_ok(resp: EthtoolCommnad) -> bool {
    &&& resp.req.cmd == ETHTOOL_GLINKSETTINGS
    &&& resp.req.link_mode_masks_nwords < 0
    &&& resp.req.link_mode_masks_nwords != i8::MIN
}

/// The request of the real round, built from an accepted probe response: the
/// same structure with the command code restored and the word count negated
/// to its true positive value.
pub open spec fn real_request_fields(probe: EthtoolLinkSettings) -> EthtoolLinkSettings
    recommends
        i8::MIN < probe.link_mode_masks_nwords < 0,
{
    EthtoolLinkSettings {
        cmd: ETHTOOL_GLINKSETTINGS,
        link_mode_masks_nwords: (-probe.link_mode_masks_nwords) as i8,
        ..probe
    }
}

/// Holds when a real-round response is valid: a strictly positive word count
/// and the command code echoed unchanged.
pub open spec fn real_reply_ok(resp: EthtoolCommnad) -> bool {
    &&& resp.req.cmd == ETHTOOL_GLINKSETTINGS
    &&& resp.req.link_mode_masks_nwords > 0
}

/// Builds the probe request: zeroed but for the command code, the zero word
/// count deliberately asking the kernel to reveal the real count.
pub fn probe_request() -> (r: Result<EthtoolCommnad, EthtoolError>)
    ensures
        r is Ok,
        settings_zeroed_with_cmd(r->Ok_0.req, ETHTOOL_GLINKSETTINGS),
{
    EthtoolCommnad::new(ETHTOOL_GLINKSETTINGS)
}

/// Decides on the probe round's response: a response obeying the
/// negative-sentinel contract yields the real round's request; any other
/// shape fails with `ProtocolMismatch`, and no real request exists to send.
pub fn interpret_probe_response(resp: &EthtoolCommnad) -> (r: Result<
    EthtoolCommnad,
    EthtoolError,
>)
    ensures
        r is Ok <==> probe_reply_ok(*resp),
        r matches Ok(real_req) ==> {
            &&& real_req.req == real_request_fields(resp.req)
            &&& real_req.link_mode_data@ == resp.link_mode_data@
        },
        r matches Err(e) ==> e.spec_kind() == EthtoolErrorKind::ProtocolMismatch,
        resp.req.link_mode_masks_nwords >= 0 ==> r is Err,
    {
    let nwords = resp.req.link_mode_masks_nwords;
    if nwords >= 0 || resp.req.cmd != ETHTOOL_GLINKSETTINGS || nwords == i8::MIN {
        return Err(
            EthtoolError::with_kind(
                EthtoolErrorKind::ProtocolMismatch,
                "Failed to determine number of words for link mode bitmaps",
            ),
        );
    }
    let mut real_req = *resp;
    real_req.req.cmd = ETHTOOL_GLINKSETTINGS;
    real_req.req.link_mode_masks_nwords = -nwords;
    Ok(real_req)
}

/// Decides on the real round's response: a valid response yields the settled
/// fixed-field settings unchanged; a non-positive word count or a mismatched
/// command code fails with `HandshakeFailed`.
pub fn validate_real_response(resp: &EthtoolCommnad) -> (r: Result<
    EthtoolLinkSettings,
    EthtoolError,
>)
    ensures
        r is Ok <==> real_reply_ok(*resp),
        r matches Ok(s) ==> {
            &&& s == resp.req
            &&& s.link_mode_masks_nwords > 0
            &&& s.cmd == ETHTOOL_GLINKSETTINGS
        },
        r matches Err(e) ==> e.spec_kind() == EthtoolErrorKind::HandshakeFailed,
    {
    if resp.req.link_mode_masks_nwords <= 0 || resp.req.cmd != ETHTOOL_GLINKSETTINGS {
        return Err(
            EthtoolError::with_kind(
                EthtoolErrorKind::HandshakeFailed,
                "Failed to check the link_mode_masks_nwords.",
            ),
        );
    }
    Ok(resp.req)
}

/// Sign-encoding round trip: the real request carries the additive inverse of
/// the probe's reported word count, and negating that again recovers the
/// original negative sentinel.
pub proof fn lemma_nwords_negation_round_trip(probe: EthtoolLinkSettings)
    requires
        i8::MIN < probe.link_mode_masks_nwords < 0,
    ensures
        real_request_fields(probe).link_mode_masks_nwords
            == -(probe.link_mode_masks_nwords as int),
        real_request_fields(probe).link_mode_masks_nwords > 0,
        -(real_request_fields(probe).link_mode_masks_nwords as int)
            == probe.link_mode_masks_nwords,
{
}

} // verus!

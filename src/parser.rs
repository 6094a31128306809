//! One turn of the pipeline: decode a received packet, admit it by
//! community or USM user, and hand back the response to send, if any.

use vstd::prelude::*;
use crate::cache::{EngineCache, KeyCache};
use crate::error::Error;
use crate::message::{bytes_view, decode_message, decoded, Message, MessageView};
use crate::settings::{community_listed, min_level, user_index, Auth, Settings};
use crate::usm::level_gate;

verus! {

/// Why a packet was dropped.
#[derive(Clone, Copy, Debug, PartialEq, Eq, Structural)]
pub enum Rejection {
    /// Decoding or USM processing failed.
    Invalid(Error),
    /// The community is not configured.
    CommunityNotAllowed,
    /// No user of that name is configured.
    UnknownUser,
}

/// The outcome of one packet: the response to send back and why the packet
/// was dropped, each if any.
pub struct ParseResult {
    pub response: Option<Vec<u8>>,
    pub error: Option<Rejection>,
}

/// Whether `community` is admitted: always when admission is off.
pub open spec fn community_admitted(config: Settings, community: Seq<u8>) -> bool {
    !config.snmptrapd.auth.enable || community_listed(config.snmptrapd.auth, community)
}

/// Admits a v1/v2c community.
pub fn community_check(config: &Settings, community: &[u8]) -> (r: Result<(), Rejection>)
    ensures
        r == if community_admitted(*config, community@) {
            Ok::<(), Rejection>(())
        } else {
            Err(Rejection::CommunityNotAllowed)
        },
{
    if config.snmptrapd.auth.enable && !config.snmptrapd.auth.is_community_allowed(community) {
        return Err(Rejection::CommunityNotAllowed);
    }
    Ok(())
}

/// Whether the `i`th user is the first one named `name`.
pub open spec fn first_user(a: Auth, name: Seq<u8>, i: int) -> bool {
    user_index(a, name, i) && forall|j: int| 0 <= j < i ==> !user_index(a, name, j)
}

/// What admitting a v1/v2c message with `community` leaves in the result.
pub open spec fn community_outcome(config: Settings, community: Seq<u8>, error: Option<Rejection>) -> bool {
    if community_admitted(config, community) {
        error is None
    } else {
        error == Some(Rejection::CommunityNotAllowed)
    }
}

/// Decodes and admits one packet. v1 and v2c messages are admitted by
/// community; an InformRequest's response is returned whether or not its
/// community is admitted. With admission on, a v3 message goes through USM
/// processing for the user its userName names.
pub fn parse_snmp_packet(
    data: &[u8],
    config: &Settings,
    keys: &KeyCache,
    engines: &EngineCache,
    now: u64,
) -> (r: ParseResult)
    ensures
        match decoded(data@) {
            Err(e) => r.response is None && r.error == Some(Rejection::Invalid(e)),
            Ok(MessageView::V1(m)) => r.response is None && community_outcome(
                *config,
                m.community,
                r.error,
            ),
            Ok(MessageView::V2C(m)) => bytes_view(r.response) == m.response && community_outcome(
                *config,
                m.community,
                r.error,
            ),
            Ok(MessageView::V3(m)) => {
                &&& r.response is None
                &&& !config.snmptrapd.auth.enable ==> r.error is None
                &&& (config.snmptrapd.auth.enable && (forall|i: int|
                    !user_index(config.snmptrapd.auth, m.usm.user_name, i))) ==> r.error == Some(
                    Rejection::UnknownUser,
                )
                &&& config.snmptrapd.auth.enable ==> forall|i: int|
                    #[trigger] first_user(config.snmptrapd.auth, m.usm.user_name, i) ==> {
                        let u = config.snmptrapd.auth.user@[i];
                        let gate = level_gate(
                            m.global_data.flags,
                            min_level(u.no_auth, u.require_privacy),
                        );
                        &&& gate == Ok::<u8, Error>(0u8) ==> r.error is None
                        &&& r.error is None ==> gate is Ok
                        &&& gate matches Err(e) ==> r.error == Some(Rejection::Invalid(e))
                    }
            },
        },
{
    match decode_message(data) {
        Err(e) => ParseResult { response: None, error: Some(Rejection::Invalid(e)) },
        Ok(Message::V1(m)) => ParseResult {
            response: None,
            error: community_check(config, m.community.as_slice()).err(),
        },
        Ok(Message::V2C(m)) => {
            let error = community_check(config, m.community.as_slice()).err();
            ParseResult { response: m.response, error }
        },
        Ok(Message::V3(mut m)) => {
            if !config.snmptrapd.auth.enable {
                return ParseResult { response: None, error: None };
            }
            let user = match config.snmptrapd.auth.get_user(m.usm().user_name.as_slice()) {
                Some(u) => u,
                None => return ParseResult { response: None, error: Some(Rejection::UnknownUser) },
            };
            let auth_passphrase = match &user.auth_passphrase {
                Some(p) => Some(p.as_slice()),
                None => None,
            };
            let privacy_passphrase = match &user.privacy_passphrase {
                Some(p) => Some(p.as_slice()),
                None => None,
            };
            let error = match m.process(
                user.minimum_security_level(),
                user.auth_type,
                auth_passphrase,
                user.privacy_protocol,
                privacy_passphrase,
                user.skip_timeliness_checks,
                keys,
                engines,
                now,
            ) {
                Ok(()) => None,
                Err(e) => Some(Rejection::Invalid(e)),
            };
            ParseResult { response: m.response, error }
        },
    }
}

} // verus!

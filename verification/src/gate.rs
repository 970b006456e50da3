//! The upgrade gate: validates the access token carried by an upgrade
//! request before a connection session is created and registered. The
//! policy is to reject on an invalid or missing token: an upgrade is only
//! accepted for a verified subject, and an accepted connection is
//! registered under that subject before its message loop starts.

use vstd::prelude::*;
use vstd::string::*;
use crate::auth::{AuthError, Utils, jwt_sub_of};
use crate::channel::ChannelView;
use crate::registry::ConnectionRegistry;
use crate::session::{Session, SessionState};

verus! {

/// What became of one upgrade request.
pub enum GateDecision {
    /// The token verified: admit the connection under this identity.
    Accept { identity: String },
    /// The token was missing or did not verify: refuse the upgrade.
    Reject,
}

/// The pure policy applied to a token-verification outcome: a verified
/// subject is admitted as the connection identity, everything else is
/// rejected. Total over every outcome the verifier can produce.
pub fn evaluate_verification(verification: Result<String, AuthError>) -> (r: GateDecision)
    ensures
        match verification {
            Ok(sub) => r matches GateDecision::Accept { identity } && identity@ == sub@,
            Err(_) => r is Reject,
        },
{
    match verification {
        Ok(sub) => GateDecision::Accept { identity: sub },
        Err(_) => GateDecision::Reject,
    }
}

/// The upgrade endpoint's core: verifies the token and, on success, creates
/// a fresh empty channel, registers it under the token's subject, and hands
/// back the session in its steady state. On failure nothing is registered
/// and no session starts.
pub fn connect_ws(token: &str, clients: &mut ConnectionRegistry) -> (r: Option<Session>)
    requires
        old(clients).wf(),
    ensures
        final(clients).wf(),
        r matches Some(session) ==> session.state == SessionState::Active
            && session.identity@ == jwt_sub_of(token@)
            && final(clients)@ == old(clients)@.insert(
                jwt_sub_of(token@),
                ChannelView { queue: Seq::empty(), closed: false },
            ),
        r is None ==> final(clients)@ == old(clients)@,
{
    let decision = evaluate_verification(Utils::verifi_token(String::from_str(token)));
    match decision {
        GateDecision::Accept { identity } => {
            let mut session = Session::new(identity);
            session.register(clients);
            Some(session)
        },
        GateDecision::Reject => None,
    }
}

} // verus!

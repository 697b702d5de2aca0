//! What the layer in front of the registry does with a session: let a
//! request through, send the client back to the login, or turn it away.

use vstd::prelude::*;
use crate::fingerprint::IpAddress;
use crate::session_protection::{after_invalidate, after_validate, verdict_of};
use crate::session_protection::{RejectReason, SessionStore, SessionView, Verdict};
use crate::text::same_text;
use crate::time::{clock_now, Timestamp};

verus! {

/// The answer to a request for a protected resource.
#[derive(Debug)]
pub enum AccessDecision {
    /// The request is let through on behalf of this user.
    Allow { user_id: String, username: String },
    /// The session is unknown, logged out or expired: the client has to log
    /// in again.
    Reauthenticate(RejectReason),
    /// The fingerprint does not match: the request is turned away and the
    /// incident is to be reported.
    Deny(RejectReason),
}

/// Whether a reason stands for a fingerprint mismatch.
pub open spec fn is_hijack(reason: RejectReason) -> bool {
    reason == RejectReason::HijackIpMismatch || reason == RejectReason::HijackUserAgentMismatch
}

/// Whether `decision` is the answer that `verdict` calls for, given the
/// session `m` holds under `id`.
pub open spec fn answers(
    decision: AccessDecision,
    verdict: Verdict,
    m: Map<Seq<char>, SessionView>,
    id: Seq<char>,
) -> bool {
    match verdict {
        Verdict::Accepted => decision matches AccessDecision::Allow { user_id, username }
            && user_id@ == m[id].user_id && username@ == m[id].username,
        Verdict::Rejected(reason) => if is_hijack(reason) {
            decision == AccessDecision::Deny(reason)
        } else {
            decision == AccessDecision::Reauthenticate(reason)
        },
    }
}

/// Validates the request at `now` and turns the verdict into an access
/// decision. The registry changes as `validate` changes it.
pub fn authorize_at(
    store: &mut SessionStore,
    session_id: &str,
    observed_ip: IpAddress,
    observed_user_agent: &str,
    now: Timestamp,
) -> (decision: AccessDecision)
    ensures
        answers(
            decision,
            verdict_of(
                old(store)@,
                old(store).policy().timeout_secs,
                session_id@,
                observed_ip,
                observed_user_agent@,
                now,
            ),
            old(store)@,
            session_id@,
        ),
        final(store)@ == after_validate(
            old(store)@,
            old(store).policy(),
            session_id@,
            observed_ip,
            observed_user_agent@,
            now,
        ),
        final(store).policy() == old(store).policy(),
{
    match store.validate(session_id, observed_ip, observed_user_agent, now) {
        Verdict::Accepted => match store.get_session(session_id) {
            Some(data) => AccessDecision::Allow { user_id: data.user_id, username: data.username },
            None => AccessDecision::Reauthenticate(RejectReason::NotFound),
        },
        Verdict::Rejected(reason) => match reason {
            RejectReason::HijackIpMismatch => AccessDecision::Deny(reason),
            RejectReason::HijackUserAgentMismatch => AccessDecision::Deny(reason),
            _ => AccessDecision::Reauthenticate(reason),
        },
    }
}

/// `authorize_at` at the instant the system clock shows.
pub fn authorize(
    store: &mut SessionStore,
    session_id: &str,
    observed_ip: IpAddress,
    observed_user_agent: &str,
) -> (decision: AccessDecision)
    ensures
        exists|now: Timestamp|
            {
                &&& answers(
                    decision,
                    #[trigger] verdict_of(
                        old(store)@,
                        old(store).policy().timeout_secs,
                        session_id@,
                        observed_ip,
                        observed_user_agent@,
                        now,
                    ),
                    old(store)@,
                    session_id@,
                )
                &&& final(store)@ == after_validate(
                    old(store)@,
                    old(store).policy(),
                    session_id@,
                    observed_ip,
                    observed_user_agent@,
                    now,
                )
            },
        final(store).policy() == old(store).policy(),
{
    let now = clock_now();
    authorize_at(store, session_id, observed_ip, observed_user_agent, now)
}

/// How a logout request ended.
#[derive(Clone, Copy, Debug, PartialEq, Eq, Structural)]
pub enum LogoutOutcome {
    /// The session belonged to the requester and is now invalid.
    LoggedOut,
    /// The session belongs to another user. Nothing was changed.
    NotOwner,
    /// No session has that identifier.
    NotFound,
}

/// The outcome of a logout of `id` requested by `user_id`.
pub open spec fn logout_outcome(
    m: Map<Seq<char>, SessionView>,
    id: Seq<char>,
    user_id: Seq<char>,
) -> LogoutOutcome {
    if !m.contains_key(id) {
        LogoutOutcome::NotFound
    } else if m[id].user_id != user_id {
        LogoutOutcome::NotOwner
    } else {
        LogoutOutcome::LoggedOut
    }
}

/// Logs the session out on behalf of `user_id`, but only where the session
/// belongs to that user.
pub fn logout(store: &mut SessionStore, session_id: &str, user_id: &str) -> (outcome: LogoutOutcome)
    ensures
        outcome == logout_outcome(old(store)@, session_id@, user_id@),
        outcome == LogoutOutcome::LoggedOut ==> final(store)@ == after_invalidate(
            old(store)@,
            session_id@,
        ),
        outcome != LogoutOutcome::LoggedOut ==> final(store)@ == old(store)@,
        final(store).policy() == old(store).policy(),
{
    match store.get_session(session_id) {
        None => LogoutOutcome::NotFound,
        Some(data) => {
            if same_text(data.user_id.as_str(), user_id) {
                store.invalidate_session(session_id);
                LogoutOutcome::LoggedOut
            } else {
                LogoutOutcome::NotOwner
            }
        },
    }
}

} // verus!

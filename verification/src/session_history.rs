//! What holds of a session over the whole life of a registry.
//!
//! Every change that the registry's functions make is one of the operations
//! below; a history is a sequence of them. The theorems here speak of the
//! registry after any history.

use vstd::prelude::*;
use crate::fingerprint::IpAddress;
use crate::session_protection::{after_invalidate, after_sweep, after_touch, after_validate};
use crate::session_protection::{session_expired, verdict_of};
use crate::session_protection::{Pinning, RejectReason, SessionPolicy, SessionView, Verdict};
use crate::time::Timestamp;

verus! {

/// One change to a session registry.
pub enum Operation {
    /// A session is recorded under an identifier; refused where the
    /// identifier is in use.
    Create { id: Seq<char>, session: SessionView },
    /// A request is validated.
    Validate { id: Seq<char>, ip: IpAddress, user_agent: Seq<char>, now: Timestamp },
    /// A session is logged out.
    Invalidate { id: Seq<char> },
    /// Activity on a session is recorded.
    Touch { id: Seq<char>, now: Timestamp },
    /// A session is taken out.
    Remove { id: Seq<char> },
    /// The expired sessions are removed.
    Sweep { now: Timestamp },
}

/// The registry after one operation.
pub open spec fn apply(m: Map<Seq<char>, SessionView>, policy: SessionPolicy, op: Operation) -> Map<
    Seq<char>,
    SessionView,
> {
    match op {
        Operation::Create { id, session } => if m.contains_key(id) {
            m
        } else {
            m.insert(id, session)
        },
        Operation::Validate { id, ip, user_agent, now } => after_validate(
            m,
            policy,
            id,
            ip,
            user_agent,
            now,
        ),
        Operation::Invalidate { id } => after_invalidate(m, id),
        Operation::Touch { id, now } => after_touch(m, id, now),
        Operation::Remove { id } => m.remove(id),
        Operation::Sweep { now } => after_sweep(m, policy.timeout_secs, now),
    }
}

/// The registry after a history, oldest operation first.
pub open spec fn run(
    m: Map<Seq<char>, SessionView>,
    policy: SessionPolicy,
    history: Seq<Operation>,
) -> Map<Seq<char>, SessionView>
    decreases history.len(),
{
    if history.len() == 0 {
        m
    } else {
        apply(run(m, policy, history.drop_last()), policy, history.last())
    }
}

/// Whether the operation records a session under `id`.
pub open spec fn creates(op: Operation, id: Seq<char>) -> bool {
    op matches Operation::Create { id: created, .. } && created == id
}

/// Whether two sessions agree in all that is fixed at creation: the user,
/// the fingerprint and the time of creation.
pub open spec fn same_identity(a: SessionView, b: SessionView) -> bool {
    &&& a.user_id == b.user_id
    &&& a.username == b.username
    &&& a.ip_address == b.ip_address
    &&& a.user_agent == b.user_agent
    &&& a.created_at == b.created_at
}

/// Whether `later` can have come from `earlier`: the identity is the same,
/// and a session that was invalid still is.
pub open spec fn continues(earlier: SessionView, later: SessionView) -> bool {
    same_identity(earlier, later) && (!earlier.is_valid ==> !later.is_valid)
}

/// One operation leaves a session's identity alone and never makes an
/// invalid session valid again; at most it removes the session.
pub proof fn lemma_step_continues(
    m: Map<Seq<char>, SessionView>,
    policy: SessionPolicy,
    op: Operation,
    id: Seq<char>,
)
    requires
        m.contains_key(id),
    ensures
        apply(m, policy, op).contains_key(id) ==> continues(m[id], apply(m, policy, op)[id]),
{
}

/// An operation that does not create `id` leaves an absent `id` absent.
pub proof fn lemma_step_absent(
    m: Map<Seq<char>, SessionView>,
    policy: SessionPolicy,
    op: Operation,
    id: Seq<char>,
)
    requires
        !m.contains_key(id),
        !creates(op, id),
    ensures
        !apply(m, policy, op).contains_key(id),
{
}

/// Over a history in which no session is created under `id` again, the
/// session under `id` keeps its identity, stays invalid once it is invalid,
/// and does not come back once it is gone.
pub proof fn lemma_history_continues(
    m: Map<Seq<char>, SessionView>,
    policy: SessionPolicy,
    history: Seq<Operation>,
    id: Seq<char>,
)
    requires
        m.contains_key(id),
        forall|i: int| 0 <= i < history.len() ==> !creates(#[trigger] history[i], id),
    ensures
        run(m, policy, history).contains_key(id) ==> continues(m[id], run(m, policy, history)[id]),
    decreases history.len(),
{
    if history.len() > 0 {
        let earlier = history.drop_last();
        let before = run(m, policy, earlier);
        assert forall|i: int| 0 <= i < earlier.len() implies !creates(#[trigger] earlier[i], id) by {
            assert(earlier[i] == history[i]);
        }
        lemma_history_continues(m, policy, earlier, id);
        assert(!creates(history[history.len() - 1], id));
        if before.contains_key(id) {
            lemma_step_continues(before, policy, history.last(), id);
        } else {
            lemma_step_absent(before, policy, history.last(), id);
        }
    }
}

/// Once a session is invalid, no later validation of its identifier is
/// accepted, whatever happened in between and whatever fingerprint is
/// presented.
///
/// The identifier must not be given to a new session in between: a session
/// that is created under the identifier of one that was removed is another
/// session.
pub proof fn lemma_invalid_is_never_accepted(
    m: Map<Seq<char>, SessionView>,
    policy: SessionPolicy,
    history: Seq<Operation>,
    id: Seq<char>,
    ip: IpAddress,
    user_agent: Seq<char>,
    now: Timestamp,
)
    requires
        m.contains_key(id),
        !m[id].is_valid,
        forall|i: int| 0 <= i < history.len() ==> !creates(#[trigger] history[i], id),
    ensures
        verdict_of(run(m, policy, history), policy.timeout_secs, id, ip, user_agent, now)
            != Verdict::Accepted,
{
    lemma_history_continues(m, policy, history, id);
}

/// Under strict pinning, a validation from another address than the
/// session's leaves the session invalid, also where the session was fresh
/// until then.
///
/// This holds unless the session is valid but expired: expiry is judged
/// first, and an expired session is reported as such and left as it is.
pub proof fn lemma_ip_mismatch_burns(
    m: Map<Seq<char>, SessionView>,
    policy: SessionPolicy,
    id: Seq<char>,
    ip: IpAddress,
    user_agent: Seq<char>,
    now: Timestamp,
)
    requires
        policy.pinning == Pinning::Strict,
        m.contains_key(id),
        m[id].ip_address != ip,
        !(m[id].is_valid && session_expired(m[id], policy.timeout_secs, now)),
    ensures
        after_validate(m, policy, id, ip, user_agent, now).contains_key(id),
        !after_validate(m, policy, id, ip, user_agent, now)[id].is_valid,
        m[id].is_valid ==> verdict_of(m, policy.timeout_secs, id, ip, user_agent, now)
            == Verdict::Rejected(RejectReason::HijackIpMismatch),
{
}

/// Under strict pinning, a validation with another User-Agent than the
/// session's leaves the session invalid, under the same condition.
pub proof fn lemma_agent_mismatch_burns(
    m: Map<Seq<char>, SessionView>,
    policy: SessionPolicy,
    id: Seq<char>,
    ip: IpAddress,
    user_agent: Seq<char>,
    now: Timestamp,
)
    requires
        policy.pinning == Pinning::Strict,
        m.contains_key(id),
        m[id].user_agent != user_agent,
        !(m[id].is_valid && session_expired(m[id], policy.timeout_secs, now)),
    ensures
        after_validate(m, policy, id, ip, user_agent, now).contains_key(id),
        !after_validate(m, policy, id, ip, user_agent, now)[id].is_valid,
        m[id].is_valid && m[id].ip_address == ip ==> verdict_of(
            m,
            policy.timeout_secs,
            id,
            ip,
            user_agent,
            now,
        ) == Verdict::Rejected(RejectReason::HijackUserAgentMismatch),
{
}

/// Under advisory pinning, a validation that is not accepted changes
/// nothing, whatever it reports.
pub proof fn lemma_advisory_burns_nothing(
    m: Map<Seq<char>, SessionView>,
    policy: SessionPolicy,
    id: Seq<char>,
    ip: IpAddress,
    user_agent: Seq<char>,
    now: Timestamp,
)
    requires
        policy.pinning == Pinning::Advisory,
        verdict_of(m, policy.timeout_secs, id, ip, user_agent, now) != Verdict::Accepted,
    ensures
        after_validate(m, policy, id, ip, user_agent, now) == m,
{
}

/// A valid session that was idle for longer than the timeout is reported as
/// expired whatever fingerprint is presented, and the validation changes
/// nothing.
pub proof fn lemma_expiry_precedes_fingerprint(
    m: Map<Seq<char>, SessionView>,
    policy: SessionPolicy,
    id: Seq<char>,
    ip: IpAddress,
    user_agent: Seq<char>,
    now: Timestamp,
)
    requires
        m.contains_key(id),
        m[id].is_valid,
        session_expired(m[id], policy.timeout_secs, now),
    ensures
        verdict_of(m, policy.timeout_secs, id, ip, user_agent, now) == Verdict::Rejected(
            RejectReason::Expired,
        ),
        after_validate(m, policy, id, ip, user_agent, now) == m,
{
}

/// An accepted validation is the only one that counts as activity, and it
/// changes nothing else.
pub proof fn lemma_accepted_is_activity(
    m: Map<Seq<char>, SessionView>,
    policy: SessionPolicy,
    id: Seq<char>,
    ip: IpAddress,
    user_agent: Seq<char>,
    now: Timestamp,
)
    requires
        m.contains_key(id),
    ensures
        verdict_of(m, policy.timeout_secs, id, ip, user_agent, now) == Verdict::Accepted
            ==> after_validate(m, policy, id, ip, user_agent, now)[id] == (SessionView {
            last_activity: now,
            ..m[id]
        }),
        verdict_of(m, policy.timeout_secs, id, ip, user_agent, now) != Verdict::Accepted
            ==> after_validate(m, policy, id, ip, user_agent, now)[id].last_activity
            == m[id].last_activity,
{
}

/// A sweep removes exactly the sessions that are expired at its instant:
/// a session is in the registry afterwards if and only if it was there and
/// is not expired, and it is then unchanged.
pub proof fn lemma_sweep_removes_exactly_expired(
    m: Map<Seq<char>, SessionView>,
    timeout_secs: u64,
    now: Timestamp,
    id: Seq<char>,
)
    ensures
        after_sweep(m, timeout_secs, now).contains_key(id) <==> m.contains_key(id)
            && !session_expired(m[id], timeout_secs, now),
        after_sweep(m, timeout_secs, now).contains_key(id) ==> after_sweep(m, timeout_secs, now)[id]
            == m[id],
{
}

/// A second sweep at the same instant changes nothing.
pub proof fn lemma_sweep_idempotent(m: Map<Seq<char>, SessionView>, timeout_secs: u64, now: Timestamp)
    ensures
        after_sweep(after_sweep(m, timeout_secs, now), timeout_secs, now) == after_sweep(
            m,
            timeout_secs,
            now,
        ),
{
    assert(after_sweep(after_sweep(m, timeout_secs, now), timeout_secs, now) =~= after_sweep(
        m,
        timeout_secs,
        now,
    ));
}

/// Logging out twice is logging out once, and logging out a session that is
/// absent or already invalid changes nothing.
pub proof fn lemma_invalidate_idempotent(m: Map<Seq<char>, SessionView>, id: Seq<char>)
    ensures
        after_invalidate(after_invalidate(m, id), id) == after_invalidate(m, id),
        !m.contains_key(id) ==> after_invalidate(m, id) == m,
        m.contains_key(id) && !m[id].is_valid ==> after_invalidate(m, id) == m,
{
    assert(after_invalidate(after_invalidate(m, id), id) =~= after_invalidate(m, id));
    if m.contains_key(id) && !m[id].is_valid {
        assert(after_invalidate(m, id) =~= m);
    }
}

} // verus!

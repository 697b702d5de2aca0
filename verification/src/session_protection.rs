//! The session registry.
//!
//! A session is created at login, read on every request, and leaves the
//! registry by `remove_session` or by a sweep. An expired session is not
//! purged when a validation finds it expired: it stays, and is reported as
//! expired again, until the next sweep removes it.

use vstd::prelude::*;
use crate::fingerprint::IpAddress;
use crate::registry::{append, discard, find, sweep_records, Dated, Record};
use crate::registry::{pairs_of, table_map, table_ok, unexpired};
use crate::registry::{lemma_empty, lemma_update, RegistryError};
use crate::text::same_text;
use crate::time::{clock_now, is_older_than, older_than, Timestamp, DEFAULT_SESSION_TIMEOUT_SECS};

verus! {

/// The number of characters in a generated session identifier.
pub const SESSION_ID_LENGTH: usize = 36;

/// One authenticated session.
#[derive(Debug)]
pub struct SessionData {
    pub user_id: String,
    pub username: String,
    pub ip_address: IpAddress,
    pub user_agent: String,
    pub created_at: Timestamp,
    pub last_activity: Timestamp,
    pub is_valid: bool,
}

/// The mathematical value of a `SessionData`.
pub struct SessionView {
    pub user_id: Seq<char>,
    pub username: Seq<char>,
    pub ip_address: IpAddress,
    pub user_agent: Seq<char>,
    pub created_at: Timestamp,
    pub last_activity: Timestamp,
    pub is_valid: bool,
}

impl View for SessionData {
    type V = SessionView;

    open spec fn view(&self) -> SessionView {
        SessionView {
            user_id: self.user_id@,
            username: self.username@,
            ip_address: self.ip_address,
            user_agent: self.user_agent@,
            created_at: self.created_at,
            last_activity: self.last_activity,
            is_valid: self.is_valid,
        }
    }
}

impl Clone for SessionData {
    fn clone(&self) -> (copy: SessionData)
        ensures
            copy@ == self@,
    {
        SessionData {
            user_id: self.user_id.clone(),
            username: self.username.clone(),
            ip_address: self.ip_address,
            user_agent: self.user_agent.clone(),
            created_at: self.created_at,
            last_activity: self.last_activity,
            is_valid: self.is_valid,
        }
    }
}

/// The body of a login request.
#[derive(Debug)]
pub struct LoginRequest {
    pub username: String,
    pub password: String,
}

/// The body of a logout request.
#[derive(Debug)]
pub struct LogoutRequest {
    pub user_id: String,
}

/// Why a validation turned a request down.
#[derive(Clone, Copy, Debug, PartialEq, Eq, Structural)]
pub enum RejectReason {
    /// No session has that identifier.
    NotFound,
    /// The session was logged out, or burnt by an earlier mismatch.
    Invalidated,
    /// The session was idle for longer than the timeout.
    Expired,
    /// The request came from another address than the session was made
    /// from.
    HijackIpMismatch,
    /// The request came with another User-Agent than the session was made
    /// with.
    HijackUserAgentMismatch,
}

/// The outcome of a validation.
#[derive(Clone, Copy, Debug, PartialEq, Eq, Structural)]
pub enum Verdict {
    Accepted,
    Rejected(RejectReason),
}

/// What the registry does to a session whose fingerprint does not match.
#[derive(Clone, Copy, Debug, PartialEq, Eq, Structural)]
pub enum Pinning {
    /// One mismatch invalidates the session for good.
    Strict,
    /// A mismatch is reported in the verdict and the session is left as it
    /// is.
    Advisory,
}

/// The settings of a session registry.
#[derive(Clone, Copy, Debug, PartialEq, Eq, Structural)]
pub struct SessionPolicy {
    /// Seconds a session may stay idle before it counts as expired.
    pub timeout_secs: u64,
    /// What a fingerprint mismatch does to the session.
    pub pinning: Pinning,
}

impl SessionPolicy {
    /// One hour of inactivity, strict pinning.
    pub open spec fn spec_standard() -> SessionPolicy {
        SessionPolicy { timeout_secs: DEFAULT_SESSION_TIMEOUT_SECS, pinning: Pinning::Strict }
    }

    #[verifier::when_used_as_spec(spec_standard)]
    pub fn standard() -> (policy: SessionPolicy)
        ensures
            policy == SessionPolicy::spec_standard(),
    {
        SessionPolicy { timeout_secs: DEFAULT_SESSION_TIMEOUT_SECS, pinning: Pinning::Strict }
    }
}

/// Whether a session was idle for longer than `timeout_secs` seconds at `now`.
pub open spec fn session_expired(s: SessionView, timeout_secs: u64, now: Timestamp) -> bool {
    older_than(now, s.last_activity, timeout_secs)
}

/// The session that a login at `now` creates.
pub open spec fn fresh_session(
    user_id: Seq<char>,
    username: Seq<char>,
    client_ip: IpAddress,
    user_agent: Seq<char>,
    now: Timestamp,
) -> SessionView {
    SessionView {
        user_id,
        username,
        ip_address: client_ip,
        user_agent,
        created_at: now,
        last_activity: now,
        is_valid: true,
    }
}

/// The verdict on a request that presents `id` with the given fingerprint at
/// `now`, for a registry with the given timeout. The first rule that applies
/// decides: an unknown identifier, then an invalidated session, then an
/// expired one, then the address, then the User-Agent.
pub open spec fn verdict_of(
    m: Map<Seq<char>, SessionView>,
    timeout_secs: u64,
    id: Seq<char>,
    ip: IpAddress,
    user_agent: Seq<char>,
    now: Timestamp,
) -> Verdict {
    if !m.contains_key(id) {
        Verdict::Rejected(RejectReason::NotFound)
    } else if !m[id].is_valid {
        Verdict::Rejected(RejectReason::Invalidated)
    } else if session_expired(m[id], timeout_secs, now) {
        Verdict::Rejected(RejectReason::Expired)
    } else if m[id].ip_address != ip {
        Verdict::Rejected(RejectReason::HijackIpMismatch)
    } else if m[id].user_agent != user_agent {
        Verdict::Rejected(RejectReason::HijackUserAgentMismatch)
    } else {
        Verdict::Accepted
    }
}

/// Whether a verdict reports a fingerprint mismatch.
pub open spec fn is_mismatch(verdict: Verdict) -> bool {
    verdict == Verdict::Rejected(RejectReason::HijackIpMismatch) || verdict == Verdict::Rejected(
        RejectReason::HijackUserAgentMismatch,
    )
}

/// The registry after that validation: an accepted request moves
/// `last_activity` to `now`, a fingerprint mismatch invalidates the session
/// under strict pinning, and everything else leaves the registry as it was.
pub open spec fn after_validate(
    m: Map<Seq<char>, SessionView>,
    policy: SessionPolicy,
    id: Seq<char>,
    ip: IpAddress,
    user_agent: Seq<char>,
    now: Timestamp,
) -> Map<Seq<char>, SessionView> {
    let verdict = verdict_of(m, policy.timeout_secs, id, ip, user_agent, now);
    if verdict == Verdict::Accepted {
        m.insert(id, SessionView { last_activity: now, ..m[id] })
    } else if is_mismatch(verdict) && policy.pinning == Pinning::Strict {
        m.insert(id, SessionView { is_valid: false, ..m[id] })
    } else {
        m
    }
}

/// The registry after a logout of `id`: the session, where present, is no
/// longer valid; nothing else changes.
pub open spec fn after_invalidate(m: Map<Seq<char>, SessionView>, id: Seq<char>) -> Map<
    Seq<char>,
    SessionView,
> {
    if m.contains_key(id) {
        m.insert(id, SessionView { is_valid: false, ..m[id] })
    } else {
        m
    }
}

/// The registry after activity on `id` was recorded at `now`.
pub open spec fn after_touch(m: Map<Seq<char>, SessionView>, id: Seq<char>, now: Timestamp) -> Map<
    Seq<char>,
    SessionView,
> {
    if m.contains_key(id) {
        m.insert(id, SessionView { last_activity: now, ..m[id] })
    } else {
        m
    }
}

/// The registry after a sweep at `now`: the sessions that are not expired,
/// each as it was, valid or not.
pub open spec fn after_sweep(m: Map<Seq<char>, SessionView>, timeout_secs: u64, now: Timestamp) -> Map<
    Seq<char>,
    SessionView,
> {
    Map::new(
        |id: Seq<char>| m.contains_key(id) && !session_expired(m[id], timeout_secs, now),
        |id: Seq<char>| m[id],
    )
}

/// Whether `id` names no session that is still within the timeout at `now`.
pub open spec fn gone_or_expired(
    m: Map<Seq<char>, SessionView>,
    timeout_secs: u64,
    id: Seq<char>,
    now: Timestamp,
) -> bool {
    !m.contains_key(id) || session_expired(m[id], timeout_secs, now)
}

/// Rewrites the two fields of a session that change after its creation.
fn revise(records: &mut Vec<Record<SessionData>>, i: usize, last_activity: Timestamp, is_valid: bool)
    requires
        table_ok(old(records)@),
        i < old(records)@.len(),
    ensures
        table_ok(final(records)@),
        table_map(final(records)@) == table_map(old(records)@).insert(
            old(records)@[i as int].key@,
            SessionView { last_activity, is_valid, ..old(records)@[i as int].value@ },
        ),
{
    let ghost before = pairs_of(records@);
    let ghost revised = SessionView { last_activity, is_valid, ..records@[i as int].value@ };
    records[i].value.last_activity = last_activity;
    records[i].value.is_valid = is_valid;
    proof {
        lemma_update(before, i as int, revised);
        assert(pairs_of(records@) =~= before.update(i as int, (before[i as int].0, revised)));
    }
}

/// The sessions of one process, each reachable by its identifier alone.
pub struct SessionStore {
    entries: Vec<Record<SessionData>>,
    policy: SessionPolicy,
}

impl View for SessionStore {
    type V = Map<Seq<char>, SessionView>;

    closed spec fn view(&self) -> Map<Seq<char>, SessionView> {
        table_map(self.entries@)
    }
}

impl SessionStore {
    #[verifier::type_invariant]
    spec fn well_formed(self) -> bool {
        table_ok(self.entries@)
    }

    /// The settings the registry was made with. No operation changes them.
    pub closed spec fn spec_policy(&self) -> SessionPolicy {
        self.policy
    }

    /// The settings the registry was made with.
    #[verifier::when_used_as_spec(spec_policy)]
    pub fn policy(&self) -> (policy: SessionPolicy)
        ensures
            policy == self.spec_policy(),
    {
        self.policy
    }

    /// An empty registry with the standard settings.
    pub fn new() -> (store: SessionStore)
        ensures
            store@ == Map::<Seq<char>, SessionView>::empty(),
            store.policy() == SessionPolicy::standard(),
    {
        SessionStore::with_policy(SessionPolicy::standard())
    }

    /// An empty registry with the given settings.
    pub fn with_policy(policy: SessionPolicy) -> (store: SessionStore)
        ensures
            store@ == Map::<Seq<char>, SessionView>::empty(),
            store.policy() == policy,
    {
        let store = SessionStore { entries: Vec::new(), policy };
        proof {
            lemma_empty::<SessionView>();
            assert(pairs_of(store.entries@) =~= Seq::empty());
        }
        store
    }

    /// Moves the records out and leaves the registry empty until they are
    /// put back.
    fn take_entries(&mut self) -> (entries: Vec<Record<SessionData>>)
        ensures
            table_ok(entries@),
            table_map(entries@) == old(self)@,
            final(self).policy == old(self).policy,
    {
        proof {
            use_type_invariant(&*self);
            assert(pairs_of(Seq::<Record<SessionData>>::empty()) =~= Seq::empty());
            lemma_empty::<SessionView>();
        }
        let mut entries: Vec<Record<SessionData>> = Vec::new();
        core::mem::swap(&mut self.entries, &mut entries);
        entries
    }

    /// Records `data` under `session_id`. An identifier that is already in
    /// use is refused, and the registry stays as it was.
    pub fn add_session(&mut self, session_id: String, data: SessionData) -> (r: Result<
        (),
        RegistryError,
    >)
        ensures
            old(self)@.contains_key(session_id@) <==> r is Err,
            r is Ok ==> final(self)@ == old(self)@.insert(session_id@, data@),
            r is Err ==> final(self)@ == old(self)@ && r == Err::<(), RegistryError>(
                RegistryError::IdCollision,
            ),
            final(self).policy() == old(self).policy(),
    {
        let mut entries = self.take_entries();
        let r = match find(&entries, session_id.as_str()) {
            Some(_) => Err(RegistryError::IdCollision),
            None => {
                append(&mut entries, session_id, data);
                Ok(())
            },
        };
        self.entries = entries;
        r
    }

    /// A copy of the session under `session_id`, where there is one.
    pub fn get_session(&self, session_id: &str) -> (r: Option<SessionData>)
        ensures
            r is Some <==> self@.contains_key(session_id@),
            r matches Some(data) ==> data@ == self@[session_id@],
    {
        proof {
            use_type_invariant(self);
        }
        match find(&self.entries, session_id) {
            Some(i) => Some(self.entries[i].value.clone()),
            None => None,
        }
    }

    /// Logs the session out: sets `is_valid` to false where the session
    /// exists, and does nothing where it does not.
    pub fn invalidate_session(&mut self, session_id: &str)
        ensures
            final(self)@ == after_invalidate(old(self)@, session_id@),
            final(self).policy() == old(self).policy(),
    {
        let mut entries = self.take_entries();
        match find(&entries, session_id) {
            Some(i) => {
                let last_activity = entries[i].value.last_activity;
                revise(&mut entries, i, last_activity, false);
            },
            None => {},
        }
        self.entries = entries;
    }

    /// Records activity at `now` on the session, where it exists.
    pub fn update_last_activity_at(&mut self, session_id: &str, now: Timestamp)
        ensures
            final(self)@ == after_touch(old(self)@, session_id@, now),
            final(self).policy() == old(self).policy(),
    {
        let mut entries = self.take_entries();
        match find(&entries, session_id) {
            Some(i) => {
                let is_valid = entries[i].value.is_valid;
                revise(&mut entries, i, now, is_valid);
            },
            None => {},
        }
        self.entries = entries;
    }

    /// Records activity on the session at the instant the system clock
    /// shows.
    pub fn update_last_activity(&mut self, session_id: &str)
        ensures
            exists|now: Timestamp|
                final(self)@ == #[trigger] after_touch(old(self)@, session_id@, now),
            final(self).policy() == old(self).policy(),
    {
        let now = clock_now();
        self.update_last_activity_at(session_id, now);
    }

    /// Takes the session out of the registry, where it exists.
    pub fn remove_session(&mut self, session_id: &str)
        ensures
            final(self)@ == old(self)@.remove(session_id@),
            final(self).policy() == old(self).policy(),
    {
        let mut entries = self.take_entries();
        match find(&entries, session_id) {
            Some(i) => {
                discard(&mut entries, i);
            },
            None => {
                assert(table_map(entries@).remove(session_id@) =~= table_map(entries@));
            },
        }
        self.entries = entries;
    }

    /// Opens a session under `session_id` for a user who was authenticated
    /// at `now` from the given fingerprint. An identifier that is already in
    /// use is refused, and the registry stays as it was.
    pub fn create_at(
        &mut self,
        session_id: String,
        user_id: String,
        username: String,
        client_ip: IpAddress,
        user_agent: String,
        now: Timestamp,
    ) -> (r: Result<(), RegistryError>)
        ensures
            old(self)@.contains_key(session_id@) <==> r is Err,
            r is Ok ==> final(self)@ == old(self)@.insert(
                session_id@,
                fresh_session(user_id@, username@, client_ip, user_agent@, now),
            ),
            r is Err ==> final(self)@ == old(self)@ && r == Err::<(), RegistryError>(
                RegistryError::IdCollision,
            ),
            final(self).policy() == old(self).policy(),
    {
        let data = SessionData {
            user_id,
            username,
            ip_address: client_ip,
            user_agent,
            created_at: now,
            last_activity: now,
            is_valid: true,
        };
        self.add_session(session_id, data)
    }

    /// Opens a session under a newly generated identifier, at the instant
    /// the system clock shows, and returns the identifier.
    ///
    /// Should the generator ever repeat an identifier that is in use, the
    /// call fails and the registry stays as it was. It fails for no other
    /// reason.
    pub fn create(
        &mut self,
        user_id: String,
        username: String,
        client_ip: IpAddress,
        user_agent: String,
    ) -> (r: Result<String, RegistryError>)
        ensures
            match r {
                Ok(session_id) => {
                    &&& session_id@.len() == SESSION_ID_LENGTH
                    &&& !old(self)@.contains_key(session_id@)
                    &&& exists|now: Timestamp|
                        final(self)@ == old(self)@.insert(
                            session_id@,
                            #[trigger] fresh_session(
                                user_id@,
                                username@,
                                client_ip,
                                user_agent@,
                                now,
                            ),
                        )
                },
                Err(e) => {
                    &&& e == RegistryError::IdCollision
                    &&& final(self)@ == old(self)@
                    &&& exists|taken: Seq<char>|
                        taken.len() == SESSION_ID_LENGTH && #[trigger] old(self)@.contains_key(taken)
                },
            },
            final(self).policy() == old(self).policy(),
    {
        let session_id = generate_session_id();
        let now = clock_now();
        match self.create_at(session_id.clone(), user_id, username, client_ip, user_agent, now) {
            Ok(()) => Ok(session_id),
            Err(e) => Err(e),
        }
    }

    /// Judges a request that presents `session_id` with the observed
    /// fingerprint at `now`, and applies what the verdict entails: an
    /// accepted request counts as activity, and under strict pinning a
    /// mismatch burns the session.
    pub fn validate(
        &mut self,
        session_id: &str,
        observed_ip: IpAddress,
        observed_user_agent: &str,
        now: Timestamp,
    ) -> (verdict: Verdict)
        ensures
            verdict == verdict_of(
                old(self)@,
                old(self).policy().timeout_secs,
                session_id@,
                observed_ip,
                observed_user_agent@,
                now,
            ),
            final(self)@ == after_validate(
                old(self)@,
                old(self).policy(),
                session_id@,
                observed_ip,
                observed_user_agent@,
                now,
            ),
            final(self).policy() == old(self).policy(),
    {
        let timeout_secs = self.policy.timeout_secs;
        let strict = self.policy.pinning == Pinning::Strict;
        let mut entries = self.take_entries();
        let verdict = match find(&entries, session_id) {
            None => Verdict::Rejected(RejectReason::NotFound),
            Some(i) => {
                let last_activity = entries[i].value.last_activity;
                if !entries[i].value.is_valid {
                    Verdict::Rejected(RejectReason::Invalidated)
                } else if is_older_than(now, last_activity, timeout_secs) {
                    Verdict::Rejected(RejectReason::Expired)
                } else if entries[i].value.ip_address != observed_ip {
                    if strict {
                        revise(&mut entries, i, last_activity, false);
                    }
                    Verdict::Rejected(RejectReason::HijackIpMismatch)
                } else if !same_text(entries[i].value.user_agent.as_str(), observed_user_agent) {
                    if strict {
                        revise(&mut entries, i, last_activity, false);
                    }
                    Verdict::Rejected(RejectReason::HijackUserAgentMismatch)
                } else {
                    revise(&mut entries, i, now, true);
                    Verdict::Accepted
                }
            },
        };
        self.entries = entries;
        verdict
    }

    /// Whether `session_id` names no session that is within the timeout at
    /// `now`. An unknown identifier counts as expired.
    pub fn is_session_expired_at(&self, session_id: &str, now: Timestamp) -> (r: bool)
        ensures
            r == gone_or_expired(self@, self.policy().timeout_secs, session_id@, now),
    {
        proof {
            use_type_invariant(self);
        }
        match find(&self.entries, session_id) {
            None => true,
            Some(i) => is_older_than(
                now,
                self.entries[i].value.last_activity,
                self.policy.timeout_secs,
            ),
        }
    }

    /// Removes every session that is expired at `now`, valid or not, and
    /// keeps every other session as it is.
    pub fn sweep(&mut self, now: Timestamp)
        ensures
            final(self)@ == after_sweep(old(self)@, old(self).policy().timeout_secs, now),
            final(self).policy() == old(self).policy(),
    {
        let timeout_secs = self.policy.timeout_secs;
        let mut entries = self.take_entries();
        let ghost before = table_map(entries@);
        sweep_records(&mut entries, timeout_secs, now);
        assert(unexpired::<SessionData>(before, timeout_secs, now) =~= after_sweep(
            before,
            timeout_secs,
            now,
        ));
        self.entries = entries;
    }
}

impl Dated for SessionData {
    /// A session's age is counted from its last activity.
    open spec fn counted_from(v: SessionView) -> Timestamp {
        v.last_activity
    }

    fn dated(&self) -> (t: Timestamp) {
        self.last_activity
    }
}

/// The operations that read the system clock.
pub trait SessionProtection {
    /// Judges the request at the instant the clock shows and applies what
    /// the verdict entails.
    fn validate_session(&mut self, session_id: &str, ip: IpAddress, user_agent: &str) -> Verdict;

    /// Whether the identifier names no session that is within the timeout
    /// now.
    fn is_session_expired(&self, session_id: &str) -> bool;

    /// Removes the sessions that are expired now.
    fn clear_expired_sessions(&mut self);
}

impl SessionProtection for SessionStore {
    fn validate_session(&mut self, session_id: &str, ip: IpAddress, user_agent: &str) -> (verdict:
        Verdict)
        ensures
            exists|now: Timestamp|
                {
                    &&& verdict == #[trigger] verdict_of(
                        old(self)@,
                        old(self).policy().timeout_secs,
                        session_id@,
                        ip,
                        user_agent@,
                        now,
                    )
                    &&& final(self)@ == after_validate(
                        old(self)@,
                        old(self).policy(),
                        session_id@,
                        ip,
                        user_agent@,
                        now,
                    )
                },
            final(self).policy() == old(self).policy(),
    {
        let now = clock_now();
        self.validate(session_id, ip, user_agent, now)
    }

    fn is_session_expired(&self, session_id: &str) -> (r: bool)
        ensures
            exists|now: Timestamp|
                r == #[trigger] gone_or_expired(
                    self@,
                    self.policy().timeout_secs,
                    session_id@,
                    now,
                ),
    {
        let now = clock_now();
        self.is_session_expired_at(session_id, now)
    }

    fn clear_expired_sessions(&mut self)
        ensures
            exists|now: Timestamp|
                final(self)@ == #[trigger] after_sweep(
                    old(self)@,
                    old(self).policy().timeout_secs,
                    now,
                ),
            final(self).policy() == old(self).policy(),
    {
        let now = clock_now();
        self.sweep(now);
    }
}

/// Asks `uuid::Uuid::new_v4` for a random version-4 UUID and renders it
/// through its `Display`, which writes the hyphenated lower-case form: 36
/// characters. Which text comes back differs from call to call; only its
/// length is claimed.
#[verifier::external_body]
fn generate_session_id() -> (id: String)
    ensures
        id@.len() == SESSION_ID_LENGTH,
{
    uuid::Uuid::new_v4().to_string()
}

} // verus!

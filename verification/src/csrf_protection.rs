//! The registry of anti-forgery tokens.
//!
//! A token is issued on request and may be presented any number of times
//! until it is older than the time-to-live or is removed: checking a token
//! never consumes it.

use vstd::prelude::*;
use vstd::string::{StrSliceExecFns, StringExecFns};
use rand::Rng;
use crate::registry::{append, discard, find, sweep_records, Dated, Record};
use crate::registry::{pairs_of, table_map, table_ok, unexpired};
use crate::registry::{lemma_empty, RegistryError};
use crate::text::same_text;
use crate::time::{clock_now, is_older_than, older_than, Timestamp, DEFAULT_TOKEN_TTL_SECS};

verus! {

/// The number of characters in a generated token.
pub const TOKEN_LENGTH: usize = 32;

/// What the registry keeps of a token besides its text.
struct CsrfToken {
    created_at: Timestamp,
    user_id: Option<String>,
}

/// The mathematical value of a stored token.
pub struct TokenView {
    /// When the token was issued.
    pub created_at: Timestamp,
    /// Whom the token was issued to, where it is scoped to an owner.
    pub owner: Option<Seq<char>>,
}

impl View for CsrfToken {
    type V = TokenView;

    closed spec fn view(&self) -> TokenView {
        TokenView { created_at: self.created_at, owner: owner_of(self.user_id) }
    }
}

impl Dated for CsrfToken {
    /// A token's age is counted from its issue.
    open spec fn counted_from(v: TokenView) -> Timestamp {
        v.created_at
    }

    fn dated(&self) -> (t: Timestamp) {
        self.created_at
    }
}

/// The owner that an optional string names.
pub open spec fn owner_of(owner: Option<String>) -> Option<Seq<char>> {
    match owner {
        Some(name) => Some(name@),
        None => None,
    }
}

/// The owner that an optional string slice names.
pub open spec fn presented_owner(owner: Option<&str>) -> Option<Seq<char>> {
    match owner {
        Some(name) => Some(name@),
        None => None,
    }
}

/// The token that is recorded when one is issued to `owner` at `now`.
pub open spec fn issued_token(now: Timestamp, owner: Option<Seq<char>>) -> TokenView {
    TokenView { created_at: now, owner }
}

/// Whether a token is older than `ttl_secs` seconds at `now`.
pub open spec fn token_expired(t: TokenView, ttl_secs: u64, now: Timestamp) -> bool {
    older_than(now, t.created_at, ttl_secs)
}

/// Whether `token` passes for a caller who presents `owner` at `now`, in a
/// registry with the given time-to-live.
///
/// The token must be known and not expired. A caller who presents an owner
/// passes only with a token that was issued to that very owner; a caller who
/// presents none passes with any such token.
pub open spec fn token_passes(
    m: Map<Seq<char>, TokenView>,
    ttl_secs: u64,
    token: Seq<char>,
    owner: Option<Seq<char>>,
    now: Timestamp,
) -> bool {
    &&& m.contains_key(token)
    &&& !token_expired(m[token], ttl_secs, now)
    &&& owner is Some ==> m[token].owner == owner
}

/// The registry after a sweep at `now`: the tokens that are not expired.
pub open spec fn after_token_sweep(m: Map<Seq<char>, TokenView>, ttl_secs: u64, now: Timestamp) -> Map<
    Seq<char>,
    TokenView,
> {
    Map::new(
        |token: Seq<char>| m.contains_key(token) && !token_expired(m[token], ttl_secs, now),
        |token: Seq<char>| m[token],
    )
}

/// The characters a generated token is drawn from: the upper-case letters,
/// the lower-case letters and the digits.
pub open spec fn token_alphabet() -> Seq<char> {
    "ABCDEFGHIJKLMNOPQRSTUVWXYZabcdefghijklmnopqrstuvwxyz0123456789"@
}

/// The number of characters in the alphabet.
pub const ALPHABET_SIZE: usize = 62;

/// The alphabet has `ALPHABET_SIZE` characters.
pub proof fn lemma_alphabet_size()
    ensures
        token_alphabet().len() == ALPHABET_SIZE,
{
    reveal_strlit("ABCDEFGHIJKLMNOPQRSTUVWXYZabcdefghijklmnopqrstuvwxyz0123456789");
}

/// Whether every character of `text` is one of the alphabet.
pub open spec fn drawn_from_alphabet(text: Seq<char>) -> bool {
    forall|i: int| 0 <= i < text.len() ==> token_alphabet().contains(#[trigger] text[i])
}

/// The text that picking the alphabet's characters at `picks` gives.
pub open spec fn spelled(picks: Seq<usize>) -> Seq<char> {
    Seq::new(picks.len(), |i: int| token_alphabet()[picks[i] as int])
}

/// Whether every pick is a position in the alphabet.
pub open spec fn within_alphabet(picks: Seq<usize>) -> bool {
    forall|i: int| 0 <= i < picks.len() ==> picks[i] < token_alphabet().len()
}

/// Spells the characters that stand at `picks` in the alphabet, or gives
/// `None` where a pick lies beyond the alphabet.
pub fn spell(picks: &Vec<usize>) -> (r: Option<String>)
    ensures
        r is Some <==> within_alphabet(picks@),
        r matches Some(text) ==> text@ == spelled(picks@) && drawn_from_alphabet(text@),
{
    proof {
        lemma_alphabet_size();
    }
    let mut i: usize = 0;
    while i < picks.len()
        invariant
            i <= picks@.len(),
            token_alphabet().len() == ALPHABET_SIZE,
            forall|j: int| 0 <= j < i ==> picks@[j] < token_alphabet().len(),
        decreases picks@.len() - i,
    {
        if picks[i] >= ALPHABET_SIZE {
            return None;
        }
        i += 1;
    }
    Some(spell_within(picks))
}

fn spell_within(picks: &Vec<usize>) -> (text: String)
    requires
        within_alphabet(picks@),
    ensures
        text@ == spelled(picks@),
        drawn_from_alphabet(text@),
{
    let alphabet = "ABCDEFGHIJKLMNOPQRSTUVWXYZabcdefghijklmnopqrstuvwxyz0123456789";
    proof {
        lemma_alphabet_size();
    }
    let mut text = String::new();
    let mut i: usize = 0;
    while i < picks.len()
        invariant
            i <= picks@.len(),
            alphabet@ == token_alphabet(),
            token_alphabet().len() == ALPHABET_SIZE,
            within_alphabet(picks@),
            text@ == spelled(picks@.take(i as int)),
        decreases picks@.len() - i,
    {
        let at = picks[i];
        let piece = alphabet.substring_char(at, at + 1);
        text.append(piece);
        proof {
            assert(piece@ =~= seq![token_alphabet()[at as int]]);
            assert(text@ =~= spelled(picks@.take(i + 1)));
        }
        i += 1;
    }
    proof {
        assert(picks@.take(i as int) =~= picks@);
        assert forall|j: int| 0 <= j < text@.len() implies token_alphabet().contains(
            #[trigger] text@[j],
        ) by {
            assert(text@[j] == token_alphabet()[picks@[j] as int]);
        }
    }
    text
}

/// A text of `length` characters, each drawn at random from the alphabet.
pub fn generate_random_token(length: usize) -> (token: String)
    ensures
        token@.len() == length,
        drawn_from_alphabet(token@),
{
    proof {
        lemma_alphabet_size();
    }
    let mut picks: Vec<usize> = Vec::new();
    let mut i: usize = 0;
    while i < length
        invariant
            i <= length,
            picks@.len() == i,
            token_alphabet().len() == ALPHABET_SIZE,
            within_alphabet(picks@),
        decreases length - i,
    {
        picks.push(random_index(ALPHABET_SIZE));
        i += 1;
    }
    spell_within(&picks)
}

/// The tokens of one process, each reachable by its text alone.
pub struct CsrfStore {
    tokens: Vec<Record<CsrfToken>>,
    ttl_secs: u64,
}

impl View for CsrfStore {
    type V = Map<Seq<char>, TokenView>;

    closed spec fn view(&self) -> Map<Seq<char>, TokenView> {
        table_map(self.tokens@)
    }
}

impl CsrfStore {
    #[verifier::type_invariant]
    spec fn well_formed(self) -> bool {
        table_ok(self.tokens@)
    }

    /// The seconds a token of this registry stays usable. No operation
    /// changes them.
    pub closed spec fn spec_ttl_secs(&self) -> u64 {
        self.ttl_secs
    }

    /// The seconds a token of this registry stays usable.
    #[verifier::when_used_as_spec(spec_ttl_secs)]
    pub fn ttl_secs(&self) -> (ttl: u64)
        ensures
            ttl == self.spec_ttl_secs(),
    {
        self.ttl_secs
    }

    /// An empty registry whose tokens live for one day.
    pub fn new() -> (store: CsrfStore)
        ensures
            store@ == Map::<Seq<char>, TokenView>::empty(),
            store.ttl_secs() == DEFAULT_TOKEN_TTL_SECS,
    {
        CsrfStore::with_ttl(DEFAULT_TOKEN_TTL_SECS)
    }

    /// An empty registry whose tokens live for `ttl_secs` seconds.
    pub fn with_ttl(ttl_secs: u64) -> (store: CsrfStore)
        ensures
            store@ == Map::<Seq<char>, TokenView>::empty(),
            store.ttl_secs() == ttl_secs,
    {
        let store = CsrfStore { tokens: Vec::new(), ttl_secs };
        proof {
            lemma_empty::<TokenView>();
            assert(pairs_of(store.tokens@) =~= Seq::empty());
        }
        store
    }

    /// Moves the records out and leaves the registry empty until they are
    /// put back.
    fn take_tokens(&mut self) -> (tokens: Vec<Record<CsrfToken>>)
        ensures
            table_ok(tokens@),
            table_map(tokens@) == old(self)@,
            final(self).ttl_secs == old(self).ttl_secs,
    {
        proof {
            use_type_invariant(&*self);
            assert(pairs_of(Seq::<Record<CsrfToken>>::empty()) =~= Seq::empty());
            lemma_empty::<TokenView>();
        }
        let mut tokens: Vec<Record<CsrfToken>> = Vec::new();
        core::mem::swap(&mut self.tokens, &mut tokens);
        tokens
    }

    /// Records `token` as issued to `owner` at `now`. A text that is already
    /// in use is refused, and the registry stays as it was.
    pub fn issue(&mut self, token: String, owner: Option<String>, now: Timestamp) -> (r: Result<
        (),
        RegistryError,
    >)
        ensures
            old(self)@.contains_key(token@) <==> r is Err,
            r is Ok ==> final(self)@ == old(self)@.insert(
                token@,
                issued_token(now, owner_of(owner)),
            ),
            r is Err ==> final(self)@ == old(self)@ && r == Err::<(), RegistryError>(
                RegistryError::IdCollision,
            ),
            final(self).ttl_secs() == old(self).ttl_secs(),
    {
        let mut tokens = self.take_tokens();
        let r = match find(&tokens, token.as_str()) {
            Some(_) => Err(RegistryError::IdCollision),
            None => {
                append(&mut tokens, token, CsrfToken { created_at: now, user_id: owner });
                Ok(())
            },
        };
        self.tokens = tokens;
        r
    }

    /// Issues a newly generated token to `user_id`, at the instant the
    /// system clock shows, and returns its text.
    ///
    /// Should the generator ever repeat a text that is in use, the call
    /// fails and the registry stays as it was. It fails for no other reason.
    pub fn generate_token(&mut self, user_id: Option<String>) -> (r: Result<String, RegistryError>)
        ensures
            match r {
                Ok(token) => {
                    &&& token@.len() == TOKEN_LENGTH
                    &&& drawn_from_alphabet(token@)
                    &&& !old(self)@.contains_key(token@)
                    &&& exists|now: Timestamp|
                        final(self)@ == old(self)@.insert(
                            token@,
                            #[trigger] issued_token(now, owner_of(user_id)),
                        )
                },
                Err(e) => {
                    &&& e == RegistryError::IdCollision
                    &&& final(self)@ == old(self)@
                    &&& exists|taken: Seq<char>|
                        taken.len() == TOKEN_LENGTH && drawn_from_alphabet(taken)
                            && #[trigger] old(self)@.contains_key(taken)
                },
            },
            final(self).ttl_secs() == old(self).ttl_secs(),
    {
        let token = generate_random_token(TOKEN_LENGTH);
        let now = clock_now();
        match self.issue(token.clone(), user_id, now) {
            Ok(()) => Ok(token),
            Err(e) => Err(e),
        }
    }

    /// Whether `token` passes for a caller who presents `owner` at `now`.
    /// The registry is only read.
    pub fn validate(&self, token: &str, owner: Option<&str>, now: Timestamp) -> (r: bool)
        ensures
            r == token_passes(self@, self.ttl_secs(), token@, presented_owner(owner), now),
    {
        proof {
            use_type_invariant(self);
        }
        match find(&self.tokens, token) {
            None => false,
            Some(i) => {
                let data = &self.tokens[i].value;
                if is_older_than(now, data.created_at, self.ttl_secs) {
                    false
                } else {
                    match owner {
                        None => true,
                        Some(presented) => match &data.user_id {
                            Some(issued_to) => same_text(presented, issued_to.as_str()),
                            None => false,
                        },
                    }
                }
            },
        }
    }

    /// `validate` at the instant the system clock shows.
    pub fn validate_token(&self, token: &str, user_id: Option<&str>) -> (r: bool)
        ensures
            exists|now: Timestamp|
                r == #[trigger] token_passes(
                    self@,
                    self.ttl_secs(),
                    token@,
                    presented_owner(user_id),
                    now,
                ),
    {
        let now = clock_now();
        self.validate(token, user_id, now)
    }

    /// Revokes the token, where it exists.
    pub fn remove_token(&mut self, token: &str)
        ensures
            final(self)@ == old(self)@.remove(token@),
            final(self).ttl_secs() == old(self).ttl_secs(),
    {
        let mut tokens = self.take_tokens();
        match find(&tokens, token) {
            Some(i) => {
                discard(&mut tokens, i);
            },
            None => {
                assert(table_map(tokens@).remove(token@) =~= table_map(tokens@));
            },
        }
        self.tokens = tokens;
    }

    /// Removes every token that is expired at `now` and keeps every other
    /// token as it is.
    pub fn sweep(&mut self, now: Timestamp)
        ensures
            final(self)@ == after_token_sweep(old(self)@, old(self).ttl_secs(), now),
            final(self).ttl_secs() == old(self).ttl_secs(),
    {
        let ttl_secs = self.ttl_secs;
        let mut tokens = self.take_tokens();
        let ghost before = table_map(tokens@);
        sweep_records(&mut tokens, ttl_secs, now);
        assert(unexpired::<CsrfToken>(before, ttl_secs, now) =~= after_token_sweep(
            before,
            ttl_secs,
            now,
        ));
        self.tokens = tokens;
    }

    /// Removes the tokens that are expired at the instant the system clock
    /// shows.
    pub fn clean_expired_tokens(&mut self)
        ensures
            exists|now: Timestamp|
                final(self)@ == #[trigger] after_token_sweep(
                    old(self)@,
                    old(self).ttl_secs(),
                    now,
                ),
            final(self).ttl_secs() == old(self).ttl_secs(),
    {
        let now = clock_now();
        self.sweep(now);
    }
}

/// Draws an index below `bound` from the thread-local generator:
/// `rand::rng()` and `Rng::random_range` over the half-open range from zero
/// to `bound`. The range must not be empty, or the call panics. Which index
/// comes back differs from call to call; it always lies in the range.
#[verifier::external_body]
fn random_index(bound: usize) -> (r: usize)
    requires
        bound > 0,
    ensures
        r < bound,
{
    rand::rng().random_range(0..bound)
}

/// Checking a token does not consume it: a token that passed passes again
/// for the same caller at any instant at which it is not expired.
pub proof fn lemma_validation_repeats(
    m: Map<Seq<char>, TokenView>,
    ttl_secs: u64,
    token: Seq<char>,
    owner: Option<Seq<char>>,
    first: Timestamp,
    second: Timestamp,
)
    requires
        token_passes(m, ttl_secs, token, owner, first),
        !token_expired(m[token], ttl_secs, second),
    ensures
        token_passes(m, ttl_secs, token, owner, second),
{
}

/// A caller who presents an owner is turned down by a token that was issued
/// to another owner and by a token that was issued to none; a token that
/// passes for that caller was issued to that very owner.
pub proof fn lemma_owner_scope(
    m: Map<Seq<char>, TokenView>,
    ttl_secs: u64,
    token: Seq<char>,
    owner: Seq<char>,
    now: Timestamp,
)
    requires
        m.contains_key(token),
    ensures
        m[token].owner is None ==> !token_passes(m, ttl_secs, token, Some(owner), now),
        m[token].owner matches Some(issued_to) && issued_to != owner ==> !token_passes(
            m,
            ttl_secs,
            token,
            Some(owner),
            now,
        ),
        token_passes(m, ttl_secs, token, Some(owner), now) ==> m[token].owner == Some(owner),
{
}

/// A caller who presents no owner passes with every token that is known and
/// not expired, whomever it was issued to.
pub proof fn lemma_unscoped_check(
    m: Map<Seq<char>, TokenView>,
    ttl_secs: u64,
    token: Seq<char>,
    now: Timestamp,
)
    ensures
        token_passes(m, ttl_secs, token, None, now) <==> m.contains_key(token) && !token_expired(
            m[token],
            ttl_secs,
            now,
        ),
{
}

/// A sweep removes exactly the tokens that are expired at its instant, and
/// leaves the others unchanged.
pub proof fn lemma_token_sweep_removes_exactly_expired(
    m: Map<Seq<char>, TokenView>,
    ttl_secs: u64,
    now: Timestamp,
    token: Seq<char>,
)
    ensures
        after_token_sweep(m, ttl_secs, now).contains_key(token) <==> m.contains_key(token)
            && !token_expired(m[token], ttl_secs, now),
        after_token_sweep(m, ttl_secs, now).contains_key(token) ==> after_token_sweep(
            m,
            ttl_secs,
            now,
        )[token] == m[token],
{
}

/// A second sweep at the same instant changes nothing.
pub proof fn lemma_token_sweep_idempotent(m: Map<Seq<char>, TokenView>, ttl_secs: u64, now: Timestamp)
    ensures
        after_token_sweep(after_token_sweep(m, ttl_secs, now), ttl_secs, now) == after_token_sweep(
            m,
            ttl_secs,
            now,
        ),
{
    assert(after_token_sweep(after_token_sweep(m, ttl_secs, now), ttl_secs, now)
        =~= after_token_sweep(m, ttl_secs, now));
}

/// A sweep takes nothing away that would still pass at its instant.
pub proof fn lemma_token_sweep_keeps_verdicts(
    m: Map<Seq<char>, TokenView>,
    ttl_secs: u64,
    token: Seq<char>,
    owner: Option<Seq<char>>,
    now: Timestamp,
)
    ensures
        token_passes(after_token_sweep(m, ttl_secs, now), ttl_secs, token, owner, now)
            == token_passes(m, ttl_secs, token, owner, now),
{
}

} // verus!

use vstd::prelude::*;
use vstd::hash_map::StringHashMap;
use vstd::string::{StrSliceExecFns, StringExecFns};
use rand::Rng;
use crate::text::opt_text;

verus! {

broadcast use vstd::string::group_string_axioms;

/// Length of every session token.
pub const TOKEN_LEN: usize = 32;

/// Number of symbols a token character is drawn from.
pub const TOKEN_SYMBOLS: usize = 62;

/// The symbol that draw `c` (below `TOKEN_SYMBOLS`) stands for: `'0' + c`
/// for the first ten, then `'a' + (c - 10)`, then `'A' + (c - 36)`.
pub open spec fn token_symbol(c: int) -> char {
    if c < 10 {
        (48 + c) as char
    } else if c < 36 {
        (97 + (c - 10)) as char
    } else {
        (65 + (c - 36)) as char
    }
}

/// The symbols a token is drawn from: digits, then lower case, then upper case.
pub open spec fn token_alphabet() -> Seq<char> {
    Seq::new(TOKEN_SYMBOLS as nat, |c: int| token_symbol(c))
}

/// `TOKEN_LEN` draws, each below `TOKEN_SYMBOLS`.
pub open spec fn valid_draws(draws: Seq<usize>) -> bool {
    &&& draws.len() == TOKEN_LEN
    &&& forall|i: int| 0 <= i < draws.len() ==> #[trigger] draws[i] < TOKEN_SYMBOLS
}

/// The token that a sequence of draws spells: one symbol per draw.
pub open spec fn token_of(draws: Seq<usize>) -> Seq<char> {
    Seq::new(TOKEN_LEN as nat, |i: int| token_symbol(draws[i] as int))
}

/// A well-formed session token: `TOKEN_LEN` symbols of the token alphabet.
pub open spec fn is_token(t: Seq<char>) -> bool {
    &&& t.len() == TOKEN_LEN
    &&& forall|i: int| 0 <= i < t.len() ==> token_alphabet().contains(#[trigger] t[i])
}

/// The username that `token` maps to in `sessions`, if any.
pub open spec fn lookup(sessions: Map<Seq<char>, Seq<char>>, token: Seq<char>) -> Option<
    Seq<char>,
> {
    if sessions.contains_key(token) {
        Some(sessions[token])
    } else {
        None
    }
}

/// Relies on rand's thread-local generator and `Rng::random_range`, which
/// yields a value in `0..bound` and panics only on an empty range.
#[verifier::external_body]
fn random_below(bound: usize) -> (r: usize)
    requires
        0 < bound,
    ensures
        r < bound,
{
    rand::rng().random_range(0..bound)
}

/// The token spelled by `draws`, one symbol per draw.
pub fn token_from_draws(draws: &Vec<usize>) -> (t: String)
    requires
        valid_draws(draws@),
    ensures
        t@ == token_of(draws@),
{
    let alphabet = "0123456789abcdefghijklmnopqrstuvwxyzABCDEFGHIJKLMNOPQRSTUVWXYZ";
    proof {
        reveal_strlit("0123456789abcdefghijklmnopqrstuvwxyzABCDEFGHIJKLMNOPQRSTUVWXYZ");
        assert(alphabet@ =~= token_alphabet());
    }
    let mut token = String::new();
    let mut n: usize = 0;
    while n < TOKEN_LEN
        invariant
            alphabet@ == token_alphabet(),
            valid_draws(draws@),
            n <= TOKEN_LEN,
            token@ =~= token_of(draws@).take(n as int),
        decreases TOKEN_LEN - n,
    {
        let k = draws[n];
        let symbol = alphabet.substring_char(k, k + 1);
        token.append(symbol);
        assert(token@ =~= token_of(draws@).take(n + 1));
        n += 1;
    }
    token
}

/// Every token spelled by valid draws is well-formed.
pub proof fn lemma_token_of_is_token(draws: Seq<usize>)
    requires
        valid_draws(draws),
    ensures
        is_token(token_of(draws)),
{
    assert forall|i: int| 0 <= i < token_of(draws).len() implies token_alphabet().contains(
        #[trigger] token_of(draws)[i],
    ) by {
        assert(token_alphabet()[draws[i] as int] == token_of(draws)[i]);
    }
}

/// Different draws spell different tokens: no two symbols of the alphabet
/// are alike.
pub proof fn lemma_distinct_draws_distinct_tokens(d1: Seq<usize>, d2: Seq<usize>)
    requires
        valid_draws(d1),
        valid_draws(d2),
        d1 != d2,
    ensures
        token_of(d1) != token_of(d2),
{
    if token_of(d1) == token_of(d2) {
        assert forall|i: int| 0 <= i < TOKEN_LEN implies d1[i] == d2[i] by {
            assert(token_of(d1)[i] == token_of(d2)[i]);
            assert(token_symbol(d1[i] as int) as u32 == token_symbol(d2[i] as int) as u32);
        }
        assert(d1 =~= d2);
    }
}

/// In-memory map from session token to the username it was issued for.
/// Sessions have no expiry: an entry lives until it is removed.
pub struct SessionStore {
    sessions: StringHashMap<String>,
}

impl View for SessionStore {
    type V = Map<Seq<char>, Seq<char>>;

    closed spec fn view(&self) -> Map<Seq<char>, Seq<char>> {
        self.sessions@.map_values(|u: String| u@)
    }
}

impl SessionStore {
    pub fn new() -> (r: Self)
        ensures
            r@ == Map::<Seq<char>, Seq<char>>::empty(),
    {
        let r = SessionStore { sessions: StringHashMap::new() };
        assert(r@ =~= Map::<Seq<char>, Seq<char>>::empty());
        r
    }

    /// A fresh token: `TOKEN_LEN` symbols, each drawn uniformly from the
    /// token alphabet.
    fn generate_token() -> (t: String)
        ensures
            is_token(t@),
            exists|d: Seq<usize>| valid_draws(d) && t@ == token_of(d),
    {
        let mut draws: Vec<usize> = Vec::new();
        while draws.len() < TOKEN_LEN
            invariant
                draws@.len() <= TOKEN_LEN,
                forall|i: int| 0 <= i < draws@.len() ==> #[trigger] draws@[i] < TOKEN_SYMBOLS,
            decreases TOKEN_LEN - draws@.len(),
        {
            draws.push(random_below(TOKEN_SYMBOLS));
        }
        let t = token_from_draws(&draws);
        proof {
            lemma_token_of_is_token(draws@);
        }
        t
    }

    /// Issues a new token for `user_name` and records it. A token that is
    /// already held (a random collision) is taken over by the new session.
    pub fn add_session(&mut self, user_name: &str) -> (token: String)
        ensures
            is_token(token@),
            exists|d: Seq<usize>| valid_draws(d) && token@ == token_of(d),
            final(self)@ == old(self)@.insert(token@, user_name@),
    {
        let token = Self::generate_token();
        let ghost t = token@;
        self.sessions.insert(token.clone(), user_name.to_string());
        assert(self@ =~= old(self)@.insert(t, user_name@));
        token
    }

    /// The username that `token` was issued for, if it is held.
    pub fn get_user(&self, token: &str) -> (r: Option<String>)
        ensures
            opt_text(r) == lookup(self@, token@),
    {
        match self.sessions.get(token) {
            Some(u) => Some(u.clone()),
            None => None,
        }
    }

    /// Removes the session of `token`; returns its username if it was held.
    pub fn remove_session(&mut self, token: &str) -> (r: Option<String>)
        ensures
            opt_text(r) == lookup(old(self)@, token@),
            final(self)@ == old(self)@.remove(token@),
    {
        let r = self.get_user(token);
        self.sessions.remove(token);
        assert(self@ =~= old(self)@.remove(token@));
        r
    }

    /// Whether `token` is held.
    pub fn has_session(&self, token: &str) -> (r: bool)
        ensures
            r == self@.contains_key(token@),
    {
        self.sessions.contains_key(token)
    }
}

/// Right after a session is issued, its token resolves to the username it
/// was issued for, and every other token resolves as it did before.
pub proof fn lemma_issued_token_resolves(
    sessions: Map<Seq<char>, Seq<char>>,
    token: Seq<char>,
    user: Seq<char>,
    other: Seq<char>,
)
    ensures
        lookup(sessions.insert(token, user), token) == Some(user),
        other != token ==> lookup(sessions.insert(token, user), other) == lookup(sessions, other),
{
}

/// Revoking a held token twice: the first revocation yields the username it
/// was issued for; the second yields nothing and changes nothing; afterwards
/// the token resolves to nothing.
pub proof fn lemma_revoke_idempotent(
    sessions: Map<Seq<char>, Seq<char>>,
    token: Seq<char>,
    user: Seq<char>,
)
    requires
        lookup(sessions, token) == Some(user),
    ensures
        lookup(sessions.remove(token), token) is None,
        sessions.remove(token).remove(token) == sessions.remove(token),
{
    assert(sessions.remove(token).remove(token) =~= sessions.remove(token));
}

/// One change to a session store: `add_session` issuing `token` for
/// `user`, or `remove_session` revoking `token`.
pub enum SessionEvent {
    Issued { token: Seq<char>, user: Seq<char> },
    Revoked { token: Seq<char> },
}

/// The token that an event concerns.
pub open spec fn event_token(e: SessionEvent) -> Seq<char> {
    match e {
        SessionEvent::Issued { token, .. } => token,
        SessionEvent::Revoked { token } => token,
    }
}

/// The sessions after one event, as `add_session` and `remove_session` state it.
pub open spec fn apply_event(
    sessions: Map<Seq<char>, Seq<char>>,
    e: SessionEvent,
) -> Map<Seq<char>, Seq<char>> {
    match e {
        SessionEvent::Issued { token, user } => sessions.insert(token, user),
        SessionEvent::Revoked { token } => sessions.remove(token),
    }
}

/// The sessions after a series of events, taken one at a time in order (as
/// the lock that guards a shared store serialises them).
pub open spec fn replay(
    sessions: Map<Seq<char>, Seq<char>>,
    events: Seq<SessionEvent>,
) -> Map<Seq<char>, Seq<char>>
    decreases events.len(),
{
    if events.len() == 0 {
        sessions
    } else {
        replay(apply_event(sessions, events[0]), events.drop_first())
    }
}

/// Whether one of `events` issues `token` anew.
pub open spec fn reissues(events: Seq<SessionEvent>, token: Seq<char>) -> bool {
    exists|i: int| 0 <= i < events.len() && #[trigger] events[i] is Issued && event_token(events[i]) == token
}

/// Events that do not concern `token` leave its session as it was.
pub proof fn lemma_untouched_token_kept(
    sessions: Map<Seq<char>, Seq<char>>,
    token: Seq<char>,
    events: Seq<SessionEvent>,
)
    requires
        forall|i: int| 0 <= i < events.len() ==> event_token(#[trigger] events[i]) != token,
    ensures
        lookup(replay(sessions, events), token) == lookup(sessions, token),
    decreases events.len(),
{
    if events.len() > 0 {
        let rest = events.drop_first();
        assert forall|i: int| 0 <= i < rest.len() implies event_token(#[trigger] rest[i]) != token by {
            assert(rest[i] == events[i + 1]);
        }
        assert(event_token(events[0]) != token);
        lemma_untouched_token_kept(apply_event(sessions, events[0]), token, rest);
    }
}

/// An issued token keeps resolving to its username through any later events
/// that neither revoke it nor issue it again.
pub proof fn lemma_issued_token_keeps_resolving(
    sessions: Map<Seq<char>, Seq<char>>,
    token: Seq<char>,
    user: Seq<char>,
    events: Seq<SessionEvent>,
)
    requires
        forall|i: int| 0 <= i < events.len() ==> event_token(#[trigger] events[i]) != token,
    ensures
        lookup(replay(sessions.insert(token, user), events), token) == Some(user),
{
    lemma_untouched_token_kept(sessions.insert(token, user), token, events);
}

/// A token that is not held stays unheld through events that do not issue
/// it: further revocations of it find nothing.
pub proof fn lemma_absent_token_stays_absent(
    sessions: Map<Seq<char>, Seq<char>>,
    token: Seq<char>,
    events: Seq<SessionEvent>,
)
    requires
        !sessions.contains_key(token),
        !reissues(events, token),
    ensures
        lookup(replay(sessions, events), token) is None,
    decreases events.len(),
{
    if events.len() > 0 {
        let rest = events.drop_first();
        assert(!(events[0] is Issued && event_token(events[0]) == token));
        if reissues(rest, token) {
            let i = choose|i: int|
                0 <= i < rest.len() && #[trigger] rest[i] is Issued && event_token(rest[i]) == token;
            assert(events[i + 1] == rest[i]);
        }
        lemma_absent_token_stays_absent(apply_event(sessions, events[0]), token, rest);
    }
}

/// A revoked token resolves to nothing after any later events that do not
/// issue it again; revoking it again returns nothing and changes nothing.
pub proof fn lemma_revoked_token_stays_revoked(
    sessions: Map<Seq<char>, Seq<char>>,
    token: Seq<char>,
    events: Seq<SessionEvent>,
)
    requires
        !reissues(events, token),
    ensures
        lookup(replay(sessions.remove(token), events), token) is None,
        replay(sessions.remove(token), events).remove(token) == replay(
            sessions.remove(token),
            events,
        ),
{
    lemma_absent_token_stays_absent(sessions.remove(token), token, events);
    let after = replay(sessions.remove(token), events);
    assert(after.remove(token) =~= after);
}

/// Issued tokens, pairwise distinct and new to the store.
pub open spec fn fresh_issues(sessions: Map<Seq<char>, Seq<char>>, events: Seq<SessionEvent>) -> bool {
    &&& forall|i: int| 0 <= i < events.len() ==> #[trigger] events[i] is Issued
    &&& forall|i: int|
        0 <= i < events.len() ==> !sessions.contains_key(event_token(#[trigger] events[i]))
    &&& forall|i: int, j: int|
        0 <= i < j < events.len() ==> event_token(#[trigger] events[i]) != event_token(
            #[trigger] events[j],
        )
}

/// N sessions issued one after another under distinct, new tokens: every
/// token resolves to its own username, every earlier session is kept, and
/// the store grows by exactly N.
pub proof fn lemma_sessions_issued_in_turn(
    sessions: Map<Seq<char>, Seq<char>>,
    events: Seq<SessionEvent>,
)
    requires
        sessions.dom().finite(),
        fresh_issues(sessions, events),
    ensures
        forall|i: int|
            0 <= i < events.len() ==> #[trigger] lookup(replay(sessions, events), event_token(events[i]))
                == Some(events[i]->Issued_user),
        forall|t: Seq<char>|
            sessions.contains_key(t) ==> #[trigger] lookup(replay(sessions, events), t) == lookup(
                sessions,
                t,
            ),
        replay(sessions, events).dom().finite(),
        replay(sessions, events).len() == sessions.len() + events.len(),
    decreases events.len(),
{
    if events.len() > 0 {
        let first = events[0];
        let rest = events.drop_first();
        let next = apply_event(sessions, first);
        assert(first is Issued);
        assert(!sessions.contains_key(event_token(first)));
        assert(next == sessions.insert(event_token(first), first->Issued_user));
        assert(next.len() == sessions.len() + 1);
        assert forall|i: int| 0 <= i < rest.len() implies #[trigger] rest[i] is Issued by {
            assert(rest[i] == events[i + 1]);
        }
        assert forall|i: int| 0 <= i < rest.len() implies !next.contains_key(
            event_token(#[trigger] rest[i]),
        ) by {
            assert(rest[i] == events[i + 1]);
            assert(event_token(events[0]) != event_token(events[i + 1]));
        }
        assert forall|i: int, j: int| 0 <= i < j < rest.len() implies event_token(
            #[trigger] rest[i],
        ) != event_token(#[trigger] rest[j]) by {
            assert(rest[i] == events[i + 1]);
            assert(rest[j] == events[j + 1]);
        }
        lemma_sessions_issued_in_turn(next, rest);
        assert forall|i: int| 0 <= i < events.len() implies #[trigger] lookup(
            replay(sessions, events),
            event_token(events[i]),
        ) == Some(events[i]->Issued_user) by {
            if i > 0 {
                assert(rest[i - 1] == events[i]);
            } else {
                assert(next.contains_key(event_token(first)));
            }
        }
        assert forall|t: Seq<char>| sessions.contains_key(t) implies #[trigger] lookup(
            replay(sessions, events),
            t,
        ) == lookup(sessions, t) by {
            assert(next.contains_key(t));
        }
    }
}

impl Default for SessionStore {
    fn default() -> (r: Self)
        ensures
            r@ == Map::<Seq<char>, Seq<char>>::empty(),
    {
        Self::new()
    }
}

} // verus!

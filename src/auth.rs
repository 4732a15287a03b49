use vstd::prelude::*;
use vstd::string::StringExecFns;
use crate::cookie::{parse_session_token, session_token_of};
use crate::session::{
    event_token, lemma_issued_token_keeps_resolving, lemma_revoked_token_stays_revoked, lookup,
    reissues, replay, SessionEvent, SessionStore,
};
use crate::text::{opt_str, opt_text};

verus! {

broadcast use vstd::string::group_string_axioms;

/// The session token that a request carries, given its `Cookie` header.
pub open spec fn request_token(cookie_header: Option<Seq<char>>) -> Option<Seq<char>> {
    match cookie_header {
        Some(h) => session_token_of(h),
        None => None,
    }
}

/// The identity under which a protected request proceeds: the username its session
/// token maps to. `None` means the request is rejected as unauthorized.
pub open spec fn authorized_identity(
    sessions: Map<Seq<char>, Seq<char>>,
    cookie_header: Option<Seq<char>>,
) -> Option<Seq<char>> {
    match request_token(cookie_header) {
        Some(t) => lookup(sessions, t),
        None => None,
    }
}

/// The `Set-Cookie` value that clears the session cookie at once.
pub open spec fn expired_session_cookie() -> Seq<char> {
    "session_token=; Path=/; Max-Age=0"@
}

/// The sessions left after a logout request with the given `Cookie` header.
pub open spec fn after_logout(
    sessions: Map<Seq<char>, Seq<char>>,
    cookie_header: Option<Seq<char>>,
) -> Map<Seq<char>, Seq<char>> {
    match request_token(cookie_header) {
        Some(t) => sessions.remove(t),
        None => sessions,
    }
}

/// Decides whether a request to a protected route may proceed: `Some` with
/// the username to hand on to the handler, or `None` to reject the request
/// as unauthorized. A missing header, a header without the session cookie
/// and an unknown token are not told apart. The store is not changed.
pub fn authenticate(sessions: &SessionStore, cookie_header: Option<&str>) -> (r: Option<String>)
    ensures
        opt_text(r) == authorized_identity(sessions@, opt_str(cookie_header)),
{
    match cookie_header {
        None => None,
        Some(h) => match parse_session_token(h) {
            None => None,
            Some(t) => sessions.get_user(t.as_str()),
        },
    }
}

/// Ends the session that the request's cookie names, if any, and returns the
/// `Set-Cookie` value that clears the cookie on the client.
pub fn logout(sessions: &mut SessionStore, cookie_header: Option<&str>) -> (set_cookie: String)
    ensures
        set_cookie@ == expired_session_cookie(),
        final(sessions)@ == after_logout(old(sessions)@, opt_str(cookie_header)),
{
    if let Some(h) = cookie_header {
        if let Some(t) = parse_session_token(h) {
            let _ = sessions.remove_session(t.as_str());
        }
    }
    String::from_str("session_token=; Path=/; Max-Age=0")
}

/// Authentication fails closed: a request without a session token, or whose token
/// is not held by the store, is let through under no identity.
pub proof fn lemma_auth_fails_closed(
    sessions: Map<Seq<char>, Seq<char>>,
    cookie_header: Option<Seq<char>>,
)
    requires
        request_token(cookie_header) is None || !sessions.contains_key(
            request_token(cookie_header)->Some_0,
        ),
    ensures
        authorized_identity(sessions, cookie_header) is None,
{
}

/// Once a token is revoked, every later request that carries it is rejected,
/// whatever happened in between, as long as no new session received the
/// same token.
pub proof fn lemma_revoked_token_rejected(
    sessions: Map<Seq<char>, Seq<char>>,
    token: Seq<char>,
    events: Seq<SessionEvent>,
    cookie_header: Option<Seq<char>>,
)
    requires
        request_token(cookie_header) == Some(token),
        !reissues(events, token),
    ensures
        authorized_identity(replay(sessions.remove(token), events), cookie_header) is None,
{
    lemma_revoked_token_stays_revoked(sessions, token, events);
}

/// A request that carries an issued token proceeds under exactly the
/// username the token was issued for, through any later events that neither
/// revoke the token nor issue it again.
pub proof fn lemma_issued_token_accepted(
    sessions: Map<Seq<char>, Seq<char>>,
    token: Seq<char>,
    user: Seq<char>,
    events: Seq<SessionEvent>,
    cookie_header: Option<Seq<char>>,
)
    requires
        request_token(cookie_header) == Some(token),
        forall|i: int| 0 <= i < events.len() ==> event_token(#[trigger] events[i]) != token,
    ensures
        authorized_identity(replay(sessions.insert(token, user), events), cookie_header) == Some(
            user,
        ),
{
    lemma_issued_token_keeps_resolving(sessions, token, user, events);
}

} // verus!

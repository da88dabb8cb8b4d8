//! Loopback auth listener: the session that captures a single OAuth
//! redirect on `127.0.0.1` and relays the authorization code to the UI
//! layer as a `google-auth-code` event.
//!
//! The session is a small state machine, `Starting -> Listening ->
//! {Completed | Failed}`, both ends terminal. The socket work (bind,
//! accept, respond) is owned by the caller, which reports the bind
//! outcome through `on_bind` and hands the one received request's path to
//! `on_request`. That call decides everything observable: whether the one
//! event is emitted and with which payload, the fixed confirmation body
//! sent back, and the terminal state.

use crate::events::CrossBoundaryEvent;
use crate::text::dec_seq;
use crate::text::str_eq;
use crate::text::u16_to_dec;
use vstd::prelude::*;

verus! {

/// A failure surfaced synchronously by the start of a session.
#[derive(PartialEq, Eq, Structural, Clone, Copy, Debug)]
pub enum AuthError {
    /// The requested port could not be bound, e.g. it is already in use.
    BindFailure,
}

/// Where a session stands: `Starting` until the bind outcome is known,
/// `Listening` until its one request arrives, then `Completed` (code
/// captured and emitted) or `Failed` (bind failed, read failed, or the
/// redirect held no usable code). Both ends are terminal.
#[derive(PartialEq, Eq, Structural, Clone, Copy, Debug)]
pub enum SessionState {
    /// Created; the bind outcome is not yet known.
    Starting,
    /// Bound; waiting for the single redirect request.
    Listening,
    /// The one request carried a `code` parameter and the event was produced.
    Completed,
    /// Bind error, read error, or a redirect without a usable `code`.
    Failed,
}

/// One instance of the loopback listener. Each start creates a fresh
/// session bound to its own port; sessions share nothing.
#[derive(PartialEq, Eq, Structural, Clone, Copy, Debug)]
pub struct AuthListenerSession {
    /// The loopback port this session listens on.
    pub port: u16,
    /// The session's position in its lifecycle.
    pub state: SessionState,
}

/// What handling the one request produced: at most one event for the
/// bridge, and the body to answer the HTTP client with.
pub struct RequestOutcome {
    /// The `google-auth-code` event, present exactly when a code was found.
    pub event: Option<CrossBoundaryEvent>,
    /// The fixed confirmation body, sent whatever the extraction outcome.
    pub response_body: String,
}

/// The query pairs of the given URL text, in order, keys and values
/// percent-decoded; `None` when the text does not parse as a URL.
pub uninterp spec fn url_query_pairs(url_text: Seq<char>) -> Option<Seq<(Seq<char>, Seq<char>)>>;

/// Relies on `url::Url::parse` and `url::Url::query_pairs`: both are
/// deterministic, so the list of decoded query pairs is a function of the
/// URL text alone, named here by `url_query_pairs`.
#[verifier::external_body]
fn query_pairs_of(url_text: &str) -> (r: Option<Vec<(String, String)>>)
    ensures
        r.deep_view() == url_query_pairs(url_text@),
{
    match url::Url::parse(url_text) {
        Ok(u) => Some(u.query_pairs().map(|(k, v)| (k.into_owned(), v.into_owned())).collect()),
        Err(_) => None,
    }
}

/// The value of the first pair whose key is exactly `code`.
pub open spec fn spec_first_code(pairs: Seq<(Seq<char>, Seq<char>)>) -> Option<Seq<char>>
    decreases pairs.len(),
{
    if pairs.len() == 0 {
        None
    } else if pairs[0].0 == "code"@ {
        Some(pairs[0].1)
    } else {
        spec_first_code(pairs.drop_first())
    }
}

/// The value of the first query parameter named `code` (exact,
/// case-sensitive match) of the given URL text, percent-decoded; `None`
/// when the text does not parse as a URL or holds no such parameter.
pub open spec fn code_param_of(url_text: Seq<char>) -> Option<Seq<char>> {
    match url_query_pairs(url_text) {
        Some(pairs) => spec_first_code(pairs),
        None => None,
    }
}

/// Looks up the first pair named `code` (case-sensitive, exact match) and
/// hands its value out.
fn find_code(pairs: &Vec<(String, String)>) -> (r: Option<String>)
    ensures
        r.deep_view() == spec_first_code(pairs.deep_view()),
{
    let mut i: usize = 0;
    proof {
        assert(pairs.deep_view().skip(0) =~= pairs.deep_view());
    }
    while i < pairs.len()
        invariant
            i <= pairs@.len(),
            spec_first_code(pairs.deep_view()) == spec_first_code(
                pairs.deep_view().skip(i as int),
            ),
        decreases pairs@.len() - i,
    {
        proof {
            assert(pairs.deep_view().skip(i as int)[0] == pairs.deep_view()[i as int]);
        }
        if str_eq(pairs[i].0.as_str(), "code") {
            return Some(pairs[i].1.clone());
        }
        proof {
            assert(pairs.deep_view().skip(i as int).drop_first() =~= pairs.deep_view().skip(
                i as int + 1,
            ));
        }
        i += 1;
    }
    None
}

/// The full URL the redirect addressed: scheme and loopback host, the
/// session's port in decimal, then the request's own path and query.
pub open spec fn spec_full_url(port: u16, path: Seq<char>) -> Seq<char> {
    "http://127.0.0.1:"@ + dec_seq(port as nat) + path
}

/// Reconstructs the full request URL from the known port and the received
/// path.
pub fn build_request_url(port: u16, path: &str) -> (s: String)
    ensures
        s@ == spec_full_url(port, path@),
{
    let mut s = String::from_str("http://127.0.0.1:");
    let dec = u16_to_dec(port);
    s.append(dec.as_str());
    s.append(path);
    s
}

/// The fixed human-readable body answered to the one redirect request,
/// whatever came of the code extraction.
pub open spec fn spec_confirmation_body() -> Seq<char> {
    "Login successful! You can close this window now and return to the application."@
}

/// The confirmation body as a string.
pub fn confirmation_body() -> (s: String)
    ensures
        s@ == spec_confirmation_body(),
{
    String::from_str("Login successful! You can close this window now and return to the application.")
}

/// The payload of the event a request emits, if any: the `code` parameter
/// of the reconstructed URL. A function of the handling session's own
/// port and the request path alone.
pub open spec fn spec_request_event(port: u16, path: Seq<char>) -> Option<Seq<char>> {
    code_param_of(spec_full_url(port, path))
}

/// The terminal state the one request leaves the session in: `Completed`
/// exactly when a code was found.
pub open spec fn spec_next_state(port: u16, path: Seq<char>) -> SessionState {
    if spec_request_event(port, path) is Some {
        SessionState::Completed
    } else {
        SessionState::Failed
    }
}

impl AuthListenerSession {
    /// A fresh session for one start call, before its bind.
    pub fn new(port: u16) -> (s: AuthListenerSession)
        ensures
            s.port == port,
            s.state == SessionState::Starting,
    {
        AuthListenerSession { port, state: SessionState::Starting }
    }

    /// Records the bind outcome. A failed bind is surfaced synchronously
    /// as `BindFailure` and ends the session with no event emitted; a
    /// successful bind leaves it listening for its one request.
    pub fn on_bind(&mut self, bound: bool) -> (r: Result<(), AuthError>)
        requires
            old(self).state == SessionState::Starting,
        ensures
            final(self).port == old(self).port,
            bound ==> final(self).state == SessionState::Listening && r is Ok,
            !bound ==> final(self).state == SessionState::Failed && r == Err::<(), AuthError>(
                AuthError::BindFailure,
            ),
    {
        if bound {
            self.state = SessionState::Listening;
            Ok(())
        } else {
            self.state = SessionState::Failed;
            Err(AuthError::BindFailure)
        }
    }

    /// Records that the accept or read of the one request failed: the
    /// session ends silently, with no event and no response to send.
    pub fn on_receive_error(&mut self)
        requires
            old(self).state == SessionState::Listening,
        ensures
            final(self).port == old(self).port,
            final(self).state == SessionState::Failed,
    {
        self.state = SessionState::Failed;
    }

    /// Handles the single request of the session's lifetime. Reconstructs
    /// the full URL from the session's port and the received path, looks
    /// up the first `code` query parameter, and produces exactly one
    /// `google-auth-code` event carrying its value when it exists — and no
    /// event otherwise. Either way the outcome carries the fixed
    /// confirmation body, and the session ends in a terminal state, so no
    /// second request is ever handled.
    pub fn on_request(&mut self, path: &str) -> (r: RequestOutcome)
        requires
            old(self).state == SessionState::Listening,
        ensures
            final(self).port == old(self).port,
            final(self).state == spec_next_state(old(self).port, path@),
            r.response_body@ == spec_confirmation_body(),
            match spec_request_event(old(self).port, path@) {
                Some(c) => {
                    &&& r.event matches Some(e)
                    &&& e.name@ == "google-auth-code"@
                    &&& e.payload matches Some(p)
                    &&& p@ == c
                },
                None => r.event is None,
            },
    {
        let url_text = build_request_url(self.port, path);
        let code = match query_pairs_of(url_text.as_str()) {
            Some(pairs) => find_code(&pairs),
            None => None,
        };
        match code {
            Some(c) => {
                self.state = SessionState::Completed;
                RequestOutcome {
                    event: Some(
                        CrossBoundaryEvent {
                            name: String::from_str("google-auth-code"),
                            payload: Some(c),
                        },
                    ),
                    response_body: confirmation_body(),
                }
            },
            None => {
                self.state = SessionState::Failed;
                RequestOutcome { event: None, response_body: confirmation_body() }
            },
        }
    }
}

/// Sessions are independent: what a request produces — the event and the
/// terminal state — is a function of the handling session's own port and
/// of the request path alone, never of another session. Two sessions on
/// the same port treat a path identically whatever their histories; and
/// since `on_request` touches only the session it is called on, handling
/// a request changes nothing in any other session value.
pub proof fn lemma_session_independence(
    a: AuthListenerSession,
    b: AuthListenerSession,
    path: Seq<char>,
)
    requires
        a.port == b.port,
    ensures
        spec_request_event(a.port, path) == spec_request_event(b.port, path),
        spec_next_state(a.port, path) == spec_next_state(b.port, path),
{
}

} // verus!

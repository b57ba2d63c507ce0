use vstd::prelude::*;

verus! {

/// A session token handed out by the server at log-in.
pub type SessionToken = [u8; 32];

/// A long-lived token that lets the client log in again without Steam.
pub type AuthToken = [u8; 32];

/// What can go wrong when talking to the server.
#[derive(Debug, Clone, Copy, PartialEq, Eq, Structural)]
pub enum Error {
    MalformedRequest,
    MalformedResponse,
    AuthFailure,
    NetworkError,
    ServerError,
}

/// Where the client is with logging in.
#[derive(Debug, Clone, Copy)]
pub enum AuthStatus {
    NotTried,
    Trying,
    Authed(SessionToken),
    NeedSteamAuth,
    Failed,
}

/// Whether the client holds a session.
pub open spec fn spec_logged_in(s: AuthStatus) -> bool {
    s is Authed
}

/// Whether the client holds a session.
pub fn logged_in(status: &AuthStatus) -> (r: bool)
    ensures
        r == spec_logged_in(*status),
{
    match status {
        AuthStatus::Authed(_) => true,
        _ => false,
    }
}

/// The next thing to do to get a session token.
#[derive(Debug, Clone, Copy)]
pub enum SessionStep {
    /// A session is held: use this token.
    Ready(SessionToken),
    /// Log in with the server (the status is now `Trying`).
    LogIn,
    /// Another task is logging in: wait a second and ask again.
    Wait,
    /// Give up with this error.
    Fail(Error),
}

/// The status after, and the step of, a request for a session token.
pub open spec fn spec_begin_session(status: AuthStatus, self_id: u64) -> (AuthStatus, SessionStep) {
    match status {
        AuthStatus::Authed(t) => (status, SessionStep::Ready(t)),
        AuthStatus::NotTried => (AuthStatus::Trying, if self_id == 0 {
            SessionStep::Fail(Error::MalformedRequest)
        } else {
            SessionStep::LogIn
        }),
        AuthStatus::Trying => (status, SessionStep::Wait),
        _ => (status, SessionStep::Fail(Error::AuthFailure)),
    }
}

/// Decides how to get a session token, given the status and the local player's
/// id: a held session is used; a first attempt marks the status as trying and
/// logs in (refused at once when the player's id is unknown); while another
/// attempt runs the caller waits; after a failure, or while Steam
/// authentication is needed, the request fails.
pub fn begin_session(status: &mut AuthStatus, self_id: u64) -> (r: SessionStep)
    ensures
        (*final(status), r) == spec_begin_session(*old(status), self_id),
{
    match *status {
        AuthStatus::Authed(t) => SessionStep::Ready(t),
        AuthStatus::NotTried => {
            *status = AuthStatus::Trying;
            if self_id == 0 {
                SessionStep::Fail(Error::MalformedRequest)
            } else {
                SessionStep::LogIn
            }
        },
        AuthStatus::Trying => SessionStep::Wait,
        _ => SessionStep::Fail(Error::AuthFailure),
    }
}

/// Records that getting a session failed: the status becomes `Failed`, unless
/// Steam authentication is needed, which is kept so the player is asked for it.
pub fn session_failed(status: &mut AuthStatus)
    ensures
        *old(status) is NeedSteamAuth ==> *final(status) == *old(status),
        !(*old(status) is NeedSteamAuth) ==> *final(status) == AuthStatus::Failed,
{
    match *status {
        AuthStatus::NeedSteamAuth => {},
        _ => {
            *status = AuthStatus::Failed;
        },
    }
}

/// The server's answer to a log-in request.
pub enum LoginResponse {
    OutOfDate,
    BadData,
    BadToken,
    Accepted { auth_token: AuthToken, session_token: SessionToken, user_name: String },
}

/// What the client does with a log-in answer: the result of the request,
/// whether the mod is out of date, whether the player must choose a name, and
/// the auth token to save (when it differs from the stored one).
pub struct LoginOutcome {
    pub result: Result<SessionToken, Error>,
    pub out_of_date: bool,
    pub need_name: bool,
    pub save_token: Option<AuthToken>,
}

/// Handles the server's answer to a log-in: an out-of-date client is told so,
/// bad data is a malformed request, a bad token means Steam authentication is
/// needed, and success stores the session (asking for a name when the player
/// has none, and saving a new auth token).
pub fn on_login_response(status: &mut AuthStatus, resp: LoginResponse, stored: Option<AuthToken>) -> (r: LoginOutcome)
    ensures
        match resp {
            LoginResponse::OutOfDate => r.result == Err::<SessionToken, Error>(Error::AuthFailure) && r.out_of_date
                && !r.need_name && r.save_token is None && *final(status) == *old(status),
            LoginResponse::BadData => r.result == Err::<SessionToken, Error>(Error::MalformedRequest) && !r.out_of_date
                && !r.need_name && r.save_token is None && *final(status) == *old(status),
            LoginResponse::BadToken => r.result == Err::<SessionToken, Error>(Error::AuthFailure) && !r.out_of_date
                && !r.need_name && r.save_token is None && *final(status) == AuthStatus::NeedSteamAuth,
            LoginResponse::Accepted { auth_token, session_token, user_name } => {
                &&& r.result == Ok::<SessionToken, Error>(session_token)
                &&& !r.out_of_date
                &&& r.need_name == (user_name@.len() == 0)
                &&& *final(status) == AuthStatus::Authed(session_token)
                &&& r.save_token == (if stored == Some(auth_token) {
                    None
                } else {
                    Some(auth_token)
                })
            },
        },
{
    match resp {
        LoginResponse::OutOfDate => LoginOutcome {
            result: Err(Error::AuthFailure),
            out_of_date: true,
            need_name: false,
            save_token: None,
        },
        LoginResponse::BadData => LoginOutcome {
            result: Err(Error::MalformedRequest),
            out_of_date: false,
            need_name: false,
            save_token: None,
        },
        LoginResponse::BadToken => {
            *status = AuthStatus::NeedSteamAuth;
            LoginOutcome { result: Err(Error::AuthFailure), out_of_date: false, need_name: false, save_token: None }
        },
        LoginResponse::Accepted { auth_token, session_token, user_name } => {
            *status = AuthStatus::Authed(session_token);
            let need_name = user_name.as_str().unicode_len() == 0;
            let same = match stored {
                Some(t) => same_token(&t, &auth_token),
                None => false,
            };
            LoginOutcome {
                result: Ok(session_token),
                out_of_date: false,
                need_name,
                save_token: if same {
                    None
                } else {
                    Some(auth_token)
                },
            }
        },
    }
}

/// Whether two tokens are the same bytes.
pub fn same_token(a: &[u8; 32], b: &[u8; 32]) -> (r: bool)
    ensures
        r == (*a == *b),
{
    let mut k: usize = 0;
    while k < 32
        invariant
            k <= 32,
            forall|j: int| 0 <= j < k ==> a@[j] == b@[j],
        decreases 32 - k,
    {
        if a[k] != b[k] {
            assert(a@[k as int] != b@[k as int]);
            return false;
        }
        k = k + 1;
    }
    assert(*a =~= *b) by {
        broadcast use vstd::array::axiom_array_ext_equal;
    }
    true
}

/// A player as the server describes them.
pub struct UserData {
    pub id: u64,
    pub name: String,
}

/// The server's answer to an authenticated request: the request was malformed,
/// the session is not (or no longer) valid, or the response with the players it
/// mentions.
pub enum FullResponse<T> {
    BadRequest,
    BadAuth,
    Answer(T, Vec<UserData>),
}

/// What to do with the answer to an authenticated request.
pub enum QueryStep<T> {
    /// The request succeeded; the players are to be learned.
    Done(T, Vec<UserData>),
    /// The session was refused: the status is reset and the request is sent again
    /// with a new session.
    Retry,
    /// The request failed.
    Fail(Error),
}

/// The status after the answer to an authenticated request: a refused session
/// is forgotten, so that the next request logs in again.
pub open spec fn status_after_response<T>(status: AuthStatus, resp: FullResponse<T>) -> AuthStatus {
    match resp {
        FullResponse::BadAuth => AuthStatus::NotTried,
        _ => status,
    }
}

/// Handles the answer to an authenticated request.
pub fn on_full_response<T>(status: &mut AuthStatus, resp: FullResponse<T>) -> (r: QueryStep<T>)
    ensures
        *final(status) == status_after_response(*old(status), resp),
        resp is BadRequest ==> r is Fail && r->Fail_0 == Error::MalformedRequest && *final(status) == *old(status),
        resp is BadAuth ==> r is Retry && *final(status) == AuthStatus::NotTried,
        resp is Answer ==> r is Done && r->Done_0 == resp->Answer_0 && r->Done_1@ == resp->Answer_1@ && *final(status) == *old(status),
{
    match resp {
        FullResponse::BadRequest => QueryStep::Fail(Error::MalformedRequest),
        FullResponse::BadAuth => {
            *status = AuthStatus::NotTried;
            QueryStep::Retry
        },
        FullResponse::Answer(rs, users) => QueryStep::Done(rs, users),
    }
}

/// A refused session is followed by a fresh log-in: whatever the status was,
/// after the server refuses the session the next request for a token logs in
/// again (for a known player) and marks the attempt as running.
pub proof fn law_refused_session_logs_in_again<T>(status: AuthStatus, self_id: u64)
    requires
        self_id != 0,
    ensures
        spec_begin_session(status_after_response(status, FullResponse::<T>::BadAuth), self_id)
            == (AuthStatus::Trying, SessionStep::LogIn),
{
}

/// A held session is reused as it is, and asking again changes nothing.
pub proof fn law_held_session_is_reused(t: SessionToken, self_id: u64)
    ensures
        spec_begin_session(AuthStatus::Authed(t), self_id) == (AuthStatus::Authed(t), SessionStep::Ready(t)),
{
}

} // verus!

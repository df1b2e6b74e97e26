//! The sign-in conversation with the store, as a machine that is handed each
//! answer and says what to do next. The caller sends the requests, asks the
//! user for a two-factor code when told to, and hands back what came.
use vstd::prelude::*;
use crate::constants::{
    CUSTOMER_MESSAGE_ACCOUNT_DISABLED, CUSTOMER_MESSAGE_BAD_LOGIN,
    FAILURE_TYPE_INVALID_CREDENTIALS, MAX_LOGIN_ATTEMPTS,
};
use crate::error::{ErrorView, IpaToolError, unexpected};
use crate::purchase::is_text;
use crate::text::{chars_of, concat, decimal, opt_is, remove_char, trim, trim_str, u64_to_string, without_char};
use crate::types::{Account, LoginResult};

verus! {

/// One answer to a sign-in request: its HTTP status, the headers the
/// conversation reads, and the parsed body.
#[derive(Debug, Clone)]
pub struct LoginReply {
    pub status: u16,
    pub location: Option<String>,
    pub store_front: Option<String>,
    pub pod: Option<String>,
    pub result: LoginResult,
}

/// Where the conversation stands.
#[derive(Debug, Clone)]
pub struct LoginState {
    /// The endpoint the next request goes to.
    pub endpoint: String,
    /// The two-factor code, empty while there is none.
    pub auth_code: String,
    /// The number of the request that was sent last, from 1.
    pub attempt: u32,
    /// Whether the user can be asked for a two-factor code.
    pub can_ask_code: bool,
    /// The answer that counts so far.
    pub last: Option<LoginReply>,
}

/// What to do after an answer.
#[derive(Debug)]
pub enum LoginNext {
    /// Send the next request from this state.
    Send(LoginState),
    /// Ask the user for a two-factor code, then go on from this state.
    AskAuthCode(LoginState),
    /// The conversation is over, with the answer that counts or an error.
    Done(Result<LoginReply, IpaToolError>),
}

/// What an answer calls for.
pub enum LoginVerdict {
    /// Ask again, at the redirect target if there is one.
    Retry(Option<Seq<char>>),
    /// Ask the user for a two-factor code, then ask again.
    NeedCode,
    /// Stop with an error.
    Fail(ErrorView),
    /// The answer is a sign-in.
    Accept,
}

pub open spec fn non_empty(o: Option<String>) -> bool {
    o is Some && o->0@.len() > 0
}

/// What the answer to request number `attempt` calls for, given the code
/// the request carried.
pub open spec fn login_verdict(attempt: u32, auth_code: Seq<char>, r: LoginReply) -> LoginVerdict {
    let p = r.result;
    if r.status == 302 {
        match r.location {
            Some(l) => LoginVerdict::Retry(Some(l@)),
            None => LoginVerdict::Fail(ErrorView::Unexpected("redirect without location header"@)),
        }
    } else if attempt == 1 && is_text(p.failure_type, FAILURE_TYPE_INVALID_CREDENTIALS@) {
        LoginVerdict::Retry(None)
    } else if p.failure_type is None && auth_code.len() == 0 && is_text(
        p.customer_message,
        CUSTOMER_MESSAGE_BAD_LOGIN@,
    ) {
        LoginVerdict::NeedCode
    } else if p.failure_type is None && is_text(
        p.customer_message,
        CUSTOMER_MESSAGE_ACCOUNT_DISABLED@,
    ) {
        LoginVerdict::Fail(ErrorView::Unexpected("account is disabled"@))
    } else if p.failure_type is Some {
        LoginVerdict::Fail(
            ErrorView::Unexpected(
                match p.customer_message {
                    Some(m) => m@,
                    None => "something went wrong"@,
                },
            ),
        )
    } else if r.status != 200 || !non_empty(p.password_token) || !non_empty(
        p.directory_services_id,
    ) {
        LoginVerdict::Fail(ErrorView::Unexpected("something went wrong"@))
    } else {
        LoginVerdict::Accept
    }
}

/// The state of a conversation: at most as many requests as allowed.
pub open spec fn login_state_ok(s: LoginState) -> bool {
    1 <= s.attempt <= MAX_LOGIN_ATTEMPTS
}

/// A conversation before its first request.
pub fn start_login(endpoint: String, auth_code: Option<String>, can_ask_code: bool) -> (s:
    LoginState)
    ensures
        login_state_ok(s),
        s.attempt == 1,
        s.endpoint == endpoint,
        s.auth_code@ == match auth_code {
            Some(c) => c@,
            None => Seq::empty(),
        },
        s.can_ask_code == can_ask_code,
        s.last is None,
{
    LoginState {
        endpoint,
        auth_code: match auth_code {
            Some(c) => c,
            None => String::new(),
        },
        attempt: 1,
        can_ask_code,
        last: None,
    }
}

/// The form of request number `attempt`: the password is followed by the
/// two-factor code without its spaces.
pub open spec fn login_form_spec(
    email: Seq<char>,
    guid: Seq<char>,
    password: Seq<char>,
    auth_code: Seq<char>,
    attempt: u32,
) -> Seq<(Seq<char>, Seq<char>)> {
    seq![
        ("appleId"@, email),
        ("attempt"@, decimal(attempt as nat)),
        ("guid"@, guid),
        ("password"@, password + without_char(auth_code, ' ')),
        ("rmp"@, "0"@),
        ("why"@, "signIn"@),
    ]
}

pub open spec fn pairs_view(v: Seq<(String, String)>) -> Seq<(Seq<char>, Seq<char>)> {
    v.map_values(|p: (String, String)| (p.0@, p.1@))
}

fn pair(a: &str, b: &str) -> (p: (String, String))
    ensures
        p.0@ == a@,
        p.1@ == b@,
{
    (String::from_str(a), String::from_str(b))
}

/// The form of the request that `s` is about to send.
pub fn login_form(s: &LoginState, email: &str, guid: &str, password: &str) -> (v: Vec<
    (String, String),
>)
    ensures
        pairs_view(v@) == login_form_spec(email@, guid@, password@, s.auth_code@, s.attempt),
{
    let attempt = u64_to_string(s.attempt as u64);
    let code = remove_char(s.auth_code.as_str(), ' ');
    let secret = concat(password, code.as_str());
    let mut v: Vec<(String, String)> = Vec::new();
    v.push(pair("appleId", email));
    v.push(pair("attempt", attempt.as_str()));
    v.push(pair("guid", guid));
    v.push(pair("password", secret.as_str()));
    v.push(pair("rmp", "0"));
    v.push(pair("why", "signIn"));
    assert(pairs_view(v@) =~= login_form_spec(email@, guid@, password@, s.auth_code@, s.attempt));
    v
}

fn verdict_of(attempt: u32, auth_code: &String, r: &LoginReply) -> (v: (u8, Option<IpaToolError>))
    ensures
        match login_verdict(attempt, auth_code@, *r) {
            LoginVerdict::Retry(_) => v.0 == 0,
            LoginVerdict::NeedCode => v.0 == 1,
            LoginVerdict::Fail(e) => v.0 == 2 && (v.1 matches Some(x) && x@ == e),
            LoginVerdict::Accept => v.0 == 3,
        },
{
    let p = &r.result;
    if r.status == 302 {
        return match &r.location {
            Some(_) => (0, None),
            None => (2, Some(unexpected("redirect without location header"))),
        };
    }
    if attempt == 1 && opt_is(&p.failure_type, FAILURE_TYPE_INVALID_CREDENTIALS) {
        return (0, None);
    }
    if p.failure_type.is_none() && chars_of(auth_code.as_str()).len() == 0 && opt_is(
        &p.customer_message,
        CUSTOMER_MESSAGE_BAD_LOGIN,
    ) {
        return (1, None);
    }
    if p.failure_type.is_none() && opt_is(&p.customer_message, CUSTOMER_MESSAGE_ACCOUNT_DISABLED) {
        return (2, Some(unexpected("account is disabled")));
    }
    if p.failure_type.is_some() {
        let e = match &p.customer_message {
            Some(m) => IpaToolError::Unexpected(m.clone()),
            None => unexpected("something went wrong"),
        };
        return (2, Some(e));
    }
    let token_ok = match &p.password_token {
        Some(t) => chars_of(t.as_str()).len() > 0,
        None => false,
    };
    let dsid_ok = match &p.directory_services_id {
        Some(t) => chars_of(t.as_str()).len() > 0,
        None => false,
    };
    if r.status != 200 || !token_ok || !dsid_ok {
        return (2, Some(unexpected("something went wrong")));
    }
    (3, None)
}

/// The conversation goes on: the answer `r` counts from now on, and another
/// request is sent if any are left; otherwise it is over with `r`.
pub open spec fn next_after_retry(
    s: LoginState,
    endpoint: String,
    auth_code: String,
    r: LoginReply,
    n: LoginNext,
) -> bool {
    if s.attempt < MAX_LOGIN_ATTEMPTS {
        n matches LoginNext::Send(t) && t.attempt == s.attempt + 1 && t.endpoint == endpoint
            && t.auth_code == auth_code && t.can_ask_code == s.can_ask_code && t.last == Some(r)
    } else {
        n matches LoginNext::Done(res) && res matches Ok(x) && x == r
    }
}

/// What follows the answer `r` to the request that `s` sent last.
pub open spec fn on_reply_spec(s: LoginState, r: LoginReply, n: LoginNext) -> bool {
    match login_verdict(s.attempt, s.auth_code@, r) {
        LoginVerdict::Fail(e) => n matches LoginNext::Done(res) && res matches Err(x) && x@ == e,
        LoginVerdict::NeedCode => if s.can_ask_code {
            n matches LoginNext::AskAuthCode(t) && t.attempt == s.attempt && t.endpoint
                == s.endpoint && t.auth_code == s.auth_code && t.can_ask_code && t.last == Some(r)
        } else {
            n matches LoginNext::Done(res) && res matches Err(x) && x@
                == ErrorView::AuthCodeRequired
        },
        LoginVerdict::Retry(None) => next_after_retry(s, s.endpoint, s.auth_code, r, n),
        LoginVerdict::Retry(Some(l)) => exists|endpoint: String|
            endpoint@ == l && next_after_retry(s, endpoint, s.auth_code, r, n),
        LoginVerdict::Accept => n matches LoginNext::Done(res) && res matches Ok(x) && x == r,
    }
}

/// Handles the answer to the request that `s` sent last.
pub fn login_on_reply(s: LoginState, r: LoginReply) -> (n: LoginNext)
    requires
        login_state_ok(s),
    ensures
        on_reply_spec(s, r, n),
        n matches LoginNext::Send(t) ==> login_state_ok(t),
        n matches LoginNext::AskAuthCode(t) ==> login_state_ok(t) && t.last is Some,
{
    let (kind, err) = verdict_of(s.attempt, &s.auth_code, &r);
    if kind == 2 {
        return match err {
            Some(e) => LoginNext::Done(Err(e)),
            None => LoginNext::Done(Err(unexpected("something went wrong"))),
        };
    }
    if kind == 3 {
        return LoginNext::Done(Ok(r));
    }
    if kind == 1 {
        if !s.can_ask_code {
            return LoginNext::Done(Err(IpaToolError::AuthCodeRequired));
        }
        return LoginNext::AskAuthCode(
            LoginState {
                endpoint: s.endpoint,
                auth_code: s.auth_code,
                attempt: s.attempt,
                can_ask_code: s.can_ask_code,
                last: Some(r),
            },
        );
    }
    let endpoint = if r.status == 302 {
        match &r.location {
            Some(l) => l.clone(),
            None => s.endpoint,
        }
    } else {
        s.endpoint
    };
    if s.attempt < MAX_LOGIN_ATTEMPTS {
        LoginNext::Send(
            LoginState {
                endpoint,
                auth_code: s.auth_code,
                attempt: s.attempt + 1,
                can_ask_code: s.can_ask_code,
                last: Some(r),
            },
        )
    } else {
        LoginNext::Done(Ok(r))
    }
}

/// Goes on after the user was asked for a code: no code ends the
/// conversation; a code is sent with the next request if any are left.
pub fn login_on_auth_code(s: LoginState, code: Option<String>) -> (n: LoginNext)
    requires
        login_state_ok(s),
        s.last is Some,
    ensures
        match code {
            None => n matches LoginNext::Done(res) && res matches Err(x) && x@
                == ErrorView::AuthCodeRequired,
            Some(c) => next_after_retry(s, s.endpoint, c, s.last->0, n),
        },
        n matches LoginNext::Send(t) ==> login_state_ok(t),
{
    let c = match code {
        Some(c) => c,
        None => return LoginNext::Done(Err(IpaToolError::AuthCodeRequired)),
    };
    let last = match s.last {
        Some(r) => r,
        None => return LoginNext::Done(Err(IpaToolError::AuthCodeRequired)),
    };
    if s.attempt < MAX_LOGIN_ATTEMPTS {
        LoginNext::Send(
            LoginState {
                endpoint: s.endpoint,
                auth_code: c,
                attempt: s.attempt + 1,
                can_ask_code: s.can_ask_code,
                last: Some(last),
            },
        )
    } else {
        LoginNext::Done(Ok(last))
    }
}

/// The full name shown for an account: the first name, then a space and the
/// last name when there is one, trimmed.
pub open spec fn display_name(first: Seq<char>, last: Seq<char>) -> Seq<char> {
    trim(
        first + if last.len() == 0 {
            Seq::empty()
        } else {
            " "@ + last
        },
    )
}

/// An answer can be made into an account without a missing token: where
/// the storefront and the account details are present, so are the password
/// token and the directory services id.
pub open spec fn reply_complete(r: LoginReply) -> bool {
    non_empty(r.store_front) && r.result.account is Some ==> r.result.password_token is Some
        && r.result.directory_services_id is Some
}

pub open spec fn or_empty(o: Option<String>) -> Seq<char> {
    match o {
        Some(s) => s@,
        None => Seq::empty(),
    }
}

/// The account that the answer which counts describes.
pub open spec fn account_spec(r: LoginReply, email: Seq<char>, password: Seq<char>, a: Account) -> bool {
    let acct = r.result.account->0;
    let (first, last) = match acct.address {
        Some(addr) => (or_empty(addr.first_name), or_empty(addr.last_name)),
        None => (Seq::empty(), Seq::empty()),
    };
    &&& a.name@ == display_name(first, last)
    &&& a.email@ == match acct.email {
        Some(e) => e@,
        None => email,
    }
    &&& a.password_token == r.result.password_token->0
    &&& a.directory_services_id == r.result.directory_services_id->0
    &&& a.store_front == r.store_front->0
    &&& a.password@ == password
    &&& a.pod == r.pod
}

fn or_empty_string(o: Option<String>) -> (s: String)
    ensures
        s@ == or_empty(o),
{
    match o {
        Some(s) => s,
        None => String::new(),
    }
}

/// The account described by the answer that counts.
pub fn account_from_reply(r: LoginReply, email: &str, password: &str) -> (res: Result<
    Account,
    IpaToolError,
>)
    requires
        reply_complete(r),
    ensures
        match res {
            Ok(a) => non_empty(r.store_front) && r.result.account is Some && account_spec(
                r,
                email@,
                password@,
                a,
            ),
            Err(e) => if !non_empty(r.store_front) {
                e@ == ErrorView::Unexpected("missing storefront header"@)
            } else {
                r.result.account is None && e@ == ErrorView::Unexpected("missing accountInfo"@)
            },
        },
{
    let store_front = match r.store_front {
        Some(s) => s,
        None => return Err(unexpected("missing storefront header")),
    };
    if chars_of(store_front.as_str()).len() == 0 {
        return Err(unexpected("missing storefront header"));
    }
    let acct = match r.result.account {
        Some(a) => a,
        None => return Err(unexpected("missing accountInfo")),
    };
    let (first, last) = match acct.address {
        Some(addr) => (or_empty_string(addr.first_name), or_empty_string(addr.last_name)),
        None => (String::new(), String::new()),
    };
    let full = if chars_of(last.as_str()).len() == 0 {
        assert(first@ + Seq::<char>::empty() =~= first@);
        first
    } else {
        let with_space = concat(first.as_str(), " ");
        let full = concat(with_space.as_str(), last.as_str());
        assert(full@ =~= first@ + (" "@ + last@));
        full
    };
    let name = trim_str(full.as_str());
    let email = match acct.email {
        Some(e) => e,
        None => String::from_str(email),
    };
    let password_token = match r.result.password_token {
        Some(t) => t,
        None => String::new(),
    };
    let directory_services_id = match r.result.directory_services_id {
        Some(t) => t,
        None => String::new(),
    };
    Ok(
        Account {
            name,
            email,
            password_token,
            directory_services_id,
            store_front,
            password: String::from_str(password),
            pod: r.pod,
        },
    )
}

/// The conversation sends at most as many requests as allowed: after an
/// answer, the next request, if any, is the following one and never past the
/// last allowed; asking for a code sends nothing; and after the last allowed
/// request no other is sent.
pub proof fn login_requests_are_bounded(s: LoginState, r: LoginReply, n: LoginNext)
    requires
        login_state_ok(s),
        on_reply_spec(s, r, n),
    ensures
        n matches LoginNext::Send(t) ==> t.attempt == s.attempt + 1 && t.attempt
            <= MAX_LOGIN_ATTEMPTS,
        n matches LoginNext::AskAuthCode(t) ==> t.attempt == s.attempt,
        s.attempt == MAX_LOGIN_ATTEMPTS ==> !(n is Send),
{
}

/// A code given after the question goes out with the next request, if one
/// is left; none given ends the conversation.
pub proof fn auth_code_goes_with_next_request(s: LoginState, code: Option<String>, n: LoginNext)
    requires
        login_state_ok(s),
        s.last is Some,
        match code {
            None => n matches LoginNext::Done(res) && res matches Err(x) && x@
                == ErrorView::AuthCodeRequired,
            Some(c) => next_after_retry(s, s.endpoint, c, s.last->0, n),
        },
    ensures
        n matches LoginNext::Send(t) ==> code matches Some(c) && t.auth_code == c && t.attempt
            == s.attempt + 1 && t.attempt <= MAX_LOGIN_ATTEMPTS,
        code is None ==> n matches LoginNext::Done(Err(IpaToolError::AuthCodeRequired)),
{
}

/// Failed credentials are retried only on the first request.
pub proof fn invalid_credentials_retried_once(s: LoginState, r: LoginReply)
    requires
        s.attempt > 1,
        r.status != 302,
        is_text(r.result.failure_type, FAILURE_TYPE_INVALID_CREDENTIALS@),
    ensures
        login_verdict(s.attempt, s.auth_code@, r) matches LoginVerdict::Fail(e) && e
            == ErrorView::Unexpected(
            match r.result.customer_message {
                Some(m) => m@,
                None => "something went wrong"@,
            },
        ),
{
}

/// An answer is taken as a sign-in only when it came with HTTP 200 and
/// carries a password token and a directory services id.
pub proof fn accepted_reply_has_credentials(attempt: u32, code: Seq<char>, r: LoginReply)
    requires
        login_verdict(attempt, code, r) is Accept,
    ensures
        r.status == 200,
        non_empty(r.result.password_token),
        non_empty(r.result.directory_services_id),
        r.result.failure_type is None,
{
}

} // verus!

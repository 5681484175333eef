//! Sign-in with Google: the address that the browser is sent to, the reading
//! of the address that the browser comes back with, and the steps by which an
//! authorization code is exchanged for tokens.
//!
//! The requests themselves are the host's part. After each reply it asks the
//! functions here what comes next.

use vstd::prelude::*;
use vstd::string::*;
use crate::text::{decimal, join, str_eq, unsigned_to_string};

verus! {

/// The answer to the frontend after a sign-in.
#[derive(Debug)]
pub struct AuthResponse {
    pub success: bool,
    pub message: String,
    pub data: Option<AuthData>,
}

/// Who signed in, and the token that stands for them.
#[derive(Debug)]
pub struct AuthData {
    pub token: String,
    pub user_id: String,
    pub email: String,
}

/// What the browser brings back from the sign-in page.
#[derive(Debug)]
pub struct AuthCallbackData {
    pub code: String,
    pub state: String,
}

/// The ports on which the local server that waits for the browser is tried,
/// in this order.
pub fn oauth_ports() -> (ports: Vec<u16>)
    ensures
        ports@ == seq![8080u16, 8081u16, 8082u16, 8083u16, 8084u16],
{
    let mut ports: Vec<u16> = Vec::new();
    ports.push(8080);
    ports.push(8081);
    ports.push(8082);
    ports.push(8083);
    ports.push(8084);
    assert(ports@ =~= seq![8080u16, 8081u16, 8082u16, 8083u16, 8084u16]);
    ports
}

/// What the browser shows once the local server has the answer.
pub const OAUTH_RESPONSE: &'static str = "Authentication successful! You can close this window.";

/// The names and values of a URL's query, in the order in which they stand
/// there, as `url::Url::query_pairs` gives them; none if `url::Url::parse`
/// refuses the text.
pub uninterp spec fn url_query_pairs(text: Seq<char>) -> Option<Seq<(Seq<char>, Seq<char>)>>;

/// The text of each pair of a list.
pub open spec fn pair_views(pairs: Seq<(String, String)>) -> Seq<(Seq<char>, Seq<char>)> {
    Seq::new(pairs.len(), |i: int| (pairs[i].0@, pairs[i].1@))
}

/// The text of the pairs of a query, if there is one.
pub open spec fn query_view(pairs: Option<Vec<(String, String)>>) -> Option<
    Seq<(Seq<char>, Seq<char>)>,
> {
    match pairs {
        Some(pairs) => Some(pair_views(pairs@)),
        None => None,
    }
}

/// Calls `url::Url::parse` and, on the URL that it gives, `query_pairs`. The
/// contract names what comes back and claims nothing else of it.
#[verifier::external_body]
fn query_pairs(text: &str) -> (pairs: Option<Vec<(String, String)>>)
    ensures
        query_view(pairs) == url_query_pairs(text@),
{
    match url::Url::parse(text) {
        Ok(url) => Some(url.query_pairs().into_owned().collect()),
        Err(_) => None,
    }
}

/// The value that a query gives to a name: that of the last pair with this
/// name.
pub open spec fn last_value(pairs: Seq<(Seq<char>, Seq<char>)>, name: Seq<char>) -> Option<
    Seq<char>,
>
    decreases pairs.len(),
{
    if pairs.len() == 0 {
        None
    } else if pairs.last().0 == name {
        Some(pairs.last().1)
    } else {
        last_value(pairs.drop_last(), name)
    }
}

/// The value that a query gives to a name.
pub fn query_value(pairs: &Vec<(String, String)>, name: &str) -> (value: Option<String>)
    ensures
        match value {
            Some(value) => last_value(pair_views(pairs@), name@) == Some(value@),
            None => last_value(pair_views(pairs@), name@) is None,
        },
{
    let ghost all = pair_views(pairs@);
    let mut i: usize = pairs.len();
    assert(all.take(i as int) =~= all);
    while i > 0
        invariant
            i <= pairs.len(),
            all == pair_views(pairs@),
            last_value(all, name@) == last_value(all.take(i as int), name@),
        decreases i,
    {
        i -= 1;
        proof {
            let shorter = all.take(i + 1);
            assert(shorter.drop_last() =~= all.take(i as int));
            assert(shorter.last() == all[i as int]);
        }
        if str_eq(pairs[i].0.as_str(), name) {
            return Some(pairs[i].1.clone());
        }
    }
    assert(all.take(0).len() == 0);
    None
}

/// What the host tells the frontend when the browser has come back.
#[derive(Debug)]
pub enum OauthCallback {
    /// The browser brought an authorization code: the event `oauth_callback`.
    Code(AuthCallbackData),
    /// The browser brought an error: the event `oauth_error`.
    Error(String),
    /// The address holds neither, or is no URL: nothing is told.
    Ignored,
}

/// The name of the event that carries an authorization code.
pub const OAUTH_CALLBACK_EVENT: &'static str = "oauth_callback";

/// The name of the event that carries an error of the sign-in page.
pub const OAUTH_ERROR_EVENT: &'static str = "oauth_error";

/// An [`OauthCallback`] as text.
pub enum OauthCallbackView {
    Code { code: Seq<char>, state: Seq<char> },
    Error(Seq<char>),
    Ignored,
}

impl View for OauthCallback {
    type V = OauthCallbackView;

    open spec fn view(&self) -> OauthCallbackView {
        match self {
            OauthCallback::Code(data) => OauthCallbackView::Code {
                code: data.code@,
                state: data.state@,
            },
            OauthCallback::Error(error) => OauthCallbackView::Error(error@),
            OauthCallback::Ignored => OauthCallbackView::Ignored,
        }
    }
}

/// What a query that the browser came back with means. A code wins over an
/// error; the state that goes with a code is empty if the query has none.
pub open spec fn callback_of(query: Option<Seq<(Seq<char>, Seq<char>)>>) -> OauthCallbackView {
    match query {
        None => OauthCallbackView::Ignored,
        Some(pairs) => match last_value(pairs, "code"@) {
            Some(code) => OauthCallbackView::Code {
                code,
                state: match last_value(pairs, "state"@) {
                    Some(state) => state,
                    None => Seq::empty(),
                },
            },
            None => match last_value(pairs, "error"@) {
                Some(error) => OauthCallbackView::Error(error),
                None => OauthCallbackView::Ignored,
            },
        },
    }
}

/// Reads the query that the browser came back with.
pub fn oauth_callback_of(query: Option<Vec<(String, String)>>) -> (callback: OauthCallback)
    ensures
        callback@ == callback_of(query_view(query)),
{
    match query {
        None => OauthCallback::Ignored,
        Some(pairs) => match query_value(&pairs, "code") {
            Some(code) => {
                let state = match query_value(&pairs, "state") {
                    Some(state) => state,
                    None => String::new(),
                };
                OauthCallback::Code(AuthCallbackData { code, state })
            },
            None => match query_value(&pairs, "error") {
                Some(error) => OauthCallback::Error(error),
                None => OauthCallback::Ignored,
            },
        },
    }
}

/// Reads the address that the browser came back with.
pub fn oauth_callback(url: &str) -> (callback: OauthCallback)
    ensures
        callback@ == callback_of(url_query_pairs(url@)),
{
    oauth_callback_of(query_pairs(url))
}

/// The answer where the client identifier is not configured.
pub const CLIENT_ID_MISSING: &'static str = "GOOGLE_CLIENT_ID environment variable not set";

/// The answer where the client secret is not configured.
pub const CLIENT_SECRET_MISSING: &'static str = "GOOGLE_CLIENT_SECRET environment variable not set";

/// The access that the application asks for, separated by spaces: the
/// e-mail address, the profile, the identity, the mail and the calendar.
pub const SCOPES: &'static str =
    "email profile openid https://mail.google.com/ https://www.googleapis.com/auth/calendar";

/// The address of the local server that waits on `port`.
pub open spec fn redirect_address(port: u16) -> Seq<char> {
    "http://localhost:"@ + decimal(port as nat) + "/"@
}

/// The address of the local server that waits on `port`.
pub fn redirect_uri(port: u16) -> (address: String)
    ensures
        address@ == redirect_address(port),
{
    let number = unsigned_to_string(port as u64);
    let mut address = join("http://localhost:", number.as_str());
    address.append("/");
    address
}

/// The address of the sign-in page for a client that waits on `port`.
pub open spec fn auth_address(client_id: Seq<char>, port: u16) -> Seq<char> {
    "https://accounts.google.com/o/oauth2/v2/auth?client_id="@ + client_id + "&redirect_uri="@
        + redirect_address(port) + "&response_type=code&scope="@ + SCOPES@
        + "&access_type=offline&prompt=select_account"@
}

/// The address of the sign-in page that the browser is to open. It is an
/// error if no client identifier is configured.
pub fn open_auth_url(client_id: Option<String>, port: u16) -> (address: Result<String, String>)
    ensures
        match address {
            Ok(address) => client_id matches Some(id) && address@ == auth_address(id@, port),
            Err(message) => client_id is None && message@ == CLIENT_ID_MISSING@,
        },
{
    match client_id {
        None => Err(String::from_str(CLIENT_ID_MISSING)),
        Some(id) => {
            let redirect = redirect_uri(port);
            let mut address = join(
                "https://accounts.google.com/o/oauth2/v2/auth?client_id=",
                id.as_str(),
            );
            address.append("&redirect_uri=");
            address.append(redirect.as_str());
            address.append("&response_type=code&scope=");
            address.append(SCOPES);
            address.append("&access_type=offline&prompt=select_account");
            Ok(address)
        },
    }
}

/// Where an authorization code is exchanged for tokens.
pub const TOKEN_ENDPOINT: &'static str = "https://oauth2.googleapis.com/token";

/// Where the signed-in user is asked for.
pub const USER_INFO_ENDPOINT: &'static str = "https://www.googleapis.com/oauth2/v2/userinfo";

/// The fields of the request that exchanges `code` for tokens, in order.
pub open spec fn token_form(
    client_id: Seq<char>,
    client_secret: Seq<char>,
    code: Seq<char>,
    port: u16,
) -> Seq<(Seq<char>, Seq<char>)> {
    seq![
        ("client_id"@, client_id),
        ("client_secret"@, client_secret),
        ("code"@, code),
        ("grant_type"@, "authorization_code"@),
        ("redirect_uri"@, redirect_address(port)),
    ]
}

/// The fields of the request that exchanges `code` for tokens. It is an error
/// if the client identifier or the client secret is not configured; the
/// identifier is looked at first.
pub fn token_request(
    client_id: Option<String>,
    client_secret: Option<String>,
    code: String,
    port: u16,
) -> (form: Result<Vec<(String, String)>, String>)
    ensures
        match form {
            Ok(form) => {
                &&& client_id matches Some(id)
                &&& client_secret matches Some(secret)
                &&& pair_views(form@) == token_form(id@, secret@, code@, port)
            },
            Err(message) => if client_id is None {
                message@ == CLIENT_ID_MISSING@
            } else {
                client_secret is None && message@ == CLIENT_SECRET_MISSING@
            },
        },
{
    let id = match client_id {
        Some(id) => id,
        None => {
            return Err(String::from_str(CLIENT_ID_MISSING));
        },
    };
    let secret = match client_secret {
        Some(secret) => secret,
        None => {
            return Err(String::from_str(CLIENT_SECRET_MISSING));
        },
    };
    let mut form: Vec<(String, String)> = Vec::new();
    form.push((String::from_str("client_id"), id));
    form.push((String::from_str("client_secret"), secret));
    form.push((String::from_str("code"), code));
    form.push((String::from_str("grant_type"), String::from_str("authorization_code")));
    form.push((String::from_str("redirect_uri"), redirect_uri(port)));
    assert(pair_views(form@) =~= token_form(id@, secret@, code@, port));
    Ok(form)
}

/// What the token endpoint answered, as far as the exchange reads it.
#[derive(Debug)]
pub struct TokenReply {
    /// Whether the status of the answer was a success.
    pub success: bool,
    /// The field `access_token`, if it is there and a string.
    pub access_token: Option<String>,
    /// The field `refresh_token`, if it is there and a string.
    pub refresh_token: Option<String>,
}

/// What the user-info endpoint answered, as far as the exchange reads it.
#[derive(Debug)]
pub struct UserInfoReply {
    /// Whether the status of the answer was a success.
    pub success: bool,
    /// The field `id`, if it is there and a string.
    pub id: Option<String>,
    /// The field `email`, if it is there and a string.
    pub email: Option<String>,
}

/// The answer where the exchange did not lead to a signed-in user.
pub const EXCHANGE_FAILED: &'static str = "Failed to exchange code for tokens";

/// The message of a successful sign-in.
pub const AUTH_SUCCEEDED: &'static str = "Authentication successful";

/// The end of a successful exchange.
#[derive(Debug)]
pub struct SignedIn {
    /// The answer to the frontend, also announced as the event `auth-success`.
    pub response: AuthResponse,
    /// The access token to keep.
    pub access_token: String,
    /// The refresh token to keep, if one was given.
    pub refresh_token: Option<String>,
}

/// The access token with which the signed-in user is asked for: the one in
/// the answer of the token endpoint, if the answer was a success and holds
/// one. Without it the exchange has failed.
pub fn access_token_of(reply: &TokenReply) -> (token: Option<&String>)
    ensures
        match token {
            Some(token) => reply.success && reply.access_token == Some(*token),
            None => !reply.success || reply.access_token is None,
        },
{
    if reply.success {
        reply.access_token.as_ref()
    } else {
        None
    }
}

/// The text of an optional string, empty where there is none.
pub open spec fn text_or_empty(text: Option<String>) -> Seq<char> {
    match text {
        Some(text) => text@,
        None => Seq::empty(),
    }
}

fn string_or_empty(text: Option<String>) -> (chosen: String)
    ensures
        chosen@ == text_or_empty(text),
{
    match text {
        Some(text) => text,
        None => String::new(),
    }
}

/// The end of the exchange, once both endpoints have answered: the user is
/// signed in if both answers were a success and the first holds an access
/// token. An identifier or an address that the second answer lacks is left
/// empty.
pub fn exchange_code_for_tokens(tokens: TokenReply, user: UserInfoReply) -> (end: Result<
    SignedIn,
    String,
>)
    ensures
        match end {
            Ok(signed_in) => {
                &&& tokens.success && user.success
                &&& tokens.access_token matches Some(token)
                &&& signed_in.access_token@ == token@
                &&& signed_in.refresh_token == tokens.refresh_token
                &&& signed_in.response.success
                &&& signed_in.response.message@ == AUTH_SUCCEEDED@
                &&& signed_in.response.data matches Some(data)
                &&& data.token@ == token@
                &&& data.user_id@ == text_or_empty(user.id)
                &&& data.email@ == text_or_empty(user.email)
            },
            Err(message) => {
                &&& !(tokens.success && user.success && tokens.access_token is Some)
                &&& message@ == EXCHANGE_FAILED@
            },
        },
{
    if !tokens.success || !user.success {
        return Err(String::from_str(EXCHANGE_FAILED));
    }
    match tokens.access_token {
        None => Err(String::from_str(EXCHANGE_FAILED)),
        Some(token) => {
            let data = AuthData {
                token: token.clone(),
                user_id: string_or_empty(user.id),
                email: string_or_empty(user.email),
            };
            Ok(
                SignedIn {
                    response: AuthResponse {
                        success: true,
                        message: String::from_str(AUTH_SUCCEEDED),
                        data: Some(data),
                    },
                    access_token: token,
                    refresh_token: tokens.refresh_token,
                },
            )
        },
    }
}

/// Whether someone is signed in: whether a token is kept and is not empty.
pub fn get_auth_status(stored_token: Option<String>) -> (signed_in: bool)
    ensures
        signed_in == (stored_token matches Some(token) && token@.len() > 0),
{
    match stored_token {
        Some(token) => !token.as_str().is_empty(),
        None => false,
    }
}

} // verus!

//! The identity exchange: the values that pass between the router, the
//! token endpoint and the OAuth topic, the form of the two grant requests,
//! and how what the token endpoint answers becomes a grant or an error.

use crate::text::{clone_optional_text, optional_text};
use vstd::prelude::*;

verus! {

/// The token endpoint of the identity provider.
pub const TOKEN_ENDPOINT: &'static str = "https://oauth2.googleapis.com/token";

/// The redirect URI that is registered with the identity provider: the
/// landing page of the local server.
pub const REDIRECT_URI: &'static str = "http://localhost:3000/callback";

/// The client identifier that is used where none is configured.
pub const DEFAULT_CLIENT_ID: &'static str =
    "311952405738-1cd4o0irnc5b7maihbm3f68qatns9764.apps.googleusercontent.com";

/// The configuration variable that holds the client identifier.
pub const CLIENT_ID_VARIABLE: &'static str = "YOUTUBE_CLIENT_ID";

/// The configuration variable that holds the client secret.
pub const CLIENT_SECRET_VARIABLE: &'static str = "YOUTUBE_CLIENT_SECRET";

/// The platform whose tokens come by redirect, with no exchange.
pub const IMPLICIT_FLOW_SERVICE: &'static str = "twitch";

/// The platform whose tokens come by code exchange.
pub const CODE_EXCHANGE_SERVICE: &'static str = "youtube";

/// Seconds after which a call to the token endpoint is given up.
pub const EXCHANGE_TIMEOUT_SECS: u64 = 10;

/// The outcome of one authorization attempt, as it goes to the OAuth topic.
#[derive(Debug, Clone, PartialEq, Eq)]
pub struct OAuthCallback {
    pub token: String,
    pub service: String,
    pub error: Option<String>,
    pub refresh_token: Option<String>,
    pub expires_in: Option<i64>,
}

/// The mathematical value of an [`OAuthCallback`].
pub struct OAuthCallbackModel {
    pub token: Seq<char>,
    pub service: Seq<char>,
    pub error: Option<Seq<char>>,
    pub refresh_token: Option<Seq<char>>,
    pub expires_in: Option<i64>,
}

impl View for OAuthCallback {
    type V = OAuthCallbackModel;

    open spec fn view(&self) -> OAuthCallbackModel {
        OAuthCallbackModel {
            token: self.token@,
            service: self.service@,
            error: optional_text(self.error),
            refresh_token: optional_text(self.refresh_token),
            expires_in: self.expires_in,
        }
    }
}

impl OAuthCallbackModel {
    /// What every result on the OAuth topic has: a service that is not
    /// empty.
    pub open spec fn well_formed(self) -> bool {
        self.service.len() > 0
    }
}

/// The body of a code-exchange request.
#[derive(Debug, Clone, PartialEq, Eq)]
pub struct TokenExchangeRequest {
    pub code: String,
}

/// The body of a token-refresh request.
#[derive(Debug, Clone, PartialEq, Eq)]
pub struct RefreshTokenRequest {
    pub refresh_token: String,
}

/// A grant: what the token endpoint returns on success, and what the
/// exchange and refresh routes return to their caller.
#[derive(Debug, Clone, PartialEq, Eq)]
pub struct TokenResponse {
    pub access_token: String,
    pub refresh_token: Option<String>,
    pub expires_in: i64,
    pub token_type: String,
}

/// The mathematical value of a [`TokenResponse`].
pub struct TokenResponseModel {
    pub access_token: Seq<char>,
    pub refresh_token: Option<Seq<char>>,
    pub expires_in: i64,
    pub token_type: Seq<char>,
}

impl View for TokenResponse {
    type V = TokenResponseModel;

    open spec fn view(&self) -> TokenResponseModel {
        TokenResponseModel {
            access_token: self.access_token@,
            refresh_token: optional_text(self.refresh_token),
            expires_in: self.expires_in,
            token_type: self.token_type@,
        }
    }
}

/// The body of a failed exchange or refresh.
#[derive(Debug, Clone, PartialEq, Eq)]
pub struct ErrorResponse {
    pub error: String,
}

/// Why the client has no credentials.
#[derive(Debug, Clone, Copy, PartialEq, Eq)]
pub enum ConfigError {
    /// No client secret is configured.
    MissingClientSecret,
}

/// The client identifier: the configured one, or the built-in default where
/// none is configured.
pub fn get_youtube_client_id(configured: Option<String>) -> (id: String)
    ensures
        id@ == match configured {
            Some(value) => value@,
            None => DEFAULT_CLIENT_ID@,
        },
{
    match configured {
        Some(value) => value,
        None => String::from_str(DEFAULT_CLIENT_ID),
    }
}

/// The client secret, which has no default: without it the provider
/// refuses every exchange, so the server must not start.
pub fn get_youtube_client_secret(configured: Option<String>) -> (r: Result<String, ConfigError>)
    ensures
        r == match configured {
            Some(value) => Ok::<String, ConfigError>(value),
            None => Err::<String, ConfigError>(ConfigError::MissingClientSecret),
        },
{
    match configured {
        Some(value) => Ok(value),
        None => Err(ConfigError::MissingClientSecret),
    }
}

/// The credentials that the client presents to the token endpoint.
#[derive(Debug, Clone, PartialEq, Eq)]
pub struct Credentials {
    pub client_id: String,
    pub client_secret: String,
}

impl Credentials {
    /// The credentials for what is configured: an error where the secret is
    /// missing, else the secret with the configured or the default identifier.
    pub fn resolve(client_id: Option<String>, client_secret: Option<String>) -> (r: Result<
        Credentials,
        ConfigError,
    >)
        ensures
            client_secret is None ==> r == Err::<Credentials, ConfigError>(
                ConfigError::MissingClientSecret,
            ),
            client_secret is Some ==> r is Ok && r->Ok_0.client_secret == client_secret->Some_0
                && r->Ok_0.client_id@ == match client_id {
                Some(value) => value@,
                None => DEFAULT_CLIENT_ID@,
            },
    {
        match get_youtube_client_secret(client_secret) {
            Ok(secret) => Ok(
                Credentials { client_id: get_youtube_client_id(client_id), client_secret: secret },
            ),
            Err(e) => Err(e),
        }
    }
}

/// One field of a form: its name and its value.
pub open spec fn form_field(name: Seq<char>, value: Seq<char>) -> (Seq<char>, Seq<char>) {
    (name, value)
}

/// The fields of a list of pairs of texts, by their characters.
pub open spec fn fields_of(pairs: Seq<(String, String)>) -> Seq<(Seq<char>, Seq<char>)> {
    Seq::new(pairs.len(), |i: int| (pairs[i].0@, pairs[i].1@))
}

/// The form of a code exchange, in the order in which it is sent.
pub open spec fn exchange_form_of(
    code: Seq<char>,
    client_id: Seq<char>,
    client_secret: Seq<char>,
) -> Seq<(Seq<char>, Seq<char>)> {
    seq![
        form_field("code"@, code),
        form_field("client_id"@, client_id),
        form_field("client_secret"@, client_secret),
        form_field("redirect_uri"@, REDIRECT_URI@),
        form_field("grant_type"@, "authorization_code"@),
    ]
}

/// The form of a token refresh, in the order in which it is sent.
pub open spec fn refresh_form_of(
    refresh_token: Seq<char>,
    client_id: Seq<char>,
    client_secret: Seq<char>,
) -> Seq<(Seq<char>, Seq<char>)> {
    seq![
        form_field("refresh_token"@, refresh_token),
        form_field("client_id"@, client_id),
        form_field("client_secret"@, client_secret),
        form_field("grant_type"@, "refresh_token"@),
    ]
}

fn field(name: &str, value: &str) -> (r: (String, String))
    ensures
        r.0@ == name@,
        r.1@ == value@,
{
    (String::from_str(name), String::from_str(value))
}

/// The form that asks the token endpoint to exchange an authorization code.
pub fn exchange_form(request: &TokenExchangeRequest, credentials: &Credentials) -> (form: Vec<
    (String, String),
>)
    ensures
        fields_of(form@) == exchange_form_of(
            request.code@,
            credentials.client_id@,
            credentials.client_secret@,
        ),
{
    let mut form: Vec<(String, String)> = Vec::new();
    form.push(field("code", request.code.as_str()));
    form.push(field("client_id", credentials.client_id.as_str()));
    form.push(field("client_secret", credentials.client_secret.as_str()));
    form.push(field("redirect_uri", REDIRECT_URI));
    form.push(field("grant_type", "authorization_code"));
    assert(fields_of(form@) =~= exchange_form_of(
        request.code@,
        credentials.client_id@,
        credentials.client_secret@,
    ));
    form
}

/// The form that asks the token endpoint for a new access token.
pub fn refresh_form(request: &RefreshTokenRequest, credentials: &Credentials) -> (form: Vec<
    (String, String),
>)
    ensures
        fields_of(form@) == refresh_form_of(
            request.refresh_token@,
            credentials.client_id@,
            credentials.client_secret@,
        ),
{
    let mut form: Vec<(String, String)> = Vec::new();
    form.push(field("refresh_token", request.refresh_token.as_str()));
    form.push(field("client_id", credentials.client_id.as_str()));
    form.push(field("client_secret", credentials.client_secret.as_str()));
    form.push(field("grant_type", "refresh_token"));
    assert(fields_of(form@) =~= refresh_form_of(
        request.refresh_token@,
        credentials.client_id@,
        credentials.client_secret@,
    ));
    form
}

/// Why an exchange with the token endpoint gave no grant.
#[derive(Debug, Clone, PartialEq, Eq)]
pub enum ExchangeError {
    /// The request did not reach the endpoint, or no reply came in time.
    Transport { detail: String },
    /// The endpoint replied with a status outside 2xx.
    Upstream { status: u16, body: String },
    /// The endpoint replied with 2xx, but the body is not a grant.
    Decode { detail: String },
}

/// The mathematical value of an [`ExchangeError`].
pub enum ExchangeErrorModel {
    Transport { detail: Seq<char> },
    Upstream { status: u16, body: Seq<char> },
    Decode { detail: Seq<char> },
}

impl View for ExchangeError {
    type V = ExchangeErrorModel;

    open spec fn view(&self) -> ExchangeErrorModel {
        match self {
            ExchangeError::Transport { detail } => ExchangeErrorModel::Transport {
                detail: detail@,
            },
            ExchangeError::Upstream { status, body } => ExchangeErrorModel::Upstream {
                status: *status,
                body: body@,
            },
            ExchangeError::Decode { detail } => ExchangeErrorModel::Decode { detail: detail@ },
        }
    }
}

/// What came of one request to the token endpoint, as its sender saw it.
#[derive(Debug, Clone, PartialEq, Eq)]
pub enum TokenReply {
    /// The request could not be sent, or no reply came in time.
    Failed { detail: String },
    /// A reply came with a status outside 2xx; `body` is its text, where it
    /// could be read.
    Rejected { status: u16, body: Option<String> },
    /// A reply came with a 2xx status and a body that is not a grant.
    Malformed { detail: String },
    /// A reply came with a 2xx status and a grant.
    Granted { grant: TokenResponse },
}

/// The status tells a reply that carries a grant from one that carries an
/// error text: the former has a status from 200 to 299.
pub open spec fn status_is_success(status: u16) -> bool {
    200 <= status < 300
}

/// Is `status` one of the 2xx statuses?
pub fn is_success(status: u16) -> (r: bool)
    ensures
        r == status_is_success(status),
{
    200 <= status && status < 300
}

/// The value of the result of an exchange.
pub open spec fn exchange_result_model(r: Result<TokenResponse, ExchangeError>) -> Result<
    TokenResponseModel,
    ExchangeErrorModel,
> {
    match r {
        Ok(grant) => Ok(grant@),
        Err(e) => Err(e@),
    }
}

/// The grant or the error that a reply of the token endpoint amounts to. A
/// rejection whose body could not be read is reported with the body
/// `Unknown error`.
pub open spec fn exchange_result_of(reply: TokenReply) -> Result<
    TokenResponseModel,
    ExchangeErrorModel,
> {
    match reply {
        TokenReply::Failed { detail } => Err(ExchangeErrorModel::Transport { detail: detail@ }),
        TokenReply::Rejected { status, body } => Err(
            ExchangeErrorModel::Upstream {
                status,
                body: match body {
                    Some(text) => text@,
                    None => "Unknown error"@,
                },
            },
        ),
        TokenReply::Malformed { detail } => Err(ExchangeErrorModel::Decode { detail: detail@ }),
        TokenReply::Granted { grant } => Ok(grant@),
    }
}

/// Turns what the token endpoint answered into a grant or an error.
pub fn exchange_result(reply: TokenReply) -> (r: Result<TokenResponse, ExchangeError>)
    ensures
        exchange_result_model(r) == exchange_result_of(reply),
{
    match reply {
        TokenReply::Failed { detail } => Err(ExchangeError::Transport { detail }),
        TokenReply::Rejected { status, body } => {
            let body: String = match body {
                Some(text) => text,
                None => String::from_str("Unknown error"),
            };
            Err(ExchangeError::Upstream { status, body })
        },
        TokenReply::Malformed { detail } => Err(ExchangeError::Decode { detail }),
        TokenReply::Granted { grant } => Ok(grant),
    }
}

/// The result that a grant puts on the OAuth topic: the access token under
/// the code-exchange platform's name, with no error.
pub open spec fn granted_callback(grant: TokenResponseModel) -> OAuthCallbackModel {
    OAuthCallbackModel {
        token: grant.access_token,
        service: CODE_EXCHANGE_SERVICE@,
        error: None,
        refresh_token: grant.refresh_token,
        expires_in: Some(grant.expires_in),
    }
}

impl TokenResponse {
    /// The result that this grant puts on the OAuth topic.
    pub fn to_callback(&self) -> (callback: OAuthCallback)
        ensures
            callback@ == granted_callback(self@),
    {
        OAuthCallback {
            token: self.access_token.clone(),
            service: String::from_str(CODE_EXCHANGE_SERVICE),
            error: None,
            refresh_token: clone_optional_text(&self.refresh_token),
            expires_in: Some(self.expires_in),
        }
    }
}

} // verus!

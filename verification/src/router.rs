//! The HTTP surface: the route table, and for each route what a request is
//! answered with and what it puts on a topic. A handler takes the parts of
//! the request that its route reads, as plain values, and returns the reply
//! together with what is to be published; sending and publishing are the
//! caller's.

use crate::alerts::{
    alert_result, decoded_notification, lemma_live_alert_well_formed,
    lemma_twitch_alert_well_formed, live_alert, process_twitch_event, process_youtube_alert,
    twitch_alert, youtube_alert, AlertModel, AlertPayload, TwitchEventSubPayload,
};
use crate::bus::PublishOutcome;
use crate::json::{find_last, keys_of, last_index_of, JsonModel, JsonValue};
use crate::oauth::{
    exchange_result_model, exchange_result_of, granted_callback, ErrorResponse, ExchangeError,
    ExchangeErrorModel, OAuthCallback, OAuthCallbackModel, TokenReply, TokenResponse,
    TokenResponseModel, IMPLICIT_FLOW_SERVICE, REDIRECT_URI,
};
use crate::text::{decimal_digits, integer_text_value, parse_i64, same_text};
use vstd::prelude::*;

verus! {

/// The request header that names the kind of a subscription-protocol message.
pub const MESSAGE_TYPE_HEADER: &'static str = "Twitch-Eventsub-Message-Type";

/// The loopback address on which the server listens.
pub const LISTEN_HOST: &'static str = "127.0.0.1";

/// The port on which the server listens.
pub const LISTEN_PORT: u16 = 3000;

pub const STATUS_OK: u16 = 200;

pub const STATUS_BAD_REQUEST: u16 = 400;

pub const STATUS_INTERNAL_SERVER_ERROR: u16 = 500;

pub const STATUS_BAD_GATEWAY: u16 = 502;

/// What a reply carries.
#[derive(Debug, Clone, PartialEq, Eq)]
pub enum Body {
    /// Nothing.
    Empty,
    /// Plain text.
    Text(String),
    /// The page that tells the user's browser that sign-in has finished.
    LandingPage,
    /// A grant, as JSON.
    Grant(TokenResponse),
    /// An error, as JSON.
    Error(ErrorResponse),
}

/// The mathematical value of a [`Body`].
pub enum BodyModel {
    Empty,
    Text(Seq<char>),
    LandingPage,
    Grant(TokenResponseModel),
    Error(Seq<char>),
}

impl View for Body {
    type V = BodyModel;

    open spec fn view(&self) -> BodyModel {
        match self {
            Body::Empty => BodyModel::Empty,
            Body::Text(text) => BodyModel::Text(text@),
            Body::LandingPage => BodyModel::LandingPage,
            Body::Grant(grant) => BodyModel::Grant(grant@),
            Body::Error(e) => BodyModel::Error(e.error@),
        }
    }
}

/// The answer to a request: a status and a body.
#[derive(Debug, Clone, PartialEq, Eq)]
pub struct Reply {
    pub status: u16,
    pub body: Body,
}

/// The mathematical value of a [`Reply`].
pub struct ReplyModel {
    pub status: u16,
    pub body: BodyModel,
}

impl View for Reply {
    type V = ReplyModel;

    open spec fn view(&self) -> ReplyModel {
        ReplyModel { status: self.status, body: self.body@ }
    }
}

/// A reply that has a status and no body.
pub open spec fn bare_reply(status: u16) -> ReplyModel {
    ReplyModel { status, body: BodyModel::Empty }
}

/// The reply 200 with a plain text.
pub open spec fn text_reply(text: Seq<char>) -> ReplyModel {
    ReplyModel { status: STATUS_OK, body: BodyModel::Text(text) }
}

/// The reply with an error as its body.
pub open spec fn error_reply(status: u16, error: Seq<char>) -> ReplyModel {
    ReplyModel { status, body: BodyModel::Error(error) }
}

impl Reply {
    /// A reply that has a status and no body.
    pub fn bare(status: u16) -> (r: Reply)
        ensures
            r@ == bare_reply(status),
    {
        Reply { status, body: Body::Empty }
    }

    /// The reply 200 with a plain text.
    pub fn text(text: String) -> (r: Reply)
        ensures
            r@ == text_reply(text@),
    {
        Reply { status: STATUS_OK, body: Body::Text(text) }
    }

    /// The reply with an error as its body.
    pub fn error(status: u16, error: String) -> (r: Reply)
        ensures
            r@ == error_reply(status, error@),
    {
        Reply { status, body: Body::Error(ErrorResponse { error }) }
    }
}

/// The value that a query gives to `name`: that of the last parameter of
/// that name, where there is one.
pub open spec fn param_of(params: Seq<(String, String)>, name: Seq<char>) -> Option<Seq<char>> {
    match last_index_of(keys_of(params), name) {
        Some(i) => Some(params[i].1@),
        None => None,
    }
}

/// Looks up a query parameter.
pub fn query_param<'a>(params: &'a Vec<(String, String)>, name: &str) -> (r: Option<&'a str>)
    ensures
        match r {
            Some(value) => param_of(params@, name@) == Some(value@),
            None => param_of(params@, name@) is None,
        },
{
    match find_last(params, name) {
        Some(i) => Some(params[i].1.as_str()),
        None => None,
    }
}

/// The landing page of a redirect: the page, whatever the query holds.
pub fn handle_callback() -> (reply: Reply)
    ensures
        reply@ == (ReplyModel { status: STATUS_OK, body: BodyModel::LandingPage }),
{
    Reply { status: STATUS_OK, body: Body::LandingPage }
}

/// The service that a simple auth completion names: the `service`
/// parameter, or the implicit-flow platform where the query has none or
/// has it empty. It is never the empty text.
pub open spec fn completed_service(params: Seq<(String, String)>) -> Seq<char> {
    match param_of(params, "service"@) {
        Some(service) => if service.len() > 0 {
            service
        } else {
            IMPLICIT_FLOW_SERVICE@
        },
        None => IMPLICIT_FLOW_SERVICE@,
    }
}

/// The OAuth result that a simple auth completion asks to publish: the
/// token, the service that the completion names, the refresh token where
/// one is given, and the lifetime where one is given and is an integer.
/// Without a token there is none.
pub open spec fn completed_callback(params: Seq<(String, String)>) -> Option<OAuthCallbackModel> {
    match param_of(params, "token"@) {
        Some(token) => Some(
            OAuthCallbackModel {
                token,
                service: completed_service(params),
                error: None,
                refresh_token: param_of(params, "refresh_token"@),
                expires_in: match param_of(params, "expires_in"@) {
                    Some(text) => integer_text_value(text),
                    None => None,
                },
            },
        ),
        None => None,
    }
}

/// Simple auth completion, first half: what to publish, which always names
/// a service, or the reply 400 where the query has no token.
pub fn handle_auth_complete(params: &Vec<(String, String)>) -> (r: Result<OAuthCallback, Reply>)
    ensures
        match r {
            Ok(callback) => completed_callback(params@) == Some(callback@)
                && callback@.well_formed(),
            Err(reply) => completed_callback(params@) is None && reply@ == bare_reply(
                STATUS_BAD_REQUEST,
            ),
        },
{
    match query_param(params, "token") {
        Some(token) => {
            let given: Option<&str> = query_param(params, "service");
            let service: String = match given {
                Some(service) if !service.is_empty() => String::from_str(service),
                _ => String::from_str(IMPLICIT_FLOW_SERVICE),
            };
            let refresh_token: Option<String> = match query_param(params, "refresh_token") {
                Some(value) => Some(String::from_str(value)),
                None => None,
            };
            let expires_in: Option<i64> = match query_param(params, "expires_in") {
                Some(text) => parse_i64(text),
                None => None,
            };
            proof {
                lemma_completed_callback_well_formed(params@);
            }
            Ok(
                OAuthCallback {
                    token: String::from_str(token),
                    service,
                    error: None,
                    refresh_token,
                    expires_in,
                },
            )
        },
        None => Err(Reply::bare(STATUS_BAD_REQUEST)),
    }
}

/// The reply of a simple auth completion once its result was published:
/// 500 where the topic itself failed, else 200 with the text `OK`, also
/// where nobody was subscribed.
pub open spec fn auth_complete_reply_of(outcome: PublishOutcome) -> ReplyModel {
    match outcome {
        PublishOutcome::ChannelFailure => bare_reply(STATUS_INTERNAL_SERVER_ERROR),
        _ => text_reply("OK"@),
    }
}

/// Simple auth completion, second half: the reply, given what the publish
/// came to.
pub fn auth_complete_reply(outcome: PublishOutcome) -> (reply: Reply)
    ensures
        reply@ == auth_complete_reply_of(outcome),
{
    match outcome {
        PublishOutcome::ChannelFailure => Reply::bare(STATUS_INTERNAL_SERVER_ERROR),
        _ => Reply::text(String::from_str("OK")),
    }
}

/// What a webhook delivery comes to: the reply, and the alert to publish,
/// if any.
#[derive(Debug, Clone, PartialEq, Eq)]
pub struct Delivery {
    pub reply: Reply,
    pub alert: Option<AlertPayload>,
}

/// The mathematical value of a [`Delivery`].
pub struct DeliveryModel {
    pub reply: ReplyModel,
    pub alert: Option<AlertModel>,
}

impl View for Delivery {
    type V = DeliveryModel;

    open spec fn view(&self) -> DeliveryModel {
        DeliveryModel { reply: self.reply@, alert: alert_result(self.alert) }
    }
}

/// The challenge of a verification message: the text member `challenge` of
/// the body, or the empty text where there is none.
pub open spec fn challenge_of(payload: JsonModel) -> Seq<char> {
    match payload.text_at("challenge"@) {
        Some(challenge) => challenge,
        None => Seq::empty(),
    }
}

/// The alert of a notification message: none where the body is no
/// notification, else what the normalizer gives for its type and event.
pub open spec fn notification_alert(payload: JsonModel) -> Option<AlertModel> {
    match decoded_notification(payload) {
        Some(notification) => twitch_alert(notification.subscription.kind, notification.event),
        None => None,
    }
}

/// What a message of the subscription protocol comes to, by its type: a
/// verification is answered with its challenge; a notification is
/// acknowledged and gives its alert; any other type, or none, is
/// acknowledged and nothing more.
pub open spec fn twitch_delivery(message_type: Option<Seq<char>>, payload: JsonModel)
    -> DeliveryModel {
    if message_type == Some("webhook_callback_verification"@) {
        DeliveryModel { reply: text_reply(challenge_of(payload)), alert: None }
    } else if message_type == Some("notification"@) {
        DeliveryModel { reply: bare_reply(STATUS_OK), alert: notification_alert(payload) }
    } else {
        DeliveryModel { reply: bare_reply(STATUS_OK), alert: None }
    }
}

/// The characters of an optional string slice.
pub open spec fn optional_str(o: Option<&str>) -> Option<Seq<char>> {
    match o {
        Some(s) => Some(s@),
        None => None,
    }
}

/// The subscription webhook. `message_type` is the value of the
/// message-type header, where the request has one that is text.
pub fn handle_twitch_alerts(message_type: Option<&str>, payload: &JsonValue) -> (delivery: Delivery)
    ensures
        delivery@ == twitch_delivery(optional_str(message_type), payload@),
        delivery.alert matches Some(alert) ==> alert@.well_formed(),
{
    proof {
        lemma_deliveries_keep_their_platform(optional_str(message_type), payload@, Seq::empty());
    }
    let kind: &str = match message_type {
        Some(kind) => kind,
        None => {
            return Delivery { reply: Reply::bare(STATUS_OK), alert: None };
        },
    };
    if same_text(kind, "webhook_callback_verification") {
        let challenge: String = match payload.text_at("challenge") {
            Some(challenge) => String::from_str(challenge),
            None => String::new(),
        };
        Delivery { reply: Reply::text(challenge), alert: None }
    } else if same_text(kind, "notification") {
        let alert: Option<AlertPayload> = match TwitchEventSubPayload::decode(payload) {
            Some(notification) => process_twitch_event(notification),
            None => None,
        };
        Delivery { reply: Reply::bare(STATUS_OK), alert }
    } else {
        Delivery { reply: Reply::bare(STATUS_OK), alert: None }
    }
}

/// The answer to the verification handshake of the push protocol: the
/// challenge as it came, or 400 where the query has none.
pub open spec fn youtube_challenge_reply(params: Seq<(String, String)>) -> ReplyModel {
    match param_of(params, "hub.challenge"@) {
        Some(challenge) => text_reply(challenge),
        None => bare_reply(STATUS_BAD_REQUEST),
    }
}

/// The verification handshake of the push-notification webhook.
pub fn handle_youtube_challenge(params: &Vec<(String, String)>) -> (reply: Reply)
    ensures
        reply@ == youtube_challenge_reply(params@),
{
    match query_param(params, "hub.challenge") {
        Some(challenge) => Reply::text(String::from_str(challenge)),
        None => Reply::bare(STATUS_BAD_REQUEST),
    }
}

/// A delivery of the push-notification webhook: always acknowledged, with
/// the alert that the normalizer gives for the body.
pub fn handle_youtube_alerts(body: &str) -> (delivery: Delivery)
    ensures
        delivery@ == (DeliveryModel { reply: bare_reply(STATUS_OK), alert: youtube_alert(body@) }),
        delivery.alert matches Some(alert) ==> alert@.well_formed(),
{
    proof {
        lemma_live_alert_well_formed();
    }
    Delivery { reply: Reply::bare(STATUS_OK), alert: process_youtube_alert(body) }
}

/// The reply to a caller whose exchange or refresh failed. `rejected` is
/// the sentence that stands before what the token endpoint said.
pub open spec fn failure_reply(e: ExchangeErrorModel, rejected: Seq<char>) -> ReplyModel {
    match e {
        ExchangeErrorModel::Transport { detail } => error_reply(
            STATUS_BAD_GATEWAY,
            "Failed to connect to Google: "@ + detail,
        ),
        ExchangeErrorModel::Upstream { status, body } => error_reply(
            STATUS_BAD_REQUEST,
            rejected + body,
        ),
        ExchangeErrorModel::Decode { detail } => error_reply(
            STATUS_INTERNAL_SERVER_ERROR,
            "Failed to parse token response: "@ + detail,
        ),
    }
}

/// The reply 200 with a grant as its body.
pub open spec fn grant_reply(grant: TokenResponseModel) -> ReplyModel {
    ReplyModel { status: STATUS_OK, body: BodyModel::Grant(grant) }
}

fn reply_to_failure(e: &ExchangeError, rejected: &str) -> (reply: Reply)
    ensures
        reply@ == failure_reply(e@, rejected@),
{
    match e {
        ExchangeError::Transport { detail } => {
            let mut message: String = String::from_str("Failed to connect to Google: ");
            message.append(detail.as_str());
            Reply::error(STATUS_BAD_GATEWAY, message)
        },
        ExchangeError::Upstream { status: _, body } => {
            let mut message: String = String::from_str(rejected);
            message.append(body.as_str());
            Reply::error(STATUS_BAD_REQUEST, message)
        },
        ExchangeError::Decode { detail } => {
            let mut message: String = String::from_str("Failed to parse token response: ");
            message.append(detail.as_str());
            Reply::error(STATUS_INTERNAL_SERVER_ERROR, message)
        },
    }
}

/// What a code exchange comes to: the reply, and the OAuth result to
/// publish, if any.
#[derive(Debug, Clone, PartialEq, Eq)]
pub struct ExchangeOutcome {
    pub reply: Reply,
    pub publish: Option<OAuthCallback>,
}

/// The mathematical value of an [`ExchangeOutcome`].
pub struct ExchangeOutcomeModel {
    pub reply: ReplyModel,
    pub publish: Option<OAuthCallbackModel>,
}

impl View for ExchangeOutcome {
    type V = ExchangeOutcomeModel;

    open spec fn view(&self) -> ExchangeOutcomeModel {
        ExchangeOutcomeModel {
            reply: self.reply@,
            publish: match self.publish {
                Some(callback) => Some(callback@),
                None => None,
            },
        }
    }
}

/// What the code-exchange route does with the result of the exchange: a
/// grant is returned to the caller and published once, under the
/// code-exchange platform's name; an error is reported to the caller and
/// nothing is published.
pub open spec fn exchange_outcome(result: Result<TokenResponseModel, ExchangeErrorModel>)
    -> ExchangeOutcomeModel {
    match result {
        Ok(grant) => ExchangeOutcomeModel {
            reply: grant_reply(grant),
            publish: Some(granted_callback(grant)),
        },
        Err(e) => ExchangeOutcomeModel {
            reply: failure_reply(e, "Token exchange failed: "@),
            publish: None,
        },
    }
}

/// The code-exchange route, once the exchange has been made.
pub fn handle_auth_exchange(result: Result<TokenResponse, ExchangeError>) -> (outcome:
    ExchangeOutcome)
    ensures
        outcome@ == exchange_outcome(exchange_result_model(result)),
        outcome.publish matches Some(callback) ==> callback@.well_formed(),
{
    match result {
        Ok(grant) => {
            proof {
                lemma_granted_exchange_publishes_once(grant@);
            }
            let callback: OAuthCallback = grant.to_callback();
            ExchangeOutcome {
                reply: Reply { status: STATUS_OK, body: Body::Grant(grant) },
                publish: Some(callback),
            }
        },
        Err(e) => ExchangeOutcome {
            reply: reply_to_failure(&e, "Token exchange failed: "),
            publish: None,
        },
    }
}

/// What the token-refresh route answers: the new grant, or the error. A
/// refresh is no new login, so it has nothing to publish.
pub open spec fn refresh_reply(result: Result<TokenResponseModel, ExchangeErrorModel>)
    -> ReplyModel {
    match result {
        Ok(grant) => grant_reply(grant),
        Err(e) => failure_reply(e, "Token refresh failed: "@),
    }
}

/// The token-refresh route, once the exchange has been made.
pub fn handle_auth_refresh(result: Result<TokenResponse, ExchangeError>) -> (reply: Reply)
    ensures
        reply@ == refresh_reply(exchange_result_model(result)),
{
    match result {
        Ok(grant) => Reply { status: STATUS_OK, body: Body::Grant(grant) },
        Err(e) => reply_to_failure(&e, "Token refresh failed: "),
    }
}

/// The two request methods that the routes answer.
#[derive(Debug, Clone, Copy, PartialEq, Eq, Structural)]
pub enum Method {
    Get,
    Post,
}

/// The routes of the server.
#[derive(Debug, Clone, Copy, PartialEq, Eq, Structural)]
pub enum Route {
    /// The landing page of a redirect.
    Callback,
    /// Simple auth completion.
    AuthComplete,
    /// Code exchange.
    AuthExchange,
    /// Token refresh.
    AuthRefresh,
    /// The subscription webhook.
    TwitchAlerts,
    /// The verification handshake of the push-notification webhook.
    YoutubeChallenge,
    /// A delivery of the push-notification webhook.
    YoutubeAlerts,
}

impl Route {
    /// The path under which the route is served.
    pub open spec fn path_of(self) -> Seq<char> {
        match self {
            Route::Callback => "/callback"@,
            Route::AuthComplete => "/auth-complete"@,
            Route::AuthExchange => "/auth-exchange"@,
            Route::AuthRefresh => "/auth-refresh"@,
            Route::TwitchAlerts => "/twitch-alerts"@,
            Route::YoutubeChallenge => "/youtube-alerts"@,
            Route::YoutubeAlerts => "/youtube-alerts"@,
        }
    }

    /// The method that the route answers.
    pub open spec fn method_of(self) -> Method {
        match self {
            Route::Callback => Method::Get,
            Route::AuthComplete => Method::Get,
            Route::AuthExchange => Method::Post,
            Route::AuthRefresh => Method::Post,
            Route::TwitchAlerts => Method::Post,
            Route::YoutubeChallenge => Method::Get,
            Route::YoutubeAlerts => Method::Post,
        }
    }

    /// The path under which the route is served.
    pub fn path(&self) -> (r: &'static str)
        ensures
            r@ == self.path_of(),
    {
        match self {
            Route::Callback => "/callback",
            Route::AuthComplete => "/auth-complete",
            Route::AuthExchange => "/auth-exchange",
            Route::AuthRefresh => "/auth-refresh",
            Route::TwitchAlerts => "/twitch-alerts",
            Route::YoutubeChallenge => "/youtube-alerts",
            Route::YoutubeAlerts => "/youtube-alerts",
        }
    }

    /// The method that the route answers.
    pub fn method(&self) -> (r: Method)
        ensures
            r == self.method_of(),
    {
        match self {
            Route::Callback => Method::Get,
            Route::AuthComplete => Method::Get,
            Route::AuthExchange => Method::Post,
            Route::AuthRefresh => Method::Post,
            Route::TwitchAlerts => Method::Post,
            Route::YoutubeChallenge => Method::Get,
            Route::YoutubeAlerts => Method::Post,
        }
    }
}

/// The route that answers `method` on `path`, where there is one.
pub open spec fn route_of(method: Method, path: Seq<char>) -> Option<Route> {
    if path == "/callback"@ && method == Method::Get {
        Some(Route::Callback)
    } else if path == "/auth-complete"@ && method == Method::Get {
        Some(Route::AuthComplete)
    } else if path == "/auth-exchange"@ && method == Method::Post {
        Some(Route::AuthExchange)
    } else if path == "/auth-refresh"@ && method == Method::Post {
        Some(Route::AuthRefresh)
    } else if path == "/twitch-alerts"@ && method == Method::Post {
        Some(Route::TwitchAlerts)
    } else if path == "/youtube-alerts"@ && method == Method::Get {
        Some(Route::YoutubeChallenge)
    } else if path == "/youtube-alerts"@ && method == Method::Post {
        Some(Route::YoutubeAlerts)
    } else {
        None
    }
}

/// Finds the route that answers `method` on `path`.
pub fn resolve(method: Method, path: &str) -> (r: Option<Route>)
    ensures
        r == route_of(method, path@),
{
    let get: bool = method == Method::Get;
    if same_text(path, "/callback") && get {
        Some(Route::Callback)
    } else if same_text(path, "/auth-complete") && get {
        Some(Route::AuthComplete)
    } else if same_text(path, "/auth-exchange") && !get {
        Some(Route::AuthExchange)
    } else if same_text(path, "/auth-refresh") && !get {
        Some(Route::AuthRefresh)
    } else if same_text(path, "/twitch-alerts") && !get {
        Some(Route::TwitchAlerts)
    } else if same_text(path, "/youtube-alerts") {
        if get {
            Some(Route::YoutubeChallenge)
        } else {
            Some(Route::YoutubeAlerts)
        }
    } else {
        None
    }
}

/// The six paths of the route table are six different texts.
pub proof fn lemma_paths_differ()
    ensures
        "/callback"@.len() == 9,
        "/auth-complete"@.len() == 14,
        "/auth-exchange"@.len() == 14,
        "/auth-refresh"@.len() == 13,
        "/twitch-alerts"@.len() == 14,
        "/youtube-alerts"@.len() == 15,
        "/auth-complete"@ != "/auth-exchange"@,
        "/auth-complete"@ != "/twitch-alerts"@,
        "/auth-exchange"@ != "/twitch-alerts"@,
{
    reveal_strlit("/callback");
    reveal_strlit("/auth-complete");
    reveal_strlit("/auth-exchange");
    reveal_strlit("/auth-refresh");
    reveal_strlit("/twitch-alerts");
    reveal_strlit("/youtube-alerts");
    assert("/auth-complete"@[6] == 'c');
    assert("/auth-exchange"@[6] == 'e');
    assert("/twitch-alerts"@[6] == 'h');
}

/// Every route is found under its own method and path, and under no
/// other: the table sends no request to two routes.
pub proof fn lemma_route_table_is_exact(route: Route, method: Method, path: Seq<char>)
    ensures
        route_of(route.method_of(), route.path_of()) == Some(route),
        route_of(method, path) == Some(route) ==> method == route.method_of() && path
            == route.path_of(),
{
    lemma_paths_differ();
}

/// The redirect URI that goes to the identity provider is the landing
/// page's route on the port on which the server listens.
pub proof fn lemma_redirect_uri_is_landing_page()
    ensures
        REDIRECT_URI@ == "http://localhost:"@ + decimal_digits(
            LISTEN_PORT as nat,
        ) + Route::Callback.path_of(),
{
    reveal_strlit("http://localhost:3000/callback");
    reveal_strlit("http://localhost:");
    reveal_strlit("/callback");
    reveal_with_fuel(decimal_digits, 5);
    let digits = decimal_digits(3000);
    assert(digits =~= seq!['3', '0', '0', '0']);
    assert(REDIRECT_URI@ =~= "http://localhost:"@ + digits + "/callback"@);
}

/// The push webhook's handshake echoes the challenge that the query
/// supplies, character for character.
pub proof fn lemma_push_challenge_echoed(params: Seq<(String, String)>, challenge: Seq<char>)
    requires
        param_of(params, "hub.challenge"@) == Some(challenge),
    ensures
        youtube_challenge_reply(params) == text_reply(challenge),
        youtube_challenge_reply(params).status == 200,
        youtube_challenge_reply(params).body == BodyModel::Text(challenge),
{
}

/// The subscription webhook answers a verification message with the
/// challenge that its body supplies, character for character, whatever else
/// the body holds, and publishes nothing.
pub proof fn lemma_subscription_challenge_echoed(payload: JsonModel, challenge: Seq<char>)
    requires
        payload.text_at("challenge"@) == Some(challenge),
    ensures
        twitch_delivery(Some("webhook_callback_verification"@), payload).reply == text_reply(
            challenge,
        ),
        twitch_delivery(Some("webhook_callback_verification"@), payload).reply.status == 200,
        twitch_delivery(Some("webhook_callback_verification"@), payload).reply.body
            == BodyModel::Text(challenge),
        twitch_delivery(Some("webhook_callback_verification"@), payload).alert is None,
{
}

/// A notification is acknowledged with 200 and no body, whatever it holds,
/// and publishes what the normalizer gives for the subscription type and
/// the event that it decodes to; one that does not decode publishes nothing.
pub proof fn lemma_notification_publishes_its_alert(payload: JsonModel)
    ensures
        twitch_delivery(Some("notification"@), payload).reply == bare_reply(200),
        twitch_delivery(Some("notification"@), payload).alert == notification_alert(payload),
        decoded_notification(payload) is None ==> twitch_delivery(
            Some("notification"@),
            payload,
        ).alert is None,
{
    reveal_strlit("notification");
    reveal_strlit("webhook_callback_verification");
    assert("notification"@.len() == 12);
    assert("webhook_callback_verification"@.len() == 29);
}

/// The senders of webhooks never see a failure: whatever the message type
/// and the body, with or without an alert, the subscription webhook replies
/// 200.
pub proof fn lemma_subscription_webhook_always_acknowledges(
    message_type: Option<Seq<char>>,
    payload: JsonModel,
)
    ensures
        twitch_delivery(message_type, payload).reply.status == 200,
{
}

/// A granted exchange publishes one result: it names the code-exchange
/// platform, which is not the empty text, and carries the grant's access
/// token; the caller gets the grant with 200.
pub proof fn lemma_granted_exchange_publishes_once(grant: TokenResponseModel)
    ensures
        exchange_outcome(Ok(grant)).publish == Some(granted_callback(grant)),
        granted_callback(grant).service == "youtube"@,
        granted_callback(grant).token == grant.access_token,
        granted_callback(grant).error is None,
        granted_callback(grant).well_formed(),
        exchange_outcome(Ok(grant)).reply == grant_reply(grant),
{
    reveal_strlit("youtube");
}

/// A failed exchange publishes nothing, and its caller gets an error with
/// a status of the 4xx or 5xx range: 502 where the endpoint was not
/// reached, 400 where it refused, 500 where its answer was no grant.
pub proof fn lemma_failed_exchange_publishes_nothing(e: ExchangeErrorModel)
    ensures
        exchange_outcome(Err(e)).publish is None,
        exchange_outcome(Err(e)).reply.body is Error,
        exchange_outcome(Err(e)).reply.status == match e {
            ExchangeErrorModel::Transport { .. } => 502u16,
            ExchangeErrorModel::Upstream { .. } => 400u16,
            ExchangeErrorModel::Decode { .. } => 500u16,
        },
        400 <= exchange_outcome(Err(e)).reply.status < 600,
        400 <= refresh_reply(Err(e)).status < 600,
{
}

/// Of all that the token endpoint can answer, only a grant is published: a
/// request that failed, a reply outside 2xx and a reply that is no grant
/// publish nothing and give their caller 502, 400 and 500.
pub proof fn lemma_only_a_grant_is_published(reply: TokenReply)
    ensures
        exchange_outcome(exchange_result_of(reply)).publish is Some
            <==> reply is Granted,
        reply is Failed ==> exchange_outcome(exchange_result_of(reply)).reply.status
            == 502,
        reply is Rejected ==> exchange_outcome(
            exchange_result_of(reply),
        ).reply.status == 400,
        reply is Malformed ==> exchange_outcome(
            exchange_result_of(reply),
        ).reply.status == 500,
        reply is Granted ==> exchange_outcome(exchange_result_of(reply)).reply.status
            == 200,
{
}

/// A simple auth completion publishes a result exactly when the query has
/// a token, and then the result carries that token and no error.
pub proof fn lemma_auth_complete_needs_token(params: Seq<(String, String)>)
    ensures
        completed_callback(params) is Some <==> param_of(params, "token"@) is Some,
        completed_callback(params) is Some ==> completed_callback(params)->Some_0.token
            == param_of(params, "token"@)->Some_0 && completed_callback(params)->Some_0.error
            is None,
{
}

/// Every result that a simple auth completion publishes names a service
/// that is not empty, whatever the query holds: an empty `service` counts
/// as none and gives the implicit-flow platform.
pub proof fn lemma_completed_callback_well_formed(params: Seq<(String, String)>)
    ensures
        completed_service(params).len() > 0,
        param_of(params, "service"@) == Some(Seq::<char>::empty()) ==> completed_service(params)
            == IMPLICIT_FLOW_SERVICE@,
        completed_callback(params) is Some ==> completed_callback(params)->Some_0.well_formed(),
{
    reveal_strlit("twitch");
    assert(IMPLICIT_FLOW_SERVICE@.len() == 6);
}

/// The alert of a delivery depends on that delivery alone, and keeps the
/// name of the platform whose webhook took it: the subscription webhook
/// publishes only alerts of `twitch`, the push webhook only alerts of
/// `youtube`, so an alert of one never carries the other's fields.
pub proof fn lemma_deliveries_keep_their_platform(
    message_type: Option<Seq<char>>,
    payload: JsonModel,
    body: Seq<char>,
)
    ensures
        match twitch_delivery(message_type, payload).alert {
            Some(alert) => alert.platform == "twitch"@ && alert.well_formed(),
            None => true,
        },
        match youtube_alert(body) {
            Some(alert) => alert.platform == "youtube"@ && alert.well_formed() && alert
                == live_alert(),
            None => true,
        },
        "twitch"@ != "youtube"@,
{
    lemma_live_alert_well_formed();
    match decoded_notification(payload) {
        Some(notification) => {
            lemma_twitch_alert_well_formed(
                notification.subscription.kind,
                notification.event,
            );
        },
        None => {},
    }
}

} // verus!

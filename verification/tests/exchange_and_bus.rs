use stream_bridge::alerts::AlertPayload;
use stream_bridge::bus::{
    auth_event, forward_alert, forward_oauth, AuthEvent, ForwardStep, Received, ALERT_EVENT,
    OAUTH_EVENT, TOPIC_CAPACITY,
};
use stream_bridge::oauth::{
    exchange_form, exchange_result, get_youtube_client_id, get_youtube_client_secret, is_success,
    refresh_form, ConfigError, Credentials, ExchangeError, OAuthCallback, RefreshTokenRequest,
    TokenExchangeRequest, TokenReply, TokenResponse, CLIENT_ID_VARIABLE, CLIENT_SECRET_VARIABLE,
    CODE_EXCHANGE_SERVICE, DEFAULT_CLIENT_ID, EXCHANGE_TIMEOUT_SECS, IMPLICIT_FLOW_SERVICE,
    REDIRECT_URI, TOKEN_ENDPOINT,
};
use stream_bridge::router::{Route, LISTEN_PORT};

fn pair(name: &str, value: &str) -> (String, String) {
    (name.to_string(), value.to_string())
}

fn credentials() -> Credentials {
    Credentials { client_id: "my-client".to_string(), client_secret: "my-secret".to_string() }
}

#[test]
fn client_id_falls_back_to_the_default() {
    assert_eq!(get_youtube_client_id(None), DEFAULT_CLIENT_ID);
    assert_eq!(get_youtube_client_id(Some("mine".to_string())), "mine");
    assert_eq!(get_youtube_client_id(Some(String::new())), "");
    assert!(DEFAULT_CLIENT_ID.ends_with(".apps.googleusercontent.com"));
}

#[test]
fn client_secret_has_no_default() {
    assert_eq!(get_youtube_client_secret(None), Err(ConfigError::MissingClientSecret));
    assert_eq!(get_youtube_client_secret(Some("s3".to_string())), Ok("s3".to_string()));
    assert_eq!(get_youtube_client_secret(Some(String::new())), Ok(String::new()));
}

#[test]
fn credentials_need_the_secret_only() {
    assert_eq!(Credentials::resolve(None, None), Err(ConfigError::MissingClientSecret));
    assert_eq!(
        Credentials::resolve(Some("mine".to_string()), None),
        Err(ConfigError::MissingClientSecret)
    );
    assert_eq!(
        Credentials::resolve(None, Some("s3".to_string())),
        Ok(Credentials { client_id: DEFAULT_CLIENT_ID.to_string(), client_secret: "s3".to_string() })
    );
    assert_eq!(
        Credentials::resolve(Some("mine".to_string()), Some("s3".to_string())),
        Ok(Credentials { client_id: "mine".to_string(), client_secret: "s3".to_string() })
    );
}

#[test]
fn configuration_names_and_endpoints() {
    assert_eq!(CLIENT_ID_VARIABLE, "YOUTUBE_CLIENT_ID");
    assert_eq!(CLIENT_SECRET_VARIABLE, "YOUTUBE_CLIENT_SECRET");
    assert_eq!(TOKEN_ENDPOINT, "https://oauth2.googleapis.com/token");
    assert_eq!(REDIRECT_URI, "http://localhost:3000/callback");
    assert_eq!(IMPLICIT_FLOW_SERVICE, "twitch");
    assert_eq!(CODE_EXCHANGE_SERVICE, "youtube");
    assert_eq!(EXCHANGE_TIMEOUT_SECS, 10);
}

#[test]
fn redirect_uri_is_the_landing_page_of_the_server() {
    assert_eq!(
        REDIRECT_URI,
        format!("http://localhost:{}{}", LISTEN_PORT, Route::Callback.path())
    );
}

#[test]
fn exchange_form_has_five_fields_in_order() {
    let request = TokenExchangeRequest { code: "4/0AX4XfWh".to_string() };
    assert_eq!(
        exchange_form(&request, &credentials()),
        vec![
            pair("code", "4/0AX4XfWh"),
            pair("client_id", "my-client"),
            pair("client_secret", "my-secret"),
            pair("redirect_uri", "http://localhost:3000/callback"),
            pair("grant_type", "authorization_code"),
        ]
    );
}

#[test]
fn exchange_form_passes_the_code_unchanged() {
    for code in ["", " ", "a&b=c", "grant_type=refresh_token", "ünï ☕"] {
        let form = exchange_form(&TokenExchangeRequest { code: code.to_string() }, &credentials());
        assert_eq!(form.len(), 5);
        assert_eq!(form[0], pair("code", code));
        assert_eq!(form[4], pair("grant_type", "authorization_code"));
    }
}

#[test]
fn refresh_form_has_four_fields_in_order() {
    let request = RefreshTokenRequest { refresh_token: "1//0gLq".to_string() };
    assert_eq!(
        refresh_form(&request, &credentials()),
        vec![
            pair("refresh_token", "1//0gLq"),
            pair("client_id", "my-client"),
            pair("client_secret", "my-secret"),
            pair("grant_type", "refresh_token"),
        ]
    );
}

#[test]
fn success_is_the_2xx_range() {
    for status in [200, 201, 204, 226, 250, 299] {
        assert!(is_success(status), "{}", status);
    }
    for status in [0, 100, 199, 300, 301, 304, 400, 401, 404, 500, 502, 599, 600, 999, u16::MAX] {
        assert!(!is_success(status), "{}", status);
    }
}

fn grant() -> TokenResponse {
    TokenResponse {
        access_token: "ya29".to_string(),
        refresh_token: None,
        expires_in: 3599,
        token_type: "Bearer".to_string(),
    }
}

#[test]
fn granted_reply_is_the_grant() {
    assert_eq!(exchange_result(TokenReply::Granted { grant: grant() }), Ok(grant()));
}

#[test]
fn failed_request_is_a_transport_error() {
    assert_eq!(
        exchange_result(TokenReply::Failed { detail: "connection refused".to_string() }),
        Err(ExchangeError::Transport { detail: "connection refused".to_string() })
    );
}

#[test]
fn rejected_reply_keeps_status_and_body() {
    assert_eq!(
        exchange_result(TokenReply::Rejected {
            status: 400,
            body: Some("{\"error\":\"invalid_grant\"}".to_string())
        }),
        Err(ExchangeError::Upstream {
            status: 400,
            body: "{\"error\":\"invalid_grant\"}".to_string()
        })
    );
    assert_eq!(
        exchange_result(TokenReply::Rejected { status: 503, body: Some(String::new()) }),
        Err(ExchangeError::Upstream { status: 503, body: String::new() })
    );
}

#[test]
fn rejected_reply_with_unreadable_body_is_an_unknown_error() {
    assert_eq!(
        exchange_result(TokenReply::Rejected { status: 500, body: None }),
        Err(ExchangeError::Upstream { status: 500, body: "Unknown error".to_string() })
    );
}

#[test]
fn malformed_reply_is_a_decode_error() {
    assert_eq!(
        exchange_result(TokenReply::Malformed { detail: "expected value".to_string() }),
        Err(ExchangeError::Decode { detail: "expected value".to_string() })
    );
}

#[test]
fn grant_becomes_a_callback_of_the_code_exchange_platform() {
    let full = TokenResponse {
        access_token: "ya29".to_string(),
        refresh_token: Some("1//0g".to_string()),
        expires_in: 0,
        token_type: "Bearer".to_string(),
    };
    assert_eq!(
        full.to_callback(),
        OAuthCallback {
            token: "ya29".to_string(),
            service: "youtube".to_string(),
            error: None,
            refresh_token: Some("1//0g".to_string()),
            expires_in: Some(0),
        }
    );
}

fn callback(service: &str, error: Option<&str>) -> OAuthCallback {
    OAuthCallback {
        token: "tok".to_string(),
        service: service.to_string(),
        error: error.map(|e| e.to_string()),
        refresh_token: Some("ref".to_string()),
        expires_in: Some(60),
    }
}

#[test]
fn auth_event_is_tagged_with_the_service() {
    assert_eq!(
        auth_event(&callback("youtube", None)),
        AuthEvent {
            kind: "youtube-oauth-callback".to_string(),
            token: "tok".to_string(),
            service: "youtube".to_string(),
            error: None,
        }
    );
    assert_eq!(
        auth_event(&callback("twitch", Some("access_denied"))),
        AuthEvent {
            kind: "twitch-oauth-callback".to_string(),
            token: "tok".to_string(),
            service: "twitch".to_string(),
            error: Some("access_denied".to_string()),
        }
    );
}

#[test]
fn oauth_forwarder_delivers_messages() {
    assert_eq!(
        forward_oauth(Received::Message(callback("twitch", None))),
        ForwardStep::Deliver(AuthEvent {
            kind: "twitch-oauth-callback".to_string(),
            token: "tok".to_string(),
            service: "twitch".to_string(),
            error: None,
        })
    );
}

#[test]
fn oauth_forwarder_survives_lag_and_stops_on_close() {
    for missed in [0, 1, 32, u64::MAX] {
        assert_eq!(forward_oauth(Received::Lagged { missed }), ForwardStep::Resubscribe);
    }
    assert_eq!(forward_oauth(Received::Closed), ForwardStep::Stop);
}

fn alert() -> AlertPayload {
    AlertPayload {
        platform: "twitch".to_string(),
        alert_type: "gift".to_string(),
        user_name: "Bob".to_string(),
        message: "Bob gifted 5 subscriptions!".to_string(),
        amount: Some("5.00".to_string()),
        currency: Some("USD".to_string()),
        count: Some(5),
    }
}

#[test]
fn alert_forwarder_delivers_alerts_unchanged() {
    assert_eq!(forward_alert(Received::Message(alert())), ForwardStep::Deliver(alert()));
}

#[test]
fn alert_forwarder_survives_lag_and_stops_on_close() {
    for missed in [0, 1, 32, u64::MAX] {
        assert_eq!(forward_alert(Received::Lagged { missed }), ForwardStep::Resubscribe);
    }
    assert_eq!(forward_alert(Received::Closed), ForwardStep::Stop);
}

#[test]
fn forwarders_keep_the_order_of_what_they_receive() {
    let received = vec![
        Received::Message(callback("a", None)),
        Received::Lagged { missed: 3 },
        Received::Message(callback("b", None)),
        Received::Message(callback("c", None)),
        Received::Closed,
        Received::Message(callback("d", None)),
    ];
    let mut delivered: Vec<String> = Vec::new();
    let mut resubscribed = 0;
    for item in received {
        match forward_oauth(item) {
            ForwardStep::Deliver(event) => delivered.push(event.service),
            ForwardStep::Resubscribe => resubscribed += 1,
            ForwardStep::Stop => break,
        }
    }
    assert_eq!(delivered, vec!["a".to_string(), "b".to_string(), "c".to_string()]);
    assert_eq!(resubscribed, 1);
}

#[test]
fn topics_hold_thirty_two_messages() {
    assert_eq!(TOPIC_CAPACITY, 32);
    assert_eq!(OAUTH_EVENT, "auth-callback");
    assert_eq!(ALERT_EVENT, "integration-alert");
}

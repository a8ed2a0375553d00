//! The event bus as the router and the forwarders see it: two topics, what
//! a publish can come to, and what a forwarder does with each thing that it
//! receives from its topic.

use crate::alerts::AlertPayload;
use crate::oauth::OAuthCallback;
use crate::text::{clone_optional_text, optional_text};
use vstd::prelude::*;

verus! {

/// Number of pending messages that each topic keeps for a slow consumer.
pub const TOPIC_CAPACITY: usize = 32;

/// The name under which an OAuth result goes to the host application.
pub const OAUTH_EVENT: &'static str = "auth-callback";

/// The name under which an alert goes to the host application.
pub const ALERT_EVENT: &'static str = "integration-alert";

/// What a publish to a topic came to.
#[derive(Debug, Clone, Copy, PartialEq, Eq)]
pub enum PublishOutcome {
    /// At least one subscriber was attached and will see the message.
    Delivered,
    /// No subscriber was attached; the message is lost, which is no error.
    NoSubscriber,
    /// The topic itself failed.
    ChannelFailure,
}

/// What a forwarder gets when it asks its topic for the next message.
#[derive(Debug, Clone, PartialEq, Eq)]
pub enum Received<T> {
    /// The next message.
    Message(T),
    /// The forwarder fell behind and `missed` messages were dropped.
    Lagged { missed: u64 },
    /// Every publisher is gone: no message will come any more.
    Closed,
}

/// What a forwarder does next.
#[derive(Debug, Clone, PartialEq, Eq)]
pub enum ForwardStep<E> {
    /// Hand the event to the host application, then receive again.
    Deliver(E),
    /// Subscribe to the topic anew, then receive again.
    Resubscribe,
    /// End the loop.
    Stop,
}

/// An OAuth result in the shape in which the host application gets it.
#[derive(Debug, Clone, PartialEq, Eq)]
pub struct AuthEvent {
    /// The service's name followed by `-oauth-callback`.
    pub kind: String,
    pub token: String,
    pub service: String,
    pub error: Option<String>,
}

/// The mathematical value of an [`AuthEvent`].
pub struct AuthEventModel {
    pub kind: Seq<char>,
    pub token: Seq<char>,
    pub service: Seq<char>,
    pub error: Option<Seq<char>>,
}

impl View for AuthEvent {
    type V = AuthEventModel;

    open spec fn view(&self) -> AuthEventModel {
        AuthEventModel {
            kind: self.kind@,
            token: self.token@,
            service: self.service@,
            error: optional_text(self.error),
        }
    }
}

/// The event that tells the host application of an OAuth result.
pub open spec fn auth_event_of(
    token: Seq<char>,
    service: Seq<char>,
    error: Option<Seq<char>>,
) -> AuthEventModel {
    AuthEventModel { kind: service + "-oauth-callback"@, token, service, error }
}

/// Puts an OAuth result in the shape that the host application expects. The refresh token
/// and the lifetime stay behind: the host gets service, token and error.
pub fn auth_event(callback: &OAuthCallback) -> (event: AuthEvent)
    ensures
        event@ == auth_event_of(callback.token@, callback.service@, optional_text(callback.error)),
{
    let mut kind: String = callback.service.clone();
    kind.append("-oauth-callback");
    AuthEvent {
        kind,
        token: callback.token.clone(),
        service: callback.service.clone(),
        error: clone_optional_text(&callback.error),
    }
}

/// One turn of the forwarder of the OAuth topic. A message is reshaped
/// and delivered; falling behind makes the forwarder subscribe anew and go
/// on; only the closing of the topic ends it.
pub fn forward_oauth(received: Received<OAuthCallback>) -> (step: ForwardStep<AuthEvent>)
    ensures
        match received {
            Received::Message(callback) => step is Deliver && step->Deliver_0@ == auth_event_of(
                callback.token@,
                callback.service@,
                optional_text(callback.error),
            ),
            Received::Lagged { .. } => step is Resubscribe,
            Received::Closed => step is Stop,
        },
{
    match received {
        Received::Message(callback) => ForwardStep::Deliver(auth_event(&callback)),
        Received::Lagged { .. } => ForwardStep::Resubscribe,
        Received::Closed => ForwardStep::Stop,
    }
}

/// One turn of the forwarder of the alert topic. A message is delivered as
/// it is; falling behind makes the forwarder subscribe anew and go on; only
/// the closing of the topic ends it.
pub fn forward_alert(received: Received<AlertPayload>) -> (step: ForwardStep<AlertPayload>)
    ensures
        match received {
            Received::Message(alert) => step == ForwardStep::Deliver(alert),
            Received::Lagged { .. } => step is Resubscribe,
            Received::Closed => step is Stop,
        },
{
    match received {
        Received::Message(alert) => ForwardStep::Deliver(alert),
        Received::Lagged { .. } => ForwardStep::Resubscribe,
        Received::Closed => ForwardStep::Stop,
    }
}

} // verus!

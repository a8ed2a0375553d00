//! The alert normalizer: maps what a streaming platform sends to at most one
//! canonical alert. Nothing here has an effect; a notification that is not
//! understood gives no alert and no error.

use crate::json::{JsonModel, JsonValue};
use crate::text::{decimal_digits, decimal_text, occurs_in, optional_text, same_text, text_contains};
use vstd::prelude::*;

verus! {

/// One alert in the shape that every platform's notifications are brought to.
#[derive(Debug, Clone, PartialEq, Eq)]
pub struct AlertPayload {
    pub platform: String,
    pub alert_type: String,
    pub user_name: String,
    pub message: String,
    pub amount: Option<String>,
    pub currency: Option<String>,
    pub count: Option<u64>,
}

/// The mathematical value of an [`AlertPayload`].
pub struct AlertModel {
    pub platform: Seq<char>,
    pub alert_type: Seq<char>,
    pub user_name: Seq<char>,
    pub message: Seq<char>,
    pub amount: Option<Seq<char>>,
    pub currency: Option<Seq<char>>,
    pub count: Option<u64>,
}

impl View for AlertPayload {
    type V = AlertModel;

    open spec fn view(&self) -> AlertModel {
        AlertModel {
            platform: self.platform@,
            alert_type: self.alert_type@,
            user_name: self.user_name@,
            message: self.message@,
            amount: optional_text(self.amount),
            currency: optional_text(self.currency),
            count: self.count,
        }
    }
}

impl AlertModel {
    /// What every alert on the alert topic has: a platform, a type and a
    /// message, none of them empty.
    pub open spec fn well_formed(self) -> bool {
        self.platform.len() > 0 && self.alert_type.len() > 0 && self.message.len() > 0
    }
}

/// The value of an optional alert.
pub open spec fn alert_result(r: Option<AlertPayload>) -> Option<AlertModel> {
    match r {
        Some(a) => Some(a@),
        None => None,
    }
}

/// The subscription that a notification belongs to.
#[derive(Debug, Clone, PartialEq, Eq)]
pub struct TwitchSubscription {
    pub id: String,
    pub status: String,
    /// The subscription type, the member `type` of the wire format.
    pub kind: String,
    pub version: String,
    pub condition: JsonValue,
}

/// A notification of the subscription-event protocol: the subscription and
/// an event whose shape depends on the subscription's type.
#[derive(Debug, Clone, PartialEq, Eq)]
pub struct TwitchEventSubPayload {
    pub subscription: TwitchSubscription,
    pub event: JsonValue,
}

/// The mathematical value of a [`TwitchSubscription`].
pub struct SubscriptionModel {
    pub id: Seq<char>,
    pub status: Seq<char>,
    pub kind: Seq<char>,
    pub version: Seq<char>,
    pub condition: JsonModel,
}

/// The mathematical value of a [`TwitchEventSubPayload`].
pub struct EventSubModel {
    pub subscription: SubscriptionModel,
    pub event: JsonModel,
}

impl View for TwitchSubscription {
    type V = SubscriptionModel;

    open spec fn view(&self) -> SubscriptionModel {
        SubscriptionModel {
            id: self.id@,
            status: self.status@,
            kind: self.kind@,
            version: self.version@,
            condition: self.condition@,
        }
    }
}

impl View for TwitchEventSubPayload {
    type V = EventSubModel;

    open spec fn view(&self) -> EventSubModel {
        EventSubModel { subscription: self.subscription@, event: self.event@ }
    }
}

/// An alert of the subscription-event platform, which fills neither amount
/// nor currency.
pub open spec fn twitch_alert_of(
    alert_type: Seq<char>,
    user_name: Seq<char>,
    message: Seq<char>,
    count: Option<u64>,
) -> AlertModel {
    AlertModel {
        platform: "twitch"@,
        alert_type,
        user_name,
        message,
        amount: None,
        currency: None,
        count,
    }
}

/// The alert for a new subscriber.
pub open spec fn subscribe_alert(user: Seq<char>) -> AlertModel {
    twitch_alert_of("sub"@, user, user + " just subscribed!"@, None)
}

/// The alert for `total` gifted subscriptions.
pub open spec fn gift_alert(user: Seq<char>, total: u64) -> AlertModel {
    twitch_alert_of(
        "gift"@,
        user,
        user + " gifted "@ + decimal_digits(total as nat) + " subscriptions!"@,
        Some(total),
    )
}

/// The alert for a redeemed reward.
pub open spec fn redemption_alert(user: Seq<char>, title: Seq<char>) -> AlertModel {
    twitch_alert_of("redemption"@, user, user + " redeemed "@ + title + "!"@, None)
}

/// The title of the reward that an event names: the text member `title` of
/// its object member `reward`.
pub open spec fn reward_title(event: JsonModel) -> Option<Seq<char>> {
    match event.get("reward"@) {
        Some(reward) => reward.text_at("title"@),
        None => None,
    }
}

/// An event of the subscription protocol, by what the normalizer makes of
/// it: one of the three kinds that it knows, with the members that the kind
/// requires, or an event that it does not recognize.
#[derive(Debug, Clone, PartialEq, Eq)]
pub enum TwitchEvent {
    Subscribe { user_name: String },
    Gift { user_name: String, total: u64 },
    Redemption { user_name: String, reward_title: String },
    /// The type is not one of the three, or the event lacks a member that
    /// its type requires, or has it with another JSON type.
    Unrecognized,
}

/// The mathematical value of a [`TwitchEvent`].
pub enum TwitchEventModel {
    Subscribe { user_name: Seq<char> },
    Gift { user_name: Seq<char>, total: u64 },
    Redemption { user_name: Seq<char>, reward_title: Seq<char> },
    Unrecognized,
}

impl View for TwitchEvent {
    type V = TwitchEventModel;

    open spec fn view(&self) -> TwitchEventModel {
        match self {
            TwitchEvent::Subscribe { user_name } => TwitchEventModel::Subscribe {
                user_name: user_name@,
            },
            TwitchEvent::Gift { user_name, total } => TwitchEventModel::Gift {
                user_name: user_name@,
                total: *total,
            },
            TwitchEvent::Redemption { user_name, reward_title } => TwitchEventModel::Redemption {
                user_name: user_name@,
                reward_title: reward_title@,
            },
            TwitchEvent::Unrecognized => TwitchEventModel::Unrecognized,
        }
    }
}

/// What the normalizer makes of an event of the given subscription type:
/// `channel.subscribe` requires a text `user_name`;
/// `channel.subscription.gift` a text `user_name` and an unsigned `total`;
/// `channel.channel_points_custom_reward_redemption.add` a text `user_name`
/// and a text `reward.title`. Everything else is not recognized.
pub open spec fn recognized_event(kind: Seq<char>, event: JsonModel) -> TwitchEventModel {
    if kind == "channel.subscribe"@ {
        match event.text_at("user_name"@) {
            Some(user_name) => TwitchEventModel::Subscribe { user_name },
            None => TwitchEventModel::Unrecognized,
        }
    } else if kind == "channel.subscription.gift"@ {
        match (event.text_at("user_name"@), event.unsigned_at("total"@)) {
            (Some(user_name), Some(total)) => TwitchEventModel::Gift { user_name, total },
            _ => TwitchEventModel::Unrecognized,
        }
    } else if kind == "channel.channel_points_custom_reward_redemption.add"@ {
        match (event.text_at("user_name"@), reward_title(event)) {
            (Some(user_name), Some(reward_title)) => TwitchEventModel::Redemption {
                user_name,
                reward_title,
            },
            _ => TwitchEventModel::Unrecognized,
        }
    } else {
        TwitchEventModel::Unrecognized
    }
}

/// The alert for an event: one for each recognized event, none for the
/// others.
pub open spec fn event_alert(event: TwitchEventModel) -> Option<AlertModel> {
    match event {
        TwitchEventModel::Subscribe { user_name } => Some(subscribe_alert(user_name)),
        TwitchEventModel::Gift { user_name, total } => Some(gift_alert(user_name, total)),
        TwitchEventModel::Redemption { user_name, reward_title } => Some(
            redemption_alert(user_name, reward_title),
        ),
        TwitchEventModel::Unrecognized => None,
    }
}

/// The mapping from a subscription type and its event to an alert. A type
/// that is not one of the three listed gives none, and so does an event that
/// lacks a member that its type requires, or has it with another JSON type.
pub open spec fn twitch_alert(kind: Seq<char>, event: JsonModel) -> Option<AlertModel> {
    event_alert(recognized_event(kind, event))
}

fn new_twitch_alert(alert_type: &str, user: &str, message: String, count: Option<u64>) -> (a:
    AlertPayload)
    ensures
        a@ == twitch_alert_of(alert_type@, user@, message@, count),
{
    AlertPayload {
        platform: String::from_str("twitch"),
        alert_type: String::from_str(alert_type),
        user_name: String::from_str(user),
        message,
        amount: None,
        currency: None,
        count,
    }
}

impl TwitchEvent {
    /// Reads an event of the given subscription type.
    pub fn recognize(subscription_type: &str, event: &JsonValue) -> (r: TwitchEvent)
        ensures
            r@ == recognized_event(subscription_type@, event@),
    {
        if same_text(subscription_type, "channel.subscribe") {
            match event.text_at("user_name") {
                Some(user) => TwitchEvent::Subscribe { user_name: String::from_str(user) },
                None => TwitchEvent::Unrecognized,
            }
        } else if same_text(subscription_type, "channel.subscription.gift") {
            match (event.text_at("user_name"), event.unsigned_at("total")) {
                (Some(user), Some(total)) => TwitchEvent::Gift {
                    user_name: String::from_str(user),
                    total,
                },
                _ => TwitchEvent::Unrecognized,
            }
        } else if same_text(
            subscription_type,
            "channel.channel_points_custom_reward_redemption.add",
        ) {
            let title: Option<&str> = match event.get("reward") {
                Some(reward) => reward.text_at("title"),
                None => None,
            };
            match (event.text_at("user_name"), title) {
                (Some(user), Some(title)) => TwitchEvent::Redemption {
                    user_name: String::from_str(user),
                    reward_title: String::from_str(title),
                },
                _ => TwitchEvent::Unrecognized,
            }
        } else {
            TwitchEvent::Unrecognized
        }
    }

    /// The alert for this event.
    pub fn alert(&self) -> (r: Option<AlertPayload>)
        ensures
            alert_result(r) == event_alert(self@),
    {
        match self {
            TwitchEvent::Subscribe { user_name } => {
                let mut message: String = user_name.clone();
                message.append(" just subscribed!");
                Some(new_twitch_alert("sub", user_name.as_str(), message, None))
            },
            TwitchEvent::Gift { user_name, total } => {
                let mut message: String = user_name.clone();
                message.append(" gifted ");
                message.append(decimal_text(*total).as_str());
                message.append(" subscriptions!");
                Some(new_twitch_alert("gift", user_name.as_str(), message, Some(*total)))
            },
            TwitchEvent::Redemption { user_name, reward_title } => {
                let mut message: String = user_name.clone();
                message.append(" redeemed ");
                message.append(reward_title.as_str());
                message.append("!");
                Some(new_twitch_alert("redemption", user_name.as_str(), message, None))
            },
            TwitchEvent::Unrecognized => None,
        }
    }
}

/// Normalizes one event of the subscription protocol, given the type of the
/// subscription that it belongs to.
pub fn normalize_subscription_event(subscription_type: &str, event: &JsonValue) -> (r: Option<
    AlertPayload,
>)
    ensures
        alert_result(r) == twitch_alert(subscription_type@, event@),
{
    TwitchEvent::recognize(subscription_type, event).alert()
}

/// Normalizes one notification of the subscription protocol.
pub fn process_twitch_event(payload: TwitchEventSubPayload) -> (r: Option<AlertPayload>)
    ensures
        alert_result(r) == twitch_alert(payload.subscription.kind@, payload.event@),
{
    normalize_subscription_event(payload.subscription.kind.as_str(), &payload.event)
}

/// The marker whose presence in a push notification's body tells that it
/// announces a video.
pub open spec fn video_marker() -> Seq<char> {
    "<yt:videoId>"@
}

/// The one alert that a push notification can give. The notification is not
/// read for the channel's name, so the user name is a fixed word.
pub open spec fn live_alert() -> AlertModel {
    AlertModel {
        platform: "youtube"@,
        alert_type: "live"@,
        user_name: "Channel"@,
        message: "A new stream or video is live!"@,
        amount: None,
        currency: None,
        count: None,
    }
}

/// The alert for a push notification's body: the live alert where the body
/// holds the video marker, none otherwise.
pub open spec fn youtube_alert(body: Seq<char>) -> Option<AlertModel> {
    if occurs_in(video_marker(), body) {
        Some(live_alert())
    } else {
        None
    }
}

/// Normalizes the raw body of one push notification: the live alert where
/// the body holds the video marker, nothing otherwise.
pub fn normalize_push_notification(body: &str) -> (r: Option<AlertPayload>)
    ensures
        alert_result(r) == youtube_alert(body@),
        r is Some <==> occurs_in(video_marker(), body@),
{
    if text_contains(body, "<yt:videoId>") {
        Some(
            AlertPayload {
                platform: String::from_str("youtube"),
                alert_type: String::from_str("live"),
                user_name: String::from_str("Channel"),
                message: String::from_str("A new stream or video is live!"),
                amount: None,
                currency: None,
                count: None,
            },
        )
    } else {
        None
    }
}

/// Normalizes the raw body of one push notification.
pub fn process_youtube_alert(xml_content: &str) -> (r: Option<AlertPayload>)
    ensures
        alert_result(r) == youtube_alert(xml_content@),
        r is Some <==> occurs_in(video_marker(), xml_content@),
{
    normalize_push_notification(xml_content)
}

/// What a JSON document gives when it is read as a subscription. An object
/// is read by its members `id`, `status`, `type` and `version`, which must be
/// texts, and `condition`, which must be there; other members are passed
/// over. An array is read by position, in that order, and must hold exactly
/// those five values. Anything else is no subscription.
pub open spec fn decoded_subscription(v: JsonModel) -> Option<SubscriptionModel> {
    match v {
        JsonModel::Object(_) => match (
            v.text_at("id"@),
            v.text_at("status"@),
            v.text_at("type"@),
            v.text_at("version"@),
            v.get("condition"@),
        ) {
            (Some(id), Some(status), Some(kind), Some(version), Some(condition)) => Some(
                SubscriptionModel { id, status, kind, version, condition },
            ),
            _ => None,
        },
        JsonModel::Array(items) => if items.len() == 5 {
            match (
                items[0].as_text(),
                items[1].as_text(),
                items[2].as_text(),
                items[3].as_text(),
            ) {
                (Some(id), Some(status), Some(kind), Some(version)) => Some(
                    SubscriptionModel { id, status, kind, version, condition: items[4] },
                ),
                _ => None,
            }
        } else {
            None
        },
        _ => None,
    }
}

/// What a JSON document gives when it is read as a notification: an object
/// with the members `subscription`, itself read as a subscription, and
/// `event`, of any JSON type; or an array of exactly those two.
pub open spec fn decoded_notification(v: JsonModel) -> Option<EventSubModel> {
    match v {
        JsonModel::Object(_) => match (v.get("subscription"@), v.get("event"@)) {
            (Some(subscription), Some(event)) => match decoded_subscription(subscription) {
                Some(subscription) => Some(EventSubModel { subscription, event }),
                None => None,
            },
            _ => None,
        },
        JsonModel::Array(items) => if items.len() == 2 {
            match decoded_subscription(items[0]) {
                Some(subscription) => Some(EventSubModel { subscription, event: items[1] }),
                None => None,
            }
        } else {
            None
        },
        _ => None,
    }
}

impl TwitchSubscription {
    /// The value of an optional subscription.
    pub open spec fn result_model(r: Option<TwitchSubscription>) -> Option<SubscriptionModel> {
        match r {
            Some(s) => Some(s@),
            None => None,
        }
    }

    /// Reads a JSON document as a subscription.
    pub fn decode(v: &JsonValue) -> (r: Option<TwitchSubscription>)
        ensures
            Self::result_model(r) == decoded_subscription(v@),
    {
        match v {
            JsonValue::Object(_) => {
                match (
                    v.text_at("id"),
                    v.text_at("status"),
                    v.text_at("type"),
                    v.text_at("version"),
                    v.get("condition"),
                ) {
                    (Some(id), Some(status), Some(kind), Some(version), Some(condition)) => Some(
                        TwitchSubscription {
                            id: String::from_str(id),
                            status: String::from_str(status),
                            kind: String::from_str(kind),
                            version: String::from_str(version),
                            condition: condition.clone(),
                        },
                    ),
                    _ => None,
                }
            },
            JsonValue::Array(items) => {
                if items.len() == 5 {
                    match (
                        items[0].as_str(),
                        items[1].as_str(),
                        items[2].as_str(),
                        items[3].as_str(),
                    ) {
                        (Some(id), Some(status), Some(kind), Some(version)) => Some(
                            TwitchSubscription {
                                id: String::from_str(id),
                                status: String::from_str(status),
                                kind: String::from_str(kind),
                                version: String::from_str(version),
                                condition: items[4].clone(),
                            },
                        ),
                        _ => None,
                    }
                } else {
                    None
                }
            },
            _ => None,
        }
    }
}

impl TwitchEventSubPayload {
    /// The value of an optional notification.
    pub open spec fn result_model(r: Option<TwitchEventSubPayload>) -> Option<EventSubModel> {
        match r {
            Some(p) => Some(p@),
            None => None,
        }
    }

    /// Reads a JSON document as a notification.
    pub fn decode(v: &JsonValue) -> (r: Option<TwitchEventSubPayload>)
        ensures
            Self::result_model(r) == decoded_notification(v@),
    {
        match v {
            JsonValue::Object(_) => {
                match (v.get("subscription"), v.get("event")) {
                    (Some(subscription), Some(event)) => match TwitchSubscription::decode(
                        subscription,
                    ) {
                        Some(subscription) => Some(
                            TwitchEventSubPayload { subscription, event: event.clone() },
                        ),
                        None => None,
                    },
                    _ => None,
                }
            },
            JsonValue::Array(items) => {
                if items.len() == 2 {
                    match TwitchSubscription::decode(&items[0]) {
                        Some(subscription) => Some(
                            TwitchEventSubPayload { subscription, event: items[1].clone() },
                        ),
                        None => None,
                    }
                } else {
                    None
                }
            },
            _ => None,
        }
    }
}

/// The three subscription types that the normalizer knows are three
/// different texts.
pub proof fn lemma_supported_types_differ()
    ensures
        "channel.subscribe"@ != "channel.subscription.gift"@,
        "channel.subscribe"@ != "channel.channel_points_custom_reward_redemption.add"@,
        "channel.subscription.gift"@ != "channel.channel_points_custom_reward_redemption.add"@,
{
    reveal_strlit("channel.subscribe");
    reveal_strlit("channel.subscription.gift");
    reveal_strlit("channel.channel_points_custom_reward_redemption.add");
    assert("channel.subscribe"@.len() == 17);
    assert("channel.subscription.gift"@.len() == 25);
    assert("channel.channel_points_custom_reward_redemption.add"@.len() == 51);
}

/// A `channel.subscribe` event whose `user_name` is a text gives the alert
/// of type `sub` whose message is the name followed by ` just subscribed!`.
pub proof fn lemma_subscribe_gives_alert(event: JsonModel, user: Seq<char>)
    requires
        event.text_at("user_name"@) == Some(user),
    ensures
        twitch_alert("channel.subscribe"@, event) == Some(subscribe_alert(user)),
        subscribe_alert(user).alert_type == "sub"@,
        subscribe_alert(user).user_name == user,
        subscribe_alert(user).message == user + " just subscribed!"@,
{
}

/// A `channel.subscription.gift` event whose `user_name` is a text and
/// whose `total` is a non-negative integer gives the alert of type `gift`
/// whose message is `<user> gifted <total> subscriptions!` and whose count
/// is the total.
pub proof fn lemma_gift_gives_alert(event: JsonModel, user: Seq<char>, total: u64)
    requires
        event.text_at("user_name"@) == Some(user),
        event.unsigned_at("total"@) == Some(total),
    ensures
        twitch_alert("channel.subscription.gift"@, event) == Some(gift_alert(user, total)),
        gift_alert(user, total).alert_type == "gift"@,
        gift_alert(user, total).user_name == user,
        gift_alert(user, total).message == user + " gifted "@ + decimal_digits(total as nat)
            + " subscriptions!"@,
        gift_alert(user, total).count == Some(total),
{
    lemma_supported_types_differ();
}

/// A `channel.channel_points_custom_reward_redemption.add` event whose
/// `user_name` and `reward.title` are texts gives the alert of type
/// `redemption` whose message is `<user> redeemed <title>!`.
pub proof fn lemma_redemption_gives_alert(event: JsonModel, user: Seq<char>, title: Seq<char>)
    requires
        event.text_at("user_name"@) == Some(user),
        reward_title(event) == Some(title),
    ensures
        twitch_alert("channel.channel_points_custom_reward_redemption.add"@, event) == Some(
            redemption_alert(user, title),
        ),
        redemption_alert(user, title).alert_type == "redemption"@,
        redemption_alert(user, title).user_name == user,
        redemption_alert(user, title).message == user + " redeemed "@ + title + "!"@,
{
    lemma_supported_types_differ();
}

/// An event of a type that is not one of the three supported ones gives no
/// alert, whatever it holds.
pub proof fn lemma_unsupported_type_gives_none(kind: Seq<char>, event: JsonModel)
    requires
        kind != "channel.subscribe"@,
        kind != "channel.subscription.gift"@,
        kind != "channel.channel_points_custom_reward_redemption.add"@,
    ensures
        recognized_event(kind, event) is Unrecognized,
        twitch_alert(kind, event) is None,
{
}

/// An event that lacks a member that its type requires, or has it with
/// another JSON type, gives no alert: every type requires a text
/// `user_name`, a gift also an unsigned `total`, a redemption also a text
/// `reward.title`.
pub proof fn lemma_missing_field_gives_none(kind: Seq<char>, event: JsonModel)
    requires
        event.text_at("user_name"@) is None || (kind == "channel.subscription.gift"@
            && event.unsigned_at("total"@) is None) || (kind
            == "channel.channel_points_custom_reward_redemption.add"@ && reward_title(event)
            is None),
    ensures
        recognized_event(kind, event) is Unrecognized,
        twitch_alert(kind, event) is None,
{
    lemma_supported_types_differ();
}

/// An event gives an alert exactly when it is recognized: what is dropped
/// is what is not recognized, and nothing else.
pub proof fn lemma_alert_exactly_for_recognized(kind: Seq<char>, event: JsonModel)
    ensures
        twitch_alert(kind, event) is None <==> recognized_event(kind, event) is Unrecognized,
        event_alert(TwitchEventModel::Unrecognized) is None,
{
}

/// Every alert that the normalizer gives for the subscription protocol
/// names the platform `twitch` and has a platform, a type and a message
/// that are not empty.
pub proof fn lemma_twitch_alert_well_formed(kind: Seq<char>, event: JsonModel)
    ensures
        match twitch_alert(kind, event) {
            Some(alert) => alert.platform == "twitch"@ && alert.well_formed(),
            None => true,
        },
{
    reveal_strlit("twitch");
    reveal_strlit("sub");
    reveal_strlit("gift");
    reveal_strlit("redemption");
    reveal_strlit(" just subscribed!");
    reveal_strlit(" subscriptions!");
    reveal_strlit("!");
}

/// The alert that the normalizer gives for a push notification names the
/// platform `youtube`, which is not `twitch`, and has a platform, a type
/// and a message that are not empty.
pub proof fn lemma_live_alert_well_formed()
    ensures
        live_alert().platform == "youtube"@,
        live_alert().platform != "twitch"@,
        live_alert().well_formed(),
{
    reveal_strlit("youtube");
    reveal_strlit("twitch");
    reveal_strlit("live");
    reveal_strlit("A new stream or video is live!");
    assert("youtube"@.len() == 7);
    assert("twitch"@.len() == 6);
}

/// A body in which the video marker does not fit gives no alert; the empty
/// body is one.
pub proof fn lemma_short_body_gives_none(body: Seq<char>)
    requires
        body.len() < 12,
    ensures
        youtube_alert(body) is None,
{
    reveal_strlit("<yt:videoId>");
    assert(video_marker().len() == 12);
}

/// The marker alone, and any body that holds it between two other texts,
/// gives the live alert.
pub proof fn lemma_body_with_marker_gives_alert(before: Seq<char>, after: Seq<char>)
    ensures
        youtube_alert(before + video_marker() + after) == Some(live_alert()),
{
    let body = before + video_marker() + after;
    let start = before.len() as int;
    assert(body.subrange(start, start + video_marker().len()) =~= video_marker());
}

} // verus!

use stream_bridge::alerts::{
    normalize_push_notification, normalize_subscription_event, process_twitch_event,
    process_youtube_alert, AlertPayload, TwitchEvent, TwitchEventSubPayload, TwitchSubscription,
};
use stream_bridge::json::{JsonNumber, JsonValue};

fn text(s: &str) -> JsonValue {
    JsonValue::Text(s.to_string())
}

fn unsigned(n: u64) -> JsonValue {
    JsonValue::Number(JsonNumber::Unsigned(n))
}

fn object(members: Vec<(&str, JsonValue)>) -> JsonValue {
    JsonValue::Object(members.into_iter().map(|(k, v)| (k.to_string(), v)).collect())
}

fn notification(kind: &str, event: JsonValue) -> TwitchEventSubPayload {
    TwitchEventSubPayload {
        subscription: TwitchSubscription {
            id: "f1c2a387-161a-49f9-a165-0f21d7a4e1c4".to_string(),
            status: "enabled".to_string(),
            kind: kind.to_string(),
            version: "1".to_string(),
            condition: object(vec![("broadcaster_user_id", text("1337"))]),
        },
        event,
    }
}

fn twitch(alert_type: &str, user: &str, message: &str, count: Option<u64>) -> AlertPayload {
    AlertPayload {
        platform: "twitch".to_string(),
        alert_type: alert_type.to_string(),
        user_name: user.to_string(),
        message: message.to_string(),
        amount: None,
        currency: None,
        count,
    }
}

#[test]
fn subscribe_event_gives_sub_alert() {
    let got = process_twitch_event(notification(
        "channel.subscribe",
        object(vec![("user_name", text("Ada"))]),
    ));
    assert_eq!(got, Some(twitch("sub", "Ada", "Ada just subscribed!", None)));
}

#[test]
fn subscribe_event_ignores_other_members() {
    let got = process_twitch_event(notification(
        "channel.subscribe",
        object(vec![
            ("user_id", text("1234")),
            ("user_name", text("Grace")),
            ("tier", text("1000")),
            ("is_gift", JsonValue::Bool(false)),
        ]),
    ));
    assert_eq!(got, Some(twitch("sub", "Grace", "Grace just subscribed!", None)));
}

#[test]
fn gift_event_gives_gift_alert_with_count() {
    let got = process_twitch_event(notification(
        "channel.subscription.gift",
        object(vec![("user_name", text("Bob")), ("total", unsigned(5))]),
    ));
    assert_eq!(got, Some(twitch("gift", "Bob", "Bob gifted 5 subscriptions!", Some(5))));
}

#[test]
fn gift_event_with_zero_total() {
    let got = process_twitch_event(notification(
        "channel.subscription.gift",
        object(vec![("user_name", text("Bob")), ("total", unsigned(0))]),
    ));
    assert_eq!(got, Some(twitch("gift", "Bob", "Bob gifted 0 subscriptions!", Some(0))));
}

#[test]
fn gift_event_with_total_beyond_32_bits() {
    let got = process_twitch_event(notification(
        "channel.subscription.gift",
        object(vec![("user_name", text("Bob")), ("total", unsigned(5_000_000_000))]),
    ));
    assert_eq!(
        got,
        Some(twitch(
            "gift",
            "Bob",
            "Bob gifted 5000000000 subscriptions!",
            Some(5_000_000_000)
        ))
    );
}

#[test]
fn gift_event_with_largest_total() {
    let got = process_twitch_event(notification(
        "channel.subscription.gift",
        object(vec![("user_name", text("Bob")), ("total", unsigned(u64::MAX))]),
    ));
    assert_eq!(
        got,
        Some(twitch(
            "gift",
            "Bob",
            "Bob gifted 18446744073709551615 subscriptions!",
            Some(u64::MAX)
        ))
    );
}

#[test]
fn redemption_event_gives_redemption_alert() {
    let got = process_twitch_event(notification(
        "channel.channel_points_custom_reward_redemption.add",
        object(vec![
            ("user_name", text("Cleo")),
            ("reward", object(vec![("id", text("92af127c")), ("title", text("Hydrate"))])),
        ]),
    ));
    assert_eq!(got, Some(twitch("redemption", "Cleo", "Cleo redeemed Hydrate!", None)));
}

#[test]
fn empty_user_name_still_gives_an_alert() {
    let got = process_twitch_event(notification(
        "channel.subscribe",
        object(vec![("user_name", text(""))]),
    ));
    assert_eq!(got, Some(twitch("sub", "", " just subscribed!", None)));
}

#[test]
fn non_ascii_names_pass_through() {
    let got = process_twitch_event(notification(
        "channel.channel_points_custom_reward_redemption.add",
        object(vec![
            ("user_name", text("Zoë")),
            ("reward", object(vec![("title", text("Grüße ☕"))])),
        ]),
    ));
    assert_eq!(got, Some(twitch("redemption", "Zoë", "Zoë redeemed Grüße ☕!", None)));
}

#[test]
fn unsupported_types_give_no_alert() {
    let event = object(vec![
        ("user_name", text("Ada")),
        ("total", unsigned(5)),
        ("reward", object(vec![("title", text("Hydrate"))])),
    ]);
    for kind in [
        "",
        "channel.follow",
        "channel.cheer",
        "channel.subscribe ",
        "Channel.Subscribe",
        "channel.subscription.message",
        "channel.channel_points_custom_reward_redemption.update",
        "stream.online",
    ] {
        assert_eq!(process_twitch_event(notification(kind, event.clone())), None);
    }
}

#[test]
fn subscribe_without_user_name_gives_no_alert() {
    for event in [
        object(vec![]),
        object(vec![("user_login", text("ada"))]),
        object(vec![("user_name", unsigned(7))]),
        object(vec![("user_name", JsonValue::Null)]),
        object(vec![("user_name", JsonValue::Bool(true))]),
        object(vec![("user_name", JsonValue::Array(vec![text("Ada")]))]),
        JsonValue::Null,
        text("Ada"),
        JsonValue::Array(vec![text("Ada")]),
    ] {
        assert_eq!(process_twitch_event(notification("channel.subscribe", event)), None);
    }
}

#[test]
fn gift_without_usable_total_gives_no_alert() {
    for total in [
        None,
        Some(text("5")),
        Some(JsonValue::Number(JsonNumber::Negative(-1))),
        Some(JsonValue::Number(JsonNumber::Fractional)),
        Some(JsonValue::Null),
    ] {
        let mut members = vec![("user_name", text("Bob"))];
        if let Some(total) = total {
            members.push(("total", total));
        }
        assert_eq!(
            process_twitch_event(notification("channel.subscription.gift", object(members))),
            None
        );
    }
}

#[test]
fn gift_without_user_name_gives_no_alert() {
    let got = process_twitch_event(notification(
        "channel.subscription.gift",
        object(vec![("total", unsigned(5))]),
    ));
    assert_eq!(got, None);
}

#[test]
fn redemption_without_reward_title_gives_no_alert() {
    for reward in [
        None,
        Some(object(vec![])),
        Some(object(vec![("title", unsigned(3))])),
        Some(text("Hydrate")),
        Some(JsonValue::Array(vec![text("Hydrate")])),
        Some(JsonValue::Null),
    ] {
        let mut members = vec![("user_name", text("Cleo"))];
        if let Some(reward) = reward {
            members.push(("reward", reward));
        }
        assert_eq!(
            process_twitch_event(notification(
                "channel.channel_points_custom_reward_redemption.add",
                object(members)
            )),
            None
        );
    }
}

#[test]
fn redemption_with_title_outside_reward_gives_no_alert() {
    let got = process_twitch_event(notification(
        "channel.channel_points_custom_reward_redemption.add",
        object(vec![("user_name", text("Cleo")), ("title", text("Hydrate"))]),
    ));
    assert_eq!(got, None);
}

#[test]
fn repeated_member_counts_by_its_last_value() {
    let got = process_twitch_event(notification(
        "channel.subscribe",
        object(vec![("user_name", text("First")), ("user_name", text("Last"))]),
    ));
    assert_eq!(got, Some(twitch("sub", "Last", "Last just subscribed!", None)));
    let got = process_twitch_event(notification(
        "channel.subscribe",
        object(vec![("user_name", text("First")), ("user_name", unsigned(1))]),
    ));
    assert_eq!(got, None);
}

#[test]
fn twitch_alerts_are_well_formed() {
    let events = [
        ("channel.subscribe", object(vec![("user_name", text(""))])),
        (
            "channel.subscription.gift",
            object(vec![("user_name", text("")), ("total", unsigned(0))]),
        ),
        (
            "channel.channel_points_custom_reward_redemption.add",
            object(vec![("user_name", text("")), ("reward", object(vec![("title", text(""))]))]),
        ),
    ];
    for (kind, event) in events {
        let alert = process_twitch_event(notification(kind, event)).unwrap();
        assert_eq!(alert.platform, "twitch");
        assert!(!alert.alert_type.is_empty());
        assert!(!alert.message.is_empty());
        assert_eq!(alert.amount, None);
        assert_eq!(alert.currency, None);
    }
}

fn live() -> AlertPayload {
    AlertPayload {
        platform: "youtube".to_string(),
        alert_type: "live".to_string(),
        user_name: "Channel".to_string(),
        message: "A new stream or video is live!".to_string(),
        amount: None,
        currency: None,
        count: None,
    }
}

#[test]
fn push_notification_with_marker_gives_live_alert() {
    let body = "<feed xmlns:yt=\"http://www.youtube.com/xml/schemas/2015\">\
                <entry><yt:videoId>dQw4w9WgXcQ</yt:videoId>\
                <yt:channelId>UC123</yt:channelId></entry></feed>";
    assert_eq!(process_youtube_alert(body), Some(live()));
}

#[test]
fn push_notification_that_is_only_the_marker() {
    assert_eq!(process_youtube_alert("<yt:videoId>"), Some(live()));
}

#[test]
fn push_notification_with_marker_at_either_end() {
    assert_eq!(process_youtube_alert("<yt:videoId>tail"), Some(live()));
    assert_eq!(process_youtube_alert("head<yt:videoId>"), Some(live()));
    assert_eq!(process_youtube_alert("é☕<yt:videoId>☕é"), Some(live()));
}

#[test]
fn push_notification_without_marker_gives_no_alert() {
    for body in [
        "<feed><entry><title>hello</title></entry></feed>",
        "<yt:videoId",
        "yt:videoId>",
        "<yt:videoid>",
        "<YT:VIDEOID>",
        "<yt:video Id>",
        "< yt:videoId>",
        "</yt:videoId>x",
        "<yt:channelId>UC123</yt:channelId>",
        " ",
    ] {
        assert_eq!(process_youtube_alert(body), None, "{}", body);
    }
}

#[test]
fn push_notification_closing_tag_alone_gives_no_alert() {
    assert_eq!(process_youtube_alert("</yt:videoId>"), None);
}

#[test]
fn empty_push_notification_gives_no_alert() {
    assert_eq!(process_youtube_alert(""), None);
}

#[test]
fn events_are_recognized_by_type_and_members() {
    let event = object(vec![
        ("user_name", text("Ada")),
        ("total", unsigned(3)),
        ("reward", object(vec![("title", text("Hydrate"))])),
    ]);
    assert_eq!(
        TwitchEvent::recognize("channel.subscribe", &event),
        TwitchEvent::Subscribe { user_name: "Ada".to_string() }
    );
    assert_eq!(
        TwitchEvent::recognize("channel.subscription.gift", &event),
        TwitchEvent::Gift { user_name: "Ada".to_string(), total: 3 }
    );
    assert_eq!(
        TwitchEvent::recognize("channel.channel_points_custom_reward_redemption.add", &event),
        TwitchEvent::Redemption {
            user_name: "Ada".to_string(),
            reward_title: "Hydrate".to_string()
        }
    );
    assert_eq!(TwitchEvent::recognize("channel.follow", &event), TwitchEvent::Unrecognized);
    assert_eq!(TwitchEvent::recognize("", &event), TwitchEvent::Unrecognized);
    assert_eq!(
        TwitchEvent::recognize("channel.subscribe", &object(vec![])),
        TwitchEvent::Unrecognized
    );
    assert_eq!(
        TwitchEvent::recognize(
            "channel.subscription.gift",
            &object(vec![("user_name", text("Ada"))])
        ),
        TwitchEvent::Unrecognized
    );
    assert_eq!(
        TwitchEvent::recognize(
            "channel.channel_points_custom_reward_redemption.add",
            &object(vec![("user_name", text("Ada")), ("reward", text("Hydrate"))])
        ),
        TwitchEvent::Unrecognized
    );
}

#[test]
fn recognized_events_have_their_alerts() {
    assert_eq!(
        TwitchEvent::Subscribe { user_name: "Ada".to_string() }.alert(),
        Some(twitch("sub", "Ada", "Ada just subscribed!", None))
    );
    assert_eq!(
        TwitchEvent::Gift { user_name: "Bob".to_string(), total: 12 }.alert(),
        Some(twitch("gift", "Bob", "Bob gifted 12 subscriptions!", Some(12)))
    );
    assert_eq!(
        TwitchEvent::Redemption {
            user_name: "Cleo".to_string(),
            reward_title: "Hydrate".to_string()
        }
        .alert(),
        Some(twitch("redemption", "Cleo", "Cleo redeemed Hydrate!", None))
    );
    assert_eq!(TwitchEvent::Unrecognized.alert(), None);
}

#[test]
fn normalize_subscription_event_takes_type_and_event() {
    assert_eq!(
        normalize_subscription_event(
            "channel.subscribe",
            &object(vec![("user_name", text("Ada"))])
        ),
        Some(twitch("sub", "Ada", "Ada just subscribed!", None))
    );
    assert_eq!(
        normalize_subscription_event("channel.raid", &object(vec![("user_name", text("Ada"))])),
        None
    );
    assert_eq!(normalize_subscription_event("channel.subscribe", &JsonValue::Null), None);
}

#[test]
fn normalize_push_notification_sniffs_the_marker() {
    assert_eq!(normalize_push_notification("<yt:videoId>x</yt:videoId>"), Some(live()));
    assert_eq!(normalize_push_notification("<yt:channelId>x</yt:channelId>"), None);
    assert_eq!(normalize_push_notification(""), None);
}

use streamer_notifier::websocket::{Frame, Outcome, ProcessError, ServerEvent, WebsocketClient};

const WELCOME: &str = r#"{
  "metadata": {
    "message_id": "96a3f3b5-5dec-4eed-908e-e11ee657416c",
    "message_type": "session_welcome",
    "message_timestamp": "2022-10-19T14:56:51.634234626Z"
  },
  "payload": {
    "session": {
      "id": "AQoQILE98gtqShGmLD7AM6yJThAB",
      "status": "connected",
      "connected_at": "2022-10-19T14:56:51.616329898Z",
      "keepalive_timeout_seconds": 10,
      "reconnect_url": null,
      "recovery_url": null
    }
  }
}"#;

const RECONNECT: &str = r#"{
  "metadata": {
    "message_id": "84c1e79a-2a4b-4c13-ba0b-4312293e9308",
    "message_type": "session_reconnect",
    "message_timestamp": "2019-11-18T09:10:11.234Z"
  },
  "payload": {
    "session": {
      "id": "AQoQexAWVYKSTIu4ec_2VAxyuhAB",
      "status": "reconnecting",
      "keepalive_timeout_seconds": null,
      "reconnect_url": "wss://eventsub.wss.twitch.tv/ws?id=42",
      "connected_at": "2019-11-16T10:11:12.123Z"
    }
  }
}"#;

const KEEPALIVE: &str = r#"{
  "metadata": {
    "message_id": "8d8e0935-0e0c-479a-8fa2-ad4c02cef742",
    "message_type": "session_keepalive",
    "message_timestamp": "2022-11-04T13:11:49.770459792Z"
  },
  "payload": {}
}"#;

const FOLLOW: &str = r#"{
  "metadata": {
    "message_id": "befa7b53-d79d-478f-86b9-120f112b044e",
    "message_type": "notification",
    "message_timestamp": "2019-11-16T10:11:12.123Z",
    "subscription_type": "channel.follow",
    "subscription_version": "2"
  },
  "payload": {
    "subscription": {
      "id": "f1c2a387-161a-49f9-a165-0f21d7a4e1c4",
      "status": "enabled",
      "type": "channel.follow",
      "version": "2",
      "cost": 0,
      "condition": { "broadcaster_user_id": "12826", "moderator_user_id": "12826" },
      "transport": { "method": "websocket", "session_id": "AQoQexAWVYKSTIu4ec_2VAxyuhAB" },
      "created_at": "2019-11-16T10:11:12.123Z"
    },
    "event": {
      "user_id": "1337",
      "user_login": "awesome_user",
      "user_name": "Awesome_User",
      "broadcaster_user_id": "12826",
      "broadcaster_user_login": "twitch",
      "broadcaster_user_name": "Twitch",
      "followed_at": "2020-07-15T18:16:11.17106713Z"
    }
  }
}"#;

const ONLINE: &str = r#"{
  "metadata": {
    "message_id": "befa7b53-d79d-478f-86b9-120f112b044e",
    "message_type": "notification",
    "message_timestamp": "2019-11-16T10:11:12.123Z",
    "subscription_type": "stream.online",
    "subscription_version": "1"
  },
  "payload": {
    "subscription": {
      "id": "f1c2a387-161a-49f9-a165-0f21d7a4e1c4",
      "type": "stream.online",
      "version": "1",
      "status": "enabled",
      "cost": 0,
      "condition": { "broadcaster_user_id": "1337" },
      "transport": { "method": "websocket", "session_id": "AQoQexAWVYKSTIu4ec_2VAxyuhAB" },
      "created_at": "2019-11-16T10:11:12.123Z"
    },
    "event": {
      "id": "9001",
      "broadcaster_user_id": "1337",
      "broadcaster_user_login": "cool_user",
      "broadcaster_user_name": "Cool_User",
      "type": "live",
      "started_at": "2020-10-11T10:11:12.123Z"
    }
  }
}"#;

fn client() -> WebsocketClient {
    WebsocketClient::new("wss://eventsub.wss.twitch.tv/ws".to_string(), None)
}

fn outcome_name(result: &Result<Outcome, ProcessError>) -> String {
    match result {
        Ok(Outcome::StartListener) => "start".to_string(),
        Ok(Outcome::Live(name)) => format!("live {}", name),
        Ok(Outcome::Revoked) => "revoked".to_string(),
        Ok(Outcome::AbortListener) => "abort".to_string(),
        Ok(Outcome::Ignored) => "ignored".to_string(),
        Err(e) => format!("error {:?}", e),
    }
}

#[test]
fn welcome_starts_listener_and_records_session() {
    let mut c = client();
    c.start("shroud".to_string());
    let result = c.process_message(Frame::Text(WELCOME.to_string()));
    assert_eq!(outcome_name(&result), "start");
    assert_eq!(c.session_id().as_deref(), Some("AQoQILE98gtqShGmLD7AM6yJThAB"));
    assert_eq!(c.connect_url(), "wss://eventsub.wss.twitch.tv/ws");
    assert_eq!(c.init_streamers(), &vec!["shroud".to_string()]);
}

#[test]
fn reconnect_message_moves_the_url() {
    let mut c = client();
    let result = c.process_message(Frame::Text(RECONNECT.to_string()));
    assert_eq!(outcome_name(&result), "start");
    assert_eq!(c.session_id().as_deref(), Some("AQoQexAWVYKSTIu4ec_2VAxyuhAB"));
    assert_eq!(c.connect_url(), "wss://eventsub.wss.twitch.tv/ws?id=42");
}

#[test]
fn invalid_reconnect_url_is_an_error() {
    let mut c = client();
    let result = c.handle_event(ServerEvent::Welcome(
        "s1".to_string(),
        Some("not a url".to_string()),
    ));
    assert_eq!(outcome_name(&result), "error InvalidReconnectUrl");
    assert_eq!(c.session_id().as_deref(), Some("s1"));
    assert_eq!(c.connect_url(), "wss://eventsub.wss.twitch.tv/ws");
}

#[test]
fn welcome_without_url_keeps_the_url() {
    let mut c = client();
    assert_eq!(c.process_welcome_message("s2".to_string(), None), Ok(()));
    assert_eq!(c.session_id().as_deref(), Some("s2"));
    assert_eq!(c.connect_url(), "wss://eventsub.wss.twitch.tv/ws");
}

#[test]
fn welcome_url_is_normalised() {
    let mut c = client();
    assert_eq!(
        c.process_welcome_message("s3".to_string(), Some("WSS://Example.COM".to_string())),
        Ok(())
    );
    assert_eq!(c.connect_url(), "wss://example.com/");
}

#[test]
fn stream_online_is_announced() {
    let mut c = client();
    let result = c.process_message(Frame::Text(ONLINE.to_string()));
    assert_eq!(outcome_name(&result), "live Cool_User");
    assert_eq!(c.session_id(), &None);
}

#[test]
fn keepalive_is_ignored() {
    let mut c = client();
    assert_eq!(outcome_name(&c.process_message(Frame::Text(KEEPALIVE.to_string()))), "ignored");
}

#[test]
fn garbage_is_a_parse_error() {
    let mut c = client();
    let result = c.process_message(Frame::Text("{ not json".to_string()));
    assert_eq!(outcome_name(&result), "error Parse");
}

#[test]
fn other_frames() {
    let mut c = client();
    assert_eq!(outcome_name(&c.process_message(Frame::Reset)), "abort");
    assert_eq!(outcome_name(&c.process_message(Frame::Other)), "ignored");
    assert_eq!(outcome_name(&c.handle_event(ServerEvent::Revocation)), "revoked");
    assert_eq!(outcome_name(&c.handle_event(ServerEvent::Keepalive)), "ignored");
    assert_eq!(outcome_name(&c.handle_event(ServerEvent::Unknown)), "ignored");
}

#[test]
fn only_stream_online_notifications_are_announced() {
    let mut c = client();
    let online = |kind: &str, is_notification: bool, name: Option<&str>| {
        ServerEvent::Notification(kind.to_string(), is_notification, name.map(str::to_string))
    };
    assert_eq!(outcome_name(&c.handle_event(online("stream.online", true, Some("x")))), "live x");
    assert_eq!(outcome_name(&c.handle_event(online("stream.online", false, Some("x")))), "ignored");
    assert_eq!(outcome_name(&c.handle_event(online("stream.online", true, None))), "ignored");
    assert_eq!(outcome_name(&c.handle_event(online("channel.follow", true, Some("x")))), "ignored");
}

#[test]
fn reconnect_is_handled_like_welcome() {
    let mut c = client();
    let result = c.handle_event(ServerEvent::Reconnect(
        "r1".to_string(),
        Some("wss://example.com/next".to_string()),
    ));
    assert_eq!(outcome_name(&result), "start");
    assert_eq!(c.session_id().as_deref(), Some("r1"));
    assert_eq!(c.connect_url(), "wss://example.com/next");
}

#[test]
fn other_notifications_are_ignored() {
    let mut c = client();
    assert_eq!(outcome_name(&c.process_message(Frame::Text(FOLLOW.to_string()))), "ignored");
}

#[test]
fn listener_end_decides_reconnect() {
    let mut c = client();
    c.start("a".to_string());
    assert!(!c.listener_finished(None));
    assert!(!c.listener_finished(Some(vec![])));
    assert_eq!(c.init_streamers(), &vec!["a".to_string()]);
    assert!(c.listener_finished(Some(vec!["b".to_string(), "c".to_string()])));
    assert_eq!(c.init_streamers(), &vec!["b".to_string(), "c".to_string()]);
}

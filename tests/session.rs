use widget_api::client::{
    check_reply, Action, ClientApi, Event, OpenIdToken, ProxyError, SessionState,
    ToWidgetAction, ALREADY_LOADED, NOT_ALLOWED, NOT_NEGOTIATED, NO_READ_PERMISSION,
    UNEXPECTED_RESPONSE,
};
use widget_api::filter::{EventFilter, StateEventFilter};
use widget_api::messages::{Empty, ErrorBody, Response, ResponseBody};
use widget_api::permissions::Permissions;
use widget_api::wire::{Message, MessageBody, ToWidgetResponse};

fn parse(text: &str) -> serde_json::Value {
    serde_json::from_str(text).expect("the library sent JSON")
}

fn sent_text(a: &Action) -> &str {
    match a {
        Action::SendToWidget(t) => t.as_str(),
        _ => panic!("expected a message to the widget"),
    }
}

fn sent_request(a: &Action) -> (String, serde_json::Value) {
    match a {
        Action::SendRequestToWidget { request_id, message } => (request_id.clone(), parse(message)),
        _ => panic!("expected a request to the widget"),
    }
}

fn from_widget(id: &str, action: &str, data: &str) -> Event {
    Event::MessageFromWidget(format!(
        "{{\"api\":\"fromWidget\",\"requestId\":\"{id}\",\"widgetId\":\"w1\",\"action\":\"{action}\",\"data\":{data}}}"
    ))
}

fn widget_reply(id: &str, action: &str, data: &str, response: &str) -> Event {
    Event::MessageFromWidget(format!(
        "{{\"api\":\"toWidget\",\"requestId\":\"{id}\",\"widgetId\":\"w1\",\"action\":\"{action}\",\"data\":{data},\"response\":{response}}}"
    ))
}

fn topic_read_only() -> Permissions {
    Permissions {
        read: vec![EventFilter::State(StateEventFilter::WithType("m.room.topic".to_owned()))],
        send: vec![],
        requires_client: false,
    }
}

/// Runs the negotiation of a lazily initialized session up to the approval of `approved`.
fn negotiated(approved: Permissions) -> ClientApi {
    let (mut api, actions) = ClientApi::new("w1".to_owned(), "!room:example.org".to_owned(), true);
    assert!(actions.is_empty());
    let actions = api.process(from_widget("load-1", "content_loaded", "{}"));
    assert_eq!(actions.len(), 2);
    let (cap_id, cap) = sent_request(&actions[1]);
    assert_eq!(cap["action"], "capabilities");
    let caps = "{\"capabilities\":[\"org.matrix.msc2762.receive.state_event:m.room.topic\"]}";
    let actions = api.process(widget_reply(&cap_id, "capabilities", "{}", caps));
    assert_eq!(actions.len(), 1);
    let cmd = match actions.into_iter().next().unwrap() {
        Action::AcquirePermissions(cmd) => cmd,
        _ => panic!("expected the policy to be asked"),
    };
    assert_eq!(cmd.data().read.len(), 1);
    api.process(Event::PermissionsAcquired(cmd.ok(approved)));
    api
}

fn versions_json() -> serde_json::Value {
    parse("[\"0.0.1\",\"0.0.2\",\"org.matrix.msc2762\",\"org.matrix.msc2871\",\"org.matrix.msc3819\"]")
}

#[test]
fn malformed_input_yields_one_out_of_band_error() {
    let (mut api, _) = ClientApi::new("w1".to_owned(), "!r:x".to_owned(), true);
    let actions = api.process(Event::MessageFromWidget("this is not JSON".to_owned()));
    assert_eq!(actions.len(), 1);
    let v = parse(sent_text(&actions[0]));
    assert_eq!(v["widgetId"], "w1");
    assert!(v.get("requestId").is_none());
    assert!(v["response"]["error"]["message"].is_string());
    assert!(matches!(api.state, SessionState::Uninitialized));

    let actions = api.process(from_widget("v-1", "supported_api_versions", "{}"));
    assert_eq!(actions.len(), 1);
    let v = parse(sent_text(&actions[0]));
    assert_eq!(v["requestId"], "v-1");
    assert_eq!(v["widgetId"], "w1");
    assert_eq!(v["api"], "fromWidget");
    assert_eq!(v["action"], "supported_api_versions");
    assert_eq!(v["response"]["supported_versions"], versions_json());
}

#[test]
fn json_that_is_no_message_is_reported_out_of_band() {
    let (mut api, _) = ClientApi::new("w1".to_owned(), "!r:x".to_owned(), true);
    let actions = api.process(Event::MessageFromWidget("{\"api\":\"fromWidget\"}".to_owned()));
    assert_eq!(actions.len(), 1);
    let v = parse(sent_text(&actions[0]));
    assert!(v.get("requestId").is_none());
    assert_eq!(
        v["response"]["error"]["message"],
        "The JSON value is no message of the widget protocol"
    );
}

#[test]
fn content_loaded_twice_negotiates_once() {
    let mut api = negotiated(topic_read_only());
    assert!(matches!(api.state, SessionState::Initialized(_)));
    let actions = api.process(from_widget("load-2", "content_loaded", "{}"));
    assert_eq!(actions.len(), 1);
    let v = parse(sent_text(&actions[0]));
    assert_eq!(v["requestId"], "load-2");
    assert_eq!(v["response"]["error"]["message"], ALREADY_LOADED);
    assert_eq!(ALREADY_LOADED, "Already loaded");
    assert!(matches!(api.state, SessionState::Initialized(_)));
}

#[test]
fn first_content_loaded_succeeds_and_starts_negotiation() {
    let (mut api, _) = ClientApi::new("w1".to_owned(), "!r:x".to_owned(), true);
    let actions = api.process(from_widget("load-1", "content_loaded", "{}"));
    assert_eq!(actions.len(), 2);
    let v = parse(sent_text(&actions[0]));
    assert_eq!(v["response"], parse("{}"));
    let (id, req) = sent_request(&actions[1]);
    assert_eq!(req["api"], "toWidget");
    assert_eq!(req["requestId"], id.as_str());
    assert_eq!(req["data"], parse("{}"));
    assert!(matches!(api.state, SessionState::Negotiating));
    assert!(api.requests.contains(&id));
}

#[test]
fn content_loaded_during_negotiation_is_refused() {
    let (mut api, _) = ClientApi::new("w1".to_owned(), "!r:x".to_owned(), true);
    api.process(from_widget("load-1", "content_loaded", "{}"));
    let actions = api.process(from_widget("load-2", "content_loaded", "{}"));
    assert_eq!(actions.len(), 1);
    let v = parse(sent_text(&actions[0]));
    assert_eq!(v["response"]["error"]["message"], "Already loaded");
}

#[test]
fn eager_widget_negotiates_at_start() {
    let (api, actions) = ClientApi::new("w1".to_owned(), "!r:x".to_owned(), false);
    assert_eq!(actions.len(), 1);
    let (_, req) = sent_request(&actions[0]);
    assert_eq!(req["action"], "capabilities");
    assert!(matches!(api.state, SessionState::Negotiating));
}

#[test]
fn eager_widget_content_loaded_is_acknowledged() {
    let (mut api, _) = ClientApi::new("w1".to_owned(), "!r:x".to_owned(), false);
    let actions = api.process(from_widget("load-1", "content_loaded", "{}"));
    assert_eq!(actions.len(), 1);
    let v = parse(sent_text(&actions[0]));
    assert_eq!(v["response"], parse("{}"));
    assert!(matches!(api.state, SessionState::Negotiating));
}

#[test]
fn negotiation_tells_widget_requested_and_approved() {
    let (mut api, _) = ClientApi::new("w1".to_owned(), "!r:x".to_owned(), true);
    let actions = api.process(from_widget("load-1", "content_loaded", "{}"));
    let (cap_id, _) = sent_request(&actions[1]);
    let caps = "{\"capabilities\":[\"org.matrix.msc2762.receive.state_event:m.room.topic\",\"org.matrix.msc2762.send.event:m.room.message\"]}";
    let actions = api.process(widget_reply(&cap_id, "capabilities", "{}", caps));
    let cmd = match actions.into_iter().next().unwrap() {
        Action::AcquirePermissions(cmd) => cmd,
        _ => panic!("expected the policy to be asked"),
    };
    assert_eq!(cmd.data().send.len(), 1);
    let actions = api.process(Event::PermissionsAcquired(cmd.ok(topic_read_only())));
    assert_eq!(actions.len(), 2);
    let (_, update) = sent_request(&actions[0]);
    assert_eq!(update["action"], "notify_capabilities");
    assert_eq!(
        update["data"]["requested"],
        parse("[\"org.matrix.msc2762.receive.state_event:m.room.topic\",\"org.matrix.msc2762.send.event:m.room.message\"]")
    );
    assert_eq!(
        update["data"]["approved"],
        parse("[\"org.matrix.msc2762.receive.state_event:m.room.topic\"]")
    );
    assert!(matches!(&actions[1], Action::Subscribe(f) if f.len() == 1));
    match &api.state {
        SessionState::Initialized(p) => {
            assert_eq!(p.read.len(), 1);
            assert!(p.send.is_empty());
        }
        _ => panic!("expected an initialized session"),
    }
}

#[test]
fn negotiation_without_read_does_not_subscribe() {
    let approved = Permissions { read: vec![], send: vec![], requires_client: true };
    let (mut api, _) = ClientApi::new("w1".to_owned(), "!r:x".to_owned(), true);
    let actions = api.process(from_widget("load-1", "content_loaded", "{}"));
    let (cap_id, _) = sent_request(&actions[1]);
    let actions = api.process(widget_reply(&cap_id, "capabilities", "{}", "{\"capabilities\":[]}"));
    let cmd = match actions.into_iter().next().unwrap() {
        Action::AcquirePermissions(cmd) => cmd,
        _ => panic!("expected the policy to be asked"),
    };
    let actions = api.process(Event::PermissionsAcquired(cmd.ok(approved)));
    assert_eq!(actions.len(), 1);
    let (_, update) = sent_request(&actions[0]);
    assert_eq!(update["data"]["approved"], parse("[\"io.element.requires_client\"]"));
}

#[test]
fn read_of_topic_returns_matching_state_events_only() {
    let mut api = negotiated(topic_read_only());
    let actions = api.process(from_widget("read-1", "read_events", "{\"type\":\"m.room.topic\"}"));
    assert_eq!(actions.len(), 1);
    let cmd = match actions.into_iter().next().unwrap() {
        Action::ReadMatrixEvent(cmd) => cmd,
        _ => panic!("expected a read"),
    };
    assert_eq!(cmd.data().event_type, "m.room.topic");
    assert_eq!(cmd.data().limit, 50);
    let page = vec![
        "{\"type\":\"m.room.topic\",\"state_key\":\"\",\"content\":{\"topic\":\"hello\"}}".to_owned(),
        "{\"type\":\"m.room.message\",\"content\":{\"msgtype\":\"m.text\",\"body\":\"hi\"}}".to_owned(),
        "{\"type\":\"m.room.topic\",\"content\":{\"topic\":\"no state key\"}}".to_owned(),
        "not json".to_owned(),
    ];
    let actions = api.process(Event::MatrixEventRead(cmd.ok(page)));
    assert_eq!(actions.len(), 1);
    let v = parse(sent_text(&actions[0]));
    assert_eq!(v["requestId"], "read-1");
    assert_eq!(v["data"]["type"], "m.room.topic");
    let events = v["response"]["events"].as_array().unwrap();
    assert_eq!(events.len(), 1);
    assert_eq!(events[0]["content"]["topic"], "hello");
}

#[test]
fn send_of_message_without_send_capability_is_not_allowed() {
    let mut api = negotiated(topic_read_only());
    let actions = api.process(from_widget(
        "send-1",
        "send_event",
        "{\"type\":\"m.room.message\",\"content\":{\"msgtype\":\"m.text\",\"body\":\"x\"}}",
    ));
    assert_eq!(actions.len(), 1);
    let v = parse(sent_text(&actions[0]));
    assert_eq!(v["requestId"], "send-1");
    assert_eq!(v["response"]["error"]["message"], NOT_ALLOWED);
    assert_eq!(NOT_ALLOWED, "Not allowed");
}

#[test]
fn allowed_send_is_forwarded_and_answered_with_ids() {
    let approved = Permissions {
        read: vec![],
        send: vec![EventFilter::MessageLike(
            widget_api::filter::MessageLikeEventFilter::RoomMessageWithMsgtype("m.text".to_owned()),
        )],
        requires_client: false,
    };
    let mut api = negotiated(approved);
    let actions = api.process(from_widget(
        "send-1",
        "send_event",
        "{\"type\":\"m.room.message\",\"content\":{\"msgtype\":\"m.text\",\"body\":\"x\"}}",
    ));
    assert_eq!(actions.len(), 1);
    let cmd = match actions.into_iter().next().unwrap() {
        Action::SendMatrixEvent(cmd) => cmd,
        _ => panic!("expected a send"),
    };
    assert_eq!(cmd.data().event_type, "m.room.message");
    assert!(cmd.data().state_key.is_none());
    let actions = api.process(Event::MatrixEventSent(cmd.ok("$ev1".to_owned())));
    let v = parse(sent_text(&actions[0]));
    assert_eq!(v["response"]["room_id"], "!room:example.org");
    assert_eq!(v["response"]["event_id"], "$ev1");
}

#[test]
fn failed_send_is_reported_to_the_widget() {
    let approved = Permissions {
        read: vec![],
        send: vec![EventFilter::MessageLike(
            widget_api::filter::MessageLikeEventFilter::WithType("m.reaction".to_owned()),
        )],
        requires_client: false,
    };
    let mut api = negotiated(approved);
    let actions = api.process(from_widget("s", "send_event", "{\"type\":\"m.reaction\",\"content\":{}}"));
    let cmd = match actions.into_iter().next().unwrap() {
        Action::SendMatrixEvent(cmd) => cmd,
        _ => panic!("expected a send"),
    };
    let actions = api.process(Event::MatrixEventSent(cmd.result(Err("rate limited".to_owned()))));
    let v = parse(sent_text(&actions[0]));
    assert_eq!(v["response"]["error"]["message"], "rate limited");
}

#[test]
fn read_before_negotiation_is_refused() {
    let (mut api, _) = ClientApi::new("w1".to_owned(), "!r:x".to_owned(), true);
    let actions = api.process(from_widget("r", "read_events", "{\"type\":\"m.room.topic\"}"));
    let v = parse(sent_text(&actions[0]));
    assert_eq!(v["response"]["error"]["message"], NOT_NEGOTIATED);
    let actions = api.process(from_widget("s", "send_event", "{\"type\":\"m.room.topic\",\"content\":{}}"));
    let v = parse(sent_text(&actions[0]));
    assert_eq!(v["response"]["error"]["message"], "Capabilities have not been negotiated");
}

#[test]
fn read_without_read_capability_is_refused() {
    let mut api = negotiated(Permissions { read: vec![], send: vec![], requires_client: false });
    let actions = api.process(from_widget("r", "read_events", "{\"type\":\"m.room.topic\"}"));
    assert_eq!(actions.len(), 1);
    let v = parse(sent_text(&actions[0]));
    assert_eq!(v["response"]["error"]["message"], NO_READ_PERMISSION);
}

#[test]
fn read_of_one_state_key_asks_for_one_event_and_keeps_that_key() {
    let mut api = negotiated(topic_read_only());
    let actions = api.process(from_widget(
        "r",
        "read_events",
        "{\"type\":\"m.room.topic\",\"state_key\":\"a\"}",
    ));
    let cmd = match actions.into_iter().next().unwrap() {
        Action::ReadMatrixEvent(cmd) => cmd,
        _ => panic!("expected a read"),
    };
    assert_eq!(cmd.data().limit, 1);
    let page = vec![
        "{\"type\":\"m.room.topic\",\"state_key\":\"b\",\"content\":{}}".to_owned(),
        "{\"type\":\"m.room.topic\",\"state_key\":\"a\",\"content\":{}}".to_owned(),
    ];
    let actions = api.process(Event::MatrixEventRead(cmd.ok(page)));
    let v = parse(sent_text(&actions[0]));
    let events = v["response"]["events"].as_array().unwrap();
    assert_eq!(events.len(), 1);
    assert_eq!(events[0]["state_key"], "a");
}

#[test]
fn read_with_explicit_limit_keeps_it() {
    let mut api = negotiated(topic_read_only());
    let actions = api.process(from_widget("r", "read_events", "{\"type\":\"m.room.topic\",\"limit\":7}"));
    match &actions[0] {
        Action::ReadMatrixEvent(cmd) => assert_eq!(cmd.data().limit, 7),
        _ => panic!("expected a read"),
    }
}

#[test]
fn timeout_removes_the_pending_request() {
    let (mut api, actions) = ClientApi::new("w1".to_owned(), "!r:x".to_owned(), false);
    let (id, _) = sent_request(&actions[0]);
    assert!(api.requests.contains(&id));
    let actions = api.process(Event::ReplyTimedOut(id.clone()));
    assert!(actions.is_empty());
    assert!(!api.requests.contains(&id));
    assert!(matches!(api.state, SessionState::Uninitialized));

    assert!(api.on_timeout(&id).is_none());

    let late = api.process(widget_reply(&id, "capabilities", "{}", "{\"capabilities\":[]}"));
    assert_eq!(late.len(), 1);
    let v = parse(sent_text(&late[0]));
    assert!(v.get("requestId").is_none());
    assert_eq!(v["response"]["error"]["message"], UNEXPECTED_RESPONSE);
    assert!(matches!(api.state, SessionState::Uninitialized));
}

#[test]
fn timeout_of_a_pending_request_is_a_timeout_error() {
    let (mut api, actions) = ClientApi::new("w1".to_owned(), "!r:x".to_owned(), false);
    let (id, _) = sent_request(&actions[0]);
    assert!(matches!(api.on_timeout(&id), Some(ProxyError::Timeout)));
    assert!(!api.requests.contains(&id));
    assert!(matches!(api.state, SessionState::Uninitialized));
    assert_eq!(api.requests.len(), 0);
}

#[test]
fn a_reply_resolves_its_request_once() {
    let (mut api, actions) = ClientApi::new("w1".to_owned(), "!r:x".to_owned(), false);
    let (id, _) = sent_request(&actions[0]);
    let first = api.process(widget_reply(&id, "capabilities", "{}", "{\"capabilities\":[]}"));
    assert!(matches!(&first[0], Action::AcquirePermissions(_)));
    assert!(!api.requests.contains(&id));
    let second = api.process(widget_reply(&id, "capabilities", "{}", "{\"capabilities\":[]}"));
    assert_eq!(second.len(), 1);
    let v = parse(sent_text(&second[0]));
    assert_eq!(v["response"]["error"]["message"], "Unexpected response from a widget");
}

#[test]
fn declared_failure_of_capabilities_ends_negotiation() {
    let (mut api, actions) = ClientApi::new("w1".to_owned(), "!r:x".to_owned(), false);
    let (id, _) = sent_request(&actions[0]);
    let actions = api.process(widget_reply(&id, "capabilities", "{}", "{\"error\":{\"message\":\"no\"}}"));
    assert!(actions.is_empty());
    assert!(matches!(api.state, SessionState::Uninitialized));
}

#[test]
fn reply_of_another_kind_is_invalid() {
    let text = "{\"api\":\"toWidget\",\"requestId\":\"x\",\"widgetId\":\"w\",\"action\":\"notify_capabilities\",\"data\":{\"requested\":[],\"approved\":[]},\"response\":{}}";
    let m = Message::decode(text).ok().unwrap();
    let reply = match m.body {
        MessageBody::ToWidgetResponse(r) => r,
        _ => panic!("expected a reply to the host"),
    };
    assert!(matches!(check_reply(ToWidgetAction::CapabilitiesRequest, &reply), Err(ProxyError::InvalidResponse)));
    assert!(matches!(check_reply(ToWidgetAction::CapabilitiesUpdate, &reply), Ok(())));
}

#[test]
fn declared_failure_is_a_widget_error_reply() {
    let reply = ToWidgetResponse::CapabilitiesUpdate(Response {
        request: widget_api::messages::CapabilitiesUpdatedRequest {
            requested: Permissions { read: vec![], send: vec![], requires_client: false },
            approved: Permissions { read: vec![], send: vec![], requires_client: false },
        },
        response: ResponseBody::Failure(ErrorBody::new("refused")),
    });
    match check_reply(ToWidgetAction::CapabilitiesUpdate, &reply) {
        Err(ProxyError::WidgetErrorReply(m)) => assert_eq!(m, "refused"),
        _ => panic!("expected the widget's failure"),
    }
}

#[test]
fn openid_is_answered_pending_then_pushed() {
    let (mut api, _) = ClientApi::new("w1".to_owned(), "!r:x".to_owned(), true);
    let actions = api.process(from_widget("oid-1", "get_openid", "{}"));
    assert_eq!(actions.len(), 2);
    let v = parse(sent_text(&actions[0]));
    assert_eq!(v["response"]["state"], "request");
    let cmd = match actions.into_iter().nth(1).unwrap() {
        Action::GetOpenId(cmd) => cmd,
        _ => panic!("expected a token fetch"),
    };
    let token = OpenIdToken {
        access_token: "tok".to_owned(),
        expires_in_seconds: 3600,
        matrix_server_name: "example.org".to_owned(),
        token_type: "Bearer".to_owned(),
    };
    let actions = api.process(Event::OpenIdReceived(cmd.ok(token)));
    assert_eq!(actions.len(), 1);
    let (_, push) = sent_request(&actions[0]);
    assert_eq!(push["action"], "openid_credentials");
    assert_eq!(push["data"]["state"], "allowed");
    assert_eq!(push["data"]["original_request_id"], "oid-1");
    assert_eq!(push["data"]["access_token"], "tok");
    assert_eq!(push["data"]["expires_in"], 3600);
    assert_eq!(push["data"]["matrix_server_name"], "example.org");
    assert_eq!(push["data"]["token_type"], "Bearer");
}

#[test]
fn failed_openid_fetch_is_pushed_as_blocked() {
    let (mut api, _) = ClientApi::new("w1".to_owned(), "!r:x".to_owned(), true);
    let actions = api.process(from_widget("oid-1", "get_openid", "{}"));
    let cmd = match actions.into_iter().nth(1).unwrap() {
        Action::GetOpenId(cmd) => cmd,
        _ => panic!("expected a token fetch"),
    };
    let actions = api.process(Event::OpenIdReceived(cmd.result(Err("offline".to_owned()))));
    let (_, push) = sent_request(&actions[0]);
    assert_eq!(push["data"], parse("{\"state\":\"blocked\"}"));
}

#[test]
fn live_events_are_forwarded_when_read_allows() {
    let mut api = negotiated(topic_read_only());
    let actions = api.process(Event::MatrixEventReceived(
        "{\"type\":\"m.room.topic\",\"state_key\":\"\",\"content\":{\"topic\":\"t\"}}".to_owned(),
    ));
    assert_eq!(actions.len(), 1);
    let (_, push) = sent_request(&actions[0]);
    assert_eq!(push["action"], "send_event");
    assert_eq!(push["data"]["content"]["topic"], "t");
    let actions = api.process(Event::MatrixEventReceived(
        "{\"type\":\"m.room.message\",\"content\":{}}".to_owned(),
    ));
    assert!(actions.is_empty());
}

#[test]
fn disconnected_session_does_nothing() {
    let (mut api, _) = ClientApi::new("w1".to_owned(), "!r:x".to_owned(), true);
    api.disconnect();
    let actions = api.process(from_widget("v", "supported_api_versions", "{}"));
    assert!(actions.is_empty());
    assert!(matches!(api.state, SessionState::Disconnected));
}

#[test]
fn response_result_gives_success_or_message() {
    let ok: Response<Empty, u32> = Response { request: Empty {}, response: ResponseBody::Success(5) };
    assert_eq!(ok.response(), None);
    assert_eq!(ok.result(), Ok(5));
    let failed: Response<Empty, u32> =
        Response { request: Empty {}, response: ResponseBody::Failure(ErrorBody::new("bad")) };
    assert_eq!(failed.response(), Some("bad".to_owned()));
    assert_eq!(failed.result(), Err("bad".to_owned()));
}

#[test]
fn host_requests_get_fresh_ids() {
    let (mut api, actions) = ClientApi::new("w1".to_owned(), "!r:x".to_owned(), false);
    let (first, _) = sent_request(&actions[0]);
    let mut api2 = negotiated(topic_read_only());
    let forwarded = api2.process(Event::MatrixEventReceived(
        "{\"type\":\"m.room.topic\",\"state_key\":\"\",\"content\":{}}".to_owned(),
    ));
    let (second, _) = sent_request(&forwarded[0]);
    assert!(!first.is_empty());
    assert_ne!(first, second);
    assert_eq!(api.requests.len(), 1);
    assert!(api.on_timeout(&first).is_some());
    assert_eq!(api.requests.len(), 0);
}

#[test]
fn content_loaded_on_an_eagerly_initialized_session_is_refused() {
    let (mut api, actions) = ClientApi::new("w1".to_owned(), "!r:x".to_owned(), false);
    let (cap_id, _) = sent_request(&actions[0]);
    let actions = api.process(widget_reply(&cap_id, "capabilities", "{}", "{\"capabilities\":[]}"));
    let cmd = match actions.into_iter().next().unwrap() {
        Action::AcquirePermissions(cmd) => cmd,
        _ => panic!("expected the policy to be asked"),
    };
    api.process(Event::PermissionsAcquired(cmd.ok(topic_read_only())));
    assert!(matches!(api.state, SessionState::Initialized(_)));
    let actions = api.process(from_widget("load-1", "content_loaded", "{}"));
    assert_eq!(actions.len(), 1);
    let v = parse(sent_text(&actions[0]));
    assert_eq!(v["requestId"], "load-1");
    assert_eq!(v["response"]["error"]["message"], "Already loaded");
    assert!(matches!(api.state, SessionState::Initialized(_)));
}

#[test]
fn content_loaded_after_a_timed_out_negotiation_restarts_it() {
    let (mut api, actions) = ClientApi::new("w1".to_owned(), "!r:x".to_owned(), false);
    let (cap_id, _) = sent_request(&actions[0]);
    api.process(Event::ReplyTimedOut(cap_id));
    assert!(matches!(api.state, SessionState::Uninitialized));
    let actions = api.process(from_widget("load-1", "content_loaded", "{}"));
    assert_eq!(actions.len(), 2);
    let v = parse(sent_text(&actions[0]));
    assert_eq!(v["response"], parse("{}"));
    let (id, req) = sent_request(&actions[1]);
    assert_eq!(req["action"], "capabilities");
    assert!(api.requests.contains(&id));
    assert!(matches!(api.state, SessionState::Negotiating));
}

#[test]
fn forwarded_live_events_carry_the_room_id() {
    let mut api = negotiated(topic_read_only());
    let actions = api.process(Event::MatrixEventReceived(
        "{\"type\":\"m.room.topic\",\"state_key\":\"\",\"room_id\":\"!old\",\"content\":{\"topic\":\"t\"}}".to_owned(),
    ));
    assert_eq!(actions.len(), 1);
    let (_, push) = sent_request(&actions[0]);
    assert_eq!(push["data"]["room_id"], "!room:example.org");
    assert_eq!(push["data"]["type"], "m.room.topic");
}

#[test]
fn reply_of_the_wrong_kind_is_reported_out_of_band() {
    let (mut api, actions) = ClientApi::new("w1".to_owned(), "!r:x".to_owned(), false);
    let (cap_id, _) = sent_request(&actions[0]);
    let actions = api.process(widget_reply(
        &cap_id,
        "notify_capabilities",
        "{\"requested\":[],\"approved\":[]}",
        "{}",
    ));
    assert_eq!(actions.len(), 1);
    let v = parse(sent_text(&actions[0]));
    assert!(v.get("requestId").is_none());
    assert_eq!(v["response"]["error"]["message"], "Invalid response from a widget");
    assert!(matches!(api.state, SessionState::Uninitialized));
    assert!(!api.requests.contains(&cap_id));
}

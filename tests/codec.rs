use widget_api::filter::{
    any_matches, EventFilter, MatrixEventContent, MatrixEventFilterInput, MessageLikeEventFilter,
    StateEventFilter,
};
use widget_api::json::{parse_json, print_json, Json};
use widget_api::messages::{
    CapabilitiesUpdatedRequest, Empty, ErrorBody, Header, OpenIdResponse, OpenIdState, Request,
    ResponseBody, WithHeader,
};
use widget_api::pending::PendingTable;
use widget_api::permissions::{Capability, Permissions};
use widget_api::wire::{Message, MessageBody, ToWidgetRequest};

fn input(event_type: &str, state_key: Option<&str>, msgtype: Option<&str>) -> MatrixEventFilterInput {
    MatrixEventFilterInput {
        event_type: event_type.to_owned(),
        state_key: state_key.map(|s| s.to_owned()),
        content: MatrixEventContent { msgtype: msgtype.map(|s| s.to_owned()) },
    }
}

fn parse(text: &str) -> serde_json::Value {
    serde_json::from_str(text).unwrap()
}

#[test]
fn empty_filter_list_matches_nothing() {
    let none: Vec<EventFilter> = vec![];
    assert!(!any_matches(&none, &input("m.room.message", None, Some("m.text"))));
    assert!(!any_matches(&none, &input("m.room.topic", Some(""), None)));
}

#[test]
fn filter_list_is_a_disjunction() {
    let a = EventFilter::MessageLike(MessageLikeEventFilter::WithType("m.reaction".to_owned()));
    let b = EventFilter::State(StateEventFilter::WithType("m.room.topic".to_owned()));
    let x = input("m.room.topic", Some(""), None);
    assert!(!a.matches(&x));
    assert!(b.matches(&x));
    let both = vec![a, b];
    assert!(any_matches(&both, &x));
    assert!(!any_matches(&both, &input("m.room.name", Some(""), None)));
}

#[test]
fn message_like_filter_needs_no_state_key() {
    let f = EventFilter::MessageLike(MessageLikeEventFilter::WithType("m.room.topic".to_owned()));
    assert!(f.matches(&input("m.room.topic", None, None)));
    assert!(!f.matches(&input("m.room.topic", Some(""), None)));
}

#[test]
fn msgtype_filter_needs_room_message_and_msgtype() {
    let f = EventFilter::MessageLike(MessageLikeEventFilter::RoomMessageWithMsgtype("m.text".to_owned()));
    assert!(f.matches(&input("m.room.message", None, Some("m.text"))));
    assert!(!f.matches(&input("m.room.message", None, Some("m.image"))));
    assert!(!f.matches(&input("m.room.message", None, None)));
    assert!(!f.matches(&input("m.sticker", None, Some("m.text"))));
}

#[test]
fn state_filters_check_type_and_key() {
    let any = EventFilter::State(StateEventFilter::WithType("m.room.member".to_owned()));
    let one = EventFilter::State(StateEventFilter::WithTypeAndStateKey(
        "m.room.member".to_owned(),
        "@a:x".to_owned(),
    ));
    assert!(any.matches(&input("m.room.member", Some("@b:x"), None)));
    assert!(!any.matches(&input("m.room.member", None, None)));
    assert!(one.matches(&input("m.room.member", Some("@a:x"), None)));
    assert!(!one.matches(&input("m.room.member", Some("@b:x"), None)));
}

#[test]
fn capabilities_round_trip() {
    let p = Permissions {
        read: vec![
            EventFilter::MessageLike(MessageLikeEventFilter::WithType("m.reaction".to_owned())),
            EventFilter::MessageLike(MessageLikeEventFilter::RoomMessageWithMsgtype("m.text".to_owned())),
            EventFilter::State(StateEventFilter::WithType("m.room.topic".to_owned())),
        ],
        send: vec![EventFilter::State(StateEventFilter::WithTypeAndStateKey(
            "m.room.member".to_owned(),
            "@a:x".to_owned(),
        ))],
        requires_client: true,
    };
    let caps = p.to_capabilities();
    assert_eq!(
        caps,
        vec![
            "org.matrix.msc2762.receive.event:m.reaction".to_owned(),
            "org.matrix.msc2762.receive.event:m.room.message#m.text".to_owned(),
            "org.matrix.msc2762.receive.state_event:m.room.topic".to_owned(),
            "org.matrix.msc2762.send.state_event:m.room.member#@a:x".to_owned(),
            "io.element.requires_client".to_owned(),
        ]
    );
    let back = Permissions::from_capabilities(&caps);
    assert_eq!(back.to_capabilities(), caps);
    assert_eq!(back.read.len(), 3);
    assert_eq!(back.send.len(), 1);
    assert!(back.requires_client);
}

#[test]
fn unknown_capabilities_are_ignored() {
    let caps = vec!["m.always_on_screen".to_owned(), "org.matrix.msc2762.send.event:m.room.message".to_owned()];
    let p = Permissions::from_capabilities(&caps);
    assert!(p.read.is_empty());
    assert_eq!(p.send.len(), 1);
    assert!(!p.requires_client);
    assert!(matches!(Capability::parse("m.always_on_screen"), Capability::Unknown));
    assert!(matches!(Capability::parse("io.element.requires_client"), Capability::RequiresClient));
}

#[test]
fn json_text_round_trips_through_the_parser() {
    let j = parse_json("{\"a\":[1,-2,true,null,\"s\"],\"b\":{}}").ok().unwrap();
    match &j {
        Json::Object(entries) => assert_eq!(entries.len(), 2),
        _ => panic!("expected an object"),
    }
    let text = print_json(j);
    assert_eq!(parse(&text), parse("{\"a\":[1,-2,true,null,\"s\"],\"b\":{}}"));
    assert!(parse_json("{").is_err());
}

#[test]
fn message_encodes_the_wire_envelope() {
    let m = Message {
        header: Header::new("id-1".to_owned(), "w1".to_owned()),
        body: MessageBody::ToWidgetRequest(ToWidgetRequest::CapabilitiesUpdate(CapabilitiesUpdatedRequest {
            requested: Permissions { read: vec![], send: vec![], requires_client: true },
            approved: Permissions { read: vec![], send: vec![], requires_client: false },
        })),
    };
    let text = m.encode();
    assert_eq!(
        parse(&text),
        parse(
            "{\"api\":\"toWidget\",\"requestId\":\"id-1\",\"widgetId\":\"w1\",\"action\":\"notify_capabilities\",\"data\":{\"requested\":[\"io.element.requires_client\"],\"approved\":[]}}"
        )
    );
    let back = Message::decode(&text).ok().unwrap();
    assert_eq!(back.header.request_id, "id-1");
    assert_eq!(back.encode(), text);
}

#[test]
fn every_message_kind_round_trips() {
    let texts = [
        "{\"api\":\"fromWidget\",\"requestId\":\"1\",\"widgetId\":\"w\",\"action\":\"supported_api_versions\",\"data\":{}}",
        "{\"api\":\"fromWidget\",\"requestId\":\"2\",\"widgetId\":\"w\",\"action\":\"content_loaded\",\"data\":{},\"response\":{}}",
        "{\"api\":\"fromWidget\",\"requestId\":\"3\",\"widgetId\":\"w\",\"action\":\"get_openid\",\"data\":{},\"response\":{\"state\":\"request\"}}",
        "{\"api\":\"fromWidget\",\"requestId\":\"4\",\"widgetId\":\"w\",\"action\":\"send_event\",\"data\":{\"type\":\"m.room.topic\",\"state_key\":\"\",\"content\":{\"topic\":\"t\"}},\"response\":{\"room_id\":\"!r\",\"event_id\":\"$e\"}}",
        "{\"api\":\"fromWidget\",\"requestId\":\"5\",\"widgetId\":\"w\",\"action\":\"read_events\",\"data\":{\"type\":\"m.room.topic\",\"state_key\":true,\"limit\":3},\"response\":{\"events\":[{\"type\":\"m.room.topic\"}]}}",
        "{\"api\":\"toWidget\",\"requestId\":\"6\",\"widgetId\":\"w\",\"action\":\"capabilities\",\"data\":{},\"response\":{\"capabilities\":[\"io.element.requires_client\"]}}",
        "{\"api\":\"toWidget\",\"requestId\":\"7\",\"widgetId\":\"w\",\"action\":\"openid_credentials\",\"data\":{\"state\":\"blocked\"},\"response\":{\"error\":{\"message\":\"m\"}}}",
        "{\"api\":\"toWidget\",\"requestId\":\"8\",\"widgetId\":\"w\",\"action\":\"send_event\",\"data\":{\"type\":\"m.room.message\",\"content\":{}}}",
        "{\"api\":\"fromWidget\",\"requestId\":\"9\",\"widgetId\":\"w\",\"action\":\"supported_api_versions\",\"data\":{},\"response\":{\"supported_versions\":[\"0.0.1\",\"org.matrix.msc3819\"]}}",
    ];
    for t in texts {
        let m = Message::decode(t).ok().unwrap();
        let again = Message::decode(&m.encode()).ok().unwrap();
        assert_eq!(parse(&again.encode()), parse(t), "{t}");
    }
}

#[test]
fn unknown_action_is_no_message() {
    let t = "{\"api\":\"fromWidget\",\"requestId\":\"1\",\"widgetId\":\"w\",\"action\":\"dance\",\"data\":{}}";
    assert!(Message::decode(t).is_err());
    let t = "{\"api\":\"sideways\",\"requestId\":\"1\",\"widgetId\":\"w\",\"action\":\"content_loaded\",\"data\":{}}";
    assert!(Message::decode(t).is_err());
}

#[test]
fn pending_table_refuses_a_second_entry_under_one_id() {
    let mut t: PendingTable<u8> = PendingTable::new();
    assert!(t.insert("a".to_owned(), 1).is_ok());
    assert_eq!(t.insert("a".to_owned(), 2), Err(2));
    assert!(t.insert("b".to_owned(), 3).is_ok());
    assert_eq!(t.len(), 2);
    assert_eq!(t.remove("a"), Some(1));
    assert_eq!(t.remove("a"), None);
    assert!(!t.contains("a"));
    assert!(t.contains("b"));
}

#[test]
fn header_and_bodies_keep_what_they_are_given() {
    let h = Header::new("r".to_owned(), "w".to_owned());
    assert_eq!(h.request_id, "r");
    assert_eq!(h.widget_id, "w");
    let e = ErrorBody::new("oops");
    assert_eq!(e.message(), "oops");
    assert_eq!(e.error.message, "oops");
    let reply = Request::new(Empty {}).map(Err::<Empty, String>("no".to_owned()));
    assert!(matches!(reply.response, ResponseBody::Failure(ref b) if b.error.message == "no"));
    let wh = WithHeader::new(h, 1u8).map("x");
    assert_eq!(wh.header.request_id, "r");
    assert_eq!(wh.data, "x");
}

#[test]
fn openid_state_is_written_with_wire_names() {
    let m = Message {
        header: Header::new("p".to_owned(), "w".to_owned()),
        body: MessageBody::ToWidgetRequest(ToWidgetRequest::OpenIdCredentialsUpdate(OpenIdResponse::Allowed(
            OpenIdState {
                id: "orig".to_owned(),
                token: "t".to_owned(),
                expires_in_seconds: 60,
                server: "s".to_owned(),
                kind: "Bearer".to_owned(),
            },
        ))),
    };
    let v = parse(&m.encode());
    assert_eq!(
        v["data"],
        parse("{\"state\":\"allowed\",\"original_request_id\":\"orig\",\"access_token\":\"t\",\"expires_in\":60,\"matrix_server_name\":\"s\",\"token_type\":\"Bearer\"}")
    );
}

#[test]
fn fresh_id_avoids_every_pending_id() {
    let mut t: PendingTable<u8> = PendingTable::new();
    assert_eq!(t.fresh_id("x".to_owned()), "x");
    assert!(t.insert("a".to_owned(), 1).is_ok());
    assert!(t.insert("ab".to_owned(), 2).is_ok());
    let id = t.fresh_id("a".to_owned());
    assert!(!t.contains(&id));
    assert!(t.insert(id, 3).is_ok());
    assert_eq!(t.len(), 3);
}

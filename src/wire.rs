//! Whole messages: the envelope, the action tags, and the text on the wire.
use vstd::prelude::*;

use crate::codec::{body_from_json, body_json, body_of, body_to_json, get_string, str_of, Payload};
use crate::json::{get, json_parsed, json_printed, parse_json, print_json, Json, JsonV};
use crate::messages::{
    CapabilitiesResponse, CapabilitiesUpdateV, CapabilitiesUpdatedRequest, Empty, Header, HeaderV,
    OpenIdResponse, OpenIdResponseV, ReadEventRequest, ReadEventRequestV, ReadEventResponse,
    Response, ResponseV, SendEventRequest, SendEventRequestV, SendEventResponse,
    SendEventResponseV, SupportedApiVersionsResponse,
};
use crate::permissions::PermissionsV;
use crate::text::str_eq;

verus! {

/// A request that a widget sends to the host.
pub enum FromWidgetRequest {
    GetSupportedApiVersion(Empty),
    ContentLoaded(Empty),
    GetOpenId(Empty),
    SendEvent(SendEventRequest),
    ReadEvent(ReadEventRequest),
}

/// The host's reply to a request of the widget.
pub enum FromWidgetResponse {
    GetSupportedApiVersion(Response<Empty, SupportedApiVersionsResponse>),
    ContentLoaded(Response<Empty, Empty>),
    GetOpenId(Response<Empty, OpenIdResponse>),
    SendEvent(Response<SendEventRequest, SendEventResponse>),
    ReadEvent(Response<ReadEventRequest, ReadEventResponse>),
}

/// A request that the host sends to the widget.
pub enum ToWidgetRequest {
    CapabilitiesRequest(Empty),
    CapabilitiesUpdate(CapabilitiesUpdatedRequest),
    OpenIdCredentialsUpdate(OpenIdResponse),
    SendEvent(Json),
}

/// The widget's reply to a request of the host.
pub enum ToWidgetResponse {
    CapabilitiesRequest(Response<Empty, CapabilitiesResponse>),
    CapabilitiesUpdate(Response<CapabilitiesUpdatedRequest, Empty>),
    OpenIdCredentialsUpdate(Response<OpenIdResponse, Empty>),
    SendEvent(Response<Json, Empty>),
}

/// What a message carries: which side started the exchange, and whether it is the request or
/// the reply.
pub enum MessageBody {
    FromWidgetRequest(FromWidgetRequest),
    FromWidgetResponse(FromWidgetResponse),
    ToWidgetRequest(ToWidgetRequest),
    ToWidgetResponse(ToWidgetResponse),
}

/// One message on the wire.
pub struct Message {
    pub header: Header,
    pub body: MessageBody,
}

/// The description of a JSON value that is no message.
pub const NOT_A_MESSAGE: &'static str = "The JSON value is no message of the widget protocol";

/// Why a text is no message.
pub struct DecodeError {
    /// A description of the fault.
    pub message: String,
}

pub ghost enum FromWidgetRequestV {
    GetSupportedApiVersion,
    ContentLoaded,
    GetOpenId,
    SendEvent(SendEventRequestV),
    ReadEvent(ReadEventRequestV),
}

pub ghost enum FromWidgetResponseV {
    GetSupportedApiVersion(ResponseV<(), Seq<crate::messages::ApiVersion>>),
    ContentLoaded(ResponseV<(), ()>),
    GetOpenId(ResponseV<(), OpenIdResponseV>),
    SendEvent(ResponseV<SendEventRequestV, SendEventResponseV>),
    ReadEvent(ResponseV<ReadEventRequestV, Seq<JsonV>>),
}

pub ghost enum ToWidgetRequestV {
    CapabilitiesRequest,
    CapabilitiesUpdate(CapabilitiesUpdateV),
    OpenIdCredentialsUpdate(OpenIdResponseV),
    SendEvent(JsonV),
}

pub ghost enum ToWidgetResponseV {
    CapabilitiesRequest(ResponseV<(), PermissionsV>),
    CapabilitiesUpdate(ResponseV<CapabilitiesUpdateV, ()>),
    OpenIdCredentialsUpdate(ResponseV<OpenIdResponseV, ()>),
    SendEvent(ResponseV<JsonV, ()>),
}

pub ghost enum MessageBodyV {
    FromWidgetRequest(FromWidgetRequestV),
    FromWidgetResponse(FromWidgetResponseV),
    ToWidgetRequest(ToWidgetRequestV),
    ToWidgetResponse(ToWidgetResponseV),
}

pub ghost struct MessageV {
    pub header: HeaderV,
    pub body: MessageBodyV,
}

impl View for FromWidgetRequest {
    type V = FromWidgetRequestV;

    open spec fn view(&self) -> FromWidgetRequestV {
        match self {
            FromWidgetRequest::GetSupportedApiVersion(_) => FromWidgetRequestV::GetSupportedApiVersion,
            FromWidgetRequest::ContentLoaded(_) => FromWidgetRequestV::ContentLoaded,
            FromWidgetRequest::GetOpenId(_) => FromWidgetRequestV::GetOpenId,
            FromWidgetRequest::SendEvent(r) => FromWidgetRequestV::SendEvent(r@),
            FromWidgetRequest::ReadEvent(r) => FromWidgetRequestV::ReadEvent(r@),
        }
    }
}

impl View for FromWidgetResponse {
    type V = FromWidgetResponseV;

    open spec fn view(&self) -> FromWidgetResponseV {
        match self {
            FromWidgetResponse::GetSupportedApiVersion(r) => FromWidgetResponseV::GetSupportedApiVersion(r@),
            FromWidgetResponse::ContentLoaded(r) => FromWidgetResponseV::ContentLoaded(r@),
            FromWidgetResponse::GetOpenId(r) => FromWidgetResponseV::GetOpenId(r@),
            FromWidgetResponse::SendEvent(r) => FromWidgetResponseV::SendEvent(r@),
            FromWidgetResponse::ReadEvent(r) => FromWidgetResponseV::ReadEvent(r@),
        }
    }
}

impl View for ToWidgetRequest {
    type V = ToWidgetRequestV;

    open spec fn view(&self) -> ToWidgetRequestV {
        match self {
            ToWidgetRequest::CapabilitiesRequest(_) => ToWidgetRequestV::CapabilitiesRequest,
            ToWidgetRequest::CapabilitiesUpdate(r) => ToWidgetRequestV::CapabilitiesUpdate(r@),
            ToWidgetRequest::OpenIdCredentialsUpdate(r) => ToWidgetRequestV::OpenIdCredentialsUpdate(r@),
            ToWidgetRequest::SendEvent(r) => ToWidgetRequestV::SendEvent(r@),
        }
    }
}

impl View for ToWidgetResponse {
    type V = ToWidgetResponseV;

    open spec fn view(&self) -> ToWidgetResponseV {
        match self {
            ToWidgetResponse::CapabilitiesRequest(r) => ToWidgetResponseV::CapabilitiesRequest(r@),
            ToWidgetResponse::CapabilitiesUpdate(r) => ToWidgetResponseV::CapabilitiesUpdate(r@),
            ToWidgetResponse::OpenIdCredentialsUpdate(r) => ToWidgetResponseV::OpenIdCredentialsUpdate(r@),
            ToWidgetResponse::SendEvent(r) => ToWidgetResponseV::SendEvent(r@),
        }
    }
}

impl View for MessageBody {
    type V = MessageBodyV;

    open spec fn view(&self) -> MessageBodyV {
        match self {
            MessageBody::FromWidgetRequest(b) => MessageBodyV::FromWidgetRequest(b@),
            MessageBody::FromWidgetResponse(b) => MessageBodyV::FromWidgetResponse(b@),
            MessageBody::ToWidgetRequest(b) => MessageBodyV::ToWidgetRequest(b@),
            MessageBody::ToWidgetResponse(b) => MessageBodyV::ToWidgetResponse(b@),
        }
    }
}

impl View for Message {
    type V = MessageV;

    open spec fn view(&self) -> MessageV {
        MessageV { header: self.header@, body: self.body@ }
    }
}

/// The parts of the envelope that tell one message kind from another.
pub ghost struct Frame {
    pub api: Seq<char>,
    pub action: Seq<char>,
    pub data: JsonV,
    pub response: Option<JsonV>,
}

pub open spec fn response_frame<Q: Payload, P: Payload>(
    api: Seq<char>,
    action: Seq<char>,
    r: ResponseV<Q::V, P::V>,
) -> Frame {
    Frame {
        api,
        action,
        data: Q::json_of(r.request),
        response: Some(body_json::<P>(r.response)),
    }
}

pub open spec fn request_frame(api: Seq<char>, action: Seq<char>, data: JsonV) -> Frame {
    Frame { api, action, data, response: None }
}

/// The envelope fields of each kind of message.
pub open spec fn frame_of(b: MessageBodyV) -> Frame {
    let empty = JsonV::Object(Seq::empty());
    match b {
        MessageBodyV::FromWidgetRequest(r) => match r {
            FromWidgetRequestV::GetSupportedApiVersion => request_frame("fromWidget"@, "supported_api_versions"@, empty),
            FromWidgetRequestV::ContentLoaded => request_frame("fromWidget"@, "content_loaded"@, empty),
            FromWidgetRequestV::GetOpenId => request_frame("fromWidget"@, "get_openid"@, empty),
            FromWidgetRequestV::SendEvent(s) => request_frame("fromWidget"@, "send_event"@, SendEventRequest::json_of(s)),
            FromWidgetRequestV::ReadEvent(s) => request_frame("fromWidget"@, "read_events"@, ReadEventRequest::json_of(s)),
        },
        MessageBodyV::FromWidgetResponse(r) => match r {
            FromWidgetResponseV::GetSupportedApiVersion(x) => response_frame::<Empty, SupportedApiVersionsResponse>("fromWidget"@, "supported_api_versions"@, x),
            FromWidgetResponseV::ContentLoaded(x) => response_frame::<Empty, Empty>("fromWidget"@, "content_loaded"@, x),
            FromWidgetResponseV::GetOpenId(x) => response_frame::<Empty, OpenIdResponse>("fromWidget"@, "get_openid"@, x),
            FromWidgetResponseV::SendEvent(x) => response_frame::<SendEventRequest, SendEventResponse>("fromWidget"@, "send_event"@, x),
            FromWidgetResponseV::ReadEvent(x) => response_frame::<ReadEventRequest, ReadEventResponse>("fromWidget"@, "read_events"@, x),
        },
        MessageBodyV::ToWidgetRequest(r) => match r {
            ToWidgetRequestV::CapabilitiesRequest => request_frame("toWidget"@, "capabilities"@, empty),
            ToWidgetRequestV::CapabilitiesUpdate(s) => request_frame("toWidget"@, "notify_capabilities"@, CapabilitiesUpdatedRequest::json_of(s)),
            ToWidgetRequestV::OpenIdCredentialsUpdate(s) => request_frame("toWidget"@, "openid_credentials"@, OpenIdResponse::json_of(s)),
            ToWidgetRequestV::SendEvent(s) => request_frame("toWidget"@, "send_event"@, s),
        },
        MessageBodyV::ToWidgetResponse(r) => match r {
            ToWidgetResponseV::CapabilitiesRequest(x) => response_frame::<Empty, CapabilitiesResponse>("toWidget"@, "capabilities"@, x),
            ToWidgetResponseV::CapabilitiesUpdate(x) => response_frame::<CapabilitiesUpdatedRequest, Empty>("toWidget"@, "notify_capabilities"@, x),
            ToWidgetResponseV::OpenIdCredentialsUpdate(x) => response_frame::<OpenIdResponse, Empty>("toWidget"@, "openid_credentials"@, x),
            ToWidgetResponseV::SendEvent(x) => response_frame::<Json, Empty>("toWidget"@, "send_event"@, x),
        },
    }
}

/// The JSON form of a message: the envelope fields, then the reply's outcome where it is a
/// reply.
pub open spec fn message_json(m: MessageV) -> JsonV {
    let f = frame_of(m.body);
    JsonV::Object(
        seq![
            ("api"@, JsonV::Str(f.api)),
            ("requestId"@, JsonV::Str(m.header.request_id)),
            ("widgetId"@, JsonV::Str(m.header.widget_id)),
            ("action"@, JsonV::Str(f.action)),
            ("data"@, f.data),
        ] + match f.response {
            Some(r) => seq![("response"@, r)],
            None => Seq::empty(),
        },
    )
}

pub open spec fn response_of<Q: Payload, P: Payload>(data: JsonV, resp: JsonV) -> Option<
    ResponseV<Q::V, P::V>,
> {
    match (Q::of_json(data), body_of::<P>(resp)) {
        (Some(request), Some(response)) => Some(ResponseV { request, response }),
        _ => None,
    }
}

pub open spec fn from_widget_request_of(action: Seq<char>, data: JsonV) -> Option<FromWidgetRequestV> {
    if action == "supported_api_versions"@ {
        if data is Object { Some(FromWidgetRequestV::GetSupportedApiVersion) } else { None }
    } else if action == "content_loaded"@ {
        if data is Object { Some(FromWidgetRequestV::ContentLoaded) } else { None }
    } else if action == "get_openid"@ {
        if data is Object { Some(FromWidgetRequestV::GetOpenId) } else { None }
    } else if action == "send_event"@ {
        match SendEventRequest::of_json(data) {
            Some(s) => Some(FromWidgetRequestV::SendEvent(s)),
            None => None,
        }
    } else if action == "read_events"@ {
        match ReadEventRequest::of_json(data) {
            Some(s) => Some(FromWidgetRequestV::ReadEvent(s)),
            None => None,
        }
    } else {
        None
    }
}

pub open spec fn from_widget_response_of(action: Seq<char>, data: JsonV, resp: JsonV) -> Option<FromWidgetResponseV> {
    if action == "supported_api_versions"@ {
        match response_of::<Empty, SupportedApiVersionsResponse>(data, resp) {
            Some(x) => Some(FromWidgetResponseV::GetSupportedApiVersion(x)),
            None => None,
        }
    } else if action == "content_loaded"@ {
        match response_of::<Empty, Empty>(data, resp) {
            Some(x) => Some(FromWidgetResponseV::ContentLoaded(x)),
            None => None,
        }
    } else if action == "get_openid"@ {
        match response_of::<Empty, OpenIdResponse>(data, resp) {
            Some(x) => Some(FromWidgetResponseV::GetOpenId(x)),
            None => None,
        }
    } else if action == "send_event"@ {
        match response_of::<SendEventRequest, SendEventResponse>(data, resp) {
            Some(x) => Some(FromWidgetResponseV::SendEvent(x)),
            None => None,
        }
    } else if action == "read_events"@ {
        match response_of::<ReadEventRequest, ReadEventResponse>(data, resp) {
            Some(x) => Some(FromWidgetResponseV::ReadEvent(x)),
            None => None,
        }
    } else {
        None
    }
}

pub open spec fn to_widget_request_of(action: Seq<char>, data: JsonV) -> Option<ToWidgetRequestV> {
    if action == "capabilities"@ {
        if data is Object { Some(ToWidgetRequestV::CapabilitiesRequest) } else { None }
    } else if action == "notify_capabilities"@ {
        match CapabilitiesUpdatedRequest::of_json(data) {
            Some(s) => Some(ToWidgetRequestV::CapabilitiesUpdate(s)),
            None => None,
        }
    } else if action == "openid_credentials"@ {
        match OpenIdResponse::of_json(data) {
            Some(s) => Some(ToWidgetRequestV::OpenIdCredentialsUpdate(s)),
            None => None,
        }
    } else if action == "send_event"@ {
        Some(ToWidgetRequestV::SendEvent(data))
    } else {
        None
    }
}

pub open spec fn to_widget_response_of(action: Seq<char>, data: JsonV, resp: JsonV) -> Option<ToWidgetResponseV> {
    if action == "capabilities"@ {
        match response_of::<Empty, CapabilitiesResponse>(data, resp) {
            Some(x) => Some(ToWidgetResponseV::CapabilitiesRequest(x)),
            None => None,
        }
    } else if action == "notify_capabilities"@ {
        match response_of::<CapabilitiesUpdatedRequest, Empty>(data, resp) {
            Some(x) => Some(ToWidgetResponseV::CapabilitiesUpdate(x)),
            None => None,
        }
    } else if action == "openid_credentials"@ {
        match response_of::<OpenIdResponse, Empty>(data, resp) {
            Some(x) => Some(ToWidgetResponseV::OpenIdCredentialsUpdate(x)),
            None => None,
        }
    } else if action == "send_event"@ {
        match response_of::<Json, Empty>(data, resp) {
            Some(x) => Some(ToWidgetResponseV::SendEvent(x)),
            None => None,
        }
    } else {
        None
    }
}

/// The kind of message that the envelope fields stand for.
pub open spec fn body_of_frame(f: Frame) -> Option<MessageBodyV> {
    if f.api == "fromWidget"@ {
        match f.response {
            None => match from_widget_request_of(f.action, f.data) {
                Some(r) => Some(MessageBodyV::FromWidgetRequest(r)),
                None => None,
            },
            Some(resp) => match from_widget_response_of(f.action, f.data, resp) {
                Some(r) => Some(MessageBodyV::FromWidgetResponse(r)),
                None => None,
            },
        }
    } else if f.api == "toWidget"@ {
        match f.response {
            None => match to_widget_request_of(f.action, f.data) {
                Some(r) => Some(MessageBodyV::ToWidgetRequest(r)),
                None => None,
            },
            Some(resp) => match to_widget_response_of(f.action, f.data, resp) {
                Some(r) => Some(MessageBodyV::ToWidgetResponse(r)),
                None => None,
            },
        }
    } else {
        None
    }
}

/// The message that a JSON value stands for, where it stands for one.
pub open spec fn message_of(j: JsonV) -> Option<MessageV> {
    match (
        str_of(get(j, "api"@)),
        str_of(get(j, "requestId"@)),
        str_of(get(j, "widgetId"@)),
        str_of(get(j, "action"@)),
        get(j, "data"@),
    ) {
        (Some(api), Some(request_id), Some(widget_id), Some(action), Some(data)) => match body_of_frame(
            Frame { api, action, data, response: get(j, "response"@) },
        ) {
            Some(body) => Some(MessageV { header: HeaderV { request_id, widget_id }, body }),
            None => None,
        },
        _ => None,
    }
}

/// The message that a text stands for, where it is JSON that stands for one.
pub open spec fn decoded(text: Seq<char>) -> Option<MessageV> {
    match json_parsed(text) {
        Ok(j) => message_of(j),
        Err(_) => None,
    }
}

/// The text that stands for a message on the wire.
pub open spec fn encoded(m: MessageV) -> Seq<char> {
    json_printed(message_json(m))
}

pub open spec fn opt_json_view(o: Option<Json>) -> Option<JsonV> {
    match o {
        Some(j) => Some(j@),
        None => None,
    }
}

fn response_parts<Q: Payload, P: Payload>(r: &Response<Q, P>) -> (out: (Json, Option<Json>))
    ensures
        out.0@ == Q::json_of(r.request@),
        opt_json_view(out.1) == Some(body_json::<P>(r.response@)),
{
    (r.request.to_json(), Some(body_to_json(&r.response)))
}

fn response_from<Q: Payload, P: Payload>(data: &Json, resp: &Json) -> (r: Option<Response<Q, P>>)
    ensures
        r matches Some(x) ==> response_of::<Q, P>(data@, resp@) == Some(x@),
        r is None ==> response_of::<Q, P>(data@, resp@) is None,
{
    match (Q::from_json(data), body_from_json::<P>(resp)) {
        (Some(request), Some(response)) => Some(Response { request, response }),
        _ => None,
    }
}

fn empty_object() -> (r: Json)
    ensures
        r@ == JsonV::Object(Seq::empty()),
{
    Empty {}.to_json()
}

/// The envelope fields of a message body.
fn frame_parts(b: &MessageBody) -> (r: (&'static str, &'static str, Json, Option<Json>))
    ensures
        r.0@ == frame_of(b@).api,
        r.1@ == frame_of(b@).action,
        r.2@ == frame_of(b@).data,
        opt_json_view(r.3) == frame_of(b@).response,
{
    match b {
        MessageBody::FromWidgetRequest(r) => match r {
            FromWidgetRequest::GetSupportedApiVersion(_) => ("fromWidget", "supported_api_versions", empty_object(), None),
            FromWidgetRequest::ContentLoaded(_) => ("fromWidget", "content_loaded", empty_object(), None),
            FromWidgetRequest::GetOpenId(_) => ("fromWidget", "get_openid", empty_object(), None),
            FromWidgetRequest::SendEvent(x) => ("fromWidget", "send_event", x.to_json(), None),
            FromWidgetRequest::ReadEvent(x) => ("fromWidget", "read_events", x.to_json(), None),
        },
        MessageBody::FromWidgetResponse(r) => match r {
            FromWidgetResponse::GetSupportedApiVersion(x) => {
                let (d, p) = response_parts(x);
                ("fromWidget", "supported_api_versions", d, p)
            },
            FromWidgetResponse::ContentLoaded(x) => {
                let (d, p) = response_parts(x);
                ("fromWidget", "content_loaded", d, p)
            },
            FromWidgetResponse::GetOpenId(x) => {
                let (d, p) = response_parts(x);
                ("fromWidget", "get_openid", d, p)
            },
            FromWidgetResponse::SendEvent(x) => {
                let (d, p) = response_parts(x);
                ("fromWidget", "send_event", d, p)
            },
            FromWidgetResponse::ReadEvent(x) => {
                let (d, p) = response_parts(x);
                ("fromWidget", "read_events", d, p)
            },
        },
        MessageBody::ToWidgetRequest(r) => match r {
            ToWidgetRequest::CapabilitiesRequest(_) => ("toWidget", "capabilities", empty_object(), None),
            ToWidgetRequest::CapabilitiesUpdate(x) => ("toWidget", "notify_capabilities", x.to_json(), None),
            ToWidgetRequest::OpenIdCredentialsUpdate(x) => ("toWidget", "openid_credentials", x.to_json(), None),
            ToWidgetRequest::SendEvent(x) => ("toWidget", "send_event", x.deep_clone(), None),
        },
        MessageBody::ToWidgetResponse(r) => match r {
            ToWidgetResponse::CapabilitiesRequest(x) => {
                let (d, p) = response_parts(x);
                ("toWidget", "capabilities", d, p)
            },
            ToWidgetResponse::CapabilitiesUpdate(x) => {
                let (d, p) = response_parts(x);
                ("toWidget", "notify_capabilities", d, p)
            },
            ToWidgetResponse::OpenIdCredentialsUpdate(x) => {
                let (d, p) = response_parts(x);
                ("toWidget", "openid_credentials", d, p)
            },
            ToWidgetResponse::SendEvent(x) => {
                let (d, p) = response_parts(x);
                ("toWidget", "send_event", d, p)
            },
        },
    }
}

impl Message {
    /// The JSON form of this message.
    pub fn to_json(&self) -> (r: Json)
        ensures
            r@ == message_json(self@),
    {
        let (api, action, data, response) = frame_parts(&self.body);
        let mut entries: Vec<(String, Json)> = Vec::new();
        entries.push(("api".to_owned(), Json::Str(api.to_owned())));
        entries.push(("requestId".to_owned(), Json::Str(self.header.request_id.clone())));
        entries.push(("widgetId".to_owned(), Json::Str(self.header.widget_id.clone())));
        entries.push(("action".to_owned(), Json::Str(action.to_owned())));
        entries.push(("data".to_owned(), data));
        match response {
            Some(resp) => entries.push(("response".to_owned(), resp)),
            None => {},
        }
        let r = Json::object(entries);
        assert(crate::json::entries_view(entries@) =~= message_json(self@)->Object_0);
        r
    }

    /// The message that a JSON value stands for, where it stands for one.
    pub fn from_json(j: &Json) -> (r: Option<Message>)
        ensures
            r matches Some(m) ==> message_of(j@) == Some(m@),
            r is None ==> message_of(j@) is None,
    {
        let api = get_string(j, "api");
        let request_id = get_string(j, "requestId");
        let widget_id = get_string(j, "widgetId");
        let action = get_string(j, "action");
        let data = j.get("data");
        let (api, request_id, widget_id, action, data) = match (api, request_id, widget_id, action, data) {
            (Some(a), Some(r), Some(w), Some(c), Some(d)) => (a, r, w, c, d),
            _ => return None,
        };
        let response = j.get("response");
        let ghost f = Frame { api: api@, action: action@, data: data@, response: get(j@, "response"@) };
        let body = if str_eq(api.as_str(), "fromWidget") {
            match response {
                None => match from_widget_request_from(action.as_str(), data) {
                    Some(r) => MessageBody::FromWidgetRequest(r),
                    None => return None,
                },
                Some(resp) => match from_widget_response_from(action.as_str(), data, resp) {
                    Some(r) => MessageBody::FromWidgetResponse(r),
                    None => return None,
                },
            }
        } else if str_eq(api.as_str(), "toWidget") {
            match response {
                None => match to_widget_request_from(action.as_str(), data) {
                    Some(r) => MessageBody::ToWidgetRequest(r),
                    None => return None,
                },
                Some(resp) => match to_widget_response_from(action.as_str(), data, resp) {
                    Some(r) => MessageBody::ToWidgetResponse(r),
                    None => return None,
                },
            }
        } else {
            return None;
        };
        assert(body_of_frame(f) == Some(body@));
        Some(Message { header: Header { request_id, widget_id }, body })
    }

    /// The text that stands for this message on the wire.
    pub fn encode(&self) -> (r: String)
        ensures
            r@ == encoded(self@),
    {
        print_json(self.to_json())
    }

    /// The message that a text stands for. Text that is no JSON fails with the parser's
    /// description of the fault.
    pub fn decode(text: &str) -> (r: Result<Message, DecodeError>)
        ensures
            r matches Ok(m) ==> decoded(text@) == Some(m@),
            r is Err <==> decoded(text@) is None,
            json_parsed(text@) matches Err(e) ==> r matches Err(d) && d.message@ == e,
            json_parsed(text@) is Ok ==> (r matches Err(d) ==> d.message@ == NOT_A_MESSAGE@),
    {
        match parse_json(text) {
            Ok(j) => match Message::from_json(&j) {
                Some(m) => Ok(m),
                None => Err(DecodeError { message: NOT_A_MESSAGE.to_owned() }),
            },
            Err(e) => Err(DecodeError { message: e }),
        }
    }
}

fn from_widget_request_from(action: &str, data: &Json) -> (r: Option<FromWidgetRequest>)
    ensures
        r matches Some(x) ==> from_widget_request_of(action@, data@) == Some(x@),
        r is None ==> from_widget_request_of(action@, data@) is None,
{
    if str_eq(action, "supported_api_versions") {
        match Empty::from_json(data) {
            Some(e) => Some(FromWidgetRequest::GetSupportedApiVersion(e)),
            None => None,
        }
    } else if str_eq(action, "content_loaded") {
        match Empty::from_json(data) {
            Some(e) => Some(FromWidgetRequest::ContentLoaded(e)),
            None => None,
        }
    } else if str_eq(action, "get_openid") {
        match Empty::from_json(data) {
            Some(e) => Some(FromWidgetRequest::GetOpenId(e)),
            None => None,
        }
    } else if str_eq(action, "send_event") {
        match SendEventRequest::from_json(data) {
            Some(x) => Some(FromWidgetRequest::SendEvent(x)),
            None => None,
        }
    } else if str_eq(action, "read_events") {
        match ReadEventRequest::from_json(data) {
            Some(x) => Some(FromWidgetRequest::ReadEvent(x)),
            None => None,
        }
    } else {
        None
    }
}

fn from_widget_response_from(action: &str, data: &Json, resp: &Json) -> (r: Option<FromWidgetResponse>)
    ensures
        r matches Some(x) ==> from_widget_response_of(action@, data@, resp@) == Some(x@),
        r is None ==> from_widget_response_of(action@, data@, resp@) is None,
{
    if str_eq(action, "supported_api_versions") {
        match response_from(data, resp) {
            Some(x) => Some(FromWidgetResponse::GetSupportedApiVersion(x)),
            None => None,
        }
    } else if str_eq(action, "content_loaded") {
        match response_from(data, resp) {
            Some(x) => Some(FromWidgetResponse::ContentLoaded(x)),
            None => None,
        }
    } else if str_eq(action, "get_openid") {
        match response_from(data, resp) {
            Some(x) => Some(FromWidgetResponse::GetOpenId(x)),
            None => None,
        }
    } else if str_eq(action, "send_event") {
        match response_from(data, resp) {
            Some(x) => Some(FromWidgetResponse::SendEvent(x)),
            None => None,
        }
    } else if str_eq(action, "read_events") {
        match response_from(data, resp) {
            Some(x) => Some(FromWidgetResponse::ReadEvent(x)),
            None => None,
        }
    } else {
        None
    }
}

fn to_widget_request_from(action: &str, data: &Json) -> (r: Option<ToWidgetRequest>)
    ensures
        r matches Some(x) ==> to_widget_request_of(action@, data@) == Some(x@),
        r is None ==> to_widget_request_of(action@, data@) is None,
{
    if str_eq(action, "capabilities") {
        match Empty::from_json(data) {
            Some(e) => Some(ToWidgetRequest::CapabilitiesRequest(e)),
            None => None,
        }
    } else if str_eq(action, "notify_capabilities") {
        match CapabilitiesUpdatedRequest::from_json(data) {
            Some(x) => Some(ToWidgetRequest::CapabilitiesUpdate(x)),
            None => None,
        }
    } else if str_eq(action, "openid_credentials") {
        match OpenIdResponse::from_json(data) {
            Some(x) => Some(ToWidgetRequest::OpenIdCredentialsUpdate(x)),
            None => None,
        }
    } else if str_eq(action, "send_event") {
        Some(ToWidgetRequest::SendEvent(data.deep_clone()))
    } else {
        None
    }
}

fn to_widget_response_from(action: &str, data: &Json, resp: &Json) -> (r: Option<ToWidgetResponse>)
    ensures
        r matches Some(x) ==> to_widget_response_of(action@, data@, resp@) == Some(x@),
        r is None ==> to_widget_response_of(action@, data@, resp@) is None,
{
    if str_eq(action, "capabilities") {
        match response_from(data, resp) {
            Some(x) => Some(ToWidgetResponse::CapabilitiesRequest(x)),
            None => None,
        }
    } else if str_eq(action, "notify_capabilities") {
        match response_from(data, resp) {
            Some(x) => Some(ToWidgetResponse::CapabilitiesUpdate(x)),
            None => None,
        }
    } else if str_eq(action, "openid_credentials") {
        match response_from(data, resp) {
            Some(x) => Some(ToWidgetResponse::OpenIdCredentialsUpdate(x)),
            None => None,
        }
    } else if str_eq(action, "send_event") {
        match response_from(data, resp) {
            Some(x) => Some(ToWidgetResponse::SendEvent(x)),
            None => None,
        }
    } else {
        None
    }
}

/// Whether every part of a message reads back from its JSON form as itself: the filters of the
/// capability sets that it carries read back from their capability strings.
pub open spec fn message_wire_ok(m: MessageV) -> bool {
    match m.body {
        MessageBodyV::ToWidgetRequest(ToWidgetRequestV::CapabilitiesUpdate(u)) => CapabilitiesUpdatedRequest::wire_ok(u),
        MessageBodyV::ToWidgetResponse(ToWidgetResponseV::CapabilitiesRequest(x)) => match x.response {
            Ok(p) => crate::permissions::permissions_wire_ok(p),
            Err(_) => true,
        },
        MessageBodyV::ToWidgetResponse(ToWidgetResponseV::CapabilitiesUpdate(x)) => CapabilitiesUpdatedRequest::wire_ok(x.request),
        _ => true,
    }
}

proof fn lemma_response_round_trip<Q: Payload, P: Payload>(x: ResponseV<Q::V, P::V>)
    requires
        Q::wire_ok(x.request),
        P::answers(),
        x.response matches Ok(v) ==> P::wire_ok(v),
    ensures
        response_of::<Q, P>(Q::json_of(x.request), body_json::<P>(x.response)) == Some(x),
{
    Q::lemma_round_trip(x.request);
    crate::codec::lemma_body_round_trip::<P>(x.response);
}

proof fn lemma_body_of_frame(b: MessageBodyV)
    requires
        message_wire_ok(MessageV { header: HeaderV { request_id: Seq::empty(), widget_id: Seq::empty() }, body: b }),
    ensures
        body_of_frame(frame_of(b)) == Some(b),
{
    crate::codec::lemma_wire_names();
    match b {
        MessageBodyV::FromWidgetRequest(r) => match r {
            FromWidgetRequestV::SendEvent(s) => SendEventRequest::lemma_round_trip(s),
            FromWidgetRequestV::ReadEvent(s) => ReadEventRequest::lemma_round_trip(s),
            _ => {},
        },
        MessageBodyV::FromWidgetResponse(r) => match r {
            FromWidgetResponseV::GetSupportedApiVersion(x) => lemma_response_round_trip::<Empty, SupportedApiVersionsResponse>(x),
            FromWidgetResponseV::ContentLoaded(x) => lemma_response_round_trip::<Empty, Empty>(x),
            FromWidgetResponseV::GetOpenId(x) => lemma_response_round_trip::<Empty, OpenIdResponse>(x),
            FromWidgetResponseV::SendEvent(x) => lemma_response_round_trip::<SendEventRequest, SendEventResponse>(x),
            FromWidgetResponseV::ReadEvent(x) => lemma_response_round_trip::<ReadEventRequest, ReadEventResponse>(x),
        },
        MessageBodyV::ToWidgetRequest(r) => match r {
            ToWidgetRequestV::CapabilitiesUpdate(s) => CapabilitiesUpdatedRequest::lemma_round_trip(s),
            ToWidgetRequestV::OpenIdCredentialsUpdate(s) => OpenIdResponse::lemma_round_trip(s),
            _ => {},
        },
        MessageBodyV::ToWidgetResponse(r) => match r {
            ToWidgetResponseV::CapabilitiesRequest(x) => lemma_response_round_trip::<Empty, CapabilitiesResponse>(x),
            ToWidgetResponseV::CapabilitiesUpdate(x) => lemma_response_round_trip::<CapabilitiesUpdatedRequest, Empty>(x),
            ToWidgetResponseV::OpenIdCredentialsUpdate(x) => lemma_response_round_trip::<OpenIdResponse, Empty>(x),
            ToWidgetResponseV::SendEvent(x) => lemma_response_round_trip::<Json, Empty>(x),
        },
    }
}

/// Encoding then decoding gives back the message: for every kind of message, the JSON form of
/// a message whose capability sets read back reads back as the same header and payload.
pub proof fn lemma_message_round_trip(m: MessageV)
    requires
        message_wire_ok(m),
    ensures
        message_of(message_json(m)) == Some(m),
{
    crate::codec::lemma_wire_names();
    let f = frame_of(m.body);
    let es = message_json(m)->Object_0;
    crate::json::lemma_fields_distinct(es);
    assert(es[0].0 == "api"@);
    assert(es[1].0 == "requestId"@);
    assert(es[2].0 == "widgetId"@);
    assert(es[3].0 == "action"@);
    assert(es[4].0 == "data"@);
    if f.response is Some {
        assert(es[5].0 == "response"@);
    } else {
        crate::json::lemma_field_absent(es, "response"@);
    }
    lemma_body_of_frame(m.body);
    assert(Frame { api: f.api, action: f.action, data: f.data, response: get(message_json(m), "response"@) } == f);
}

} // verus!

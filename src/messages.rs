//! The payload types of the widget protocol.
use vstd::prelude::*;

use crate::json::{Json, JsonV};
use crate::permissions::{Permissions, PermissionsV};

verus! {

/// The correlation part of every message.
pub struct Header {
    /// Chosen by the side that starts a request, echoed verbatim in the reply.
    pub request_id: String,
    /// The widget the message concerns.
    pub widget_id: String,
}

pub ghost struct HeaderV {
    pub request_id: Seq<char>,
    pub widget_id: Seq<char>,
}

impl View for Header {
    type V = HeaderV;

    open spec fn view(&self) -> HeaderV {
        HeaderV { request_id: self.request_id@, widget_id: self.widget_id@ }
    }
}

impl Header {
    pub fn new(request_id: String, widget_id: String) -> (r: Header)
        ensures
            r.request_id == request_id,
            r.widget_id == widget_id,
    {
        Header { request_id, widget_id }
    }
}

/// A payload without fields.
pub struct Empty {}

/// The text of a declared failure.
pub struct ErrorContent {
    pub message: String,
}

/// A declared failure, as it stands in a reply.
pub struct ErrorBody {
    pub error: ErrorContent,
}

impl ErrorBody {
    pub fn new(message: &str) -> (r: ErrorBody)
        ensures
            r.error.message@ == message@,
    {
        ErrorBody { error: ErrorContent { message: message.to_owned() } }
    }

    pub fn message(&self) -> (r: &str)
        ensures
            r@ == self.error.message@,
    {
        self.error.message.as_str()
    }
}

/// What a reply carries: a result, or a declared failure.
pub enum ResponseBody<T> {
    Success(T),
    Failure(ErrorBody),
}

/// The payload of a request.
pub struct Request<T> {
    pub content: T,
}

impl<T> Request<T> {
    pub fn new(content: T) -> (r: Request<T>)
        ensures
            r.content == content,
    {
        Request { content }
    }

    /// Builds the reply to this request: the request's payload is echoed back.
    pub fn map<R>(self, response: Result<R, String>) -> (r: Response<T, R>)
        ensures
            r.request == self.content,
            response matches Ok(v) ==> r.response == ResponseBody::<R>::Success(v),
            response matches Err(e) ==> r.response matches ResponseBody::Failure(b)
                && b.error.message@ == e@,
    {
        Response {
            request: self.content,
            response: match response {
                Ok(v) => ResponseBody::Success(v),
                Err(e) => ResponseBody::Failure(ErrorBody { error: ErrorContent { message: e } }),
            },
        }
    }
}

/// A reply: the echoed request payload and the outcome.
pub struct Response<Req, Resp> {
    pub request: Req,
    pub response: ResponseBody<Resp>,
}

impl<Req, Resp> Response<Req, Resp> {
    /// The outcome as a `Result`: the failure's message on a declared failure.
    pub fn result(self) -> (r: Result<Resp, String>)
        ensures
            self.response matches ResponseBody::Success(v) ==> r == Ok::<Resp, String>(v),
            self.response matches ResponseBody::Failure(b) ==> r matches Err(e)
                && e@ == b.error.message@,
    {
        match self.response {
            ResponseBody::Success(v) => Ok(v),
            ResponseBody::Failure(b) => Err(b.error.message),
        }
    }

    /// Whether the reply declares a failure, and with which message.
    pub fn response(&self) -> (r: Option<String>)
        ensures
            self.response is Success ==> r is None,
            self.response matches ResponseBody::Failure(b) ==> r matches Some(e)
                && e@ == b.error.message@,
    {
        match &self.response {
            ResponseBody::Success(_) => None,
            ResponseBody::Failure(b) => Some(b.error.message.clone()),
        }
    }
}

/// Data that travels together with the header of the message it came in.
pub struct WithHeader<T> {
    pub header: Header,
    pub data: T,
}

impl<T> WithHeader<T> {
    pub fn new(header: Header, data: T) -> (r: WithHeader<T>)
        ensures
            r.header == header,
            r.data == data,
    {
        WithHeader { header, data }
    }

    /// Replaces the data and keeps the header.
    pub fn map<U>(self, data: U) -> (r: WithHeader<U>)
        ensures
            r.header == self.header,
            r.data == data,
    {
        WithHeader { header: self.header, data }
    }
}

/// The identity token handed to a widget.
pub struct OpenIdState {
    /// The id of the widget request that asked for the token.
    pub id: String,
    pub token: String,
    pub expires_in_seconds: u32,
    pub server: String,
    pub kind: String,
}

/// The answer to a widget's request for an identity token.
pub enum OpenIdResponse {
    Allowed(OpenIdState),
    Blocked,
    Pending,
}

/// The protocol versions this side speaks.
#[derive(Clone, Copy, PartialEq, Eq, Structural, Debug)]
pub enum ApiVersion {
    V0_0_1,
    V0_0_2,
    Msc2762,
    Msc2871,
    Msc3819,
}

pub struct SupportedApiVersionsResponse {
    pub versions: Vec<ApiVersion>,
}

impl SupportedApiVersionsResponse {
    /// The fixed list of supported versions.
    pub fn new() -> (r: SupportedApiVersionsResponse)
        ensures
            r.versions@ == supported_versions(),
    {
        SupportedApiVersionsResponse {
            versions: vec![
                ApiVersion::V0_0_1,
                ApiVersion::V0_0_2,
                ApiVersion::Msc2762,
                ApiVersion::Msc2871,
                ApiVersion::Msc3819,
            ],
        }
    }
}

pub open spec fn supported_versions() -> Seq<ApiVersion> {
    seq![
        ApiVersion::V0_0_1,
        ApiVersion::V0_0_2,
        ApiVersion::Msc2762,
        ApiVersion::Msc2871,
        ApiVersion::Msc3819,
    ]
}

/// The widget's answer to a capabilities request: what it would like to have.
pub struct CapabilitiesResponse {
    pub capabilities: Permissions,
}

/// What the host tells the widget once it has decided on its capabilities.
pub struct CapabilitiesUpdatedRequest {
    pub requested: Permissions,
    pub approved: Permissions,
}

/// Which state keys a read of state events asks for.
pub enum StateKeySelector {
    Any,
    Key(String),
}

/// A widget's request to read room events.
pub struct ReadEventRequest {
    pub event_type: String,
    /// Present for a read of state events.
    pub state_key: Option<StateKeySelector>,
    pub limit: Option<u32>,
}

pub struct ReadEventResponse {
    pub events: Vec<Json>,
}

/// A widget's request to send a room event.
pub struct SendEventRequest {
    pub event_type: String,
    /// Present for a state event.
    pub state_key: Option<String>,
    pub content: Json,
}

pub struct SendEventResponse {
    pub room_id: String,
    pub event_id: String,
}

impl View for Empty {
    type V = ();

    open spec fn view(&self) -> () {
        ()
    }
}

impl<T: View> View for ResponseBody<T> {
    type V = Result<T::V, Seq<char>>;

    open spec fn view(&self) -> Result<T::V, Seq<char>> {
        match self {
            ResponseBody::Success(v) => Ok(v@),
            ResponseBody::Failure(b) => Err(b.error.message@),
        }
    }
}

pub ghost struct ResponseV<Q, P> {
    pub request: Q,
    pub response: Result<P, Seq<char>>,
}

impl<Req: View, Resp: View> View for Response<Req, Resp> {
    type V = ResponseV<Req::V, Resp::V>;

    open spec fn view(&self) -> ResponseV<Req::V, Resp::V> {
        ResponseV { request: self.request@, response: self.response@ }
    }
}

pub ghost struct OpenIdStateV {
    pub id: Seq<char>,
    pub token: Seq<char>,
    pub expires_in_seconds: u32,
    pub server: Seq<char>,
    pub kind: Seq<char>,
}

impl View for OpenIdState {
    type V = OpenIdStateV;

    open spec fn view(&self) -> OpenIdStateV {
        OpenIdStateV {
            id: self.id@,
            token: self.token@,
            expires_in_seconds: self.expires_in_seconds,
            server: self.server@,
            kind: self.kind@,
        }
    }
}

pub ghost enum OpenIdResponseV {
    Allowed(OpenIdStateV),
    Blocked,
    Pending,
}

impl View for OpenIdResponse {
    type V = OpenIdResponseV;

    open spec fn view(&self) -> OpenIdResponseV {
        match self {
            OpenIdResponse::Allowed(s) => OpenIdResponseV::Allowed(s@),
            OpenIdResponse::Blocked => OpenIdResponseV::Blocked,
            OpenIdResponse::Pending => OpenIdResponseV::Pending,
        }
    }
}

impl View for SupportedApiVersionsResponse {
    type V = Seq<ApiVersion>;

    open spec fn view(&self) -> Seq<ApiVersion> {
        self.versions@
    }
}

impl View for CapabilitiesResponse {
    type V = PermissionsV;

    open spec fn view(&self) -> PermissionsV {
        self.capabilities@
    }
}

pub ghost struct CapabilitiesUpdateV {
    pub requested: PermissionsV,
    pub approved: PermissionsV,
}

impl View for CapabilitiesUpdatedRequest {
    type V = CapabilitiesUpdateV;

    open spec fn view(&self) -> CapabilitiesUpdateV {
        CapabilitiesUpdateV { requested: self.requested@, approved: self.approved@ }
    }
}

pub ghost enum StateKeySelectorV {
    Any,
    Key(Seq<char>),
}

pub ghost struct ReadEventRequestV {
    pub event_type: Seq<char>,
    pub state_key: Option<StateKeySelectorV>,
    pub limit: Option<u32>,
}

impl View for ReadEventRequest {
    type V = ReadEventRequestV;

    open spec fn view(&self) -> ReadEventRequestV {
        ReadEventRequestV {
            event_type: self.event_type@,
            state_key: match self.state_key {
                Some(StateKeySelector::Any) => Some(StateKeySelectorV::Any),
                Some(StateKeySelector::Key(k)) => Some(StateKeySelectorV::Key(k@)),
                None => None,
            },
            limit: self.limit,
        }
    }
}

impl View for ReadEventResponse {
    type V = Seq<JsonV>;

    open spec fn view(&self) -> Seq<JsonV> {
        crate::json::items_view(self.events@)
    }
}

pub ghost struct SendEventRequestV {
    pub event_type: Seq<char>,
    pub state_key: Option<Seq<char>>,
    pub content: JsonV,
}

impl View for SendEventRequest {
    type V = SendEventRequestV;

    open spec fn view(&self) -> SendEventRequestV {
        SendEventRequestV {
            event_type: self.event_type@,
            state_key: crate::filter::opt_view(self.state_key),
            content: self.content@,
        }
    }
}

pub ghost struct SendEventResponseV {
    pub room_id: Seq<char>,
    pub event_id: Seq<char>,
}

impl View for SendEventResponse {
    type V = SendEventResponseV;

    open spec fn view(&self) -> SendEventResponseV {
        SendEventResponseV { room_id: self.room_id@, event_id: self.event_id@ }
    }
}

} // verus!

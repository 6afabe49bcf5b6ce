//! The host's state machine for one widget session: it turns incoming events into the actions
//! that the driver performs.
use vstd::prelude::*;

use crate::codec::{error_json, error_to_json, get_string, str_of};
use crate::filter::{
    any_filter_matches, any_matches, filters_view, opt_view, EventFilter, FilterInputV,
    MatrixEventContent, MatrixEventFilterInput,
};
use crate::json::{entries_view, get, json_parsed, json_printed, parse_json, print_json, Json, JsonV};
use crate::messages::{
    CapabilitiesUpdatedRequest, Empty, Header, HeaderV, OpenIdResponse, OpenIdState,
    ReadEventRequest, ReadEventRequestV, ReadEventResponse, ResponseV, SendEventRequest,
    SendEventResponse, StateKeySelector, StateKeySelectorV, SupportedApiVersionsResponse,
};
use crate::pending::PendingTable;
use crate::permissions::{Permissions, PermissionsV};
use crate::wire::{
    decoded, encoded, FromWidgetRequest, FromWidgetRequestV, FromWidgetResponse,
    FromWidgetResponseV, Message, MessageBody, MessageBodyV, MessageV, ToWidgetRequest,
    ToWidgetRequestV, ToWidgetResponse, ToWidgetResponseV,
};

verus! {

/// How long the widget has to answer a host-initiated request, in seconds.
pub const REPLY_TIMEOUT_SECONDS: u64 = 10;

/// The page size of a read when the widget names none and asks for one state event by key.
pub const STATE_KEY_READ_LIMIT: u32 = 1;

/// The page size of a read when the widget names none otherwise.
pub const DEFAULT_READ_LIMIT: u32 = 50;

pub const ALREADY_LOADED: &'static str = "Already loaded";

pub const NOT_NEGOTIATED: &'static str = "Capabilities have not been negotiated";

pub const NO_READ_PERMISSION: &'static str = "No permissions to read events";

pub const NOT_ALLOWED: &'static str = "Not allowed";

pub const UNEXPECTED_RESPONSE: &'static str = "Unexpected response from a widget";

pub const INVALID_RESPONSE: &'static str = "Invalid response from a widget";

/// Where a session stands in the capability negotiation.
pub enum SessionState {
    Uninitialized,
    /// One negotiation is in flight.
    Negotiating,
    /// The capabilities that the host approved.
    Initialized(Permissions),
    /// The transport closed; nothing more happens.
    Disconnected,
}

pub ghost enum SessionStateV {
    Uninitialized,
    Negotiating,
    Initialized(PermissionsV),
    Disconnected,
}

impl View for SessionState {
    type V = SessionStateV;

    open spec fn view(&self) -> SessionStateV {
        match self {
            SessionState::Uninitialized => SessionStateV::Uninitialized,
            SessionState::Negotiating => SessionStateV::Negotiating,
            SessionState::Initialized(p) => SessionStateV::Initialized(p@),
            SessionState::Disconnected => SessionStateV::Disconnected,
        }
    }
}

/// The kind of a host-initiated request, which its reply must match.
#[derive(Clone, Copy, PartialEq, Eq, Structural, Debug)]
pub enum ToWidgetAction {
    CapabilitiesRequest,
    CapabilitiesUpdate,
    OpenIdCredentialsUpdate,
    SendEvent,
}

pub open spec fn action_of(r: ToWidgetRequestV) -> ToWidgetAction {
    match r {
        ToWidgetRequestV::CapabilitiesRequest => ToWidgetAction::CapabilitiesRequest,
        ToWidgetRequestV::CapabilitiesUpdate(_) => ToWidgetAction::CapabilitiesUpdate,
        ToWidgetRequestV::OpenIdCredentialsUpdate(_) => ToWidgetAction::OpenIdCredentialsUpdate,
        ToWidgetRequestV::SendEvent(_) => ToWidgetAction::SendEvent,
    }
}

/// Why a host-initiated request failed.
pub enum ProxyError {
    /// The transport is closed.
    WidgetDisconnected,
    /// No reply came within the bound.
    Timeout,
    /// The reply is of another kind than the request.
    InvalidResponse,
    /// The widget declared a failure, with this message.
    WidgetErrorReply(String),
}

/// A request to read room events, handed to the client.
pub struct ReadEventCommand {
    pub event_type: String,
    pub limit: u32,
}

/// A request to send a room event, handed to the client.
pub struct SendEventCommand {
    pub event_type: String,
    pub state_key: Option<String>,
    pub content: Json,
}

/// An identity token as the client fetched it.
pub struct OpenIdToken {
    pub access_token: String,
    pub expires_in_seconds: u32,
    pub matrix_server_name: String,
    pub token_type: String,
}

/// Work handed to the client; its result comes back under the same id.
pub struct Command<T> {
    id: String,
    data: T,
}

/// The result of a command, under the command's id.
pub struct CommandResult<T> {
    id: String,
    result: Result<T, String>,
}

impl<T> Command<T> {
    pub closed spec fn spec_id(&self) -> Seq<char> {
        self.id@
    }

    pub closed spec fn spec_data(&self) -> T {
        self.data
    }

    /// The data of the command.
    pub fn data(&self) -> (r: &T)
        ensures
            *r == self.spec_data(),
    {
        &self.data
    }

    /// The id that the result comes back under.
    pub fn id(&self) -> (r: &str)
        ensures
            r@ == self.spec_id(),
    {
        self.id.as_str()
    }

    /// Consumes the command and gives its result, failure or not.
    pub fn result<U>(self, result: Result<U, String>) -> (r: CommandResult<U>)
        ensures
            r.spec_id() == self.spec_id(),
            r.spec_result() == result,
    {
        CommandResult { id: self.id, result }
    }

    /// Consumes the command and gives its successful result.
    pub fn ok<U>(self, value: U) -> (r: CommandResult<U>)
        ensures
            r.spec_id() == self.spec_id(),
            r.spec_result() == Ok::<U, String>(value),
    {
        CommandResult { id: self.id, result: Ok(value) }
    }
}

impl<T> CommandResult<T> {
    pub closed spec fn spec_id(&self) -> Seq<char> {
        self.id@
    }

    pub closed spec fn spec_result(&self) -> Result<T, String> {
        self.result
    }
}

/// Something that happened and that the session must take into account.
pub enum Event {
    /// A raw message from the widget.
    MessageFromWidget(String),
    /// A room event of the live subscription, as raw JSON.
    MatrixEventReceived(String),
    /// The capabilities that the host approved.
    PermissionsAcquired(CommandResult<Permissions>),
    /// An identity token, or why none came.
    OpenIdReceived(CommandResult<OpenIdToken>),
    /// Room events as raw JSON, in order.
    MatrixEventRead(CommandResult<Vec<String>>),
    /// The id of a sent room event.
    MatrixEventSent(CommandResult<String>),
    /// The bound passed for the host-initiated request with this id.
    ReplyTimedOut(String),
}

/// What the driver must do.
pub enum Action {
    /// Send a raw message to the widget.
    SendToWidget(String),
    /// Send a raw host-initiated request to the widget, and report with `ReplyTimedOut` once
    /// the bound has passed.
    SendRequestToWidget { request_id: String, message: String },
    /// Ask the host's policy which of the desired capabilities to approve.
    AcquirePermissions(Command<Permissions>),
    /// Fetch an identity token.
    GetOpenId(Command<()>),
    /// Read room events.
    ReadMatrixEvent(Command<ReadEventCommand>),
    /// Send a room event.
    SendMatrixEvent(Command<SendEventCommand>),
    /// Forward the room's new events that match these filters.
    Subscribe(Vec<EventFilter>),
}

/// What the session does with the result of a command.
pub enum CommandPurpose {
    Negotiation { desired: Permissions },
    OpenId { request_id: String },
    ReadEvents { header: Header, read: ReadEventRequest },
    SendEvent { header: Header, send: SendEventRequest },
}

/// The out-of-band error message: the widget's id and the failure, with no request id.
pub open spec fn oob_error_json(widget_id: Seq<char>, message: Seq<char>) -> JsonV {
    JsonV::Object(seq![("widgetId"@, JsonV::Str(widget_id)), ("response"@, error_json(message))])
}

/// The text of the out-of-band error message.
pub fn oob_error_text(widget_id: &String, message: &String) -> (r: String)
    ensures
        r@ == json_printed(oob_error_json(widget_id@, message@)),
{
    let mut entries: Vec<(String, Json)> = Vec::new();
    entries.push(("widgetId".to_owned(), Json::Str(widget_id.clone())));
    entries.push(("response".to_owned(), error_to_json(message)));
    let j = Json::object(entries);
    assert(crate::json::entries_view(entries@) =~= oob_error_json(widget_id@, message@)->Object_0);
    print_json(j)
}

/// Relies on `uuid::Uuid::new_v4` and the `Display` of `Uuid`: a random id as text.
#[verifier::external_body]
fn random_id() -> (r: String) {
    uuid::Uuid::new_v4().to_string()
}

/// The text of a reply of the host.
pub open spec fn reply_text(h: HeaderV, r: FromWidgetResponseV) -> Seq<char> {
    encoded(MessageV { header: h, body: MessageBodyV::FromWidgetResponse(r) })
}

/// The filter input of an event, where the event has a string type.
pub open spec fn event_input(j: JsonV) -> Option<FilterInputV> {
    match str_of(get(j, "type"@)) {
        Some(event_type) => Some(
            FilterInputV {
                event_type,
                state_key: str_of(get(j, "state_key"@)),
                msgtype: match get(j, "content"@) {
                    Some(c) => str_of(get(c, "msgtype"@)),
                    None => None,
                },
            },
        ),
        None => None,
    }
}

/// The parts of an event that filters look at, where the event has a string type.
pub fn event_filter_input(j: &Json) -> (r: Option<MatrixEventFilterInput>)
    ensures
        r matches Some(x) ==> event_input(j@) == Some(x@),
        r is None ==> event_input(j@) is None,
{
    let event_type = match get_string(j, "type") {
        Some(t) => t,
        None => return None,
    };
    let state_key = get_string(j, "state_key");
    let msgtype = match j.get("content") {
        Some(c) => get_string(c, "msgtype"),
        None => None,
    };
    Some(MatrixEventFilterInput { event_type, state_key, content: MatrixEventContent { msgtype } })
}

/// Whether a read keeps an event: the read filters let it through and, for a read of one state
/// key, the event has that key.
pub open spec fn read_keeps(read: Seq<crate::filter::EventFilterV>, req: ReadEventRequestV, j: JsonV) -> bool {
    match event_input(j) {
        Some(e) => any_filter_matches(read, e) && match req.state_key {
            Some(StateKeySelectorV::Key(k)) => e.state_key == Some(k),
            _ => true,
        },
        None => false,
    }
}

/// The events that a read hands the widget: those of the page that parse as JSON and that the
/// read keeps, in order.
pub open spec fn read_result(
    read: Seq<crate::filter::EventFilterV>,
    req: ReadEventRequestV,
    raw: Seq<Seq<char>>,
) -> Seq<JsonV>
    decreases raw.len(),
{
    if raw.len() == 0 {
        Seq::empty()
    } else {
        let prev = read_result(read, req, raw.drop_last());
        match json_parsed(raw.last()) {
            Ok(j) => if read_keeps(read, req, j) {
                prev.push(j)
            } else {
                prev
            },
            Err(_) => prev,
        }
    }
}

/// The events of a page that a read hands the widget.
pub fn filter_read_events(read: &Vec<EventFilter>, req: &ReadEventRequest, raw: &Vec<String>) -> (r: Vec<Json>)
    ensures
        crate::json::items_view(r@) == read_result(filters_view(read@), req@, raw@.map_values(|s: String| s@)),
{
    let mut out: Vec<Json> = Vec::new();
    let mut i: usize = 0;
    proof {
        crate::json::lemma_items_view(out@);
        assert(raw@.map_values(|s: String| s@).subrange(0, 0) =~= Seq::<Seq<char>>::empty());
        assert(crate::json::items_view(out@) =~= Seq::<JsonV>::empty());
    }
    while i < raw.len()
        invariant
            i <= raw@.len(),
            crate::json::items_view(out@) == read_result(filters_view(read@), req@, raw@.map_values(|s: String| s@).subrange(0, i as int)),
        decreases raw@.len() - i,
    {
        let ghost sub = raw@.map_values(|s: String| s@).subrange(0, i + 1);
        assert(sub.drop_last() =~= raw@.map_values(|s: String| s@).subrange(0, i as int));
        assert(sub.last() == raw@[i as int]@);
        let ghost before = out@;
        match parse_json(raw[i].as_str()) {
            Ok(j) => {
                let keep = match event_filter_input(&j) {
                    Some(input) => any_matches(read, &input) && match &req.state_key {
                        Some(StateKeySelector::Key(k)) => match &input.state_key {
                            Some(sk) => crate::text::str_eq(sk.as_str(), k.as_str()),
                            None => false,
                        },
                        _ => true,
                    },
                    None => false,
                };
                if keep {
                    out.push(j);
                    proof {
                        crate::json::lemma_items_view(out@);
                        crate::json::lemma_items_view(before);
                        assert(crate::json::items_view(out@) =~= crate::json::items_view(before).push(j@));
                    }
                }
            },
            Err(_) => {},
        }
        i = i + 1;
    }
    assert(raw@.map_values(|s: String| s@).subrange(0, raw@.len() as int) =~= raw@.map_values(|s: String| s@));
    out
}

/// The page size of a read: the widget's own, else one for a read of one state key, else the
/// default.
pub open spec fn read_limit(req: ReadEventRequestV) -> u32 {
    match req.limit {
        Some(l) => l,
        None => match req.state_key {
            Some(StateKeySelectorV::Key(_)) => STATE_KEY_READ_LIMIT,
            _ => DEFAULT_READ_LIMIT,
        },
    }
}

fn read_limit_of(req: &ReadEventRequest) -> (r: u32)
    ensures
        r == read_limit(req@),
{
    match req.limit {
        Some(l) => l,
        None => match &req.state_key {
            Some(StateKeySelector::Key(_)) => STATE_KEY_READ_LIMIT,
            _ => DEFAULT_READ_LIMIT,
        },
    }
}

/// What a reply to a host-initiated request amounts to for the request's sender.
pub fn check_reply(expected: ToWidgetAction, reply: &ToWidgetResponse) -> (r: Result<(), ProxyError>)
    ensures
        reply_action(reply@) != expected ==> r matches Err(ProxyError::InvalidResponse),
        reply_action(reply@) == expected && reply_failure(reply@) is None ==> r is Ok,
        reply_action(reply@) == expected ==> (reply_failure(reply@) matches Some(m) ==> r matches Err(
            ProxyError::WidgetErrorReply(e),
        ) && e@ == m),
{
    let (action, failure) = match reply {
        ToWidgetResponse::CapabilitiesRequest(x) => (ToWidgetAction::CapabilitiesRequest, x.response()),
        ToWidgetResponse::CapabilitiesUpdate(x) => (ToWidgetAction::CapabilitiesUpdate, x.response()),
        ToWidgetResponse::OpenIdCredentialsUpdate(x) => (ToWidgetAction::OpenIdCredentialsUpdate, x.response()),
        ToWidgetResponse::SendEvent(x) => (ToWidgetAction::SendEvent, x.response()),
    };
    if action != expected {
        return Err(ProxyError::InvalidResponse);
    }
    match failure {
        Some(m) => Err(ProxyError::WidgetErrorReply(m)),
        None => Ok(()),
    }
}

pub open spec fn reply_action(r: ToWidgetResponseV) -> ToWidgetAction {
    match r {
        ToWidgetResponseV::CapabilitiesRequest(_) => ToWidgetAction::CapabilitiesRequest,
        ToWidgetResponseV::CapabilitiesUpdate(_) => ToWidgetAction::CapabilitiesUpdate,
        ToWidgetResponseV::OpenIdCredentialsUpdate(_) => ToWidgetAction::OpenIdCredentialsUpdate,
        ToWidgetResponseV::SendEvent(_) => ToWidgetAction::SendEvent,
    }
}

pub open spec fn reply_failure(r: ToWidgetResponseV) -> Option<Seq<char>> {
    let outcome_failure = |o: Result<(), Seq<char>>| match o {
        Ok(_) => None::<Seq<char>>,
        Err(m) => Some(m),
    };
    match r {
        ToWidgetResponseV::CapabilitiesRequest(x) => match x.response {
            Ok(_) => None,
            Err(m) => Some(m),
        },
        ToWidgetResponseV::CapabilitiesUpdate(x) => outcome_failure(x.response),
        ToWidgetResponseV::OpenIdCredentialsUpdate(x) => outcome_failure(x.response),
        ToWidgetResponseV::SendEvent(x) => outcome_failure(x.response),
    }
}

pub const UNEXPECTED_MESSAGE: &'static str = "Unexpected message from a widget";

/// Whether an action sends this text to the widget.
pub open spec fn sends(a: Action, text: Seq<char>) -> bool {
    a matches Action::SendToWidget(t) && t@ == text
}

/// Whether an action sends the widget a host-initiated request of this kind under a fresh id.
pub open spec fn sends_request(a: Action, widget_id: Seq<char>, req: ToWidgetRequestV) -> bool {
    a matches Action::SendRequestToWidget { request_id, message } && message@ == encoded(
        MessageV {
            header: HeaderV { request_id: request_id@, widget_id },
            body: MessageBodyV::ToWidgetRequest(req),
        },
    )
}

/// The description of the fault in a text that is no message.
pub open spec fn decode_failure(text: Seq<char>) -> Seq<char> {
    match json_parsed(text) {
        Err(e) => e,
        Ok(_) => crate::wire::NOT_A_MESSAGE@,
    }
}

/// The failure reply to a request of the widget: the request echoed, and the message.
pub open spec fn failure_reply(q: FromWidgetRequestV, m: Seq<char>) -> FromWidgetResponseV {
    match q {
        FromWidgetRequestV::GetSupportedApiVersion => FromWidgetResponseV::GetSupportedApiVersion(ResponseV { request: (), response: Err(m) }),
        FromWidgetRequestV::ContentLoaded => FromWidgetResponseV::ContentLoaded(ResponseV { request: (), response: Err(m) }),
        FromWidgetRequestV::GetOpenId => FromWidgetResponseV::GetOpenId(ResponseV { request: (), response: Err(m) }),
        FromWidgetRequestV::SendEvent(x) => FromWidgetResponseV::SendEvent(ResponseV { request: x, response: Err(m) }),
        FromWidgetRequestV::ReadEvent(x) => FromWidgetResponseV::ReadEvent(ResponseV { request: x, response: Err(m) }),
    }
}

/// The parts of a requested send that the send filters look at.
pub open spec fn send_input(q: crate::messages::SendEventRequestV) -> FilterInputV {
    FilterInputV {
        event_type: q.event_type,
        state_key: q.state_key,
        msgtype: str_of(get(q.content, "msgtype"@)),
    }
}

/// Sends a host-initiated request under a fresh id, and parks it in the table of requests
/// that await a reply.
fn send_request(requests: &mut PendingTable<ToWidgetAction>, widget_id: &String, req: ToWidgetRequest) -> (r: Action)
    requires
        old(requests).wf(),
    ensures
        final(requests).wf(),
        request_sent(old(requests).view(), final(requests).view(), r, widget_id@, req@),
{
    let id = requests.fresh_id(random_id());
    let kind = match &req {
        ToWidgetRequest::CapabilitiesRequest(_) => ToWidgetAction::CapabilitiesRequest,
        ToWidgetRequest::CapabilitiesUpdate(_) => ToWidgetAction::CapabilitiesUpdate,
        ToWidgetRequest::OpenIdCredentialsUpdate(_) => ToWidgetAction::OpenIdCredentialsUpdate,
        ToWidgetRequest::SendEvent(_) => ToWidgetAction::SendEvent,
    };
    let message = Message {
        header: Header { request_id: id.clone(), widget_id: widget_id.clone() },
        body: MessageBody::ToWidgetRequest(req),
    };
    let text = message.encode();
    let inserted = requests.insert(id.clone(), kind);
    assert(inserted is Ok);
    Action::SendRequestToWidget { request_id: id, message: text }
}

/// Parks a command under a fresh id.
fn park_command(commands: &mut PendingTable<CommandPurpose>, purpose: CommandPurpose) -> (r: String)
    requires
        old(commands).wf(),
    ensures
        final(commands).wf(),
        !old(commands).view().contains_key(r@),
        final(commands).view() == old(commands).view().insert(r@, purpose),
{
    let id = commands.fresh_id(random_id());
    let ghost p = purpose;
    let inserted = commands.insert(id.clone(), purpose);
    assert(inserted is Ok);
    id
}

/// The reply to a request of the widget, as the action that sends it.
fn reply(header: Header, response: FromWidgetResponse) -> (r: Action)
    ensures
        sends(r, reply_text(header@, response@)),
{
    let m = Message { header, body: MessageBody::FromWidgetResponse(response) };
    Action::SendToWidget(m.encode())
}

/// The failure reply to a request of the widget.
fn fail(header: Header, req: FromWidgetRequest, message: &str) -> (r: Action)
    ensures
        sends(r, reply_text(header@, failure_reply(req@, message@))),
{
    let m = message.to_owned();
    let response = match req {
        FromWidgetRequest::GetSupportedApiVersion(x) => FromWidgetResponse::GetSupportedApiVersion(crate::messages::Request::new(x).map(Err(m))),
        FromWidgetRequest::ContentLoaded(x) => FromWidgetResponse::ContentLoaded(crate::messages::Request::new(x).map(Err(m))),
        FromWidgetRequest::GetOpenId(x) => FromWidgetResponse::GetOpenId(crate::messages::Request::new(x).map(Err(m))),
        FromWidgetRequest::SendEvent(x) => FromWidgetResponse::SendEvent(crate::messages::Request::new(x).map(Err(m))),
        FromWidgetRequest::ReadEvent(x) => FromWidgetResponse::ReadEvent(crate::messages::Request::new(x).map(Err(m))),
    };
    reply(header, response)
}

/// The host's side of one widget session.
pub struct ClientApi {
    pub widget_id: String,
    /// The room the widget runs in.
    pub room_id: String,
    /// Whether the negotiation waits for the widget's `content_loaded` request.
    pub init_on_load: bool,
    pub state: SessionState,
    /// Host-initiated requests that await the widget's reply, by kind.
    pub requests: PendingTable<ToWidgetAction>,
    /// Commands that await their result, with what the result is for.
    pub commands: PendingTable<CommandPurpose>,
}

/// The settings of a session, which no event changes.
pub open spec fn same_settings(s: ClientApi, t: ClientApi) -> bool {
    t.widget_id == s.widget_id && t.room_id == s.room_id && t.init_on_load == s.init_on_load
}

/// A command was parked under a fresh id, and nothing else changed among the commands.
pub open spec fn parked(
    before: Map<Seq<char>, CommandPurpose>,
    after: Map<Seq<char>, CommandPurpose>,
    id: Seq<char>,
) -> bool {
    !before.contains_key(id) && after == before.insert(id, after[id])
}

/// An action sends a host-initiated request under a fresh id, which now awaits its reply.
pub open spec fn request_sent(
    before: Map<Seq<char>, ToWidgetAction>,
    after: Map<Seq<char>, ToWidgetAction>,
    a: Action,
    widget_id: Seq<char>,
    req: ToWidgetRequestV,
) -> bool {
    &&& sends_request(a, widget_id, req)
    &&& !before.contains_key(a->SendRequestToWidget_request_id@)
    &&& after == before.insert(a->SendRequestToWidget_request_id@, action_of(req))
}

/// The outcome of a `content_loaded` request: accepted, with a negotiation started, where none
/// runs or ran; acknowledged while an eager negotiation runs; refused as already loaded otherwise.
pub open spec fn content_loaded_outcome(s: ClientApi, t: ClientApi, h: HeaderV, r: Seq<Action>) -> bool {
    let ok = reply_text(h, FromWidgetResponseV::ContentLoaded(ResponseV { request: (), response: Ok(()) }));
    let refused = reply_text(h, failure_reply(FromWidgetRequestV::ContentLoaded, ALREADY_LOADED@));
    &&& t.commands.view() == s.commands.view()
    &&& match s.state@ {
        SessionStateV::Uninitialized => r.len() == 2 && sends(r[0], ok) && t.state@
            == SessionStateV::Negotiating && request_sent(s.requests.view(), t.requests.view(), r[1],
            s.widget_id@, ToWidgetRequestV::CapabilitiesRequest),
        SessionStateV::Negotiating => r.len() == 1 && t.state@ == s.state@ && t.requests.view()
            == s.requests.view() && (if s.init_on_load {
            sends(r[0], refused)
        } else {
            sends(r[0], ok)
        }),
        _ => r.len() == 1 && sends(r[0], refused) && t.state@ == s.state@ && t.requests.view()
            == s.requests.view(),
    }
}

/// The outcome of a request for an identity token: answered as pending, with a fetch parked
/// under the request's id.
pub open spec fn openid_request_outcome(s: ClientApi, t: ClientApi, h: HeaderV, r: Seq<Action>) -> bool {
    &&& t.state@ == s.state@ && t.requests.view() == s.requests.view()
    &&& r.len() == 2
    &&& sends(r[0], reply_text(h, FromWidgetResponseV::GetOpenId(ResponseV {
        request: (),
        response: Ok(crate::messages::OpenIdResponseV::Pending),
    })))
    &&& r[1] is GetOpenId
    &&& {
        let id = r[1]->GetOpenId_0.spec_id();
        parked(s.commands.view(), t.commands.view(), id) && t.commands.view()[id] is OpenId
            && t.commands.view()[id]->OpenId_request_id@ == h.request_id
    }
}

/// The outcome of a request to read events: refused before the negotiation or without read
/// capabilities; otherwise one read of the right type and page size, parked with the request
/// and its header.
pub open spec fn read_request_outcome(s: ClientApi, t: ClientApi, h: HeaderV, q: ReadEventRequestV, r: Seq<Action>) -> bool {
    let req = FromWidgetRequestV::ReadEvent(q);
    &&& t.state@ == s.state@ && t.requests.view() == s.requests.view() && r.len() == 1
    &&& match s.state@ {
        SessionStateV::Initialized(p) => if p.read.len() == 0 {
            sends(r[0], reply_text(h, failure_reply(req, NO_READ_PERMISSION@))) && t.commands.view() == s.commands.view()
        } else {
            (r[0] is ReadMatrixEvent && {
                let c = r[0]->ReadMatrixEvent_0;
                let id = c.spec_id();
                &&& c.spec_data().event_type@ == q.event_type
                &&& c.spec_data().limit == read_limit(q)
                &&& parked(s.commands.view(), t.commands.view(), id)
                &&& t.commands.view()[id] is ReadEvents
                &&& t.commands.view()[id]->ReadEvents_header@ == h
                &&& t.commands.view()[id]->ReadEvents_read@ == q
            })
        },
        _ => sends(r[0], reply_text(h, failure_reply(req, NOT_NEGOTIATED@))) && t.commands.view() == s.commands.view(),
    }
}

/// The outcome of a request to send an event: refused before the negotiation or where the send
/// capabilities do not let the event through; otherwise one send of the event, parked with the
/// request and its header.
pub open spec fn send_request_outcome(s: ClientApi, t: ClientApi, h: HeaderV, q: crate::messages::SendEventRequestV, r: Seq<Action>) -> bool {
    let req = FromWidgetRequestV::SendEvent(q);
    &&& t.state@ == s.state@ && t.requests.view() == s.requests.view() && r.len() == 1
    &&& match s.state@ {
        SessionStateV::Initialized(p) => if !any_filter_matches(p.send, send_input(q)) {
            sends(r[0], reply_text(h, failure_reply(req, NOT_ALLOWED@))) && t.commands.view() == s.commands.view()
        } else {
            (r[0] is SendMatrixEvent && {
                let c = r[0]->SendMatrixEvent_0;
                let id = c.spec_id();
                &&& c.spec_data().event_type@ == q.event_type
                &&& opt_view(c.spec_data().state_key) == q.state_key
                &&& c.spec_data().content@ == q.content
                &&& parked(s.commands.view(), t.commands.view(), id)
                &&& t.commands.view()[id] is SendEvent
                &&& t.commands.view()[id]->SendEvent_header@ == h
                &&& t.commands.view()[id]->SendEvent_send@ == q
            })
        },
        _ => sends(r[0], reply_text(h, failure_reply(req, NOT_NEGOTIATED@))) && t.commands.view() == s.commands.view(),
    }
}

/// The outcome of a request of the widget, kind by kind. Each reply carries the request's
/// header and echoes its payload.
pub open spec fn request_outcome(s: ClientApi, t: ClientApi, h: HeaderV, q: FromWidgetRequestV, r: Seq<Action>) -> bool {
    &&& same_settings(s, t)
    &&& match q {
        FromWidgetRequestV::GetSupportedApiVersion => r.len() == 1 && sends(r[0], reply_text(h,
            FromWidgetResponseV::GetSupportedApiVersion(ResponseV {
                request: (),
                response: Ok(crate::messages::supported_versions()),
            }))) && t.state@ == s.state@ && t.requests.view() == s.requests.view() && t.commands.view()
            == s.commands.view(),
        FromWidgetRequestV::ContentLoaded => content_loaded_outcome(s, t, h, r),
        FromWidgetRequestV::GetOpenId => openid_request_outcome(s, t, h, r),
        FromWidgetRequestV::ReadEvent(x) => read_request_outcome(s, t, h, x, r),
        FromWidgetRequestV::SendEvent(x) => send_request_outcome(s, t, h, x, r),
    }
}

/// The outcome of the widget's reply to a request of the host. A reply whose id awaits nothing
/// is reported out of band, and so is a reply of another kind than its request. The reply to
/// the capabilities request of a running negotiation hands the desired set to the host's
/// policy, or ends the negotiation where it declares a failure or is of another kind.
pub open spec fn response_outcome(s: ClientApi, t: ClientApi, h: HeaderV, x: ToWidgetResponseV, r: Seq<Action>) -> bool {
    let id = h.request_id;
    let invalid = json_printed(oob_error_json(s.widget_id@, INVALID_RESPONSE@));
    &&& same_settings(s, t)
    &&& t.requests.view() == s.requests.view().remove(id)
    &&& if !s.requests.view().contains_key(id) {
        r.len() == 1 && sends(r[0], json_printed(oob_error_json(s.widget_id@, UNEXPECTED_RESPONSE@)))
            && t.state@ == s.state@ && t.commands.view() == s.commands.view()
    } else {
        let mismatch = reply_action(x) != s.requests.view()[id];
        &&& r.len() == (if mismatch { 1int } else { 0int }) + (if s.requests.view()[id]
            == ToWidgetAction::CapabilitiesRequest && s.state@ is Negotiating && x is CapabilitiesRequest
            && x->CapabilitiesRequest_0.response is Ok { 1int } else { 0int })
        &&& mismatch ==> sends(r[0], invalid)
        &&& if s.requests.view()[id] == ToWidgetAction::CapabilitiesRequest && s.state@ is Negotiating {
            if x is CapabilitiesRequest && x->CapabilitiesRequest_0.response is Ok {
                let desired = x->CapabilitiesRequest_0.response->Ok_0;
                &&& t.state@ == s.state@
                &&& r[0] is AcquirePermissions
                &&& {
                    let c = r[0]->AcquirePermissions_0;
                    let cid = c.spec_id();
                    &&& c.spec_data()@ == desired
                    &&& parked(s.commands.view(), t.commands.view(), cid)
                    &&& t.commands.view()[cid] is Negotiation
                    &&& t.commands.view()[cid]->Negotiation_desired@ == desired
                }
            } else {
                t.state@ == SessionStateV::Uninitialized && t.commands.view() == s.commands.view()
            }
        } else {
            t.state@ == s.state@ && t.commands.view() == s.commands.view()
        }
    }
}

/// The outcome of the end of a request's bound: it no longer awaits a reply, and a negotiation
/// that waited for it has failed.
pub open spec fn timeout_outcome(s: ClientApi, t: ClientApi, id: Seq<char>) -> bool {
    let failed_negotiation = s.requests.view().contains_key(id) && s.requests.view()[id]
        == ToWidgetAction::CapabilitiesRequest && s.state@ is Negotiating;
    &&& same_settings(s, t)
    &&& t.commands.view() == s.commands.view()
    &&& t.requests.view() == s.requests.view().remove(id)
    &&& failed_negotiation ==> t.state@ == SessionStateV::Uninitialized
    &&& !failed_negotiation ==> t.state@ == s.state@
}

/// The outcome of the host's policy decision: the session is initialized with the approved
/// set; the widget is sent what was requested and what approved;
/// the live events are subscribed to, with the read filters, where reading was approved. A
/// failed policy ends the negotiation.
pub open spec fn permissions_outcome(s: ClientApi, t: ClientApi, res: CommandResult<Permissions>, r: Seq<Action>) -> bool {
    let id = res.spec_id();
    &&& same_settings(s, t)
    &&& t.commands.view() == s.commands.view().remove(id)
    &&& if !(s.commands.view().contains_key(id) && s.commands.view()[id] is Negotiation) {
        t.state@ == s.state@ && r.len() == 0 && t.requests.view() == s.requests.view()
    } else {
        match res.spec_result() {
            Ok(p) => {
                let update = ToWidgetRequestV::CapabilitiesUpdate(
                    crate::messages::CapabilitiesUpdateV {
                        requested: s.commands.view()[id]->Negotiation_desired@,
                        approved: p@,
                    },
                );
                &&& t.state@ == SessionStateV::Initialized(p@)
                &&& r.len() == 1 + (if p@.read.len() > 0 { 1int } else { 0int })
                &&& request_sent(s.requests.view(), t.requests.view(), r[0], s.widget_id@, update)
                &&& p@.read.len() > 0 ==> r[r.len() - 1] is Subscribe && filters_view(
                    r[r.len() - 1]->Subscribe_0@,
                ) == p@.read
            },
            Err(_) => t.state@ == SessionStateV::Uninitialized && r.len() == 0 && t.requests.view()
                == s.requests.view(),
        }
    }
}

/// The outcome of a fetched identity token, or of a failed fetch: the widget is sent the
/// credentials under the id of the request that asked for them, or told that it was blocked.
pub open spec fn openid_received_outcome(s: ClientApi, t: ClientApi, res: CommandResult<OpenIdToken>, r: Seq<Action>) -> bool {
    let id = res.spec_id();
    &&& same_settings(s, t)
    &&& t.state@ == s.state@
    &&& t.commands.view() == s.commands.view().remove(id)
    &&& if !(s.commands.view().contains_key(id) && s.commands.view()[id] is OpenId) {
        r.len() == 0 && t.requests.view() == s.requests.view()
    } else {
        let answer = match res.spec_result() {
            Ok(tk) => crate::messages::OpenIdResponseV::Allowed(
                crate::messages::OpenIdStateV {
                    id: s.commands.view()[id]->OpenId_request_id@,
                    token: tk.access_token@,
                    expires_in_seconds: tk.expires_in_seconds,
                    server: tk.matrix_server_name@,
                    kind: tk.token_type@,
                },
            ),
            Err(_) => crate::messages::OpenIdResponseV::Blocked,
        };
        r.len() == 1 && request_sent(s.requests.view(), t.requests.view(), r[0], s.widget_id@,
            ToWidgetRequestV::OpenIdCredentialsUpdate(answer))
    }
}

/// The outcome of a read of room events: the widget gets the events that its read
/// capabilities let through, in order, or the failure, under the header of its request.
pub open spec fn events_read_outcome(s: ClientApi, t: ClientApi, res: CommandResult<Vec<String>>, r: Seq<Action>) -> bool {
    let id = res.spec_id();
    &&& same_settings(s, t)
    &&& t.state@ == s.state@
    &&& t.requests.view() == s.requests.view()
    &&& t.commands.view() == s.commands.view().remove(id)
    &&& if !(s.commands.view().contains_key(id) && s.commands.view()[id] is ReadEvents) {
        r.len() == 0
    } else {
        let purpose = s.commands.view()[id];
        let h = purpose->ReadEvents_header@;
        let q = purpose->ReadEvents_read@;
        &&& r.len() == 1
        &&& match res.spec_result() {
            Ok(raw) => match s.state@ {
                SessionStateV::Initialized(p) => sends(r[0], reply_text(h, FromWidgetResponseV::ReadEvent(ResponseV {
                    request: q,
                    response: Ok(read_result(p.read, q, raw@.map_values(|x: String| x@))),
                }))),
                _ => sends(r[0], reply_text(h, failure_reply(FromWidgetRequestV::ReadEvent(q), NOT_NEGOTIATED@))),
            },
            Err(e) => sends(r[0], reply_text(h, failure_reply(FromWidgetRequestV::ReadEvent(q), e@))),
        }
    }
}

/// The outcome of a sent room event: the widget gets the room and event ids, or the failure,
/// under the header of its request.
pub open spec fn event_sent_outcome(s: ClientApi, t: ClientApi, res: CommandResult<String>, r: Seq<Action>) -> bool {
    let id = res.spec_id();
    &&& same_settings(s, t)
    &&& t.state@ == s.state@
    &&& t.requests.view() == s.requests.view()
    &&& t.commands.view() == s.commands.view().remove(id)
    &&& if !(s.commands.view().contains_key(id) && s.commands.view()[id] is SendEvent) {
        r.len() == 0
    } else {
        let purpose = s.commands.view()[id];
        let h = purpose->SendEvent_header@;
        let q = purpose->SendEvent_send@;
        &&& r.len() == 1
        &&& match res.spec_result() {
            Ok(event_id) => sends(r[0], reply_text(h, FromWidgetResponseV::SendEvent(ResponseV {
                request: q,
                response: Ok(crate::messages::SendEventResponseV { room_id: s.room_id@, event_id: event_id@ }),
            }))),
            Err(e) => sends(r[0], reply_text(h, failure_reply(FromWidgetRequestV::SendEvent(q), e@))),
        }
    }
}

/// Whether a live room event goes to the widget: the session is initialized, the event is
/// JSON with a type, and the read capabilities let it through.
pub open spec fn forwards(state: SessionStateV, raw: Seq<char>) -> bool {
    match state {
        SessionStateV::Initialized(p) => match json_parsed(raw) {
            Ok(j) => match event_input(j) {
                Some(e) => any_filter_matches(p.read, e),
                None => false,
            },
            Err(_) => false,
        },
        _ => false,
    }
}

/// The entries of an object without those of a key, in order.
pub open spec fn without_key(es: Seq<(Seq<char>, JsonV)>, k: Seq<char>) -> Seq<(Seq<char>, JsonV)>
    decreases es.len(),
{
    if es.len() == 0 {
        Seq::empty()
    } else {
        let prev = without_key(es.drop_last(), k);
        if es.last().0 == k {
            prev
        } else {
            prev.push(es.last())
        }
    }
}

/// A room event as the widget receives it: its `room_id` field set to the session's room.
pub open spec fn with_room_id(j: JsonV, room: Seq<char>) -> JsonV {
    match j {
        JsonV::Object(es) => JsonV::Object(without_key(es, "room_id"@).push(("room_id"@, JsonV::Str(room)))),
        _ => j,
    }
}

/// Sets the `room_id` field of an event to the given room.
pub fn add_room_id(j: &Json, room_id: &String) -> (r: Json)
    ensures
        r@ == with_room_id(j@, room_id@),
{
    match j {
        Json::Object(v) => {
            proof {
                crate::json::lemma_entries_view(v@);
            }
            let mut out: Vec<(String, Json)> = Vec::new();
            let mut i: usize = 0;
            proof {
                crate::json::lemma_entries_view(out@);
                assert(entries_view(v@).subrange(0, 0) =~= Seq::<(Seq<char>, JsonV)>::empty());
                assert(entries_view(out@) =~= Seq::<(Seq<char>, JsonV)>::empty());
            }
            while i < v.len()
                invariant
                    i <= v@.len(),
                    *j == Json::Object(*v),
                    entries_view(v@).len() == v@.len(),
                    forall|k: int| 0 <= k < v@.len() ==> #[trigger] entries_view(v@)[k] == (v@[k].0@, v@[k].1@),
                    entries_view(out@) == without_key(entries_view(v@).subrange(0, i as int), "room_id"@),
                decreases v@.len() - i,
            {
                let ghost sub = entries_view(v@).subrange(0, i + 1);
                assert(sub.drop_last() =~= entries_view(v@).subrange(0, i as int));
                assert(sub.last() == (v@[i as int].0@, v@[i as int].1@));
                if !crate::text::str_eq(v[i].0.as_str(), "room_id") {
                    let ghost before = out@;
                    out.push((v[i].0.clone(), v[i].1.deep_clone()));
                    proof {
                        crate::json::lemma_entries_view(before);
                        crate::json::lemma_entries_view(out@);
                        assert(entries_view(out@) =~= entries_view(before).push((v@[i as int].0@, v@[i as int].1@)));
                    }
                }
                i = i + 1;
            }
            assert(entries_view(v@).subrange(0, v@.len() as int) =~= entries_view(v@));
            let ghost before = out@;
            out.push(("room_id".to_owned(), Json::Str(room_id.clone())));
            proof {
                crate::json::lemma_entries_view(before);
                crate::json::lemma_entries_view(out@);
                assert(entries_view(out@) =~= entries_view(before).push(("room_id"@, JsonV::Str(room_id@))));
            }
            Json::object(out)
        },
        _ => j.deep_clone(),
    }
}

/// The outcome of a live room event: forwarded to the widget, with the session's room id set
/// in it, exactly when the read capabilities let it through.
pub open spec fn matrix_event_outcome(s: ClientApi, t: ClientApi, raw: Seq<char>, r: Seq<Action>) -> bool {
    &&& same_settings(s, t)
    &&& t.state@ == s.state@
    &&& t.commands.view() == s.commands.view()
    &&& if forwards(s.state@, raw) {
        r.len() == 1 && request_sent(s.requests.view(), t.requests.view(), r[0], s.widget_id@,
            ToWidgetRequestV::SendEvent(with_room_id(json_parsed(raw)->Ok_0, s.room_id@)))
    } else {
        r.len() == 0 && t.requests.view() == s.requests.view()
    }
}

/// The outcome of any event: nothing once disconnected; a raw message that is no message is
/// answered with one out-of-band error and changes nothing; a request of the widget and a reply
/// to the host go to their handlers, other messages are unexpected; every other event goes to
/// its handler.
pub open spec fn event_outcome(s: ClientApi, t: ClientApi, event: Event, r: Seq<Action>) -> bool {
    &&& same_settings(s, t)
    &&& if s.state@ is Disconnected {
        r.len() == 0 && t.state@ == s.state@
    } else {
        match event {
            Event::MessageFromWidget(text) => match decoded(text@) {
                None => r.len() == 1 && sends(r[0], json_printed(oob_error_json(s.widget_id@,
                    decode_failure(text@)))) && t.state@ == s.state@ && t.requests.view()
                    == s.requests.view() && t.commands.view() == s.commands.view(),
                Some(m) => match m.body {
                    MessageBodyV::FromWidgetRequest(q) => request_outcome(s, t, m.header, q, r),
                    MessageBodyV::ToWidgetResponse(x) => response_outcome(s, t, m.header, x, r),
                    _ => r.len() == 1 && sends(r[0], json_printed(oob_error_json(s.widget_id@,
                        UNEXPECTED_MESSAGE@))) && t.state@ == s.state@ && t.requests.view()
                        == s.requests.view() && t.commands.view() == s.commands.view(),
                },
            },
            Event::MatrixEventReceived(raw) => matrix_event_outcome(s, t, raw@, r),
            Event::PermissionsAcquired(res) => permissions_outcome(s, t, res, r),
            Event::OpenIdReceived(res) => openid_received_outcome(s, t, res, r),
            Event::MatrixEventRead(res) => events_read_outcome(s, t, res, r),
            Event::MatrixEventSent(res) => event_sent_outcome(s, t, res, r),
            Event::ReplyTimedOut(id) => r.len() == 0 && timeout_outcome(s, t, id@),
        }
    }
}

impl ClientApi {
    pub open spec fn wf(&self) -> bool {
        self.requests.wf() && self.commands.wf()
    }

    /// A new session. Unless the widget's settings say to wait for its content to load, the
    /// negotiation starts at once with a capabilities request.
    pub fn new(widget_id: String, room_id: String, init_on_load: bool) -> (r: (ClientApi, Vec<Action>))
        ensures
            r.0.wf(),
            r.0.widget_id == widget_id,
            r.0.room_id == room_id,
            r.0.init_on_load == init_on_load,
            r.0.commands.view().is_empty(),
            init_on_load ==> r.0.state@ == SessionStateV::Uninitialized && r.1@.len() == 0
                && r.0.requests.view().is_empty(),
            !init_on_load ==> r.0.state@ == SessionStateV::Negotiating && r.1@.len() == 1
                && sends_request(r.1@[0], widget_id@, ToWidgetRequestV::CapabilitiesRequest)
                && r.0.requests.view().len() == 1,
    {
        let mut api = ClientApi {
            widget_id,
            room_id,
            init_on_load,
            state: SessionState::Uninitialized,
            requests: PendingTable::new(),
            commands: PendingTable::new(),
        };
        let mut actions: Vec<Action> = Vec::new();
        if !init_on_load {
            let a = send_request(&mut api.requests, &api.widget_id, ToWidgetRequest::CapabilitiesRequest(Empty {}));
            proof {
                if let Action::SendRequestToWidget { request_id, .. } = &a {
                    assert(api.requests.view().dom() =~= Set::<Seq<char>>::empty().insert(request_id@));
                }
            }
            api.state = SessionState::Negotiating;
            actions.push(a);
        }
        (api, actions)
    }

    /// Handles a request of the widget. Every request gets exactly one reply; some also hand
    /// work to the client or start the negotiation.
    pub fn handle_request(&mut self, header: Header, req: FromWidgetRequest) -> (r: Vec<Action>)
        requires
            old(self).wf(),
        ensures
            final(self).wf(),
            request_outcome(*old(self), *final(self), header@, req@, r@),
    {
        let mut out: Vec<Action> = Vec::new();
        match req {
            FromWidgetRequest::GetSupportedApiVersion(x) => {
                let response = crate::messages::Request::new(x).map(Ok(SupportedApiVersionsResponse::new()));
                out.push(reply(header, FromWidgetResponse::GetSupportedApiVersion(response)));
            },
            FromWidgetRequest::ContentLoaded(x) => {
                let (accept, negotiate) = match self.state {
                    SessionState::Uninitialized => (true, true),
                    SessionState::Negotiating => (!self.init_on_load, false),
                    _ => (false, false),
                };
                if !accept {
                    out.push(fail(header, FromWidgetRequest::ContentLoaded(x), ALREADY_LOADED));
                } else {
                    let response = crate::messages::Request::new(x).map(Ok(Empty {}));
                    out.push(reply(header, FromWidgetResponse::ContentLoaded(response)));
                    if negotiate {
                        let a = send_request(&mut self.requests, &self.widget_id, ToWidgetRequest::CapabilitiesRequest(Empty {}));
                        self.state = SessionState::Negotiating;
                        out.push(a);
                    }
                }
            },
            FromWidgetRequest::GetOpenId(x) => {
                let id = park_command(&mut self.commands, CommandPurpose::OpenId { request_id: header.request_id.clone() });
                let response = crate::messages::Request::new(x).map(Ok(OpenIdResponse::Pending));
                out.push(reply(header, FromWidgetResponse::GetOpenId(response)));
                out.push(Action::GetOpenId(Command { id, data: () }));
            },
            FromWidgetRequest::ReadEvent(q) => {
                let allowed = match &self.state {
                    SessionState::Initialized(p) => Some(p.read.len() > 0),
                    _ => None,
                };
                match allowed {
                    None => out.push(fail(header, FromWidgetRequest::ReadEvent(q), NOT_NEGOTIATED)),
                    Some(false) => out.push(fail(header, FromWidgetRequest::ReadEvent(q), NO_READ_PERMISSION)),
                    Some(true) => {
                        let cmd = ReadEventCommand { event_type: q.event_type.clone(), limit: read_limit_of(&q) };
                        let h2 = Header { request_id: header.request_id.clone(), widget_id: header.widget_id.clone() };
                        let q2 = ReadEventRequest {
                            event_type: q.event_type.clone(),
                            state_key: match &q.state_key {
                                Some(StateKeySelector::Any) => Some(StateKeySelector::Any),
                                Some(StateKeySelector::Key(k)) => Some(StateKeySelector::Key(k.clone())),
                                None => None,
                            },
                            limit: q.limit,
                        };
                        let id = park_command(&mut self.commands, CommandPurpose::ReadEvents { header: h2, read: q2 });
                        out.push(Action::ReadMatrixEvent(Command { id, data: cmd }));
                    },
                }
            },
            FromWidgetRequest::SendEvent(q) => {
                let allowed = match &self.state {
                    SessionState::Initialized(p) => {
                        let input = MatrixEventFilterInput {
                            event_type: q.event_type.clone(),
                            state_key: q.state_key.clone(),
                            content: MatrixEventContent { msgtype: get_string(&q.content, "msgtype") },
                        };
                        Some(any_matches(&p.send, &input))
                    },
                    _ => None,
                };
                match allowed {
                    None => out.push(fail(header, FromWidgetRequest::SendEvent(q), NOT_NEGOTIATED)),
                    Some(false) => out.push(fail(header, FromWidgetRequest::SendEvent(q), NOT_ALLOWED)),
                    Some(true) => {
                        let cmd = SendEventCommand {
                            event_type: q.event_type.clone(),
                            state_key: q.state_key.clone(),
                            content: q.content.deep_clone(),
                        };
                        let h2 = Header { request_id: header.request_id.clone(), widget_id: header.widget_id.clone() };
                        let q2 = SendEventRequest {
                            event_type: q.event_type.clone(),
                            state_key: q.state_key.clone(),
                            content: q.content.deep_clone(),
                        };
                        let id = park_command(&mut self.commands, CommandPurpose::SendEvent { header: h2, send: q2 });
                        out.push(Action::SendMatrixEvent(Command { id, data: cmd }));
                    },
                }
            },
        }
        out
    }

    /// Handles the widget's reply to a request of the host. A reply whose id awaits nothing
    /// (never sent, already answered, or timed out) resolves nothing: it is reported to the
    /// widget out of band, and the session is left as it was.
    pub fn handle_response(&mut self, header: Header, reply: ToWidgetResponse) -> (r: Vec<Action>)
        requires
            old(self).wf(),
        ensures
            final(self).wf(),
            response_outcome(*old(self), *final(self), header@, reply@, r@),
    {
        let expected = self.requests.remove(header.request_id.as_str());
        let mut out: Vec<Action> = Vec::new();
        match expected {
            None => {
                out.push(Action::SendToWidget(oob_error_text(&self.widget_id, &UNEXPECTED_RESPONSE.to_owned())));
            },
            Some(kind) => {
                let checked = check_reply(kind, &reply);
                if let Err(ProxyError::InvalidResponse) = checked {
                    out.push(Action::SendToWidget(oob_error_text(&self.widget_id, &INVALID_RESPONSE.to_owned())));
                }
                let negotiating = match self.state {
                    SessionState::Negotiating => true,
                    _ => false,
                };
                if kind == ToWidgetAction::CapabilitiesRequest && negotiating {
                    let desired = match checked {
                        Ok(()) => match reply {
                            ToWidgetResponse::CapabilitiesRequest(x) => match x.result() {
                                Ok(c) => Some(c.capabilities),
                                Err(_) => None,
                            },
                            _ => None,
                        },
                        Err(_) => None,
                    };
                    match desired {
                        Some(d) => {
                            let data = d.duplicate();
                            let id = park_command(&mut self.commands, CommandPurpose::Negotiation { desired: d });
                            out.push(Action::AcquirePermissions(Command { id, data }));
                        },
                        None => {
                            self.state = SessionState::Uninitialized;
                        },
                    }
                }
            },
        }
        out
    }

    /// The bound passed for a host-initiated request. Where it still awaited its reply, it no
    /// longer does and fails with a timeout, and a negotiation that waited for it has failed;
    /// where it did not (its reply came first), nothing happens.
    pub fn on_timeout(&mut self, request_id: &str) -> (r: Option<ProxyError>)
        requires
            old(self).wf(),
        ensures
            final(self).wf(),
            timeout_outcome(*old(self), *final(self), request_id@),
            !final(self).requests.view().contains_key(request_id@),
            old(self).requests.view().contains_key(request_id@) ==> r matches Some(ProxyError::Timeout),
            !old(self).requests.view().contains_key(request_id@) ==> r is None,
    {
        let expected = self.requests.remove(request_id);
        let negotiating = match self.state {
            SessionState::Negotiating => true,
            _ => false,
        };
        match expected {
            Some(kind) => {
                if kind == ToWidgetAction::CapabilitiesRequest && negotiating {
                    self.state = SessionState::Uninitialized;
                }
                Some(ProxyError::Timeout)
            },
            None => None,
        }
    }

    /// The host's policy decided on the capabilities: the session is initialized with the
    /// approved set, the widget is told what was requested and what approved, and, where reading
    /// was approved, the live events are subscribed to. Where the policy failed, the negotiation
    /// is over without result.
    pub fn on_permissions_acquired(&mut self, result: CommandResult<Permissions>) -> (r: Vec<Action>)
        requires
            old(self).wf(),
        ensures
            final(self).wf(),
            permissions_outcome(*old(self), *final(self), result, r@),
    {
        let CommandResult { id, result } = result;
        let purpose = self.commands.remove(id.as_str());
        let mut out: Vec<Action> = Vec::new();
        match purpose {
            Some(CommandPurpose::Negotiation { desired }) => match result {
                Ok(approved) => {
                    let reads = approved.read.len() > 0;
                    let read_filters = crate::permissions::duplicate_filters(&approved.read);
                    let update = CapabilitiesUpdatedRequest { requested: desired, approved: approved.duplicate() };
                    out.push(send_request(&mut self.requests, &self.widget_id, ToWidgetRequest::CapabilitiesUpdate(update)));
                    if reads {
                        out.push(Action::Subscribe(read_filters));
                    }
                    proof {
                        if !reads {
                            assert forall|i: int| 0 <= i < out@.len() implies !(out@[i] is Subscribe) by {}
                        } else {
                            assert(out@[out@.len() - 1] is Subscribe);
                        }
                    }
                    self.state = SessionState::Initialized(approved);
                },
                Err(_) => {
                    self.state = SessionState::Uninitialized;
                },
            },
            _ => {},
        }
        out
    }

    /// An identity token came, or failed to come: the widget is sent the credentials, under
    /// the id of the request that asked for them, or told that it was blocked.
    pub fn on_openid_received(&mut self, result: CommandResult<OpenIdToken>) -> (r: Vec<Action>)
        requires
            old(self).wf(),
        ensures
            final(self).wf(),
            openid_received_outcome(*old(self), *final(self), result, r@),
    {
        let CommandResult { id, result } = result;
        let purpose = self.commands.remove(id.as_str());
        let mut out: Vec<Action> = Vec::new();
        match purpose {
            Some(CommandPurpose::OpenId { request_id }) => {
                let response = match result {
                    Ok(t) => OpenIdResponse::Allowed(OpenIdState {
                        id: request_id,
                        token: t.access_token,
                        expires_in_seconds: t.expires_in_seconds,
                        server: t.matrix_server_name,
                        kind: t.token_type,
                    }),
                    Err(_) => OpenIdResponse::Blocked,
                };
                out.push(send_request(&mut self.requests, &self.widget_id, ToWidgetRequest::OpenIdCredentialsUpdate(response)));
            },
            _ => {},
        }
        out
    }

    /// A page of room events came for a read of the widget, or the read failed. The widget gets
    /// the events that its read capabilities let through, in order, or the failure.
    pub fn on_events_read(&mut self, result: CommandResult<Vec<String>>) -> (r: Vec<Action>)
        requires
            old(self).wf(),
        ensures
            final(self).wf(),
            events_read_outcome(*old(self), *final(self), result, r@),
    {
        let CommandResult { id, result } = result;
        let purpose = self.commands.remove(id.as_str());
        let mut out: Vec<Action> = Vec::new();
        match purpose {
            Some(CommandPurpose::ReadEvents { header, read }) => match result {
                Ok(raw) => match &self.state {
                    SessionState::Initialized(p) => {
                        let events = filter_read_events(&p.read, &read, &raw);
                        let response = crate::messages::Request::new(read).map(Ok(ReadEventResponse { events }));
                        out.push(reply(header, FromWidgetResponse::ReadEvent(response)));
                    },
                    _ => out.push(fail(header, FromWidgetRequest::ReadEvent(read), NOT_NEGOTIATED)),
                },
                Err(e) => out.push(fail(header, FromWidgetRequest::ReadEvent(read), e.as_str())),
            },
            _ => {},
        }
        out
    }

    /// A room event requested by the widget was sent, or the send failed. The widget gets the
    /// room and the event id, or the failure.
    pub fn on_event_sent(&mut self, result: CommandResult<String>) -> (r: Vec<Action>)
        requires
            old(self).wf(),
        ensures
            final(self).wf(),
            event_sent_outcome(*old(self), *final(self), result, r@),
    {
        let CommandResult { id, result } = result;
        let purpose = self.commands.remove(id.as_str());
        let mut out: Vec<Action> = Vec::new();
        match purpose {
            Some(CommandPurpose::SendEvent { header, send }) => match result {
                Ok(event_id) => {
                    let body = SendEventResponse { room_id: self.room_id.clone(), event_id };
                    let response = crate::messages::Request::new(send).map(Ok(body));
                    out.push(reply(header, FromWidgetResponse::SendEvent(response)));
                },
                Err(e) => out.push(fail(header, FromWidgetRequest::SendEvent(send), e.as_str())),
            },
            _ => {},
        }
        out
    }

    /// A new room event of the live subscription: the widget is sent it where its read
    /// capabilities let it through.
    pub fn on_matrix_event(&mut self, raw: &str) -> (r: Vec<Action>)
        requires
            old(self).wf(),
        ensures
            final(self).wf(),
            matrix_event_outcome(*old(self), *final(self), raw@, r@),
    {
        let mut out: Vec<Action> = Vec::new();
        let forward = match &self.state {
            SessionState::Initialized(p) => match parse_json(raw) {
                Ok(j) => {
                    let keep = match event_filter_input(&j) {
                        Some(input) => any_matches(&p.read, &input),
                        None => false,
                    };
                    if keep {
                        Some(j)
                    } else {
                        None
                    }
                },
                Err(_) => None,
            },
            _ => None,
        };
        match forward {
            Some(j) => out.push(send_request(&mut self.requests, &self.widget_id, ToWidgetRequest::SendEvent(add_room_id(&j, &self.room_id)))),
            None => {},
        }
        out
    }

    /// The transport closed: the session ends.
    pub fn disconnect(&mut self)
        requires
            old(self).wf(),
        ensures
            final(self).wf(),
            final(self).state@ == SessionStateV::Disconnected,
            final(self).widget_id == old(self).widget_id,
    {
        self.state = SessionState::Disconnected;
    }

    /// Handles one event and gives the actions that the driver must perform. A session that
    /// was disconnected does nothing more. A raw message that is no message of the protocol is
    /// answered with one out-of-band error, and changes nothing else.
    pub fn process(&mut self, event: Event) -> (r: Vec<Action>)
        requires
            old(self).wf(),
        ensures
            final(self).wf(),
            event_outcome(*old(self), *final(self), event, r@),
    {
        if let SessionState::Disconnected = self.state {
            return Vec::new();
        }
        match event {
            Event::MessageFromWidget(text) => match Message::decode(text.as_str()) {
                Err(d) => {
                    let mut out: Vec<Action> = Vec::new();
                    out.push(Action::SendToWidget(oob_error_text(&self.widget_id, &d.message)));
                    out
                },
                Ok(m) => match m.body {
                    MessageBody::FromWidgetRequest(q) => self.handle_request(m.header, q),
                    MessageBody::ToWidgetResponse(x) => self.handle_response(m.header, x),
                    _ => {
                        let mut out: Vec<Action> = Vec::new();
                        out.push(Action::SendToWidget(oob_error_text(&self.widget_id, &UNEXPECTED_MESSAGE.to_owned())));
                        out
                    },
                },
            },
            Event::MatrixEventReceived(raw) => self.on_matrix_event(raw.as_str()),
            Event::PermissionsAcquired(result) => self.on_permissions_acquired(result),
            Event::OpenIdReceived(result) => self.on_openid_received(result),
            Event::MatrixEventRead(result) => self.on_events_read(result),
            Event::MatrixEventSent(result) => self.on_event_sent(result),
            Event::ReplyTimedOut(id) => {
                let _ = self.on_timeout(id.as_str());
                Vec::new()
            },
        }
    }
}

} // verus!

//! Event filters: which room events a widget may read or send.
use vstd::prelude::*;

use crate::text::str_eq;

verus! {

/// The event type of a room message.
pub const ROOM_MESSAGE_TYPE: &'static str = "m.room.message";

/// A filter over message-like events (events without a state key).
pub enum MessageLikeEventFilter {
    /// Events of this type.
    WithType(String),
    /// Room messages whose content has this `msgtype`.
    RoomMessageWithMsgtype(String),
}

/// A filter over state events.
pub enum StateEventFilter {
    /// State events of this type, whatever their state key.
    WithType(String),
    /// State events of this type with this state key.
    WithTypeAndStateKey(String, String),
}

pub enum EventFilter {
    MessageLike(MessageLikeEventFilter),
    State(StateEventFilter),
}

/// The mathematical model of a filter.
pub ghost enum EventFilterV {
    MessageLikeWithType(Seq<char>),
    RoomMessageWithMsgtype(Seq<char>),
    StateWithType(Seq<char>),
    StateWithTypeAndStateKey(Seq<char>, Seq<char>),
}

impl View for EventFilter {
    type V = EventFilterV;

    open spec fn view(&self) -> EventFilterV {
        match self {
            EventFilter::MessageLike(MessageLikeEventFilter::WithType(t)) => EventFilterV::MessageLikeWithType(t@),
            EventFilter::MessageLike(MessageLikeEventFilter::RoomMessageWithMsgtype(m)) => EventFilterV::RoomMessageWithMsgtype(m@),
            EventFilter::State(StateEventFilter::WithType(t)) => EventFilterV::StateWithType(t@),
            EventFilter::State(StateEventFilter::WithTypeAndStateKey(t, k)) => EventFilterV::StateWithTypeAndStateKey(t@, k@),
        }
    }
}

/// The content fields of an event that a filter can look at.
pub struct MatrixEventContent {
    pub msgtype: Option<String>,
}

/// The parts of an event that filters look at.
pub struct MatrixEventFilterInput {
    pub event_type: String,
    pub state_key: Option<String>,
    pub content: MatrixEventContent,
}

pub ghost struct FilterInputV {
    pub event_type: Seq<char>,
    pub state_key: Option<Seq<char>>,
    pub msgtype: Option<Seq<char>>,
}

pub open spec fn opt_view(o: Option<String>) -> Option<Seq<char>> {
    match o {
        Some(s) => Some(s@),
        None => None,
    }
}

impl View for MatrixEventFilterInput {
    type V = FilterInputV;

    open spec fn view(&self) -> FilterInputV {
        FilterInputV {
            event_type: self.event_type@,
            state_key: opt_view(self.state_key),
            msgtype: opt_view(self.content.msgtype),
        }
    }
}

/// Whether one filter lets an event through.
pub open spec fn filter_matches(f: EventFilterV, e: FilterInputV) -> bool {
    match f {
        EventFilterV::MessageLikeWithType(t) => e.state_key is None && e.event_type == t,
        EventFilterV::RoomMessageWithMsgtype(m) => e.state_key is None && e.event_type
            == ROOM_MESSAGE_TYPE@ && e.msgtype == Some(m),
        EventFilterV::StateWithType(t) => e.state_key is Some && e.event_type == t,
        EventFilterV::StateWithTypeAndStateKey(t, k) => e.event_type == t && e.state_key == Some(
            k,
        ),
    }
}

/// Whether a list of filters lets an event through: one filter that does suffices.
pub open spec fn any_filter_matches(fs: Seq<EventFilterV>, e: FilterInputV) -> bool {
    exists|i: int| 0 <= i < fs.len() && filter_matches(fs[i], e)
}

pub open spec fn filters_view(fs: Seq<EventFilter>) -> Seq<EventFilterV> {
    fs.map_values(|f: EventFilter| f@)
}

fn opt_str_eq(a: &Option<String>, b: &str) -> (r: bool)
    ensures
        r == (opt_view(*a) == Some(b@)),
{
    match a {
        Some(s) => str_eq(s.as_str(), b),
        None => false,
    }
}

impl EventFilter {
    /// Whether this filter lets the event through.
    pub fn matches(&self, input: &MatrixEventFilterInput) -> (r: bool)
        ensures
            r == filter_matches(self@, input@),
    {
        match self {
            EventFilter::MessageLike(MessageLikeEventFilter::WithType(t)) => {
                input.state_key.is_none() && str_eq(input.event_type.as_str(), t.as_str())
            },
            EventFilter::MessageLike(MessageLikeEventFilter::RoomMessageWithMsgtype(m)) => {
                input.state_key.is_none() && str_eq(input.event_type.as_str(), ROOM_MESSAGE_TYPE)
                    && opt_str_eq(&input.content.msgtype, m.as_str())
            },
            EventFilter::State(StateEventFilter::WithType(t)) => {
                input.state_key.is_some() && str_eq(input.event_type.as_str(), t.as_str())
            },
            EventFilter::State(StateEventFilter::WithTypeAndStateKey(t, k)) => {
                str_eq(input.event_type.as_str(), t.as_str()) && opt_str_eq(
                    &input.state_key,
                    k.as_str(),
                )
            },
        }
    }
}

/// Whether any filter of the list lets the event through; an empty list lets nothing through.
pub fn any_matches(filters: &Vec<EventFilter>, input: &MatrixEventFilterInput) -> (r: bool)
    ensures
        r == any_filter_matches(filters_view(filters@), input@),
{
    let mut i: usize = 0;
    while i < filters.len()
        invariant
            i <= filters@.len(),
            forall|j: int| 0 <= j < i ==> !filter_matches(filters@[j]@, input@),
        decreases filters@.len() - i,
    {
        if filters[i].matches(input) {
            assert(filters_view(filters@)[i as int] == filters@[i as int]@);
            return true;
        }
        i = i + 1;
    }
    assert forall|j: int| 0 <= j < filters_view(filters@).len() implies !filter_matches(
        filters_view(filters@)[j],
        input@,
    ) by {
        assert(filters_view(filters@)[j] == filters@[j]@);
    }
    false
}

/// The empty list lets no event through, and a list lets an event through exactly when one of
/// its filters, taken alone, does.
pub proof fn lemma_filter_list_is_disjunction(fs: Seq<EventFilterV>, e: FilterInputV)
    ensures
        !any_filter_matches(Seq::empty(), e),
        any_filter_matches(fs, e) <==> exists|i: int|
            0 <= i < fs.len() && #[trigger] any_filter_matches(seq![fs[i]], e),
{
    if any_filter_matches(fs, e) {
        let i = choose|i: int| 0 <= i < fs.len() && filter_matches(fs[i], e);
        assert(seq![fs[i]][0] == fs[i]);
        assert(any_filter_matches(seq![fs[i]], e));
    }
    if exists|i: int| 0 <= i < fs.len() && #[trigger] any_filter_matches(seq![fs[i]], e) {
        let i = choose|i: int| 0 <= i < fs.len() && #[trigger] any_filter_matches(seq![fs[i]], e);
        let j = choose|j: int| 0 <= j < seq![fs[i]].len() && filter_matches(seq![fs[i]][j], e);
        assert(filter_matches(fs[i], e));
    }
}

} // verus!

//! Capabilities: which events a widget may read and send.
use vstd::prelude::*;

use crate::filter::{
    filters_view, EventFilter, EventFilterV, MessageLikeEventFilter, StateEventFilter,
};
use crate::text::{concat, find_char, first_index_of, has_prefix, str_eq, strip_prefix};

verus! {

/// A capability set, as desired by a widget or approved by the host.
pub struct Permissions {
    /// Events the widget may read, in the order given.
    pub read: Vec<EventFilter>,
    /// Events the widget may send, in the order given.
    pub send: Vec<EventFilter>,
    /// The widget may not be opened outside the client.
    pub requires_client: bool,
}

pub ghost struct PermissionsV {
    pub read: Seq<EventFilterV>,
    pub send: Seq<EventFilterV>,
    pub requires_client: bool,
}

impl View for Permissions {
    type V = PermissionsV;

    open spec fn view(&self) -> PermissionsV {
        PermissionsV {
            read: filters_view(self.read@),
            send: filters_view(self.send@),
            requires_client: self.requires_client,
        }
    }
}

pub const READ_EVENT_PREFIX: &'static str = "org.matrix.msc2762.receive.event:";

pub const READ_STATE_PREFIX: &'static str = "org.matrix.msc2762.receive.state_event:";

pub const SEND_EVENT_PREFIX: &'static str = "org.matrix.msc2762.send.event:";

pub const SEND_STATE_PREFIX: &'static str = "org.matrix.msc2762.send.state_event:";

pub const REQUIRES_CLIENT: &'static str = "io.element.requires_client";

/// Separates a room message's `msgtype`, or a state key, from the event type.
pub const SEPARATOR: char = '#';

/// What follows the event prefix for filters of room messages with a `msgtype`.
pub const ROOM_MESSAGE_MSGTYPE_PREFIX: &'static str = "m.room.message#";

/// The capability string that grants a filter, for reading or for sending.
pub open spec fn capability_of(f: EventFilterV, read: bool) -> Seq<char> {
    let event_prefix = if read {
        READ_EVENT_PREFIX@
    } else {
        SEND_EVENT_PREFIX@
    };
    let state_prefix = if read {
        READ_STATE_PREFIX@
    } else {
        SEND_STATE_PREFIX@
    };
    match f {
        EventFilterV::MessageLikeWithType(t) => event_prefix + t,
        EventFilterV::RoomMessageWithMsgtype(m) => event_prefix + ROOM_MESSAGE_MSGTYPE_PREFIX@ + m,
        EventFilterV::StateWithType(t) => state_prefix + t,
        EventFilterV::StateWithTypeAndStateKey(t, k) => state_prefix + t + seq![SEPARATOR] + k,
    }
}

/// The capability strings of a set, in order: read filters, send filters, then the
/// client requirement.
pub open spec fn capabilities_of(p: PermissionsV) -> Seq<Seq<char>> {
    p.read.map_values(|f: EventFilterV| capability_of(f, true)) + p.send.map_values(
        |f: EventFilterV| capability_of(f, false),
    ) + if p.requires_client {
        seq![REQUIRES_CLIENT@]
    } else {
        Seq::empty()
    }
}

/// Where a capability string belongs once read back.
pub ghost enum CapabilityV {
    Read(EventFilterV),
    Send(EventFilterV),
    RequiresClient,
    Unknown,
}

pub open spec fn after(s: Seq<char>, p: Seq<char>) -> Seq<char> {
    s.subrange(p.len() as int, s.len() as int)
}

pub open spec fn parse_event_filter(rest: Seq<char>) -> EventFilterV {
    if has_prefix(rest, ROOM_MESSAGE_MSGTYPE_PREFIX@) {
        EventFilterV::RoomMessageWithMsgtype(after(rest, ROOM_MESSAGE_MSGTYPE_PREFIX@))
    } else {
        EventFilterV::MessageLikeWithType(rest)
    }
}

pub open spec fn parse_state_filter(rest: Seq<char>) -> EventFilterV {
    match first_index_of(rest, SEPARATOR) {
        Some(i) => EventFilterV::StateWithTypeAndStateKey(
            rest.subrange(0, i),
            rest.subrange(i + 1, rest.len() as int),
        ),
        None => EventFilterV::StateWithType(rest),
    }
}

/// How a capability string is read: by its prefix; strings of no known kind are ignored.
pub open spec fn parse_capability(s: Seq<char>) -> CapabilityV {
    if has_prefix(s, READ_EVENT_PREFIX@) {
        CapabilityV::Read(parse_event_filter(after(s, READ_EVENT_PREFIX@)))
    } else if has_prefix(s, READ_STATE_PREFIX@) {
        CapabilityV::Read(parse_state_filter(after(s, READ_STATE_PREFIX@)))
    } else if has_prefix(s, SEND_EVENT_PREFIX@) {
        CapabilityV::Send(parse_event_filter(after(s, SEND_EVENT_PREFIX@)))
    } else if has_prefix(s, SEND_STATE_PREFIX@) {
        CapabilityV::Send(parse_state_filter(after(s, SEND_STATE_PREFIX@)))
    } else if s == REQUIRES_CLIENT@ {
        CapabilityV::RequiresClient
    } else {
        CapabilityV::Unknown
    }
}

/// The capability set that a list of capability strings grants.
pub open spec fn permissions_of(caps: Seq<Seq<char>>) -> PermissionsV
    decreases caps.len(),
{
    if caps.len() == 0 {
        PermissionsV { read: Seq::empty(), send: Seq::empty(), requires_client: false }
    } else {
        let p = permissions_of(caps.drop_last());
        match parse_capability(caps.last()) {
            CapabilityV::Read(f) => PermissionsV { read: p.read.push(f), ..p },
            CapabilityV::Send(f) => PermissionsV { send: p.send.push(f), ..p },
            CapabilityV::RequiresClient => PermissionsV { requires_client: true, ..p },
            CapabilityV::Unknown => p,
        }
    }
}

fn event_filter_capability(f: &EventFilter, read: bool) -> (r: String)
    ensures
        r@ == capability_of(f@, read),
{
    let event_prefix = if read {
        READ_EVENT_PREFIX
    } else {
        SEND_EVENT_PREFIX
    };
    let state_prefix = if read {
        READ_STATE_PREFIX
    } else {
        SEND_STATE_PREFIX
    };
    match f {
        EventFilter::MessageLike(MessageLikeEventFilter::WithType(t)) => concat(
            event_prefix,
            t.as_str(),
        ),
        EventFilter::MessageLike(MessageLikeEventFilter::RoomMessageWithMsgtype(m)) => {
            let p = concat(event_prefix, ROOM_MESSAGE_MSGTYPE_PREFIX);
            concat(p.as_str(), m.as_str())
        },
        EventFilter::State(StateEventFilter::WithType(t)) => concat(state_prefix, t.as_str()),
        EventFilter::State(StateEventFilter::WithTypeAndStateKey(t, k)) => {
            let p = concat(state_prefix, t.as_str());
            let p = concat(p.as_str(), "#");
            proof {
                reveal_strlit("#");
            }
            assert("#"@ == seq![SEPARATOR]);
            concat(p.as_str(), k.as_str())
        },
    }
}

fn push_capabilities(out: &mut Vec<String>, filters: &Vec<EventFilter>, read: bool)
    ensures
        final(out)@.map_values(|s: String| s@) == old(out)@.map_values(|s: String| s@)
            + filters_view(filters@).map_values(|f: EventFilterV| capability_of(f, read)),
{
    let ghost start = out@.map_values(|s: String| s@);
    let mut i: usize = 0;
    while i < filters.len()
        invariant
            i <= filters@.len(),
            out@.map_values(|s: String| s@) == start + filters_view(filters@).subrange(
                0,
                i as int,
            ).map_values(|f: EventFilterV| capability_of(f, read)),
        decreases filters@.len() - i,
    {
        let c = event_filter_capability(&filters[i], read);
        let ghost prev = out@;
        out.push(c);
        assert(out@.map_values(|s: String| s@) =~= prev.map_values(|s: String| s@).push(c@));
        proof {
            assert(filters_view(filters@).subrange(0, i + 1) =~= filters_view(filters@).subrange(
                0,
                i as int,
            ).push(filters@[i as int]@));
        }
        assert(out@.map_values(|s: String| s@) =~= start + filters_view(filters@).subrange(
            0,
            i + 1,
        ).map_values(|f: EventFilterV| capability_of(f, read)));
        i = i + 1;
    }
    assert(filters_view(filters@).subrange(0, filters@.len() as int) =~= filters_view(filters@));
}

impl Permissions {
    /// The capability strings that stand for this set on the wire.
    pub fn to_capabilities(&self) -> (r: Vec<String>)
        ensures
            r@.map_values(|s: String| s@) == capabilities_of(self@),
    {
        let mut out: Vec<String> = Vec::new();
        assert(out@.map_values(|s: String| s@) =~= Seq::<Seq<char>>::empty());
        push_capabilities(&mut out, &self.read, true);
        push_capabilities(&mut out, &self.send, false);
        if self.requires_client {
            out.push(REQUIRES_CLIENT.to_owned());
        }
        assert(out@.map_values(|s: String| s@) =~= capabilities_of(self@));
        out
    }
}

fn event_filter_from(rest: &str) -> (r: EventFilter)
    ensures
        r@ == parse_event_filter(rest@),
{
    match strip_prefix(rest, ROOM_MESSAGE_MSGTYPE_PREFIX) {
        Some(m) => EventFilter::MessageLike(MessageLikeEventFilter::RoomMessageWithMsgtype(m.to_owned())),
        None => EventFilter::MessageLike(MessageLikeEventFilter::WithType(rest.to_owned())),
    }
}

fn state_filter_from(rest: &str) -> (r: EventFilter)
    ensures
        r@ == parse_state_filter(rest@),
{
    match find_char(rest, SEPARATOR) {
        Some(i) => {
            proof {
                crate::text::lemma_first_index_of(rest@, SEPARATOR);
            }
            let n = rest.unicode_len();
            let t = rest.substring_char(0, i);
            let k = rest.substring_char(i + 1, n);
            EventFilter::State(StateEventFilter::WithTypeAndStateKey(t.to_owned(), k.to_owned()))
        },
        None => EventFilter::State(StateEventFilter::WithType(rest.to_owned())),
    }
}

/// What a capability string grants, read back from the wire.
pub enum Capability {
    Read(EventFilter),
    Send(EventFilter),
    RequiresClient,
    Unknown,
}

impl View for Capability {
    type V = CapabilityV;

    open spec fn view(&self) -> CapabilityV {
        match self {
            Capability::Read(f) => CapabilityV::Read(f@),
            Capability::Send(f) => CapabilityV::Send(f@),
            Capability::RequiresClient => CapabilityV::RequiresClient,
            Capability::Unknown => CapabilityV::Unknown,
        }
    }
}

impl Capability {
    /// Reads one capability string.
    pub fn parse(s: &str) -> (r: Capability)
        ensures
            r@ == parse_capability(s@),
    {
        if let Some(rest) = strip_prefix(s, READ_EVENT_PREFIX) {
            Capability::Read(event_filter_from(rest))
        } else if let Some(rest) = strip_prefix(s, READ_STATE_PREFIX) {
            Capability::Read(state_filter_from(rest))
        } else if let Some(rest) = strip_prefix(s, SEND_EVENT_PREFIX) {
            Capability::Send(event_filter_from(rest))
        } else if let Some(rest) = strip_prefix(s, SEND_STATE_PREFIX) {
            Capability::Send(state_filter_from(rest))
        } else if str_eq(s, REQUIRES_CLIENT) {
            Capability::RequiresClient
        } else {
            Capability::Unknown
        }
    }
}

impl Permissions {
    /// The capability set that a list of capability strings grants; unknown strings are
    /// ignored.
    pub fn from_capabilities(caps: &Vec<String>) -> (r: Permissions)
        ensures
            r@ == permissions_of(caps@.map_values(|s: String| s@)),
    {
        let mut p = Permissions { read: Vec::new(), send: Vec::new(), requires_client: false };
        let mut i: usize = 0;
        assert(caps@.map_values(|s: String| s@).subrange(0, 0) =~= Seq::<Seq<char>>::empty());
        assert(filters_view(p.read@) =~= Seq::<EventFilterV>::empty());
        assert(filters_view(p.send@) =~= Seq::<EventFilterV>::empty());
        assert(p@ == permissions_of(Seq::<Seq<char>>::empty()));
        while i < caps.len()
            invariant
                i <= caps@.len(),
                p@ == permissions_of(caps@.map_values(|s: String| s@).subrange(0, i as int)),
            decreases caps@.len() - i,
        {
            let ghost before = p@;
            let c = Capability::parse(caps[i].as_str());
            let ghost sub = caps@.map_values(|s: String| s@).subrange(0, i + 1);
            assert(sub.drop_last() =~= caps@.map_values(|s: String| s@).subrange(0, i as int));
            assert(sub.last() == caps@[i as int]@);
            match c {
                Capability::Read(f) => {
                    let ghost fv = f@;
                    p.read.push(f);
                    assert(filters_view(p.read@) =~= before.read.push(fv));
                },
                Capability::Send(f) => {
                    let ghost fv = f@;
                    p.send.push(f);
                    assert(filters_view(p.send@) =~= before.send.push(fv));
                },
                Capability::RequiresClient => {
                    p.requires_client = true;
                },
                Capability::Unknown => {},
            }
            assert(p@ =~= permissions_of(sub));
            i = i + 1;
        }
        assert(caps@.map_values(|s: String| s@).subrange(0, caps@.len() as int) =~= caps@.map_values(|s: String| s@));
        p
    }
}

impl EventFilter {
    /// A copy of this filter.
    pub fn duplicate(&self) -> (r: EventFilter)
        ensures
            r@ == self@,
    {
        match self {
            EventFilter::MessageLike(MessageLikeEventFilter::WithType(t)) => EventFilter::MessageLike(
                MessageLikeEventFilter::WithType(t.clone()),
            ),
            EventFilter::MessageLike(MessageLikeEventFilter::RoomMessageWithMsgtype(m)) => EventFilter::MessageLike(
                MessageLikeEventFilter::RoomMessageWithMsgtype(m.clone()),
            ),
            EventFilter::State(StateEventFilter::WithType(t)) => EventFilter::State(
                StateEventFilter::WithType(t.clone()),
            ),
            EventFilter::State(StateEventFilter::WithTypeAndStateKey(t, k)) => EventFilter::State(
                StateEventFilter::WithTypeAndStateKey(t.clone(), k.clone()),
            ),
        }
    }
}

/// A copy of a list of filters.
pub fn duplicate_filters(fs: &Vec<EventFilter>) -> (r: Vec<EventFilter>)
    ensures
        filters_view(r@) == filters_view(fs@),
{
    let mut out: Vec<EventFilter> = Vec::new();
    let mut i: usize = 0;
    while i < fs.len()
        invariant
            i <= fs@.len(),
            out@.len() == i,
            forall|k: int| 0 <= k < i ==> #[trigger] out@[k]@ == fs@[k]@,
        decreases fs@.len() - i,
    {
        out.push(fs[i].duplicate());
        i = i + 1;
    }
    assert(filters_view(out@) =~= filters_view(fs@));
    out
}

impl Permissions {
    /// A copy of this capability set.
    pub fn duplicate(&self) -> (r: Permissions)
        ensures
            r@ == self@,
    {
        Permissions {
            read: duplicate_filters(&self.read),
            send: duplicate_filters(&self.send),
            requires_client: self.requires_client,
        }
    }
}

/// Whether a filter's capability string reads back as the same filter: a message-like type
/// does not itself look like a `msgtype` filter, and a state event type holds no separator.
pub open spec fn filter_wire_ok(f: EventFilterV) -> bool {
    match f {
        EventFilterV::MessageLikeWithType(t) => !has_prefix(t, ROOM_MESSAGE_MSGTYPE_PREFIX@),
        EventFilterV::RoomMessageWithMsgtype(_) => true,
        EventFilterV::StateWithType(t) => first_index_of(t, SEPARATOR) is None,
        EventFilterV::StateWithTypeAndStateKey(t, _) => first_index_of(t, SEPARATOR) is None,
    }
}

/// Whether every filter of a capability set reads back as itself.
pub open spec fn permissions_wire_ok(p: PermissionsV) -> bool {
    &&& forall|i: int| 0 <= i < p.read.len() ==> #[trigger] filter_wire_ok(p.read[i])
    &&& forall|i: int| 0 <= i < p.send.len() ==> #[trigger] filter_wire_ok(p.send[i])
}

proof fn lemma_not_prefix(s: Seq<char>, p: Seq<char>, i: int)
    requires
        0 <= i < p.len(),
        i < s.len(),
        s[i] != p[i],
    ensures
        !has_prefix(s, p),
{
    if has_prefix(s, p) {
        assert(s.subrange(0, p.len() as int)[i] == s[i]);
    }
}

proof fn lemma_prefix_after(p: Seq<char>, rest: Seq<char>)
    ensures
        has_prefix(p + rest, p),
        after(p + rest, p) == rest,
{
    assert((p + rest).subrange(0, p.len() as int) =~= p);
    assert(after(p + rest, p) =~= rest);
}

proof fn lemma_event_filter_round_trip(f: EventFilterV)
    requires
        filter_wire_ok(f),
        f is MessageLikeWithType || f is RoomMessageWithMsgtype,
    ensures
        parse_event_filter(match f {
            EventFilterV::MessageLikeWithType(t) => t,
            EventFilterV::RoomMessageWithMsgtype(m) => ROOM_MESSAGE_MSGTYPE_PREFIX@ + m,
            _ => Seq::empty(),
        }) == f,
{
    if let EventFilterV::RoomMessageWithMsgtype(m) = f {
        lemma_prefix_after(ROOM_MESSAGE_MSGTYPE_PREFIX@, m);
    }
}

proof fn lemma_state_filter_round_trip(f: EventFilterV)
    requires
        filter_wire_ok(f),
        f is StateWithType || f is StateWithTypeAndStateKey,
    ensures
        parse_state_filter(match f {
            EventFilterV::StateWithType(t) => t,
            EventFilterV::StateWithTypeAndStateKey(t, k) => t + seq![SEPARATOR] + k,
            _ => Seq::empty(),
        }) == f,
{
    if let EventFilterV::StateWithTypeAndStateKey(t, k) = f {
        let rest = t + seq![SEPARATOR] + k;
        crate::text::lemma_first_index_of(t, SEPARATOR);
        assert forall|j: int| 0 <= j < t.len() implies rest[j] != SEPARATOR by {
            assert(rest[j] == t[j]);
        }
        assert(rest[t.len() as int] == SEPARATOR);
        crate::text::lemma_first_index_unique(rest, SEPARATOR, t.len() as int);
        assert(rest.subrange(0, t.len() as int) =~= t);
        assert(rest.subrange(t.len() as int + 1, rest.len() as int) =~= k);
    }
}

/// A filter's capability string reads back as the filter, on the side it was written for.
pub proof fn lemma_capability_round_trip(f: EventFilterV, read: bool)
    requires
        filter_wire_ok(f),
    ensures
        parse_capability(capability_of(f, read)) == (if read {
            CapabilityV::Read(f)
        } else {
            CapabilityV::Send(f)
        }),
{
    reveal_strlit("org.matrix.msc2762.receive.event:");
    reveal_strlit("org.matrix.msc2762.receive.state_event:");
    reveal_strlit("org.matrix.msc2762.send.event:");
    reveal_strlit("org.matrix.msc2762.send.state_event:");
    reveal_strlit("m.room.message#");
    let s = capability_of(f, read);
    let (prefix, rest) = match f {
        EventFilterV::MessageLikeWithType(t) => (if read { READ_EVENT_PREFIX@ } else { SEND_EVENT_PREFIX@ }, t),
        EventFilterV::RoomMessageWithMsgtype(m) => (if read { READ_EVENT_PREFIX@ } else { SEND_EVENT_PREFIX@ }, ROOM_MESSAGE_MSGTYPE_PREFIX@ + m),
        EventFilterV::StateWithType(t) => (if read { READ_STATE_PREFIX@ } else { SEND_STATE_PREFIX@ }, t),
        EventFilterV::StateWithTypeAndStateKey(t, k) => (if read { READ_STATE_PREFIX@ } else { SEND_STATE_PREFIX@ }, t + seq![SEPARATOR] + k),
    };
    assert(s =~= prefix + rest);
    lemma_prefix_after(prefix, rest);
    let is_state = f is StateWithType || f is StateWithTypeAndStateKey;
    if is_state {
        lemma_state_filter_round_trip(f);
    } else {
        lemma_event_filter_round_trip(f);
    }
    assert(s[19] == prefix[19]);
    assert(s[24] == prefix[24]);
    assert(s[27] == prefix[27]);
    if read && is_state {
        lemma_not_prefix(s, READ_EVENT_PREFIX@, 27);
    }
    if !read {
        lemma_not_prefix(s, READ_EVENT_PREFIX@, 19);
        lemma_not_prefix(s, READ_STATE_PREFIX@, 19);
        if is_state {
            lemma_not_prefix(s, SEND_EVENT_PREFIX@, 24);
        }
    }
}

proof fn lemma_requires_client_capability()
    ensures
        parse_capability(REQUIRES_CLIENT@) == CapabilityV::RequiresClient,
{
    reveal_strlit("org.matrix.msc2762.receive.event:");
    reveal_strlit("org.matrix.msc2762.receive.state_event:");
    reveal_strlit("org.matrix.msc2762.send.event:");
    reveal_strlit("org.matrix.msc2762.send.state_event:");
    reveal_strlit("io.element.requires_client");
}

proof fn lemma_filters_read_back(base: Seq<Seq<char>>, fs: Seq<EventFilterV>, read: bool)
    requires
        forall|i: int| 0 <= i < fs.len() ==> #[trigger] filter_wire_ok(fs[i]),
    ensures
        permissions_of(base + fs.map_values(|f: EventFilterV| capability_of(f, read))) == (if read {
            PermissionsV { read: permissions_of(base).read + fs, ..permissions_of(base) }
        } else {
            PermissionsV { send: permissions_of(base).send + fs, ..permissions_of(base) }
        }),
    decreases fs.len(),
{
    let start = permissions_of(base);
    if fs.len() == 0 {
        assert(base + fs.map_values(|f: EventFilterV| capability_of(f, read)) =~= base);
        assert(start.read + fs =~= start.read);
        assert(start.send + fs =~= start.send);
    } else {
        let init = fs.drop_last();
        let caps = base + fs.map_values(|f: EventFilterV| capability_of(f, read));
        let prev = base + init.map_values(|f: EventFilterV| capability_of(f, read));
        lemma_filters_read_back(base, init, read);
        assert(caps.drop_last() =~= prev);
        assert(caps.last() == capability_of(fs.last(), read));
        assert(filter_wire_ok(fs[fs.len() - 1]));
        lemma_capability_round_trip(fs.last(), read);
        assert(start.read + init.push(fs.last()) =~= (start.read + init).push(fs.last()));
        assert(start.send + init.push(fs.last()) =~= (start.send + init).push(fs.last()));
        assert(init.push(fs.last()) =~= fs);
    }
}

/// A capability set reads back from its capability strings as itself.
pub proof fn lemma_permissions_round_trip(p: PermissionsV)
    requires
        permissions_wire_ok(p),
    ensures
        permissions_of(capabilities_of(p)) == p,
{
    let empty = Seq::<Seq<char>>::empty();
    let reads = p.read.map_values(|f: EventFilterV| capability_of(f, true));
    let sends = p.send.map_values(|f: EventFilterV| capability_of(f, false));
    lemma_filters_read_back(empty, p.read, true);
    assert(empty + reads =~= reads);
    assert(Seq::<EventFilterV>::empty() + p.read =~= p.read);
    lemma_filters_read_back(reads, p.send, false);
    assert(Seq::<EventFilterV>::empty() + p.send =~= p.send);
    let both = reads + sends;
    if p.requires_client {
        lemma_requires_client_capability();
        assert(capabilities_of(p) =~= both.push(REQUIRES_CLIENT@));
        assert(both.push(REQUIRES_CLIENT@).drop_last() =~= both);
    } else {
        assert(capabilities_of(p) =~= both);
    }
}

} // verus!

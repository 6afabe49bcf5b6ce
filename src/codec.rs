//! The wire format: how each payload stands as JSON.
use vstd::prelude::*;

use crate::filter::opt_view;
use crate::json::{get, items_view, Json, JsonV};
use crate::messages::{
    ApiVersion, CapabilitiesResponse, CapabilitiesUpdateV, CapabilitiesUpdatedRequest, Empty,
    OpenIdResponse, OpenIdResponseV, OpenIdState, OpenIdStateV, ReadEventRequest,
    ReadEventRequestV, ReadEventResponse, SendEventRequest, SendEventRequestV, SendEventResponse,
    SendEventResponseV, StateKeySelector, StateKeySelectorV, SupportedApiVersionsResponse,
};
use crate::permissions::{permissions_of, Permissions, PermissionsV};
use crate::text::str_eq;

verus! {

/// A value with a JSON form on the wire.
pub trait Payload: View + Sized {
    /// The JSON form of a value.
    spec fn json_of(v: Self::V) -> JsonV;

    /// The value that a JSON form stands for, where it stands for one.
    spec fn of_json(j: JsonV) -> Option<Self::V>;

    /// Whether a value's JSON form reads back as the value.
    spec fn wire_ok(v: Self::V) -> bool;

    /// Whether values of this type stand as the result of a reply.
    spec fn answers() -> bool;

    /// A value whose JSON form reads back, reads back as itself.
    proof fn lemma_round_trip(v: Self::V)
        requires
            Self::wire_ok(v),
        ensures
            Self::of_json(Self::json_of(v)) == Some(v),
    ;

    /// The JSON form of a reply's result has no `error` field, so that it never reads as a
    /// declared failure.
    proof fn lemma_no_error_field(v: Self::V)
        requires
            Self::answers(),
        ensures
            get(Self::json_of(v), "error"@) is None,
    ;

    fn to_json(&self) -> (r: Json)
        ensures
            r@ == Self::json_of(self@),
    ;

    fn from_json(j: &Json) -> (r: Option<Self>)
        ensures
            r matches Some(x) ==> Self::of_json(j@) == Some(x@),
            r is None ==> Self::of_json(j@) is None,
    ;
}

/// The text of a string value.
pub open spec fn str_of(o: Option<JsonV>) -> Option<Seq<char>> {
    match o {
        Some(JsonV::Str(s)) => Some(s),
        _ => None,
    }
}

fn entry(key: &str, value: Json) -> (r: (String, Json))
    ensures
        r.0@ == key@,
        r.1 == value,
{
    (key.to_owned(), value)
}

fn string_json(s: &String) -> (r: Json)
    ensures
        r@ == JsonV::Str(s@),
{
    Json::Str(s.clone())
}

/// The text of a string field of an object.
pub fn get_string(j: &Json, key: &str) -> (r: Option<String>)
    ensures
        opt_view(r) == str_of(get(j@, key@)),
{
    match j.get(key) {
        Some(v) => match v.as_str() {
            Some(s) => Some(s.clone()),
            None => None,
        },
        None => None,
    }
}

impl Payload for Empty {
    open spec fn wire_ok(v: ()) -> bool {
        true
    }

    open spec fn answers() -> bool {
        true
    }

    proof fn lemma_round_trip(v: ()) {
        assert(Empty::json_of(v) == JsonV::Object(Seq::empty()));
        assert(Empty::of_json(JsonV::Object(Seq::empty())) == Some(()));
        assert(Empty::of_json(Empty::json_of(v)) == Some(v));
    }

    proof fn lemma_no_error_field(v: ()) {
        crate::json::lemma_field_absent(Seq::empty(), "error"@);
        assert(get(Empty::json_of(v), "error"@) is None);
    }

    open spec fn json_of(v: ()) -> JsonV {
        JsonV::Object(Seq::empty())
    }

    open spec fn of_json(j: JsonV) -> Option<()> {
        if j is Object {
            Some(())
        } else {
            None
        }
    }

    fn to_json(&self) -> (r: Json) {
        let r = Json::object(Vec::new());
        assert(crate::json::entries_view(Seq::<(String, Json)>::empty()) =~= Seq::empty());
        r
    }

    fn from_json(j: &Json) -> (r: Option<Empty>) {
        match j {
            Json::Object(_) => Some(Empty {}),
            _ => None,
        }
    }
}

/// The wire name of a protocol version.
pub open spec fn version_name(v: ApiVersion) -> Seq<char> {
    match v {
        ApiVersion::V0_0_1 => "0.0.1"@,
        ApiVersion::V0_0_2 => "0.0.2"@,
        ApiVersion::Msc2762 => "org.matrix.msc2762"@,
        ApiVersion::Msc2871 => "org.matrix.msc2871"@,
        ApiVersion::Msc3819 => "org.matrix.msc3819"@,
    }
}

pub open spec fn version_of_name(s: Seq<char>) -> Option<ApiVersion> {
    if s == "0.0.1"@ {
        Some(ApiVersion::V0_0_1)
    } else if s == "0.0.2"@ {
        Some(ApiVersion::V0_0_2)
    } else if s == "org.matrix.msc2762"@ {
        Some(ApiVersion::Msc2762)
    } else if s == "org.matrix.msc2871"@ {
        Some(ApiVersion::Msc2871)
    } else if s == "org.matrix.msc3819"@ {
        Some(ApiVersion::Msc3819)
    } else {
        None
    }
}

/// The JSON form of a list of versions: their names.
pub open spec fn versions_json(v: Seq<ApiVersion>) -> Seq<JsonV> {
    v.map_values(|x: ApiVersion| JsonV::Str(version_name(x)))
}

/// The versions that a list of names stands for; `None` where a name is not known or an item
/// is no string.
pub open spec fn versions_of(items: Seq<JsonV>) -> Option<Seq<ApiVersion>>
    decreases items.len(),
{
    if items.len() == 0 {
        Some(Seq::empty())
    } else {
        match (versions_of(items.drop_last()), items.last()) {
            (Some(vs), JsonV::Str(s)) => match version_of_name(s) {
                Some(v) => Some(vs.push(v)),
                None => None,
            },
            _ => None,
        }
    }
}

fn version_name_exec(v: ApiVersion) -> (r: &'static str)
    ensures
        r@ == version_name(v),
{
    match v {
        ApiVersion::V0_0_1 => "0.0.1",
        ApiVersion::V0_0_2 => "0.0.2",
        ApiVersion::Msc2762 => "org.matrix.msc2762",
        ApiVersion::Msc2871 => "org.matrix.msc2871",
        ApiVersion::Msc3819 => "org.matrix.msc3819",
    }
}

fn version_of_name_exec(s: &str) -> (r: Option<ApiVersion>)
    ensures
        r == version_of_name(s@),
{
    if str_eq(s, "0.0.1") {
        Some(ApiVersion::V0_0_1)
    } else if str_eq(s, "0.0.2") {
        Some(ApiVersion::V0_0_2)
    } else if str_eq(s, "org.matrix.msc2762") {
        Some(ApiVersion::Msc2762)
    } else if str_eq(s, "org.matrix.msc2871") {
        Some(ApiVersion::Msc2871)
    } else if str_eq(s, "org.matrix.msc3819") {
        Some(ApiVersion::Msc3819)
    } else {
        None
    }
}

impl Payload for SupportedApiVersionsResponse {
    open spec fn wire_ok(v: Seq<ApiVersion>) -> bool {
        true
    }

    open spec fn answers() -> bool {
        true
    }

    proof fn lemma_round_trip(v: Seq<ApiVersion>) {
        let es = Self::json_of(v)->Object_0;
        crate::json::lemma_field_at(es, 0, "supported_versions"@);
        lemma_versions_round_trip(v);
        assert(SupportedApiVersionsResponse::of_json(SupportedApiVersionsResponse::json_of(v)) == Some(v));
    }

    proof fn lemma_no_error_field(v: Seq<ApiVersion>) {
        lemma_wire_names();
        let es = Self::json_of(v)->Object_0;
        crate::json::lemma_field_absent(es, "error"@);
        assert(SupportedApiVersionsResponse::answers() ==> get(SupportedApiVersionsResponse::json_of(v), "error"@) is None);
    }

    open spec fn json_of(v: Seq<ApiVersion>) -> JsonV {
        JsonV::Object(
            seq![
                ("supported_versions"@, JsonV::Array(versions_json(v))),
            ],
        )
    }

    open spec fn of_json(j: JsonV) -> Option<Seq<ApiVersion>> {
        match get(j, "supported_versions"@) {
            Some(JsonV::Array(items)) => versions_of(items),
            _ => None,
        }
    }

    fn to_json(&self) -> (r: Json) {
        let mut items: Vec<Json> = Vec::new();
        let mut i: usize = 0;
        while i < self.versions.len()
            invariant
                i <= self.versions@.len(),
                items@.len() == i,
                forall|k: int|
                    0 <= k < i ==> #[trigger] items@[k]@ == JsonV::Str(
                        version_name(self.versions@[k]),
                    ),
            decreases self.versions@.len() - i,
        {
            items.push(Json::Str(version_name_exec(self.versions[i]).to_owned()));
            i = i + 1;
        }
        let arr = Json::array(items);
        let mut entries: Vec<(String, Json)> = Vec::new();
        entries.push(entry("supported_versions", arr));
        let r = Json::object(entries);
        assert(items_view(items@) =~= versions_json(self.versions@));
        assert(crate::json::entries_view(entries@) =~= seq![
            ("supported_versions"@, JsonV::Array(versions_json(self.versions@))),
        ]);
        r
    }

    fn from_json(j: &Json) -> (r: Option<SupportedApiVersionsResponse>) {
        match j.get("supported_versions") {
            Some(Json::Array(items)) => {
                proof {
                    crate::json::lemma_items_view(items@);
                }
                let mut versions: Vec<ApiVersion> = Vec::new();
                let mut i: usize = 0;
                while i < items.len()
                    invariant
                        i <= items@.len(),
                        items_view(items@).len() == items@.len(),
                        forall|k: int| 0 <= k < items@.len() ==> #[trigger] items_view(items@)[k] == items@[k]@,
                        versions_of(items_view(items@).subrange(0, i as int)) == Some(versions@),
                        get(j@, "supported_versions"@) == Some(JsonV::Array(items_view(items@))),
                    decreases items@.len() - i,
                {
                    let ghost sub = items_view(items@).subrange(0, i + 1);
                    assert(sub.drop_last() =~= items_view(items@).subrange(0, i as int));
                    match items[i].as_str() {
                        Some(s) => match version_of_name_exec(s.as_str()) {
                            Some(v) => {
                                versions.push(v);
                            },
                            None => {
                                assert(versions_of(sub) is None);
                                proof {
                                    lemma_versions_of_prefix_none(items_view(items@), i + 1);
                                }
                                return None;
                            },
                        },
                        None => {
                            assert(versions_of(sub) is None);
                            proof {
                                lemma_versions_of_prefix_none(items_view(items@), i + 1);
                            }
                            return None;
                        },
                    }
                    i = i + 1;
                }
                assert(items_view(items@).subrange(0, items@.len() as int) =~= items_view(items@));
                Some(SupportedApiVersionsResponse { versions })
            },
            _ => None,
        }
    }
}

proof fn lemma_versions_of_prefix_none(items: Seq<JsonV>, n: int)
    requires
        0 <= n <= items.len(),
        versions_of(items.subrange(0, n)) is None,
    ensures
        versions_of(items) is None,
    decreases items.len() - n,
{
    if n < items.len() {
        let next = items.subrange(0, n + 1);
        assert(next.drop_last() =~= items.subrange(0, n));
        lemma_versions_of_prefix_none(items, n + 1);
    } else {
        assert(items.subrange(0, n) =~= items);
    }
}

/// The JSON form of a list of capability strings.
pub open spec fn strings_json(caps: Seq<Seq<char>>) -> JsonV {
    JsonV::Array(caps.map_values(|c: Seq<char>| JsonV::Str(c)))
}

/// The strings of an array whose items are all strings.
pub open spec fn strings_of(items: Seq<JsonV>) -> Option<Seq<Seq<char>>>
    decreases items.len(),
{
    if items.len() == 0 {
        Some(Seq::empty())
    } else {
        match (strings_of(items.drop_last()), items.last()) {
            (Some(ss), JsonV::Str(s)) => Some(ss.push(s)),
            _ => None,
        }
    }
}

/// The JSON form of a capability set: the array of its capability strings.
pub open spec fn permissions_json(p: PermissionsV) -> JsonV {
    strings_json(crate::permissions::capabilities_of(p))
}

/// The capability set that a JSON array of capability strings grants.
pub open spec fn permissions_of_json(j: JsonV) -> Option<PermissionsV> {
    match j {
        JsonV::Array(items) => match strings_of(items) {
            Some(caps) => Some(permissions_of(caps)),
            None => None,
        },
        _ => None,
    }
}

proof fn lemma_strings_of_prefix_none(items: Seq<JsonV>, n: int)
    requires
        0 <= n <= items.len(),
        strings_of(items.subrange(0, n)) is None,
    ensures
        strings_of(items) is None,
    decreases items.len() - n,
{
    if n < items.len() {
        let next = items.subrange(0, n + 1);
        assert(next.drop_last() =~= items.subrange(0, n));
        lemma_strings_of_prefix_none(items, n + 1);
    } else {
        assert(items.subrange(0, n) =~= items);
    }
}

fn permissions_to_json(p: &Permissions) -> (r: Json)
    ensures
        r@ == permissions_json(p@),
{
    let caps = p.to_capabilities();
    let mut items: Vec<Json> = Vec::new();
    let mut i: usize = 0;
    while i < caps.len()
        invariant
            i <= caps@.len(),
            items@.len() == i,
            forall|k: int| 0 <= k < i ==> #[trigger] items@[k]@ == JsonV::Str(caps@[k]@),
        decreases caps@.len() - i,
    {
        items.push(string_json(&caps[i]));
        i = i + 1;
    }
    let r = Json::array(items);
    assert(items_view(items@) =~= crate::permissions::capabilities_of(p@).map_values(
        |c: Seq<char>| JsonV::Str(c),
    ));
    r
}

fn permissions_from_json(j: &Json) -> (r: Option<Permissions>)
    ensures
        r matches Some(p) ==> permissions_of_json(j@) == Some(p@),
        r is None ==> permissions_of_json(j@) is None,
{
    match j {
        Json::Array(items) => {
            proof {
                crate::json::lemma_items_view(items@);
            }
            let mut caps: Vec<String> = Vec::new();
            let mut i: usize = 0;
            while i < items.len()
                invariant
                    i <= items@.len(),
                    items_view(items@).len() == items@.len(),
                    forall|k: int| 0 <= k < items@.len() ==> #[trigger] items_view(items@)[k] == items@[k]@,
                    j@ == JsonV::Array(items_view(items@)),
                    strings_of(items_view(items@).subrange(0, i as int)) == Some(
                        caps@.map_values(|s: String| s@),
                    ),
                decreases items@.len() - i,
            {
                let ghost sub = items_view(items@).subrange(0, i + 1);
                assert(sub.drop_last() =~= items_view(items@).subrange(0, i as int));
                match items[i].as_str() {
                    Some(s) => {
                        let ghost before = caps@.map_values(|s: String| s@);
                        caps.push(s.clone());
                        assert(caps@.map_values(|s: String| s@) =~= before.push(s@));
                    },
                    None => {
                        assert(strings_of(sub) is None);
                        proof {
                            lemma_strings_of_prefix_none(items_view(items@), i + 1);
                        }
                        return None;
                    },
                }
                i = i + 1;
            }
            assert(items_view(items@).subrange(0, items@.len() as int) =~= items_view(items@));
            Some(Permissions::from_capabilities(&caps))
        },
        _ => None,
    }
}

impl Payload for CapabilitiesResponse {
    open spec fn wire_ok(v: PermissionsV) -> bool {
        crate::permissions::permissions_wire_ok(v)
    }

    open spec fn answers() -> bool {
        true
    }

    proof fn lemma_round_trip(v: PermissionsV) {
        let es = seq![("capabilities"@, permissions_json(v))];
        crate::json::lemma_field_at(es, 0, "capabilities"@);
        lemma_permissions_json_round_trip(v);
        assert(CapabilitiesResponse::of_json(CapabilitiesResponse::json_of(v)) == Some(v));
    }

    proof fn lemma_no_error_field(v: PermissionsV) {
        lemma_wire_names();
        crate::json::lemma_field_absent(seq![("capabilities"@, permissions_json(v))], "error"@);
        assert(CapabilitiesResponse::answers() ==> get(CapabilitiesResponse::json_of(v), "error"@) is None);
    }

    open spec fn json_of(v: PermissionsV) -> JsonV {
        JsonV::Object(seq![("capabilities"@, permissions_json(v))])
    }

    open spec fn of_json(j: JsonV) -> Option<PermissionsV> {
        match get(j, "capabilities"@) {
            Some(c) => permissions_of_json(c),
            None => None,
        }
    }

    fn to_json(&self) -> (r: Json) {
        let mut entries: Vec<(String, Json)> = Vec::new();
        entries.push(entry("capabilities", permissions_to_json(&self.capabilities)));
        let r = Json::object(entries);
        assert(crate::json::entries_view(entries@) =~= seq![
            ("capabilities"@, permissions_json(self@)),
        ]);
        r
    }

    fn from_json(j: &Json) -> (r: Option<CapabilitiesResponse>) {
        match j.get("capabilities") {
            Some(c) => match permissions_from_json(c) {
                Some(p) => Some(CapabilitiesResponse { capabilities: p }),
                None => None,
            },
            None => None,
        }
    }
}

impl Payload for CapabilitiesUpdatedRequest {
    open spec fn wire_ok(v: CapabilitiesUpdateV) -> bool {
        crate::permissions::permissions_wire_ok(v.requested) && crate::permissions::permissions_wire_ok(v.approved)
    }

    open spec fn answers() -> bool {
        true
    }

    proof fn lemma_round_trip(v: CapabilitiesUpdateV) {
        lemma_wire_names();
        let es = seq![("requested"@, permissions_json(v.requested)), ("approved"@, permissions_json(v.approved))];
        crate::json::lemma_fields_distinct(es);
        assert(es[0].0 == "requested"@ && es[1].0 == "approved"@);
        lemma_permissions_json_round_trip(v.requested);
        lemma_permissions_json_round_trip(v.approved);
        assert(CapabilitiesUpdatedRequest::of_json(CapabilitiesUpdatedRequest::json_of(v)) == Some(v));
    }

    proof fn lemma_no_error_field(v: CapabilitiesUpdateV) {
        lemma_wire_names();
        let es = seq![("requested"@, permissions_json(v.requested)), ("approved"@, permissions_json(v.approved))];
        crate::json::lemma_field_absent(es, "error"@);
        assert(CapabilitiesUpdatedRequest::answers() ==> get(CapabilitiesUpdatedRequest::json_of(v), "error"@) is None);
    }

    open spec fn json_of(v: CapabilitiesUpdateV) -> JsonV {
        JsonV::Object(
            seq![
                ("requested"@, permissions_json(v.requested)),
                ("approved"@, permissions_json(v.approved)),
            ],
        )
    }

    open spec fn of_json(j: JsonV) -> Option<CapabilitiesUpdateV> {
        match (get(j, "requested"@), get(j, "approved"@)) {
            (Some(a), Some(b)) => match (permissions_of_json(a), permissions_of_json(b)) {
                (Some(requested), Some(approved)) => Some(
                    CapabilitiesUpdateV { requested, approved },
                ),
                _ => None,
            },
            _ => None,
        }
    }

    fn to_json(&self) -> (r: Json) {
        let mut entries: Vec<(String, Json)> = Vec::new();
        entries.push(entry("requested", permissions_to_json(&self.requested)));
        entries.push(entry("approved", permissions_to_json(&self.approved)));
        let r = Json::object(entries);
        assert(crate::json::entries_view(entries@) =~= seq![
            ("requested"@, permissions_json(self.requested@)),
            ("approved"@, permissions_json(self.approved@)),
        ]);
        r
    }

    fn from_json(j: &Json) -> (r: Option<CapabilitiesUpdatedRequest>) {
        let a = j.get("requested");
        let b = j.get("approved");
        match (a, b) {
            (Some(a), Some(b)) => match (permissions_from_json(a), permissions_from_json(b)) {
                (Some(requested), Some(approved)) => Some(
                    CapabilitiesUpdatedRequest { requested, approved },
                ),
                _ => None,
            },
            _ => None,
        }
    }
}

/// A number that fits a `u32`.
pub open spec fn u32_of(j: Option<JsonV>) -> Option<u32> {
    match j {
        Some(JsonV::Int(n)) => if 0 <= n <= u32::MAX {
            Some(n as u32)
        } else {
            None
        },
        _ => None,
    }
}

fn get_u32(j: &Json, key: &str) -> (r: Option<u32>)
    ensures
        r == u32_of(get(j@, key@)),
{
    match j.get(key) {
        Some(Json::Int(n)) => if 0 <= *n && *n <= u32::MAX as i64 {
            Some(*n as u32)
        } else {
            None
        },
        _ => None,
    }
}

pub open spec fn open_id_state_json(s: OpenIdStateV) -> JsonV {
    JsonV::Object(
        seq![
            ("state"@, JsonV::Str("allowed"@)),
            ("original_request_id"@, JsonV::Str(s.id)),
            ("access_token"@, JsonV::Str(s.token)),
            ("expires_in"@, JsonV::Int(s.expires_in_seconds as int)),
            ("matrix_server_name"@, JsonV::Str(s.server)),
            ("token_type"@, JsonV::Str(s.kind)),
        ],
    )
}

pub open spec fn open_id_state_of(j: JsonV) -> Option<OpenIdStateV> {
    match (
        str_of(get(j, "original_request_id"@)),
        str_of(get(j, "access_token"@)),
        u32_of(get(j, "expires_in"@)),
        str_of(get(j, "matrix_server_name"@)),
        str_of(get(j, "token_type"@)),
    ) {
        (Some(id), Some(token), Some(expires_in_seconds), Some(server), Some(kind)) => Some(
            OpenIdStateV { id, token, expires_in_seconds, server, kind },
        ),
        _ => None,
    }
}

impl Payload for OpenIdResponse {
    open spec fn wire_ok(v: OpenIdResponseV) -> bool {
        true
    }

    open spec fn answers() -> bool {
        true
    }

    proof fn lemma_round_trip(v: OpenIdResponseV) {
        lemma_wire_names();
        let es = Self::json_of(v)->Object_0;
        crate::json::lemma_fields_distinct(es);
        match v {
            OpenIdResponseV::Allowed(st) => {
                assert(es[0].0 == "state"@);
                assert(es[1].0 == "original_request_id"@);
                assert(es[2].0 == "access_token"@);
                assert(es[3].0 == "expires_in"@);
                assert(es[4].0 == "matrix_server_name"@);
                assert(es[5].0 == "token_type"@);
            },
            _ => {
                assert(es[0].0 == "state"@);
            },
        }
        assert(OpenIdResponse::of_json(OpenIdResponse::json_of(v)) == Some(v));
    }

    proof fn lemma_no_error_field(v: OpenIdResponseV) {
        lemma_wire_names();
        crate::json::lemma_field_absent(Self::json_of(v)->Object_0, "error"@);
        assert(OpenIdResponse::answers() ==> get(OpenIdResponse::json_of(v), "error"@) is None);
    }

    open spec fn json_of(v: OpenIdResponseV) -> JsonV {
        match v {
            OpenIdResponseV::Allowed(s) => open_id_state_json(s),
            OpenIdResponseV::Blocked => JsonV::Object(seq![("state"@, JsonV::Str("blocked"@))]),
            OpenIdResponseV::Pending => JsonV::Object(seq![("state"@, JsonV::Str("request"@))]),
        }
    }

    open spec fn of_json(j: JsonV) -> Option<OpenIdResponseV> {
        match str_of(get(j, "state"@)) {
            Some(state) => if state == "allowed"@ {
                match open_id_state_of(j) {
                    Some(s) => Some(OpenIdResponseV::Allowed(s)),
                    None => None,
                }
            } else if state == "blocked"@ {
                Some(OpenIdResponseV::Blocked)
            } else if state == "request"@ {
                Some(OpenIdResponseV::Pending)
            } else {
                None
            },
            None => None,
        }
    }

    fn to_json(&self) -> (r: Json) {
        let mut entries: Vec<(String, Json)> = Vec::new();
        match self {
            OpenIdResponse::Allowed(st) => {
                entries.push(entry("state", Json::Str("allowed".to_owned())));
                entries.push(entry("original_request_id", string_json(&st.id)));
                entries.push(entry("access_token", string_json(&st.token)));
                entries.push(entry("expires_in", Json::Int(st.expires_in_seconds as i64)));
                entries.push(entry("matrix_server_name", string_json(&st.server)));
                entries.push(entry("token_type", string_json(&st.kind)));
                let r = Json::object(entries);
                assert(crate::json::entries_view(entries@) =~= open_id_state_json(st@)->Object_0);
                r
            },
            OpenIdResponse::Blocked => {
                entries.push(entry("state", Json::Str("blocked".to_owned())));
                let r = Json::object(entries);
                assert(crate::json::entries_view(entries@) =~= seq![("state"@, JsonV::Str("blocked"@))]);
                r
            },
            OpenIdResponse::Pending => {
                entries.push(entry("state", Json::Str("request".to_owned())));
                let r = Json::object(entries);
                assert(crate::json::entries_view(entries@) =~= seq![("state"@, JsonV::Str("request"@))]);
                r
            },
        }
    }

    fn from_json(j: &Json) -> (r: Option<OpenIdResponse>) {
        let state = match get_string(j, "state") {
            Some(s) => s,
            None => return None,
        };
        if str_eq(state.as_str(), "allowed") {
            let id = get_string(j, "original_request_id");
            let token = get_string(j, "access_token");
            let expires = get_u32(j, "expires_in");
            let server = get_string(j, "matrix_server_name");
            let kind = get_string(j, "token_type");
            match (id, token, expires, server, kind) {
                (Some(id), Some(token), Some(expires_in_seconds), Some(server), Some(kind)) => Some(
                    OpenIdResponse::Allowed(
                        OpenIdState { id, token, expires_in_seconds, server, kind },
                    ),
                ),
                _ => None,
            }
        } else if str_eq(state.as_str(), "blocked") {
            Some(OpenIdResponse::Blocked)
        } else if str_eq(state.as_str(), "request") {
            Some(OpenIdResponse::Pending)
        } else {
            None
        }
    }
}

pub open spec fn state_key_json(k: Option<StateKeySelectorV>) -> Seq<(Seq<char>, JsonV)> {
    match k {
        Some(StateKeySelectorV::Any) => seq![("state_key"@, JsonV::Bool(true))],
        Some(StateKeySelectorV::Key(k)) => seq![("state_key"@, JsonV::Str(k))],
        None => Seq::empty(),
    }
}

pub open spec fn state_key_of(j: Option<JsonV>) -> Option<StateKeySelectorV> {
    match j {
        Some(JsonV::Bool(true)) => Some(StateKeySelectorV::Any),
        Some(JsonV::Str(k)) => Some(StateKeySelectorV::Key(k)),
        _ => None,
    }
}

pub open spec fn limit_json(l: Option<u32>) -> Seq<(Seq<char>, JsonV)> {
    match l {
        Some(n) => seq![("limit"@, JsonV::Int(n as int))],
        None => Seq::empty(),
    }
}

impl Payload for ReadEventRequest {
    open spec fn wire_ok(v: ReadEventRequestV) -> bool {
        true
    }

    open spec fn answers() -> bool {
        false
    }

    proof fn lemma_round_trip(v: ReadEventRequestV) {
        lemma_wire_names();
        let es = Self::json_of(v)->Object_0;
        crate::json::lemma_fields_distinct(es);
        assert(es[0].0 == "type"@);
        if v.state_key is Some {
            assert(es[1].0 == "state_key"@);
        } else {
            crate::json::lemma_field_absent(es, "state_key"@);
        }
        if v.limit is Some {
            assert(es[es.len() - 1].0 == "limit"@);
        } else {
            crate::json::lemma_field_absent(es, "limit"@);
        }
        assert(Self::of_json(Self::json_of(v)) == Some(v));
        assert(ReadEventRequest::of_json(ReadEventRequest::json_of(v)) == Some(v));
    }

    proof fn lemma_no_error_field(v: ReadEventRequestV) {
        assert(!ReadEventRequest::answers());
    }

    open spec fn json_of(v: ReadEventRequestV) -> JsonV {
        JsonV::Object(
            seq![("type"@, JsonV::Str(v.event_type))] + state_key_json(v.state_key) + limit_json(
                v.limit,
            ),
        )
    }

    open spec fn of_json(j: JsonV) -> Option<ReadEventRequestV> {
        match str_of(get(j, "type"@)) {
            Some(event_type) => Some(
                ReadEventRequestV {
                    event_type,
                    state_key: state_key_of(get(j, "state_key"@)),
                    limit: u32_of(get(j, "limit"@)),
                },
            ),
            None => None,
        }
    }

    fn to_json(&self) -> (r: Json) {
        let mut entries: Vec<(String, Json)> = Vec::new();
        entries.push(entry("type", string_json(&self.event_type)));
        match &self.state_key {
            Some(StateKeySelector::Any) => entries.push(entry("state_key", Json::Bool(true))),
            Some(StateKeySelector::Key(k)) => entries.push(entry("state_key", string_json(k))),
            None => {},
        }
        match self.limit {
            Some(n) => entries.push(entry("limit", Json::Int(n as i64))),
            None => {},
        }
        let r = Json::object(entries);
        assert(crate::json::entries_view(entries@) =~= Self::json_of(self@)->Object_0);
        r
    }

    fn from_json(j: &Json) -> (r: Option<ReadEventRequest>) {
        let event_type = match get_string(j, "type") {
            Some(t) => t,
            None => return None,
        };
        let state_key = match j.get("state_key") {
            Some(Json::Bool(true)) => Some(StateKeySelector::Any),
            Some(Json::Str(k)) => Some(StateKeySelector::Key(k.clone())),
            _ => None,
        };
        let limit = get_u32(j, "limit");
        Some(ReadEventRequest { event_type, state_key, limit })
    }
}

fn clone_items(v: &Vec<Json>) -> (r: Vec<Json>)
    ensures
        items_view(r@) == items_view(v@),
{
    let mut out: Vec<Json> = Vec::new();
    let mut i: usize = 0;
    while i < v.len()
        invariant
            i <= v@.len(),
            out@.len() == i,
            forall|k: int| 0 <= k < i ==> #[trigger] out@[k]@ == v@[k]@,
        decreases v@.len() - i,
    {
        out.push(v[i].deep_clone());
        i = i + 1;
    }
    proof {
        crate::json::lemma_items_view(out@);
        crate::json::lemma_items_view(v@);
    }
    assert(items_view(out@) =~= items_view(v@));
    out
}

impl Payload for ReadEventResponse {
    open spec fn wire_ok(v: Seq<JsonV>) -> bool {
        true
    }

    open spec fn answers() -> bool {
        true
    }

    proof fn lemma_round_trip(v: Seq<JsonV>) {
        crate::json::lemma_field_at(seq![("events"@, JsonV::Array(v))], 0, "events"@);
        assert(ReadEventResponse::of_json(ReadEventResponse::json_of(v)) == Some(v));
    }

    proof fn lemma_no_error_field(v: Seq<JsonV>) {
        lemma_wire_names();
        crate::json::lemma_field_absent(seq![("events"@, JsonV::Array(v))], "error"@);
        assert(ReadEventResponse::answers() ==> get(ReadEventResponse::json_of(v), "error"@) is None);
    }

    open spec fn json_of(v: Seq<JsonV>) -> JsonV {
        JsonV::Object(seq![("events"@, JsonV::Array(v))])
    }

    open spec fn of_json(j: JsonV) -> Option<Seq<JsonV>> {
        match get(j, "events"@) {
            Some(JsonV::Array(items)) => Some(items),
            _ => None,
        }
    }

    fn to_json(&self) -> (r: Json) {
        let mut entries: Vec<(String, Json)> = Vec::new();
        entries.push(entry("events", Json::array(clone_items(&self.events))));
        let r = Json::object(entries);
        assert(crate::json::entries_view(entries@) =~= seq![("events"@, JsonV::Array(self@))]);
        r
    }

    fn from_json(j: &Json) -> (r: Option<ReadEventResponse>) {
        match j.get("events") {
            Some(Json::Array(items)) => Some(ReadEventResponse { events: clone_items(items) }),
            _ => None,
        }
    }
}

pub open spec fn opt_state_key_json(k: Option<Seq<char>>) -> Seq<(Seq<char>, JsonV)> {
    match k {
        Some(k) => seq![("state_key"@, JsonV::Str(k))],
        None => Seq::empty(),
    }
}

impl Payload for SendEventRequest {
    open spec fn wire_ok(v: SendEventRequestV) -> bool {
        true
    }

    open spec fn answers() -> bool {
        false
    }

    proof fn lemma_round_trip(v: SendEventRequestV) {
        lemma_wire_names();
        let es = Self::json_of(v)->Object_0;
        crate::json::lemma_fields_distinct(es);
        assert(es[0].0 == "type"@);
        assert(es[es.len() - 1].0 == "content"@);
        if v.state_key is Some {
            assert(es[1].0 == "state_key"@);
        } else {
            crate::json::lemma_field_absent(es, "state_key"@);
        }
        assert(SendEventRequest::of_json(SendEventRequest::json_of(v)) == Some(v));
    }

    proof fn lemma_no_error_field(v: SendEventRequestV) {
        assert(!SendEventRequest::answers());
    }

    open spec fn json_of(v: SendEventRequestV) -> JsonV {
        JsonV::Object(
            seq![("type"@, JsonV::Str(v.event_type))] + opt_state_key_json(v.state_key) + seq![
                ("content"@, v.content),
            ],
        )
    }

    open spec fn of_json(j: JsonV) -> Option<SendEventRequestV> {
        match (str_of(get(j, "type"@)), get(j, "content"@)) {
            (Some(event_type), Some(content)) => Some(
                SendEventRequestV {
                    event_type,
                    state_key: str_of(get(j, "state_key"@)),
                    content,
                },
            ),
            _ => None,
        }
    }

    fn to_json(&self) -> (r: Json) {
        let mut entries: Vec<(String, Json)> = Vec::new();
        entries.push(entry("type", string_json(&self.event_type)));
        match &self.state_key {
            Some(k) => entries.push(entry("state_key", string_json(k))),
            None => {},
        }
        entries.push(entry("content", self.content.deep_clone()));
        let r = Json::object(entries);
        assert(crate::json::entries_view(entries@) =~= Self::json_of(self@)->Object_0);
        r
    }

    fn from_json(j: &Json) -> (r: Option<SendEventRequest>) {
        let event_type = match get_string(j, "type") {
            Some(t) => t,
            None => return None,
        };
        let content = match j.get("content") {
            Some(c) => c.deep_clone(),
            None => return None,
        };
        let state_key = get_string(j, "state_key");
        Some(SendEventRequest { event_type, state_key, content })
    }
}

impl Payload for SendEventResponse {
    open spec fn wire_ok(v: SendEventResponseV) -> bool {
        true
    }

    open spec fn answers() -> bool {
        true
    }

    proof fn lemma_round_trip(v: SendEventResponseV) {
        lemma_wire_names();
        let es = Self::json_of(v)->Object_0;
        crate::json::lemma_fields_distinct(es);
        assert(es[0].0 == "room_id"@);
        assert(es[1].0 == "event_id"@);
        assert(SendEventResponse::of_json(SendEventResponse::json_of(v)) == Some(v));
    }

    proof fn lemma_no_error_field(v: SendEventResponseV) {
        lemma_wire_names();
        crate::json::lemma_field_absent(Self::json_of(v)->Object_0, "error"@);
        assert(SendEventResponse::answers() ==> get(SendEventResponse::json_of(v), "error"@) is None);
    }

    open spec fn json_of(v: SendEventResponseV) -> JsonV {
        JsonV::Object(
            seq![("room_id"@, JsonV::Str(v.room_id)), ("event_id"@, JsonV::Str(v.event_id))],
        )
    }

    open spec fn of_json(j: JsonV) -> Option<SendEventResponseV> {
        match (str_of(get(j, "room_id"@)), str_of(get(j, "event_id"@))) {
            (Some(room_id), Some(event_id)) => Some(SendEventResponseV { room_id, event_id }),
            _ => None,
        }
    }

    fn to_json(&self) -> (r: Json) {
        let mut entries: Vec<(String, Json)> = Vec::new();
        entries.push(entry("room_id", string_json(&self.room_id)));
        entries.push(entry("event_id", string_json(&self.event_id)));
        let r = Json::object(entries);
        assert(crate::json::entries_view(entries@) =~= Self::json_of(self@)->Object_0);
        r
    }

    fn from_json(j: &Json) -> (r: Option<SendEventResponse>) {
        match (get_string(j, "room_id"), get_string(j, "event_id")) {
            (Some(room_id), Some(event_id)) => Some(SendEventResponse { room_id, event_id }),
            _ => None,
        }
    }
}

impl Payload for Json {
    open spec fn wire_ok(v: JsonV) -> bool {
        true
    }

    open spec fn answers() -> bool {
        false
    }

    proof fn lemma_round_trip(v: JsonV) {
        assert(<Json as Payload>::of_json(<Json as Payload>::json_of(v)) == Some(v));
    }

    proof fn lemma_no_error_field(v: JsonV) {
        assert(!<Json as Payload>::answers());
    }

    open spec fn json_of(v: JsonV) -> JsonV {
        v
    }

    open spec fn of_json(j: JsonV) -> Option<JsonV> {
        Some(j)
    }

    fn to_json(&self) -> (r: Json) {
        self.deep_clone()
    }

    fn from_json(j: &Json) -> (r: Option<Json>) {
        Some(j.deep_clone())
    }
}

/// The JSON form of a declared failure.
pub open spec fn error_json(message: Seq<char>) -> JsonV {
    JsonV::Object(
        seq![("error"@, JsonV::Object(seq![("message"@, JsonV::Str(message))]))],
    )
}

/// The JSON form of the outcome that a reply carries.
pub open spec fn body_json<P: Payload>(b: Result<P::V, Seq<char>>) -> JsonV {
    match b {
        Ok(v) => P::json_of(v),
        Err(m) => error_json(m),
    }
}

/// The outcome that a reply's JSON stands for: a declared failure where it has an `error`
/// field, the payload otherwise.
pub open spec fn body_of<P: Payload>(j: JsonV) -> Option<Result<P::V, Seq<char>>> {
    match get(j, "error"@) {
        Some(e) => match str_of(get(e, "message"@)) {
            Some(m) => Some(Err(m)),
            None => None,
        },
        None => match P::of_json(j) {
            Some(v) => Some(Ok(v)),
            None => None,
        },
    }
}

/// The JSON form of a declared failure.
pub fn error_to_json(message: &String) -> (r: Json)
    ensures
        r@ == error_json(message@),
{
    let mut inner: Vec<(String, Json)> = Vec::new();
    inner.push(entry("message", string_json(message)));
    let inner_json = Json::object(inner);
    assert(crate::json::entries_view(inner@) =~= seq![("message"@, JsonV::Str(message@))]);
    let mut outer: Vec<(String, Json)> = Vec::new();
    outer.push(entry("error", inner_json));
    let r = Json::object(outer);
    assert(crate::json::entries_view(outer@) =~= error_json(message@)->Object_0);
    r
}

pub fn body_to_json<P: Payload>(b: &crate::messages::ResponseBody<P>) -> (r: Json)
    ensures
        r@ == body_json::<P>(b@),
{
    match b {
        crate::messages::ResponseBody::Success(v) => v.to_json(),
        crate::messages::ResponseBody::Failure(e) => error_to_json(&e.error.message),
    }
}

pub fn body_from_json<P: Payload>(j: &Json) -> (r: Option<crate::messages::ResponseBody<P>>)
    ensures
        r matches Some(b) ==> body_of::<P>(j@) == Some(b@),
        r is None ==> body_of::<P>(j@) is None,
{
    match j.get("error") {
        Some(e) => match get_string(e, "message") {
            Some(m) => Some(
                crate::messages::ResponseBody::Failure(
                    crate::messages::ErrorBody { error: crate::messages::ErrorContent { message: m } },
                ),
            ),
            None => None,
        },
        None => match P::from_json(j) {
            Some(v) => Some(crate::messages::ResponseBody::Success(v)),
            None => None,
        },
    }
}

proof fn lemma_version_name(x: ApiVersion)
    ensures
        version_of_name(version_name(x)) == Some(x),
{
    reveal_strlit("0.0.1");
    reveal_strlit("0.0.2");
    reveal_strlit("org.matrix.msc2762");
    reveal_strlit("org.matrix.msc2871");
    reveal_strlit("org.matrix.msc3819");
    assert("0.0.1"@.len() == 5 && "0.0.1"@[4] == '1');
    assert("0.0.2"@.len() == 5 && "0.0.2"@[4] == '2');
    assert("org.matrix.msc2762"@.len() == 18 && "org.matrix.msc2762"@[14] == '2' && "org.matrix.msc2762"@[15] == '7');
    assert("org.matrix.msc2871"@.len() == 18 && "org.matrix.msc2871"@[14] == '2' && "org.matrix.msc2871"@[15] == '8');
    assert("org.matrix.msc3819"@.len() == 18 && "org.matrix.msc3819"@[14] == '3');
}

proof fn lemma_versions_round_trip(v: Seq<ApiVersion>)
    ensures
        versions_of(versions_json(v)) == Some(v),
    decreases v.len(),
{
    let items = versions_json(v);
    if v.len() > 0 {
        lemma_versions_round_trip(v.drop_last());
        assert(items.drop_last() =~= versions_json(v.drop_last()));
        lemma_version_name(v.last());
        assert(v.drop_last().push(v.last()) =~= v);
    } else {
        assert(items.len() == 0);
    }
}

proof fn lemma_strings_round_trip(caps: Seq<Seq<char>>)
    ensures
        strings_of(caps.map_values(|c: Seq<char>| JsonV::Str(c))) == Some(caps),
    decreases caps.len(),
{
    let items = caps.map_values(|c: Seq<char>| JsonV::Str(c));
    if caps.len() > 0 {
        lemma_strings_round_trip(caps.drop_last());
        assert(items.drop_last() =~= caps.drop_last().map_values(|c: Seq<char>| JsonV::Str(c)));
        assert(caps.drop_last().push(caps.last()) =~= caps);
    } else {
        assert(items.len() == 0);
    }
}

/// A capability set reads back from its JSON form as itself.
pub proof fn lemma_permissions_json_round_trip(p: PermissionsV)
    requires
        crate::permissions::permissions_wire_ok(p),
    ensures
        permissions_of_json(permissions_json(p)) == Some(p),
{
    lemma_strings_round_trip(crate::permissions::capabilities_of(p));
    crate::permissions::lemma_permissions_round_trip(p);
}

/// A reply's outcome reads back from its JSON form as itself.
pub proof fn lemma_body_round_trip<P: Payload>(b: Result<P::V, Seq<char>>)
    requires
        P::answers(),
        b matches Ok(v) ==> P::wire_ok(v),
    ensures
        body_of::<P>(body_json::<P>(b)) == Some(b),
{
    lemma_wire_names();
    match b {
        Ok(v) => {
            P::lemma_no_error_field(v);
            P::lemma_round_trip(v);
        },
        Err(m) => {
            crate::json::lemma_field_at(error_json(m)->Object_0, 0, "error"@);
            crate::json::lemma_field_at(seq![("message"@, JsonV::Str(m))], 0, "message"@);
        },
    }
}

/// The length and first character of each name on the wire, by which they differ.
pub proof fn lemma_wire_names()
    ensures
        "error"@.len() == 5 && "error"@[0] == 'e',
        "message"@.len() == 7 && "message"@[0] == 'm',
        "supported_versions"@.len() == 18 && "supported_versions"@[0] == 's',
        "capabilities"@.len() == 12 && "capabilities"@[0] == 'c',
        "requested"@.len() == 9 && "requested"@[0] == 'r',
        "approved"@.len() == 8 && "approved"@[0] == 'a',
        "state"@.len() == 5 && "state"@[0] == 's',
        "allowed"@.len() == 7 && "allowed"@[0] == 'a',
        "blocked"@.len() == 7 && "blocked"@[0] == 'b',
        "request"@.len() == 7 && "request"@[0] == 'r',
        "original_request_id"@.len() == 19 && "original_request_id"@[0] == 'o',
        "access_token"@.len() == 12 && "access_token"@[0] == 'a',
        "expires_in"@.len() == 10 && "expires_in"@[0] == 'e',
        "matrix_server_name"@.len() == 18 && "matrix_server_name"@[0] == 'm',
        "token_type"@.len() == 10 && "token_type"@[0] == 't',
        "type"@.len() == 4 && "type"@[0] == 't',
        "state_key"@.len() == 9 && "state_key"@[0] == 's',
        "limit"@.len() == 5 && "limit"@[0] == 'l',
        "events"@.len() == 6 && "events"@[0] == 'e',
        "content"@.len() == 7 && "content"@[0] == 'c',
        "room_id"@.len() == 7 && "room_id"@[0] == 'r',
        "event_id"@.len() == 8 && "event_id"@[0] == 'e',
        "api"@.len() == 3 && "api"@[0] == 'a',
        "requestId"@.len() == 9 && "requestId"@[0] == 'r',
        "widgetId"@.len() == 8 && "widgetId"@[0] == 'w',
        "action"@.len() == 6 && "action"@[0] == 'a',
        "data"@.len() == 4 && "data"@[0] == 'd',
        "response"@.len() == 8 && "response"@[0] == 'r',
        "fromWidget"@.len() == 10 && "fromWidget"@[0] == 'f',
        "toWidget"@.len() == 8 && "toWidget"@[0] == 't',
        "supported_api_versions"@.len() == 22 && "supported_api_versions"@[0] == 's',
        "content_loaded"@.len() == 14 && "content_loaded"@[0] == 'c',
        "get_openid"@.len() == 10 && "get_openid"@[0] == 'g',
        "send_event"@.len() == 10 && "send_event"@[0] == 's',
        "read_events"@.len() == 11 && "read_events"@[0] == 'r',
        "notify_capabilities"@.len() == 19 && "notify_capabilities"@[0] == 'n',
        "openid_credentials"@.len() == 18 && "openid_credentials"@[0] == 'o',
{
    reveal_strlit("error");
    assert("error"@.len() == 5 && "error"@[0] == 'e');
    reveal_strlit("message");
    assert("message"@.len() == 7 && "message"@[0] == 'm');
    reveal_strlit("supported_versions");
    assert("supported_versions"@.len() == 18 && "supported_versions"@[0] == 's');
    reveal_strlit("capabilities");
    assert("capabilities"@.len() == 12 && "capabilities"@[0] == 'c');
    reveal_strlit("requested");
    assert("requested"@.len() == 9 && "requested"@[0] == 'r');
    reveal_strlit("approved");
    assert("approved"@.len() == 8 && "approved"@[0] == 'a');
    reveal_strlit("state");
    assert("state"@.len() == 5 && "state"@[0] == 's');
    reveal_strlit("allowed");
    assert("allowed"@.len() == 7 && "allowed"@[0] == 'a');
    reveal_strlit("blocked");
    assert("blocked"@.len() == 7 && "blocked"@[0] == 'b');
    reveal_strlit("request");
    assert("request"@.len() == 7 && "request"@[0] == 'r');
    reveal_strlit("original_request_id");
    assert("original_request_id"@.len() == 19 && "original_request_id"@[0] == 'o');
    reveal_strlit("access_token");
    assert("access_token"@.len() == 12 && "access_token"@[0] == 'a');
    reveal_strlit("expires_in");
    assert("expires_in"@.len() == 10 && "expires_in"@[0] == 'e');
    reveal_strlit("matrix_server_name");
    assert("matrix_server_name"@.len() == 18 && "matrix_server_name"@[0] == 'm');
    reveal_strlit("token_type");
    assert("token_type"@.len() == 10 && "token_type"@[0] == 't');
    reveal_strlit("type");
    assert("type"@.len() == 4 && "type"@[0] == 't');
    reveal_strlit("state_key");
    assert("state_key"@.len() == 9 && "state_key"@[0] == 's');
    reveal_strlit("limit");
    assert("limit"@.len() == 5 && "limit"@[0] == 'l');
    reveal_strlit("events");
    assert("events"@.len() == 6 && "events"@[0] == 'e');
    reveal_strlit("content");
    assert("content"@.len() == 7 && "content"@[0] == 'c');
    reveal_strlit("room_id");
    assert("room_id"@.len() == 7 && "room_id"@[0] == 'r');
    reveal_strlit("event_id");
    assert("event_id"@.len() == 8 && "event_id"@[0] == 'e');
    reveal_strlit("api");
    assert("api"@.len() == 3 && "api"@[0] == 'a');
    reveal_strlit("requestId");
    assert("requestId"@.len() == 9 && "requestId"@[0] == 'r');
    reveal_strlit("widgetId");
    assert("widgetId"@.len() == 8 && "widgetId"@[0] == 'w');
    reveal_strlit("action");
    assert("action"@.len() == 6 && "action"@[0] == 'a');
    reveal_strlit("data");
    assert("data"@.len() == 4 && "data"@[0] == 'd');
    reveal_strlit("response");
    assert("response"@.len() == 8 && "response"@[0] == 'r');
    reveal_strlit("fromWidget");
    assert("fromWidget"@.len() == 10 && "fromWidget"@[0] == 'f');
    reveal_strlit("toWidget");
    assert("toWidget"@.len() == 8 && "toWidget"@[0] == 't');
    reveal_strlit("supported_api_versions");
    assert("supported_api_versions"@.len() == 22 && "supported_api_versions"@[0] == 's');
    reveal_strlit("content_loaded");
    assert("content_loaded"@.len() == 14 && "content_loaded"@[0] == 'c');
    reveal_strlit("get_openid");
    assert("get_openid"@.len() == 10 && "get_openid"@[0] == 'g');
    reveal_strlit("send_event");
    assert("send_event"@.len() == 10 && "send_event"@[0] == 's');
    reveal_strlit("read_events");
    assert("read_events"@.len() == 11 && "read_events"@[0] == 'r');
    reveal_strlit("notify_capabilities");
    assert("notify_capabilities"@.len() == 19 && "notify_capabilities"@[0] == 'n');
    reveal_strlit("openid_credentials");
    assert("openid_credentials"@.len() == 18 && "openid_credentials"@[0] == 'o');
}

} // verus!

//! The API client: typed data, request building, response decoding.
//!
//! A response is decoded by its status code: a 200 body is deserialized into
//! the expected success shape, any other status must carry an `error` field
//! whose string becomes a `RemoteError`.  A body that breaks either
//! assumption is a `DecodeError`.  Sending a request is the caller's part;
//! the builders here say exactly what is to be sent, the Authorization
//! header among it.

use vstd::prelude::*;
use vstd::map::*;
use vstd::string::StringExecFns;
use crate::json::{Json, JsonV, arr_view, json_of, json_view, obj_get, obj_view, parse_json,
    text_of, to_text, lemma_arr_view};

verus! {

// ---------------------------------------------------------------------------
// Typed data and its views
// ---------------------------------------------------------------------------

/// A user profile, as the backend reports it.
#[derive(Debug, Clone, PartialEq)]
pub struct User {
    pub username: String,
    pub uuid: String,
    pub avatar: String,
    pub banner: String,
    pub created_at: i64,
    pub updated_at: i64,
}

#[verifier::ext_equal]
pub struct UserV {
    pub username: Seq<char>,
    pub uuid: Seq<char>,
    pub avatar: Seq<char>,
    pub banner: Seq<char>,
    pub created_at: int,
    pub updated_at: int,
}

impl View for User {
    type V = UserV;

    open spec fn view(&self) -> UserV {
        UserV {
            username: self.username@,
            uuid: self.uuid@,
            avatar: self.avatar@,
            banner: self.banner@,
            created_at: self.created_at as int,
            updated_at: self.updated_at as int,
        }
    }
}

/// The authenticated context a successful login yields: the bearer token and
/// the profile it belongs to.  Immutable once created.
#[derive(Debug, Clone, PartialEq)]
pub struct UserData {
    pub user: User,
    pub token: String,
}

#[verifier::ext_equal]
pub struct UserDataV {
    pub user: UserV,
    pub token: Seq<char>,
}

impl View for UserData {
    type V = UserDataV;

    open spec fn view(&self) -> UserDataV {
        UserDataV { user: self.user@, token: self.token@ }
    }
}

/// What a machine reported about itself; absent for a machine that never
/// reported.
#[derive(Debug, Clone, PartialEq)]
pub struct StaticData {
    pub hostname: String,
    pub os_version: Option<String>,
    pub os_name: String,
    pub cpu_cores: u16,
    pub cpu_model: String,
    pub cpu_threads: u16,
    pub total_mem: Option<u64>,
    pub reporter_version: Option<String>,
}

#[verifier::ext_equal]
pub struct StaticDataV {
    pub hostname: Seq<char>,
    pub os_version: Option<Seq<char>>,
    pub os_name: Seq<char>,
    pub cpu_cores: int,
    pub cpu_model: Seq<char>,
    pub cpu_threads: int,
    pub total_mem: Option<int>,
    pub reporter_version: Option<Seq<char>>,
}

impl View for StaticData {
    type V = StaticDataV;

    open spec fn view(&self) -> StaticDataV {
        StaticDataV {
            hostname: self.hostname@,
            os_version: self.os_version.deep_view(),
            os_name: self.os_name@,
            cpu_cores: self.cpu_cores as int,
            cpu_model: self.cpu_model@,
            cpu_threads: self.cpu_threads as int,
            total_mem: (match self.total_mem {
                Some(m) => Some(m as int),
                None => None,
            }),
            reporter_version: self.reporter_version.deep_view(),
        }
    }
}

/// A machine of the inventory.  `static_data` and `access` may be absent:
/// the backend populates them inconsistently, and absence is valid.
#[derive(Debug, Clone, PartialEq)]
pub struct Machine {
    pub static_data: Option<StaticData>,
    pub owner_uuid: String,
    pub hardware_uuid: String,
    pub name: String,
    pub status: String,
    pub access: Option<Vec<String>>,
    pub created_at: i64,
    pub updated_at: i64,
    pub uuid: String,
}

#[verifier::ext_equal]
pub struct MachineV {
    pub static_data: Option<StaticDataV>,
    pub owner_uuid: Seq<char>,
    pub hardware_uuid: Seq<char>,
    pub name: Seq<char>,
    pub status: Seq<char>,
    pub access: Option<Seq<Seq<char>>>,
    pub created_at: int,
    pub updated_at: int,
    pub uuid: Seq<char>,
}

impl View for Machine {
    type V = MachineV;

    open spec fn view(&self) -> MachineV {
        MachineV {
            static_data: (match self.static_data {
                Some(d) => Some(d@),
                None => None,
            }),
            owner_uuid: self.owner_uuid@,
            hardware_uuid: self.hardware_uuid@,
            name: self.name@,
            status: self.status@,
            access: self.access.deep_view(),
            created_at: self.created_at as int,
            updated_at: self.updated_at as int,
            uuid: self.uuid@,
        }
    }
}

// ---------------------------------------------------------------------------
// Errors
// ---------------------------------------------------------------------------

/// Why an operation failed.
#[derive(Debug, Clone, PartialEq)]
pub enum ApiError {
    /// The method is neither GET nor POST: a programmer error.
    UnsupportedMethod,
    /// The request never reached, or never returned from, the network layer.
    TransportError(String),
    /// The response body breaks the backend's contract: malformed JSON, a
    /// required field missing or ill-typed, or a non-200 response without
    /// its mandated error message.
    DecodeError,
    /// The backend rejected the request and said why.
    RemoteError(String),
}

#[verifier::ext_equal]
pub enum ApiErrorV {
    UnsupportedMethod,
    TransportError(Seq<char>),
    DecodeError,
    RemoteError(Seq<char>),
}

impl View for ApiError {
    type V = ApiErrorV;

    open spec fn view(&self) -> ApiErrorV {
        match self {
            ApiError::UnsupportedMethod => ApiErrorV::UnsupportedMethod,
            ApiError::TransportError(m) => ApiErrorV::TransportError(m@),
            ApiError::DecodeError => ApiErrorV::DecodeError,
            ApiError::RemoteError(m) => ApiErrorV::RemoteError(m@),
        }
    }
}

impl ApiError {
    /// The message to show for this error.
    pub open spec fn message_view(&self) -> Seq<char> {
        match self {
            ApiError::UnsupportedMethod => "unsupported method"@,
            ApiError::TransportError(m) => m@,
            ApiError::DecodeError => "invalid response from the backend"@,
            ApiError::RemoteError(m) => m@,
        }
    }

    /// The message to show for this error.
    pub fn message(&self) -> (r: String)
        ensures
            r@ == self.message_view(),
    {
        match self {
            ApiError::UnsupportedMethod => "unsupported method".to_owned(),
            ApiError::TransportError(m) => m.clone(),
            ApiError::DecodeError => "invalid response from the backend".to_owned(),
            ApiError::RemoteError(m) => m.clone(),
        }
    }
}

// ---------------------------------------------------------------------------
// What each JSON shape means
// ---------------------------------------------------------------------------

/// The field `k` of object `j`.
pub open spec fn obj_field(j: JsonV, k: Seq<char>) -> Option<JsonV> {
    match j {
        JsonV::Obj(m) => if m.contains_key(k) {
            Some(m[k])
        } else {
            None
        },
        _ => None,
    }
}

/// The field `k` of object `j`, which must hold a string.
pub open spec fn str_field(j: JsonV, k: Seq<char>) -> Option<Seq<char>> {
    match obj_field(j, k) {
        Some(JsonV::Str(s)) => Some(s),
        _ => None,
    }
}

/// The field `k` of object `j`, which must hold an integer.
pub open spec fn int_field(j: JsonV, k: Seq<char>) -> Option<int> {
    match obj_field(j, k) {
        Some(JsonV::Int(i)) => Some(i),
        _ => None,
    }
}

pub open spec fn in_i64(i: int) -> bool {
    i64::MIN as int <= i <= i64::MAX as int
}

/// An optional string field: absent or null is a valid absence (outer
/// `Some(None)`); any value but a string is ill-typed (outer `None`).
pub open spec fn opt_str_field(j: JsonV, k: Seq<char>) -> Option<Option<Seq<char>>> {
    match obj_field(j, k) {
        None => Some(None),
        Some(JsonV::Null) => Some(None),
        Some(JsonV::Str(s)) => Some(Some(s)),
        Some(_) => None,
    }
}

/// An optional unsigned integer field, `total_mem`'s shape.
pub open spec fn opt_u64_field(j: JsonV, k: Seq<char>) -> Option<Option<int>> {
    match obj_field(j, k) {
        None => Some(None),
        Some(JsonV::Null) => Some(None),
        Some(JsonV::Int(i)) => if 0 <= i <= u64::MAX as int {
            Some(Some(i))
        } else {
            None
        },
        Some(_) => None,
    }
}

/// The profile a `user` object decodes to, if well-formed.
pub open spec fn user_view(j: JsonV) -> Option<UserV> {
    if str_field(j, "username"@) is Some && str_field(j, "uuid"@) is Some && str_field(
        j,
        "avatar"@,
    ) is Some && str_field(j, "banner"@) is Some && int_field(j, "created_at"@) is Some
        && int_field(j, "updated_at"@) is Some && in_i64(int_field(j, "created_at"@)->0) && in_i64(
        int_field(j, "updated_at"@)->0,
    ) {
        Some(
            UserV {
                username: str_field(j, "username"@)->0,
                uuid: str_field(j, "uuid"@)->0,
                avatar: str_field(j, "avatar"@)->0,
                banner: str_field(j, "banner"@)->0,
                created_at: int_field(j, "created_at"@)->0,
                updated_at: int_field(j, "updated_at"@)->0,
            },
        )
    } else {
        None
    }
}

/// The session a 200 login body decodes to, if well-formed: a `token`
/// string beside a well-formed `user` object.
pub open spec fn login_view(j: JsonV) -> Option<UserDataV> {
    match obj_field(j, "user"@) {
        Some(u) => match (user_view(u), str_field(j, "token"@)) {
            (Some(uv), Some(t)) => Some(UserDataV { user: uv, token: t }),
            _ => None,
        },
        None => None,
    }
}

/// The static data a `static_data` object decodes to, if well-formed.
pub open spec fn static_view(j: JsonV) -> Option<StaticDataV> {
    if str_field(j, "hostname"@) is Some && str_field(j, "os_name"@) is Some && str_field(
        j,
        "cpu_model"@,
    ) is Some && opt_str_field(j, "os_version"@) is Some && opt_str_field(
        j,
        "reporter_version"@,
    ) is Some && opt_u64_field(j, "total_mem"@) is Some && int_field(j, "cpu_cores"@) is Some
        && int_field(j, "cpu_threads"@) is Some && 0 <= int_field(j, "cpu_cores"@)->0 <= u16::MAX
        as int && 0 <= int_field(j, "cpu_threads"@)->0 <= u16::MAX as int {
        Some(
            StaticDataV {
                hostname: str_field(j, "hostname"@)->0,
                os_version: opt_str_field(j, "os_version"@)->0,
                os_name: str_field(j, "os_name"@)->0,
                cpu_cores: int_field(j, "cpu_cores"@)->0,
                cpu_model: str_field(j, "cpu_model"@)->0,
                cpu_threads: int_field(j, "cpu_threads"@)->0,
                total_mem: opt_u64_field(j, "total_mem"@)->0,
                reporter_version: opt_str_field(j, "reporter_version"@)->0,
            },
        )
    } else {
        None
    }
}

/// All elements of `s` as strings, if every one is a string.
pub open spec fn all_strs(s: Seq<JsonV>) -> Option<Seq<Seq<char>>> {
    if forall|k: int| 0 <= k < s.len() ==> s[k] is Str {
        Some(Seq::new(s.len(), |k: int| s[k]->Str_0))
    } else {
        None
    }
}

/// The `access` field: absent or null is a valid absence; else a list in
/// which every element must be a string.
pub open spec fn access_field(j: JsonV) -> Option<Option<Seq<Seq<char>>>> {
    match obj_field(j, "access"@) {
        None => Some(None),
        Some(JsonV::Null) => Some(None),
        Some(JsonV::Arr(s)) => match all_strs(s) {
            Some(v) => Some(Some(v)),
            None => None,
        },
        Some(_) => None,
    }
}

/// The `static_data` field: absent or null is a valid absence, not an
/// error; else it must be a well-formed static-data object.
pub open spec fn static_field(j: JsonV) -> Option<Option<StaticDataV>> {
    match obj_field(j, "static_data"@) {
        None => Some(None),
        Some(JsonV::Null) => Some(None),
        Some(s) => match static_view(s) {
            Some(d) => Some(Some(d)),
            None => None,
        },
    }
}

/// The required fields of a machine object, all present and well-typed.
pub open spec fn machine_core_ok(j: JsonV) -> bool {
    &&& str_field(j, "uuid"@) is Some
    &&& str_field(j, "owner_uuid"@) is Some
    &&& str_field(j, "hardware_uuid"@) is Some
    &&& str_field(j, "name"@) is Some
    &&& str_field(j, "status"@) is Some
    &&& int_field(j, "created_at"@) is Some
    &&& int_field(j, "updated_at"@) is Some
    &&& in_i64(int_field(j, "created_at"@)->0)
    &&& in_i64(int_field(j, "updated_at"@)->0)
    &&& access_field(j) is Some
}

/// The machine a machine object decodes to, if well-formed.
pub open spec fn machine_view(j: JsonV) -> Option<MachineV> {
    if machine_core_ok(j) && static_field(j) is Some {
        Some(
            MachineV {
                static_data: static_field(j)->0,
                owner_uuid: str_field(j, "owner_uuid"@)->0,
                hardware_uuid: str_field(j, "hardware_uuid"@)->0,
                name: str_field(j, "name"@)->0,
                status: str_field(j, "status"@)->0,
                access: access_field(j)->0,
                created_at: int_field(j, "created_at"@)->0,
                updated_at: int_field(j, "updated_at"@)->0,
                uuid: str_field(j, "uuid"@)->0,
            },
        )
    } else {
        None
    }
}

/// The inventory a 200 machines body decodes to, if well-formed: a list in
/// which every element is a well-formed machine object.
pub open spec fn machines_view(j: JsonV) -> Option<Seq<MachineV>> {
    match j {
        JsonV::Arr(s) => if forall|k: int| 0 <= k < s.len() ==> machine_view(s[k]) is Some {
            Some(Seq::new(s.len(), |k: int| machine_view(s[k])->0))
        } else {
            None
        },
        _ => None,
    }
}

// ---------------------------------------------------------------------------
// What a raw response means
// ---------------------------------------------------------------------------

/// A response as the network layer hands it over: status code and body text.
#[derive(Debug, Clone, PartialEq)]
pub struct RawResponse {
    pub status: u16,
    pub body: String,
}

/// What a non-200 body means: its `error` string, or a broken contract.
pub open spec fn error_outcome(b: Option<JsonV>) -> ApiErrorV {
    match b {
        Some(j) => match str_field(j, "error"@) {
            Some(m) => ApiErrorV::RemoteError(m),
            None => ApiErrorV::DecodeError,
        },
        None => ApiErrorV::DecodeError,
    }
}

/// What a login response means, by status code and parsed body.
pub open spec fn login_outcome(status: u16, b: Option<JsonV>) -> Result<UserDataV, ApiErrorV> {
    if status == 200 {
        match b {
            Some(j) => match login_view(j) {
                Some(u) => Ok(u),
                None => Err(ApiErrorV::DecodeError),
            },
            None => Err(ApiErrorV::DecodeError),
        }
    } else {
        Err(error_outcome(b))
    }
}

/// What a machines response means, by status code and parsed body.
pub open spec fn machines_outcome(status: u16, b: Option<JsonV>) -> Result<
    Seq<MachineV>,
    ApiErrorV,
> {
    if status == 200 {
        match b {
            Some(j) => match machines_view(j) {
                Some(s) => Ok(s),
                None => Err(ApiErrorV::DecodeError),
            },
            None => Err(ApiErrorV::DecodeError),
        }
    } else {
        Err(error_outcome(b))
    }
}

// ---------------------------------------------------------------------------
// Decoding
// ---------------------------------------------------------------------------

/// Decodes a `user` object.
pub fn decode_user(j: &Json) -> (r: Option<User>)
    ensures
        (r matches Some(u) ==> user_view(j@) == Some(u@)),
        (r is None ==> user_view(j@) is None),
{
    let o = match j {
        Json::Obj(o) => o,
        _ => {
            return None;
        },
    };
    let username = match obj_get(o, "username") {
        Some(Json::Str(s)) => s.clone(),
        _ => {
            return None;
        },
    };
    let uuid = match obj_get(o, "uuid") {
        Some(Json::Str(s)) => s.clone(),
        _ => {
            return None;
        },
    };
    let avatar = match obj_get(o, "avatar") {
        Some(Json::Str(s)) => s.clone(),
        _ => {
            return None;
        },
    };
    let banner = match obj_get(o, "banner") {
        Some(Json::Str(s)) => s.clone(),
        _ => {
            return None;
        },
    };
    let created_at = match obj_get(o, "created_at") {
        Some(Json::Int(i)) => *i,
        _ => {
            return None;
        },
    };
    let updated_at = match obj_get(o, "updated_at") {
        Some(Json::Int(i)) => *i,
        _ => {
            return None;
        },
    };
    Some(User { username, uuid, avatar, banner, created_at, updated_at })
}

/// Decodes a 200 login body: a `token` string beside a `user` object.
pub fn decode_user_data(j: &Json) -> (r: Option<UserData>)
    ensures
        (r matches Some(d) ==> login_view(j@) == Some(d@)),
        (r is None ==> login_view(j@) is None),
{
    let o = match j {
        Json::Obj(o) => o,
        _ => {
            return None;
        },
    };
    let user = match obj_get(o, "user") {
        Some(u) => match decode_user(u) {
            Some(u) => u,
            None => {
                return None;
            },
        },
        None => {
            return None;
        },
    };
    let token = match obj_get(o, "token") {
        Some(Json::Str(s)) => s.clone(),
        _ => {
            return None;
        },
    };
    Some(UserData { user, token })
}

/// Decodes a `static_data` object.
pub fn decode_static(j: &Json) -> (r: Option<StaticData>)
    ensures
        (r matches Some(d) ==> static_view(j@) == Some(d@)),
        (r is None ==> static_view(j@) is None),
{
    let o = match j {
        Json::Obj(o) => o,
        _ => {
            return None;
        },
    };
    let hostname = match obj_get(o, "hostname") {
        Some(Json::Str(s)) => s.clone(),
        _ => {
            return None;
        },
    };
    let os_name = match obj_get(o, "os_name") {
        Some(Json::Str(s)) => s.clone(),
        _ => {
            return None;
        },
    };
    let cpu_model = match obj_get(o, "cpu_model") {
        Some(Json::Str(s)) => s.clone(),
        _ => {
            return None;
        },
    };
    let os_version = match obj_get(o, "os_version") {
        None => None,
        Some(Json::Null) => None,
        Some(Json::Str(s)) => Some(s.clone()),
        _ => {
            return None;
        },
    };
    let reporter_version = match obj_get(o, "reporter_version") {
        None => None,
        Some(Json::Null) => None,
        Some(Json::Str(s)) => Some(s.clone()),
        _ => {
            return None;
        },
    };
    let total_mem = match obj_get(o, "total_mem") {
        None => None,
        Some(Json::Null) => None,
        Some(Json::Int(i)) => if *i >= 0 {
            Some(*i as u64)
        } else {
            return None;
        },
        _ => {
            return None;
        },
    };
    let cpu_cores = match obj_get(o, "cpu_cores") {
        Some(Json::Int(i)) => if 0 <= *i && *i <= u16::MAX as i64 {
            *i as u16
        } else {
            return None;
        },
        _ => {
            return None;
        },
    };
    let cpu_threads = match obj_get(o, "cpu_threads") {
        Some(Json::Int(i)) => if 0 <= *i && *i <= u16::MAX as i64 {
            *i as u16
        } else {
            return None;
        },
        _ => {
            return None;
        },
    };
    Some(
        StaticData {
            hostname,
            os_version,
            os_name,
            cpu_cores,
            cpu_model,
            cpu_threads,
            total_mem,
            reporter_version,
        },
    )
}

/// Decodes a machine object.
#[verifier::loop_isolation(false)]
pub fn decode_machine(j: &Json) -> (r: Option<Machine>)
    ensures
        (r matches Some(m) ==> machine_view(j@) == Some(m@)),
        (r is None ==> machine_view(j@) is None),
{
    let o = match j {
        Json::Obj(o) => o,
        _ => {
            return None;
        },
    };
    let uuid = match obj_get(o, "uuid") {
        Some(Json::Str(s)) => s.clone(),
        _ => {
            return None;
        },
    };
    let owner_uuid = match obj_get(o, "owner_uuid") {
        Some(Json::Str(s)) => s.clone(),
        _ => {
            return None;
        },
    };
    let hardware_uuid = match obj_get(o, "hardware_uuid") {
        Some(Json::Str(s)) => s.clone(),
        _ => {
            return None;
        },
    };
    let name = match obj_get(o, "name") {
        Some(Json::Str(s)) => s.clone(),
        _ => {
            return None;
        },
    };
    let status = match obj_get(o, "status") {
        Some(Json::Str(s)) => s.clone(),
        _ => {
            return None;
        },
    };
    let created_at = match obj_get(o, "created_at") {
        Some(Json::Int(i)) => *i,
        _ => {
            return None;
        },
    };
    let updated_at = match obj_get(o, "updated_at") {
        Some(Json::Int(i)) => *i,
        _ => {
            return None;
        },
    };
    let access: Option<Vec<String>> = match obj_get(o, "access") {
        None => None,
        Some(Json::Null) => None,
        Some(Json::Arr(a)) => {
            proof {
                lemma_arr_view(a@);
            }
            let ghost s = arr_view(a@);
            let mut v: Vec<String> = Vec::new();
            let mut i: usize = 0;
            while i < a.len()
                invariant
                    i <= a.len(),
                    s == arr_view(a@),
                    s.len() == a@.len(),
                    forall|k: int| 0 <= k < a@.len() ==> s[k] == json_view(a@[k]),
                    forall|k: int| 0 <= k < i ==> s[k] is Str,
                    v@.len() == i,
                    forall|k: int| 0 <= k < i ==> v@[k]@ == s[k]->Str_0,
                decreases a.len() - i,
            {
                match &a[i] {
                    Json::Str(st) => v.push(st.clone()),
                    _ => {
                        proof {
                            assert(!(s[i as int] is Str));
                            assert(!(forall|k: int| 0 <= k < s.len() ==> s[k] is Str));
                        }
                        return None;
                    },
                }
                i = i + 1;
            }
            proof {
                assert(all_strs(s) matches Some(w) && v.deep_view() =~= w);
            }
            Some(v)
        },
        _ => {
            return None;
        },
    };
    let static_data = match obj_get(o, "static_data") {
        None => None,
        Some(Json::Null) => None,
        Some(sd) => match decode_static(sd) {
            Some(d) => Some(d),
            None => {
                return None;
            },
        },
    };
    Some(
        Machine {
            static_data,
            owner_uuid,
            hardware_uuid,
            name,
            status,
            access,
            created_at,
            updated_at,
            uuid,
        },
    )
}

/// Decodes a 200 machines body: a list of machine objects.
#[verifier::loop_isolation(false)]
pub fn decode_machine_list(j: &Json) -> (r: Option<Vec<Machine>>)
    ensures
        (r matches Some(v) ==> machines_view(j@) matches Some(s) && v@.len() == s.len() && (forall|
            k: int,
        |
            0 <= k < s.len() ==> v@[k]@ == s[k])),
        (r is None ==> machines_view(j@) is None),
{
    let a = match j {
        Json::Arr(a) => a,
        _ => {
            return None;
        },
    };
    proof {
        lemma_arr_view(a@);
    }
    let ghost s = arr_view(a@);
    let mut v: Vec<Machine> = Vec::new();
    let mut i: usize = 0;
    while i < a.len()
        invariant
            i <= a.len(),
            s == arr_view(a@),
            s.len() == a@.len(),
            forall|k: int| 0 <= k < a@.len() ==> s[k] == json_view(a@[k]),
            forall|k: int| 0 <= k < i ==> machine_view(s[k]) is Some,
            v@.len() == i,
            forall|k: int| 0 <= k < i ==> machine_view(s[k]) == Some(v@[k]@),
        decreases a.len() - i,
    {
        match decode_machine(&a[i]) {
            Some(m) => v.push(m),
            None => {
                proof {
                    assert(machine_view(s[i as int]) is None);
                    assert(!(forall|k: int| 0 <= k < s.len() ==> machine_view(s[k]) is Some));
                }
                return None;
            },
        }
        i = i + 1;
    }
    Some(v)
}

/// Decodes a non-200 body: its `error` string becomes a `RemoteError`; a
/// body without one breaks the backend's contract and is a `DecodeError`.
pub fn decode_error(body: &str) -> (e: ApiError)
    ensures
        e@ == error_outcome(json_of(body@)),
{
    match parse_json(body) {
        Some(Json::Obj(o)) => match obj_get(&o, "error") {
            Some(Json::Str(m)) => ApiError::RemoteError(m.clone()),
            _ => ApiError::DecodeError,
        },
        _ => ApiError::DecodeError,
    }
}

/// Decodes a raw login response: a 200 body into a session, any other
/// status into the error it carries.
pub fn decode_login(raw: &RawResponse) -> (r: Result<UserData, ApiError>)
    ensures
        (match (r, login_outcome(raw.status, json_of(raw.body@))) {
            (Ok(d), Ok(u)) => d@ == u,
            (Err(e), Err(ev)) => e@ == ev,
            _ => false,
        }),
{
    if raw.status == 200 {
        match parse_json(raw.body.as_str()) {
            Some(j) => match decode_user_data(&j) {
                Some(d) => Ok(d),
                None => Err(ApiError::DecodeError),
            },
            None => Err(ApiError::DecodeError),
        }
    } else {
        Err(decode_error(raw.body.as_str()))
    }
}

/// Decodes a raw machines response: a 200 body into the inventory, any
/// other status into the error it carries.
pub fn decode_machines(raw: &RawResponse) -> (r: Result<Vec<Machine>, ApiError>)
    ensures
        (match (r, machines_outcome(raw.status, json_of(raw.body@))) {
            (Ok(v), Ok(s)) => v@.len() == s.len() && (forall|k: int|
                0 <= k < s.len() ==> v@[k]@ == s[k]),
            (Err(e), Err(ev)) => e@ == ev,
            _ => false,
        }),
{
    if raw.status == 200 {
        match parse_json(raw.body.as_str()) {
            Some(j) => match decode_machine_list(&j) {
                Some(v) => Ok(v),
                None => Err(ApiError::DecodeError),
            },
            None => Err(ApiError::DecodeError),
        }
    } else {
        Err(decode_error(raw.body.as_str()))
    }
}

// ---------------------------------------------------------------------------
// Request building
// ---------------------------------------------------------------------------

/// The fixed origin the client speaks to by default; a builder takes the
/// base as an argument so a test can target a stub server.
pub const BACKEND: &'static str = "https://backend.xornet.cloud";

/// An HTTP method the client can dispatch.
#[derive(Debug, Clone, Copy, PartialEq, Eq, Structural)]
pub enum Method {
    Get,
    Post,
}

/// A request, ready for a network layer to send: everything that goes on
/// the wire is stated here.
#[derive(Debug, Clone, PartialEq)]
pub struct HttpRequest {
    pub method: Method,
    pub url: String,
    pub headers: Vec<(String, String)>,
    pub body: Option<String>,
}

#[verifier::ext_equal]
pub struct HttpRequestV {
    pub method: Method,
    pub url: Seq<char>,
    pub headers: Seq<(Seq<char>, Seq<char>)>,
    pub body: Option<Seq<char>>,
}

impl View for HttpRequest {
    type V = HttpRequestV;

    open spec fn view(&self) -> HttpRequestV {
        HttpRequestV {
            method: self.method,
            url: self.url@,
            headers: Seq::new(self.headers@.len(), |k: int| (self.headers@[k].0@, self.headers@[k].1@)),
            body: self.body.deep_view(),
        }
    }
}

/// The Authorization value: the session's token, or the sentinel for an
/// anonymous request — the header is never omitted.
pub open spec fn auth_of(session: Option<UserDataV>) -> Seq<char> {
    match session {
        Some(u) => u.token,
        None => "unset"@,
    }
}

pub open spec fn session_view(s: Option<UserData>) -> Option<UserDataV> {
    match s {
        Some(u) => Some(u@),
        None => None,
    }
}

pub open spec fn url_of(base: Seq<char>, endpoint: Seq<char>) -> Seq<char> {
    base + "/"@ + endpoint
}

/// The one GET shape: no body, the Authorization header alone.
pub open spec fn get_request_view(base: Seq<char>, endpoint: Seq<char>, auth: Seq<char>) -> HttpRequestV {
    HttpRequestV {
        method: Method::Get,
        url: url_of(base, endpoint),
        headers: seq![("Authorization"@, auth)],
        body: None,
    }
}

/// The one POST shape: a JSON content type and the body as JSON text.
pub open spec fn post_request_view(base: Seq<char>, endpoint: Seq<char>, body: JsonV, auth: Seq<char>) -> HttpRequestV {
    HttpRequestV {
        method: Method::Post,
        url: url_of(base, endpoint),
        headers: seq![("Content-Type"@, "application/json"@), ("Authorization"@, auth)],
        body: Some(text_of(body)),
    }
}

/// What dispatching builds: a request for GET and POST, the programmer
/// error for any other method.
pub open spec fn dispatch_view(
    method: Seq<char>,
    base: Seq<char>,
    endpoint: Seq<char>,
    body: JsonV,
    session: Option<UserDataV>,
) -> Result<HttpRequestV, ApiErrorV> {
    if method == "GET"@ {
        Ok(get_request_view(base, endpoint, auth_of(session)))
    } else if method == "POST"@ {
        Ok(post_request_view(base, endpoint, body, auth_of(session)))
    } else {
        Err(ApiErrorV::UnsupportedMethod)
    }
}

fn str_eq(a: &str, b: &str) -> (r: bool)
    ensures
        r == (a@ == b@),
{
    a.to_owned() == b.to_owned()
}

fn auth_header_value(session: &Option<UserData>) -> (t: String)
    ensures
        t@ == auth_of(session_view(*session)),
{
    match session {
        Some(u) => u.token.clone(),
        None => "unset".to_owned(),
    }
}

fn make_url(base: &str, endpoint: &str) -> (u: String)
    ensures
        u@ == url_of(base@, endpoint@),
{
    let mut u = base.to_owned();
    u.append("/");
    u.append(endpoint);
    u
}

fn get_request(base: &str, endpoint: &str, auth: String) -> (r: HttpRequest)
    ensures
        r@ == get_request_view(base@, endpoint@, auth@),
{
    let mut headers: Vec<(String, String)> = Vec::new();
    headers.push(("Authorization".to_owned(), auth));
    let r = HttpRequest { method: Method::Get, url: make_url(base, endpoint), headers, body: None };
    proof {
        assert(r@ =~= get_request_view(base@, endpoint@, auth@));
    }
    r
}

fn post_request(base: &str, endpoint: &str, body: &Json, auth: String) -> (r: HttpRequest)
    ensures
        r@ == post_request_view(base@, endpoint@, body@, auth@),
{
    let mut headers: Vec<(String, String)> = Vec::new();
    headers.push(("Content-Type".to_owned(), "application/json".to_owned()));
    headers.push(("Authorization".to_owned(), auth));
    let r = HttpRequest {
        method: Method::Post,
        url: make_url(base, endpoint),
        headers,
        body: Some(to_text(body)),
    };
    proof {
        assert(r@ =~= post_request_view(base@, endpoint@, body@, auth@));
    }
    r
}

/// Builds the request that dispatching `method` against `base` sends: the
/// target is `base` + "/" + `endpoint`; the Authorization header carries
/// the session's token, or the sentinel when there is no session; a POST
/// carries the body as JSON text under a JSON content type.  A method
/// other than GET or POST is a programmer error, not dispatched.
pub fn request(
    base: &str,
    method: &str,
    endpoint: &str,
    body: &Json,
    session: &Option<UserData>,
) -> (r: Result<HttpRequest, ApiError>)
    ensures
        (match r {
            Ok(q) => dispatch_view(method@, base@, endpoint@, body@, session_view(*session))
                == Ok::<HttpRequestV, ApiErrorV>(q@),
            Err(e) => dispatch_view(method@, base@, endpoint@, body@, session_view(*session))
                == Err::<HttpRequestV, ApiErrorV>(e@),
        }),
{
    if str_eq(method, "GET") {
        Ok(get_request(base, endpoint, auth_header_value(session)))
    } else if str_eq(method, "POST") {
        Ok(post_request(base, endpoint, body, auth_header_value(session)))
    } else {
        Err(ApiError::UnsupportedMethod)
    }
}

// ---------------------------------------------------------------------------
// Endpoints
// ---------------------------------------------------------------------------

/// The body a login sends: the two credentials, nothing else.
pub open spec fn login_body_view(u: Seq<char>, p: Seq<char>) -> JsonV {
    JsonV::Obj(map!["username"@ => JsonV::Str(u), "password"@ => JsonV::Str(p)])
}

fn login_body(username: &str, password: &str) -> (b: Json)
    ensures
        b@ == login_body_view(username@, password@),
{
    let mut fields: Vec<(String, Json)> = Vec::new();
    fields.push(("username".to_owned(), Json::Str(username.to_owned())));
    fields.push(("password".to_owned(), Json::Str(password.to_owned())));
    let b = Json::Obj(fields);
    proof {
        let s = fields@;
        let s1 = s.subrange(0, 1);
        let s0 = s1.subrange(0, 0);
        assert(s0.len() == 0);
        assert(obj_view(s0) =~= Map::<Seq<char>, JsonV>::empty());
        assert(s1.len() == 1 && s1[0] == s[0]);
        assert(obj_view(s1) =~= obj_view(s0).insert(s1[0].0@, json_view(s1[0].1)));
        assert(obj_view(s) =~= obj_view(s1).insert(s[1].0@, json_view(s[1].1)));
        assert(b@ matches JsonV::Obj(m) && m =~= map![
            "username"@ => JsonV::Str(username@),
            "password"@ => JsonV::Str(password@),
        ]);
    }
    b
}

/// Builds the login request: an anonymous POST of the credentials.
pub fn login_request(base: &str, username: &str, password: &str) -> (r: HttpRequest)
    ensures
        r@ == post_request_view(
            base@,
            "users/@login"@,
            login_body_view(username@, password@),
            "unset"@,
        ),
{
    let body = login_body(username, password);
    post_request(base, "users/@login", &body, "unset".to_owned())
}

/// Builds the machines request: a GET whose Authorization header is
/// exactly the session's token.
pub fn machines_request(base: &str, session: &UserData) -> (r: HttpRequest)
    ensures
        r@ == get_request_view(base@, "users/@me/machines"@, session.token@),
        r@.headers == seq![("Authorization"@, session.token@)],
{
    get_request(base, "users/@me/machines", session.token.clone())
}

// ---------------------------------------------------------------------------
// Laws
// ---------------------------------------------------------------------------

/// A well-formed 200 login response yields a session whose token is the
/// response's `token` field, and whose user fields are the response's,
/// copied verbatim.
pub proof fn lemma_login_response_verbatim(b: JsonV)
    requires
        login_view(b) is Some,
    ensures
        login_outcome(200, Some(b)) matches Ok(u) && {
            &&& obj_field(b, "token"@) == Some(JsonV::Str(u.token))
            &&& obj_field(b, "user"@) matches Some(uj) && {
                &&& obj_field(uj, "username"@) == Some(JsonV::Str(u.user.username))
                &&& obj_field(uj, "uuid"@) == Some(JsonV::Str(u.user.uuid))
                &&& obj_field(uj, "avatar"@) == Some(JsonV::Str(u.user.avatar))
                &&& obj_field(uj, "banner"@) == Some(JsonV::Str(u.user.banner))
                &&& obj_field(uj, "created_at"@) == Some(JsonV::Int(u.user.created_at))
                &&& obj_field(uj, "updated_at"@) == Some(JsonV::Int(u.user.updated_at))
            }
        },
{
}

/// A non-200 response carrying an `error` string decodes to that string as
/// a `RemoteError`, whatever the status code, for either endpoint.
pub proof fn lemma_non_200_is_remote_error(status: u16, b: JsonV, m: Seq<char>)
    requires
        status != 200,
        str_field(b, "error"@) == Some(m),
    ensures
        login_outcome(status, Some(b)) == Err::<UserDataV, ApiErrorV>(ApiErrorV::RemoteError(m)),
        machines_outcome(status, Some(b)) == Err::<Seq<MachineV>, ApiErrorV>(
            ApiErrorV::RemoteError(m),
        ),
{
}

/// A 200 login response without a `token` field is a `DecodeError`: no
/// session, with an empty or made-up token, comes out of it.
pub proof fn lemma_missing_token_is_decode_error(b: JsonV)
    requires
        obj_field(b, "token"@) is None,
    ensures
        login_outcome(200, Some(b)) == Err::<UserDataV, ApiErrorV>(ApiErrorV::DecodeError),
{
}

/// A machine object whose required fields are in order decodes even with
/// `static_data` absent: the field is unset, not an error.
pub proof fn lemma_absent_static_data_decodes(b: JsonV)
    requires
        machine_core_ok(b),
        obj_field(b, "static_data"@) is None,
    ensures
        machine_view(b) matches Some(m) && m.static_data is None,
{
}

} // verus!

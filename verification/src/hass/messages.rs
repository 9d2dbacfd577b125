//! The Home Assistant WebSocket message envelope.
//!
//! Every message is a JSON object; session messages carry an `id` and a
//! `type` discriminator, with the payload's members beside them.

use vstd::prelude::*;

use crate::json::{Json, JsonNum, JsonV, get_bool, get_num, get_str, json_clone,
    lemma_member_views_len, member_views, obj_get, obj_lookup, spec_get_bool, spec_get_num,
    spec_get_str, spec_num_as_u32};

verus! {

/// What the server says during the authentication phase.
#[derive(Debug)]
pub enum AuthServerMessage {
    AuthRequired { ha_version: String },
    AuthOk { ha_version: String },
    AuthInvalid { message: String },
}

/// The mathematical shape of an [`AuthServerMessage`].
pub ghost enum AuthServerMessageV {
    AuthRequired { ha_version: Seq<char> },
    AuthOk { ha_version: Seq<char> },
    AuthInvalid { message: Seq<char> },
}

impl View for AuthServerMessage {
    type V = AuthServerMessageV;

    open spec fn view(&self) -> AuthServerMessageV {
        match self {
            AuthServerMessage::AuthRequired { ha_version } => AuthServerMessageV::AuthRequired {
                ha_version: ha_version@,
            },
            AuthServerMessage::AuthOk { ha_version } => AuthServerMessageV::AuthOk {
                ha_version: ha_version@,
            },
            AuthServerMessage::AuthInvalid { message } => AuthServerMessageV::AuthInvalid {
                message: message@,
            },
        }
    }
}

pub open spec fn spec_auth_server_from(j: JsonV) -> Option<AuthServerMessageV> {
    match j {
        JsonV::Obj(ms) => match spec_get_str(ms, "type"@) {
            Some(tag) => if tag == "auth_required"@ {
                match spec_get_str(ms, "ha_version"@) {
                    Some(v) => Some(AuthServerMessageV::AuthRequired { ha_version: v }),
                    None => None,
                }
            } else if tag == "auth_ok"@ {
                match spec_get_str(ms, "ha_version"@) {
                    Some(v) => Some(AuthServerMessageV::AuthOk { ha_version: v }),
                    None => None,
                }
            } else if tag == "auth_invalid"@ {
                match spec_get_str(ms, "message"@) {
                    Some(m) => Some(AuthServerMessageV::AuthInvalid { message: m }),
                    None => None,
                }
            } else {
                None
            },
            None => None,
        },
        _ => None,
    }
}

impl AuthServerMessage {
    pub fn from_json(j: &Json) -> (r: Option<AuthServerMessage>)
        ensures
            match r {
                Some(m) => spec_auth_server_from(j@) == Some(m@),
                None => spec_auth_server_from(j@) is None,
            },
    {
        let members = match j {
            Json::Obj(members) => members,
            _ => { return None; },
        };
        let tag = match get_str(members, "type") {
            Some(t) => t,
            None => { return None; },
        };
        if crate::strutil::eq_str(tag, "auth_required") {
            match get_str(members, "ha_version") {
                Some(v) => Some(AuthServerMessage::AuthRequired { ha_version: v.to_owned() }),
                None => None,
            }
        } else if crate::strutil::eq_str(tag, "auth_ok") {
            match get_str(members, "ha_version") {
                Some(v) => Some(AuthServerMessage::AuthOk { ha_version: v.to_owned() }),
                None => None,
            }
        } else if crate::strutil::eq_str(tag, "auth_invalid") {
            match get_str(members, "message") {
                Some(m) => Some(AuthServerMessage::AuthInvalid { message: m.to_owned() }),
                None => None,
            }
        } else {
            None
        }
    }
}

/// What the client says during the authentication phase.
#[derive(Debug)]
pub enum AuthClientMessage {
    Auth { access_token: String },
}

pub open spec fn spec_auth_client_members(token: Seq<char>) -> Seq<(Seq<char>, JsonV)> {
    seq![("type"@, JsonV::Str("auth"@)), ("access_token"@, JsonV::Str(token))]
}

impl AuthClientMessage {
    pub open spec fn spec_token(self) -> Seq<char> {
        match self {
            AuthClientMessage::Auth { access_token } => access_token@,
        }
    }

    pub fn to_json(&self) -> (j: Json)
        ensures
            j@ == JsonV::Obj(spec_auth_client_members(self.spec_token())),
    {
        match self {
            AuthClientMessage::Auth { access_token } => {
                let members: Vec<(String, Json)> = vec![
                    (String::from_str("type"), Json::Str(String::from_str("auth"))),
                    (String::from_str("access_token"), Json::Str(access_token.clone())),
                ];
                proof {
                    lemma_member_views_len(members@);
                    assert(member_views(members@) =~= spec_auth_client_members(access_token@));
                }
                Json::Obj(members)
            },
        }
    }
}

/// A failure the server reports in a `result` message.
#[derive(Debug)]
pub struct ServerError {
    pub code: String,
    pub message: String,
}

/// The mathematical shape of a [`ServerError`].
pub ghost struct ServerErrorV {
    pub code: Seq<char>,
    pub message: Seq<char>,
}

impl View for ServerError {
    type V = ServerErrorV;

    open spec fn view(&self) -> ServerErrorV {
        ServerErrorV { code: self.code@, message: self.message@ }
    }
}

pub open spec fn spec_server_error_from(j: JsonV) -> Option<ServerErrorV> {
    match j {
        JsonV::Obj(ms) => match (spec_get_str(ms, "code"@), spec_get_str(ms, "message"@)) {
            (Some(code), Some(message)) => Some(ServerErrorV { code, message }),
            _ => None,
        },
        _ => None,
    }
}

impl ServerError {
    pub fn from_json(j: &Json) -> (r: Option<ServerError>)
        ensures
            match r {
                Some(e) => spec_server_error_from(j@) == Some(e@),
                None => spec_server_error_from(j@) is None,
            },
    {
        let members = match j {
            Json::Obj(members) => members,
            _ => { return None; },
        };
        match (get_str(members, "code"), get_str(members, "message")) {
            (Some(code), Some(message)) => Some(
                ServerError { code: code.to_owned(), message: message.to_owned() },
            ),
            _ => None,
        }
    }
}

/// An event pushed by the server.
#[derive(Debug)]
pub struct Event {
    pub data: Json,
    pub event_type: String,
    pub time_fired: String,
    pub origin: String,
    pub context: Json,
}

/// The mathematical shape of an [`Event`].
pub ghost struct EventV {
    pub data: JsonV,
    pub event_type: Seq<char>,
    pub time_fired: Seq<char>,
    pub origin: Seq<char>,
    pub context: JsonV,
}

impl View for Event {
    type V = EventV;

    open spec fn view(&self) -> EventV {
        EventV {
            data: self.data@,
            event_type: self.event_type@,
            time_fired: self.time_fired@,
            origin: self.origin@,
            context: self.context@,
        }
    }
}

pub open spec fn spec_event_from(j: JsonV) -> Option<EventV> {
    match j {
        JsonV::Obj(ms) => match (
            obj_get(ms, "data"@),
            spec_get_str(ms, "event_type"@),
            spec_get_str(ms, "time_fired"@),
            spec_get_str(ms, "origin"@),
            obj_get(ms, "context"@),
        ) {
            (Some(data), Some(event_type), Some(time_fired), Some(origin), Some(context)) => Some(
                EventV { data, event_type, time_fired, origin, context },
            ),
            _ => None,
        },
        _ => None,
    }
}

impl Event {
    pub fn from_json(j: &Json) -> (r: Option<Event>)
        ensures
            match r {
                Some(e) => spec_event_from(j@) == Some(e@),
                None => spec_event_from(j@) is None,
            },
    {
        let members = match j {
            Json::Obj(members) => members,
            _ => { return None; },
        };
        let data = match obj_lookup(members, "data") {
            Some(i) => json_clone(&members[i].1),
            None => { return None; },
        };
        let event_type = match get_str(members, "event_type") {
            Some(t) => t.to_owned(),
            None => { return None; },
        };
        let time_fired = match get_str(members, "time_fired") {
            Some(t) => t.to_owned(),
            None => { return None; },
        };
        let origin = match get_str(members, "origin") {
            Some(o) => o.to_owned(),
            None => { return None; },
        };
        let context = match obj_lookup(members, "context") {
            Some(i) => json_clone(&members[i].1),
            None => { return None; },
        };
        Some(Event { data, event_type, time_fired, origin, context })
    }
}

/// A session message from the server: a command's result, or an event.
#[derive(Debug)]
pub enum ServerMessage {
    Result { success: bool, result: Json, error: Option<ServerError> },
    Event { event: Event },
}

/// The mathematical shape of a [`ServerMessage`].
pub ghost enum ServerMessageV {
    Result { success: bool, result: JsonV, error: Option<ServerErrorV> },
    Event { event: EventV },
}

impl View for ServerMessage {
    type V = ServerMessageV;

    open spec fn view(&self) -> ServerMessageV {
        match self {
            ServerMessage::Result { success, result, error } => ServerMessageV::Result {
                success: *success,
                result: result@,
                error: match error {
                    Some(e) => Some(e@),
                    None => None,
                },
            },
            ServerMessage::Event { event } => ServerMessageV::Event { event: event@ },
        }
    }
}

pub open spec fn spec_server_message_from(j: JsonV) -> Option<ServerMessageV> {
    match j {
        JsonV::Obj(ms) => match spec_get_str(ms, "type"@) {
            Some(tag) => if tag == "result"@ {
                let result = match obj_get(ms, "result"@) {
                    Some(r) => r,
                    None => JsonV::Null,
                };
                let error = match obj_get(ms, "error"@) {
                    None => Some(None),
                    Some(JsonV::Null) => Some(None),
                    Some(ej) => match spec_server_error_from(ej) {
                        Some(e) => Some(Some(e)),
                        None => None,
                    },
                };
                match (spec_get_bool(ms, "success"@), error) {
                    (Some(success), Some(error)) => Some(
                        ServerMessageV::Result { success, result, error },
                    ),
                    _ => None,
                }
            } else if tag == "event"@ {
                match obj_get(ms, "event"@) {
                    Some(ej) => match spec_event_from(ej) {
                        Some(event) => Some(ServerMessageV::Event { event }),
                        None => None,
                    },
                    None => None,
                }
            } else {
                None
            },
            None => None,
        },
        _ => None,
    }
}

impl ServerMessage {
    pub fn from_json(j: &Json) -> (r: Option<ServerMessage>)
        ensures
            match r {
                Some(m) => spec_server_message_from(j@) == Some(m@),
                None => spec_server_message_from(j@) is None,
            },
    {
        let members = match j {
            Json::Obj(members) => members,
            _ => { return None; },
        };
        let tag = match get_str(members, "type") {
            Some(t) => t,
            None => { return None; },
        };
        if crate::strutil::eq_str(tag, "result") {
            let success = match get_bool(members, "success") {
                Some(s) => s,
                None => { return None; },
            };
            let result = match obj_lookup(members, "result") {
                Some(i) => json_clone(&members[i].1),
                None => Json::Null,
            };
            let error = match obj_lookup(members, "error") {
                None => None,
                Some(i) => match &members[i].1 {
                    Json::Null => None,
                    ej => match ServerError::from_json(ej) {
                        Some(e) => Some(e),
                        None => { return None; },
                    },
                },
            };
            Some(ServerMessage::Result { success, result, error })
        } else if crate::strutil::eq_str(tag, "event") {
            match obj_lookup(members, "event") {
                Some(i) => match Event::from_json(&members[i].1) {
                    Some(event) => Some(ServerMessage::Event { event }),
                    None => None,
                },
                None => None,
            }
        } else {
            None
        }
    }
}

/// A session message from the client.
#[derive(Debug)]
pub enum ClientMessage {
    GetStates,
    SubscribeEvents { event_type: Option<String> },
    CallService { domain: String, service: String, service_data: Json, target: Json },
}

/// The mathematical shape of a [`ClientMessage`].
pub ghost enum ClientMessageV {
    GetStates,
    SubscribeEvents { event_type: Option<Seq<char>> },
    CallService { domain: Seq<char>, service: Seq<char>, service_data: JsonV, target: JsonV },
}

impl View for ClientMessage {
    type V = ClientMessageV;

    open spec fn view(&self) -> ClientMessageV {
        match self {
            ClientMessage::GetStates => ClientMessageV::GetStates,
            ClientMessage::SubscribeEvents { event_type } => ClientMessageV::SubscribeEvents {
                event_type: match event_type {
                    Some(t) => Some(t@),
                    None => None,
                },
            },
            ClientMessage::CallService { domain, service, service_data, target } => {
                ClientMessageV::CallService {
                    domain: domain@,
                    service: service@,
                    service_data: service_data@,
                    target: target@,
                }
            },
        }
    }
}

/// The members of a client message, `type` first; `null` payload members
/// are left out.
pub open spec fn spec_client_members(m: ClientMessageV) -> Seq<(Seq<char>, JsonV)> {
    match m {
        ClientMessageV::GetStates => seq![("type"@, JsonV::Str("get_states"@))],
        ClientMessageV::SubscribeEvents { event_type } => {
            let base = seq![("type"@, JsonV::Str("subscribe_events"@))];
            match event_type {
                Some(t) => base.push(("event_type"@, JsonV::Str(t))),
                None => base,
            }
        },
        ClientMessageV::CallService { domain, service, service_data, target } => {
            let base = seq![
                ("type"@, JsonV::Str("call_service"@)),
                ("domain"@, JsonV::Str(domain)),
                ("service"@, JsonV::Str(service)),
            ];
            let with_data = if service_data is Null {
                base
            } else {
                base.push(("service_data"@, service_data))
            };
            if target is Null {
                with_data
            } else {
                with_data.push(("target"@, target))
            }
        },
    }
}

/// The full wire frame for a client message: its packet id and the
/// message's members.
pub open spec fn spec_packet_members(id: u32, m: ClientMessageV) -> Seq<(Seq<char>, JsonV)> {
    seq![("id"@, JsonV::Num(JsonNum { neg: false, mant: id as u64, scale: 0 }))]
        + spec_client_members(m)
}

/// Renders a client message with its packet id, ready to serialise.
pub fn packet_to_json(id: u32, msg: ClientMessage) -> (j: Json)
    ensures
        j@ == JsonV::Obj(spec_packet_members(id, msg@)),
{
    let ghost mv = msg@;
    let mut members: Vec<(String, Json)> = vec![
        (String::from_str("id"), Json::Num(JsonNum::from_u64(id as u64))),
    ];
    match msg {
        ClientMessage::GetStates => {
            members.push((String::from_str("type"), Json::Str(String::from_str("get_states"))));
        },
        ClientMessage::SubscribeEvents { event_type } => {
            members.push(
                (String::from_str("type"), Json::Str(String::from_str("subscribe_events"))),
            );
            if let Some(t) = event_type {
                members.push((String::from_str("event_type"), Json::Str(t)));
            }
        },
        ClientMessage::CallService { domain, service, service_data, target } => {
            members.push((String::from_str("type"), Json::Str(String::from_str("call_service"))));
            members.push((String::from_str("domain"), Json::Str(domain)));
            members.push((String::from_str("service"), Json::Str(service)));
            let data_null = match &service_data {
                Json::Null => true,
                _ => false,
            };
            if !data_null {
                members.push((String::from_str("service_data"), service_data));
            }
            let target_null = match &target {
                Json::Null => true,
                _ => false,
            };
            if !target_null {
                members.push((String::from_str("target"), target));
            }
        },
    }
    proof {
        lemma_member_views_len(members@);
        assert(member_views(members@) =~= spec_packet_members(id, mv));
    }
    Json::Obj(members)
}

/// Splits an inbound session frame into its packet id and message.
pub open spec fn spec_parse_packet(j: JsonV) -> Option<(u32, ServerMessageV)> {
    match j {
        JsonV::Obj(ms) => {
            let id = match spec_get_num(ms, "id"@) {
                Some(n) => spec_num_as_u32(n),
                None => None,
            };
            match (id, spec_server_message_from(j)) {
                (Some(id), Some(m)) => Some((id, m)),
                _ => None,
            }
        },
        _ => None,
    }
}

pub fn parse_packet(j: &Json) -> (r: Option<(u32, ServerMessage)>)
    ensures
        match r {
            Some(p) => spec_parse_packet(j@) == Some((p.0, p.1@)),
            None => spec_parse_packet(j@) is None,
        },
{
    let members = match j {
        Json::Obj(members) => members,
        _ => { return None; },
    };
    let id = match get_num(members, "id") {
        Some(n) => match n.as_u32() {
            Some(id) => id,
            None => { return None; },
        },
        None => { return None; },
    };
    match ServerMessage::from_json(j) {
        Some(m) => Some((id, m)),
        None => None,
    }
}

} // verus!

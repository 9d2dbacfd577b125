//! The authentication handshake and session frame planning.
//!
//! The transport loop feeds each inbound auth-phase message through
//! [`auth_step`] and performs the returned action; after `Ready` it sends
//! the two opening session frames from [`session_start`].

use vstd::prelude::*;

use crate::ids::HassPacketIds;
use crate::json::{Json, JsonV};
use crate::hass::messages::{AuthServerMessage, AuthServerMessageV, ClientMessage, ClientMessageV,
    packet_to_json, spec_packet_members};
use crate::hass::entity::TargetedServiceCall;

verus! {

/// A terminal bridge failure.
#[derive(Debug)]
pub enum HassError {
    /// The peer said something the protocol does not allow here.
    Protocol(String),
    /// The server rejected the access token; carries its message.
    Authentication(String),
}

/// The mathematical shape of a [`HassError`].
pub ghost enum HassErrorV {
    Protocol(Seq<char>),
    Authentication(Seq<char>),
}

impl View for HassError {
    type V = HassErrorV;

    open spec fn view(&self) -> HassErrorV {
        match self {
            HassError::Protocol(m) => HassErrorV::Protocol(m@),
            HassError::Authentication(m) => HassErrorV::Authentication(m@),
        }
    }
}

/// Where the handshake stands.
#[derive(Clone, Copy, Debug, PartialEq, Eq, Structural)]
pub enum AuthState {
    /// Waiting for the server's `auth_required`.
    AwaitingRequired,
    /// Token sent; waiting for `auth_ok` or `auth_invalid`.
    AwaitingOutcome,
    /// Authenticated.
    Ready,
}

/// What the transport must do after one handshake step.
#[derive(Debug)]
pub enum AuthAction {
    /// Send the access token.
    SendAuth,
    /// The handshake is complete.
    Done,
    /// The handshake failed; stop.
    Fail(HassError),
}

pub open spec fn spec_auth_step(state: AuthState, msg: AuthServerMessageV) -> (
    AuthState,
    AuthActionV,
) {
    match (state, msg) {
        (AuthState::AwaitingRequired, AuthServerMessageV::AuthRequired { .. }) => (
            AuthState::AwaitingOutcome,
            AuthActionV::SendAuth,
        ),
        (AuthState::AwaitingOutcome, AuthServerMessageV::AuthOk { .. }) => (
            AuthState::Ready,
            AuthActionV::Done,
        ),
        (AuthState::AwaitingOutcome, AuthServerMessageV::AuthInvalid { message }) => (
            AuthState::AwaitingOutcome,
            AuthActionV::Fail(HassErrorV::Authentication(message)),
        ),
        (s, _) => (s, AuthActionV::Fail(HassErrorV::Protocol("unexpected auth message"@))),
    }
}

/// The mathematical shape of an [`AuthAction`].
pub ghost enum AuthActionV {
    SendAuth,
    Done,
    Fail(HassErrorV),
}

impl View for AuthAction {
    type V = AuthActionV;

    open spec fn view(&self) -> AuthActionV {
        match self {
            AuthAction::SendAuth => AuthActionV::SendAuth,
            AuthAction::Done => AuthActionV::Done,
            AuthAction::Fail(e) => AuthActionV::Fail(e@),
        }
    }
}

/// One step of the handshake: expect `auth_required`, then send the token,
/// then expect `auth_ok` (done) or `auth_invalid` (authentication failure
/// with the server's message); anything else is a protocol failure.
pub fn auth_step(state: AuthState, msg: &AuthServerMessage) -> (r: (AuthState, AuthAction))
    ensures
        (r.0, r.1@) == spec_auth_step(state, msg@),
{
    match (state, msg) {
        (AuthState::AwaitingRequired, AuthServerMessage::AuthRequired { .. }) => (
            AuthState::AwaitingOutcome,
            AuthAction::SendAuth,
        ),
        (AuthState::AwaitingOutcome, AuthServerMessage::AuthOk { .. }) => (
            AuthState::Ready,
            AuthAction::Done,
        ),
        (AuthState::AwaitingOutcome, AuthServerMessage::AuthInvalid { message }) => (
            AuthState::AwaitingOutcome,
            AuthAction::Fail(HassError::Authentication(message.clone())),
        ),
        (s, _) => (
            s,
            AuthAction::Fail(HassError::Protocol(String::from_str("unexpected auth message"))),
        ),
    }
}

/// The two opening frames of a session — subscribe to every event, then ask
/// for all current states — and the packet id the state snapshot will
/// answer under.
pub fn session_start(ids: &mut HassPacketIds) -> (r: (Json, Json, u32))
    requires
        old(ids).wf(),
    ensures
        final(ids).wf(),
        r.0@ == JsonV::Obj(
            spec_packet_members(
                old(ids).current(),
                ClientMessageV::SubscribeEvents { event_type: None },
            ),
        ),
        r.1@ == JsonV::Obj(spec_packet_members(r.2, ClientMessageV::GetStates)),
        r.2 == if old(ids).current() == u32::MAX {
            1u32
        } else {
            (old(ids).current() + 1) as u32
        },
        r.2 != 0,
{
    let sub_id = ids.next_id();
    let subscribe = packet_to_json(sub_id, ClientMessage::SubscribeEvents { event_type: None });
    let get_states_id = ids.next_id();
    let get_states = packet_to_json(get_states_id, ClientMessage::GetStates);
    (subscribe, get_states, get_states_id)
}

/// The frame for an outbound service call, under a fresh packet id.
pub fn plan_call_service(ids: &mut HassPacketIds, call: TargetedServiceCall) -> (r: Json)
    requires
        old(ids).wf(),
    ensures
        final(ids).wf(),
        r@ == JsonV::Obj(
            spec_packet_members(
                old(ids).current(),
                ClientMessageV::CallService {
                    domain: call.call.domain@,
                    service: call.call.service@,
                    service_data: call.call.service_data@,
                    target: crate::hass::entity::spec_target_json(call.target),
                },
            ),
        ),
{
    let id = ids.next_id();
    let target = call.target.to_json();
    let TargetedServiceCall { call, target: _ } = call;
    packet_to_json(
        id,
        ClientMessage::CallService {
            domain: call.domain,
            service: call.service,
            service_data: call.service_data,
            target,
        },
    )
}

} // verus!

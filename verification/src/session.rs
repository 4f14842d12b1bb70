//! The session state machine: the decisions of one relay session, from the
//! local client's greeting through the upstream handshake to the relay
//! phase, as a step function from state and event to next state and action.
//! The surrounding program performs each action on the sockets and hands
//! the resulting event back; every decision the session takes is made here.

use vstd::prelude::*;

use crate::auth::auth_reply_check;
use crate::auth::auth_request_bytes;
use crate::auth::build_auth_request;
use crate::auth::check_auth_reply;
use crate::auth::check_method_selection;
use crate::auth::greeting_bytes;
use crate::auth::method_selection_check;
use crate::auth::upstream_greeting;
use crate::credentials::Credentials;
use crate::negotiate::accept_reply;
use crate::negotiate::offers_no_auth;
use crate::negotiate::reject_reply;
use crate::negotiate::select_method;

verus! {

/// Why a session failed. Every failure is session-fatal: the session is
/// aborted and never reaches, or leaves by itself, the relay phase.
#[derive(Clone, Copy, Debug, PartialEq, Eq, Structural)]
pub enum SessionError {
    /// The local client offered no acceptable authentication method.
    MethodNotSupported,
    /// The connection to the upstream proxy could not be opened.
    ConnectFailed,
    /// The upstream proxy's greeting reply named a SOCKS version other than 5.
    UnsupportedSocksVersion,
    /// The upstream proxy did not select username/password authentication.
    UserPassNotSupported,
    /// The upstream proxy's authentication reply named a version other than 1.
    UnsupportedAuthVersion,
    /// The upstream proxy rejected the credentials.
    CredentialsRejected,
    /// A read or write on either connection failed.
    Io,
}

/// Where a session stands. The two terminal states are `Relaying` (both
/// handshakes succeeded; the raw relay owns the connections from here on)
/// and `Failed`.
#[derive(Clone, Copy, Debug, PartialEq, Eq, Structural)]
pub enum SessionState {
    /// Waiting for the two-byte greeting header from the local client.
    AwaitGreeting,
    /// Waiting for `count` method bytes from the local client.
    AwaitMethods { count: u8 },
    /// The accept reply was sent; waiting for the upstream connection.
    Connecting,
    /// The upstream greeting was sent; waiting for its two-byte reply.
    AwaitMethodReply,
    /// The authentication request was sent; waiting for its two-byte reply.
    AwaitAuthReply,
    /// Both handshakes succeeded; bytes relay transparently from here on.
    Relaying,
    /// The session was aborted.
    Failed { error: SessionError },
}

/// What the sockets reported back after the last action.
#[derive(Debug, PartialEq, Eq)]
pub enum SessionEvent {
    /// Exactly the bytes the last action asked to read.
    Received { bytes: Vec<u8> },
    /// The upstream connection is open.
    ConnectOk,
    /// The upstream connection could not be opened.
    ConnectFailed,
    /// A read or write failed.
    IoFailed,
}

/// What the surrounding program must do next on the sockets.
#[derive(Debug, PartialEq, Eq)]
pub enum SessionAction {
    /// Read exactly `count` bytes from the local client.
    ReadLocal { count: usize },
    /// Write `reply` to the local client, then close both connections.
    ReplyAndFail { reply: Vec<u8> },
    /// Write `reply` to the local client, then open the upstream connection.
    ReplyAndConnect { reply: Vec<u8> },
    /// Write `bytes` to the upstream proxy, then read exactly `reply_len`
    /// bytes from it.
    SendUpstream { bytes: Vec<u8>, reply_len: usize },
    /// Start the two relay directions.
    StartRelay,
    /// Close both connections; the session is over.
    Close,
}

/// The mathematical form of an event.
pub enum EventView {
    Received { bytes: Seq<u8> },
    ConnectOk,
    ConnectFailed,
    IoFailed,
}

/// The mathematical form of an action.
pub enum ActionView {
    ReadLocal { count: int },
    ReplyAndFail { reply: Seq<u8> },
    ReplyAndConnect { reply: Seq<u8> },
    SendUpstream { bytes: Seq<u8>, reply_len: int },
    StartRelay,
    Close,
}

impl View for SessionEvent {
    type V = EventView;

    open spec fn view(&self) -> EventView {
        match self {
            SessionEvent::Received { bytes } => EventView::Received { bytes: bytes@ },
            SessionEvent::ConnectOk => EventView::ConnectOk,
            SessionEvent::ConnectFailed => EventView::ConnectFailed,
            SessionEvent::IoFailed => EventView::IoFailed,
        }
    }
}

impl View for SessionAction {
    type V = ActionView;

    open spec fn view(&self) -> ActionView {
        match self {
            SessionAction::ReadLocal { count } => ActionView::ReadLocal { count: *count as int },
            SessionAction::ReplyAndFail { reply } => ActionView::ReplyAndFail { reply: reply@ },
            SessionAction::ReplyAndConnect { reply } => ActionView::ReplyAndConnect {
                reply: reply@,
            },
            SessionAction::SendUpstream { bytes, reply_len } => ActionView::SendUpstream {
                bytes: bytes@,
                reply_len: *reply_len as int,
            },
            SessionAction::StartRelay => ActionView::StartRelay,
            SessionAction::Close => ActionView::Close,
        }
    }
}

/// A finished session: relaying (success) or failed. Terminal states take
/// no further events.
pub open spec fn is_terminal(state: SessionState) -> bool {
    state is Relaying || state is Failed
}

/// Which events a state can take: exactly the outcomes of the action that
/// led into the state, with reads delivering exactly the requested number
/// of bytes and I/O failure possible at every blocking point.
pub open spec fn admissible(state: SessionState, event: EventView) -> bool {
    !is_terminal(state) && match state {
        SessionState::AwaitGreeting => event is IoFailed || (event matches EventView::Received {
            bytes,
        } && bytes.len() == 2),
        SessionState::AwaitMethods { count } => event is IoFailed || (event
            matches EventView::Received { bytes } && bytes.len() == count),
        SessionState::Connecting => event is IoFailed || event is ConnectOk
            || event is ConnectFailed,
        SessionState::AwaitMethodReply => event is IoFailed || (event
            matches EventView::Received { bytes } && bytes.len() == 2),
        SessionState::AwaitAuthReply => event is IoFailed || (event matches EventView::Received {
            bytes,
        } && bytes.len() == 2),
        SessionState::Relaying => false,
        SessionState::Failed { .. } => false,
    }
}

/// The transition relation of a session. Any I/O failure is session-fatal;
/// otherwise: the greeting header names how many method bytes to read (the
/// client's version byte is deliberately not validated); a method set is
/// accepted exactly when it offers "no authentication", and only then is an
/// upstream connection requested; the upstream handshake proceeds through
/// the greeting reply check and the authentication reply check into the
/// relay phase. On an event a state does not take (`admissible` rules those
/// out), the state is left as it is and the connections close.
pub open spec fn spec_step(
    state: SessionState,
    event: EventView,
    username: Seq<u8>,
    password: Seq<u8>,
) -> (SessionState, ActionView) {
    if event is IoFailed {
        (SessionState::Failed { error: SessionError::Io }, ActionView::Close)
    } else {
        match state {
            SessionState::AwaitGreeting => match event {
                EventView::Received { bytes } => (
                    SessionState::AwaitMethods { count: bytes[1] },
                    ActionView::ReadLocal { count: bytes[1] as int },
                ),
                _ => (state, ActionView::Close),
            },
            SessionState::AwaitMethods { count } => match event {
                EventView::Received { bytes } => if offers_no_auth(bytes) {
                    (
                        SessionState::Connecting,
                        ActionView::ReplyAndConnect { reply: accept_reply() },
                    )
                } else {
                    (
                        SessionState::Failed { error: SessionError::MethodNotSupported },
                        ActionView::ReplyAndFail { reply: reject_reply() },
                    )
                },
                _ => (state, ActionView::Close),
            },
            SessionState::Connecting => match event {
                EventView::ConnectOk => (
                    SessionState::AwaitMethodReply,
                    ActionView::SendUpstream { bytes: greeting_bytes(), reply_len: 2 },
                ),
                EventView::ConnectFailed => (
                    SessionState::Failed { error: SessionError::ConnectFailed },
                    ActionView::Close,
                ),
                _ => (state, ActionView::Close),
            },
            SessionState::AwaitMethodReply => match event {
                EventView::Received { bytes } => match method_selection_check(bytes[0], bytes[1]) {
                    Ok(()) => (
                        SessionState::AwaitAuthReply,
                        ActionView::SendUpstream {
                            bytes: auth_request_bytes(username, password),
                            reply_len: 2,
                        },
                    ),
                    Err(e) => (SessionState::Failed { error: e }, ActionView::Close),
                },
                _ => (state, ActionView::Close),
            },
            SessionState::AwaitAuthReply => match event {
                EventView::Received { bytes } => match auth_reply_check(bytes[0], bytes[1]) {
                    Ok(()) => (SessionState::Relaying, ActionView::StartRelay),
                    Err(e) => (SessionState::Failed { error: e }, ActionView::Close),
                },
                _ => (state, ActionView::Close),
            },
            SessionState::Relaying => (state, ActionView::Close),
            SessionState::Failed { .. } => (state, ActionView::Close),
        }
    }
}

/// The state and first action of a fresh session: read the two-byte
/// greeting header from the local client.
pub fn session_start() -> (r: (SessionState, SessionAction))
    ensures
        r.0 == SessionState::AwaitGreeting,
        r.1@ == (ActionView::ReadLocal { count: 2 }),
{
    (SessionState::AwaitGreeting, SessionAction::ReadLocal { count: 2 })
}

/// Take one step of the session: from the current state and the outcome of
/// the previous action, decide the next state and the next action, exactly
/// as `spec_step` says.
pub fn step(state: SessionState, event: SessionEvent, creds: &Credentials) -> (r: (
    SessionState,
    SessionAction,
))
    requires
        admissible(state, event@),
        creds.wf(),
    ensures
        r.0 == spec_step(state, event@, creds.username@, creds.password@).0,
        r.1@ == spec_step(state, event@, creds.username@, creds.password@).1,
{
    match (state, event) {
        (_, SessionEvent::IoFailed) => (
            SessionState::Failed { error: SessionError::Io },
            SessionAction::Close,
        ),
        (SessionState::AwaitGreeting, SessionEvent::Received { bytes }) => {
            let count = bytes[1];
            (
                SessionState::AwaitMethods { count },
                SessionAction::ReadLocal { count: count as usize },
            )
        },
        (SessionState::AwaitMethods { count: _ }, SessionEvent::Received { bytes }) => {
            let (reply, accepted) = select_method(&bytes);
            if accepted {
                (SessionState::Connecting, SessionAction::ReplyAndConnect { reply })
            } else {
                (
                    SessionState::Failed { error: SessionError::MethodNotSupported },
                    SessionAction::ReplyAndFail { reply },
                )
            }
        },
        (SessionState::Connecting, SessionEvent::ConnectOk) => (
            SessionState::AwaitMethodReply,
            SessionAction::SendUpstream { bytes: upstream_greeting(), reply_len: 2 },
        ),
        (SessionState::Connecting, SessionEvent::ConnectFailed) => (
            SessionState::Failed { error: SessionError::ConnectFailed },
            SessionAction::Close,
        ),
        (SessionState::AwaitMethodReply, SessionEvent::Received { bytes }) => {
            match check_method_selection(bytes[0], bytes[1]) {
                Ok(()) => (
                    SessionState::AwaitAuthReply,
                    SessionAction::SendUpstream { bytes: build_auth_request(creds), reply_len: 2 },
                ),
                Err(e) => (SessionState::Failed { error: e }, SessionAction::Close),
            }
        },
        (SessionState::AwaitAuthReply, SessionEvent::Received { bytes }) => {
            match check_auth_reply(bytes[0], bytes[1]) {
                Ok(()) => (SessionState::Relaying, SessionAction::StartRelay),
                Err(e) => (SessionState::Failed { error: e }, SessionAction::Close),
            }
        },
        (s, _) => (s, SessionAction::Close),
    }
}

/// Method gate: a method set that does not offer "no authentication" is
/// answered with exactly the rejection reply, the session fails with
/// `MethodNotSupported`, and the failed session admits no further event —
/// so no upstream connection is ever requested for it.
pub proof fn lemma_method_gate(count: u8, methods: Seq<u8>, username: Seq<u8>, password: Seq<u8>)
    requires
        methods.len() == count,
        !offers_no_auth(methods),
    ensures
        ({
            let (next, action) = spec_step(
                SessionState::AwaitMethods { count },
                EventView::Received { bytes: methods },
                username,
                password,
            );
            &&& next == (SessionState::Failed { error: SessionError::MethodNotSupported })
            &&& action == (ActionView::ReplyAndFail { reply: reject_reply() })
            &&& forall|e: EventView| !admissible(next, e)
        }),
{
}

/// Method acceptance: a method set that offers "no authentication" —
/// whatever its other members or their order — is answered with exactly the
/// accept reply, and only then does the session move on to the upstream
/// connection.
pub proof fn lemma_method_accept(count: u8, methods: Seq<u8>, username: Seq<u8>, password: Seq<u8>)
    requires
        methods.len() == count,
        offers_no_auth(methods),
    ensures
        spec_step(
            SessionState::AwaitMethods { count },
            EventView::Received { bytes: methods },
            username,
            password,
        ) == (SessionState::Connecting, (ActionView::ReplyAndConnect { reply: accept_reply() })),
{
}

/// An upstream connection is requested only by accepting a method set that
/// offers "no authentication": no other state and event lead to it.
pub proof fn lemma_connect_only_after_accept(
    state: SessionState,
    event: EventView,
    username: Seq<u8>,
    password: Seq<u8>,
)
    ensures
        spec_step(state, event, username, password).1 is ReplyAndConnect ==> {
            &&& state is AwaitMethods
            &&& event matches EventView::Received { bytes } && offers_no_auth(bytes)
        },
{
}

/// The four upstream handshake checks, each on its own: a greeting reply
/// with the wrong SOCKS version or the wrong method fails the session, an
/// authentication reply with the wrong version or a non-success status
/// fails the session — and the session proceeds exactly when each check
/// passes.
pub proof fn lemma_upstream_checks(reply: Seq<u8>, username: Seq<u8>, password: Seq<u8>)
    requires
        reply.len() == 2,
    ensures
        reply[0] != crate::SOCKS_VERSION ==> spec_step(
            SessionState::AwaitMethodReply,
            EventView::Received { bytes: reply },
            username,
            password,
        ) == ((SessionState::Failed { error: SessionError::UnsupportedSocksVersion }), ActionView::Close),
        reply[0] == crate::SOCKS_VERSION && reply[1] != crate::METHOD_USERPASS ==> spec_step(
            SessionState::AwaitMethodReply,
            EventView::Received { bytes: reply },
            username,
            password,
        ) == ((SessionState::Failed { error: SessionError::UserPassNotSupported }), ActionView::Close),
        reply[0] == crate::SOCKS_VERSION && reply[1] == crate::METHOD_USERPASS ==> spec_step(
            SessionState::AwaitMethodReply,
            EventView::Received { bytes: reply },
            username,
            password,
        ) == (
            SessionState::AwaitAuthReply,
            (ActionView::SendUpstream {
                bytes: auth_request_bytes(username, password),
                reply_len: 2,
            }),
        ),
        reply[0] != crate::AUTH_VERSION ==> spec_step(
            SessionState::AwaitAuthReply,
            EventView::Received { bytes: reply },
            username,
            password,
        ) == ((SessionState::Failed { error: SessionError::UnsupportedAuthVersion }), ActionView::Close),
        reply[0] == crate::AUTH_VERSION && reply[1] != crate::AUTH_SUCCESS ==> spec_step(
            SessionState::AwaitAuthReply,
            EventView::Received { bytes: reply },
            username,
            password,
        ) == ((SessionState::Failed { error: SessionError::CredentialsRejected }), ActionView::Close),
        reply[0] == crate::AUTH_VERSION && reply[1] == crate::AUTH_SUCCESS ==> spec_step(
            SessionState::AwaitAuthReply,
            EventView::Received { bytes: reply },
            username,
            password,
        ) == (SessionState::Relaying, ActionView::StartRelay),
{
}

/// The relay phase is entered only through the full successful handshake:
/// each state on the way is reached only from its predecessor, with the
/// respective check passed. So a session never relays unless the local
/// negotiation and the upstream authentication both succeeded.
pub proof fn lemma_relay_only_after_full_handshake(
    state: SessionState,
    event: EventView,
    username: Seq<u8>,
    password: Seq<u8>,
)
    requires
        admissible(state, event),
    ensures
        spec_step(state, event, username, password).0 is Relaying ==> {
            &&& state is AwaitAuthReply
            &&& event matches EventView::Received { bytes } && auth_reply_check(
                bytes[0],
                bytes[1],
            ) is Ok
        },
        spec_step(state, event, username, password).0 is AwaitAuthReply ==> {
            &&& state is AwaitMethodReply
            &&& event matches EventView::Received { bytes } && method_selection_check(
                bytes[0],
                bytes[1],
            ) is Ok
        },
        spec_step(state, event, username, password).0 is AwaitMethodReply ==> {
            &&& state is Connecting
            &&& event is ConnectOk
        },
        spec_step(state, event, username, password).0 is Connecting ==> {
            &&& state is AwaitMethods
            &&& event matches EventView::Received { bytes } && offers_no_auth(bytes)
        },
{
}

/// A finished session — relaying or failed — takes no further event: its
/// outcome is settled.
pub proof fn lemma_terminal_no_events(state: SessionState)
    requires
        is_terminal(state),
    ensures
        forall|e: EventView| !admissible(state, e),
{
}

} // verus!

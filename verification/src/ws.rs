//! The per-connection session: what a socket's frames and the room's answers lead
//! to.
//!
//! Each socket is one client (host, player, or display). Its role and identity are
//! established once, at join, by the room, then held here and stamped onto every
//! later [`Command`]. The client never re-asserts its role, so it cannot escalate
//! privilege mid-session.
//!
//! The server performs the action that [`Session::step`] asks for and hands back
//! what came of it as the next event; beside it, the outbound half of the
//! connection follows [`pump`].

use vstd::prelude::*;

use crate::protocol::{ClientMsg, ClientMsgView, ErrorCode, Role, ServerMsg, ServerMsgView};
use crate::room::{Command, CommandView, RoomClosed};
use crate::text::{copy_opt, join_text};

verus! {

/// What arrives on a socket.
#[derive(Clone, Debug, PartialEq, Eq)]
pub enum Frame {
    /// A text frame that holds an intent.
    Intent(ClientMsg),
    /// A text frame that holds none, with the parser's reason.
    Malformed(String),
    /// The client closes the socket.
    Close,
    /// A frame of another kind.
    Other,
    /// The socket is gone.
    Ended,
}

/// What a session is told.
#[derive(Debug)]
pub enum SessionEvent {
    /// A frame arrived.
    Frame(Frame),
    /// The registry was asked for the room: is there one?
    Room(bool),
    /// The room was handed a command.
    Dispatched(Result<(), RoomClosed>),
    /// The room's first direct reply, or none if it is gone.
    Reply(Option<ServerMsg>),
}

/// What the server shall do next.
#[derive(Clone, Debug)]
pub enum SessionAction {
    /// Look up the room of this code.
    LookUp(String),
    /// Subscribe to the room's events, then hand it the join.
    Join(Command),
    /// Wait for the room's first direct reply.
    AwaitReply,
    /// Send the acknowledgement, start the outbound pump, and read on.
    Greet(ServerMsg),
    /// Hand the room a command.
    Dispatch(Command),
    /// Reply to this connection alone, and read on.
    Report(ServerMsg),
    /// Read the next frame.
    Read,
    /// Send this last message and close the socket.
    Reject(ServerMsg),
    /// Close the socket.
    Close,
}

/// How far a connection has come.
#[derive(Clone, Debug)]
pub enum Session {
    /// The first frame must be a join.
    AwaitingJoin,
    /// The room of the join is being looked up.
    AwaitingRoom { code: String, intent: ClientMsg },
    /// The join is being handed to the room.
    Joining,
    /// The room decides on the join.
    AwaitingReply,
    /// Joined, with the identity that the room granted.
    Open { role: Role, name: Option<String> },
    /// Over.
    Closed,
}

// ----- views --------------------------------------------------------------------

/// The view of a [`Frame`].
#[verifier::ext_equal]
pub enum FrameView {
    Intent(ClientMsgView),
    Malformed(Seq<char>),
    Close,
    Other,
    Ended,
}

impl View for Frame {
    type V = FrameView;

    open spec fn view(&self) -> FrameView {
        match self {
            Frame::Intent(intent) => FrameView::Intent(intent@),
            Frame::Malformed(reason) => FrameView::Malformed(reason@),
            Frame::Close => FrameView::Close,
            Frame::Other => FrameView::Other,
            Frame::Ended => FrameView::Ended,
        }
    }
}

/// The view of a [`SessionEvent`].
#[verifier::ext_equal]
pub enum SessionEventView {
    Frame(FrameView),
    Room(bool),
    /// Did the room take the command?
    Dispatched(bool),
    Reply(Option<ServerMsgView>),
}

impl View for SessionEvent {
    type V = SessionEventView;

    open spec fn view(&self) -> SessionEventView {
        match self {
            SessionEvent::Frame(frame) => SessionEventView::Frame(frame@),
            SessionEvent::Room(found) => SessionEventView::Room(*found),
            SessionEvent::Dispatched(outcome) => SessionEventView::Dispatched(outcome is Ok),
            SessionEvent::Reply(reply) => SessionEventView::Reply(
                match reply {
                    Some(msg) => Some(msg@),
                    None => None,
                },
            ),
        }
    }
}

/// The view of a [`SessionAction`].
#[verifier::ext_equal]
pub enum SessionActionView {
    LookUp(Seq<char>),
    Join(CommandView),
    AwaitReply,
    Greet(ServerMsgView),
    Dispatch(CommandView),
    Report(ServerMsgView),
    Read,
    Reject(ServerMsgView),
    Close,
}

impl View for SessionAction {
    type V = SessionActionView;

    open spec fn view(&self) -> SessionActionView {
        match self {
            SessionAction::LookUp(code) => SessionActionView::LookUp(code@),
            SessionAction::Join(command) => SessionActionView::Join(command@),
            SessionAction::AwaitReply => SessionActionView::AwaitReply,
            SessionAction::Greet(msg) => SessionActionView::Greet(msg@),
            SessionAction::Dispatch(command) => SessionActionView::Dispatch(command@),
            SessionAction::Report(msg) => SessionActionView::Report(msg@),
            SessionAction::Read => SessionActionView::Read,
            SessionAction::Reject(msg) => SessionActionView::Reject(msg@),
            SessionAction::Close => SessionActionView::Close,
        }
    }
}

/// The view of a [`Session`].
#[verifier::ext_equal]
pub enum SessionView {
    AwaitingJoin,
    AwaitingRoom { code: Seq<char>, intent: ClientMsgView },
    Joining,
    AwaitingReply,
    Open { role: Role, name: Option<Seq<char>> },
    Closed,
}

impl View for Session {
    type V = SessionView;

    open spec fn view(&self) -> SessionView {
        match self {
            Session::AwaitingJoin => SessionView::AwaitingJoin,
            Session::AwaitingRoom { code, intent } => SessionView::AwaitingRoom {
                code: code@,
                intent: intent@,
            },
            Session::Joining => SessionView::Joining,
            Session::AwaitingReply => SessionView::AwaitingReply,
            Session::Open { role, name } => SessionView::Open {
                role: *role,
                name: crate::text::opt_view(*name),
            },
            Session::Closed => SessionView::Closed,
        }
    }
}

// ----- the session, mathematically ------------------------------------------------

/// An error event.
pub open spec fn error_of(code: ErrorCode, message: Seq<char>) -> ServerMsgView {
    ServerMsgView::Error { code, message }
}

/// The end of a session.
pub open spec fn closing() -> (SessionView, SessionActionView) {
    (SessionView::Closed, SessionActionView::Close)
}

/// The first frame must be a join; a socket that closes or sends no text before
/// that is dropped without a word.
pub open spec fn first_frame(frame: FrameView) -> (SessionView, SessionActionView) {
    match frame {
        FrameView::Intent(intent) => match intent {
            ClientMsgView::JoinRoom { code, .. } => (
                SessionView::AwaitingRoom { code, intent },
                SessionActionView::LookUp(code),
            ),
            _ => (
                SessionView::Closed,
                SessionActionView::Reject(
                    error_of(ErrorCode::NotJoined, "first message must be join_room"@),
                ),
            ),
        },
        FrameView::Malformed(_) => (
            SessionView::Closed,
            SessionActionView::Reject(
                error_of(ErrorCode::NotJoined, "first message must be join_room"@),
            ),
        ),
        FrameView::Close | FrameView::Other | FrameView::Ended => closing(),
    }
}

/// A live room is handed the join, under an identity that grants nothing; an
/// unknown one ends the session.
pub open spec fn room_found(code: Seq<char>, intent: ClientMsgView, found: bool) -> (
    SessionView,
    SessionActionView,
) {
    if found {
        (
            SessionView::Joining,
            SessionActionView::Join(CommandView { intent, role: Role::Display, name: None }),
        )
    } else {
        (
            SessionView::Closed,
            SessionActionView::Reject(
                error_of(ErrorCode::UnknownRoom, "no room with code "@ + code),
            ),
        )
    }
}

/// The room's first reply settles the identity, or rejects the join.
pub open spec fn first_reply(reply: Option<ServerMsgView>) -> (SessionView, SessionActionView) {
    match reply {
        Some(ServerMsgView::Joined { role, name }) => (
            SessionView::Open { role, name },
            SessionActionView::Greet(ServerMsgView::Joined { role, name }),
        ),
        Some(ServerMsgView::Error { code, message }) => (
            SessionView::Closed,
            SessionActionView::Reject(error_of(code, message)),
        ),
        _ => closing(),
    }
}

/// A frame of a joined client: an intent goes to the room under the identity of the
/// session, whatever the intent says; an unparseable text is reported back.
pub open spec fn next_frame(role: Role, name: Option<Seq<char>>, frame: FrameView) -> (
    SessionView,
    SessionActionView,
) {
    let open = SessionView::Open { role, name };
    match frame {
        FrameView::Intent(intent) => (
            open,
            SessionActionView::Dispatch(CommandView { intent, role, name }),
        ),
        FrameView::Malformed(reason) => (
            open,
            SessionActionView::Report(
                error_of(ErrorCode::BadRequest, "could not parse message: "@ + reason),
            ),
        ),
        FrameView::Other => (open, SessionActionView::Read),
        FrameView::Close | FrameView::Ended => closing(),
    }
}

impl SessionView {
    /// The next stage of a session and what the server shall do. An event that does
    /// not belong to the stage ends the session.
    pub open spec fn step(self, event: SessionEventView) -> (SessionView, SessionActionView) {
        match (self, event) {
            (SessionView::AwaitingJoin, SessionEventView::Frame(frame)) => first_frame(frame),
            (
                SessionView::AwaitingRoom { code, intent },
                SessionEventView::Room(found),
            ) => room_found(code, intent, found),
            (SessionView::Joining, SessionEventView::Dispatched(true)) => (
                SessionView::AwaitingReply,
                SessionActionView::AwaitReply,
            ),
            (SessionView::AwaitingReply, SessionEventView::Reply(reply)) => first_reply(reply),
            (SessionView::Open { role, name }, SessionEventView::Frame(frame)) => next_frame(
                role,
                name,
                frame,
            ),
            (SessionView::Open { role, name }, SessionEventView::Dispatched(true)) => (
                SessionView::Open { role, name },
                SessionActionView::Read,
            ),
            _ => closing(),
        }
    }

    /// The stage of a session after a list of events.
    pub open spec fn after_all(self, events: Seq<SessionEventView>) -> SessionView
        decreases events.len(),
    {
        if events.len() == 0 {
            self
        } else {
            self.after_all(events.drop_last()).step(events.last()).0
        }
    }
}

// ----- the session, executable ----------------------------------------------------

/// An error event.
fn error_msg(code: ErrorCode, message: String) -> (msg: ServerMsg)
    ensures
        msg@ == error_of(code, message@),
{
    ServerMsg::Error { code, message }
}

/// Decide on the first frame.
fn on_first_frame(frame: Frame) -> (next: (Session, SessionAction))
    ensures
        (next.0@, next.1@) == first_frame(frame@),
{
    match frame {
        Frame::Intent(ClientMsg::JoinRoom { code, role, name, token }) => {
            let room = code.clone();
            let lookup = code.clone();
            (
                Session::AwaitingRoom {
                    code: room,
                    intent: ClientMsg::JoinRoom { code, role, name, token },
                },
                SessionAction::LookUp(lookup),
            )
        },
        Frame::Intent(_) | Frame::Malformed(_) => (
            Session::Closed,
            SessionAction::Reject(
                error_msg(ErrorCode::NotJoined, "first message must be join_room".to_owned()),
            ),
        ),
        Frame::Close | Frame::Other | Frame::Ended => (Session::Closed, SessionAction::Close),
    }
}

/// Decide on the room lookup.
fn on_room(code: String, intent: ClientMsg, found: bool) -> (next: (Session, SessionAction))
    ensures
        (next.0@, next.1@) == room_found(code@, intent@, found),
{
    if found {
        (
            Session::Joining,
            SessionAction::Join(Command { intent, role: Role::Display, name: None }),
        )
    } else {
        (
            Session::Closed,
            SessionAction::Reject(
                error_msg(ErrorCode::UnknownRoom, join_text("no room with code ", code.as_str())),
            ),
        )
    }
}

/// Learn the adopted identity from the room's first reply.
fn on_first_reply(reply: Option<ServerMsg>) -> (next: (Session, SessionAction))
    ensures
        (next.0@, next.1@) == first_reply(
            match reply {
                Some(msg) => Some(msg@),
                None => None,
            },
        ),
{
    match reply {
        Some(ServerMsg::Joined { role, name }) => {
            let greeting = ServerMsg::Joined { role, name: copy_opt(&name) };
            (Session::Open { role, name }, SessionAction::Greet(greeting))
        },
        Some(ServerMsg::Error { code, message }) => (
            Session::Closed,
            SessionAction::Reject(error_msg(code, message)),
        ),
        _ => (Session::Closed, SessionAction::Close),
    }
}

/// Decide on a frame of a joined client.
fn on_next_frame(role: Role, name: Option<String>, frame: Frame) -> (next: (
    Session,
    SessionAction,
))
    ensures
        (next.0@, next.1@) == next_frame(role, crate::text::opt_view(name), frame@),
{
    match frame {
        Frame::Intent(intent) => {
            let command = Command { intent, role, name: copy_opt(&name) };
            (Session::Open { role, name }, SessionAction::Dispatch(command))
        },
        Frame::Malformed(reason) => (
            Session::Open { role, name },
            SessionAction::Report(
                error_msg(
                    ErrorCode::BadRequest,
                    join_text("could not parse message: ", reason.as_str()),
                ),
            ),
        ),
        Frame::Other => (Session::Open { role, name }, SessionAction::Read),
        Frame::Close | Frame::Ended => (Session::Closed, SessionAction::Close),
    }
}

impl Session {
    /// A fresh connection.
    pub fn new() -> (session: Session)
        ensures
            session@ == SessionView::AwaitingJoin,
    {
        Session::AwaitingJoin
    }

    /// The next stage of a session and what the server shall do. An event that does
    /// not belong to the stage ends the session.
    pub fn step(self, event: SessionEvent) -> (next: (Session, SessionAction))
        ensures
            (next.0@, next.1@) == self@.step(event@),
    {
        match (self, event) {
            (Session::AwaitingJoin, SessionEvent::Frame(frame)) => on_first_frame(frame),
            (Session::AwaitingRoom { code, intent }, SessionEvent::Room(found)) => on_room(
                code,
                intent,
                found,
            ),
            (Session::Joining, SessionEvent::Dispatched(Ok(()))) => (
                Session::AwaitingReply,
                SessionAction::AwaitReply,
            ),
            (Session::AwaitingReply, SessionEvent::Reply(reply)) => on_first_reply(reply),
            (Session::Open { role, name }, SessionEvent::Frame(frame)) => on_next_frame(
                role,
                name,
                frame,
            ),
            (Session::Open { role, name }, SessionEvent::Dispatched(Ok(()))) => (
                Session::Open { role, name },
                SessionAction::Read,
            ),
            _ => (Session::Closed, SessionAction::Close),
        }
    }
}

// ----- the outbound pump -------------------------------------------------------------

/// What the outbound half of a connection waits for.
#[derive(Clone, Debug)]
pub enum PumpEvent {
    /// The room broadcast an event.
    Broadcast(ServerMsg),
    /// This client was slow and missed broadcasts.
    Lagged,
    /// The room is gone.
    RoomGone,
    /// The room replied to this connection.
    Direct(ServerMsg),
    /// The inbound half is done: the connection is closing.
    InboundDone,
    /// The last message could not be sent: the socket is closed.
    SendFailed,
}

/// What the outbound half shall do next.
#[derive(Clone, Debug)]
pub enum PumpAction {
    /// Send this message.
    Send(ServerMsg),
    /// Go on with the latest.
    Continue,
    /// Stop.
    Stop,
}

/// Forward broadcasts and direct replies to the socket; a slow client goes on with
/// the latest; the end of the room, of the inbound half or of the socket ends it.
pub fn pump(event: PumpEvent) -> (action: PumpAction)
    ensures
        action == (match event {
            PumpEvent::Broadcast(msg) => PumpAction::Send(msg),
            PumpEvent::Direct(msg) => PumpAction::Send(msg),
            PumpEvent::Lagged => PumpAction::Continue,
            PumpEvent::RoomGone => PumpAction::Stop,
            PumpEvent::InboundDone => PumpAction::Stop,
            PumpEvent::SendFailed => PumpAction::Stop,
        }),
{
    match event {
        PumpEvent::Broadcast(msg) | PumpEvent::Direct(msg) => PumpAction::Send(msg),
        PumpEvent::Lagged => PumpAction::Continue,
        PumpEvent::RoomGone | PumpEvent::InboundDone | PumpEvent::SendFailed => PumpAction::Stop,
    }
}

} // verus!

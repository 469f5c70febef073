//! The typed protocol between clients and the server.
//!
//! Clients send *intents* ([`ClientMsg`]); the server is the sole authority and
//! replies with *events* ([`ServerMsg`]). Every intent is matched exhaustively;
//! there is no catch-all that could silently drop one.

use vstd::prelude::*;

use crate::state::{Phase, Slide, SlideView};

verus! {

/// Which kind of client a socket is acting as. Permissions are enforced
/// server-side per role and never trusted from the UI.
#[derive(Clone, Copy, Debug, PartialEq, Eq, Structural)]
pub enum Role {
    /// The control panel: the only role allowed to drive the game.
    Host,
    /// A participant filling out and submitting prompts.
    Player,
    /// The shared submissions / carousel screen (read-only).
    Display,
}

impl Role {
    /// Host-only actions are gated on this server-side.
    pub fn is_host(self) -> (host: bool)
        ensures
            host == (self == Role::Host),
    {
        matches!(self, Role::Host)
    }
}

/// Client to server intents.
#[derive(Clone, Debug, PartialEq, Eq)]
pub enum ClientMsg {
    /// First message on every socket: identify the room and role (and, for a
    /// player, which name on the roster they are). The token is required when
    /// joining as [`Role::Host`] and ignored otherwise; it is issued on room
    /// creation, so host authority is enforced server-side.
    JoinRoom { code: String, role: Role, name: Option<String>, token: Option<String> },
    /// Host: add a name to the roster (Lobby only).
    AddPlayer { name: String },
    /// Host: remove a name from the roster (Lobby only).
    RemovePlayer { name: String },
    /// Host: lock the roster and open submissions.
    StartCollecting,
    /// Player: submit answers for their assigned prompt set.
    SubmitResponses { responses: Vec<String>, signoff: String },
    /// Host: begin the performance once everyone has submitted.
    StartGame,
    /// Host or current reader: next carousel slide.
    AdvanceSlide,
    /// Host or current reader: previous carousel slide.
    PrevSlide,
    /// Host or current reader: jump to a specific slide (keeps late joiners /
    /// refreshes in sync).
    GotoSlide { index: usize },
    /// Host: archive the round's responses and end the game.
    ArchiveRound,
    /// Host: clear the slate and start a fresh round.
    NewRound,
    /// Liveness ping; server replies with [`ServerMsg::Pong`].
    Ping,
}

/// Per-player status broadcast to host/display screens. Deliberately does *not*
/// leak a player's partner or answers to everyone.
#[derive(Clone, Debug, PartialEq, Eq)]
pub struct PlayerStatus {
    pub name: String,
    pub submitted: bool,
}

/// A snapshot of the room sent on join and after any state change.
#[derive(Clone, Debug, PartialEq, Eq)]
pub struct RoomSnapshot {
    pub code: String,
    pub phase: Phase,
    pub players: Vec<PlayerStatus>,
    pub current_slide: usize,
    pub total_slides: usize,
}

/// Stable machine-readable error codes for [`ServerMsg::Error`].
#[derive(Clone, Copy, Debug, PartialEq, Eq, Structural)]
pub enum ErrorCode {
    /// The socket tried a host-only action without the host role.
    Forbidden,
    /// The action isn't valid in the room's current phase / state.
    InvalidTransition,
    /// The referenced room does not exist.
    UnknownRoom,
    /// The first message was not a well-formed `JoinRoom`.
    NotJoined,
    /// The payload could not be parsed.
    BadRequest,
}

/// Server to client events.
#[derive(Clone, Debug, PartialEq, Eq)]
pub enum ServerMsg {
    /// Acknowledges a successful join.
    Joined { role: Role, name: Option<String> },
    /// Targeted (not broadcast): a player's partner and the prompts to fill in.
    Assignment { partner: String, prompts: Vec<String> },
    /// Full room snapshot.
    RoomState { room: RoomSnapshot },
    /// Submission progress for the submissions screen.
    SubmissionProgress { submitted: usize, total: usize, players: Vec<PlayerStatus> },
    /// The performance has begun.
    GameStarted { total_slides: usize },
    /// The carousel moved.
    SlideChanged { index: usize, total_slides: usize, slide: Slide },
    /// A rejected intent or other error.
    Error { code: ErrorCode, message: String },
    /// Reply to [`ClientMsg::Ping`].
    Pong,
}

// ----- views --------------------------------------------------------------------

/// The view of a [`ClientMsg`].
#[verifier::ext_equal]
pub enum ClientMsgView {
    JoinRoom {
        code: Seq<char>,
        role: Role,
        name: Option<Seq<char>>,
        token: Option<Seq<char>>,
    },
    AddPlayer { name: Seq<char> },
    RemovePlayer { name: Seq<char> },
    StartCollecting,
    SubmitResponses { responses: Seq<Seq<char>>, signoff: Seq<char> },
    StartGame,
    AdvanceSlide,
    PrevSlide,
    GotoSlide { index: nat },
    ArchiveRound,
    NewRound,
    Ping,
}

impl View for ClientMsg {
    type V = ClientMsgView;

    open spec fn view(&self) -> ClientMsgView {
        match self {
            ClientMsg::JoinRoom { code, role, name, token } => ClientMsgView::JoinRoom {
                code: code@,
                role: *role,
                name: crate::text::opt_view(*name),
                token: crate::text::opt_view(*token),
            },
            ClientMsg::AddPlayer { name } => ClientMsgView::AddPlayer { name: name@ },
            ClientMsg::RemovePlayer { name } => ClientMsgView::RemovePlayer { name: name@ },
            ClientMsg::StartCollecting => ClientMsgView::StartCollecting,
            ClientMsg::SubmitResponses { responses, signoff } => ClientMsgView::SubmitResponses {
                responses: crate::text::views_of(responses@),
                signoff: signoff@,
            },
            ClientMsg::StartGame => ClientMsgView::StartGame,
            ClientMsg::AdvanceSlide => ClientMsgView::AdvanceSlide,
            ClientMsg::PrevSlide => ClientMsgView::PrevSlide,
            ClientMsg::GotoSlide { index } => ClientMsgView::GotoSlide { index: *index as nat },
            ClientMsg::ArchiveRound => ClientMsgView::ArchiveRound,
            ClientMsg::NewRound => ClientMsgView::NewRound,
            ClientMsg::Ping => ClientMsgView::Ping,
        }
    }
}

/// The view of a [`PlayerStatus`].
#[verifier::ext_equal]
pub struct PlayerStatusView {
    pub name: Seq<char>,
    pub submitted: bool,
}

impl View for PlayerStatus {
    type V = PlayerStatusView;

    open spec fn view(&self) -> PlayerStatusView {
        PlayerStatusView { name: self.name@, submitted: self.submitted }
    }
}

/// The views of a list of statuses.
pub open spec fn status_views(statuses: Seq<PlayerStatus>) -> Seq<PlayerStatusView> {
    statuses.map_values(|s: PlayerStatus| s@)
}

/// The view of a [`RoomSnapshot`].
#[verifier::ext_equal]
pub struct RoomSnapshotView {
    pub code: Seq<char>,
    pub phase: Phase,
    pub players: Seq<PlayerStatusView>,
    pub current_slide: nat,
    pub total_slides: nat,
}

impl View for RoomSnapshot {
    type V = RoomSnapshotView;

    open spec fn view(&self) -> RoomSnapshotView {
        RoomSnapshotView {
            code: self.code@,
            phase: self.phase,
            players: status_views(self.players@),
            current_slide: self.current_slide as nat,
            total_slides: self.total_slides as nat,
        }
    }
}

/// The view of a [`ServerMsg`].
#[verifier::ext_equal]
pub enum ServerMsgView {
    Joined { role: Role, name: Option<Seq<char>> },
    Assignment { partner: Seq<char>, prompts: Seq<Seq<char>> },
    RoomState { room: RoomSnapshotView },
    SubmissionProgress { submitted: nat, total: nat, players: Seq<PlayerStatusView> },
    GameStarted { total_slides: nat },
    SlideChanged { index: nat, total_slides: nat, slide: SlideView },
    Error { code: ErrorCode, message: Seq<char> },
    Pong,
}

impl View for ServerMsg {
    type V = ServerMsgView;

    open spec fn view(&self) -> ServerMsgView {
        match self {
            ServerMsg::Joined { role, name } => ServerMsgView::Joined {
                role: *role,
                name: crate::text::opt_view(*name),
            },
            ServerMsg::Assignment { partner, prompts } => ServerMsgView::Assignment {
                partner: partner@,
                prompts: crate::text::views_of(prompts@),
            },
            ServerMsg::RoomState { room } => ServerMsgView::RoomState { room: room@ },
            ServerMsg::SubmissionProgress {
                submitted,
                total,
                players,
            } => ServerMsgView::SubmissionProgress {
                submitted: *submitted as nat,
                total: *total as nat,
                players: status_views(players@),
            },
            ServerMsg::GameStarted { total_slides } => ServerMsgView::GameStarted {
                total_slides: *total_slides as nat,
            },
            ServerMsg::SlideChanged { index, total_slides, slide } => ServerMsgView::SlideChanged {
                index: *index as nat,
                total_slides: *total_slides as nat,
                slide: slide@,
            },
            ServerMsg::Error { code, message } => ServerMsgView::Error {
                code: *code,
                message: message@,
            },
            ServerMsg::Pong => ServerMsgView::Pong,
        }
    }
}

/// The views of a list of events.
pub open spec fn msg_views(msgs: Seq<ServerMsg>) -> Seq<ServerMsgView> {
    msgs.map_values(|m: ServerMsg| m@)
}

} // verus!

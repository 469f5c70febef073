//! What the views show: every value as it is, field by field and item by item.

use vstd::prelude::*;

use crate::db;
use crate::db::{DbStep, DbStepView};
use crate::error::{AppError, AppErrorView};
use crate::protocol;
use crate::protocol::{
    ClientMsg, ClientMsgView, PlayerStatus, PlayerStatusView, RoomSnapshot, ServerMsg,
    ServerMsgView,
};
use crate::room;
use crate::room::{Command, Effect, Reaction};
use crate::state;
use crate::state::{
    ArchivedEntry, GameState, Player, PromptSet, Responses, Slide, SlideView, TransitionError,
    TransitionErrorView,
};
use crate::text;
use crate::ws::{
    Frame, FrameView, Session, SessionAction, SessionActionView, SessionEvent, SessionEventView,
    SessionView,
};

verus! {

/// Is this the characters of an optional string?
pub open spec fn shows_option(shown: Option<Seq<char>>, value: Option<String>) -> bool {
    match value {
        Some(text) => shown == Some(text@),
        None => shown is None,
    }
}

/// Are these the characters of every string of a list, in order?
pub open spec fn shows_strings(shown: Seq<Seq<char>>, list: Seq<String>) -> bool {
    &&& shown.len() == list.len()
    &&& forall|i: int| 0 <= i < list.len() ==> #[trigger] shown[i] == list[i]@
}

/// Lists are shown item by item, in order.
pub proof fn law_lists_are_shown_in_order(
    strings: Seq<String>,
    players: Seq<Player>,
    sets: Seq<PromptSet>,
    slides: Seq<Slide>,
    entries: Seq<ArchivedEntry>,
    i: int,
)
    ensures
        shows_strings(text::views_of(strings), strings),
        state::player_views(players).len() == players.len(),
        0 <= i < players.len() ==> state::player_views(players)[i] == players[i]@,
        state::prompt_set_views(sets).len() == sets.len(),
        0 <= i < sets.len() ==> state::prompt_set_views(sets)[i] == sets[i]@,
        state::slide_views(slides).len() == slides.len(),
        0 <= i < slides.len() ==> state::slide_views(slides)[i] == slides[i]@,
        state::entry_views(entries).len() == entries.len(),
        0 <= i < entries.len() ==> state::entry_views(entries)[i] == entries[i]@,
{
}

/// Events, statuses, effects and statements are shown item by item, in order.
pub proof fn law_messages_are_shown_in_order(
    statuses: Seq<PlayerStatus>,
    msgs: Seq<ServerMsg>,
    effects: Seq<Effect>,
    steps: Seq<DbStep>,
    i: int,
)
    ensures
        protocol::status_views(statuses).len() == statuses.len(),
        0 <= i < statuses.len() ==> protocol::status_views(statuses)[i] == statuses[i]@,
        protocol::msg_views(msgs).len() == msgs.len(),
        0 <= i < msgs.len() ==> protocol::msg_views(msgs)[i] == msgs[i]@,
        room::effect_views(effects).len() == effects.len(),
        0 <= i < effects.len() ==> room::effect_views(effects)[i] == effects[i]@,
        db::step_views(steps).len() == steps.len(),
        0 <= i < steps.len() ==> db::step_views(steps)[i] == steps[i]@,
{
}

/// Optional strings are shown as they are.
pub proof fn law_options_are_shown(value: Option<String>, slice: Option<&str>)
    ensures
        shows_option(text::opt_view(value), value),
        slice is Some ==> text::opt_str_view(slice) == Some(slice->0@),
        slice is None ==> text::opt_str_view(slice) is None,
{
}

/// A game is shown as it is: its code, phase, roster, prompt sets and place.
pub proof fn law_a_game_is_shown(game: GameState, i: int)
    ensures
        game@.code == game.code@,
        game@.phase == game.phase,
        game@.current_slide == game.current_slide,
        game@.players.len() == game.players@.len(),
        0 <= i < game.players@.len() ==> game@.players[i] == game.players@[i]@,
        game@.prompt_sets.len() == game.prompt_sets@.len(),
        0 <= i < game.prompt_sets@.len() ==> game@.prompt_sets[i] == game.prompt_sets@[i]@,
{
}

/// A player is shown as they are: the name, the assignment, and the answers in order.
pub proof fn law_a_player_is_shown(player: Player, answers: Responses)
    ensures
        player@.name == player.name@,
        player@.prompt_set_id == player.prompt_set_id,
        shows_option(player@.partner, player.partner),
        player.responses is Some ==> player@.responses == Some(player.responses->0@),
        player.responses is None ==> player@.responses is None,
        shows_strings(answers@.items, answers.items@),
        answers@.signoff == answers.signoff@,
{
}

/// A prompt set and an entry are shown as they are.
pub proof fn law_sets_and_entries_are_shown(set: PromptSet, entry: ArchivedEntry)
    ensures
        set@.id == set.id,
        set@.name == set.name@,
        set@.author == set.author@,
        shows_strings(set@.prompts, set.prompts@),
        entry@.name == entry.name@,
        shows_option(entry@.partner, entry.partner),
        entry@.prompt_set_id == entry.prompt_set_id,
        shows_strings(entry@.prompts, entry.prompts@),
        shows_strings(entry@.responses, entry.responses@),
        entry@.signoff == entry.signoff@,
{
}

/// A slide is shown as it is.
pub proof fn law_a_slide_is_shown(slide: Slide)
    ensures
        match slide {
            Slide::Rules => slide@ == SlideView::Rules,
            Slide::PresenterIntro { presenter, teleprompter, first } => slide@
                == (SlideView::PresenterIntro {
                presenter: presenter@,
                teleprompter: teleprompter@,
                first,
            }),
            Slide::Greeting { presenter } => slide@ == (SlideView::Greeting {
                presenter: presenter@,
            }),
            Slide::Script { reader, text } => slide@ == (SlideView::Script {
                reader: reader@,
                text: text@,
            }),
            Slide::Signoff { presenter, text } => slide@ == (SlideView::Signoff {
                presenter: presenter@,
                text: text@,
            }),
            Slide::Credits => slide@ == SlideView::Credits,
            Slide::Blank => slide@ == SlideView::Blank,
        },
{
}

/// A refusal is shown as it is.
pub proof fn law_a_refusal_is_shown(error: TransitionError)
    ensures
        match error {
            TransitionError::WrongPhase { phase } => error@ == (TransitionErrorView::WrongPhase {
                phase,
            }),
            TransitionError::NoPlayers => error@ == TransitionErrorView::NoPlayers,
            TransitionError::NoPromptSets => error@ == TransitionErrorView::NoPromptSets,
            TransitionError::UnknownPlayer(name) => error@ == TransitionErrorView::UnknownPlayer(
                name@,
            ),
            TransitionError::DuplicatePlayer(name) => error@
                == TransitionErrorView::DuplicatePlayer(name@),
            TransitionError::NotAllSubmitted => error@ == TransitionErrorView::NotAllSubmitted,
            TransitionError::SlideOutOfRange(index) => error@
                == TransitionErrorView::SlideOutOfRange(index as nat),
            TransitionError::ResponseCountMismatch { expected, got } => error@
                == (TransitionErrorView::ResponseCountMismatch {
                expected: expected as nat,
                got: got as nat,
            }),
            TransitionError::NoAssignment(name) => error@ == TransitionErrorView::NoAssignment(
                name@,
            ),
        },
{
}

/// An application error is shown as it is.
pub proof fn law_an_application_error_is_shown(error: AppError)
    ensures
        match error {
            AppError::NotFound(message) => error@ == AppErrorView::NotFound(message@),
            AppError::BadRequest(message) => error@ == AppErrorView::BadRequest(message@),
            AppError::Internal(message) => error@ == AppErrorView::Internal(message@),
        },
{
}

/// An intent is shown as it is.
pub proof fn law_an_intent_is_shown(intent: ClientMsg)
    ensures
        match intent {
            ClientMsg::JoinRoom { code, role, name, token } => {
                &&& intent@ is JoinRoom
                &&& intent@->code == code@
                &&& intent@->JoinRoom_role == role
                &&& shows_option(intent@->JoinRoom_name, name)
                &&& shows_option(intent@->token, token)
            },
            ClientMsg::AddPlayer { name } => intent@ == (ClientMsgView::AddPlayer { name: name@ }),
            ClientMsg::RemovePlayer { name } => intent@ == (ClientMsgView::RemovePlayer {
                name: name@,
            }),
            ClientMsg::StartCollecting => intent@ == ClientMsgView::StartCollecting,
            ClientMsg::SubmitResponses { responses, signoff } => {
                &&& intent@ is SubmitResponses
                &&& shows_strings(intent@->responses, responses@)
                &&& intent@->signoff == signoff@
            },
            ClientMsg::StartGame => intent@ == ClientMsgView::StartGame,
            ClientMsg::AdvanceSlide => intent@ == ClientMsgView::AdvanceSlide,
            ClientMsg::PrevSlide => intent@ == ClientMsgView::PrevSlide,
            ClientMsg::GotoSlide { index } => intent@ == (ClientMsgView::GotoSlide {
                index: index as nat,
            }),
            ClientMsg::ArchiveRound => intent@ == ClientMsgView::ArchiveRound,
            ClientMsg::NewRound => intent@ == ClientMsgView::NewRound,
            ClientMsg::Ping => intent@ == ClientMsgView::Ping,
        },
{
}

/// A room and a player's status are shown as they are.
pub proof fn law_a_snapshot_is_shown(room: RoomSnapshot, status: PlayerStatus, i: int)
    ensures
        room@.code == room.code@,
        room@.phase == room.phase,
        room@.players.len() == room.players@.len(),
        0 <= i < room.players@.len() ==> room@.players[i] == room.players@[i]@,
        room@.current_slide == room.current_slide,
        room@.total_slides == room.total_slides,
        status@ == (PlayerStatusView { name: status.name@, submitted: status.submitted }),
{
}

/// An event is shown as it is.
pub proof fn law_an_event_is_shown(msg: ServerMsg, i: int)
    ensures
        match msg {
            ServerMsg::Joined { role, name } => {
                &&& msg@ is Joined
                &&& msg@->role == role
                &&& shows_option(msg@->name, name)
            },
            ServerMsg::Assignment { partner, prompts } => {
                &&& msg@ is Assignment
                &&& msg@->partner == partner@
                &&& shows_strings(msg@->prompts, prompts@)
            },
            ServerMsg::RoomState { room } => msg@ == (ServerMsgView::RoomState { room: room@ }),
            ServerMsg::SubmissionProgress { submitted, total, players } => {
                &&& msg@ is SubmissionProgress
                &&& msg@->submitted == submitted
                &&& msg@->total == total
                &&& msg@->players.len() == players@.len()
                &&& 0 <= i < players@.len() ==> msg@->players[i] == players@[i]@
            },
            ServerMsg::GameStarted { total_slides } => msg@ == (ServerMsgView::GameStarted {
                total_slides: total_slides as nat,
            }),
            ServerMsg::SlideChanged { index, total_slides, slide } => msg@
                == (ServerMsgView::SlideChanged {
                index: index as nat,
                total_slides: total_slides as nat,
                slide: slide@,
            }),
            ServerMsg::Error { code, message } => msg@ == (ServerMsgView::Error {
                code,
                message: message@,
            }),
            ServerMsg::Pong => msg@ == ServerMsgView::Pong,
        },
{
}

/// A command, an effect and a reaction are shown as they are.
pub proof fn law_commands_and_reactions_are_shown(
    command: Command,
    effect: Effect,
    reaction: Reaction,
    i: int,
)
    ensures
        command@.intent == command.intent@,
        command@.role == command.role,
        shows_option(command@.name, command.name),
        match effect {
            Effect::SaveFinalResponses(entries) => {
                &&& effect@ is SaveFinalResponses
                &&& effect@->SaveFinalResponses_0.len() == entries@.len()
                &&& 0 <= i < entries@.len() ==> effect@->SaveFinalResponses_0[i] == entries@[i]@
            },
            Effect::ArchiveRound(entries) => {
                &&& effect@ is ArchiveRound
                &&& effect@->ArchiveRound_0.len() == entries@.len()
                &&& 0 <= i < entries@.len() ==> effect@->ArchiveRound_0[i] == entries@[i]@
            },
        },
        reaction@.broadcasts.len() == reaction.broadcasts@.len(),
        0 <= i < reaction.broadcasts@.len() ==> reaction@.broadcasts[i]
            == reaction.broadcasts@[i]@,
        reaction@.direct.len() == reaction.direct@.len(),
        0 <= i < reaction.direct@.len() ==> reaction@.direct[i] == reaction.direct@[i]@,
        reaction@.effects.len() == reaction.effects@.len(),
        0 <= i < reaction.effects@.len() ==> reaction@.effects[i] == reaction.effects@[i]@,
{
}

/// A statement is shown as it is.
pub proof fn law_a_statement_is_shown(step: DbStep)
    ensures
        match step {
            DbStep::ClearResponses { room_code } => step@ == (DbStepView::ClearResponses {
                room_code: room_code@,
            }),
            DbStep::InsertResponse { room_code, entry } => step@ == (DbStepView::InsertResponse {
                room_code: room_code@,
                entry: entry@,
            }),
            DbStep::InsertArchive { batch_id, room_code, entry } => step@
                == (DbStepView::InsertArchive {
                batch_id: batch_id@,
                room_code: room_code@,
                entry: entry@,
            }),
        },
{
}

/// A session and a frame are shown as they are.
pub proof fn law_a_session_is_shown(session: Session, frame: Frame)
    ensures
        match session {
            Session::AwaitingJoin => session@ == SessionView::AwaitingJoin,
            Session::AwaitingRoom { code, intent } => session@ == (SessionView::AwaitingRoom {
                code: code@,
                intent: intent@,
            }),
            Session::Joining => session@ == SessionView::Joining,
            Session::AwaitingReply => session@ == SessionView::AwaitingReply,
            Session::Open { role, name } => {
                &&& session@ is Open
                &&& session@->role == role
                &&& shows_option(session@->name, name)
            },
            Session::Closed => session@ == SessionView::Closed,
        },
        match frame {
            Frame::Intent(intent) => frame@ == FrameView::Intent(intent@),
            Frame::Malformed(reason) => frame@ == FrameView::Malformed(reason@),
            Frame::Close => frame@ == FrameView::Close,
            Frame::Other => frame@ == FrameView::Other,
            Frame::Ended => frame@ == FrameView::Ended,
        },
{
}

/// What a session is told and what it asks for are shown as they are.
pub proof fn law_session_events_and_actions_are_shown(event: SessionEvent, action: SessionAction)
    ensures
        match event {
            SessionEvent::Frame(frame) => event@ == SessionEventView::Frame(frame@),
            SessionEvent::Room(found) => event@ == SessionEventView::Room(found),
            SessionEvent::Dispatched(outcome) => event@ == SessionEventView::Dispatched(
                outcome is Ok,
            ),
            SessionEvent::Reply(Some(msg)) => event@ == SessionEventView::Reply(Some(msg@)),
            SessionEvent::Reply(None) => event@ == SessionEventView::Reply(None),
        },
        match action {
            SessionAction::LookUp(code) => action@ == SessionActionView::LookUp(code@),
            SessionAction::Join(command) => action@ == SessionActionView::Join(command@),
            SessionAction::AwaitReply => action@ == SessionActionView::AwaitReply,
            SessionAction::Greet(msg) => action@ == SessionActionView::Greet(msg@),
            SessionAction::Dispatch(command) => action@ == SessionActionView::Dispatch(command@),
            SessionAction::Report(msg) => action@ == SessionActionView::Report(msg@),
            SessionAction::Read => action@ == SessionActionView::Read,
            SessionAction::Reject(msg) => action@ == SessionActionView::Reject(msg@),
            SessionAction::Close => action@ == SessionActionView::Close,
        },
{
}

} // verus!

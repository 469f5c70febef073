//! What holds of every connection.

use vstd::prelude::*;

use crate::protocol::{ClientMsgView, Role, ServerMsgView};
use crate::room;
use crate::room::CommandView;
use crate::state::GameView;
use crate::ws::{FrameView, SessionActionView, SessionEventView, SessionView};

verus! {

/// The identity of a session never changes: from the join on it keeps its role and its
/// name until it closes, whatever the client sends.
pub proof fn law_the_identity_never_changes(
    role: Role,
    name: Option<Seq<char>>,
    events: Seq<SessionEventView>,
)
    ensures
        ({
            let open = SessionView::Open { role, name };
            let later = open.after_all(events);
            later == open || later == SessionView::Closed
        }),
    decreases events.len(),
{
    if events.len() > 0 {
        law_the_identity_never_changes(role, name, events.drop_last());
    }
}

/// Every command of a joined client carries the identity that the room granted.
pub proof fn law_commands_carry_the_granted_identity(
    role: Role,
    name: Option<Seq<char>>,
    events: Seq<SessionEventView>,
    event: SessionEventView,
)
    ensures
        ({
            let session = (SessionView::Open { role, name }).after_all(events);
            session.step(event).1 matches SessionActionView::Dispatch(command) ==> {
                &&& command.role == role
                &&& command.name == name
            }
        }),
{
    law_the_identity_never_changes(role, name, events);
}

/// A session that is over stays over.
pub proof fn law_closed_sessions_stay_closed(events: Seq<SessionEventView>)
    ensures
        SessionView::Closed.after_all(events) == SessionView::Closed,
    decreases events.len(),
{
    if events.len() > 0 {
        law_closed_sessions_stay_closed(events.drop_last());
    }
}

/// A connection that drops sends nothing more: whatever its stage, the session is over
/// and no command follows, so the room stays as it is.
pub proof fn law_a_dropped_connection_sends_nothing(session: SessionView, frame: FrameView)
    requires
        frame is Close || frame is Ended,
    ensures
        session.step(SessionEventView::Frame(frame)) == (
            SessionView::Closed,
            SessionActionView::Close,
        ),
{
}

/// Before a room grants an identity, the only command that a client gets through is a
/// join, and it goes under an identity that grants nothing.
pub proof fn law_nothing_but_a_join_goes_first(
    events: Seq<SessionEventView>,
    event: SessionEventView,
)
    ensures
        ({
            let session = SessionView::AwaitingJoin.after_all(events);
            let action = session.step(event).1;
            &&& session matches SessionView::AwaitingRoom { intent, .. } ==> intent is JoinRoom
            &&& action matches SessionActionView::Join(command) ==> {
                &&& command.intent is JoinRoom
                &&& command.role == Role::Display
                &&& command.name is None
            }
            &&& action is Dispatch ==> session is Open
        }),
    decreases events.len(),
{
    if events.len() > 0 {
        law_nothing_but_a_join_goes_first(events.drop_last(), events.last());
    }
}

/// A connection is taken for the host only if it presented the room's token: the room's
/// first reply to a join opens a host session only then.
#[verifier::rlimit(40)]
pub proof fn law_a_host_session_presented_the_token(
    game: GameView,
    host_token: Seq<char>,
    join: CommandView,
)
    ensures
        ({
            let reaction = room::react(game, host_token, join.role, join.name, join.intent).1;
            let first = if reaction.direct.len() > 0 {
                Some(reaction.direct[0])
            } else {
                None
            };
            let session = SessionView::AwaitingReply.step(SessionEventView::Reply(first)).0;
            session matches SessionView::Open { role, name } ==> {
                &&& join.intent matches ClientMsgView::JoinRoom {
                    role: requested,
                    name: joiner,
                    token,
                    ..
                }
                &&& role == requested
                &&& name == joiner
                &&& role == Role::Host ==> token == Some(host_token)
            }
        }),
{
}

/// A join that the room refuses is answered by the refusal and ends the session.
pub proof fn law_a_refused_join_ends_the_session(
    game: GameView,
    host_token: Seq<char>,
    join: CommandView,
)
    requires
        join.intent is JoinRoom,
        join.intent->JoinRoom_role == Role::Host,
        join.intent->token != Some(host_token),
    ensures
        ({
            let reaction = room::react(game, host_token, join.role, join.name, join.intent).1;
            SessionView::AwaitingReply.step(SessionEventView::Reply(Some(reaction.direct[0])))
                == (SessionView::Closed, SessionActionView::Reject(reaction.direct[0]))
        }),
{
}

} // verus!

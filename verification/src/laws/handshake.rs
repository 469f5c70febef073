//! How a connection joins, talks and ends.

use vstd::prelude::*;

use crate::protocol::{ClientMsgView, ErrorCode, Role, ServerMsgView};
use crate::room::CommandView;
use crate::ws::{FrameView, SessionActionView, SessionEventView, SessionView};

verus! {

/// A join goes its way: the room of the code in it is looked up, the room is handed the very
/// intent that came, under an identity that grants nothing, and its acknowledgement is
/// passed on and settles the identity of the session.
pub proof fn law_a_join_goes_its_way(
    intent: ClientMsgView,
    granted: Role,
    known_as: Option<Seq<char>>,
)
    requires
        intent is JoinRoom,
    ensures
        ({
            let welcome = ServerMsgView::Joined { role: granted, name: known_as };
            let (s1, a1) = SessionView::AwaitingJoin.step(
                SessionEventView::Frame(FrameView::Intent(intent)),
            );
            let (s2, a2) = s1.step(SessionEventView::Room(true));
            let (s3, a3) = s2.step(SessionEventView::Dispatched(true));
            let (s4, a4) = s3.step(SessionEventView::Reply(Some(welcome)));
            &&& a1 == SessionActionView::LookUp(intent->code)
            &&& a2 == SessionActionView::Join(
                CommandView { intent, role: Role::Display, name: None },
            )
            &&& a3 == SessionActionView::AwaitReply
            &&& a4 == SessionActionView::Greet(welcome)
            &&& s4 == (SessionView::Open { role: granted, name: known_as })
        }),
{
}

/// A join to a room that does not exist is answered with the code it asked for, and one that
/// the room refuses with the room's own words; both end the session. A room that is gone, or
/// that answers with anything else, ends it without a word.
pub proof fn law_a_failed_join_is_answered(
    intent: ClientMsgView,
    code: ErrorCode,
    message: Seq<char>,
    reply: ServerMsgView,
)
    requires
        intent is JoinRoom,
        !(reply is Joined),
        !(reply is Error),
    ensures
        ({
            let looking = SessionView::AwaitingJoin.step(
                SessionEventView::Frame(FrameView::Intent(intent)),
            ).0;
            let refusal = ServerMsgView::Error { code, message };
            let over = (SessionView::Closed, SessionActionView::Close);
            &&& looking.step(SessionEventView::Room(false)) == (
                SessionView::Closed,
                SessionActionView::Reject(
                    ServerMsgView::Error {
                        code: ErrorCode::UnknownRoom,
                        message: "no room with code "@ + intent->code,
                    },
                ),
            )
            &&& looking.step(SessionEventView::Room(true)).0.step(
                SessionEventView::Dispatched(false),
            ) == over
            &&& SessionView::AwaitingReply.step(SessionEventView::Reply(Some(refusal))) == (
                SessionView::Closed,
                SessionActionView::Reject(refusal),
            )
            &&& SessionView::AwaitingReply.step(SessionEventView::Reply(Some(reply))) == over
            &&& SessionView::AwaitingReply.step(SessionEventView::Reply(None)) == over
        }),
{
}

/// Anything but a join as the first text is rejected; a socket that closes or sends no text
/// first is dropped.
pub proof fn law_the_first_text_must_be_a_join(frame: FrameView)
    requires
        frame matches FrameView::Intent(intent) ==> !(intent is JoinRoom),
    ensures
        SessionView::AwaitingJoin.step(SessionEventView::Frame(frame)) == (
            SessionView::Closed,
            if frame is Intent || frame is Malformed {
                SessionActionView::Reject(
                    ServerMsgView::Error {
                        code: ErrorCode::NotJoined,
                        message: "first message must be join_room"@,
                    },
                )
            } else {
                SessionActionView::Close
            },
        ),
{
}

/// What a joined client sends is handed to the room as it came, under the identity of the
/// session; a text that holds no intent is reported back with the reason; other frames are
/// passed over; the session goes on in all these cases, and while the room takes its
/// commands. It ends when the socket closes or the room is gone.
pub proof fn law_a_joined_client_is_heard(
    role: Role,
    name: Option<Seq<char>>,
    intent: ClientMsgView,
    reason: Seq<char>,
)
    ensures
        ({
            let open = SessionView::Open { role, name };
            let over = (SessionView::Closed, SessionActionView::Close);
            &&& open.step(SessionEventView::Frame(FrameView::Intent(intent))) == (
                open,
                SessionActionView::Dispatch(CommandView { intent, role, name }),
            )
            &&& open.step(SessionEventView::Frame(FrameView::Malformed(reason))) == (
                open,
                SessionActionView::Report(
                    ServerMsgView::Error {
                        code: ErrorCode::BadRequest,
                        message: "could not parse message: "@ + reason,
                    },
                ),
            )
            &&& open.step(SessionEventView::Frame(FrameView::Other)) == (
                open,
                SessionActionView::Read,
            )
            &&& open.step(SessionEventView::Dispatched(true)) == (open, SessionActionView::Read)
            &&& open.step(SessionEventView::Frame(FrameView::Close)) == over
            &&& open.step(SessionEventView::Frame(FrameView::Ended)) == over
            &&& open.step(SessionEventView::Dispatched(false)) == over
        }),
{
}

/// A session that waits for the lookup of a room goes by its outcome alone.
pub proof fn law_the_lookup_decides(code: Seq<char>, intent: ClientMsgView)
    ensures
        ({
            let waiting = SessionView::AwaitingRoom { code, intent };
            &&& waiting.step(SessionEventView::Room(true)) == (
                SessionView::Joining,
                SessionActionView::Join(CommandView { intent, role: Role::Display, name: None }),
            )
            &&& waiting.step(SessionEventView::Room(false)) == (
                SessionView::Closed,
                SessionActionView::Reject(
                    ServerMsgView::Error {
                        code: ErrorCode::UnknownRoom,
                        message: "no room with code "@ + code,
                    },
                ),
            )
        }),
{
}

/// Does the event belong to the stage that the session is in?
pub open spec fn in_turn(session: SessionView, event: SessionEventView) -> bool {
    ||| session is AwaitingJoin && event is Frame
    ||| session is AwaitingRoom && event is Room
    ||| session is Joining && event is Dispatched
    ||| session is AwaitingReply && event is Reply
    ||| session is Open && (event is Frame || event is Dispatched)
}

/// An event out of turn ends the session without a word.
pub proof fn law_an_event_out_of_turn_ends_the_session(
    session: SessionView,
    event: SessionEventView,
)
    requires
        !in_turn(session, event),
    ensures
        session.step(event) == (SessionView::Closed, SessionActionView::Close),
{
}

/// A session takes its events one after the other.
pub proof fn law_events_are_taken_in_order(
    session: SessionView,
    events: Seq<SessionEventView>,
    event: SessionEventView,
)
    ensures
        session.after_all(Seq::empty()) == session,
        session.after_all(events.push(event)) == session.after_all(events).step(event).0,
{
    assert(events.push(event).drop_last() =~= events);
}

} // verus!

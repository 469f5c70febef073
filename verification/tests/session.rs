//! The per-connection session, and whole games played through sessions.

use channel_zero::protocol::{ClientMsg, ErrorCode, Role, ServerMsg};
use channel_zero::registry::Registry;
use channel_zero::room::{apply, Command, Effect, RoomClosed};
use channel_zero::routes::create_room;
use channel_zero::state::{GameState, Phase, PromptSet, Slide};
use channel_zero::ws::{
    pump, Frame, PumpAction, PumpEvent, Session, SessionAction, SessionEvent,
};

fn prompt_sets() -> Vec<PromptSet> {
    vec![PromptSet {
        id: 1,
        name: "Test".into(),
        author: "Eric".into(),
        prompts: vec!["one ".into(), "two ".into(), "three ".into()],
    }]
}

fn join(code: &str, role: Role, name: Option<&str>, token: Option<&str>) -> ClientMsg {
    ClientMsg::JoinRoom {
        code: code.into(),
        role,
        name: name.map(String::from),
        token: token.map(String::from),
    }
}

fn intent(msg: ClientMsg) -> SessionEvent {
    SessionEvent::Frame(Frame::Intent(msg))
}

/// One room with everything it broadcast and kept.
struct Room {
    state: GameState,
    token: String,
    broadcasts: Vec<ServerMsg>,
    effects: Vec<Effect>,
}

impl Room {
    /// Reduce a command; the direct replies come back.
    fn take(&mut self, command: Command) -> Vec<ServerMsg> {
        let reaction = apply(
            &mut self.state,
            &self.token,
            command.role,
            command.name.as_deref(),
            command.intent,
        );
        self.broadcasts.extend(reaction.broadcasts);
        self.effects.extend(reaction.effects);
        reaction.direct
    }
}

/// A server with one room, and the sessions that talk to it.
struct Server {
    registry: Registry<()>,
    room: Room,
}

impl Server {
    fn new() -> Server {
        let mut registry: Registry<()> = Registry::new();
        let created = create_room(&prompt_sets(), &mut registry, |_, _| ())
            .unwrap()
            .unwrap();
        let room = Room {
            state: GameState::new(&created.code, prompt_sets()),
            token: created.host_token,
            broadcasts: vec![],
            effects: vec![],
        };
        Server { registry, room }
    }

    /// Connect and send the first message; what the client is sent comes back.
    fn connect(&mut self, first: ClientMsg) -> (Session, Vec<ServerMsg>) {
        let (mut session, mut action) = Session::new().step(intent(first));
        let mut sent = vec![];
        let mut direct: Vec<ServerMsg> = vec![];
        loop {
            let event = match action {
                SessionAction::LookUp(code) => {
                    SessionEvent::Room(self.registry.get(&code).is_some())
                }
                SessionAction::Join(command) => {
                    direct = self.room.take(command);
                    SessionEvent::Dispatched(Ok(()))
                }
                SessionAction::AwaitReply => {
                    let first = direct.remove(0);
                    SessionEvent::Reply(Some(first))
                }
                SessionAction::Greet(msg) | SessionAction::Reject(msg) => {
                    sent.push(msg);
                    sent.extend(direct);
                    return (session, sent);
                }
                other => panic!("unexpected action {other:?}"),
            };
            let next = session.step(event);
            session = next.0;
            action = next.1;
        }
    }

    /// Send one more message on an open session; the direct replies come back.
    fn send(&mut self, session: Session, msg: ClientMsg) -> (Session, Vec<ServerMsg>) {
        let (session, action) = session.step(intent(msg));
        match action {
            SessionAction::Dispatch(command) => {
                let direct = self.room.take(command);
                let (session, action) = session.step(SessionEvent::Dispatched(Ok(())));
                assert!(matches!(action, SessionAction::Read));
                (session, direct)
            }
            other => panic!("unexpected action {other:?}"),
        }
    }
}

#[test]
fn full_game_through_sessions() {
    let mut server = Server::new();
    let code = server.room.state.code.clone();
    let token = server.room.token.clone();

    // ---- host joins ----
    let (mut host, sent) = server.connect(join(&code, Role::Host, None, Some(&token)));
    assert!(matches!(sent[0], ServerMsg::Joined { role: Role::Host, .. }));

    // ---- host builds the roster ----
    for name in ["Ann", "Bo"] {
        host = server.send(host, ClientMsg::AddPlayer { name: name.into() }).0;
    }
    assert!(matches!(
        &server.room.broadcasts[2],
        ServerMsg::RoomState { room } if room.players.len() == 2
    ));

    // ---- display screen joins, but must not be able to drive the game ----
    let (display, sent) = server.connect(join(&code, Role::Display, None, None));
    assert!(matches!(sent[0], ServerMsg::Joined { role: Role::Display, .. }));
    let (_display, direct) = server.send(display, ClientMsg::StartCollecting);
    assert!(matches!(
        direct.as_slice(),
        [ServerMsg::Error { code: ErrorCode::Forbidden, .. }]
    ));
    assert_eq!(server.room.state.phase, Phase::Lobby);

    // ---- host opens submissions ----
    host = server.send(host, ClientMsg::StartCollecting).0;
    assert_eq!(server.room.state.phase, Phase::Collecting);

    // ---- players join and submit ----
    for name in ["Ann", "Bo"] {
        let (player, sent) = server.connect(join(&code, Role::Player, Some(name), None));
        let prompt_count = match &sent[3] {
            ServerMsg::Assignment { prompts, .. } => prompts.len(),
            other => panic!("expected an assignment, got {other:?}"),
        };
        assert_eq!(prompt_count, 3);
        let (_player, direct) = server.send(
            player,
            ClientMsg::SubmitResponses {
                responses: vec!["aa".into(), "bb".into(), "cc".into()],
                signoff: "stay classy".into(),
            },
        );
        assert!(direct.is_empty());
    }
    assert!(server.room.broadcasts.iter().any(|m| matches!(
        m,
        ServerMsg::SubmissionProgress { submitted, total, .. } if submitted == total && *total == 2
    )));

    // ---- host starts the game ----
    server.room.broadcasts.clear();
    host = server.send(host, ClientMsg::StartGame).0;
    // rules(1) + per player [intro, greeting, 3 prompts, signoff]=6 + credits + blank
    assert_eq!(
        server.room.broadcasts[0],
        ServerMsg::GameStarted { total_slides: 1 + 2 * 6 + 2 }
    );
    assert!(matches!(
        server.room.broadcasts[1],
        ServerMsg::SlideChanged { index: 0, slide: Slide::Rules, .. }
    ));
    assert!(matches!(server.room.effects[0], Effect::SaveFinalResponses(_)));

    // ---- host advances the carousel ----
    server.room.broadcasts.clear();
    host = server.send(host, ClientMsg::AdvanceSlide).0;
    assert!(matches!(
        server.room.broadcasts[0],
        ServerMsg::SlideChanged { index: 1, .. }
    ));

    // ---- host archives the round ----
    host = server.send(host, ClientMsg::ArchiveRound).0;
    assert_eq!(server.room.state.phase, Phase::Archived);
    assert!(matches!(server.room.effects[1], Effect::ArchiveRound(_)));
    assert!(matches!(host, Session::Open { role: Role::Host, name: None }));
}

#[test]
fn host_join_with_bad_token_is_rejected() {
    let mut server = Server::new();
    let code = server.room.state.code.clone();
    let (session, sent) = server.connect(join(&code, Role::Host, None, Some("totally-wrong")));
    assert!(matches!(
        sent.as_slice(),
        [ServerMsg::Error { code: ErrorCode::Forbidden, .. }]
    ));
    assert!(matches!(session, Session::Closed));
}

#[test]
fn joining_unknown_room_errors() {
    let mut server = Server::new();
    server.registry.remove("ZZZZ");
    let (session, sent) = server.connect(join("ZZZZ", Role::Display, None, None));
    assert_eq!(
        sent,
        vec![ServerMsg::Error {
            code: ErrorCode::UnknownRoom,
            message: "no room with code ZZZZ".into(),
        }]
    );
    assert!(matches!(session, Session::Closed));
}

#[test]
fn the_first_message_must_be_a_join() {
    for frame in [Frame::Intent(ClientMsg::Ping), Frame::Malformed("eof".into())] {
        let (session, action) = Session::new().step(SessionEvent::Frame(frame));
        assert!(matches!(session, Session::Closed));
        match action {
            SessionAction::Reject(msg) => assert_eq!(
                msg,
                ServerMsg::Error {
                    code: ErrorCode::NotJoined,
                    message: "first message must be join_room".into(),
                }
            ),
            other => panic!("unexpected action {other:?}"),
        }
    }
    for frame in [Frame::Close, Frame::Other, Frame::Ended] {
        let (session, action) = Session::new().step(SessionEvent::Frame(frame));
        assert!(matches!(session, Session::Closed));
        assert!(matches!(action, SessionAction::Close));
    }
}

#[test]
fn the_join_goes_under_an_identity_that_grants_nothing() {
    let msg = join("ABCD", Role::Host, Some("Ann"), Some("t"));
    let (session, action) = Session::new().step(intent(msg.clone()));
    assert!(matches!(action, SessionAction::LookUp(code) if code == "ABCD"));
    let (_, action) = session.step(SessionEvent::Room(true));
    match action {
        SessionAction::Join(command) => {
            assert_eq!(command, Command { intent: msg, role: Role::Display, name: None })
        }
        other => panic!("unexpected action {other:?}"),
    }
}

#[test]
fn a_stopped_room_ends_the_session() {
    let (session, action) = Session::Joining.step(SessionEvent::Dispatched(Err(RoomClosed)));
    assert!(matches!((session, action), (Session::Closed, SessionAction::Close)));
    let (session, action) = Session::AwaitingReply.step(SessionEvent::Reply(None));
    assert!(matches!((session, action), (Session::Closed, SessionAction::Close)));
    let (session, action) =
        Session::AwaitingReply.step(SessionEvent::Reply(Some(ServerMsg::Pong)));
    assert!(matches!((session, action), (Session::Closed, SessionAction::Close)));
    let open = Session::Open { role: Role::Host, name: None };
    let (session, action) = open.step(SessionEvent::Dispatched(Err(RoomClosed)));
    assert!(matches!((session, action), (Session::Closed, SessionAction::Close)));
}

#[test]
fn a_malformed_message_is_reported_to_its_sender() {
    let open = Session::Open { role: Role::Player, name: Some("Ann".into()) };
    let (session, action) = open.step(SessionEvent::Frame(Frame::Malformed("eof".into())));
    assert!(matches!(session, Session::Open { role: Role::Player, .. }));
    match action {
        SessionAction::Report(msg) => assert_eq!(
            msg,
            ServerMsg::Error {
                code: ErrorCode::BadRequest,
                message: "could not parse message: eof".into(),
            }
        ),
        other => panic!("unexpected action {other:?}"),
    }
    let (session, action) = session.step(SessionEvent::Frame(Frame::Other));
    assert!(matches!(session, Session::Open { .. }));
    assert!(matches!(action, SessionAction::Read));
}

#[test]
fn a_later_join_does_not_change_the_identity() {
    let mut server = Server::new();
    let code = server.room.state.code.clone();
    let token = server.room.token.clone();
    let (player, _) = server.connect(join(&code, Role::Player, Some("Ann"), None));
    let (player, _) = server.send(player, join(&code, Role::Host, None, Some(&token)));
    match &player {
        Session::Open { role, name } => {
            assert_eq!(*role, Role::Player);
            assert_eq!(name.as_deref(), Some("Ann"));
        }
        other => panic!("unexpected session {other:?}"),
    }
    let (_, direct) = server.send(player, ClientMsg::StartCollecting);
    assert!(matches!(
        direct.as_slice(),
        [ServerMsg::Error { code: ErrorCode::Forbidden, .. }]
    ));
}

#[test]
fn a_dropped_player_comes_back_and_submits_again() {
    let mut server = Server::new();
    let code = server.room.state.code.clone();
    let token = server.room.token.clone();
    let (host, _) = server.connect(join(&code, Role::Host, None, Some(&token)));
    let (ann, _) = server.connect(join(&code, Role::Player, Some("Ann"), None));
    let (_host, _) = server.send(host, ClientMsg::StartCollecting);
    let submit = |word: &str| ClientMsg::SubmitResponses {
        responses: vec![word.into(), word.into(), word.into()],
        signoff: "bye".into(),
    };
    let (ann, _) = server.send(ann, submit("old"));
    let (ann, action) = ann.step(SessionEvent::Frame(Frame::Ended));
    assert!(matches!((ann, action), (Session::Closed, SessionAction::Close)));
    assert_eq!(server.room.state.players.len(), 1);

    let (ann, sent) = server.connect(join(&code, Role::Player, Some("Ann"), None));
    assert!(matches!(sent[3], ServerMsg::Assignment { .. }));
    let (_ann, _) = server.send(ann, submit("new"));
    assert_eq!(server.room.state.players.len(), 1);
    let answers = server.room.state.players[0].responses.as_ref().unwrap();
    assert_eq!(answers.items, vec!["new", "new", "new"]);
}

#[test]
fn a_closed_session_stays_closed() {
    let events = vec![
        intent(join("ABCD", Role::Host, None, None)),
        SessionEvent::Room(true),
        SessionEvent::Dispatched(Ok(())),
        SessionEvent::Reply(Some(ServerMsg::Joined { role: Role::Host, name: None })),
    ];
    let mut session = Session::Closed;
    for event in events {
        let (next, action) = session.step(event);
        assert!(matches!(next, Session::Closed));
        assert!(matches!(action, SessionAction::Close));
        session = next;
    }
}

#[test]
fn an_event_out_of_turn_ends_the_session() {
    let (session, action) = Session::new().step(SessionEvent::Room(true));
    assert!(matches!((session, action), (Session::Closed, SessionAction::Close)));
    let (session, action) = Session::Joining.step(intent(ClientMsg::Ping));
    assert!(matches!((session, action), (Session::Closed, SessionAction::Close)));
}

#[test]
fn the_pump_forwards_and_stops() {
    assert!(matches!(
        pump(PumpEvent::Broadcast(ServerMsg::GameStarted { total_slides: 3 })),
        PumpAction::Send(ServerMsg::GameStarted { total_slides: 3 })
    ));
    assert!(matches!(
        pump(PumpEvent::Direct(ServerMsg::Pong)),
        PumpAction::Send(ServerMsg::Pong)
    ));
    assert!(matches!(pump(PumpEvent::Lagged), PumpAction::Continue));
    for event in [PumpEvent::RoomGone, PumpEvent::InboundDone, PumpEvent::SendFailed] {
        assert!(matches!(pump(event), PumpAction::Stop));
    }
}

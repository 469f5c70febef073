//! The room reducer.

use channel_zero::protocol::{ClientMsg, ErrorCode, PlayerStatus, Role, RoomSnapshot, ServerMsg};
use channel_zero::room::{apply, Effect, Reaction};
use channel_zero::state::{GameState, Phase, PromptSet, Slide};

fn sets() -> Vec<PromptSet> {
    vec![PromptSet {
        id: 1,
        name: "Set".into(),
        author: "Eric".into(),
        prompts: vec!["a ".into(), "b ".into()],
    }]
}

fn host_join() -> (GameState, String) {
    (GameState::new("ABCD", sets()), "secret-token".to_string())
}

fn join_as(role: Role, name: Option<&str>, token: Option<&str>) -> ClientMsg {
    ClientMsg::JoinRoom {
        code: "ABCD".into(),
        role,
        name: name.map(String::from),
        token: token.map(String::from),
    }
}

fn error(code: ErrorCode, message: &str) -> ServerMsg {
    ServerMsg::Error { code, message: message.into() }
}

/// A room whose two players have submitted.
fn submitted() -> (GameState, String) {
    let (mut state, token) = host_join();
    state.add_player("Ann").unwrap();
    state.add_player("Bo").unwrap();
    state.start_collecting().unwrap();
    for n in ["Ann", "Bo"] {
        state
            .submit_responses(n, vec!["x".into(), "y".into()], "s".into())
            .unwrap();
    }
    (state, token)
}

#[test]
fn non_host_add_player_is_forbidden() {
    let (mut state, token) = host_join();
    let r = apply(
        &mut state,
        &token,
        Role::Player,
        Some("Ann"),
        ClientMsg::AddPlayer { name: "Bo".into() },
    );
    assert!(r.broadcasts.is_empty());
    assert!(matches!(
        r.direct.as_slice(),
        [ServerMsg::Error {
            code: ErrorCode::Forbidden,
            ..
        }]
    ));
    assert!(state.players.is_empty());
}

#[test]
fn host_add_player_broadcasts_state() {
    let (mut state, token) = host_join();
    let r = apply(
        &mut state,
        &token,
        Role::Host,
        None,
        ClientMsg::AddPlayer { name: "Ann".into() },
    );
    assert_eq!(state.players.len(), 1);
    assert!(matches!(r.broadcasts[0], ServerMsg::RoomState { .. }));
    assert!(matches!(
        r.broadcasts[1],
        ServerMsg::SubmissionProgress { .. }
    ));
}

#[test]
fn host_join_requires_valid_token() {
    let (mut state, token) = host_join();
    let bad = apply(
        &mut state,
        &token,
        Role::Host,
        None,
        ClientMsg::JoinRoom {
            code: "ABCD".into(),
            role: Role::Host,
            name: None,
            token: Some("wrong".into()),
        },
    );
    assert!(matches!(
        bad.direct.as_slice(),
        [ServerMsg::Error {
            code: ErrorCode::Forbidden,
            ..
        }]
    ));

    let good = apply(
        &mut state,
        &token,
        Role::Host,
        None,
        ClientMsg::JoinRoom {
            code: "ABCD".into(),
            role: Role::Host,
            name: None,
            token: Some(token.clone()),
        },
    );
    assert!(matches!(good.direct[0], ServerMsg::Joined { .. }));
}

#[test]
fn player_join_gets_assignment() {
    let (mut state, token) = host_join();
    state.add_player("Ann").unwrap();
    state.add_player("Bo").unwrap();
    state.start_collecting().unwrap();

    let r = apply(
        &mut state,
        &token,
        Role::Player,
        Some("Ann"),
        ClientMsg::JoinRoom {
            code: "ABCD".into(),
            role: Role::Player,
            name: Some("Ann".into()),
            token: None,
        },
    );
    assert!(r
        .direct
        .iter()
        .any(|m| matches!(m, ServerMsg::Assignment { .. })));
}

#[test]
fn player_self_registers_in_lobby() {
    let (mut state, token) = host_join();
    let r = apply(
        &mut state,
        &token,
        Role::Player,
        Some("Zoe"),
        ClientMsg::JoinRoom {
            code: "ABCD".into(),
            role: Role::Player,
            name: Some("Zoe".into()),
            token: None,
        },
    );
    // The unknown name was added to the roster...
    assert!(state.players.iter().any(|p| p.name == "Zoe"));
    // ...the joiner is acknowledged...
    assert!(r.direct.iter().any(|m| matches!(m, ServerMsg::Joined { .. })));
    // ...and host/display screens are told about the new roster.
    assert!(r
        .broadcasts
        .iter()
        .any(|m| matches!(m, ServerMsg::RoomState { .. })));
}

#[test]
fn player_does_not_self_register_after_lobby() {
    let (mut state, token) = host_join();
    state.add_player("Ann").unwrap();
    state.start_collecting().unwrap();
    let r = apply(
        &mut state,
        &token,
        Role::Player,
        Some("Latecomer"),
        ClientMsg::JoinRoom {
            code: "ABCD".into(),
            role: Role::Player,
            name: Some("Latecomer".into()),
            token: None,
        },
    );
    // Roster is locked once submissions are open: no silent add, no broadcast.
    assert!(!state.players.iter().any(|p| p.name == "Latecomer"));
    assert!(r.broadcasts.is_empty());
}

#[test]
fn reader_can_advance_their_own_slides() {
    let (mut state, token) = host_join();
    state.add_player("Ann").unwrap();
    state.add_player("Bo").unwrap();
    state.start_collecting().unwrap();
    for n in ["Ann", "Bo"] {
        let idx = state.players.iter().position(|p| p.name == n).unwrap();
        let id = state.players[idx].prompt_set_id.unwrap();
        let cnt = state.prompt_set(id).unwrap().prompts.len();
        state
            .submit_responses(n, vec!["x".into(); cnt], "s".into())
            .unwrap();
    }
    state.start_game().unwrap(); // slide 0 = rules (host-only)

    let forbidden = |r: &Reaction| {
        matches!(
            r.direct.as_slice(),
            [ServerMsg::Error { code: ErrorCode::Forbidden, .. }]
        ) && r.broadcasts.is_empty()
    };

    // On the rules slide a player cannot advance...
    let r = apply(&mut state, &token, Role::Player, Some("Bo"), ClientMsg::AdvanceSlide);
    assert!(forbidden(&r));
    // ...the host moves to slide 1 (Bo's presenter intro)...
    let r = apply(&mut state, &token, Role::Host, None, ClientMsg::AdvanceSlide);
    assert!(!r.broadcasts.is_empty());
    assert_eq!(state.current_controller().as_deref(), Some("Bo"));
    // ...now Bo (the reader) can advance their own segment...
    let r = apply(&mut state, &token, Role::Player, Some("Bo"), ClientMsg::AdvanceSlide);
    assert!(r
        .broadcasts
        .iter()
        .any(|m| matches!(m, ServerMsg::SlideChanged { .. })));
    // ...but another player cannot move Bo's segment.
    let r = apply(&mut state, &token, Role::Player, Some("Ann"), ClientMsg::AdvanceSlide);
    assert!(forbidden(&r));
}

#[test]
fn an_added_player_is_what_everyone_sees() {
    let mut state = GameState::new("ABCD", sets());
    let r = apply(
        &mut state,
        "tok",
        Role::Host,
        None,
        ClientMsg::AddPlayer { name: "Ann".into() },
    );
    match &r.broadcasts[0] {
        ServerMsg::RoomState { room } => {
            assert_eq!(room.players.len(), 1);
            assert_eq!(room.phase, Phase::Lobby);
        }
        other => panic!("expected RoomState, got {other:?}"),
    }
}

#[test]
fn forbidden_action_replies_direct_not_broadcast() {
    let mut state = GameState::new("ABCD", sets());
    let r = apply(&mut state, "tok", Role::Player, Some("Ann"), ClientMsg::StartGame);
    // The originating connection gets a direct Forbidden error...
    assert!(matches!(
        r.direct[0],
        ServerMsg::Error {
            code: ErrorCode::Forbidden,
            ..
        }
    ));
    // ...and nothing is broadcast.
    assert!(r.broadcasts.is_empty());
}

#[test]
fn an_empty_reaction_says_and_does_nothing() {
    assert_eq!(
        Reaction::default(),
        Reaction { broadcasts: vec![], direct: vec![], effects: vec![] }
    );
    assert_eq!(
        Reaction::direct_only(ServerMsg::Pong),
        Reaction { broadcasts: vec![], direct: vec![ServerMsg::Pong], effects: vec![] }
    );
}

#[test]
fn a_join_in_the_lobby_is_answered_exactly() {
    let (mut state, token) = host_join();
    let r = apply(&mut state, &token, Role::Display, None, join_as(Role::Player, Some("Zoe"), None));
    let players = vec![PlayerStatus { name: "Zoe".into(), submitted: false }];
    let room = ServerMsg::RoomState {
        room: RoomSnapshot {
            code: "ABCD".into(),
            phase: Phase::Lobby,
            players: players.clone(),
            current_slide: 0,
            total_slides: 6,
        },
    };
    let progress = ServerMsg::SubmissionProgress { submitted: 0, total: 1, players };
    assert_eq!(
        r,
        Reaction {
            broadcasts: vec![room.clone(), progress.clone()],
            direct: vec![
                ServerMsg::Joined { role: Role::Player, name: Some("Zoe".into()) },
                room,
                progress,
            ],
            effects: vec![],
        }
    );
}

#[test]
fn an_assignment_names_the_partner_and_the_prompts() {
    let (mut state, token) = host_join();
    state.add_player("Ann").unwrap();
    state.add_player("Bo").unwrap();
    state.start_collecting().unwrap();
    let r = apply(&mut state, &token, Role::Display, None, join_as(Role::Player, Some("Bo"), None));
    assert_eq!(
        r.direct[3],
        ServerMsg::Assignment {
            partner: "Ann".into(),
            prompts: vec!["a ".into(), "b ".into()],
        }
    );
    assert!(r.broadcasts.is_empty());
}

#[test]
fn a_nameless_player_is_greeted_but_not_registered() {
    let (mut state, token) = host_join();
    let r = apply(&mut state, &token, Role::Display, None, join_as(Role::Player, None, None));
    assert_eq!(r.direct[0], ServerMsg::Joined { role: Role::Player, name: None });
    assert_eq!(r.direct.len(), 3);
    assert!(state.players.is_empty());
}

#[test]
fn a_host_without_a_token_is_refused() {
    let (mut state, token) = host_join();
    let r = apply(&mut state, &token, Role::Display, None, join_as(Role::Host, None, None));
    assert_eq!(
        r,
        Reaction::direct_only(error(ErrorCode::Forbidden, "invalid or missing host token"))
    );
}

#[test]
fn a_submission_is_broadcast_as_progress() {
    let (mut state, token) = host_join();
    state.add_player("Ann").unwrap();
    state.add_player("Bo").unwrap();
    state.start_collecting().unwrap();
    let r = apply(
        &mut state,
        &token,
        Role::Player,
        Some("Ann"),
        ClientMsg::SubmitResponses {
            responses: vec!["x".into(), "y".into()],
            signoff: "bye".into(),
        },
    );
    assert_eq!(
        r.broadcasts[0],
        ServerMsg::SubmissionProgress {
            submitted: 1,
            total: 2,
            players: vec![
                PlayerStatus { name: "Ann".into(), submitted: true },
                PlayerStatus { name: "Bo".into(), submitted: false },
            ],
        }
    );
    assert!(matches!(r.broadcasts[1], ServerMsg::RoomState { .. }));
    assert_eq!(state.players[0].responses.as_ref().unwrap().items, vec!["x", "y"]);
    assert_eq!(state.players[0].responses.as_ref().unwrap().signoff, "bye");
}

#[test]
fn only_a_joined_player_submits() {
    let (mut state, token) = submitted();
    for (role, name) in [(Role::Host, Some("Ann")), (Role::Display, Some("Ann")), (Role::Player, None)] {
        let r = apply(
            &mut state,
            &token,
            role,
            name,
            ClientMsg::SubmitResponses { responses: vec![], signoff: String::new() },
        );
        assert_eq!(
            r,
            Reaction::direct_only(error(
                ErrorCode::Forbidden,
                "only a joined player may submit responses"
            ))
        );
    }
}

#[test]
fn a_refused_transition_says_why() {
    let (mut state, token) = submitted();
    let r = apply(
        &mut state,
        &token,
        Role::Player,
        Some("Ann"),
        ClientMsg::SubmitResponses { responses: vec!["x".into()], signoff: String::new() },
    );
    assert_eq!(
        r,
        Reaction::direct_only(error(
            ErrorCode::InvalidTransition,
            "expected 2 responses but got 1"
        ))
    );
    let r = apply(&mut state, &token, Role::Host, None, ClientMsg::ArchiveRound);
    assert_eq!(
        r,
        Reaction::direct_only(error(
            ErrorCode::InvalidTransition,
            "action not allowed in the Collecting phase"
        ))
    );
}

#[test]
fn the_start_announces_the_deck_and_keeps_the_answers() {
    let (mut state, token) = submitted();
    let r = apply(&mut state, &token, Role::Host, None, ClientMsg::StartGame);
    assert_eq!(r.broadcasts[0], ServerMsg::GameStarted { total_slides: 13 });
    assert_eq!(
        r.broadcasts[1],
        ServerMsg::SlideChanged { index: 0, total_slides: 13, slide: Slide::Rules }
    );
    assert!(matches!(
        &r.broadcasts[2],
        ServerMsg::RoomState { room } if room.phase == Phase::Performing
    ));
    assert_eq!(r.effects, vec![Effect::SaveFinalResponses(state.round_entries())]);
}

#[test]
fn the_archive_is_announced_and_kept() {
    let (mut state, token) = submitted();
    state.start_game().unwrap();
    let r = apply(&mut state, &token, Role::Host, None, ClientMsg::ArchiveRound);
    assert_eq!(r.broadcasts.len(), 1);
    assert!(matches!(
        &r.broadcasts[0],
        ServerMsg::RoomState { room } if room.phase == Phase::Archived
    ));
    assert_eq!(r.effects, vec![Effect::ArchiveRound(state.round_entries())]);
    let r = apply(&mut state, &token, Role::Host, None, ClientMsg::NewRound);
    assert_eq!(r.broadcasts.len(), 2);
    assert!(state.players.is_empty());
}

#[test]
fn the_host_moves_the_carousel_at_will() {
    let (mut state, token) = submitted();
    state.start_game().unwrap();
    let r = apply(&mut state, &token, Role::Host, None, ClientMsg::GotoSlide { index: 11 });
    assert_eq!(
        r.broadcasts[0],
        ServerMsg::SlideChanged { index: 11, total_slides: 13, slide: Slide::Credits }
    );
    let r = apply(&mut state, &token, Role::Host, None, ClientMsg::PrevSlide);
    assert_eq!(
        r.broadcasts[0],
        ServerMsg::SlideChanged {
            index: 10,
            total_slides: 13,
            slide: Slide::Signoff { presenter: "Ann".into(), text: "s".into() },
        }
    );
    let r = apply(&mut state, &token, Role::Host, None, ClientMsg::GotoSlide { index: 13 });
    assert_eq!(
        r,
        Reaction::direct_only(error(
            ErrorCode::InvalidTransition,
            "slide index 13 is out of range"
        ))
    );
}

#[test]
fn the_host_removes_players_in_the_lobby() {
    let (mut state, token) = host_join();
    state.add_player("Ann").unwrap();
    let r = apply(
        &mut state,
        &token,
        Role::Host,
        None,
        ClientMsg::RemovePlayer { name: "Ann".into() },
    );
    assert!(state.players.is_empty());
    assert_eq!(r.broadcasts.len(), 2);
    let r = apply(
        &mut state,
        &token,
        Role::Host,
        None,
        ClientMsg::RemovePlayer { name: "Ann".into() },
    );
    assert_eq!(
        r,
        Reaction::direct_only(error(
            ErrorCode::InvalidTransition,
            "player 'Ann' was not found in this room"
        ))
    );
}

//! The laws of the library, each on concrete games.

use channel_zero::protocol::{ClientMsg, ErrorCode, Role, ServerMsg};
use channel_zero::room::{apply, Reaction};
use channel_zero::state::{GameState, Phase, PromptSet};

const TOKEN: &str = "secret-token";

fn sets() -> Vec<PromptSet> {
    vec![
        PromptSet {
            id: 1,
            name: "A".into(),
            author: "Eric".into(),
            prompts: vec!["a ".into(), "b ".into()],
        },
        PromptSet {
            id: 2,
            name: "B".into(),
            author: "Eric".into(),
            prompts: vec!["c ".into(), "d ".into(), "e ".into()],
        },
    ]
}

fn answers(state: &GameState, name: &str) -> Vec<String> {
    let i = state.player_index(name).unwrap();
    let set = state.prompt_set(state.players[i].prompt_set_id.unwrap()).unwrap();
    set.prompts.iter().map(|p| format!("{name} {p}")).collect()
}

/// A game of three in each of the phases.
fn games() -> Vec<GameState> {
    let mut lobby = GameState::new("ABCD", sets());
    for n in ["Ann", "Bo", "Cy"] {
        lobby.add_player(n).unwrap();
    }
    let mut collecting = lobby.clone();
    collecting.start_collecting().unwrap();
    let mut performing = collecting.clone();
    for n in ["Ann", "Bo", "Cy"] {
        let items = answers(&performing, n);
        performing.submit_responses(n, items, format!("{n} out")).unwrap();
    }
    performing.start_game().unwrap();
    performing.goto_slide(2).unwrap();
    let mut archived = performing.clone();
    archived.archive_round().unwrap();
    vec![lobby, collecting, performing, archived]
}

fn intents() -> Vec<ClientMsg> {
    let join = |role, name: Option<&str>, token: Option<&str>| ClientMsg::JoinRoom {
        code: "ABCD".into(),
        role,
        name: name.map(String::from),
        token: token.map(String::from),
    };
    vec![
        join(Role::Host, None, Some(TOKEN)),
        join(Role::Host, None, Some("wrong")),
        join(Role::Host, None, None),
        join(Role::Display, None, None),
        join(Role::Player, Some("Ann"), None),
        join(Role::Player, Some("Dee"), None),
        join(Role::Player, None, None),
        ClientMsg::AddPlayer { name: "Ann".into() },
        ClientMsg::AddPlayer { name: "Eve".into() },
        ClientMsg::RemovePlayer { name: "Bo".into() },
        ClientMsg::RemovePlayer { name: "Nobody".into() },
        ClientMsg::StartCollecting,
        ClientMsg::SubmitResponses {
            responses: vec!["x".into(), "y".into()],
            signoff: "z".into(),
        },
        ClientMsg::SubmitResponses { responses: vec![], signoff: "z".into() },
        ClientMsg::StartGame,
        ClientMsg::AdvanceSlide,
        ClientMsg::PrevSlide,
        ClientMsg::GotoSlide { index: 4 },
        ClientMsg::GotoSlide { index: 4000 },
        ClientMsg::ArchiveRound,
        ClientMsg::NewRound,
        ClientMsg::Ping,
    ]
}

fn identities() -> Vec<(Role, Option<&'static str>)> {
    vec![
        (Role::Host, None),
        (Role::Display, None),
        (Role::Player, None),
        (Role::Player, Some("Ann")),
        (Role::Player, Some("Bo")),
        (Role::Player, Some("Nobody")),
    ]
}

/// What happened to one room.
struct Case {
    before: GameState,
    role: Role,
    name: Option<&'static str>,
    intent: ClientMsg,
    after: GameState,
    reaction: Reaction,
}

/// Every intent of every identity in every phase.
fn cases() -> Vec<Case> {
    let mut cases = vec![];
    for before in games() {
        for (role, name) in identities() {
            for intent in intents() {
                let mut after = before.clone();
                let reaction = apply(&mut after, TOKEN, role, name, intent.clone());
                cases.push(Case { before: before.clone(), role, name, intent, after, reaction });
            }
        }
    }
    cases
}

fn same(a: &GameState, b: &GameState) -> bool {
    a.code == b.code
        && a.phase == b.phase
        && a.players == b.players
        && a.prompt_sets == b.prompt_sets
        && a.current_slide == b.current_slide
}

fn is_host_only(intent: &ClientMsg) -> bool {
    matches!(
        intent,
        ClientMsg::AddPlayer { .. }
            | ClientMsg::RemovePlayer { .. }
            | ClientMsg::StartCollecting
            | ClientMsg::StartGame
            | ClientMsg::ArchiveRound
            | ClientMsg::NewRound
    )
}

#[test]
fn host_only_intents_are_refused_to_others() {
    for c in cases() {
        if c.role != Role::Host && is_host_only(&c.intent) {
            assert!(same(&c.before, &c.after));
            assert_eq!(
                c.reaction,
                Reaction::direct_only(ServerMsg::Error {
                    code: ErrorCode::Forbidden,
                    message: "this action is host-only".into(),
                })
            );
        }
    }
}

#[test]
fn only_host_or_reader_moves_the_carousel() {
    // In the performance of the games above, Bo reads Ann's script on slide 2.
    for c in cases() {
        let is_move = matches!(
            c.intent,
            ClientMsg::AdvanceSlide | ClientMsg::PrevSlide | ClientMsg::GotoSlide { .. }
        );
        let is_reader = c.before.phase == Phase::Performing && c.name == Some("Bo");
        if is_move && c.role != Role::Host && !is_reader {
            assert!(same(&c.before, &c.after));
            assert_eq!(
                c.reaction,
                Reaction::direct_only(ServerMsg::Error {
                    code: ErrorCode::Forbidden,
                    message: "only the host or the current reader can move the carousel".into(),
                })
            );
        }
        // The host and the reader are obeyed, and everyone sees it.
        let may = c.role == Role::Host && c.before.phase == Phase::Performing || is_reader;
        if matches!(c.intent, ClientMsg::AdvanceSlide) && may {
            assert_eq!(c.after.current_slide, 3);
            assert!(matches!(
                c.reaction.broadcasts.as_slice(),
                [ServerMsg::SlideChanged { index: 3, .. }, ServerMsg::RoomState { .. }]
            ));
        }
    }
}

#[test]
fn a_display_is_read_only() {
    for c in cases() {
        let joins_as_player =
            matches!(c.intent, ClientMsg::JoinRoom { role: Role::Player, .. });
        if c.role == Role::Display && !joins_as_player {
            assert!(same(&c.before, &c.after));
            assert!(c.reaction.broadcasts.is_empty());
            assert!(c.reaction.effects.is_empty());
        }
    }
}

#[test]
fn the_host_presents_the_token() {
    for c in cases() {
        let granted = c
            .reaction
            .direct
            .iter()
            .any(|m| matches!(m, ServerMsg::Joined { role: Role::Host, .. }));
        let presented = matches!(
            &c.intent,
            ClientMsg::JoinRoom { role: Role::Host, token: Some(t), .. } if t == TOKEN
        );
        assert_eq!(granted, presented);
    }
}

#[test]
fn a_refusal_changes_nothing() {
    for c in cases() {
        let refused = c.reaction.direct.iter().any(|m| matches!(m, ServerMsg::Error { .. }));
        if refused {
            assert!(same(&c.before, &c.after));
            assert_eq!(c.reaction.direct.len(), 1);
            assert!(c.reaction.broadcasts.is_empty());
            assert!(c.reaction.effects.is_empty());
        }
    }
}

#[test]
fn every_intent_is_answered() {
    for c in cases() {
        assert!(!c.reaction.broadcasts.is_empty() || !c.reaction.direct.is_empty());
        if c.intent == ClientMsg::Ping {
            assert_eq!(c.reaction, Reaction::direct_only(ServerMsg::Pong));
        }
    }
}

#[test]
fn every_change_is_broadcast() {
    for c in cases() {
        if !same(&c.before, &c.after) {
            assert!(c.reaction.broadcasts.iter().any(|m| matches!(
                m,
                ServerMsg::RoomState { room } if room.phase == c.after.phase
                    && room.players.len() == c.after.players.len()
                    && room.current_slide == c.after.current_slide
            )));
        }
    }
}

#[test]
fn a_joiner_is_brought_up_to_date() {
    for c in cases() {
        if matches!(c.reaction.direct.first(), Some(ServerMsg::Joined { .. })) {
            assert!(matches!(
                &c.reaction.direct[1],
                ServerMsg::RoomState { room } if room.players.len() == c.after.players.len()
            ));
            assert!(matches!(
                &c.reaction.direct[2],
                ServerMsg::SubmissionProgress { total, .. } if *total == c.after.players.len()
            ));
        }
    }
}

#[test]
fn joining_again_changes_nothing() {
    for c in cases() {
        if matches!(c.intent, ClientMsg::JoinRoom { .. }) {
            let mut again = c.after.clone();
            apply(&mut again, TOKEN, c.role, c.name, c.intent.clone());
            assert!(same(&c.after, &again));
        }
    }
}

#[test]
fn new_names_register_in_the_lobby_alone() {
    for c in cases() {
        let ClientMsg::JoinRoom { role, name, .. } = &c.intent else { continue };
        let is_new = *role == Role::Player && name.as_deref() == Some("Dee");
        if is_new && c.before.phase == Phase::Lobby {
            assert_eq!(c.after.players.len(), c.before.players.len() + 1);
            assert_eq!(c.after.players.last().unwrap().name, "Dee");
            assert_eq!(c.reaction.broadcasts.len(), 2);
        } else {
            assert!(same(&c.before, &c.after));
            assert!(c.reaction.broadcasts.is_empty());
        }
    }
}

#[test]
fn a_player_is_told_their_assignment() {
    for mut g in games() {
        for (name, partner, prompts) in [("Ann", "Bo", 2), ("Bo", "Cy", 3), ("Cy", "Ann", 2)] {
            let join = ClientMsg::JoinRoom {
                code: "ABCD".into(),
                role: Role::Player,
                name: Some(name.into()),
                token: None,
            };
            let r = apply(&mut g, TOKEN, Role::Display, None, join);
            if g.phase == Phase::Lobby {
                assert_eq!(r.direct.len(), 3);
            } else {
                assert!(matches!(
                    &r.direct[3],
                    ServerMsg::Assignment { partner: p, prompts: ps }
                        if p == partner && ps.len() == prompts
                ));
            }
        }
    }
}

#[test]
fn assignments_are_not_broadcast() {
    for c in cases() {
        for msg in &c.reaction.broadcasts {
            assert!(!matches!(
                msg,
                ServerMsg::Assignment { .. } | ServerMsg::Joined { .. } | ServerMsg::Error { .. }
            ));
            if matches!(msg, ServerMsg::SlideChanged { .. } | ServerMsg::GameStarted { .. }) {
                assert_eq!(c.after.phase, Phase::Performing);
            }
        }
    }
}

#[test]
fn snapshots_reveal_no_answers() {
    let ask = |state: &GameState| {
        let join = ClientMsg::JoinRoom {
            code: "ABCD".into(),
            role: Role::Display,
            name: None,
            token: None,
        };
        apply(&mut state.clone(), TOKEN, Role::Display, None, join)
    };
    let mut one = games().remove(1);
    let mut two = one.clone();
    one.submit_responses("Ann", vec!["x".into(), "y".into()], "z".into()).unwrap();
    two.submit_responses("Ann", vec!["u".into(), "v".into()], "w".into()).unwrap();
    assert_ne!(one.players, two.players);
    assert_eq!(ask(&one), ask(&two));
}

#[test]
fn phases_go_round() {
    let order = [Phase::Lobby, Phase::Collecting, Phase::Performing, Phase::Archived];
    for c in cases() {
        if c.before.phase != c.after.phase {
            assert_eq!(c.role, Role::Host);
            let i = order.iter().position(|p| *p == c.before.phase).unwrap();
            assert_eq!(c.after.phase, order[(i + 1) % 4]);
            let ends = [
                ClientMsg::StartCollecting,
                ClientMsg::StartGame,
                ClientMsg::ArchiveRound,
                ClientMsg::NewRound,
            ];
            assert_eq!(c.intent, ends[i]);
        }
        assert_eq!(c.before.code, c.after.code);
        assert_eq!(c.before.prompt_sets, c.after.prompt_sets);
    }
}

#[test]
fn the_roster_is_locked_after_the_lobby() {
    for c in cases() {
        if c.before.phase != Phase::Lobby && c.intent != ClientMsg::NewRound {
            assert_eq!(c.before.players.len(), c.after.players.len());
            for (a, b) in c.before.players.iter().zip(&c.after.players) {
                assert_eq!(
                    (&a.name, a.prompt_set_id, &a.partner),
                    (&b.name, b.prompt_set_id, &b.partner)
                );
            }
        }
    }
}

#[test]
fn a_submission_touches_only_the_senders_answers() {
    let mut touched = 0;
    for c in cases() {
        if c.before.phase == Phase::Collecting {
            for (a, b) in c.before.players.iter().zip(&c.after.players) {
                let own = c.role == Role::Player && c.name == Some(a.name.as_str());
                if !(own && matches!(c.intent, ClientMsg::SubmitResponses { .. })) {
                    assert_eq!(a, b);
                } else if a != b {
                    touched += 1;
                }
            }
        }
    }
    assert_eq!(touched, 1);
}

#[test]
fn answers_are_final_once_the_performance_starts() {
    for c in cases() {
        let over = matches!(c.before.phase, Phase::Performing | Phase::Archived);
        if over && c.intent != ClientMsg::NewRound {
            assert_eq!(c.before.players, c.after.players);
            assert_eq!(c.before.round_entries(), c.after.round_entries());
        }
    }
}

#[test]
fn a_later_submission_replaces_an_earlier_one() {
    let mut twice = games().remove(1);
    let mut once = twice.clone();
    twice.submit_responses("Ann", vec!["x".into(), "y".into()], "z".into()).unwrap();
    for g in [&mut twice, &mut once] {
        g.submit_responses("Ann", vec!["u".into(), "v".into()], "w".into()).unwrap();
    }
    assert!(same(&twice, &once));
    let refusal = once.submit_responses("Ann", vec![], String::new());
    assert_eq!(twice.submit_responses("Ann", vec![], String::new()), refusal);
}

#[test]
fn the_count_tells_when_everyone_submitted() {
    let mut all = games();
    all.push(GameState::new("ABCD", sets()));
    for c in cases() {
        all.push(c.after);
    }
    for g in all {
        assert!(g.submitted_count() <= g.players.len());
        assert_eq!(
            g.all_submitted(),
            !g.players.is_empty() && g.submitted_count() == g.players.len()
        );
    }
}

#[test]
fn the_performance_waits_for_everyone() {
    let mut g = games().remove(1);
    for n in ["Ann", "Bo", "Cy"] {
        assert!(g.start_game().is_err());
        assert_ne!(g.submitted_count(), g.players.len());
        let items = answers(&g, n);
        g.submit_responses(n, items, String::new()).unwrap();
    }
    assert_eq!(g.submitted_count(), 3);
    assert_eq!(g.start_game(), Ok(()));
}

#[test]
fn storage_hears_of_the_start_and_the_end_alone() {
    for c in cases() {
        let expected = c.role == Role::Host
            && c.intent == ClientMsg::ArchiveRound
            && c.before.phase == Phase::Performing;
        assert_eq!(c.reaction.effects.len(), if expected { 1 } else { 0 });
    }
}

#[test]
fn the_deck_has_its_length() {
    // Ann and Cy answer two prompts, Bo three.
    let g = games().remove(2);
    assert_eq!(g.total_slides(), 1 + (3 * 3 + (2 + 3 + 2)) + 2);
}

#[test]
fn the_partner_controls_the_segment() {
    let mut g = games().remove(2);
    let mut readers = vec![];
    for i in 0..g.total_slides() {
        g.goto_slide(i).unwrap();
        readers.push(g.current_controller().unwrap_or_default());
    }
    let mut expected = vec![""];
    expected.extend(vec!["Bo"; 5]);
    expected.extend(vec!["Cy"; 6]);
    expected.extend(vec!["Ann"; 5]);
    expected.extend(vec![""; 2]);
    assert_eq!(readers, expected);
}

#[test]
fn moves_undo_one_another() {
    let mut g = games().remove(2);
    let last = g.total_slides() - 1;
    for i in 0..last {
        g.goto_slide(i).unwrap();
        g.advance_slide().unwrap();
        g.prev_slide().unwrap();
        assert_eq!(g.current_slide, i);
        g.goto_slide(i + 1).unwrap();
        g.prev_slide().unwrap();
        g.advance_slide().unwrap();
        assert_eq!(g.current_slide, i + 1);
    }
    for moves in [0, 1, last, last + 1, 10 * last] {
        g.goto_slide(0).unwrap();
        for _ in 0..moves {
            g.advance_slide().unwrap();
        }
        assert_eq!(g.current_slide, moves.min(last));
    }
}

#[test]
fn every_reachable_room_is_sound() {
    let sound = |g: &GameState| {
        let names: std::collections::HashSet<&str> =
            g.players.iter().map(|p| p.name.as_str()).collect();
        assert_eq!(names.len(), g.players.len());
        assert!(g.current_slide < g.total_slides());
        if g.phase != Phase::Lobby {
            let n = g.players.len();
            for (i, p) in g.players.iter().enumerate() {
                assert_eq!(p.partner.as_ref(), Some(&g.players[(i + 1) % n].name));
                let set = g.prompt_set(p.prompt_set_id.unwrap()).unwrap();
                assert_eq!(set.id, g.prompt_sets[i % g.prompt_sets.len()].id);
                if let Some(r) = &p.responses {
                    assert_eq!(r.items.len(), set.prompts.len());
                }
            }
        } else {
            assert!(g.players.iter().all(|p| p.partner.is_none() && !p.submitted()));
        }
        if matches!(g.phase, Phase::Performing | Phase::Archived) {
            assert!(g.all_submitted());
            for e in g.round_entries() {
                assert_eq!(e.prompts.len(), e.responses.len());
            }
        }
    };
    sound(&GameState::new("ABCD", sets()));
    for c in cases() {
        sound(&c.after);
        // And one more intent after each.
        for intent in intents() {
            let mut next = c.after.clone();
            apply(&mut next, TOKEN, Role::Host, None, intent);
            sound(&next);
        }
        let mut fresh = c.after.clone();
        fresh.reset();
        assert!(same(&fresh, &GameState::new("ABCD", sets())));
    }
}

#[test]
fn the_ring_pairs_everyone_once() {
    for g in games() {
        if g.phase != Phase::Lobby {
            for p in &g.players {
                let writers = g
                    .players
                    .iter()
                    .filter(|w| w.partner.as_deref() == Some(p.name.as_str()))
                    .count();
                assert_eq!(writers, 1);
            }
        }
    }
}

//! The game state and its transitions.

use channel_zero::state::{
    GameState, Phase, Player, PromptSet, Responses, Slide, TransitionError, MAX_PROMPTS,
};

fn sets() -> Vec<PromptSet> {
    vec![
        PromptSet {
            id: 1,
            name: "Set A".into(),
            author: "Eric".into(),
            prompts: vec!["In other news, ".into(), "Weather today: ".into()],
        },
        PromptSet {
            id: 2,
            name: "Set B".into(),
            author: "Eric".into(),
            prompts: vec!["Breaking: ".into(), "Sports update: ".into()],
        },
    ]
}

fn lobby_with(names: &[&str]) -> GameState {
    let mut g = GameState::new("ABCD", sets());
    for n in names {
        g.add_player(n).unwrap();
    }
    g
}

/// A game in which everyone has submitted and the performance has begun.
fn performing(names: &[&str]) -> GameState {
    let mut g = lobby_with(names);
    g.start_collecting().unwrap();
    for n in names {
        g.submit_responses(n, vec![format!("{n} 1"), format!("{n} 2")], format!("{n} out"))
            .unwrap();
    }
    g.start_game().unwrap();
    g
}

#[test]
fn add_player_rejects_duplicates() {
    let mut g = lobby_with(&["Ann"]);
    assert_eq!(
        g.add_player("Ann"),
        Err(TransitionError::DuplicatePlayer("Ann".into()))
    );
}

#[test]
fn cannot_add_player_outside_lobby() {
    let mut g = lobby_with(&["Ann", "Bo"]);
    g.start_collecting().unwrap();
    assert_eq!(
        g.add_player("Cy"),
        Err(TransitionError::WrongPhase {
            phase: Phase::Collecting
        })
    );
}

#[test]
fn start_collecting_requires_players() {
    let mut g = GameState::new("ABCD", sets());
    assert_eq!(g.start_collecting(), Err(TransitionError::NoPlayers));
}

#[test]
fn start_collecting_requires_prompt_sets() {
    let mut g = GameState::new("ABCD", vec![]);
    g.add_player("Ann").unwrap();
    assert_eq!(g.start_collecting(), Err(TransitionError::NoPromptSets));
}

#[test]
fn start_collecting_assigns_partners_in_a_ring() {
    let mut g = lobby_with(&["Ann", "Bo", "Cy"]);
    g.start_collecting().unwrap();
    assert_eq!(g.phase, Phase::Collecting);
    assert_eq!(g.players[0].partner.as_deref(), Some("Bo"));
    assert_eq!(g.players[1].partner.as_deref(), Some("Cy"));
    assert_eq!(g.players[2].partner.as_deref(), Some("Ann"));
    // every player got a valid prompt set assignment
    for p in &g.players {
        assert!(p.prompt_set_id.is_some());
        assert!(g.prompt_set(p.prompt_set_id.unwrap()).is_some());
    }
}

#[test]
fn cannot_start_collecting_twice() {
    let mut g = lobby_with(&["Ann"]);
    g.start_collecting().unwrap();
    assert_eq!(
        g.start_collecting(),
        Err(TransitionError::WrongPhase {
            phase: Phase::Collecting
        })
    );
}

#[test]
fn submit_requires_collecting_phase() {
    let mut g = lobby_with(&["Ann"]);
    assert_eq!(
        g.submit_responses("Ann", vec![], String::new()),
        Err(TransitionError::WrongPhase { phase: Phase::Lobby })
    );
}

#[test]
fn submit_validates_response_count() {
    let mut g = lobby_with(&["Ann", "Bo"]);
    g.start_collecting().unwrap();
    let set_id = g.players[0].prompt_set_id.unwrap();
    let expected = g.prompt_set(set_id).unwrap().prompts.len();
    let err = g
        .submit_responses("Ann", vec!["only one".into()], "remember".into())
        .unwrap_err();
    assert_eq!(err, TransitionError::ResponseCountMismatch { expected, got: 1 });
}

#[test]
fn submit_unknown_player() {
    let mut g = lobby_with(&["Ann"]);
    g.start_collecting().unwrap();
    assert_eq!(
        g.submit_responses("Ghost", vec!["x".into(), "y".into()], "z".into()),
        Err(TransitionError::UnknownPlayer("Ghost".into()))
    );
}

#[test]
fn full_happy_path() {
    let mut g = lobby_with(&["Ann", "Bo"]);
    g.start_collecting().unwrap();

    // not everyone has submitted yet
    assert_eq!(g.start_game(), Err(TransitionError::NotAllSubmitted));

    for name in ["Ann", "Bo"] {
        let id = g.players[g.player_index(name).unwrap()].prompt_set_id.unwrap();
        let count = g.prompt_set(id).unwrap().prompts.len();
        let items = vec!["resp".to_string(); count];
        g.submit_responses(name, items, "and that's the truth".into())
            .unwrap();
    }
    assert!(g.all_submitted());
    assert_eq!(g.submitted_count(), 2);

    g.start_game().unwrap();
    assert_eq!(g.phase, Phase::Performing);
    assert_eq!(g.current_slide, 0);

    // slide count: rules(1) + per player [intro, greeting, N prompts, signoff] + credits + blank
    let n_prompts = 2; // both sets have 2 prompts
    let expected = 1 + 2 * (3 + n_prompts) + 2;
    assert_eq!(g.total_slides(), expected);

    // carousel is bounded
    for _ in 0..1000 {
        g.advance_slide().unwrap();
    }
    assert_eq!(g.current_slide, expected - 1);
    g.prev_slide().unwrap();
    assert_eq!(g.current_slide, expected - 2);
    assert_eq!(
        g.goto_slide(expected + 5),
        Err(TransitionError::SlideOutOfRange(expected + 5))
    );
    g.goto_slide(0).unwrap();
    assert_eq!(g.current_slide, 0);

    // archive
    let archived = g.archive_round().unwrap();
    assert_eq!(archived.len(), 2);
    assert_eq!(g.phase, Phase::Archived);
    assert_eq!(archived[0].partner.as_deref(), Some("Bo"));

    // new round resets to an empty lobby
    g.new_round().unwrap();
    assert_eq!(g.phase, Phase::Lobby);
    assert!(g.players.is_empty());
}

#[test]
fn advance_slide_rejected_outside_performing() {
    let mut g = lobby_with(&["Ann"]);
    assert_eq!(
        g.advance_slide(),
        Err(TransitionError::WrongPhase { phase: Phase::Lobby })
    );
    g.start_collecting().unwrap();
    assert_eq!(
        g.advance_slide(),
        Err(TransitionError::WrongPhase {
            phase: Phase::Collecting
        })
    );
}

#[test]
fn cannot_start_game_from_lobby() {
    let mut g = lobby_with(&["Ann"]);
    assert_eq!(
        g.start_game(),
        Err(TransitionError::WrongPhase { phase: Phase::Lobby })
    );
}

#[test]
fn archive_only_from_performing() {
    let mut g = lobby_with(&["Ann"]);
    assert!(matches!(
        g.archive_round(),
        Err(TransitionError::WrongPhase { .. })
    ));
}

#[test]
fn new_round_only_from_archived() {
    let mut g = lobby_with(&["Ann"]);
    assert_eq!(
        g.new_round(),
        Err(TransitionError::WrongPhase { phase: Phase::Lobby })
    );
}

#[test]
fn first_presenter_intro_is_flagged() {
    let mut g = lobby_with(&["Ann", "Bo"]);
    g.start_collecting().unwrap();
    let slides = g.build_slides();
    let first_intro = slides
        .iter()
        .find_map(|s| match s {
            Slide::PresenterIntro { first, .. } => Some(*first),
            _ => None,
        })
        .unwrap();
    assert!(first_intro);
}

#[test]
fn the_deck_is_exact() {
    let g = performing(&["Ann", "Bo"]);
    assert_eq!(
        g.build_slides(),
        vec![
            Slide::Rules,
            Slide::PresenterIntro {
                presenter: "Bo".into(),
                teleprompter: "Ann".into(),
                first: true
            },
            Slide::Greeting { presenter: "Bo".into() },
            Slide::Script { reader: "Bo".into(), text: "In other news, Ann 1".into() },
            Slide::Script { reader: "Bo".into(), text: "Weather today: Ann 2".into() },
            Slide::Signoff { presenter: "Bo".into(), text: "Ann out".into() },
            Slide::PresenterIntro {
                presenter: "Ann".into(),
                teleprompter: "Bo".into(),
                first: false
            },
            Slide::Greeting { presenter: "Ann".into() },
            Slide::Script { reader: "Ann".into(), text: "Breaking: Bo 1".into() },
            Slide::Script { reader: "Ann".into(), text: "Sports update: Bo 2".into() },
            Slide::Signoff { presenter: "Ann".into(), text: "Bo out".into() },
            Slide::Credits,
            Slide::Blank,
        ]
    );
    assert_eq!(g.slide_at(0), Some(Slide::Rules));
    assert_eq!(g.slide_at(12), Some(Slide::Blank));
    assert_eq!(g.slide_at(13), None);
}

#[test]
fn a_lobby_deck_has_neither_partners_nor_prompts() {
    let g = lobby_with(&["Ann"]);
    assert_eq!(
        g.build_slides(),
        vec![
            Slide::Rules,
            Slide::PresenterIntro {
                presenter: "".into(),
                teleprompter: "Ann".into(),
                first: true
            },
            Slide::Greeting { presenter: "".into() },
            Slide::Signoff { presenter: "".into(), text: "".into() },
            Slide::Credits,
            Slide::Blank,
        ]
    );
    assert_eq!(GameState::new("ABCD", vec![]).total_slides(), 3);
}

#[test]
fn unanswered_prompts_stand_alone_in_the_deck() {
    let mut g = lobby_with(&["Ann"]);
    g.start_collecting().unwrap();
    assert_eq!(
        g.slide_at(3),
        Some(Slide::Script { reader: "Ann".into(), text: "In other news, ".into() })
    );
}

#[test]
fn prompt_sets_are_dealt_round_robin() {
    let mut g = lobby_with(&["Ann", "Bo", "Cy"]);
    g.start_collecting().unwrap();
    let ids: Vec<Option<i64>> = g.players.iter().map(|p| p.prompt_set_id).collect();
    assert_eq!(ids, vec![Some(1), Some(2), Some(1)]);
}

#[test]
fn a_lone_player_writes_for_themselves() {
    let mut g = lobby_with(&["Ann"]);
    g.start_collecting().unwrap();
    assert_eq!(g.players[0].partner.as_deref(), Some("Ann"));
}

#[test]
fn remove_player_takes_one_off_the_roster() {
    let mut g = lobby_with(&["Ann", "Bo", "Cy"]);
    g.remove_player("Bo").unwrap();
    let names: Vec<&str> = g.players.iter().map(|p| p.name.as_str()).collect();
    assert_eq!(names, vec!["Ann", "Cy"]);
    assert_eq!(
        g.remove_player("Bo"),
        Err(TransitionError::UnknownPlayer("Bo".into()))
    );
    g.start_collecting().unwrap();
    assert_eq!(
        g.remove_player("Ann"),
        Err(TransitionError::WrongPhase {
            phase: Phase::Collecting
        })
    );
}

#[test]
fn a_player_without_an_assignment_cannot_submit() {
    let mut g = lobby_with(&["Ann"]);
    g.phase = Phase::Collecting;
    assert_eq!(
        g.submit_responses("Ann", vec![], String::new()),
        Err(TransitionError::NoAssignment("Ann".into()))
    );
}

#[test]
fn a_lost_prompt_set_asks_for_no_answers() {
    let mut g = lobby_with(&["Ann"]);
    g.start_collecting().unwrap();
    g.prompt_sets.clear();
    assert_eq!(
        g.submit_responses("Ann", vec!["x".into()], String::new()),
        Err(TransitionError::ResponseCountMismatch { expected: 0, got: 1 })
    );
    assert_eq!(g.submit_responses("Ann", vec![], "bye".into()), Ok(()));
}

#[test]
fn the_controller_is_the_performer_of_the_slide() {
    let mut g = performing(&["Ann", "Bo"]);
    let mut controllers = Vec::new();
    for i in 0..g.total_slides() {
        g.goto_slide(i).unwrap();
        controllers.push(g.current_controller());
    }
    let bo = Some("Bo".to_string());
    let ann = Some("Ann".to_string());
    let mut expected = vec![None];
    expected.extend(vec![bo; 5]);
    expected.extend(vec![ann; 5]);
    expected.extend(vec![None; 2]);
    assert_eq!(controllers, expected);
    g.goto_slide(1).unwrap();
    g.archive_round().unwrap();
    assert_eq!(g.current_controller(), None);
}

#[test]
fn moves_return_the_new_index() {
    let mut g = performing(&["Ann"]);
    assert_eq!(g.prev_slide(), Ok(0));
    assert_eq!(g.advance_slide(), Ok(1));
    assert_eq!(g.advance_slide(), Ok(2));
    assert_eq!(g.prev_slide(), Ok(1));
    assert_eq!(g.goto_slide(7), Ok(7));
    assert_eq!(g.advance_slide(), Ok(7));
    assert_eq!(g.goto_slide(8), Err(TransitionError::SlideOutOfRange(8)));
    assert_eq!(g.current_slide, 7);
}

#[test]
fn archived_entries_pair_prompts_and_answers() {
    let mut g = performing(&["Ann", "Bo"]);
    let entries = g.round_entries();
    assert_eq!(entries[1].name, "Bo");
    assert_eq!(entries[1].partner.as_deref(), Some("Ann"));
    assert_eq!(entries[1].prompt_set_id, Some(2));
    assert_eq!(entries[1].prompts, vec!["Breaking: ", "Sports update: "]);
    assert_eq!(entries[1].responses, vec!["Bo 1", "Bo 2"]);
    assert_eq!(entries[1].signoff, "Bo out");
    assert_eq!(g.archive_round(), Ok(entries));
}

#[test]
fn reset_works_from_any_phase() {
    let mut g = performing(&["Ann"]);
    g.goto_slide(3).unwrap();
    g.reset();
    assert_eq!(g.phase, Phase::Lobby);
    assert_eq!(g.current_slide, 0);
    assert!(g.players.is_empty());
    assert_eq!(g.code, "ABCD");
    assert_eq!(g.prompt_sets, sets());
}

#[test]
fn nobody_is_not_everybody() {
    let g = GameState::new("ABCD", sets());
    assert!(!g.all_submitted());
    assert_eq!(g.submitted_count(), 0);
}

#[test]
fn the_first_prompt_set_of_an_id_counts() {
    let mut twice = sets();
    twice[1].id = 1;
    let g = GameState::new("ABCD", twice);
    assert_eq!(g.prompt_set(1).unwrap().name, "Set A");
    assert!(g.prompt_set(2).is_none());
}

#[test]
fn every_refusal_has_its_sentence() {
    let cases = vec![
        (
            TransitionError::WrongPhase { phase: Phase::Collecting },
            "action not allowed in the Collecting phase",
        ),
        (TransitionError::NoPlayers, "the room has no players"),
        (TransitionError::NoPromptSets, "no prompt sets are available to assign"),
        (
            TransitionError::UnknownPlayer("Bo".into()),
            "player 'Bo' was not found in this room",
        ),
        (
            TransitionError::DuplicatePlayer("Bo".into()),
            "a player named 'Bo' is already in this room",
        ),
        (TransitionError::NotAllSubmitted, "not every player has submitted yet"),
        (TransitionError::SlideOutOfRange(120), "slide index 120 is out of range"),
        (
            TransitionError::ResponseCountMismatch { expected: 7, got: 10 },
            "expected 7 responses but got 10",
        ),
        (
            TransitionError::NoAssignment("Bo".into()),
            "player 'Bo' has no assigned prompt set",
        ),
    ];
    for (error, sentence) in cases {
        assert_eq!(error.to_string(), sentence);
    }
    for phase in [Phase::Lobby, Phase::Collecting, Phase::Performing, Phase::Archived] {
        assert_eq!(
            TransitionError::WrongPhase { phase }.to_string(),
            format!("action not allowed in the {phase:?} phase")
        );
    }
}

#[test]
fn a_fresh_player_has_nothing_yet() {
    let p = Player::new("Ann");
    assert_eq!(p.name, "Ann");
    assert!(!p.submitted());
    assert_eq!(p.partner, None);
    assert_eq!(p.prompt_set_id, None);
    assert_eq!(
        Responses::default(),
        Responses { items: vec![], signoff: String::new() }
    );
    assert_eq!(MAX_PROMPTS, 7);
}

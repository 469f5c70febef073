//! What the durable effects write.

use channel_zero::db::{archive_round, plan_effect, save_final_responses, DbStep};
use channel_zero::protocol::{ClientMsg, Role};
use channel_zero::room::{apply, Effect};
use channel_zero::state::{ArchivedEntry, GameState, PromptSet};

fn entry(name: &str) -> ArchivedEntry {
    ArchivedEntry {
        name: name.into(),
        partner: Some("Zed".into()),
        prompt_set_id: Some(1),
        prompts: vec!["p ".into()],
        responses: vec!["r".into()],
        signoff: "bye".into(),
    }
}

/// The two tables, and what a list of statements does to them.
#[derive(Default)]
struct Tables {
    responses: Vec<(String, ArchivedEntry)>,
    archive: Vec<(String, String, ArchivedEntry)>,
}

impl Tables {
    fn run(&mut self, steps: Vec<DbStep>) {
        for step in steps {
            match step {
                DbStep::ClearResponses { room_code } => {
                    self.responses.retain(|r| r.0 != room_code)
                }
                DbStep::InsertResponse { room_code, entry } => {
                    self.responses.push((room_code, entry))
                }
                DbStep::InsertArchive { batch_id, room_code, entry } => {
                    self.archive.push((batch_id, room_code, entry))
                }
            }
        }
    }
}

#[test]
fn a_save_is_a_deletion_and_one_insertion_each() {
    assert_eq!(
        save_final_responses("ABCD", &vec![entry("Ann"), entry("Bo")]),
        vec![
            DbStep::ClearResponses { room_code: "ABCD".into() },
            DbStep::InsertResponse { room_code: "ABCD".into(), entry: entry("Ann") },
            DbStep::InsertResponse { room_code: "ABCD".into(), entry: entry("Bo") },
        ]
    );
}

#[test]
fn an_archive_is_one_insertion_each_and_a_deletion() {
    let steps = vec![
        DbStep::InsertArchive {
            batch_id: "b1".into(),
            room_code: "ABCD".into(),
            entry: entry("Ann"),
        },
        DbStep::ClearResponses { room_code: "ABCD".into() },
    ];
    assert_eq!(archive_round("b1", "ABCD", &vec![entry("Ann")]), steps);
    assert_eq!(
        plan_effect(&Effect::ArchiveRound(vec![entry("Ann")]), "b1", "ABCD"),
        steps
    );
    assert_eq!(
        plan_effect(&Effect::SaveFinalResponses(vec![]), "b1", "ABCD"),
        vec![DbStep::ClearResponses { room_code: "ABCD".into() }]
    );
}

#[test]
fn saving_replaces_only_the_rooms_responses() {
    let mut tables = Tables::default();
    tables.run(save_final_responses("ABCD", &vec![entry("Old")]));
    tables.run(save_final_responses("WXYZ", &vec![entry("Other")]));
    tables.run(save_final_responses("ABCD", &vec![entry("Ann"), entry("Bo")]));
    assert_eq!(
        tables.responses,
        vec![
            ("WXYZ".to_string(), entry("Other")),
            ("ABCD".to_string(), entry("Ann")),
            ("ABCD".to_string(), entry("Bo")),
        ]
    );
    assert!(tables.archive.is_empty());
}

#[test]
fn archiving_appends_and_clears() {
    let mut tables = Tables::default();
    tables.run(save_final_responses("ABCD", &vec![entry("Ann")]));
    tables.run(save_final_responses("WXYZ", &vec![entry("Other")]));
    tables.run(archive_round("b1", "ABCD", &vec![entry("Ann")]));
    tables.run(archive_round("b2", "ABCD", &vec![entry("Bo")]));
    assert_eq!(tables.responses, vec![("WXYZ".to_string(), entry("Other"))]);
    assert_eq!(
        tables.archive,
        vec![
            ("b1".to_string(), "ABCD".to_string(), entry("Ann")),
            ("b2".to_string(), "ABCD".to_string(), entry("Bo")),
        ]
    );
}

#[test]
fn final_responses_and_archive_persist() {
    let sets = vec![PromptSet {
        id: 1,
        name: "Set".into(),
        author: "Eric".into(),
        prompts: vec!["a ".into(), "b ".into()],
    }];
    let mut state = GameState::new("ABCD", sets);
    let mut tables = Tables::default();
    let mut fire = |state: &mut GameState, tables: &mut Tables, intent, role, name: Option<&str>| {
        let reaction = apply(state, "tok", role, name, intent);
        for effect in &reaction.effects {
            tables.run(plan_effect(effect, "batch", &state.code));
        }
    };
    for name in ["Ann", "Bo"] {
        let add = ClientMsg::AddPlayer { name: name.into() };
        fire(&mut state, &mut tables, add, Role::Host, None);
    }
    fire(&mut state, &mut tables, ClientMsg::StartCollecting, Role::Host, None);
    for name in ["Ann", "Bo"] {
        let submit = ClientMsg::SubmitResponses {
            responses: vec!["resp".to_string(); 2],
            signoff: "and that's the way it is".into(),
        };
        fire(&mut state, &mut tables, submit, Role::Player, Some(name));
    }
    assert!(tables.responses.is_empty());

    // Start the game -> final responses persist.
    fire(&mut state, &mut tables, ClientMsg::StartGame, Role::Host, None);
    assert_eq!(tables.responses.len(), 2, "two finalized responses should persist");
    let saved: Vec<ArchivedEntry> = tables.responses.iter().map(|r| r.1.clone()).collect();

    // What happens in between leaves the entries alone.
    fire(&mut state, &mut tables, ClientMsg::AdvanceSlide, Role::Host, None);
    let late = ClientMsg::SubmitResponses { responses: vec!["x".into(); 2], signoff: "y".into() };
    fire(&mut state, &mut tables, late, Role::Player, Some("Ann"));

    // Archive -> rows move to the archive, live responses cleared.
    fire(&mut state, &mut tables, ClientMsg::ArchiveRound, Role::Host, None);
    assert_eq!(tables.archive.len(), 2, "two archived rows expected");
    assert_eq!(tables.responses.len(), 0, "live responses cleared after archive");
    let archived: Vec<ArchivedEntry> = tables.archive.iter().map(|r| r.2.clone()).collect();
    assert_eq!(archived, saved);
    assert!(archived.iter().all(|e| e.prompts.len() == e.responses.len() && !e.prompts.is_empty()));
}

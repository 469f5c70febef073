//! The prompt catalog, and the errors of the REST surface.

use channel_zero::catalog::{copy_catalog, prompt_catalog, seed_prompt_sets};
use channel_zero::db::prompt_set_from_row;
use channel_zero::error::AppError;
use channel_zero::state::{PromptSet, MAX_PROMPTS};

#[test]
fn the_seed_has_two_full_sets() {
    let sets = seed_prompt_sets();
    assert_eq!(sets.len(), 2);
    assert_eq!((sets[0].id, sets[0].name.as_str(), sets[0].author.as_str()), (1, "Top Story", "Eric"));
    assert_eq!(
        sets[0].prompts,
        vec![
            "Our top story tonight: ",
            "In local news, ",
            "And in a stunning development, ",
            "Experts are now saying that ",
            "Meanwhile, across town, ",
            "In sports, ",
            "And finally, the weather: ",
        ]
    );
    assert_eq!(
        (sets[1].id, sets[1].name.as_str(), sets[1].author.as_str()),
        (2, "Special Report", "Eric")
    );
    assert_eq!(
        sets[1].prompts,
        vec![
            "This just in: ",
            "Authorities are warning that ",
            "Witnesses on the scene reported ",
            "The mayor released a statement saying ",
            "In a related story, ",
            "Health officials recommend ",
            "Looking ahead to tomorrow, ",
        ]
    );
    assert!(sets.iter().all(|s| s.prompts.len() == MAX_PROMPTS));
    assert_eq!(copy_catalog(&sets), sets);
}

#[test]
fn the_catalog_comes_from_the_database_where_there_is_one() {
    let seed = seed_prompt_sets();
    let stored = vec![PromptSet { id: 9, name: "x".into(), author: "y".into(), prompts: vec![] }];
    assert_eq!(prompt_catalog(None, &seed), Ok(seed.clone()));
    assert_eq!(prompt_catalog(Some(Ok(stored.clone())), &seed), Ok(stored));
    assert_eq!(
        prompt_catalog(Some(Err("pool timed out".into())), &seed),
        Err(AppError::Internal("loading prompt sets: pool timed out".into()))
    );
}

#[test]
fn missing_columns_are_empty() {
    let set = prompt_set_from_row(3, None, Some("Eric".into()), vec!["p ".into()]);
    assert_eq!(
        set,
        PromptSet { id: 3, name: "".into(), author: "Eric".into(), prompts: vec!["p ".into()] }
    );
    assert_eq!(prompt_set_from_row(4, Some("n".into()), None, vec![]).name, "n");
    assert_eq!(prompt_set_from_row(4, Some("n".into()), None, vec![]).author, "");
}

#[test]
fn errors_have_their_status_and_code() {
    let cases = vec![
        (AppError::NotFound("a".into()), 404, "not_found", "a"),
        (AppError::BadRequest("b".into()), 400, "bad_request", "b"),
        (AppError::Internal("c".into()), 500, "internal", "c"),
    ];
    for (error, status, code, message) in cases {
        assert_eq!(error.parts(), (status, code));
        assert_eq!(error.to_string(), message);
    }
}

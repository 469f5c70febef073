//! The prompt-set catalog that rooms are created from.

use vstd::prelude::*;

use crate::error::{AppError, AppErrorView};
use crate::state::{PromptSet, PromptSetView, MAX_PROMPTS};
use crate::text::{copy_strings, join_text};

verus! {

/// Copy a catalog.
pub fn copy_catalog(sets: &Vec<PromptSet>) -> (copy: Vec<PromptSet>)
    ensures
        crate::state::prompt_set_views(copy@) == crate::state::prompt_set_views(sets@),
{
    let mut copy: Vec<PromptSet> = Vec::new();
    let mut i: usize = 0;
    while i < sets.len()
        invariant
            i <= sets.len(),
            copy.len() == i,
            forall|j: int| 0 <= j < i ==> (#[trigger] copy@[j])@ == sets@[j]@,
        decreases sets.len() - i,
    {
        let set = &sets[i];
        copy.push(
            PromptSet {
                id: set.id,
                name: set.name.clone(),
                author: set.author.clone(),
                prompts: copy_strings(&set.prompts),
            },
        );
        i = i + 1;
    }
    assert(crate::state::prompt_set_views(copy@) =~= crate::state::prompt_set_views(sets@));
    copy
}

/// The current prompt-set catalog: what the database gave, where there is one, and
/// the in-memory seed otherwise. `loaded` is the database's answer, with its error
/// as a sentence.
pub fn prompt_catalog(
    loaded: Option<Result<Vec<PromptSet>, String>>,
    seed: &Vec<PromptSet>,
) -> (catalog: Result<Vec<PromptSet>, AppError>)
    ensures
        loaded is None ==> catalog is Ok && crate::state::prompt_set_views(catalog->Ok_0@)
            == crate::state::prompt_set_views(seed@),
        loaded matches Some(Ok(sets)) ==> catalog == Ok::<Vec<PromptSet>, AppError>(sets),
        loaded matches Some(Err(e)) ==> catalog is Err && catalog->Err_0@
            == AppErrorView::Internal("loading prompt sets: "@ + e@),
{
    match loaded {
        Some(Ok(sets)) => Ok(sets),
        Some(Err(e)) => Err(AppError::Internal(join_text("loading prompt sets: ", e.as_str()))),
        None => Ok(copy_catalog(seed)),
    }
}

/// The prompts of the first seed set.
pub open spec fn top_story() -> Seq<Seq<char>> {
    seq![
        "Our top story tonight: "@,
        "In local news, "@,
        "And in a stunning development, "@,
        "Experts are now saying that "@,
        "Meanwhile, across town, "@,
        "In sports, "@,
        "And finally, the weather: "@,
    ]
}

/// The prompts of the second seed set.
pub open spec fn special_report() -> Seq<Seq<char>> {
    seq![
        "This just in: "@,
        "Authorities are warning that "@,
        "Witnesses on the scene reported "@,
        "The mayor released a statement saying "@,
        "In a related story, "@,
        "Health officials recommend "@,
        "Looking ahead to tomorrow, "@,
    ]
}

/// The catalog of a server without a database.
pub open spec fn seed_catalog() -> Seq<PromptSetView> {
    seq![
        PromptSetView { id: 1, name: "Top Story"@, author: "Eric"@, prompts: top_story() },
        PromptSetView { id: 2, name: "Special Report"@, author: "Eric"@, prompts: special_report() },
    ]
}

/// A prompt set of the seed, from its seven prompts.
fn seed_set(id: i64, name: &str, prompts: [&str; 7]) -> (set: PromptSet)
    ensures
        set@ == (PromptSetView {
            id,
            name: name@,
            author: "Eric"@,
            prompts: prompts@.map_values(|p: &str| p@),
        }),
{
    let mut owned: Vec<String> = Vec::new();
    let mut i: usize = 0;
    while i < 7
        invariant
            i <= 7,
            owned.len() == i,
            forall|j: int| 0 <= j < i ==> (#[trigger] owned@[j])@ == prompts@[j]@,
        decreases 7 - i,
    {
        owned.push(prompts[i].to_owned());
        i = i + 1;
    }
    assert(crate::text::views_of(owned@) =~= prompts@.map_values(|p: &str| p@));
    PromptSet { id, name: name.to_owned(), author: "Eric".to_owned(), prompts: owned }
}

/// A small in-memory prompt catalog, so that the full flow can be played without a
/// database.
pub fn seed_prompt_sets() -> (sets: Vec<PromptSet>)
    ensures
        crate::state::prompt_set_views(sets@) == seed_catalog(),
        forall|i: int| 0 <= i < sets.len() ==> (#[trigger] sets[i]).prompts.len() <= MAX_PROMPTS,
{
    let top = seed_set(
        1,
        "Top Story",
        [
            "Our top story tonight: ",
            "In local news, ",
            "And in a stunning development, ",
            "Experts are now saying that ",
            "Meanwhile, across town, ",
            "In sports, ",
            "And finally, the weather: ",
        ],
    );
    assert(top@.prompts =~= top_story());
    let special = seed_set(
        2,
        "Special Report",
        [
            "This just in: ",
            "Authorities are warning that ",
            "Witnesses on the scene reported ",
            "The mayor released a statement saying ",
            "In a related story, ",
            "Health officials recommend ",
            "Looking ahead to tomorrow, ",
        ],
    );
    assert(special@.prompts =~= special_report());
    let mut sets: Vec<PromptSet> = Vec::new();
    sets.push(top);
    sets.push(special);
    assert(crate::state::prompt_set_views(sets@) =~= seed_catalog());
    sets
}

} // verus!

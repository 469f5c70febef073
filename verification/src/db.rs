//! What is kept: the rows that a room's durable effects write.
//!
//! Live game state never touches the database. Only the prompt catalog, each
//! room's finalized responses and the append-only archive of past rounds do. The
//! functions here decide which statements a write is made of; the server runs
//! them, in order, in one transaction.

use vstd::prelude::*;

use crate::registry::random_hex;
use crate::room::{Effect, EffectView};
use crate::state::{ArchivedEntry, ArchivedEntryView, PromptSet, PromptSetView};
use crate::text::{copy_opt, copy_strings};

verus! {

/// How many random bytes an archive batch id is made of.
pub const BATCH_BYTES: usize = 16;

/// One statement of a write.
#[derive(Clone, Debug, PartialEq, Eq)]
pub enum DbStep {
    /// Delete the room's live responses.
    ClearResponses { room_code: String },
    /// Insert one live response of the room.
    InsertResponse { room_code: String, entry: ArchivedEntry },
    /// Append one response to the archive.
    InsertArchive { batch_id: String, room_code: String, entry: ArchivedEntry },
}

/// The view of a [`DbStep`].
#[verifier::ext_equal]
pub enum DbStepView {
    ClearResponses { room_code: Seq<char> },
    InsertResponse { room_code: Seq<char>, entry: ArchivedEntryView },
    InsertArchive { batch_id: Seq<char>, room_code: Seq<char>, entry: ArchivedEntryView },
}

impl View for DbStep {
    type V = DbStepView;

    open spec fn view(&self) -> DbStepView {
        match self {
            DbStep::ClearResponses { room_code } => DbStepView::ClearResponses {
                room_code: room_code@,
            },
            DbStep::InsertResponse { room_code, entry } => DbStepView::InsertResponse {
                room_code: room_code@,
                entry: entry@,
            },
            DbStep::InsertArchive { batch_id, room_code, entry } => DbStepView::InsertArchive {
                batch_id: batch_id@,
                room_code: room_code@,
                entry: entry@,
            },
        }
    }
}

/// The views of a list of statements.
pub open spec fn step_views(steps: Seq<DbStep>) -> Seq<DbStepView> {
    steps.map_values(|s: DbStep| s@)
}

// ----- the tables, mathematically --------------------------------------------------

/// A row of the live responses.
#[verifier::ext_equal]
pub struct ResponseRow {
    pub room_code: Seq<char>,
    pub entry: ArchivedEntryView,
}

/// A row of the archive.
#[verifier::ext_equal]
pub struct ArchiveRow {
    pub batch_id: Seq<char>,
    pub room_code: Seq<char>,
    pub entry: ArchivedEntryView,
}

/// The two tables of the database that rooms write to.
#[verifier::ext_equal]
pub struct Tables {
    pub responses: Seq<ResponseRow>,
    pub archive: Seq<ArchiveRow>,
}

impl Tables {
    /// The tables after one statement.
    pub open spec fn after(self, step: DbStepView) -> Tables {
        match step {
            DbStepView::ClearResponses { room_code } => Tables {
                responses: self.responses.filter(|r: ResponseRow| r.room_code != room_code),
                ..self
            },
            DbStepView::InsertResponse { room_code, entry } => Tables {
                responses: self.responses.push(ResponseRow { room_code, entry }),
                ..self
            },
            DbStepView::InsertArchive { batch_id, room_code, entry } => Tables {
                archive: self.archive.push(ArchiveRow { batch_id, room_code, entry }),
                ..self
            },
        }
    }

    /// The tables after a list of statements, in order.
    pub open spec fn after_all(self, steps: Seq<DbStepView>) -> Tables
        decreases steps.len(),
    {
        if steps.len() == 0 {
            self
        } else {
            self.after_all(steps.drop_last()).after(steps.last())
        }
    }

    /// The live responses of one room.
    pub open spec fn responses_of(self, room_code: Seq<char>) -> Seq<ResponseRow> {
        self.responses.filter(|r: ResponseRow| r.room_code == room_code)
    }

    /// The live responses of every other room.
    pub open spec fn responses_beside(self, room_code: Seq<char>) -> Seq<ResponseRow> {
        self.responses.filter(|r: ResponseRow| r.room_code != room_code)
    }
}

/// The insertion of each entry into a room's live responses.
pub open spec fn inserts(room_code: Seq<char>, entries: Seq<ArchivedEntryView>) -> Seq<DbStepView> {
    entries.map_values(|e: ArchivedEntryView| DbStepView::InsertResponse { room_code, entry: e })
}

/// The insertion of each entry into the archive.
pub open spec fn archive_inserts(
    batch_id: Seq<char>,
    room_code: Seq<char>,
    entries: Seq<ArchivedEntryView>,
) -> Seq<DbStepView> {
    entries.map_values(
        |e: ArchivedEntryView| DbStepView::InsertArchive { batch_id, room_code, entry: e },
    )
}

/// The statements that persist a room's finalized responses: they replace any
/// previous set of that room.
pub open spec fn save_steps(room_code: Seq<char>, entries: Seq<ArchivedEntryView>) -> Seq<
    DbStepView,
> {
    seq![DbStepView::ClearResponses { room_code }] + inserts(room_code, entries)
}

/// The statements that archive a room's round: the entries go to the archive, then
/// the room's live responses are cleared.
pub open spec fn archive_steps(
    batch_id: Seq<char>,
    room_code: Seq<char>,
    entries: Seq<ArchivedEntryView>,
) -> Seq<DbStepView> {
    archive_inserts(batch_id, room_code, entries).push(DbStepView::ClearResponses { room_code })
}

/// The statements behind a durable effect of a room.
pub open spec fn effect_steps(
    effect: EffectView,
    batch_id: Seq<char>,
    room_code: Seq<char>,
) -> Seq<DbStepView> {
    match effect {
        EffectView::SaveFinalResponses(entries) => save_steps(room_code, entries),
        EffectView::ArchiveRound(entries) => archive_steps(batch_id, room_code, entries),
    }
}

// ----- executable ---------------------------------------------------------------------

/// Draw an archive batch id.
pub fn random_batch_id() -> (id: String)
    ensures
        crate::registry::is_hex_of(id@, BATCH_BYTES as nat),
{
    random_hex(BATCH_BYTES)
}

/// A prompt set from a row of the catalog, whose name and author may be missing.
pub fn prompt_set_from_row(
    id: i64,
    name: Option<String>,
    author: Option<String>,
    prompts: Vec<String>,
) -> (set: PromptSet)
    ensures
        set@ == (PromptSetView {
            id,
            name: match name {
                Some(n) => n@,
                None => Seq::empty(),
            },
            author: match author {
                Some(a) => a@,
                None => Seq::empty(),
            },
            prompts: crate::text::views_of(prompts@),
        }),
{
    PromptSet {
        id,
        name: match name {
            Some(n) => n,
            None => String::new(),
        },
        author: match author {
            Some(a) => a,
            None => String::new(),
        },
        prompts,
    }
}

/// Copy an entry.
fn copy_entry(entry: &ArchivedEntry) -> (copy: ArchivedEntry)
    ensures
        copy@ == entry@,
{
    ArchivedEntry {
        name: entry.name.clone(),
        partner: copy_opt(&entry.partner),
        prompt_set_id: entry.prompt_set_id,
        prompts: copy_strings(&entry.prompts),
        responses: copy_strings(&entry.responses),
        signoff: entry.signoff.clone(),
    }
}

/// The statements that persist a room's finalized responses, replacing any previous
/// set of that room.
pub fn save_final_responses(room_code: &str, entries: &Vec<ArchivedEntry>) -> (steps: Vec<DbStep>)
    ensures
        step_views(steps@) == save_steps(room_code@, crate::state::entry_views(entries@)),
{
    let ghost views = crate::state::entry_views(entries@);
    let ghost plan = inserts(room_code@, views);
    let mut steps: Vec<DbStep> = Vec::new();
    steps.push(DbStep::ClearResponses { room_code: room_code.to_owned() });
    let ghost head = seq![DbStepView::ClearResponses { room_code: room_code@ }];
    assert(step_views(steps@) =~= head + plan.take(0));
    let mut i: usize = 0;
    while i < entries.len()
        invariant
            i <= entries.len(),
            plan == inserts(room_code@, crate::state::entry_views(entries@)),
            step_views(steps@) == head + plan.take(i as int),
        decreases entries.len() - i,
    {
        let ghost before = steps@;
        steps.push(
            DbStep::InsertResponse {
                room_code: room_code.to_owned(),
                entry: copy_entry(&entries[i]),
            },
        );
        assert(step_views(steps@) =~= step_views(before).push(plan[i as int]));
        assert(plan.take(i + 1) =~= plan.take(i as int).push(plan[i as int]));
        assert(step_views(steps@) =~= head + plan.take(i + 1));
        i = i + 1;
    }
    assert(plan.take(i as int) =~= plan);
    steps
}

/// The statements that copy a round's responses into the archive under a batch id
/// and then clear the room's live responses.
pub fn archive_round(batch_id: &str, room_code: &str, entries: &Vec<ArchivedEntry>) -> (steps: Vec<
    DbStep,
>)
    ensures
        step_views(steps@) == archive_steps(
            batch_id@,
            room_code@,
            crate::state::entry_views(entries@),
        ),
{
    let ghost plan = archive_inserts(batch_id@, room_code@, crate::state::entry_views(entries@));
    let mut steps: Vec<DbStep> = Vec::new();
    assert(step_views(steps@) =~= plan.take(0));
    let mut i: usize = 0;
    while i < entries.len()
        invariant
            i <= entries.len(),
            plan == archive_inserts(
                batch_id@,
                room_code@,
                crate::state::entry_views(entries@),
            ),
            step_views(steps@) == plan.take(i as int),
        decreases entries.len() - i,
    {
        let ghost before = steps@;
        steps.push(
            DbStep::InsertArchive {
                batch_id: batch_id.to_owned(),
                room_code: room_code.to_owned(),
                entry: copy_entry(&entries[i]),
            },
        );
        assert(step_views(steps@) =~= step_views(before).push(plan[i as int]));
        assert(plan.take(i + 1) =~= plan.take(i as int).push(plan[i as int]));
        i = i + 1;
    }
    assert(plan.take(i as int) =~= plan);
    let ghost body = steps@;
    steps.push(DbStep::ClearResponses { room_code: room_code.to_owned() });
    assert(step_views(steps@) =~= step_views(body).push(
        DbStepView::ClearResponses { room_code: room_code@ },
    ));
    steps
}

/// The statements behind a durable effect of a room; the batch id is for an archive.
pub fn plan_effect(effect: &Effect, batch_id: &str, room_code: &str) -> (steps: Vec<DbStep>)
    ensures
        step_views(steps@) == effect_steps(effect@, batch_id@, room_code@),
{
    match effect {
        Effect::SaveFinalResponses(entries) => save_final_responses(room_code, entries),
        Effect::ArchiveRound(entries) => archive_round(batch_id, room_code, entries),
    }
}

} // verus!

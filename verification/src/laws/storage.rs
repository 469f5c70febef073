//! What is kept of a round.

use vstd::prelude::*;

use crate::db;
use crate::db::{ArchiveRow, DbStepView, ResponseRow, Tables};
use crate::laws::{rounds, soundness};
use crate::protocol::{ClientMsgView, Role};
use crate::room;
use crate::room::CommandView;
use crate::state::{ArchivedEntryView, GameView, Phase};

verus! {

/// The rows of a room's live responses that hold the given entries.
pub open spec fn response_rows(room_code: Seq<char>, entries: Seq<ArchivedEntryView>) -> Seq<
    ResponseRow,
> {
    entries.map_values(|e: ArchivedEntryView| ResponseRow { room_code, entry: e })
}

/// The rows of the archive that hold the given entries.
pub open spec fn archive_rows(
    batch_id: Seq<char>,
    room_code: Seq<char>,
    entries: Seq<ArchivedEntryView>,
) -> Seq<ArchiveRow> {
    entries.map_values(|e: ArchivedEntryView| ArchiveRow { batch_id, room_code, entry: e })
}

/// Two lists of statements run one after the other.
proof fn lemma_after_all_joined(tables: Tables, a: Seq<DbStepView>, b: Seq<DbStepView>)
    ensures
        tables.after_all(a + b) == tables.after_all(a).after_all(b),
    decreases b.len(),
{
    if b.len() == 0 {
        assert(a + b =~= a);
    } else {
        assert((a + b).drop_last() =~= a + b.drop_last());
        lemma_after_all_joined(tables, a, b.drop_last());
    }
}

/// Inserted entries stand at the end of the live responses.
proof fn lemma_inserts(tables: Tables, code: Seq<char>, entries: Seq<ArchivedEntryView>)
    ensures
        tables.after_all(db::inserts(code, entries)) == (Tables {
            responses: tables.responses + response_rows(code, entries),
            ..tables
        }),
    decreases entries.len(),
{
    let steps = db::inserts(code, entries);
    if entries.len() == 0 {
        assert(tables.responses + response_rows(code, entries) =~= tables.responses);
    } else {
        let init = entries.drop_last();
        lemma_inserts(tables, code, init);
        assert(steps.drop_last() =~= db::inserts(code, init));
        assert(tables.responses + response_rows(code, entries) =~= (tables.responses
            + response_rows(code, init)).push(
            ResponseRow { room_code: code, entry: entries.last() },
        ));
    }
}

/// Archived entries stand at the end of the archive.
proof fn lemma_archive_inserts(
    tables: Tables,
    batch: Seq<char>,
    code: Seq<char>,
    entries: Seq<ArchivedEntryView>,
)
    ensures
        tables.after_all(db::archive_inserts(batch, code, entries)) == (Tables {
            archive: tables.archive + archive_rows(batch, code, entries),
            ..tables
        }),
    decreases entries.len(),
{
    let steps = db::archive_inserts(batch, code, entries);
    if entries.len() == 0 {
        assert(tables.archive + archive_rows(batch, code, entries) =~= tables.archive);
    } else {
        let init = entries.drop_last();
        lemma_archive_inserts(tables, batch, code, init);
        assert(steps.drop_last() =~= db::archive_inserts(batch, code, init));
        assert(tables.archive + archive_rows(batch, code, entries) =~= (tables.archive
            + archive_rows(batch, code, init)).push(
            ArchiveRow { batch_id: batch, room_code: code, entry: entries.last() },
        ));
    }
}

/// Of the rows beside a room, a filter beside it keeps all and a filter on it none.
proof fn lemma_filter_rows(rows: Seq<ResponseRow>, code: Seq<char>)
    ensures
        rows.filter(|r: ResponseRow| r.room_code != code).filter(
            |r: ResponseRow| r.room_code != code,
        ) == rows.filter(|r: ResponseRow| r.room_code != code),
        rows.filter(|r: ResponseRow| r.room_code != code).filter(
            |r: ResponseRow| r.room_code == code,
        ) == Seq::<ResponseRow>::empty(),
    decreases rows.len(),
{
    reveal(Seq::filter);
    if rows.len() > 0 {
        lemma_filter_rows(rows.drop_last(), code);
        let beside = |r: ResponseRow| r.room_code != code;
        let kept = rows.drop_last().filter(beside);
        if beside(rows.last()) {
            assert(kept.push(rows.last()).drop_last() =~= kept);
        }
    }
}

/// Of rows appended for a room, a filter on the room keeps all and a filter beside it
/// none.
proof fn lemma_filter_appended(
    rows: Seq<ResponseRow>,
    code: Seq<char>,
    entries: Seq<ArchivedEntryView>,
)
    ensures
        (rows + response_rows(code, entries)).filter(|r: ResponseRow| r.room_code == code)
            == rows.filter(|r: ResponseRow| r.room_code == code) + response_rows(code, entries),
        (rows + response_rows(code, entries)).filter(|r: ResponseRow| r.room_code != code)
            == rows.filter(|r: ResponseRow| r.room_code != code),
    decreases entries.len(),
{
    reveal(Seq::filter);
    let all = rows + response_rows(code, entries);
    if entries.len() == 0 {
        assert(all =~= rows);
        assert(response_rows(code, entries) =~= Seq::empty());
        assert(rows.filter(|r: ResponseRow| r.room_code == code) + response_rows(code, entries)
            =~= rows.filter(|r: ResponseRow| r.room_code == code));
    } else {
        let init = entries.drop_last();
        lemma_filter_appended(rows, code, init);
        assert(all.drop_last() =~= rows + response_rows(code, init));
        assert(all.last() == (ResponseRow { room_code: code, entry: entries.last() }));
        assert(response_rows(code, entries) =~= response_rows(code, init).push(all.last()));
        assert(rows.filter(|r: ResponseRow| r.room_code == code) + response_rows(code, entries)
            =~= (rows.filter(|r: ResponseRow| r.room_code == code) + response_rows(
            code,
            init,
        )).push(all.last()));
    }
}

/// The tables after a save: the other rooms' rows, then the entries.
proof fn lemma_saved(tables: Tables, code: Seq<char>, entries: Seq<ArchivedEntryView>)
    ensures
        tables.after_all(db::save_steps(code, entries)) == (Tables {
            responses: tables.responses_beside(code) + response_rows(code, entries),
            ..tables
        }),
{
    let clear = seq![DbStepView::ClearResponses { room_code: code }];
    let cleared = Tables { responses: tables.responses_beside(code), ..tables };
    assert(tables.after_all(clear) == cleared) by {
        assert(clear.drop_last() =~= Seq::<DbStepView>::empty());
        assert(tables.after_all(clear.drop_last()) == tables);
        assert(clear.last() == clear[0]);
    }
    lemma_after_all_joined(tables, clear, db::inserts(code, entries));
    lemma_inserts(cleared, code, entries);
}

/// Saving a round's final responses replaces whatever the room had, and touches no other
/// room and no archived row.
pub proof fn law_saving_replaces_the_rooms_responses(
    tables: Tables,
    room_code: Seq<char>,
    entries: Seq<ArchivedEntryView>,
)
    ensures
        ({
            let saved = tables.after_all(db::save_steps(room_code, entries));
            &&& saved.responses_of(room_code) == response_rows(room_code, entries)
            &&& saved.responses_beside(room_code) == tables.responses_beside(room_code)
            &&& saved.archive == tables.archive
        }),
{
    let rows = response_rows(room_code, entries);
    lemma_saved(tables, room_code, entries);
    lemma_filter_rows(tables.responses, room_code);
    lemma_filter_appended(tables.responses_beside(room_code), room_code, entries);
    assert(Seq::<ResponseRow>::empty() + rows =~= rows);
}

/// Archiving a round appends its entries to the archive, clears the room's live
/// responses, and touches no other room; what was archived before stays as it is.
pub proof fn law_archiving_appends_and_clears(
    tables: Tables,
    batch_id: Seq<char>,
    room_code: Seq<char>,
    entries: Seq<ArchivedEntryView>,
)
    ensures
        ({
            let archived = tables.after_all(db::archive_steps(batch_id, room_code, entries));
            &&& archived.archive == tables.archive + archive_rows(batch_id, room_code, entries)
            &&& archived.responses_of(room_code) == Seq::<ResponseRow>::empty()
            &&& archived.responses_beside(room_code) == tables.responses_beside(room_code)
        }),
{
    let steps = db::archive_steps(batch_id, room_code, entries);
    assert(steps.drop_last() =~= db::archive_inserts(batch_id, room_code, entries));
    lemma_archive_inserts(tables, batch_id, room_code, entries);
    lemma_filter_rows(tables.responses, room_code);
}

/// The tables after the durable effects of one intent.
pub open spec fn stored(
    tables: Tables,
    game: GameView,
    host_token: Seq<char>,
    role: Role,
    name: Option<Seq<char>>,
    intent: ClientMsgView,
    batch_id: Seq<char>,
) -> Tables {
    let effects = room::react(game, host_token, role, name, intent).1.effects;
    if effects.len() == 0 {
        tables
    } else {
        tables.after_all(db::effect_steps(effects[0], batch_id, game.code))
    }
}

/// When the host starts the performance, the room's live responses become the round's
/// entries; when the host archives the round, the same entries join the archive and the
/// room's live responses are gone. Nothing else that happens in a room touches storage.
pub proof fn law_storage_follows_the_round(
    tables: Tables,
    game: GameView,
    host_token: Seq<char>,
    role: Role,
    name: Option<Seq<char>>,
    intent: ClientMsgView,
    batch_id: Seq<char>,
)
    ensures
        ({
            let after = stored(tables, game, host_token, role, name, intent, batch_id);
            &&& room::react(game, host_token, role, name, intent).1.effects.len() <= 1
            &&& after.responses_beside(game.code) == tables.responses_beside(game.code)
            &&& if role == Role::Host && intent is StartGame && game.start_game() is Ok {
                &&& after.responses_of(game.code) == response_rows(
                    game.code,
                    game.round_entries(),
                )
                &&& after.archive == tables.archive
            } else if role == Role::Host && intent is ArchiveRound && game.archive_round() is Ok {
                &&& after.responses_of(game.code) == Seq::<ResponseRow>::empty()
                &&& after.archive == tables.archive + archive_rows(
                    batch_id,
                    game.code,
                    game.round_entries(),
                )
            } else {
                after == tables
            }
        }),
{
    rounds::law_storage_hears_of_the_start_and_the_end_alone(
        game,
        host_token,
        role,
        name,
        intent,
    );
    law_saving_replaces_the_rooms_responses(tables, game.code, game.round_entries());
    law_archiving_appends_and_clears(tables, batch_id, game.code, game.round_entries());
}

/// The archive holds what was saved: the entries that join it at the end of a
/// performance are those with which the performance started, whatever the room was told
/// in between.
pub proof fn law_the_archive_holds_what_was_saved(
    game: GameView,
    host_token: Seq<char>,
    commands: Seq<CommandView>,
    at_start: Tables,
    at_end: Tables,
    batch_id: Seq<char>,
)
    requires
        game.start_game() is Ok,
        forall|k: int| 0 <= k < commands.len() ==> !((#[trigger] commands[k]).intent is NewRound),
        soundness::after_all(game.start_game()->Ok_0, host_token, commands).phase
            == Phase::Performing,
    ensures
        ({
            let later = soundness::after_all(game.start_game()->Ok_0, host_token, commands);
            let saved = stored(
                at_start,
                game,
                host_token,
                Role::Host,
                None,
                ClientMsgView::StartGame,
                batch_id,
            );
            let archived = stored(
                at_end,
                later,
                host_token,
                Role::Host,
                None,
                ClientMsgView::ArchiveRound,
                batch_id,
            );
            let entries = game.round_entries();
            &&& saved.responses_of(game.code) == response_rows(game.code, entries)
            &&& archived.archive == at_end.archive + archive_rows(batch_id, game.code, entries)
        }),
{
    let started = game.start_game()->Ok_0;
    let later = soundness::after_all(started, host_token, commands);
    rounds::law_the_entries_stay_those_of_the_start(started, host_token, commands);
    assert(started.round_entries() == game.round_entries());
    law_storage_follows_the_round(
        at_start,
        game,
        host_token,
        Role::Host,
        None,
        ClientMsgView::StartGame,
        batch_id,
    );
    law_storage_follows_the_round(
        at_end,
        later,
        host_token,
        Role::Host,
        None,
        ClientMsgView::ArchiveRound,
        batch_id,
    );
}

} // verus!

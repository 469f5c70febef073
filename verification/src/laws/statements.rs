//! The statements behind the durable effects, one by one.

use vstd::prelude::*;

use crate::db;
use crate::db::{ArchiveRow, DbStepView, ResponseRow, Tables};
use crate::room::EffectView;
use crate::state::ArchivedEntryView;

verus! {

/// To save a room's final responses is to clear the room's rows and then to insert every
/// entry as it is, in order, under the room's code.
pub proof fn law_a_save_clears_and_inserts_every_entry(
    room_code: Seq<char>,
    batch_id: Seq<char>,
    entries: Seq<ArchivedEntryView>,
    i: int,
)
    ensures
        ({
            let steps = db::effect_steps(
                EffectView::SaveFinalResponses(entries),
                batch_id,
                room_code,
            );
            &&& steps == db::save_steps(room_code, entries)
            &&& steps.len() == entries.len() + 1
            &&& steps[0] == (DbStepView::ClearResponses { room_code })
            &&& 0 <= i < entries.len() ==> steps[i + 1] == (DbStepView::InsertResponse {
                room_code,
                entry: entries[i],
            })
        }),
{
}

/// To archive a round is to insert every entry as it is, in order, under the batch id and
/// the room's code, and then to clear the room's rows.
pub proof fn law_an_archiving_inserts_every_entry_and_clears(
    room_code: Seq<char>,
    batch_id: Seq<char>,
    entries: Seq<ArchivedEntryView>,
    i: int,
)
    ensures
        ({
            let steps = db::effect_steps(EffectView::ArchiveRound(entries), batch_id, room_code);
            &&& steps == db::archive_steps(batch_id, room_code, entries)
            &&& steps.len() == entries.len() + 1
            &&& steps[entries.len() as int] == (DbStepView::ClearResponses { room_code })
            &&& 0 <= i < entries.len() ==> steps[i] == (DbStepView::InsertArchive {
                batch_id,
                room_code,
                entry: entries[i],
            })
        }),
{
}

/// An insertion appends its row to its table and touches nothing else; a deletion leaves no
/// row of its room, every row of the others, and the archive.
pub proof fn law_statements_touch_their_rows_alone(
    tables: Tables,
    room_code: Seq<char>,
    batch_id: Seq<char>,
    entry: ArchivedEntryView,
    row: ResponseRow,
)
    ensures
        tables.after(DbStepView::InsertResponse { room_code, entry }) == (Tables {
            responses: tables.responses + seq![ResponseRow { room_code, entry }],
            archive: tables.archive,
        }),
        tables.after(DbStepView::InsertArchive { batch_id, room_code, entry }) == (Tables {
            responses: tables.responses,
            archive: tables.archive + seq![ArchiveRow { batch_id, room_code, entry }],
        }),
        ({
            let cleared = tables.after(DbStepView::ClearResponses { room_code });
            &&& cleared.archive == tables.archive
            &&& cleared.responses.contains(row) <==> tables.responses.contains(row)
                && row.room_code != room_code
        }),
{
    assert(tables.after(DbStepView::InsertResponse { room_code, entry }).responses
        =~= tables.responses + seq![ResponseRow { room_code, entry }]);
    assert(tables.after(DbStepView::InsertArchive { batch_id, room_code, entry }).archive
        =~= tables.archive + seq![ArchiveRow { batch_id, room_code, entry }]);
    let beside = |r: ResponseRow| r.room_code != room_code;
    lemma_filtered(tables.responses, beside, row);
}

/// A filter keeps exactly the rows that satisfy it.
proof fn lemma_filtered(rows: Seq<ResponseRow>, keep: spec_fn(ResponseRow) -> bool, row: ResponseRow)
    ensures
        rows.filter(keep).contains(row) <==> rows.contains(row) && keep(row),
    decreases rows.len(),
{
    reveal(Seq::filter);
    if rows.len() > 0 {
        let init = rows.drop_last();
        let last = rows.last();
        lemma_filtered(init, keep, row);
        assert(rows =~= init.push(last));
        let kept = init.filter(keep);
        if rows.contains(row) {
            let i = rows.index_of(row);
            if i < init.len() {
                assert(init[i] == row);
            }
        }
        if init.contains(row) {
            assert(rows[init.index_of(row)] == row);
        }
        assert(rows[rows.len() - 1] == last);
        if kept.contains(row) {
            assert(kept.push(last)[kept.index_of(row)] == row);
        }
        if keep(last) {
            assert(rows.filter(keep) == kept.push(last));
            assert(kept.push(last)[kept.len() as int] == last);
            if kept.push(last).contains(row) {
                let i = kept.push(last).index_of(row);
                if i < kept.len() {
                    assert(kept[i] == row);
                }
            }
        }
    }
}

/// Statements run one after the other.
pub proof fn law_statements_run_in_order(
    tables: Tables,
    steps: Seq<DbStepView>,
    step: DbStepView,
)
    ensures
        tables.after_all(Seq::empty()) == tables,
        tables.after_all(steps.push(step)) == tables.after_all(steps).after(step),
{
    assert(steps.push(step).drop_last() =~= steps);
}

} // verus!

//! A model of the table of handlers, and what follows from it.
//!
//! The model takes a table as a map from the text of a thread to the thread's row, with
//! `thread_id` as the key. [`executed`], [`selected`] and [`rows_removed`] say what the store's
//! statements are taken to do to such a map. They are a reading of the statements' text; that a
//! SQLite database does the same is not proved.

use crate::handler::TurnFailureHandlerView;
use crate::store;
use crate::store::{SqlStatementView, SqlValueView, StoreErrorView};
use vstd::prelude::*;

verus! {

/// A row of the table, without its key.
pub struct HandlerRow {
    /// The handler's instructions.
    pub instructions: Seq<char>,
    /// How often the handler may continue a turn.
    pub max_continuations: i64,
    /// When the row was written.
    pub updated_at: i64,
}

/// The text that a parameter holds.
pub open spec fn text_of(value: SqlValueView) -> Seq<char> {
    value->Text_0
}

/// The integer that a parameter holds.
pub open spec fn integer_of(value: SqlValueView) -> i64 {
    value->Integer_0
}

/// The table after a statement, by the model.
pub open spec fn executed(
    table: Map<Seq<char>, HandlerRow>,
    statement: SqlStatementView,
) -> Map<Seq<char>, HandlerRow> {
    let values = statement.parameters;
    if statement.sql == store::UPSERT_HANDLER@ {
        table.insert(
            text_of(values[0]),
            HandlerRow {
                instructions: text_of(values[1]),
                max_continuations: integer_of(values[2]),
                updated_at: integer_of(values[3]),
            },
        )
    } else if statement.sql == store::DELETE_HANDLER@ {
        table.remove(text_of(values[0]))
    } else {
        table
    }
}

/// The row that a statement finds, by the model: none, unless it is one that reads.
pub open spec fn selected(
    table: Map<Seq<char>, HandlerRow>,
    statement: SqlStatementView,
) -> Option<(Seq<char>, i64)> {
    let key = text_of(statement.parameters[0]);
    if statement.sql == store::SELECT_HANDLER@ && table.contains_key(key) {
        Some((table[key].instructions, table[key].max_continuations))
    } else {
        None
    }
}

/// How many rows a statement removes, by the model: none, unless it is one that removes.
pub open spec fn rows_removed(
    table: Map<Seq<char>, HandlerRow>,
    statement: SqlStatementView,
) -> u64 {
    if statement.sql == store::DELETE_HANDLER@ && table.contains_key(
        text_of(statement.parameters[0]),
    ) {
        1
    } else {
        0
    }
}

/// What reading the handler of a thread comes to on a table.
pub open spec fn stored_handler(
    table: Map<Seq<char>, HandlerRow>,
    thread_id: Seq<char>,
) -> Result<Option<TurnFailureHandlerView>, StoreErrorView> {
    store::read_outcome(Ok(selected(table, store::select_statement(thread_id))))
}

/// The three statements differ in their texts.
pub proof fn lemma_statements_differ()
    ensures
        store::SELECT_HANDLER@ != store::UPSERT_HANDLER@,
        store::SELECT_HANDLER@ != store::DELETE_HANDLER@,
        store::UPSERT_HANDLER@ != store::DELETE_HANDLER@,
{
    reveal_strlit(
        "SELECT instructions, max_continuations FROM turn_failure_handlers WHERE thread_id = ?",
    );
    reveal_strlit(
        "\nINSERT INTO turn_failure_handlers (thread_id, instructions, max_continuations, updated_at)\nVALUES (?, ?, ?, ?)\nON CONFLICT(thread_id) DO UPDATE SET\n    instructions = excluded.instructions,\n    max_continuations = excluded.max_continuations,\n    updated_at = excluded.updated_at\n            ",
    );
    reveal_strlit("DELETE FROM turn_failure_handlers WHERE thread_id = ?");
    assert(store::SELECT_HANDLER@[0] == 'S');
    assert(store::UPSERT_HANDLER@[0] == '\n');
    assert(store::DELETE_HANDLER@[0] == 'D');
}

/// Reading a thread's handler gives back exactly the handler that was last written for the
/// thread, whatever was there before and whenever it was written.
pub proof fn lemma_get_after_set(
    table: Map<Seq<char>, HandlerRow>,
    thread_id: Seq<char>,
    handler: TurnFailureHandlerView,
    updated_at: i64,
)
    ensures
        stored_handler(
            executed(table, store::upsert_statement(thread_id, handler, updated_at)),
            thread_id,
        ) == Ok::<Option<TurnFailureHandlerView>, StoreErrorView>(Some(handler)),
{
}

/// Writing or clearing the handler of one thread leaves the handlers of the others alone.
pub proof fn lemma_threads_are_separate(
    table: Map<Seq<char>, HandlerRow>,
    thread_id: Seq<char>,
    other: Seq<char>,
    handler: TurnFailureHandlerView,
    updated_at: i64,
)
    requires
        other != thread_id,
    ensures
        stored_handler(
            executed(table, store::upsert_statement(thread_id, handler, updated_at)),
            other,
        ) == stored_handler(table, other),
        stored_handler(executed(table, store::delete_statement(thread_id)), other)
            == stored_handler(table, other),
{
    lemma_statements_differ();
}

/// After a thread's handler is cleared there is none to read, and a second clearing removes
/// nothing.
pub proof fn lemma_get_after_clear(table: Map<Seq<char>, HandlerRow>, thread_id: Seq<char>)
    ensures
        stored_handler(executed(table, store::delete_statement(thread_id)), thread_id) == Ok::<
            Option<TurnFailureHandlerView>,
            StoreErrorView,
        >(None),
        rows_removed(
            executed(table, store::delete_statement(thread_id)),
            store::delete_statement(thread_id),
        ) == 0,
{
    lemma_statements_differ();
}

/// Clearing removes a row if and only if the thread has one, so always after a handler was
/// written.
pub proof fn lemma_clear_finds_what_was_set(
    table: Map<Seq<char>, HandlerRow>,
    thread_id: Seq<char>,
    handler: TurnFailureHandlerView,
    updated_at: i64,
)
    ensures
        rows_removed(table, store::delete_statement(thread_id)) > 0 <==> selected(
            table,
            store::select_statement(thread_id),
        ) is Some,
        rows_removed(
            executed(table, store::upsert_statement(thread_id, handler, updated_at)),
            store::delete_statement(thread_id),
        ) > 0,
{
}

/// Reading changes nothing.
pub proof fn lemma_get_changes_nothing(table: Map<Seq<char>, HandlerRow>, thread_id: Seq<char>)
    ensures
        executed(table, store::select_statement(thread_id)) == table,
{
    lemma_statements_differ();
}

/// Only the last handler that is written for a thread counts.
pub proof fn lemma_set_replaces(
    table: Map<Seq<char>, HandlerRow>,
    thread_id: Seq<char>,
    first: TurnFailureHandlerView,
    first_at: i64,
    second: TurnFailureHandlerView,
    second_at: i64,
)
    ensures
        executed(
            executed(table, store::upsert_statement(thread_id, first, first_at)),
            store::upsert_statement(thread_id, second, second_at),
        ) == executed(table, store::upsert_statement(thread_id, second, second_at)),
{
    assert(executed(
        executed(table, store::upsert_statement(thread_id, first, first_at)),
        store::upsert_statement(thread_id, second, second_at),
    ) =~= executed(table, store::upsert_statement(thread_id, second, second_at)));
}

/// What the store's statements do to a table, row by row: writing puts the handler and the time
/// into the thread's row, clearing removes that row and counts it where it is there, reading finds
/// that row and changes nothing, and no statement touches another thread's row.
pub proof fn lemma_statements_act_on_their_row(
    table: Map<Seq<char>, HandlerRow>,
    thread_id: Seq<char>,
    handler: TurnFailureHandlerView,
    updated_at: i64,
)
    ensures
        ({
            let written = executed(table, store::upsert_statement(thread_id, handler, updated_at));
            let cleared = executed(table, store::delete_statement(thread_id));
            let found = selected(table, store::select_statement(thread_id));
            let had_row = table.contains_key(thread_id);
            &&& written.contains_key(thread_id)
            &&& written[thread_id].instructions == handler.instructions
            &&& written[thread_id].max_continuations == handler.max_continuations
            &&& written[thread_id].updated_at == updated_at
            &&& written.remove(thread_id) == table.remove(thread_id)
            &&& !cleared.contains_key(thread_id)
            &&& cleared == table.remove(thread_id)
            &&& rows_removed(table, store::delete_statement(thread_id)) == if had_row {
                1int
            } else {
                0int
            }
            &&& found is Some <==> had_row
            &&& found matches Some((instructions, most)) ==> instructions
                == table[thread_id].instructions && most == table[thread_id].max_continuations
            &&& executed(table, store::select_statement(thread_id)) == table
        }),
{
    lemma_statements_differ();
    let written = executed(table, store::upsert_statement(thread_id, handler, updated_at));
    assert(written.remove(thread_id) =~= table.remove(thread_id));
}

} // verus!

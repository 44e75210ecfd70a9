//! Handlers as rows of a table, and the statements that read and write them.

use crate::handler::{TurnFailureHandler, TurnFailureHandlerView};
use crate::outcome;
use crate::thread_id::ThreadId;
use vstd::prelude::*;
use vstd::string::*;

verus! {

/// Reads the row of a thread.
pub const SELECT_HANDLER: &'static str =
    "SELECT instructions, max_continuations FROM turn_failure_handlers WHERE thread_id = ?";

/// Writes the row of a thread, in place of the row that is there.
pub const UPSERT_HANDLER: &'static str =
    "\nINSERT INTO turn_failure_handlers (thread_id, instructions, max_continuations, updated_at)\nVALUES (?, ?, ?, ?)\nON CONFLICT(thread_id) DO UPDATE SET\n    instructions = excluded.instructions,\n    max_continuations = excluded.max_continuations,\n    updated_at = excluded.updated_at\n            ";

/// Removes the row of a thread.
pub const DELETE_HANDLER: &'static str = "DELETE FROM turn_failure_handlers WHERE thread_id = ?";

/// A value that is bound to a parameter of a statement.
#[derive(Debug, PartialEq, Eq)]
pub enum SqlValue {
    /// A text.
    Text(String),
    /// An integer.
    Integer(i64),
}

/// What a [`SqlValue`] is.
pub enum SqlValueView {
    /// A text.
    Text(Seq<char>),
    /// An integer.
    Integer(i64),
}

impl View for SqlValue {
    type V = SqlValueView;

    open spec fn view(&self) -> SqlValueView {
        match self {
            SqlValue::Text(text) => SqlValueView::Text(text@),
            SqlValue::Integer(number) => SqlValueView::Integer(*number),
        }
    }
}

/// A statement with the values of its parameters, in order.
#[derive(Debug, PartialEq, Eq)]
pub struct SqlStatement {
    /// The statement's text.
    pub sql: &'static str,
    /// The values of its parameters.
    pub parameters: Vec<SqlValue>,
}

/// What a [`SqlStatement`] is.
pub struct SqlStatementView {
    /// The statement's text.
    pub sql: Seq<char>,
    /// The values of its parameters.
    pub parameters: Seq<SqlValueView>,
}

impl View for SqlStatement {
    type V = SqlStatementView;

    open spec fn view(&self) -> SqlStatementView {
        SqlStatementView {
            sql: self.sql@,
            parameters: self.parameters@.map_values(|value: SqlValue| value@),
        }
    }
}

/// Why a handler could not be read or written.
#[derive(Debug, PartialEq, Eq)]
pub enum StoreError {
    /// The database failed, with this message.
    Database(String),
    /// The number of continuations in a row is not one that a handler can have.
    MaxContinuationsOutOfRange,
}

/// What a [`StoreError`] is.
pub enum StoreErrorView {
    /// The database failed, with this message.
    Database(Seq<char>),
    /// The number of continuations in a row is not one that a handler can have.
    MaxContinuationsOutOfRange,
}

impl StoreErrorView {
    /// The message of the error.
    pub open spec fn message(self) -> Seq<char> {
        match self {
            StoreErrorView::Database(message) => message,
            StoreErrorView::MaxContinuationsOutOfRange =>
                "out of range integral type conversion attempted"@,
        }
    }
}

impl View for StoreError {
    type V = StoreErrorView;

    open spec fn view(&self) -> StoreErrorView {
        match self {
            StoreError::Database(message) => StoreErrorView::Database(message@),
            StoreError::MaxContinuationsOutOfRange => StoreErrorView::MaxContinuationsOutOfRange,
        }
    }
}

impl StoreError {
    /// The message of the error.
    pub fn message(&self) -> (message: String)
        ensures
            message@ == self@.message(),
            match *self {
                StoreError::Database(text) => message@ == text@,
                StoreError::MaxContinuationsOutOfRange => message@
                    == "out of range integral type conversion attempted"@,
            },
    {
        match self {
            StoreError::Database(message) => message.clone(),
            StoreError::MaxContinuationsOutOfRange =>
                "out of range integral type conversion attempted".to_owned(),
        }
    }
}

/// The statement that reads the handler of a thread.
pub open spec fn select_statement(thread_id: Seq<char>) -> SqlStatementView {
    SqlStatementView { sql: SELECT_HANDLER@, parameters: seq![SqlValueView::Text(thread_id)] }
}

/// The statement that makes `handler` the handler of a thread.
pub open spec fn upsert_statement(
    thread_id: Seq<char>,
    handler: TurnFailureHandlerView,
    updated_at: i64,
) -> SqlStatementView {
    SqlStatementView {
        sql: UPSERT_HANDLER@,
        parameters: seq![
            SqlValueView::Text(thread_id),
            SqlValueView::Text(handler.instructions),
            SqlValueView::Integer(handler.max_continuations as i64),
            SqlValueView::Integer(updated_at),
        ],
    }
}

/// The statement that removes the handler of a thread.
pub open spec fn delete_statement(thread_id: Seq<char>) -> SqlStatementView {
    SqlStatementView { sql: DELETE_HANDLER@, parameters: seq![SqlValueView::Text(thread_id)] }
}

/// The handler that a row stands for, or why it stands for none.
pub open spec fn decoded(row: Option<(Seq<char>, i64)>) -> Result<
    Option<TurnFailureHandlerView>,
    StoreErrorView,
> {
    match row {
        None => Ok(None),
        Some((instructions, max_continuations)) => if 0 <= max_continuations <= u32::MAX {
            Ok(
                Some(
                    TurnFailureHandlerView {
                        instructions,
                        max_continuations: max_continuations as u32,
                    },
                ),
            )
        } else {
            Err(StoreErrorView::MaxContinuationsOutOfRange)
        },
    }
}

/// The row that a database handed back, or its error.
pub open spec fn row_view(row: Result<Option<(String, i64)>, String>) -> Result<
    Option<(Seq<char>, i64)>,
    Seq<char>,
> {
    match row {
        Ok(Some((instructions, max_continuations))) => Ok(
            Some((instructions@, max_continuations)),
        ),
        Ok(None) => Ok(None),
        Err(message) => Err(message@),
    }
}

/// What reading a handler comes to, from what the database handed back.
pub open spec fn read_outcome(row: Result<Option<(Seq<char>, i64)>, Seq<char>>) -> Result<
    Option<TurnFailureHandlerView>,
    StoreErrorView,
> {
    match row {
        Ok(row) => decoded(row),
        Err(message) => Err(StoreErrorView::Database(message)),
    }
}

/// The handler that was read, or the error.
pub open spec fn read_view(handler: Result<Option<TurnFailureHandler>, StoreError>) -> Result<
    Option<TurnFailureHandlerView>,
    StoreErrorView,
> {
    match handler {
        Ok(handler) => Ok(outcome::viewed_option(handler)),
        Err(error) => Err(error@),
    }
}

/// `chrono::Utc::now` and `DateTime::timestamp`: the seconds since the start of 1970 by the
/// system's clock. Nothing is claimed of the number: it is what the clock says. The call panics
/// where the clock stands before the start of 1970 or past the last year that a `DateTime` holds;
/// no argument decides that.
#[verifier::external_body]
fn unix_timestamp() -> (now: i64) {
    chrono::Utc::now().timestamp()
}

/// Access to thread-scoped turn failure handlers, as statements on their table and as readings
/// of what the database hands back.
#[derive(Clone, Copy, Debug, PartialEq, Eq)]
pub struct TurnFailureHandlerStore;

impl TurnFailureHandlerStore {
    /// The statement that reads the handler configured for `thread_id`.
    pub fn get(&self, thread_id: &ThreadId) -> (statement: SqlStatement)
        ensures
            statement@ == select_statement(thread_id@),
            statement.sql@
                == "SELECT instructions, max_continuations FROM turn_failure_handlers WHERE thread_id = ?"@,
            statement.parameters@.len() == 1,
            statement.parameters@[0] matches SqlValue::Text(text) && text@ == thread_id@,
    {
        let statement = SqlStatement {
            sql: SELECT_HANDLER,
            parameters: vec![SqlValue::Text(thread_id.canonical())],
        };
        assert(statement@.parameters =~= select_statement(thread_id@).parameters);
        statement
    }

    /// The handler that was read, from the row that the database handed back.
    pub fn get_reply(&self, row: Result<Option<(String, i64)>, String>) -> (handler: Result<
        Option<TurnFailureHandler>,
        StoreError,
    >)
        ensures
            read_view(handler) == read_outcome(row_view(row)),
            match row {
                Ok(None) => handler == Ok::<Option<TurnFailureHandler>, StoreError>(None),
                Ok(Some((instructions, most))) => if 0 <= most <= 4294967295 {
                    &&& handler matches Ok(Some(read))
                    &&& read.instructions@ == instructions@
                    &&& read.max_continuations == most
                } else {
                    handler == Err::<Option<TurnFailureHandler>, StoreError>(
                        StoreError::MaxContinuationsOutOfRange,
                    )
                },
                Err(message) => handler matches Err(StoreError::Database(text)) && text@
                    == message@,
            },
    {
        match row {
            Ok(Some((instructions, max_continuations))) => {
                if max_continuations < 0 || max_continuations > u32::MAX as i64 {
                    return Err(StoreError::MaxContinuationsOutOfRange);
                }
                Ok(
                    Some(
                        TurnFailureHandler {
                            instructions,
                            max_continuations: max_continuations as u32,
                        },
                    ),
                )
            },
            Ok(None) => Ok(None),
            Err(message) => Err(StoreError::Database(message)),
        }
    }

    /// The statement that creates or replaces the handler configured for `thread_id`, as of now.
    pub fn set(&self, thread_id: &ThreadId, handler: &TurnFailureHandler) -> (statement:
        SqlStatement)
        ensures
            exists|updated_at: i64|
                statement@ == #[trigger] upsert_statement(thread_id@, handler@, updated_at),
            statement.sql == UPSERT_HANDLER,
            statement.parameters@.len() == 4,
            statement.parameters@[0] matches SqlValue::Text(text) && text@ == thread_id@,
            statement.parameters@[1] matches SqlValue::Text(text) && text@
                == handler.instructions@,
            statement.parameters@[2] matches SqlValue::Integer(most) && most
                == handler.max_continuations,
            statement.parameters@[3] is Integer,
    {
        self.set_at(thread_id, handler, unix_timestamp())
    }

    /// The statement that creates or replaces the handler configured for `thread_id`, as of
    /// `updated_at`.
    pub fn set_at(&self, thread_id: &ThreadId, handler: &TurnFailureHandler, updated_at: i64) -> (
    statement: SqlStatement)
        ensures
            statement@ == upsert_statement(thread_id@, handler@, updated_at),
            statement.sql == UPSERT_HANDLER,
            statement.parameters@.len() == 4,
            statement.parameters@[0] matches SqlValue::Text(text) && text@ == thread_id@,
            statement.parameters@[1] matches SqlValue::Text(text) && text@
                == handler.instructions@,
            statement.parameters@[2] matches SqlValue::Integer(most) && most
                == handler.max_continuations,
            statement.parameters@[3] == SqlValue::Integer(updated_at),
    {
        let statement = SqlStatement {
            sql: UPSERT_HANDLER,
            parameters: vec![
                SqlValue::Text(thread_id.canonical()),
                SqlValue::Text(handler.instructions.clone()),
                SqlValue::Integer(handler.max_continuations as i64),
                SqlValue::Integer(updated_at),
            ],
        };
        assert(statement@.parameters =~= upsert_statement(
            thread_id@,
            handler@,
            updated_at,
        ).parameters);
        statement
    }

    /// Whether the handler was written, from what the database handed back.
    pub fn set_reply(&self, written: Result<(), String>) -> (outcome: Result<(), StoreError>)
        ensures
            match written {
                Ok(_) => outcome == Ok::<(), StoreError>(()),
                Err(message) => outcome matches Err(error) && error@ == StoreErrorView::Database(
                    message@,
                ) && error is Database && error->Database_0@ == message@,
            },
    {
        match written {
            Ok(_) => Ok(()),
            Err(message) => Err(StoreError::Database(message)),
        }
    }

    /// The statement that clears the handler for `thread_id`.
    pub fn clear(&self, thread_id: &ThreadId) -> (statement: SqlStatement)
        ensures
            statement@ == delete_statement(thread_id@),
            statement.sql@ == "DELETE FROM turn_failure_handlers WHERE thread_id = ?"@,
            statement.parameters@.len() == 1,
            statement.parameters@[0] matches SqlValue::Text(text) && text@ == thread_id@,
    {
        let statement = SqlStatement {
            sql: DELETE_HANDLER,
            parameters: vec![SqlValue::Text(thread_id.canonical())],
        };
        assert(statement@.parameters =~= delete_statement(thread_id@).parameters);
        statement
    }

    /// Whether a handler existed, from the number of rows that the database removed.
    pub fn clear_reply(&self, rows_affected: Result<u64, String>) -> (cleared: Result<
        bool,
        StoreError,
    >)
        ensures
            match rows_affected {
                Ok(rows) => cleared == Ok::<bool, StoreError>(rows > 0),
                Err(message) => cleared matches Err(error) && error@ == StoreErrorView::Database(
                    message@,
                ) && error is Database && error->Database_0@ == message@,
            },
    {
        match rows_affected {
            Ok(rows) => Ok(rows > 0),
            Err(message) => Err(StoreError::Database(message)),
        }
    }
}

/// A row is read as the handler that it holds: the prose as it is and the number as it is, where
/// the number is one of 32 bits without a sign. No row is no handler, and an error of the database
/// is that error.
pub proof fn lemma_row_is_read_as_it_is(row: Result<Option<(String, i64)>, String>)
    ensures
        ({
            let read = read_outcome(row_view(row));
            &&& read == Ok::<Option<TurnFailureHandlerView>, StoreErrorView>(None) <==> row == Ok::<
                Option<(String, i64)>,
                String,
            >(None)
            &&& (read matches Ok(Some(_))) <==> (row matches Ok(Some((_, most))) && 0 <= most
                <= 4294967295)
            &&& read matches Ok(Some(handler)) ==> row matches Ok(Some((instructions, most)))
                && handler.instructions == instructions@ && handler.max_continuations == most
            &&& read == Err::<Option<TurnFailureHandlerView>, StoreErrorView>(
                StoreErrorView::MaxContinuationsOutOfRange,
            ) <==> (row matches Ok(Some((_, most))) && !(0 <= most <= 4294967295))
            &&& row matches Err(message) ==> read == Err::<
                Option<TurnFailureHandlerView>,
                StoreErrorView,
            >(StoreErrorView::Database(message@))
        }),
{
}

/// An error of the database is told in the database's words, and a number out of range as such.
pub proof fn lemma_error_is_told_in_its_words(message: Seq<char>)
    ensures
        StoreErrorView::Database(message).message() == message,
        StoreErrorView::MaxContinuationsOutOfRange.message()
            == "out of range integral type conversion attempted"@,
{
}

} // verus!

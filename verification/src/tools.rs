//! The tools by which a model reads, writes and clears the failure handler of its thread.
//!
//! A call of a tool goes by steps. [`FailureHandlerTool::handle`] and what follows it say what is
//! to be done next: parse the arguments, run a statement, or fail. The caller does it and hands
//! what came of it to the function that the step names.

use crate::handler;
use crate::handler::{
    FunctionCallError, HandlerResponse, HandlerResponseView, SetHandlerArgs, TurnFailureHandler,
    TurnFailureHandlerResponse, TurnFailureHandlerView,
};
use crate::json;
use crate::json::check_json_value;
use crate::outcome;
use crate::store;
use crate::store::{
    SqlStatement, SqlStatementView, StoreError, StoreErrorView, TurnFailureHandlerStore,
};
use crate::table;
use crate::table::HandlerRow;
use crate::thread_id::ThreadId;
use crate::tool_spec;
use crate::tool_spec::{
    clear_tool_spec, get_tool_spec, set_tool_spec, ToolSpec, CLEAR_TURN_FAILURE_HANDLER_TOOL_NAME,
    GET_TURN_FAILURE_HANDLER_TOOL_NAME, SET_TURN_FAILURE_HANDLER_TOOL_NAME,
};
use vstd::prelude::*;
use vstd::string::*;

verus! {

/// What a tool does with the handler.
#[derive(Clone, Copy, Debug, PartialEq, Eq, Structural)]
pub enum FailureHandlerToolKind {
    /// Reads it.
    Get,
    /// Writes it.
    Configure,
    /// Clears it.
    Clear,
}

/// A tool on the failure handler of one thread.
#[derive(Debug, PartialEq, Eq)]
pub struct FailureHandlerTool {
    /// What the tool does.
    pub kind: FailureHandlerToolKind,
    /// The thread whose handler it is.
    pub thread_id: ThreadId,
    /// Where the handler is kept.
    pub store: TurnFailureHandlerStore,
}

/// What a call of a tool needs next.
#[derive(Debug, PartialEq, Eq)]
pub enum ToolStep {
    /// This text is to be parsed as the arguments of a call that writes, and what came of it goes
    /// to [`FailureHandlerTool::set`].
    ParseSetArguments(String),
    /// The statement is to be run, and the row that it finds goes to
    /// [`FailureHandlerTool::get_reply`].
    Select(SqlStatement),
    /// The statement is to be run, and what came of it goes to
    /// [`FailureHandlerTool::set_reply`], with the handler.
    Upsert(SqlStatement, TurnFailureHandler),
    /// The statement is to be run, and the number of rows that it removed goes to
    /// [`FailureHandlerTool::clear_reply`].
    Delete(SqlStatement),
    /// The call has failed.
    Fail(FunctionCallError),
}

/// What a [`ToolStep`] says.
pub enum ToolStepView {
    /// This text is to be parsed as the arguments of a call that writes.
    ParseSetArguments(Seq<char>),
    /// A statement is to be run for the row that it finds.
    Select(SqlStatementView),
    /// A statement is to be run that writes a handler.
    Upsert(SqlStatementView, TurnFailureHandlerView),
    /// A statement is to be run for the number of rows that it removes.
    Delete(SqlStatementView),
    /// The call has failed, with this text for the model.
    Fail(Seq<char>),
}

impl View for ToolStep {
    type V = ToolStepView;

    open spec fn view(&self) -> ToolStepView {
        match self {
            ToolStep::ParseSetArguments(arguments) => ToolStepView::ParseSetArguments(arguments@),
            ToolStep::Select(statement) => ToolStepView::Select(statement@),
            ToolStep::Upsert(statement, handler) => ToolStepView::Upsert(statement@, handler@),
            ToolStep::Delete(statement) => ToolStepView::Delete(statement@),
            ToolStep::Fail(error) => ToolStepView::Fail(error@),
        }
    }
}

/// The name of the tool of each kind.
pub open spec fn tool_name_of(kind: FailureHandlerToolKind) -> Seq<char> {
    match kind {
        FailureHandlerToolKind::Get => GET_TURN_FAILURE_HANDLER_TOOL_NAME@,
        FailureHandlerToolKind::Configure => SET_TURN_FAILURE_HANDLER_TOOL_NAME@,
        FailureHandlerToolKind::Clear => CLEAR_TURN_FAILURE_HANDLER_TOOL_NAME@,
    }
}

/// What the model is told where the arguments of a call cannot be parsed.
pub open spec fn arguments_error(error: Seq<char>) -> Seq<char> {
    "invalid turn failure handler arguments: "@ + error
}

/// What the model is told where the handler cannot be read or written.
pub open spec fn storage_error(error: Seq<char>) -> Seq<char> {
    "turn failure handler storage failed: "@ + error
}

/// The first step of reading: the arguments have to be JSON, whatever they hold.
pub open spec fn get_step(thread_id: Seq<char>, check: Result<(), Seq<char>>) -> ToolStepView {
    match check {
        Ok(_) => ToolStepView::Select(store::select_statement(thread_id)),
        Err(error) => ToolStepView::Fail(arguments_error(error)),
    }
}

/// The first step of clearing: the arguments have to be JSON, whatever they hold.
pub open spec fn clear_step(thread_id: Seq<char>, check: Result<(), Seq<char>>) -> ToolStepView {
    match check {
        Ok(_) => ToolStepView::Delete(store::delete_statement(thread_id)),
        Err(error) => ToolStepView::Fail(arguments_error(error)),
    }
}

/// The arguments of a call that writes, as they were parsed, or the parser's error.
pub open spec fn set_args_view(args: Result<SetHandlerArgs, String>) -> Result<
    (Seq<char>, Option<u32>),
    Seq<char>,
> {
    match args {
        Ok(args) => Ok((args.instructions@, args.max_continuations)),
        Err(error) => Err(error@),
    }
}

/// The step of writing that follows the parsing of the arguments.
pub open spec fn set_step(
    thread_id: Seq<char>,
    args: Result<(Seq<char>, Option<u32>), Seq<char>>,
    updated_at: i64,
) -> ToolStepView {
    match args {
        Ok((instructions, max_continuations)) => match handler::requested_handler(
            instructions,
            max_continuations,
        ) {
            Ok(handler) => ToolStepView::Upsert(
                store::upsert_statement(thread_id, handler, updated_at),
                handler,
            ),
            Err(error) => ToolStepView::Fail(error),
        },
        Err(error) => ToolStepView::Fail(arguments_error(error)),
    }
}

/// What a call that reads reports.
pub open spec fn get_report(read: Result<Option<TurnFailureHandlerView>, StoreErrorView>) -> Result<
    HandlerResponseView,
    Seq<char>,
> {
    match read {
        Ok(handler) => Ok(HandlerResponseView { handler, cleared: None }),
        Err(error) => Err(storage_error(error.message())),
    }
}

/// What a call that writes reports.
pub open spec fn set_report(
    handler: TurnFailureHandlerView,
    written: Result<(), Seq<char>>,
) -> Result<HandlerResponseView, Seq<char>> {
    match written {
        Ok(_) => Ok(HandlerResponseView { handler: Some(handler), cleared: None }),
        Err(error) => Err(storage_error(error)),
    }
}

/// What a call that clears reports.
pub open spec fn clear_report(rows_affected: Result<u64, Seq<char>>) -> Result<
    HandlerResponseView,
    Seq<char>,
> {
    match rows_affected {
        Ok(rows) => Ok(HandlerResponseView { handler: None, cleared: Some(rows > 0) }),
        Err(error) => Err(storage_error(error)),
    }
}

/// A number of rows, or the database's error.
pub open spec fn rows_view(rows_affected: Result<u64, String>) -> Result<u64, Seq<char>> {
    match rows_affected {
        Ok(rows) => Ok(rows),
        Err(message) => Err(message@),
    }
}

/// Tells the model that the arguments of a call cannot be parsed.
pub fn invalid_arguments(error: &str) -> (told: FunctionCallError)
    ensures
        told@ == arguments_error(error@),
        told matches FunctionCallError::RespondToModel(text) && text@
            == "invalid turn failure handler arguments: "@ + error@,
{
    let mut text = "invalid turn failure handler arguments: ".to_owned();
    text.append(error);
    FunctionCallError::RespondToModel(text)
}

/// Tells the model that the handler cannot be read or written.
pub fn tool_error(error: StoreError) -> (told: FunctionCallError)
    ensures
        told@ == storage_error(error@.message()),
        told matches FunctionCallError::RespondToModel(text) && text@
            == "turn failure handler storage failed: "@ + match error {
            StoreError::Database(message) => message@,
            StoreError::MaxContinuationsOutOfRange =>
                "out of range integral type conversion attempted"@,
        },
{
    let mut text = "turn failure handler storage failed: ".to_owned();
    text.append(error.message().as_str());
    FunctionCallError::RespondToModel(text)
}

/// Hands the output of a call on, or tells the model why it cannot be written.
pub fn json_output<T>(output: Result<T, String>) -> (told: Result<T, FunctionCallError>)
    ensures
        match output {
            Ok(value) => told == Ok::<T, FunctionCallError>(value),
            Err(error) => told == Err::<T, FunctionCallError>(
                FunctionCallError::RespondToModel(error),
            ),
        },
{
    match output {
        Ok(value) => Ok(value),
        Err(error) => Err(FunctionCallError::RespondToModel(error)),
    }
}

impl FailureHandlerTool {
    /// The tool's name.
    pub fn tool_name(&self) -> (name: &'static str)
        ensures
            name@ == tool_name_of(self.kind),
    {
        match self.kind {
            FailureHandlerToolKind::Get => GET_TURN_FAILURE_HANDLER_TOOL_NAME,
            FailureHandlerToolKind::Configure => SET_TURN_FAILURE_HANDLER_TOOL_NAME,
            FailureHandlerToolKind::Clear => CLEAR_TURN_FAILURE_HANDLER_TOOL_NAME,
        }
    }

    /// How the tool presents itself: under its own name.
    pub fn spec(&self) -> (presented: ToolSpec)
        ensures
            presented@ == match self.kind {
                FailureHandlerToolKind::Get => tool_spec::get_tool(),
                FailureHandlerToolKind::Configure => tool_spec::set_tool(),
                FailureHandlerToolKind::Clear => tool_spec::clear_tool(),
            },
            presented@.name == tool_name_of(self.kind),
    {
        match self.kind {
            FailureHandlerToolKind::Get => get_tool_spec(),
            FailureHandlerToolKind::Configure => set_tool_spec(),
            FailureHandlerToolKind::Clear => clear_tool_spec(),
        }
    }

    /// The first step of a call with these arguments.
    pub fn handle(&self, arguments: &str) -> (step: ToolStep)
        ensures
            step@ == match self.kind {
                FailureHandlerToolKind::Get => get_step(
                    self.thread_id@,
                    json::json_value_check(arguments@),
                ),
                FailureHandlerToolKind::Configure => ToolStepView::ParseSetArguments(arguments@),
                FailureHandlerToolKind::Clear => clear_step(
                    self.thread_id@,
                    json::json_value_check(arguments@),
                ),
            },
            match self.kind {
                FailureHandlerToolKind::Get => step is Select || step is Fail,
                FailureHandlerToolKind::Configure => step matches ToolStep::ParseSetArguments(text)
                    && text@ == arguments@,
                FailureHandlerToolKind::Clear => step is Delete || step is Fail,
            },
            !(step is Fail) <==> self.kind == FailureHandlerToolKind::Configure
                || json::json_value_check(arguments@) is Ok,
    {
        match self.kind {
            FailureHandlerToolKind::Get => self.get(arguments),
            FailureHandlerToolKind::Configure => ToolStep::ParseSetArguments(arguments.to_owned()),
            FailureHandlerToolKind::Clear => self.clear(arguments),
        }
    }

    /// The first step of reading the handler.
    pub fn get(&self, arguments: &str) -> (step: ToolStep)
        ensures
            step@ == get_step(self.thread_id@, json::json_value_check(arguments@)),
    {
        self.get_checked(check_json_value(arguments))
    }

    /// The first step of reading the handler, once it is known whether the arguments are JSON.
    pub fn get_checked(&self, check: Result<(), String>) -> (step: ToolStep)
        ensures
            step@ == get_step(self.thread_id@, json::check_view(check)),
            step is Select <==> check is Ok,
            check matches Err(error) ==> step matches ToolStep::Fail(
                FunctionCallError::RespondToModel(text),
            ) && text@ == "invalid turn failure handler arguments: "@ + error@,
    {
        match check {
            Ok(_) => ToolStep::Select(self.store.get(&self.thread_id)),
            Err(error) => ToolStep::Fail(invalid_arguments(error.as_str())),
        }
    }

    /// The report on reading the handler, from the row that was found.
    pub fn get_reply(&self, row: Result<Option<(String, i64)>, String>) -> (report: Result<
        HandlerResponse,
        FunctionCallError,
    >)
        ensures
            outcome::viewed(report) == get_report(store::read_outcome(store::row_view(row))),
            match row {
                Ok(None) => report matches Ok(response) && response.handler is None
                    && response.cleared is None,
                Ok(Some((instructions, most))) => if 0 <= most <= 4294967295 {
                    &&& report matches Ok(response)
                    &&& response.cleared is None
                    &&& response.handler matches Some(handler)
                    &&& handler.instructions@ == instructions@
                    &&& handler.max_continuations == most
                } else {
                    &&& report matches Err(FunctionCallError::RespondToModel(text))
                    &&& text@ == "turn failure handler storage failed: "@
                        + "out of range integral type conversion attempted"@
                },
                Err(message) => {
                    &&& report matches Err(FunctionCallError::RespondToModel(text))
                    &&& text@ == "turn failure handler storage failed: "@ + message@
                },
            },
    {
        match self.store.get_reply(row) {
            Ok(Some(handler)) => Ok(
                HandlerResponse {
                    handler: Some(TurnFailureHandlerResponse::from(handler)),
                    cleared: None,
                },
            ),
            Ok(None) => Ok(HandlerResponse { handler: None, cleared: None }),
            Err(error) => Err(tool_error(error)),
        }
    }

    /// The step of writing the handler that follows the parsing of the arguments, as of now.
    pub fn set(&self, args: Result<SetHandlerArgs, String>) -> (step: ToolStep)
        ensures
            exists|updated_at: i64|
                step@ == #[trigger] set_step(self.thread_id@, set_args_view(args), updated_at),
    {
        let handler = match args {
            Ok(args) => args.into_handler(),
            Err(error) => Err(invalid_arguments(error.as_str())),
        };
        match handler {
            Ok(handler) => {
                let statement = self.store.set(&self.thread_id, &handler);
                let step = ToolStep::Upsert(statement, handler);
                proof {
                    let updated_at = choose|updated_at: i64|
                        statement@ == #[trigger] store::upsert_statement(
                            self.thread_id@,
                            handler@,
                            updated_at,
                        );
                    assert(step@ == set_step(self.thread_id@, set_args_view(args), updated_at));
                }
                step
            },
            Err(error) => {
                let step = ToolStep::Fail(error);
                assert(step@ == set_step(self.thread_id@, set_args_view(args), 0));
                step
            },
        }
    }

    /// The step of writing the handler that follows the parsing of the arguments, as of
    /// `updated_at`.
    pub fn set_at(&self, args: Result<SetHandlerArgs, String>, updated_at: i64) -> (step: ToolStep)
        ensures
            step@ == set_step(self.thread_id@, set_args_view(args), updated_at),
    {
        match args {
            Ok(args) => match args.into_handler() {
                Ok(handler) => ToolStep::Upsert(
                    self.store.set_at(&self.thread_id, &handler, updated_at),
                    handler,
                ),
                Err(error) => ToolStep::Fail(error),
            },
            Err(error) => ToolStep::Fail(invalid_arguments(error.as_str())),
        }
    }

    /// The report on writing the handler, from what the database handed back.
    pub fn set_reply(&self, handler: TurnFailureHandler, written: Result<(), String>) -> (report:
        Result<HandlerResponse, FunctionCallError>)
        ensures
            outcome::viewed(report) == set_report(handler@, json::check_view(written)),
            match written {
                Ok(_) => {
                    &&& report matches Ok(response)
                    &&& response.cleared is None
                    &&& response.handler matches Some(reported)
                    &&& reported.instructions@ == handler.instructions@
                    &&& reported.max_continuations == handler.max_continuations
                },
                Err(message) => {
                    &&& report matches Err(FunctionCallError::RespondToModel(text))
                    &&& text@ == "turn failure handler storage failed: "@ + message@
                },
            },
    {
        match self.store.set_reply(written) {
            Ok(_) => Ok(
                HandlerResponse {
                    handler: Some(TurnFailureHandlerResponse::from(handler)),
                    cleared: None,
                },
            ),
            Err(error) => Err(tool_error(error)),
        }
    }

    /// The first step of clearing the handler.
    pub fn clear(&self, arguments: &str) -> (step: ToolStep)
        ensures
            step@ == clear_step(self.thread_id@, json::json_value_check(arguments@)),
    {
        self.clear_checked(check_json_value(arguments))
    }

    /// The first step of clearing the handler, once it is known whether the arguments are JSON.
    pub fn clear_checked(&self, check: Result<(), String>) -> (step: ToolStep)
        ensures
            step@ == clear_step(self.thread_id@, json::check_view(check)),
            step is Delete <==> check is Ok,
            check matches Err(error) ==> step matches ToolStep::Fail(
                FunctionCallError::RespondToModel(text),
            ) && text@ == "invalid turn failure handler arguments: "@ + error@,
    {
        match check {
            Ok(_) => ToolStep::Delete(self.store.clear(&self.thread_id)),
            Err(error) => ToolStep::Fail(invalid_arguments(error.as_str())),
        }
    }

    /// The report on clearing the handler, from the number of rows that were removed.
    pub fn clear_reply(&self, rows_affected: Result<u64, String>) -> (report: Result<
        HandlerResponse,
        FunctionCallError,
    >)
        ensures
            outcome::viewed(report) == clear_report(rows_view(rows_affected)),
            match rows_affected {
                Ok(rows) => report matches Ok(response) && response.handler is None
                    && response.cleared == Some(rows > 0),
                Err(message) => {
                    &&& report matches Err(FunctionCallError::RespondToModel(text))
                    &&& text@ == "turn failure handler storage failed: "@ + message@
                },
            },
    {
        match self.store.clear_reply(rows_affected) {
            Ok(cleared) => Ok(HandlerResponse { handler: None, cleared: Some(cleared) }),
            Err(error) => Err(tool_error(error)),
        }
    }
}

/// The three tools have three names.
pub proof fn lemma_tool_names_differ(first: FailureHandlerToolKind, second: FailureHandlerToolKind)
    requires
        first != second,
    ensures
        tool_name_of(first) != tool_name_of(second),
{
    reveal_strlit("get_turn_failure_handler");
    reveal_strlit("set_turn_failure_handler");
    reveal_strlit("clear_turn_failure_handler");
    assert(GET_TURN_FAILURE_HANDLER_TOOL_NAME@[0] == 'g');
    assert(SET_TURN_FAILURE_HANDLER_TOOL_NAME@[0] == 's');
    assert(CLEAR_TURN_FAILURE_HANDLER_TOOL_NAME@[0] == 'c');
}

/// A call that asks for a handler against the rules fails with what is wrong with it, and no
/// statement is run.
pub proof fn lemma_rejected_set_runs_nothing(
    thread_id: Seq<char>,
    instructions: Seq<char>,
    max_continuations: Option<u32>,
    updated_at: i64,
)
    ensures
        handler::requested_handler(instructions, max_continuations) matches Err(error) ==> set_step(
            thread_id,
            Ok((instructions, max_continuations)),
            updated_at,
        ) == ToolStepView::Fail(error),
        set_step(thread_id, Ok((instructions, max_continuations)), updated_at) is Upsert
            <==> handler::requested_handler(instructions, max_continuations) is Ok,
{
}

/// A handler that a call has written is what a later call that reads reports, and what the
/// writing call itself reported.
pub proof fn lemma_get_reports_what_set_wrote(
    table: Map<Seq<char>, HandlerRow>,
    thread_id: Seq<char>,
    args: Result<(Seq<char>, Option<u32>), Seq<char>>,
    updated_at: i64,
)
    ensures
        set_step(thread_id, args, updated_at) matches ToolStepView::Upsert(statement, handler) ==> {
            &&& handler::valid_handler(handler)
            &&& get_report(table::stored_handler(table::executed(table, statement), thread_id))
                == set_report(handler, Ok(()))
            &&& set_report(handler, Ok(())) == Ok::<HandlerResponseView, Seq<char>>(
                HandlerResponseView { handler: Some(handler), cleared: None },
            )
        },
{
    if let Ok((instructions, max_continuations)) = args {
        handler::lemma_requested_handler_is_valid(instructions, max_continuations);
        if let Ok(handler) = handler::requested_handler(instructions, max_continuations) {
            table::lemma_get_after_set(table, thread_id, handler, updated_at);
        }
    }
}

/// A call that clears reports whether there was a handler, and a later call that reads finds
/// none.
pub proof fn lemma_clear_reports_what_was_there(
    table: Map<Seq<char>, HandlerRow>,
    thread_id: Seq<char>,
)
    ensures
        ({
            let statement = store::delete_statement(thread_id);
            let had_row = table.contains_key(thread_id);
            &&& clear_report(Ok(table::rows_removed(table, statement))) == Ok::<
                HandlerResponseView,
                Seq<char>,
            >(HandlerResponseView { handler: None, cleared: Some(had_row) })
            &&& get_report(table::stored_handler(table::executed(table, statement), thread_id))
                == Ok::<HandlerResponseView, Seq<char>>(
                HandlerResponseView { handler: None, cleared: None },
            )
        }),
{
    table::lemma_get_after_clear(table, thread_id);
}

/// The tools go by the names that the model calls them by.
pub proof fn lemma_tool_names(kind: FailureHandlerToolKind)
    ensures
        tool_name_of(kind) == match kind {
            FailureHandlerToolKind::Get => "get_turn_failure_handler"@,
            FailureHandlerToolKind::Configure => "set_turn_failure_handler"@,
            FailureHandlerToolKind::Clear => "clear_turn_failure_handler"@,
        },
{
}

/// A call that clears, whatever JSON its arguments are, runs a statement that leaves its thread
/// without a row and every other thread's row as it was, counts a row if and only if the thread
/// had one, and reports just that. A call whose arguments are no JSON runs nothing, and the model
/// is told the parser's error.
pub proof fn lemma_clear_call_clears(
    table: Map<Seq<char>, HandlerRow>,
    thread_id: Seq<char>,
    check: Result<(), String>,
)
    ensures
        ({
            let step = clear_step(thread_id, json::check_view(check));
            &&& check is Ok ==> step is Delete
            &&& step matches ToolStepView::Delete(statement) ==> {
                let after = table::executed(table, statement);
                let rows = table::rows_removed(table, statement);
                &&& check is Ok
                &&& !after.contains_key(thread_id)
                &&& forall|other: Seq<char>|
                    other != thread_id ==> #[trigger] after.contains_key(other)
                        == table.contains_key(other) && (table.contains_key(other) ==> after[other]
                        == table[other])
                &&& rows > 0 <==> table.contains_key(thread_id)
                &&& clear_report(rows_view(Ok(rows))) == Ok::<HandlerResponseView, Seq<char>>(
                    HandlerResponseView {
                        handler: None,
                        cleared: Some(table.contains_key(thread_id)),
                    },
                )
            }
            &&& check matches Err(error) ==> step == ToolStepView::Fail(
                "invalid turn failure handler arguments: "@ + error@,
            )
        }),
{
    table::lemma_statements_differ();
}

/// A call that reads, whatever JSON its arguments are, runs a statement that changes nothing and
/// reports what its thread's row holds: nothing where there is none, the prose and the number of
/// the row where the number is one that a handler can have, and an error otherwise. A call whose
/// arguments are no JSON runs nothing, and the model is told the parser's error.
pub proof fn lemma_get_call_reads(
    table: Map<Seq<char>, HandlerRow>,
    thread_id: Seq<char>,
    check: Result<(), String>,
)
    ensures
        ({
            let step = get_step(thread_id, json::check_view(check));
            &&& check is Ok ==> step is Select
            &&& step matches ToolStepView::Select(statement) ==> {
                let report = get_report(
                    store::read_outcome(Ok(table::selected(table, statement))),
                );
                let row = table[thread_id];
                let in_range = 0 <= row.max_continuations <= 4294967295;
                &&& check is Ok
                &&& table::executed(table, statement) == table
                &&& !table.contains_key(thread_id) ==> report == Ok::<
                    HandlerResponseView,
                    Seq<char>,
                >(HandlerResponseView { handler: None, cleared: None })
                &&& table.contains_key(thread_id) && in_range ==> {
                    &&& report matches Ok(response)
                    &&& response.cleared is None
                    &&& response.handler matches Some(handler)
                    &&& handler.instructions == row.instructions
                    &&& handler.max_continuations == row.max_continuations
                }
                &&& table.contains_key(thread_id) && !in_range ==> report is Err
            }
            &&& check matches Err(error) ==> step == ToolStepView::Fail(
                "invalid turn failure handler arguments: "@ + error@,
            )
        }),
{
    table::lemma_statements_differ();
}

/// A call that writes, with arguments that ask for a handler that the rules allow, runs a
/// statement that puts this handler and the time into its thread's row and leaves every other
/// thread's row as it was. With arguments against the rules, or none that can be parsed, it runs
/// nothing, and the model is told what is wrong.
pub proof fn lemma_set_call_writes(
    table: Map<Seq<char>, HandlerRow>,
    thread_id: Seq<char>,
    args: Result<SetHandlerArgs, String>,
    updated_at: i64,
)
    ensures
        ({
            let step = set_step(thread_id, set_args_view(args), updated_at);
            &&& args matches Ok(asked) ==> match handler::requested_handler(
                asked.instructions@,
                asked.max_continuations,
            ) {
                Ok(wanted) => {
                    &&& step matches ToolStepView::Upsert(statement, handler)
                    &&& handler == wanted
                    &&& {
                        let after = table::executed(table, statement);
                        &&& after.contains_key(thread_id)
                        &&& after[thread_id].instructions == wanted.instructions
                        &&& after[thread_id].max_continuations == wanted.max_continuations
                        &&& after[thread_id].updated_at == updated_at
                        &&& forall|other: Seq<char>|
                            other != thread_id ==> #[trigger] after.contains_key(other)
                                == table.contains_key(other) && (table.contains_key(other)
                                ==> after[other] == table[other])
                    }
                },
                Err(error) => step == ToolStepView::Fail(error),
            }
            &&& args matches Err(error) ==> step == ToolStepView::Fail(
                "invalid turn failure handler arguments: "@ + error@,
            )
        }),
{
}

/// What a call that has run its statement reports: where the database failed, the database's
/// error; for a call that writes, the handler; for one that clears, whether a row was removed.
pub proof fn lemma_reports(
    handler: TurnFailureHandlerView,
    written: Result<(), String>,
    rows_affected: Result<u64, String>,
    row: Result<Option<(String, i64)>, String>,
)
    ensures
        written is Ok ==> set_report(handler, json::check_view(written)) == Ok::<
            HandlerResponseView,
            Seq<char>,
        >(HandlerResponseView { handler: Some(handler), cleared: None }),
        written matches Err(message) ==> set_report(handler, json::check_view(written)) == Err::<
            HandlerResponseView,
            Seq<char>,
        >("turn failure handler storage failed: "@ + message@),
        rows_affected matches Ok(rows) ==> clear_report(rows_view(rows_affected)) == Ok::<
            HandlerResponseView,
            Seq<char>,
        >(HandlerResponseView { handler: None, cleared: Some(rows != 0) }),
        rows_affected matches Err(message) ==> clear_report(rows_view(rows_affected)) == Err::<
            HandlerResponseView,
            Seq<char>,
        >("turn failure handler storage failed: "@ + message@),
        row matches Err(message) ==> get_report(store::read_outcome(store::row_view(row))) == Err::<
            HandlerResponseView,
            Seq<char>,
        >("turn failure handler storage failed: "@ + message@),
{
}

/// A thread's calls are about its own handler: what one thread writes or clears, a call of another
/// thread that reads does not see.
pub proof fn lemma_calls_of_threads_are_separate(
    table: Map<Seq<char>, HandlerRow>,
    thread_id: Seq<char>,
    other: Seq<char>,
    args: Result<SetHandlerArgs, String>,
    updated_at: i64,
)
    requires
        thread_id != other,
    ensures
        set_step(thread_id, set_args_view(args), updated_at) matches ToolStepView::Upsert(
            statement,
            _,
        ) ==> table::stored_handler(table::executed(table, statement), other)
            == table::stored_handler(table, other),
        clear_step(thread_id, Ok(())) matches ToolStepView::Delete(statement)
            && table::stored_handler(table::executed(table, statement), other)
            == table::stored_handler(table, other),
{
    table::lemma_statements_differ();
}

/// The model of a step says what the step says: which kind it is, the text, the statement or the
/// handler that it holds, and what the model is told where it fails.
pub proof fn lemma_model_is_of_its_step(step: ToolStep)
    ensures
        step matches ToolStep::ParseSetArguments(arguments) ==> step@
            == ToolStepView::ParseSetArguments(arguments@),
        step matches ToolStep::Select(statement) ==> step@ == ToolStepView::Select(statement@),
        step matches ToolStep::Upsert(statement, handler) ==> {
            &&& step@ matches ToolStepView::Upsert(run, written)
            &&& run == statement@
            &&& written.instructions == handler.instructions@
            &&& written.max_continuations == handler.max_continuations
        },
        step matches ToolStep::Delete(statement) ==> step@ == ToolStepView::Delete(statement@),
        step matches ToolStep::Fail(FunctionCallError::RespondToModel(text)) ==> step@
            == ToolStepView::Fail(text@),
{
}

} // verus!

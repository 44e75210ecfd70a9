//! Whether a turn goes on after a failed request, and with what.

use crate::failure::{CodexErrorInfo, TurnFailureContinuation};
use crate::handler;
use crate::handler::{TurnFailureHandlerView, MAX_CONTINUATIONS};
use crate::outcome;
use crate::store;
use crate::store::{SqlStatement, StoreErrorView, TurnFailureHandlerStore};
use crate::table;
use crate::table::HandlerRow;
use crate::thread_id::ThreadId;
use crate::tools;
use crate::tools::{FailureHandlerTool, FailureHandlerToolKind, ToolStepView};
use crate::trim;
use vstd::prelude::*;
use vstd::string::*;

verus! {

/// Data that extensions keep for a session, a thread or a turn, as far as failure handling reads
/// it: the identity of what the data belongs to.
#[derive(Debug, PartialEq, Eq)]
pub struct ExtensionData {
    level_id: String,
}

impl View for ExtensionData {
    type V = Seq<char>;

    closed spec fn view(&self) -> Seq<char> {
        self.level_id@
    }
}

impl ExtensionData {
    /// Data for what `level_id` names.
    pub fn new(level_id: &str) -> (data: Self)
        ensures
            data@ == level_id@,
    {
        ExtensionData { level_id: level_id.to_owned() }
    }

    /// The identity of what the data belongs to.
    pub fn level_id(&self) -> (level_id: &str)
        ensures
            level_id@ == self@,
    {
        self.level_id.as_str()
    }
}

/// Input supplied when a model request has failed and the host can still continue the turn.
pub struct TurnFailureInput<'a> {
    /// Identifier of the logical turn whose request failed.
    pub turn_id: &'a str,
    /// Structured error classification exposed by the host.
    pub error: CodexErrorInfo,
    /// Human-readable error returned by the failed request.
    pub message: &'a str,
    /// Extension data scoped to the session.
    pub session_store: &'a ExtensionData,
    /// Extension data scoped to the thread.
    pub thread_store: &'a ExtensionData,
    /// Extension data scoped to this logical turn.
    pub turn_store: &'a ExtensionData,
}

/// How often the requests of a logical turn have failed with a handler at hand.
#[derive(Debug, PartialEq, Eq)]
pub struct TurnFailureAttemptCounter {
    attempts: u32,
}

impl View for TurnFailureAttemptCounter {
    type V = nat;

    closed spec fn view(&self) -> nat {
        self.attempts as nat
    }
}

impl Default for TurnFailureAttemptCounter {
    /// The counter of a turn that has just begun.
    fn default() -> (counter: Self)
        ensures
            counter@ == 0,
    {
        TurnFailureAttemptCounter { attempts: 0 }
    }
}

impl TurnFailureAttemptCounter {
    /// Tells whether another attempt can be counted.
    pub fn can_count(&self) -> (yes: bool)
        ensures
            yes == (self@ < u32::MAX),
    {
        self.attempts < u32::MAX
    }

    /// Counts another attempt, and says which it is.
    pub fn count(&mut self) -> (attempt: u32)
        requires
            old(self)@ < u32::MAX,
        ensures
            attempt == old(self)@ + 1,
            final(self)@ == old(self)@ + 1,
    {
        self.attempts = self.attempts + 1;
        self.attempts
    }
}

/// What a [`TurnFailureContinuation`] says.
pub struct TurnFailureContinuationView {
    /// The user's prose.
    pub instructions: Seq<char>,
    /// Which continuation of the turn it is, from one.
    pub attempt: nat,
    /// The most continuations that the handler allows.
    pub max_continuations: nat,
}

impl View for TurnFailureContinuation {
    type V = TurnFailureContinuationView;

    open spec fn view(&self) -> TurnFailureContinuationView {
        TurnFailureContinuationView {
            instructions: self.instructions@,
            attempt: self.attempt as nat,
            max_continuations: self.max_continuations as nat,
        }
    }
}

/// What a failure comes to, after `attempts` earlier ones with a handler at hand: how many there
/// are with it, and how the turn goes on, where it does. A failure counts only where a handler
/// could be read, and counts even where the handler allows no more attempts.
pub open spec fn continued(
    attempts: nat,
    read: Result<Option<TurnFailureHandlerView>, StoreErrorView>,
) -> (nat, Option<TurnFailureContinuationView>) {
    match read {
        Ok(Some(handler)) => {
            let attempt = attempts + 1;
            if attempt > handler.max_continuations {
                (attempt, None)
            } else {
                (
                    attempt,
                    Some(
                        TurnFailureContinuationView {
                            instructions: handler.instructions,
                            attempt,
                            max_continuations: handler.max_continuations as nat,
                        },
                    ),
                )
            }
        },
        _ => (attempts, None),
    }
}

/// The extension that handles the failures of turns.
#[derive(Clone, Copy, Debug, PartialEq, Eq)]
pub struct TurnFailureHandlerExtension {
    /// Where handlers are kept.
    pub store: TurnFailureHandlerStore,
}

impl TurnFailureHandlerExtension {
    /// The text that has to name the thread whose handler is to be read for a failure.
    pub fn thread_of<'a>(&self, input: &TurnFailureInput<'a>) -> (thread: &'a str)
        ensures
            thread@ == input.thread_store@,
    {
        input.thread_store.level_id()
    }

    /// The statement that reads the thread's handler, where the failure is of a thread at all.
    pub fn lookup(&self, thread_id: &Option<ThreadId>) -> (statement: Option<SqlStatement>)
        ensures
            outcome::viewed_option(statement) == match *thread_id {
                Some(thread_id) => Some(store::select_statement(thread_id@)),
                None => None,
            },
            statement is Some <==> thread_id is Some,
    {
        match thread_id {
            Some(thread_id) => Some(self.store.get(thread_id)),
            None => None,
        }
    }

    /// How the turn goes on after a failure, from the row that the lookup found and the turn's
    /// counter. A handler that cannot be read is no handler.
    pub fn continuation(
        &self,
        row: Result<Option<(String, i64)>, String>,
        counter: &mut TurnFailureAttemptCounter,
    ) -> (continuation: Option<TurnFailureContinuation>)
        requires
            store::read_outcome(store::row_view(row)) matches Ok(Some(_)) ==> old(counter)@
                < u32::MAX,
        ensures
            (final(counter)@, outcome::viewed_option(continuation)) == continued(
                old(counter)@,
                store::read_outcome(store::row_view(row)),
            ),
            final(counter)@ == match row {
                Ok(Some((_, most))) => if 0 <= most <= 4294967295 {
                    old(counter)@ + 1
                } else {
                    old(counter)@
                },
                _ => old(counter)@,
            },
            continuation is Some <==> (row matches Ok(Some((_, most))) && old(counter)@ < most
                <= 4294967295),
            continuation matches Some(next) ==> {
                &&& row matches Ok(Some((instructions, most)))
                &&& next.instructions@ == instructions@
                &&& next.attempt == old(counter)@ + 1
                &&& next.max_continuations == most
                &&& next.attempt <= most
            },
    {
        match self.store.get_reply(row) {
            Ok(Some(handler)) => {
                let attempt: u32 = counter.count();
                if attempt > handler.max_continuations {
                    return None;
                }
                Some(
                    TurnFailureContinuation {
                        instructions: handler.instructions,
                        attempt,
                        max_continuations: handler.max_continuations,
                    },
                )
            },
            _ => None,
        }
    }

    /// The tools that a thread gets: one of each kind, on its own handler; none where the text
    /// names no thread.
    pub fn tools(&self, thread_id: &Option<ThreadId>) -> (tools: Vec<FailureHandlerTool>)
        ensures
            match *thread_id {
                Some(thread_id) => {
                    &&& tools@.len() == 3
                    &&& tools@[0].kind == FailureHandlerToolKind::Get
                    &&& tools@[1].kind == FailureHandlerToolKind::Configure
                    &&& tools@[2].kind == FailureHandlerToolKind::Clear
                    &&& forall|i: int|
                        0 <= i < 3 ==> (#[trigger] tools@[i]).thread_id == thread_id
                            && tools@[i].store == self.store
                },
                None => tools@.len() == 0,
            },
    {
        match thread_id {
            Some(thread_id) => vec![
                FailureHandlerTool {
                    kind: FailureHandlerToolKind::Get,
                    thread_id: thread_id.clone(),
                    store: self.store,
                },
                FailureHandlerTool {
                    kind: FailureHandlerToolKind::Configure,
                    thread_id: thread_id.clone(),
                    store: self.store,
                },
                FailureHandlerTool {
                    kind: FailureHandlerToolKind::Clear,
                    thread_id: thread_id.clone(),
                    store: self.store,
                },
            ],
            None => Vec::new(),
        }
    }
}

/// The counter of a turn after the failures whose handlers were read as `reads` says.
pub open spec fn attempts_after(
    reads: Seq<Result<Option<TurnFailureHandlerView>, StoreErrorView>>,
) -> nat
    decreases reads.len(),
{
    if reads.len() == 0 {
        0
    } else {
        continued(attempts_after(reads.drop_last()), reads.last()).0
    }
}

/// How often a turn goes on in all.
pub open spec fn continuations_granted(
    reads: Seq<Result<Option<TurnFailureHandlerView>, StoreErrorView>>,
) -> nat
    decreases reads.len(),
{
    if reads.len() == 0 {
        0
    } else {
        let granted = continuations_granted(reads.drop_last());
        if continued(attempts_after(reads.drop_last()), reads.last()).1 is Some {
            granted + 1
        } else {
            granted
        }
    }
}

/// A continuation is numbered from one to the most that its handler allows, and carries the
/// handler's instructions as they are.
pub proof fn lemma_continuation_is_numbered(
    attempts: nat,
    read: Result<Option<TurnFailureHandlerView>, StoreErrorView>,
)
    ensures
        continued(attempts, read).1 matches Some(continuation) ==> {
            &&& read matches Ok(Some(handler))
            &&& continuation.instructions == handler.instructions
            &&& continuation.max_continuations == handler.max_continuations
            &&& continuation.attempt == attempts + 1
            &&& 1 <= continuation.attempt <= continuation.max_continuations
        },
{
}

/// However often the requests of a turn fail, and whatever handlers are read for it, the turn
/// goes on no more often than the most generous of them allows.
pub proof fn lemma_continuations_bounded(
    reads: Seq<Result<Option<TurnFailureHandlerView>, StoreErrorView>>,
    most: nat,
)
    requires
        forall|i: int|
            0 <= i < reads.len() ==> ((#[trigger] reads[i]) matches Ok(Some(handler))
                ==> handler.max_continuations <= most),
    ensures
        continuations_granted(reads) <= most,
        continuations_granted(reads) <= attempts_after(reads),
    decreases reads.len(),
{
    if reads.len() > 0 {
        let earlier = reads.drop_last();
        assert forall|i: int| 0 <= i < earlier.len() implies ((#[trigger] earlier[i]) matches Ok(
            Some(handler),
        ) ==> handler.max_continuations <= most) by {
            assert(earlier[i] == reads[i]);
        }
        lemma_continuations_bounded(earlier, most);
        assert(reads[reads.len() - 1] == reads.last());
    }
}

/// With one handler throughout, the first failures of a turn are continued as attempts one, two
/// and so on, up to the most that the handler allows, and no later failure is.
pub proof fn lemma_attempts_in_order(handler: TurnFailureHandlerView, failures: nat)
    ensures
        ({
            let read = Ok::<Option<TurnFailureHandlerView>, StoreErrorView>(Some(handler));
            let reads = Seq::new(failures, |i: int| read);
            let next = continued(attempts_after(reads), read).1;
            &&& attempts_after(reads) == failures
            &&& next is Some <==> failures + 1 <= handler.max_continuations
            &&& next matches Some(continuation) ==> continuation.attempt == failures + 1
            &&& continuations_granted(reads) == if failures <= handler.max_continuations {
                failures
            } else {
                handler.max_continuations as nat
            }
        }),
    decreases failures,
{
    let read = Ok::<Option<TurnFailureHandlerView>, StoreErrorView>(Some(handler));
    let reads = Seq::new(failures, |i: int| read);
    if failures > 0 {
        let fewer = (failures - 1) as nat;
        lemma_attempts_in_order(handler, fewer);
        assert(reads.drop_last() =~= Seq::new(fewer, |i: int| read));
    }
}

/// A handler that the user has configured is followed: after the call that writes it, a failure in
/// the thread is continued with the user's trimmed prose as long as the turn has had fewer
/// attempts than the handler allows, which are never more than the most allowed of any handler.
pub proof fn lemma_configured_handler_is_followed(
    table: Map<Seq<char>, HandlerRow>,
    thread_id: Seq<char>,
    instructions: Seq<char>,
    max_continuations: Option<u32>,
    updated_at: i64,
    attempts: nat,
)
    ensures
        tools::set_step(
            thread_id,
            Ok((instructions, max_continuations)),
            updated_at,
        ) matches ToolStepView::Upsert(statement, handler) ==> {
            let read = table::stored_handler(table::executed(table, statement), thread_id);
            &&& handler.max_continuations <= MAX_CONTINUATIONS
            &&& continued(attempts, read) == if attempts < handler.max_continuations {
                (
                    attempts + 1,
                    Some(
                        TurnFailureContinuationView {
                            instructions: trim::trimmed(instructions),
                            attempt: attempts + 1,
                            max_continuations: handler.max_continuations as nat,
                        },
                    ),
                )
            } else {
                (attempts + 1, None)
            }
        },
{
    if let Ok(handler) = handler::requested_handler(instructions, max_continuations) {
        handler::lemma_requested_handler_is_valid(instructions, max_continuations);
        table::lemma_get_after_set(table, thread_id, handler, updated_at);
    }
}

/// A failure is counted if and only if a handler was read for it, and continued if and only if a
/// handler was read that allows more attempts than there were before: then with the handler's
/// prose, as the next attempt, out of as many as the handler allows.
pub proof fn lemma_failure_is_counted_and_continued(
    attempts: nat,
    row: Result<Option<(String, i64)>, String>,
)
    ensures
        ({
            let (after, continuation) = continued(
                attempts,
                store::read_outcome(store::row_view(row)),
            );
            let has_handler = row matches Ok(Some((_, most))) && 0 <= most <= 4294967295;
            &&& after == if has_handler {
                attempts + 1
            } else {
                attempts
            }
            &&& continuation is Some <==> (row matches Ok(Some((_, most))) && attempts < most
                <= 4294967295)
            &&& continuation matches Some(next) ==> {
                &&& row matches Ok(Some((instructions, most)))
                &&& next.instructions == instructions@
                &&& next.attempt == attempts + 1
                &&& next.max_continuations == most
            }
        }),
{
}

/// A handler that was cleared is not followed: after the call that clears it, a failure in the
/// thread is neither counted nor continued.
pub proof fn lemma_cleared_handler_is_not_followed(
    table: Map<Seq<char>, HandlerRow>,
    thread_id: Seq<char>,
    attempts: nat,
)
    ensures
        tools::clear_step(thread_id, Ok(())) matches ToolStepView::Delete(statement) && continued(
            attempts,
            table::stored_handler(table::executed(table, statement), thread_id),
        ) == (attempts, None::<TurnFailureContinuationView>),
{
    table::lemma_get_after_clear(table, thread_id);
}

} // verus!

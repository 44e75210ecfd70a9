//! Unloading a thread on request.
//!
//! A request goes by steps. The state of the request says what is to be found out or done next;
//! the caller does it and reports back with an event.

use crate::thread_id::ThreadId;
use vstd::prelude::*;
use vstd::string::*;

verus! {

/// What came of a request to unload a thread.
#[derive(Clone, Copy, Debug, PartialEq, Eq, Structural)]
pub enum ThreadUnloadStatus {
    /// The thread is being unloaded already.
    Unloading,
    /// The thread is not loaded.
    NotLoaded,
    /// Connections are subscribed to the thread, so it stays.
    HasSubscribers,
    /// The thread is at work, so it stays.
    Active,
    /// The thread has been unloaded.
    Unloaded,
}

/// The response to a request to unload a thread.
#[derive(Clone, Copy, Debug, PartialEq, Eq, Structural)]
pub struct ThreadUnloadResponse {
    /// What came of the request.
    pub status: ThreadUnloadStatus,
}

/// An error that is sent back for a request.
#[derive(Debug, PartialEq, Eq)]
pub enum JSONRPCErrorError {
    /// The request is not one that can be served.
    InvalidRequest(String),
    /// The request could not be served.
    InternalError(String),
}

/// What a [`JSONRPCErrorError`] says.
pub enum RequestErrorView {
    /// The request is not one that can be served.
    InvalidRequest(Seq<char>),
    /// The request could not be served.
    InternalError(Seq<char>),
}

impl View for JSONRPCErrorError {
    type V = RequestErrorView;

    open spec fn view(&self) -> RequestErrorView {
        match self {
            JSONRPCErrorError::InvalidRequest(message) => RequestErrorView::InvalidRequest(
                message@,
            ),
            JSONRPCErrorError::InternalError(message) => RequestErrorView::InternalError(message@),
        }
    }
}

/// The status under which a thread is watched.
#[derive(Clone, Copy, Debug, PartialEq, Eq, Structural)]
pub enum ThreadStatus {
    /// The thread is at work.
    Active,
    /// The thread is not at work.
    Inactive,
}

/// The status of a thread's agent.
#[derive(Clone, Copy, Debug, PartialEq, Eq, Structural)]
pub enum AgentStatus {
    /// The agent runs.
    Running,
    /// The agent does not run.
    NotRunning,
}

/// How the unloading of a thread ended.
#[derive(Clone, Copy, Debug, PartialEq, Eq, Structural)]
pub enum ThreadUnloadResult {
    /// The thread is gone.
    Complete,
    /// Another thread took its place in the meantime.
    Replaced,
    /// The thread could not be told to shut down.
    SubmitFailed,
    /// The thread did not shut down in time.
    TimedOut,
}

/// How far a request has come, and what it needs next.
///
/// From [`CheckPending`](UnloadState::CheckPending) on, the lock on the set of threads that are
/// being unloaded is held. It is given back where [`TearDown`](UnloadState::TearDown) begins,
/// when [`MarkPending`](UnloadState::MarkPending) is done, and at the end.
#[derive(Debug, PartialEq, Eq)]
pub enum UnloadState {
    /// Take the lock, and see whether the thread is being unloaded already.
    CheckPending(ThreadId),
    /// Find the thread among those that are loaded.
    FindThread(ThreadId),
    /// Give the lock back, and remove what is left of a thread that is not loaded.
    TearDown(ThreadId),
    /// Count the connections that are subscribed to the thread.
    CountSubscribers(ThreadId),
    /// Read the status under which the thread is watched.
    ReadWatchedStatus(ThreadId),
    /// Read the status of the thread's agent.
    ReadAgentStatus(ThreadId),
    /// Add the thread to those that are being unloaded, and give the lock back.
    MarkPending(ThreadId),
    /// Unload the thread.
    Unload(ThreadId),
    /// Send this back.
    Done(Result<ThreadUnloadResponse, JSONRPCErrorError>),
}

/// What an [`UnloadState`] is.
pub enum UnloadStateView {
    /// See whether the thread is being unloaded already.
    CheckPending(Seq<char>),
    /// Find the thread among those that are loaded.
    FindThread(Seq<char>),
    /// Remove what is left of a thread that is not loaded.
    TearDown(Seq<char>),
    /// Count the connections that are subscribed to the thread.
    CountSubscribers(Seq<char>),
    /// Read the status under which the thread is watched.
    ReadWatchedStatus(Seq<char>),
    /// Read the status of the thread's agent.
    ReadAgentStatus(Seq<char>),
    /// Add the thread to those that are being unloaded.
    MarkPending(Seq<char>),
    /// Unload the thread.
    Unload(Seq<char>),
    /// Send this back.
    Done(Result<ThreadUnloadStatus, RequestErrorView>),
}

impl View for UnloadState {
    type V = UnloadStateView;

    open spec fn view(&self) -> UnloadStateView {
        match self {
            UnloadState::CheckPending(thread_id) => UnloadStateView::CheckPending(thread_id@),
            UnloadState::FindThread(thread_id) => UnloadStateView::FindThread(thread_id@),
            UnloadState::TearDown(thread_id) => UnloadStateView::TearDown(thread_id@),
            UnloadState::CountSubscribers(thread_id) => UnloadStateView::CountSubscribers(
                thread_id@,
            ),
            UnloadState::ReadWatchedStatus(thread_id) => UnloadStateView::ReadWatchedStatus(
                thread_id@,
            ),
            UnloadState::ReadAgentStatus(thread_id) => UnloadStateView::ReadAgentStatus(thread_id@),
            UnloadState::MarkPending(thread_id) => UnloadStateView::MarkPending(thread_id@),
            UnloadState::Unload(thread_id) => UnloadStateView::Unload(thread_id@),
            UnloadState::Done(Ok(response)) => UnloadStateView::Done(Ok(response.status)),
            UnloadState::Done(Err(error)) => UnloadStateView::Done(Err(error@)),
        }
    }
}

/// What was found out or done for a request.
#[derive(Clone, Copy, Debug, PartialEq, Eq, Structural)]
pub enum UnloadEvent {
    /// Whether the thread is being unloaded already.
    Pending(bool),
    /// Whether the thread is loaded.
    Loaded(bool),
    /// What was left of the thread is removed.
    TornDown,
    /// How many connections are subscribed to the thread.
    Subscribers(usize),
    /// The status under which the thread is watched, where it is.
    Watched(Option<ThreadStatus>),
    /// The status of the thread's agent.
    Agent(AgentStatus),
    /// The thread is marked as being unloaded.
    Marked,
    /// How the unloading ended.
    Ended(ThreadUnloadResult),
}

/// The state of a new request, from the thread that it names or why it names none.
pub open spec fn begun(thread_id: Result<Seq<char>, Seq<char>>) -> UnloadStateView {
    match thread_id {
        Ok(thread_id) => UnloadStateView::CheckPending(thread_id),
        Err(error) => UnloadStateView::Done(
            Err(RequestErrorView::InvalidRequest("invalid thread id: "@ + error)),
        ),
    }
}

/// The thread that a request names, or why it names none.
pub open spec fn named_thread(thread_id: Result<ThreadId, String>) -> Result<Seq<char>, Seq<char>> {
    match thread_id {
        Ok(thread_id) => Ok(thread_id@),
        Err(error) => Err(error@),
    }
}

/// What is sent back for how an unloading ended.
pub open spec fn ended(thread_id: Seq<char>, result: ThreadUnloadResult) -> Result<
    ThreadUnloadStatus,
    RequestErrorView,
> {
    match result {
        ThreadUnloadResult::Complete => Ok(ThreadUnloadStatus::Unloaded),
        ThreadUnloadResult::Replaced => Err(
            RequestErrorView::InternalError(
                "thread "@ + thread_id + " was replaced while unloading"@,
            ),
        ),
        ThreadUnloadResult::SubmitFailed => Err(
            RequestErrorView::InternalError("failed to submit Shutdown to thread "@ + thread_id),
        ),
        ThreadUnloadResult::TimedOut => Err(
            RequestErrorView::InternalError("thread "@ + thread_id + " shutdown timed out"@),
        ),
    }
}

/// The state after an event. An event that does not answer what the state asks for changes
/// nothing.
pub open spec fn stepped(state: UnloadStateView, event: UnloadEvent) -> UnloadStateView {
    match (state, event) {
        (UnloadStateView::CheckPending(thread_id), UnloadEvent::Pending(pending)) => if pending {
            UnloadStateView::Done(Ok(ThreadUnloadStatus::Unloading))
        } else {
            UnloadStateView::FindThread(thread_id)
        },
        (UnloadStateView::FindThread(thread_id), UnloadEvent::Loaded(loaded)) => if loaded {
            UnloadStateView::CountSubscribers(thread_id)
        } else {
            UnloadStateView::TearDown(thread_id)
        },
        (UnloadStateView::TearDown(_), UnloadEvent::TornDown) => UnloadStateView::Done(
            Ok(ThreadUnloadStatus::NotLoaded),
        ),
        (UnloadStateView::CountSubscribers(thread_id), UnloadEvent::Subscribers(count)) => if count
            > 0 {
            UnloadStateView::Done(Ok(ThreadUnloadStatus::HasSubscribers))
        } else {
            UnloadStateView::ReadWatchedStatus(thread_id)
        },
        (UnloadStateView::ReadWatchedStatus(thread_id), UnloadEvent::Watched(status)) => if status
            == Some(ThreadStatus::Active) {
            UnloadStateView::Done(Ok(ThreadUnloadStatus::Active))
        } else {
            UnloadStateView::ReadAgentStatus(thread_id)
        },
        (UnloadStateView::ReadAgentStatus(thread_id), UnloadEvent::Agent(status)) => if status
            == AgentStatus::Running {
            UnloadStateView::Done(Ok(ThreadUnloadStatus::Active))
        } else {
            UnloadStateView::MarkPending(thread_id)
        },
        (UnloadStateView::MarkPending(thread_id), UnloadEvent::Marked) => UnloadStateView::Unload(
            thread_id,
        ),
        (UnloadStateView::Unload(thread_id), UnloadEvent::Ended(result)) => UnloadStateView::Done(
            ended(thread_id, result),
        ),
        (state, _) => state,
    }
}

/// What is sent back for how the unloading of `thread_id` ended.
pub fn unload_response(thread_id: &ThreadId, result: ThreadUnloadResult) -> (response: Result<
    ThreadUnloadResponse,
    JSONRPCErrorError,
>)
    ensures
        UnloadState::Done(response)@ == UnloadStateView::Done(ended(thread_id@, result)),
        match result {
            ThreadUnloadResult::Complete => response matches Ok(sent) && sent.status
                == ThreadUnloadStatus::Unloaded,
            ThreadUnloadResult::Replaced => response matches Err(
                JSONRPCErrorError::InternalError(message),
            ) && message@ == "thread "@ + thread_id@ + " was replaced while unloading"@,
            ThreadUnloadResult::SubmitFailed => response matches Err(
                JSONRPCErrorError::InternalError(message),
            ) && message@ == "failed to submit Shutdown to thread "@ + thread_id@,
            ThreadUnloadResult::TimedOut => response matches Err(
                JSONRPCErrorError::InternalError(message),
            ) && message@ == "thread "@ + thread_id@ + " shutdown timed out"@,
        },
{
    match result {
        ThreadUnloadResult::Complete => Ok(
            ThreadUnloadResponse { status: ThreadUnloadStatus::Unloaded },
        ),
        ThreadUnloadResult::Replaced => {
            let mut message = "thread ".to_owned();
            message.append(thread_id.canonical().as_str());
            message.append(" was replaced while unloading");
            Err(JSONRPCErrorError::InternalError(message))
        },
        ThreadUnloadResult::SubmitFailed => {
            let mut message = "failed to submit Shutdown to thread ".to_owned();
            message.append(thread_id.canonical().as_str());
            Err(JSONRPCErrorError::InternalError(message))
        },
        ThreadUnloadResult::TimedOut => {
            let mut message = "thread ".to_owned();
            message.append(thread_id.canonical().as_str());
            message.append(" shutdown timed out");
            Err(JSONRPCErrorError::InternalError(message))
        },
    }
}

fn done(status: ThreadUnloadStatus) -> (state: UnloadState)
    ensures
        state@ == UnloadStateView::Done(Ok(status)),
{
    UnloadState::Done(Ok(ThreadUnloadResponse { status }))
}

impl UnloadState {
    /// Begins a request, from the thread that it names or why it names none.
    pub fn begin(thread_id: Result<ThreadId, String>) -> (state: Self)
        ensures
            state@ == begun(named_thread(thread_id)),
            match thread_id {
                Ok(thread_id) => state == UnloadState::CheckPending(thread_id),
                Err(error) => state matches UnloadState::Done(
                    Err(JSONRPCErrorError::InvalidRequest(message)),
                ) && message@ == "invalid thread id: "@ + error@,
            },
    {
        match thread_id {
            Ok(thread_id) => UnloadState::CheckPending(thread_id),
            Err(error) => {
                let mut message = "invalid thread id: ".to_owned();
                message.append(error.as_str());
                UnloadState::Done(Err(JSONRPCErrorError::InvalidRequest(message)))
            },
        }
    }

    /// The state after an event.
    pub fn step(self, event: UnloadEvent) -> (next: Self)
        ensures
            next@ == stepped(self@, event),
            self is Done ==> next == self,
            next matches UnloadState::Done(Ok(response)) ==> self is Done || response.status
                == match self {
                UnloadState::CheckPending(_) => ThreadUnloadStatus::Unloading,
                UnloadState::TearDown(_) => ThreadUnloadStatus::NotLoaded,
                UnloadState::CountSubscribers(_) => ThreadUnloadStatus::HasSubscribers,
                UnloadState::Unload(_) => ThreadUnloadStatus::Unloaded,
                _ => ThreadUnloadStatus::Active,
            },
            next matches UnloadState::Done(Err(_)) ==> self is Done || self is Unload,
            next is Unload ==> self is Unload || (self is MarkPending && event
                == UnloadEvent::Marked),
            next is TearDown ==> self is TearDown || (self is FindThread && event
                == UnloadEvent::Loaded(false)),
    {
        match (self, event) {
            (UnloadState::CheckPending(thread_id), UnloadEvent::Pending(pending)) => {
                if pending {
                    done(ThreadUnloadStatus::Unloading)
                } else {
                    UnloadState::FindThread(thread_id)
                }
            },
            (UnloadState::FindThread(thread_id), UnloadEvent::Loaded(loaded)) => {
                if loaded {
                    UnloadState::CountSubscribers(thread_id)
                } else {
                    UnloadState::TearDown(thread_id)
                }
            },
            (UnloadState::TearDown(_), UnloadEvent::TornDown) => {
                done(ThreadUnloadStatus::NotLoaded)
            },
            (UnloadState::CountSubscribers(thread_id), UnloadEvent::Subscribers(count)) => {
                if count > 0 {
                    done(ThreadUnloadStatus::HasSubscribers)
                } else {
                    UnloadState::ReadWatchedStatus(thread_id)
                }
            },
            (UnloadState::ReadWatchedStatus(thread_id), UnloadEvent::Watched(status)) => {
                match status {
                    Some(ThreadStatus::Active) => done(ThreadUnloadStatus::Active),
                    _ => UnloadState::ReadAgentStatus(thread_id),
                }
            },
            (UnloadState::ReadAgentStatus(thread_id), UnloadEvent::Agent(status)) => {
                match status {
                    AgentStatus::Running => done(ThreadUnloadStatus::Active),
                    AgentStatus::NotRunning => UnloadState::MarkPending(thread_id),
                }
            },
            (UnloadState::MarkPending(thread_id), UnloadEvent::Marked) => {
                UnloadState::Unload(thread_id)
            },
            (UnloadState::Unload(thread_id), UnloadEvent::Ended(result)) => {
                UnloadState::Done(unload_response(&thread_id, result))
            },
            (state, _) => state,
        }
    }
}

/// What holds of a thread while a request to unload it is served.
pub struct UnloadFacts {
    /// Whether the thread is being unloaded already.
    pub pending: bool,
    /// Whether the thread is loaded.
    pub loaded: bool,
    /// How many connections are subscribed to the thread.
    pub subscribers: usize,
    /// The status under which the thread is watched, where it is.
    pub watched: Option<ThreadStatus>,
    /// The status of the thread's agent.
    pub agent: AgentStatus,
    /// How unloading it ends.
    pub result: ThreadUnloadResult,
}

/// The event that answers a state, as the facts have it.
pub open spec fn answer(state: UnloadStateView, facts: UnloadFacts) -> UnloadEvent {
    match state {
        UnloadStateView::CheckPending(_) => UnloadEvent::Pending(facts.pending),
        UnloadStateView::FindThread(_) => UnloadEvent::Loaded(facts.loaded),
        UnloadStateView::TearDown(_) => UnloadEvent::TornDown,
        UnloadStateView::CountSubscribers(_) => UnloadEvent::Subscribers(facts.subscribers),
        UnloadStateView::ReadWatchedStatus(_) => UnloadEvent::Watched(facts.watched),
        UnloadStateView::ReadAgentStatus(_) => UnloadEvent::Agent(facts.agent),
        UnloadStateView::MarkPending(_) => UnloadEvent::Marked,
        UnloadStateView::Unload(_) => UnloadEvent::Ended(facts.result),
        UnloadStateView::Done(_) => UnloadEvent::Marked,
    }
}

/// The state that a request reaches by so many answers.
pub open spec fn reached(thread_id: Seq<char>, facts: UnloadFacts, steps: nat) -> UnloadStateView
    decreases steps,
{
    if steps == 0 {
        begun(Ok(thread_id))
    } else {
        let state = reached(thread_id, facts, (steps - 1) as nat);
        stepped(state, answer(state, facts))
    }
}

/// Whether a thread may be unloaded: it is loaded, not being unloaded already, no connection is
/// subscribed to it, and it is not at work.
pub open spec fn may_unload(facts: UnloadFacts) -> bool {
    &&& !facts.pending
    &&& facts.loaded
    &&& facts.subscribers == 0
    &&& facts.watched != Some(ThreadStatus::Active)
    &&& facts.agent != AgentStatus::Running
}

/// What a request comes to.
pub open spec fn unload_outcome(thread_id: Seq<char>, facts: UnloadFacts) -> Result<
    ThreadUnloadStatus,
    RequestErrorView,
> {
    if facts.pending {
        Ok(ThreadUnloadStatus::Unloading)
    } else if !facts.loaded {
        Ok(ThreadUnloadStatus::NotLoaded)
    } else if facts.subscribers > 0 {
        Ok(ThreadUnloadStatus::HasSubscribers)
    } else if facts.watched == Some(ThreadStatus::Active) || facts.agent == AgentStatus::Running {
        Ok(ThreadUnloadStatus::Active)
    } else {
        ended(thread_id, facts.result)
    }
}

/// Whether the lock on the set of threads that are being unloaded is held in a state.
pub open spec fn holds_lock(state: UnloadStateView) -> bool {
    state is CheckPending || state is FindThread || state is CountSubscribers
        || state is ReadWatchedStatus || state is ReadAgentStatus || state is MarkPending
}

/// Every request comes to its end within seven answers, and what is sent back depends on the
/// facts alone.
pub proof fn lemma_request_comes_to_its_outcome(thread_id: Seq<char>, facts: UnloadFacts)
    ensures
        forall|steps: nat|
            steps >= 7 ==> #[trigger] reached(thread_id, facts, steps) == UnloadStateView::Done(
                unload_outcome(thread_id, facts),
            ),
{
    reveal_with_fuel(reached, 8);
    assert(reached(thread_id, facts, 7) == UnloadStateView::Done(unload_outcome(thread_id, facts)));
    assert forall|steps: nat| steps >= 7 implies #[trigger] reached(thread_id, facts, steps)
        == UnloadStateView::Done(unload_outcome(thread_id, facts)) by {
        lemma_done_stays(thread_id, facts, 7, steps);
    }
}

proof fn lemma_done_stays(thread_id: Seq<char>, facts: UnloadFacts, earlier: nat, later: nat)
    requires
        earlier <= later,
        reached(thread_id, facts, earlier) is Done,
    ensures
        reached(thread_id, facts, later) == reached(thread_id, facts, earlier),
    decreases later,
{
    if earlier < later {
        lemma_done_stays(thread_id, facts, earlier, (later - 1) as nat);
    }
}

/// A request marks and unloads a thread if and only if the thread may be unloaded: one that is
/// subscribed to or at work, or is being unloaded already, is left alone. What is left of a thread
/// is removed if and only if the thread is not loaded and not being unloaded already.
pub proof fn lemma_unloads_only_what_may_be_unloaded(thread_id: Seq<char>, facts: UnloadFacts)
    ensures
        may_unload(facts) <==> exists|steps: nat|
            #[trigger] reached(thread_id, facts, steps) == UnloadStateView::Unload(thread_id),
        may_unload(facts) <==> exists|steps: nat|
            #[trigger] reached(thread_id, facts, steps) == UnloadStateView::MarkPending(thread_id),
        !facts.pending && !facts.loaded <==> exists|steps: nat|
            #[trigger] reached(thread_id, facts, steps) == UnloadStateView::TearDown(thread_id),
{
    reveal_with_fuel(reached, 8);
    if may_unload(facts) {
        assert(reached(thread_id, facts, 5) == UnloadStateView::MarkPending(thread_id));
        assert(reached(thread_id, facts, 6) == UnloadStateView::Unload(thread_id));
    }
    if !facts.pending && !facts.loaded {
        assert(reached(thread_id, facts, 2) == UnloadStateView::TearDown(thread_id));
    }
    assert forall|steps: nat|
        reason(#[trigger] reached(thread_id, facts, steps), facts) by {
        lemma_reason(thread_id, facts, steps);
    }
}

/// What the facts must have been for a request to be in a state.
spec fn reason(state: UnloadStateView, facts: UnloadFacts) -> bool {
    match state {
        UnloadStateView::CheckPending(_) => true,
        UnloadStateView::FindThread(_) => !facts.pending,
        UnloadStateView::TearDown(_) => !facts.pending && !facts.loaded,
        UnloadStateView::CountSubscribers(_) => !facts.pending && facts.loaded,
        UnloadStateView::ReadWatchedStatus(_) => !facts.pending && facts.loaded
            && facts.subscribers == 0,
        UnloadStateView::ReadAgentStatus(_) => !facts.pending && facts.loaded && facts.subscribers
            == 0 && facts.watched != Some(ThreadStatus::Active),
        UnloadStateView::MarkPending(_) => may_unload(facts),
        UnloadStateView::Unload(_) => may_unload(facts),
        UnloadStateView::Done(_) => true,
    }
}

proof fn lemma_reason(thread_id: Seq<char>, facts: UnloadFacts, steps: nat)
    ensures
        reason(reached(thread_id, facts, steps), facts),
    decreases steps,
{
    if steps > 0 {
        lemma_reason(thread_id, facts, (steps - 1) as nat);
    }
}

/// From the check that no unloading of the thread is under way to the mark that one is, the lock
/// is never given back: a state that holds it only follows one that holds it, and only the mark
/// leads to the unloading.
pub proof fn lemma_lock_is_held_until_marked(state: UnloadStateView, event: UnloadEvent)
    ensures
        holds_lock(stepped(state, event)) ==> holds_lock(state),
        stepped(state, event) is Unload ==> state is MarkPending || state is Unload,
{
}

/// What each outcome of a request means, for every thread: unloading is under way if and only if
/// it was before; the thread is not loaded if and only if it was not; it has subscribers if and
/// only if it is loaded and some connection is subscribed; it is active if and only if it is
/// loaded, nobody is subscribed and it is watched as active or its agent runs; and it is unloaded
/// if and only if none of that holds and its unloading completed.
pub proof fn lemma_outcome_says_what_holds(thread_id: Seq<char>, facts: UnloadFacts)
    ensures
        ({
            let outcome = unload_outcome(thread_id, facts);
            let idle = !facts.pending && facts.loaded && facts.subscribers == 0;
            let at_work = facts.watched == Some(ThreadStatus::Active) || facts.agent
                == AgentStatus::Running;
            &&& outcome == Ok::<ThreadUnloadStatus, RequestErrorView>(ThreadUnloadStatus::Unloading)
                <==> facts.pending
            &&& outcome == Ok::<ThreadUnloadStatus, RequestErrorView>(ThreadUnloadStatus::NotLoaded)
                <==> !facts.pending && !facts.loaded
            &&& outcome == Ok::<ThreadUnloadStatus, RequestErrorView>(
                ThreadUnloadStatus::HasSubscribers,
            ) <==> !facts.pending && facts.loaded && facts.subscribers > 0
            &&& outcome == Ok::<ThreadUnloadStatus, RequestErrorView>(ThreadUnloadStatus::Active)
                <==> idle && at_work
            &&& outcome == Ok::<ThreadUnloadStatus, RequestErrorView>(ThreadUnloadStatus::Unloaded)
                <==> idle && !at_work && facts.result == ThreadUnloadResult::Complete
            &&& outcome is Err <==> idle && !at_work && facts.result
                != ThreadUnloadResult::Complete
            &&& may_unload(facts) <==> idle && !at_work
        }),
{
}

/// An unloading that did not complete is answered with an internal error that names the thread and
/// says what went wrong.
pub proof fn lemma_failed_unloading_is_told(thread_id: Seq<char>, facts: UnloadFacts)
    requires
        !facts.pending,
        facts.loaded,
        facts.subscribers == 0,
        facts.watched != Some(ThreadStatus::Active),
        facts.agent != AgentStatus::Running,
        facts.result != ThreadUnloadResult::Complete,
    ensures
        unload_outcome(thread_id, facts) matches Err(RequestErrorView::InternalError(message))
            && match facts.result {
            ThreadUnloadResult::Replaced => message == "thread "@ + thread_id
                + " was replaced while unloading"@,
            ThreadUnloadResult::SubmitFailed => message == "failed to submit Shutdown to thread "@
                + thread_id,
            _ => message == "thread "@ + thread_id + " shutdown timed out"@,
        },
{
}

/// A request asks its questions in this order: whether the thread is being unloaded, whether it is
/// loaded, how many are subscribed, how it is watched and whether its agent runs. It stops asking
/// at the first answer that decides it, marks the thread before it unloads it, and answers after
/// that.
pub proof fn lemma_questions_in_order(thread_id: Seq<char>, facts: UnloadFacts)
    ensures
        reached(thread_id, facts, 0) == UnloadStateView::CheckPending(thread_id),
        facts.pending ==> reached(thread_id, facts, 1) == UnloadStateView::Done(
            Ok(ThreadUnloadStatus::Unloading),
        ),
        !facts.pending ==> {
            &&& reached(thread_id, facts, 1) == UnloadStateView::FindThread(thread_id)
            &&& !facts.loaded ==> {
                &&& reached(thread_id, facts, 2) == UnloadStateView::TearDown(thread_id)
                &&& reached(thread_id, facts, 3) == UnloadStateView::Done(
                    Ok(ThreadUnloadStatus::NotLoaded),
                )
            }
        },
        !facts.pending && facts.loaded ==> {
            &&& reached(thread_id, facts, 2) == UnloadStateView::CountSubscribers(thread_id)
            &&& facts.subscribers > 0 ==> reached(thread_id, facts, 3) == UnloadStateView::Done(
                Ok(ThreadUnloadStatus::HasSubscribers),
            )
            &&& facts.subscribers == 0 ==> {
                &&& reached(thread_id, facts, 3) == UnloadStateView::ReadWatchedStatus(thread_id)
                &&& facts.watched == Some(ThreadStatus::Active) ==> reached(thread_id, facts, 4)
                    == UnloadStateView::Done(Ok(ThreadUnloadStatus::Active))
                &&& facts.watched != Some(ThreadStatus::Active) ==> {
                    &&& reached(thread_id, facts, 4) == UnloadStateView::ReadAgentStatus(thread_id)
                    &&& facts.agent == AgentStatus::Running ==> reached(thread_id, facts, 5)
                        == UnloadStateView::Done(Ok(ThreadUnloadStatus::Active))
                    &&& facts.agent == AgentStatus::NotRunning ==> {
                        &&& reached(thread_id, facts, 5) == UnloadStateView::MarkPending(thread_id)
                        &&& reached(thread_id, facts, 6) == UnloadStateView::Unload(thread_id)
                        &&& reached(thread_id, facts, 7) is Done
                        &&& reached(thread_id, facts, 7) == UnloadStateView::Done(
                            Ok(ThreadUnloadStatus::Unloaded),
                        ) <==> facts.result == ThreadUnloadResult::Complete
                    }
                }
            }
        },
{
    reveal_with_fuel(reached, 8);
}

/// An event that is no answer to what a state asks for changes nothing, and nothing changes what
/// is sent back.
pub proof fn lemma_other_events_change_nothing(state: UnloadStateView, event: UnloadEvent)
    requires
        !(state is CheckPending && event is Pending),
        !(state is FindThread && event is Loaded),
        !(state is TearDown && event is TornDown),
        !(state is CountSubscribers && event is Subscribers),
        !(state is ReadWatchedStatus && event is Watched),
        !(state is ReadAgentStatus && event is Agent),
        !(state is MarkPending && event is Marked),
        !(state is Unload && event is Ended),
    ensures
        stepped(state, event) == state,
{
}

/// A request begins with its thread's question, where its text names a thread; otherwise it is
/// invalid, for the reason that the parser gives.
pub proof fn lemma_request_begins(thread_id: Result<ThreadId, String>)
    ensures
        thread_id matches Ok(thread) ==> begun(named_thread(thread_id))
            == UnloadStateView::CheckPending(thread@),
        thread_id matches Err(error) ==> begun(named_thread(thread_id)) == UnloadStateView::Done(
            Err(RequestErrorView::InvalidRequest("invalid thread id: "@ + error@)),
        ),
{
}

/// The model of a state is in the same place of a request as the state, about the same thread, and
/// sends the same back.
pub proof fn lemma_model_is_of_its_state(state: UnloadState)
    ensures
        state matches UnloadState::CheckPending(thread) ==> state@
            == UnloadStateView::CheckPending(thread@),
        state matches UnloadState::FindThread(thread) ==> state@ == UnloadStateView::FindThread(
            thread@,
        ),
        state matches UnloadState::TearDown(thread) ==> state@ == UnloadStateView::TearDown(
            thread@,
        ),
        state matches UnloadState::CountSubscribers(thread) ==> state@
            == UnloadStateView::CountSubscribers(thread@),
        state matches UnloadState::ReadWatchedStatus(thread) ==> state@
            == UnloadStateView::ReadWatchedStatus(thread@),
        state matches UnloadState::ReadAgentStatus(thread) ==> state@
            == UnloadStateView::ReadAgentStatus(thread@),
        state matches UnloadState::MarkPending(thread) ==> state@ == UnloadStateView::MarkPending(
            thread@,
        ),
        state matches UnloadState::Unload(thread) ==> state@ == UnloadStateView::Unload(thread@),
        state matches UnloadState::Done(Ok(response)) ==> state@ == UnloadStateView::Done(
            Ok(response.status),
        ),
        state matches UnloadState::Done(Err(JSONRPCErrorError::InvalidRequest(message))) ==> state@
            == UnloadStateView::Done(Err(RequestErrorView::InvalidRequest(message@))),
        state matches UnloadState::Done(Err(JSONRPCErrorError::InternalError(message))) ==> state@
            == UnloadStateView::Done(Err(RequestErrorView::InternalError(message@))),
{
}

} // verus!

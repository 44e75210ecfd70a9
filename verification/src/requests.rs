//! Requests to unload a thread, one after the other, on the host's two sets of threads.
//!
//! What the host does to its sets is not decided here. [`host_does`] and [`not_loaded_again`] say
//! what is taken of it.

use crate::unload;
use crate::unload::{
    RequestErrorView, ThreadUnloadResult, ThreadUnloadStatus, UnloadEvent, UnloadFacts,
    UnloadStateView,
};
use vstd::prelude::*;

verus! {

/// The host's threads at one moment.
pub struct HostThreads {
    /// The threads that are being unloaded.
    pub pending: Set<Seq<char>>,
    /// The threads that are loaded.
    pub loaded: Set<Seq<char>>,
}

/// One request: its states, the event after each state but the last, and the host's threads in
/// each state.
pub struct UnloadRun {
    /// The states of the request.
    pub states: Seq<UnloadStateView>,
    /// The events that lead from each state to the next.
    pub events: Seq<UnloadEvent>,
    /// The host's threads in each state.
    pub hosts: Seq<HostThreads>,
}

/// What is taken of the host when it answers a state with an event: it tells the truth about its
/// sets, a thread that it has marked is among those that are being unloaded, and a thread whose
/// unloading it reports as complete is in neither set any more. Whatever else happens to the sets
/// is the host's own business.
pub open spec fn host_does(
    state: UnloadStateView,
    event: UnloadEvent,
    before: HostThreads,
    after: HostThreads,
) -> bool {
    match (state, event) {
        (UnloadStateView::CheckPending(thread_id), UnloadEvent::Pending(pending)) => pending
            == before.pending.contains(thread_id),
        (UnloadStateView::FindThread(thread_id), UnloadEvent::Loaded(loaded)) => loaded
            == before.loaded.contains(thread_id),
        (UnloadStateView::MarkPending(thread_id), UnloadEvent::Marked) => after.pending.contains(
            thread_id,
        ),
        (
            UnloadStateView::Unload(thread_id),
            UnloadEvent::Ended(ThreadUnloadResult::Complete),
        ) => !after.pending.contains(thread_id) && !after.loaded.contains(thread_id),
        _ => true,
    }
}

/// Whether a run is one of a request to unload `thread_id`: each event answers its state, and the
/// run ends at the latest where something is sent back.
pub open spec fn is_run(run: UnloadRun, thread_id: Seq<char>) -> bool {
    &&& run.states.len() > 0
    &&& run.hosts.len() == run.states.len()
    &&& run.events.len() + 1 == run.states.len()
    &&& run.states[0] == unload::begun(Ok(thread_id))
    &&& forall|i: int|
        0 <= i < run.events.len() ==> {
            &&& !((#[trigger] run.states[i]) is Done)
            &&& run.states[i + 1] == unload::stepped(run.states[i], run.events[i])
            &&& run.states[i + 1] != run.states[i]
            &&& host_does(run.states[i], run.events[i], run.hosts[i], run.hosts[i + 1])
        }
}

/// Whether a thread is not loaded from one moment to the next, and is marked as being unloaded
/// only if it was already, or was loaded: a request marks no thread that it did not find loaded.
pub open spec fn not_loaded_again(
    before: HostThreads,
    after: HostThreads,
    thread_id: Seq<char>,
) -> bool {
    &&& after.loaded.contains(thread_id) ==> before.loaded.contains(thread_id)
    &&& after.pending.contains(thread_id) ==> before.pending.contains(thread_id)
        || before.loaded.contains(thread_id)
}

/// Whether a thread is not loaded again throughout these moments.
pub open spec fn never_loaded_again(hosts: Seq<HostThreads>, thread_id: Seq<char>) -> bool {
    forall|i: int|
        0 <= i < hosts.len() - 1 ==> not_loaded_again(
            #[trigger] hosts[i],
            hosts[i + 1],
            thread_id,
        )
}

/// Whether a thread is neither loaded nor being unloaded.
pub open spec fn is_gone(host: HostThreads, thread_id: Seq<char>) -> bool {
    !host.loaded.contains(thread_id) && !host.pending.contains(thread_id)
}

/// The thread that a state is about, where something is still to be done.
pub open spec fn thread_of(state: UnloadStateView) -> Option<Seq<char>> {
    match state {
        UnloadStateView::CheckPending(thread_id) => Some(thread_id),
        UnloadStateView::FindThread(thread_id) => Some(thread_id),
        UnloadStateView::TearDown(thread_id) => Some(thread_id),
        UnloadStateView::CountSubscribers(thread_id) => Some(thread_id),
        UnloadStateView::ReadWatchedStatus(thread_id) => Some(thread_id),
        UnloadStateView::ReadAgentStatus(thread_id) => Some(thread_id),
        UnloadStateView::MarkPending(thread_id) => Some(thread_id),
        UnloadStateView::Unload(thread_id) => Some(thread_id),
        UnloadStateView::Done(_) => None,
    }
}

/// A request stays with its thread.
pub proof fn lemma_run_keeps_its_thread(run: UnloadRun, thread_id: Seq<char>, i: int)
    requires
        is_run(run, thread_id),
        0 <= i < run.states.len(),
    ensures
        thread_of(run.states[i]) == Some(thread_id) || run.states[i] is Done,
    decreases i,
{
    if i > 0 {
        lemma_run_keeps_its_thread(run, thread_id, i - 1);
        assert(!(run.states[i - 1] is Done));
    }
}

/// A request marks and unloads its thread only if it found the thread among those that are loaded.
pub proof fn lemma_marks_only_what_it_found(run: UnloadRun, thread_id: Seq<char>, i: int)
    requires
        is_run(run, thread_id),
        0 <= i < run.states.len(),
        run.states[i] is CountSubscribers || run.states[i] is ReadWatchedStatus
            || run.states[i] is ReadAgentStatus || run.states[i] is MarkPending
            || run.states[i] is Unload,
    ensures
        exists|j: int|
            0 <= j < i && (#[trigger] run.states[j]) == UnloadStateView::FindThread(thread_id)
                && run.hosts[j].loaded.contains(thread_id),
    decreases i,
{
    let j = i - 1;
    lemma_run_keeps_its_thread(run, thread_id, j);
    assert(!(run.states[j] is Done));
    if !(run.states[j] is FindThread) {
        lemma_marks_only_what_it_found(run, thread_id, j);
    }
}

/// A thread is among those that are being unloaded when its unloading begins.
pub proof fn lemma_unloading_begins_marked(run: UnloadRun, thread_id: Seq<char>, i: int)
    requires
        is_run(run, thread_id),
        0 <= i < run.events.len(),
        !(run.states[i] is Unload),
        run.states[i + 1] is Unload,
    ensures
        run.hosts[i + 1].pending.contains(thread_id),
{
    lemma_run_keeps_its_thread(run, thread_id, i);
    unload::lemma_lock_is_held_until_marked(run.states[i], run.events[i]);
    assert(run.states[i] is MarkPending);
}

/// When a request answers that its thread is unloaded, the thread is neither loaded nor being
/// unloaded any more.
pub proof fn lemma_unloaded_thread_is_gone(run: UnloadRun, thread_id: Seq<char>)
    requires
        is_run(run, thread_id),
        run.states.last() == UnloadStateView::Done(Ok(ThreadUnloadStatus::Unloaded)),
    ensures
        is_gone(run.hosts.last(), thread_id),
{
    let i = run.events.len() - 1;
    assert(run.states[0] is CheckPending);
    assert(run.states.last() == run.states[i + 1]);
    lemma_run_keeps_its_thread(run, thread_id, i);
    assert(!(run.states[i] is Done));
    assert(run.states[i] is Unload);
    assert(run.events[i] == UnloadEvent::Ended(ThreadUnloadResult::Complete));
}

/// A thread that is gone and is not loaded again stays gone.
pub proof fn lemma_gone_thread_stays_gone(hosts: Seq<HostThreads>, thread_id: Seq<char>, i: int)
    requires
        0 <= i < hosts.len(),
        is_gone(hosts[0], thread_id),
        never_loaded_again(hosts, thread_id),
    ensures
        is_gone(hosts[i], thread_id),
    decreases i,
{
    if i > 0 {
        lemma_gone_thread_stays_gone(hosts, thread_id, i - 1);
        assert(not_loaded_again(hosts[i - 1], hosts[i], thread_id));
    }
}

/// A request for a thread that is gone, and is not loaded while it is served, sees that it is not
/// being unloaded, does not find it, removes what is left of it, and sends back that it is not
/// loaded.
pub proof fn lemma_gone_thread_is_not_loaded(run: UnloadRun, thread_id: Seq<char>, i: int)
    requires
        is_run(run, thread_id),
        is_gone(run.hosts[0], thread_id),
        never_loaded_again(run.hosts, thread_id),
        0 <= i < run.states.len(),
    ensures
        i <= 3,
        run.states[i] == if i == 0 {
            UnloadStateView::CheckPending(thread_id)
        } else if i == 1 {
            UnloadStateView::FindThread(thread_id)
        } else if i == 2 {
            UnloadStateView::TearDown(thread_id)
        } else {
            UnloadStateView::Done(Ok(ThreadUnloadStatus::NotLoaded))
        },
    decreases i,
{
    if i > 0 {
        lemma_gone_thread_is_not_loaded(run, thread_id, i - 1);
        lemma_gone_thread_stays_gone(run.hosts, thread_id, i - 1);
        assert(!(run.states[i - 1] is Done));
    }
}

/// After a request has answered that its thread is unloaded, and as long as the thread is not
/// loaded again, the thread is absent from those that are loaded, and the next request for it
/// marks and unloads nothing and, by its third answer, sends back that the thread is not loaded.
///
/// `between` holds the host's threads from the end of the first request to the start of the
/// second.
pub proof fn lemma_unloaded_thread_answers_not_loaded(
    first: UnloadRun,
    between: Seq<HostThreads>,
    second: UnloadRun,
    thread_id: Seq<char>,
)
    requires
        is_run(first, thread_id),
        first.states.last() == UnloadStateView::Done(Ok(ThreadUnloadStatus::Unloaded)),
        between.len() > 0,
        between[0] == first.hosts.last(),
        between.last() == second.hosts[0],
        never_loaded_again(between, thread_id),
        is_run(second, thread_id),
        never_loaded_again(second.hosts, thread_id),
    ensures
        forall|i: int| 0 <= i < between.len() ==> is_gone(#[trigger] between[i], thread_id),
        forall|i: int| 0 <= i < second.hosts.len() ==> is_gone(#[trigger] second.hosts[i], thread_id),
        forall|i: int|
            0 <= i < second.states.len() ==> !((#[trigger] second.states[i]) is MarkPending) && !(
            second.states[i] is Unload),
        second.events.len() <= 3,
        second.events.len() == 3 ==> second.states.last() == UnloadStateView::Done(
            Ok(ThreadUnloadStatus::NotLoaded),
        ),
        second.states.last() is Done ==> second.events.len() == 3,
        forall|facts: UnloadFacts|
            facts.pending == between.last().pending.contains(thread_id) && facts.loaded
                == between.last().loaded.contains(thread_id) ==> #[trigger] unload::unload_outcome(
                thread_id,
                facts,
            ) == Ok::<ThreadUnloadStatus, RequestErrorView>(ThreadUnloadStatus::NotLoaded),
{
    lemma_unloaded_thread_is_gone(first, thread_id);
    assert forall|i: int| 0 <= i < between.len() implies is_gone(
        #[trigger] between[i],
        thread_id,
    ) by {
        lemma_gone_thread_stays_gone(between, thread_id, i);
    }
    assert(is_gone(between[between.len() - 1], thread_id));
    assert forall|i: int| 0 <= i < second.hosts.len() implies is_gone(
        #[trigger] second.hosts[i],
        thread_id,
    ) by {
        lemma_gone_thread_stays_gone(second.hosts, thread_id, i);
    }
    assert forall|i: int| 0 <= i < second.states.len() implies !((
    #[trigger] second.states[i]) is MarkPending) && !(second.states[i] is Unload) by {
        lemma_gone_thread_is_not_loaded(second, thread_id, i);
    }
    lemma_gone_thread_is_not_loaded(second, thread_id, second.states.len() - 1);
}

} // verus!

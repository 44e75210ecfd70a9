use std::collections::HashSet;
use turn_failure_handler::thread_id::ThreadId;
use turn_failure_handler::unload::{
    AgentStatus, JSONRPCErrorError, ThreadStatus, ThreadUnloadResponse, ThreadUnloadResult,
    ThreadUnloadStatus, UnloadEvent, UnloadState,
};

fn thread() -> ThreadId {
    ThreadId::from_canonical("thread-1".to_string())
}

fn after(events: &[UnloadEvent]) -> UnloadState {
    let mut state = UnloadState::begin(Ok(thread()));
    for event in events {
        state = state.step(*event);
    }
    state
}

fn sent(status: ThreadUnloadStatus) -> UnloadState {
    UnloadState::Done(Ok(ThreadUnloadResponse { status }))
}

const IDLE: [UnloadEvent; 5] = [
    UnloadEvent::Pending(false),
    UnloadEvent::Loaded(true),
    UnloadEvent::Subscribers(0),
    UnloadEvent::Watched(Some(ThreadStatus::Inactive)),
    UnloadEvent::Agent(AgentStatus::NotRunning),
];

fn ended(result: ThreadUnloadResult) -> UnloadState {
    let mut events = IDLE.to_vec();
    events.push(UnloadEvent::Marked);
    events.push(UnloadEvent::Ended(result));
    after(&events)
}

#[test]
fn a_request_needs_a_thread() {
    assert_eq!(
        UnloadState::begin(Err("invalid length: found 0".to_string())),
        UnloadState::Done(Err(JSONRPCErrorError::InvalidRequest(
            "invalid thread id: invalid length: found 0".to_string()
        )))
    );
}

#[test]
fn a_thread_is_not_unloaded_twice_at_once() {
    assert_eq!(
        after(&[UnloadEvent::Pending(true)]),
        sent(ThreadUnloadStatus::Unloading)
    );
}

#[test]
fn a_thread_that_is_not_loaded_is_torn_down() {
    let events = [UnloadEvent::Pending(false), UnloadEvent::Loaded(false)];
    assert_eq!(after(&events), UnloadState::TearDown(thread()));
    assert_eq!(
        after(&events).step(UnloadEvent::TornDown),
        sent(ThreadUnloadStatus::NotLoaded)
    );
}

#[test]
fn a_thread_with_subscribers_stays() {
    assert_eq!(
        after(&[
            UnloadEvent::Pending(false),
            UnloadEvent::Loaded(true),
            UnloadEvent::Subscribers(1),
        ]),
        sent(ThreadUnloadStatus::HasSubscribers)
    );
}

#[test]
fn an_active_thread_stays() {
    let mut watched = IDLE;
    watched[3] = UnloadEvent::Watched(Some(ThreadStatus::Active));
    assert_eq!(after(&watched), sent(ThreadUnloadStatus::Active));
    let mut running = IDLE;
    running[3] = UnloadEvent::Watched(None);
    running[4] = UnloadEvent::Agent(AgentStatus::Running);
    assert_eq!(after(&running), sent(ThreadUnloadStatus::Active));
}

#[test]
fn an_idle_thread_is_marked_and_unloaded() {
    assert_eq!(after(&IDLE), UnloadState::MarkPending(thread()));
    assert_eq!(
        after(&IDLE).step(UnloadEvent::Marked),
        UnloadState::Unload(thread())
    );
    assert_eq!(
        ended(ThreadUnloadResult::Complete),
        sent(ThreadUnloadStatus::Unloaded)
    );
}

#[test]
fn an_unloading_that_fails_is_an_internal_error() {
    for (result, message) in [
        (
            ThreadUnloadResult::Replaced,
            "thread thread-1 was replaced while unloading",
        ),
        (
            ThreadUnloadResult::SubmitFailed,
            "failed to submit Shutdown to thread thread-1",
        ),
        (
            ThreadUnloadResult::TimedOut,
            "thread thread-1 shutdown timed out",
        ),
    ] {
        assert_eq!(
            ended(result),
            UnloadState::Done(Err(JSONRPCErrorError::InternalError(message.to_string())))
        );
    }
}

#[test]
fn an_event_that_answers_nothing_changes_nothing() {
    assert_eq!(
        after(&[UnloadEvent::Marked, UnloadEvent::Loaded(true)]),
        UnloadState::CheckPending(thread())
    );
    assert_eq!(
        sent(ThreadUnloadStatus::Active).step(UnloadEvent::Pending(false)),
        sent(ThreadUnloadStatus::Active)
    );
}

struct Host {
    pending: HashSet<String>,
    loaded: HashSet<String>,
    marks: usize,
    unloads: usize,
}

fn serve(host: &mut Host, thread: &str) -> UnloadState {
    let mut state =
        UnloadState::begin(Ok(ThreadId::from_canonical(thread.to_string())));
    loop {
        let event = match &state {
            UnloadState::CheckPending(_) => UnloadEvent::Pending(host.pending.contains(thread)),
            UnloadState::FindThread(_) => UnloadEvent::Loaded(host.loaded.contains(thread)),
            UnloadState::TearDown(_) => UnloadEvent::TornDown,
            UnloadState::CountSubscribers(_) => UnloadEvent::Subscribers(0),
            UnloadState::ReadWatchedStatus(_) => {
                UnloadEvent::Watched(Some(ThreadStatus::Inactive))
            }
            UnloadState::ReadAgentStatus(_) => UnloadEvent::Agent(AgentStatus::NotRunning),
            UnloadState::MarkPending(_) => {
                host.marks += 1;
                host.pending.insert(thread.to_string());
                UnloadEvent::Marked
            }
            UnloadState::Unload(_) => {
                assert!(host.pending.contains(thread));
                host.unloads += 1;
                host.pending.remove(thread);
                host.loaded.remove(thread);
                UnloadEvent::Ended(ThreadUnloadResult::Complete)
            }
            UnloadState::Done(_) => return state,
        };
        state = state.step(event);
    }
}

#[test]
fn a_thread_that_was_unloaded_is_not_loaded() {
    let mut host = Host {
        pending: HashSet::new(),
        loaded: HashSet::from(["thread-1".to_string(), "thread-2".to_string()]),
        marks: 0,
        unloads: 0,
    };
    assert_eq!(
        serve(&mut host, "thread-1"),
        sent(ThreadUnloadStatus::Unloaded)
    );
    assert_eq!(host.loaded, HashSet::from(["thread-2".to_string()]));
    assert_eq!(
        serve(&mut host, "thread-2"),
        sent(ThreadUnloadStatus::Unloaded)
    );
    assert_eq!((host.marks, host.unloads), (2, 2));
    assert_eq!(
        serve(&mut host, "thread-1"),
        sent(ThreadUnloadStatus::NotLoaded)
    );
    assert_eq!((host.marks, host.unloads), (2, 2));
    host.loaded.insert("thread-1".to_string());
    assert_eq!(
        serve(&mut host, "thread-1"),
        sent(ThreadUnloadStatus::Unloaded)
    );
}

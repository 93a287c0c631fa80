use session_persistence::io_error::{ErrorKind, IoError};
use session_persistence::search::{
    BOOTSTRAP_WAIT_TIMEOUT_MS, BootstrapOutcome, QueryOutcome, SEARCH_INDEX_DEBOUNCE_MS, Search,
    SearchEvent, SearchIndexJob, SearchIndexManager, SearchManagerCmd, SearchManagerState,
    SearchStep, SearchWorker, SessionSearchKey, SessionSearchRequest, UpsertPlan, WorkerAction,
    after_bootstrap, after_marker_probe, execute_search, notify_session_updated, upsert_by_key,
};

fn request(query: &str) -> SessionSearchRequest {
    SessionSearchRequest {
        query: query.to_string(),
        cwd: None,
        limit: 10,
        offset: 0,
        include_content: false,
    }
}

#[test]
fn test_execute_search_empty_query() {
    let search: Search<u8> = execute_search(&request("   "));
    match search.step {
        SearchStep::Finished(Ok(resp)) => {
            assert!(resp.results.is_empty());
            assert_eq!(resp.total_estimate, Some(0));
            assert_eq!(resp.next_offset, None);
            assert!(!resp.bootstrapping);
        }
        step => panic!("{step:?}"),
    }
}

#[test]
fn test_bootstrap_once_sets_flag_eagerly() {
    let mut manager = SearchIndexManager::start();
    assert!(!manager.status().bootstrapping);
    let cmd = manager.bootstrap_once("/home".to_string());
    assert!(
        manager.status().bootstrapping,
        "bootstrapping flag must be true immediately after bootstrap_once()"
    );
    assert!(matches!(cmd, SearchManagerCmd::BootstrapOnce { root } if root == "/home"));
}

#[test]
fn an_index_is_built_once_and_rechecked_after_that() {
    let mut state = SearchManagerState::new();
    let once = |root: &str| SearchManagerCmd::BootstrapOnce { root: root.to_string() };
    let first = state.command(once("/a"));
    assert!(matches!(first.job, SearchIndexJob::BootstrapAll) && first.start_worker);
    let other = state.command(once("/b"));
    assert!(matches!(other.job, SearchIndexJob::BootstrapAll) && other.start_worker);
    let again = state.command(once("/a"));
    assert!(matches!(again.job, SearchIndexJob::RecheckBootstrap) && !again.start_worker);
    assert_eq!(again.root, "/a");
}

#[test]
fn updates_go_to_the_worker_of_their_root() {
    let manager = SearchIndexManager::start();
    let mut state = SearchManagerState::new();
    let cmd = notify_session_updated(&manager, "/a".to_string(), "s", "/w");
    let sent = state.command(cmd);
    assert!(sent.start_worker);
    match sent.job {
        SearchIndexJob::Upsert(key) => {
            assert_eq!((key.session_id.as_str(), key.cwd.as_str()), ("s", "/w"))
        }
        job => panic!("{job:?}"),
    }
    let cmd = manager.enqueue("/a".to_string(), "t".to_string(), "/w".to_string());
    assert!(!state.command(cmd).start_worker);
    let first = state.command(SearchManagerCmd::BootstrapOnce { root: "/a".to_string() });
    assert!(matches!(first.job, SearchIndexJob::BootstrapAll) && !first.start_worker);
}

fn upsert(id: &str) -> SearchIndexJob {
    SearchIndexJob::Upsert(SessionSearchKey { session_id: id.to_string(), cwd: "/w".to_string() })
}

#[test]
fn sessions_are_taken_in_once_they_are_quiet() {
    let mut worker = SearchWorker::new();
    assert_eq!(worker.next_deadline(), None);
    assert_eq!(worker.handle_job(upsert("a"), 1000), WorkerAction::Nothing);
    worker.handle_job(upsert("b"), 1100);
    worker.handle_job(upsert("a"), 1200);
    assert_eq!(worker.next_deadline(), Some(1100 + SEARCH_INDEX_DEBOUNCE_MS));
    let (worker, ready) = worker.flush_ready(1599);
    assert!(ready.is_empty());
    let (worker, ready) = worker.flush_ready(1600);
    assert_eq!(ready.len(), 1);
    assert_eq!(ready[0].session_id, "b");
    let (worker, ready) = worker.flush_ready(1700);
    assert_eq!(ready[0].session_id, "a");
    assert_eq!(worker.next_deadline(), None);
}

#[test]
fn jobs_of_the_whole_index_leave_waiting_sessions() {
    let mut worker = SearchWorker::new();
    worker.handle_job(upsert("a"), 0);
    assert_eq!(worker.handle_job(SearchIndexJob::BootstrapAll, 1), WorkerAction::Bootstrap);
    assert_eq!(worker.handle_job(SearchIndexJob::RecheckBootstrap, 1), WorkerAction::ProbeMarker);
    assert_eq!(worker.next_deadline(), Some(SEARCH_INDEX_DEBOUNCE_MS));
}

#[test]
fn an_incomplete_index_is_built_again() {
    assert_eq!(after_marker_probe(Some(false)), WorkerAction::TryBootstrap);
    assert_eq!(after_marker_probe(Some(true)), WorkerAction::Nothing);
    assert_eq!(after_marker_probe(None), WorkerAction::Nothing);
    assert_eq!(after_bootstrap(BootstrapOutcome::Done), WorkerAction::Nothing);
    assert_eq!(after_bootstrap(BootstrapOutcome::RunAgain), WorkerAction::RequestBootstrap);
    assert_eq!(after_bootstrap(BootstrapOutcome::Failed), WorkerAction::LogFailure);
}

#[test]
fn sessions_that_are_gone_leave_the_index() {
    assert!(matches!(upsert_by_key(Ok("summary")), UpsertPlan::Upsert("summary")));
    let gone: Result<u8, IoError> = Err(IoError::new(ErrorKind::NotFound, "gone"));
    assert!(matches!(upsert_by_key(gone), UpsertPlan::Delete));
    let broken: Result<u8, IoError> = Err(IoError::other("broken"));
    assert!(matches!(upsert_by_key(broken), UpsertPlan::Fail(_)));
}

fn outcome(claimed: bool, completed: bool) -> QueryOutcome<u8> {
    QueryOutcome {
        results: vec![7],
        next_offset: Some(1),
        total_estimate: Some(2),
        claimed,
        completed,
    }
}

fn queried(result: Result<QueryOutcome<u8>, IoError>, healed: bool) -> Search<u8> {
    execute_search(&request(" needle "))
        .step(SearchEvent::Requested { now_ms: 0 })
        .step(SearchEvent::Polled { bootstrapping: false, now_ms: 0 })
        .step(SearchEvent::Queried { result, healed })
}

#[test]
fn a_search_waits_for_the_index_for_a_while() {
    let search: Search<u8> = execute_search(&request(" needle "));
    assert_eq!(search.query, "needle");
    let search = search.step(SearchEvent::Requested { now_ms: 100 });
    let search = search.step(SearchEvent::Polled { bootstrapping: true, now_ms: 100 });
    assert!(matches!(search.step, SearchStep::Sleep { .. }));
    let search = search.step(SearchEvent::Slept);
    let late = 100 + BOOTSTRAP_WAIT_TIMEOUT_MS;
    let search = search.step(SearchEvent::Polled { bootstrapping: true, now_ms: late });
    assert!(matches!(search.step, SearchStep::Query));
}

#[test]
fn answers_say_whether_the_index_is_complete() {
    let answer = |search: Search<u8>, bootstrapping: bool| {
        match search.step(SearchEvent::Progress { bootstrapping }).step {
            SearchStep::Finished(Ok(response)) => {
                assert_eq!(response.results, vec![7]);
                assert_eq!(response.next_offset, Some(1));
                assert_eq!(response.total_estimate, Some(2));
                response.bootstrapping
            }
            step => panic!("{step:?}"),
        }
    };
    assert!(!answer(queried(Ok(outcome(false, false)), false), false));
    assert!(!answer(queried(Ok(outcome(true, true)), false), false));
    assert!(answer(queried(Ok(outcome(true, false)), false), false));
    assert!(answer(queried(Ok(outcome(false, true)), false), true));
    let healed = queried(Ok(outcome(false, true)), true);
    assert!(matches!(healed.step, SearchStep::RequestAgain { .. }));
    assert!(answer(healed.step(SearchEvent::Requested { now_ms: 9 }), false));
    let failed = queried(Err(IoError::other("locked")), false);
    assert!(matches!(failed.step, SearchStep::Finished(Err(_))));
}

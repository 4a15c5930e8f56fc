use task_gateway::buffered::{complete_buffered, request_task, result_from_exit, BufferedOutcome, TaskError};
use task_gateway::counter::CompletionCounter;
use task_gateway::search::{collect_posts, search_params, search_query, setup_statement, Post, SearchOrder, MAX_RESULTS};
use task_gateway::stream::{StreamEvent, StreamInput, StreamPhase, StreamRun};
use task_gateway::task::{Process, Task, TaskResult, TaskStatus};

const ALL: [Process; 6] = [
    Process::BskyTrending,
    Process::BuildDuckDb,
    Process::ClearData,
    Process::Date,
    Process::Jetstream,
    Process::Uname,
];

fn post(n: usize) -> Post {
    Post { did: format!("did:{n}"), created_at: format!("2024-01-{n}"), text: format!("post {n}") }
}

#[test]
fn registry_maps_every_process() {
    let t = Task::new(Process::BskyTrending);
    assert_eq!(t.cmd, "./bin/bsky-trending");
    assert_eq!(t.args, vec!["--db", "data/jetstream.duckdb", "--limit", "500", "--min", "3", "--max", "4"]);
    let t = Task::new(Process::BuildDuckDb);
    assert_eq!(t.cmd, "./scripts/build-duckdb");
    assert_eq!(t.args, vec!["data/jetstream.json", "data/jetstream.duckdb"]);
    let t = Task::new(Process::ClearData);
    assert_eq!(t.cmd, "./scripts/clear-data");
    assert!(t.args.is_empty());
    let t = Task::new(Process::Date);
    assert_eq!(t.cmd, "uname");
    assert_eq!(t.args, vec!["-snr"]);
    let t = Task::new(Process::Jetstream);
    assert_eq!(t.cmd, "./bin/jetstream-client");
    assert_eq!(t.args, vec!["--json", "data/jetstream.json", "--db", "data/jetstream.sqlite3"]);
    let t = Task::new(Process::Uname);
    assert_eq!(t.cmd, "date");
    assert!(t.args.is_empty());
    for p in ALL {
        let t = Task::new(p);
        assert!(!t.cmd.is_empty());
        assert_eq!(t.process, p);
        assert!(matches!(t.status, TaskStatus::Created));
        assert!(t.result.is_none());
    }
}

#[test]
fn names_resolve_exactly() {
    for p in ALL {
        assert_eq!(Process::from_name(p.name()), Some(p));
    }
    assert_eq!(Process::from_name("build_duck_db"), Some(Process::BuildDuckDb));
    assert_eq!(Process::from_name("Uname"), None);
    assert_eq!(Process::from_name("uname "), None);
    assert_eq!(Process::from_name(""), None);
}

#[test]
fn task_status_moves_forward() {
    let mut t = Task::new(Process::Date);
    t.start();
    assert!(matches!(t.status, TaskStatus::Running));
    assert_eq!(t.cmd, "uname");
    assert!(t.result.is_none());
}

#[test]
fn unknown_task_is_rejected() {
    let counter = CompletionCounter::new();
    assert!(matches!(request_task("junk"), Err(TaskError::UnknownTask)));
    assert_eq!(counter.get(), 0);
}

#[test]
fn known_task_is_running() {
    let t = request_task("jetstream").unwrap();
    assert_eq!(t.process, Process::Jetstream);
    assert_eq!(t.cmd, "./bin/jetstream-client");
    assert!(matches!(t.status, TaskStatus::Running));
}

#[test]
fn exit_status_decides_tag() {
    assert!(matches!(result_from_exit(Some(0), "a".to_string()), TaskResult::Success(ref s) if s == "a"));
    assert!(matches!(result_from_exit(Some(1), "b".to_string()), TaskResult::Fail(ref s) if s == "b"));
    assert!(matches!(result_from_exit(Some(-1), "c".to_string()), TaskResult::Fail(_)));
    assert!(matches!(result_from_exit(None, "d".to_string()), TaskResult::Fail(_)));
}

#[test]
fn buffered_success_counts_once() {
    let mut counter = CompletionCounter::new();
    let r = complete_buffered(&mut counter, BufferedOutcome::Exited { code: Some(0), stdout: b"Linux host 6.1\n".to_vec() });
    assert!(matches!(r, Ok(TaskResult::Success(ref s)) if s == "Linux host 6.1\n"));
    assert_eq!(counter.get(), 1);
}

#[test]
fn buffered_failure_counts_once() {
    let mut counter = CompletionCounter::new();
    let r = complete_buffered(&mut counter, BufferedOutcome::Exited { code: Some(2), stdout: b"partial".to_vec() });
    assert!(matches!(r, Ok(TaskResult::Fail(ref s)) if s == "partial"));
    assert_eq!(counter.get(), 1);
}

#[test]
fn buffered_output_is_decoded_lossily() {
    let mut counter = CompletionCounter::new();
    let r = complete_buffered(&mut counter, BufferedOutcome::Exited { code: Some(0), stdout: vec![b'o', b'k', 0xff, b'!'] });
    assert!(matches!(r, Ok(TaskResult::Success(ref s)) if s == "ok\u{FFFD}!"));
}

#[test]
fn buffered_spawn_failure_is_not_counted() {
    let mut counter = CompletionCounter::new();
    let r = complete_buffered(&mut counter, BufferedOutcome::SpawnFailed("No such file or directory".to_string()));
    assert!(matches!(r, Err(TaskError::SpawnFailure(ref m)) if m == "No such file or directory"));
    assert_eq!(counter.get(), 0);
}

#[test]
fn hundred_successes_count_hundred() {
    let mut counter = CompletionCounter::new();
    for i in 0..100 {
        let r = complete_buffered(&mut counter, BufferedOutcome::Exited { code: Some(0), stdout: format!("{i}").into_bytes() });
        assert!(matches!(r, Ok(TaskResult::Success(_))));
    }
    assert_eq!(counter.get(), 100);
    assert!(counter.has_room());
}

#[test]
fn stream_lines_then_done() {
    let mut counter = CompletionCounter::new();
    let mut run = StreamRun::new();
    let mut events = Vec::new();
    let inputs = vec![
        StreamInput::Spawned,
        StreamInput::Line("one".to_string()),
        StreamInput::Line("two".to_string()),
        StreamInput::Line("three".to_string()),
        StreamInput::OutputClosed,
        StreamInput::Exited(Some(0)),
    ];
    for input in inputs {
        if let Some(e) = run.step(&mut counter, input) {
            events.push(e);
        }
    }
    assert_eq!(events.len(), 4);
    assert!(matches!(events[0], StreamEvent::Line(ref l) if l == "one"));
    assert!(matches!(events[1], StreamEvent::Line(ref l) if l == "two"));
    assert!(matches!(events[2], StreamEvent::Line(ref l) if l == "three"));
    assert!(matches!(events[3], StreamEvent::Done(Some(0))));
    assert_eq!(run.phase(), StreamPhase::Closed);
    assert_eq!(counter.get(), 1);
}

#[test]
fn stream_spawn_failure_single_error() {
    let mut counter = CompletionCounter::new();
    let mut run = StreamRun::new();
    let first = run.step(&mut counter, StreamInput::SpawnFailed("permission denied".to_string()));
    assert!(matches!(first, Some(StreamEvent::SpawnError(ref m)) if m == "permission denied"));
    assert_eq!(run.phase(), StreamPhase::Closed);
    assert!(run.step(&mut counter, StreamInput::Line("late".to_string())).is_none());
    assert!(run.step(&mut counter, StreamInput::Exited(Some(0))).is_none());
    assert_eq!(counter.get(), 0);
}

#[test]
fn stream_wait_failure_is_terminal() {
    let mut counter = CompletionCounter::new();
    let mut run = StreamRun::new();
    assert!(run.step(&mut counter, StreamInput::Spawned).is_none());
    assert!(run.step(&mut counter, StreamInput::OutputClosed).is_none());
    assert_eq!(run.phase(), StreamPhase::Waiting);
    let e = run.step(&mut counter, StreamInput::WaitFailed("interrupted".to_string()));
    assert!(matches!(e, Some(StreamEvent::Error(ref m)) if m == "interrupted"));
    assert_eq!(counter.get(), 1);
    assert!(run.step(&mut counter, StreamInput::Exited(Some(0))).is_none());
    assert_eq!(counter.get(), 1);
}

#[test]
fn stream_nonzero_exit_reported() {
    let mut counter = CompletionCounter::new();
    let mut run = StreamRun::new();
    run.step(&mut counter, StreamInput::Spawned);
    let e = run.step(&mut counter, StreamInput::Exited(Some(3)));
    assert!(matches!(e, Some(StreamEvent::Done(Some(3)))));
    assert_eq!(counter.get(), 1);
}

#[test]
fn selector_chooses_order() {
    assert_eq!(SearchOrder::from_selector("created_at"), SearchOrder::Recency);
    assert_eq!(SearchOrder::from_selector("score"), SearchOrder::Relevance);
    assert_eq!(SearchOrder::from_selector(""), SearchOrder::Relevance);
    assert_eq!(SearchOrder::from_selector("created_at; DROP TABLE posts"), SearchOrder::Relevance);
}

#[test]
fn query_filters_orders_and_caps() {
    let q = search_query(SearchOrder::Relevance);
    assert!(q.contains("score >= 3.0"));
    assert!(q.ends_with("ORDER BY score DESC LIMIT 1000"));
    let q = search_query(SearchOrder::Recency);
    assert!(q.contains("score >= 3.0"));
    assert!(q.ends_with("ORDER BY created_at DESC LIMIT 1000"));
    assert!(q.starts_with("SELECT DISTINCT"));
    assert_eq!(q.matches('?').count(), 1);
    assert_eq!(setup_statement(), "SET scalar_subquery_error_on_multiple_rows = false");
}

#[test]
fn params_bind_term() {
    assert_eq!(search_params("rust"), vec!["rust".to_string()]);
}

#[test]
fn collect_skips_undecoded_rows() {
    let rows = vec![Some(post(1)), None, Some(post(2)), None];
    let posts = collect_posts(&rows);
    assert_eq!(posts.len(), 2);
    assert_eq!(posts[0].did, "did:1");
    assert_eq!(posts[1].text, "post 2");
}

#[test]
fn search_without_matches_is_empty() {
    assert!(collect_posts(&Vec::new()).is_empty());
    assert!(collect_posts(&vec![None, None]).is_empty());
}

#[test]
fn collect_caps_rows() {
    let rows: Vec<Option<Post>> = (0..1500).map(|n| Some(post(n))).collect();
    let posts = collect_posts(&rows);
    assert_eq!(posts.len(), MAX_RESULTS);
    assert_eq!(posts[999].did, "did:999");
}

use git_iter::{Action, Event, ExecMode, Op, Orchestrator, OutMode, RunContext, RunError};

const LOG: &str = "c3 - 2024-03-03 - third\nc2 - 2024-02-02 - second\nc1 - 2024-01-01 - first\n";

fn start(out_mode: OutMode, exec_mode: ExecMode, allow_dirty: bool) -> Orchestrator {
    let o = Orchestrator::new(RunContext {
        repo: "repo".to_string(),
        repo_abs: "/abs/repo".to_string(),
        command: "echo hi".to_string(),
        out_mode,
        exec_mode,
        allow_dirty,
    });
    assert!(matches!(o.current_op(), Op::QueryStatus));
    o
}

fn checkout_hash(a: &Action) -> String {
    match &a.op {
        Op::Checkout(h) => h.clone(),
        _ => panic!("a checkout was expected"),
    }
}

fn ran(stdout: &str, status: i32) -> Event {
    Event::Ran { stdout: stdout.as_bytes().to_vec(), stderr: Vec::new(), status }
}

/// Drives a clean run up to the first checkout.
fn to_first_checkout(o: &mut Orchestrator) -> Action {
    let a = o.step(Event::Status(String::new()));
    assert!(matches!(a.op, Op::QueryRef));
    let a = o.step(Event::OriginalRef("feature".to_string()));
    assert!(matches!(a.op, Op::QueryLog));
    o.step(Event::Log(LOG.to_string()))
}

#[test]
fn three_commits_echo_hi_newest_first_and_restored() {
    let mut o = start(OutMode::Json, ExecMode::Batch, false);
    let mut a = to_first_checkout(&mut o);
    let mut order = Vec::new();
    for _ in 0..3 {
        order.push(checkout_hash(&a));
        a = o.step(Event::CheckedOut(true));
        match &a.op {
            Op::Execute { commit, command } => {
                assert_eq!(command, "echo hi");
                assert_eq!(&commit.hash, order.last().unwrap());
            },
            _ => panic!("an execute was expected"),
        }
        a = o.step(ran("hi\n", 0));
    }
    assert_eq!(order, vec!["c3", "c2", "c1"]);
    match &a.op {
        Op::Restore(r) => assert_eq!(r, "feature"),
        _ => panic!("a restore was expected"),
    }
    assert_eq!(o.results.len(), 3);
    for (r, h) in o.results.iter().zip(["c3", "c2", "c1"]) {
        assert_eq!(r.commit.hash, h);
        assert_eq!(r.stdout, "hi\n");
        assert_eq!(r.stderr, "");
        assert_eq!(r.status, 0);
    }
    assert_eq!(a.emit.len(), 1);
    let v: serde_json::Value = serde_json::from_str(&a.emit[0]).unwrap();
    assert_eq!(v.as_array().unwrap().len(), 3);
    let a = o.step(Event::Restored(true));
    assert!(matches!(a.op, Op::Finish(Ok(()))));
}

#[test]
fn dirty_repository_is_refused_before_any_checkout() {
    let mut o = start(OutMode::Text, ExecMode::Batch, false);
    let a = o.step(Event::Status(" M file.rs\n".to_string()));
    assert!(matches!(a.op, Op::Finish(Err(RunError::DirtyRepository))));
    for ev in [Event::OriginalRef("main".to_string()), Event::Log(LOG.to_string()), Event::CheckedOut(true)] {
        let a = o.step(ev);
        assert!(matches!(a.op, Op::Finish(Err(RunError::DirtyRepository))));
        assert!(a.emit.is_empty());
    }
}

#[test]
fn allow_dirty_proceeds() {
    let mut o = start(OutMode::Text, ExecMode::Batch, true);
    let a = o.step(Event::Status(" M file.rs\n".to_string()));
    assert!(matches!(a.op, Op::QueryRef));
}

#[test]
fn nonzero_status_does_not_stop_the_loop() {
    let mut o = start(OutMode::Text, ExecMode::Batch, false);
    to_first_checkout(&mut o);
    o.step(Event::CheckedOut(true));
    let a = o.step(ran("", 1));
    assert_eq!(checkout_hash(&a), "c2");
    assert_eq!(o.results[0].status, 1);
    o.step(Event::CheckedOut(true));
    let a = o.step(ran("", 0));
    assert_eq!(checkout_hash(&a), "c1");
}

#[test]
fn failed_checkout_restores_then_fails() {
    let mut o = start(OutMode::Text, ExecMode::Batch, false);
    to_first_checkout(&mut o);
    o.step(Event::CheckedOut(true));
    o.step(ran("", 0));
    let a = o.step(Event::CheckedOut(false));
    match &a.op {
        Op::Restore(r) => assert_eq!(r, "feature"),
        _ => panic!("a restore was expected"),
    }
    let a = o.step(Event::Restored(true));
    assert!(matches!(a.op, Op::Finish(Err(RunError::Checkout))));
}

#[test]
fn spawn_failure_restores_then_fails() {
    let mut o = start(OutMode::Text, ExecMode::Batch, false);
    to_first_checkout(&mut o);
    o.step(Event::CheckedOut(true));
    let a = o.step(Event::SpawnFailed);
    assert!(matches!(a.op, Op::Restore(_)));
    let a = o.step(Event::Restored(true));
    assert!(matches!(a.op, Op::Finish(Err(RunError::CommandExecution))));
}

#[test]
fn malformed_log_restores_then_fails_with_its_line() {
    let mut o = start(OutMode::Text, ExecMode::Batch, false);
    o.step(Event::Status(String::new()));
    o.step(Event::OriginalRef("main".to_string()));
    let a = o.step(Event::Log("c3 - d - s\nnonsense\n".to_string()));
    assert!(a.emit.is_empty());
    assert!(matches!(a.op, Op::Restore(_)));
    let a = o.step(Event::Restored(true));
    assert!(matches!(a.op, Op::Finish(Err(RunError::Parse(1)))));
}

#[test]
fn failed_restore_fails_the_run() {
    let mut o = start(OutMode::Text, ExecMode::Batch, false);
    o.step(Event::Status(String::new()));
    o.step(Event::OriginalRef("main".to_string()));
    let a = o.step(Event::Log(String::new()));
    assert!(matches!(a.op, Op::Restore(_)));
    let a = o.step(Event::Restored(false));
    assert!(matches!(a.op, Op::Finish(Err(RunError::Restore))));
}

#[test]
fn unexpected_event_asks_again() {
    let mut o = start(OutMode::Text, ExecMode::Batch, false);
    let a = o.step(Event::CheckedOut(true));
    assert!(matches!(a.op, Op::QueryStatus));
    assert!(a.emit.is_empty());
}

#[test]
fn streaming_emits_each_record_before_the_next_checkout() {
    let mut o = start(OutMode::Csv, ExecMode::Streaming, false);
    let a = to_first_checkout(&mut o);
    assert_eq!(a.emit, vec!["repo,hash,datetime,name,status,stdout,stderr\n"]);
    o.step(Event::CheckedOut(true));
    let a = o.step(ran("hi\n", 0));
    assert_eq!(checkout_hash(&a), "c2");
    assert_eq!(a.emit, vec!["/abs/repo,c3,2024-03-03,third,0,hi\\n,\n"]);
    o.step(Event::CheckedOut(true));
    let a = o.step(ran("", 0));
    assert_eq!(a.emit.len(), 1);
    o.step(Event::CheckedOut(true));
    let a = o.step(ran("", 0));
    assert_eq!(a.emit.len(), 1);
    assert!(matches!(a.op, Op::Restore(_)));
}

#[test]
fn batch_emits_nothing_until_the_last_commit() {
    let mut o = start(OutMode::Csv, ExecMode::Batch, false);
    let a = to_first_checkout(&mut o);
    assert!(a.emit.is_empty());
    for i in 0..3 {
        let a = o.step(Event::CheckedOut(true));
        assert!(a.emit.is_empty());
        let a = o.step(ran("out", 0));
        if i < 2 {
            assert!(a.emit.is_empty());
        } else {
            assert_eq!(
                a.emit,
                vec!["repo,hash,datetime,name,status,stdout,stderr\n/abs/repo,c3,2024-03-03,third,0,out,\n/abs/repo,c2,2024-02-02,second,0,out,\n/abs/repo,c1,2024-01-01,first,0,out,\n"]
            );
        }
    }
}

#[test]
fn batch_of_empty_history_still_flushes() {
    let mut o = start(OutMode::Json, ExecMode::Batch, false);
    o.step(Event::Status(String::new()));
    o.step(Event::OriginalRef("main".to_string()));
    let a = o.step(Event::Log(String::new()));
    assert_eq!(a.emit, vec!["[]\n"]);
}

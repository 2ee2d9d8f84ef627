use build_it_agent::monitor::{
    collect_failed_terminations, detect_forbidden_processes, get_default_forbidden_list,
    TerminationOutcome,
};
use build_it_agent::registry::{accept_request, JobRegistry, JobState};
use build_it_agent::runner::{
    compile_failure_response, make_case_result, success_response, CaseObservation,
};
use build_it_agent::rusq::{MpmcQueue, Priority, RusqConfig, RusqError};
use build_it_agent::types::{ExecutionStatus, Platform, TestCase};

fn observation(stdout: &str, clean: bool, timed_out: bool, duration_ms: u64) -> CaseObservation {
    CaseObservation {
        exited_cleanly: clean,
        timed_out,
        stdout: stdout.to_string(),
        stderr: String::new(),
        duration_ms,
        exit_code: if clean { Some(0) } else { None },
        term_signal: None,
    }
}

#[test]
fn scenario_python3_addition() {
    let case1 = TestCase {
        id: 1,
        input: "5\n10\n".to_string(),
        expected: Some("15\n".to_string()),
        timeout_ms: None,
    };
    let case2 = TestCase {
        id: 2,
        input: "3\n7\n".to_string(),
        expected: Some("10\n".to_string()),
        timeout_ms: None,
    };

    let r1 = make_case_result(&case1, observation("15\n", true, false, 12));
    let r2 = make_case_result(&case2, observation("10\n", true, false, 11));
    assert!(r1.passed && r1.ok);
    assert!(r2.passed && r2.ok);

    let response = success_response("python3".to_string(), true, vec![r1, r2]);
    assert!(response.compiled);
    assert_eq!(response.language, "python3");
    assert!(matches!(response.status, Some(ExecutionStatus::Success)));
    assert_eq!(response.results.len(), 2);
    assert_eq!(response.total_duration_ms, 23);
}

#[test]
fn scenario_gcc_compile_error() {
    let stderr = "main.c: In function 'main':\nmain.c:1:13: error: 'retrn' undeclared";
    let response = compile_failure_response("gcc".to_string(), stderr.to_string());

    assert!(!response.compiled);
    assert!(matches!(response.status, Some(ExecutionStatus::CompileError)));
    assert!(response.message.as_ref().unwrap().contains("undeclared"));
    assert!(response.results.is_empty());
}

#[test]
fn scenario_infinite_loop_timeout() {
    let case = TestCase {
        id: 1,
        input: "".to_string(),
        expected: Some("".to_string()),
        timeout_ms: Some(200),
    };
    assert_eq!(case.effective_timeout_ms(), 200);

    let result = make_case_result(&case, observation("", false, true, 231));
    assert!(result.timed_out);
    assert!(!result.ok);
    assert!(result.duration_ms >= 200);
}

#[test]
fn scenario_priority_preemption() {
    let mut queue: MpmcQueue<String> = MpmcQueue::new(RusqConfig::default());

    queue.send_with_priority("low-1".to_string(), "jobs".to_string(), Priority::Low).unwrap();
    queue.send_with_priority("low-2".to_string(), "jobs".to_string(), Priority::Low).unwrap();
    queue.send_with_priority("low-3".to_string(), "jobs".to_string(), Priority::Low).unwrap();
    queue
        .send_with_priority("critical".to_string(), "jobs".to_string(), Priority::Critical)
        .unwrap();
    queue.send_with_priority("normal".to_string(), "jobs".to_string(), Priority::Normal).unwrap();

    assert_eq!(queue.try_recv().unwrap().payload, "critical");
    assert_eq!(queue.try_recv().unwrap().payload, "normal");
    assert_eq!(queue.try_recv().unwrap().payload, "low-1");
    assert_eq!(queue.try_recv().unwrap().payload, "low-2");
    assert_eq!(queue.try_recv().unwrap().payload, "low-3");
    assert!(matches!(queue.try_recv(), Err(RusqError::Empty)));
}

#[test]
fn scenario_unknown_language() {
    let mut registry = JobRegistry::new();
    let available = vec!["python3".to_string(), "gcc".to_string()];

    let rejected = accept_request(&mut registry, &available, &"brainfuck".to_string());
    assert!(rejected.is_none());
    assert_eq!(registry.job_count(), 0);

    let accepted = accept_request(&mut registry, &available, &"python3".to_string());
    assert_eq!(accepted, Some(1));
    assert_eq!(registry.job_count(), 1);
    assert!(matches!(registry.status(1), Some(JobState::Queued)));
}

#[test]
fn scenario_forbidden_process_detection() {
    let denylist = get_default_forbidden_list(Platform::Linux);
    let candidates = vec![
        "Code Helper".to_string(),
        "systemd".to_string(),
        "cargo".to_string(),
    ];

    let detected = detect_forbidden_processes(&denylist, &candidates);
    assert_eq!(detected, vec!["Code Helper".to_string()]);

    let outcomes = vec![TerminationOutcome { name: "Code Helper".to_string(), killed: true }];
    let failed = collect_failed_terminations(&outcomes);
    assert!(failed.is_empty());

    let outcomes = vec![TerminationOutcome { name: "Code Helper".to_string(), killed: false }];
    let failed = collect_failed_terminations(&outcomes);
    assert_eq!(failed, vec!["Code Helper".to_string()]);
}

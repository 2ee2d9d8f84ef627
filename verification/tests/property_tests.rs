use build_it_agent::monitor::detect_forbidden_processes;
use build_it_agent::prober::classify_probe_output;
use build_it_agent::registry::JobRegistry;
use build_it_agent::runner::{
    assemble_case_results, make_case_result, success_response, unsupported_language_response,
    CaseObservation, WorkspaceTracker,
};
use build_it_agent::rusq::{Message, MpmcQueue, Priority, RusqConfig, RusqError};
use build_it_agent::text::name_matches;
use build_it_agent::types::{
    CaseResult, ExecuteResponse, ExecutionStatus, Platform, TestCase,
};

fn plain_observation(stdout: &str) -> CaseObservation {
    CaseObservation {
        exited_cleanly: true,
        timed_out: false,
        stdout: stdout.to_string(),
        stderr: String::new(),
        duration_ms: 1,
        exit_code: Some(0),
        term_signal: None,
    }
}

#[test]
fn test_case_result_creation() {
    let result = CaseResult {
        id: 1,
        ok: true,
        passed: true,
        input: "test input".to_string(),
        expected: Some("expected output".to_string()),
        stdout: "actual output".to_string(),
        stderr: "".to_string(),
        timed_out: false,
        duration_ms: 100,
        memory_kb: 1024,
        exit_code: Some(0),
        term_signal: None,
    };

    assert_eq!(result.id, 1);
    assert!(result.ok);
    assert!(result.passed);
    assert!(!result.timed_out);
    assert_eq!(result.duration_ms, 100);
}

#[test]
fn exact_match_verdict_is_byte_exact() {
    let with_expected = TestCase {
        id: 1,
        input: String::new(),
        expected: Some("a\n".to_string()),
        timeout_ms: None,
    };

    let exact = make_case_result(&with_expected, plain_observation("a\n"));
    assert!(exact.passed);

    let missing_newline = make_case_result(&with_expected, plain_observation("a"));
    assert!(!missing_newline.passed);
    assert!(missing_newline.ok);

    let no_expected = TestCase { id: 2, input: String::new(), expected: None, timeout_ms: None };
    let unchecked = make_case_result(&no_expected, plain_observation("anything"));
    assert!(!unchecked.passed);
    assert!(unchecked.ok);
}

#[test]
fn default_timeout_is_five_seconds() {
    let case = TestCase { id: 1, input: String::new(), expected: None, timeout_ms: None };
    assert_eq!(case.effective_timeout_ms(), 5000);

    let explicit = TestCase { id: 1, input: String::new(), expected: None, timeout_ms: Some(200) };
    assert_eq!(explicit.effective_timeout_ms(), 200);
}

#[test]
fn total_duration_sums_case_durations() {
    let case = TestCase { id: 1, input: String::new(), expected: None, timeout_ms: None };
    let r1 = make_case_result(&case, plain_observation("x"));
    let mut r2 = make_case_result(&case, plain_observation("y"));
    r2.duration_ms = 41;

    let response: ExecuteResponse = success_response("gcc".to_string(), true, vec![r1, r2]);
    assert_eq!(response.total_duration_ms, 42);
}

#[test]
fn unsupported_language_is_tagged() {
    let response = unsupported_language_response("brainfuck".to_string());
    assert!(!response.compiled);
    assert!(matches!(response.status, Some(ExecutionStatus::UnsupportedLanguage)));
    assert!(response.results.is_empty());
}

#[test]
fn job_ids_strictly_increase() {
    let mut registry = JobRegistry::new();
    let id1 = registry.accept();
    let id2 = registry.accept();
    let id3 = registry.accept();
    assert!(id1 < id2 && id2 < id3);
}

#[test]
fn terminal_job_states_are_stable() {
    let mut registry = JobRegistry::new();
    let id = registry.accept();

    assert!(registry.set_running(id));
    let verdict = unsupported_language_response("python3".to_string());
    assert!(registry.complete(id, verdict));

    assert!(!registry.set_running(id));
    assert!(!registry.fail(id, "too late".to_string()));
    assert!(!registry.complete(id, unsupported_language_response("gcc".to_string())));

    match registry.status(id) {
        Some(build_it_agent::registry::JobState::Completed(r)) => {
            assert_eq!(r.language, "python3");
        },
        _ => panic!("expected a completed job"),
    }
}

#[test]
fn nack_routes_to_dead_letter_only_past_max_retries() {
    let mut queue: MpmcQueue<String> = MpmcQueue::new(RusqConfig::default());

    let fresh = Message::new("job".to_string(), "t".to_string());
    assert!(matches!(queue.nack(fresh), Err(RusqError::RetryRequired)));
    assert!(matches!(queue.dead_letter_try_recv(), Err(RusqError::Empty)));

    let mut worn = Message::new("job".to_string(), "t".to_string());
    worn.retry_count = 3;
    assert!(queue.nack(worn).is_ok());
    let dead = queue.dead_letter_try_recv().unwrap();
    assert_eq!(dead.payload, "job");
    assert_eq!(dead.retry_count, 4);
}

#[test]
fn denylist_match_is_case_insensitive_substring() {
    assert!(name_matches("CODE.EXE", "code"));
    assert!(name_matches("codec", "CODE"));
    assert!(name_matches("Sublime Text 4", "sublime text"));
    assert!(!name_matches("python", "code"));
    assert!(name_matches("anything", ""));
}

#[test]
fn detection_output_is_sorted_and_deduplicated() {
    let patterns = vec!["vim".to_string(), "atom".to_string()];
    let candidates = vec![
        "vim".to_string(),
        "Vim".to_string(),
        "atom".to_string(),
        "vim".to_string(),
        "bash".to_string(),
    ];

    let detected = detect_forbidden_processes(&patterns, &candidates);
    assert_eq!(
        detected,
        vec!["Vim".to_string(), "atom".to_string(), "vim".to_string()]
    );

    let none = detect_forbidden_processes(&patterns, &Vec::new());
    assert!(none.is_empty());
}

#[test]
fn probe_classifier_extracts_first_banner() {
    assert_eq!(
        classify_probe_output("Python 3.9.0\n"),
        Some("Python 3.9.0".to_string())
    );
    assert_eq!(
        classify_probe_output("  g++ (GCC) 12.2.0  \nCopyright (C) 2022\n"),
        Some("g++ (GCC) 12.2.0".to_string())
    );
    assert_eq!(
        classify_probe_output("\n\n   \njava version \"17\"\n"),
        Some("java version \"17\"".to_string())
    );
    assert_eq!(classify_probe_output("sh: python3: command not found\n"), None);
    assert_eq!(
        classify_probe_output("'node' is not recognized as an internal or external command\n"),
        None
    );
    assert_eq!(classify_probe_output("\n  \n\t\n"), None);
    assert_eq!(classify_probe_output(""), None);
}

#[test]
fn case_results_follow_submission_order() {
    let cases = vec![
        TestCase { id: 7, input: "a".to_string(), expected: Some("x".to_string()), timeout_ms: None },
        TestCase { id: 3, input: "b".to_string(), expected: Some("y".to_string()), timeout_ms: None },
    ];
    let observations = vec![plain_observation("x"), plain_observation("z")];

    let results = assemble_case_results(&cases, observations);
    assert_eq!(results.len(), 2);
    assert_eq!(results[0].id, 7);
    assert!(results[0].passed);
    assert_eq!(results[1].id, 3);
    assert!(!results[1].passed);
}

#[test]
fn blank_lines_cover_unicode_whitespace() {
    assert_eq!(classify_probe_output("\u{000C}\u{000C}\n\u{00A0}\u{3000}\n"), None);
    assert_eq!(
        classify_probe_output("\u{000C}\n\u{00A0}rustc 1.80.0\u{2002}\nextra\n"),
        Some("rustc 1.80.0".to_string())
    );
}

#[test]
fn workspaces_stay_disjoint() {
    let mut tracker = WorkspaceTracker::new();
    assert!(tracker.acquire("/tmp/job-a".to_string()));
    assert!(tracker.acquire("/tmp/job-b".to_string()));
    assert!(!tracker.acquire("/tmp/job-a".to_string()));

    tracker.release("/tmp/job-a");
    assert!(tracker.acquire("/tmp/job-a".to_string()));
}

#[test]
fn platform_names_match_wire_values() {
    assert_eq!(Platform::Linux.name(), "linux");
    assert_eq!(Platform::Windows.name(), "windows");
    assert_eq!(Platform::MacOs.name(), "macos");
    assert_eq!(Platform::Unknown.name(), "unknown");
}

#[test]
fn queue_full_band_rejects_send() {
    let config = RusqConfig {
        capacity: Some(2),
        enable_priority: true,
        max_retries: 3,
        consumer_timeout_ms: 1000,
        enable_metrics: true,
    };
    let mut queue: MpmcQueue<String> = MpmcQueue::new(config);

    queue.send("one".to_string(), "t".to_string()).unwrap();
    queue.send("two".to_string(), "t".to_string()).unwrap();
    let rejected = queue.send("three".to_string(), "t".to_string());
    assert!(matches!(rejected, Err(RusqError::QueueFull)));

    let accepted = queue.send_with_priority("urgent".to_string(), "t".to_string(), Priority::High);
    assert!(accepted.is_ok());
}

use delivery_station::executor::{StepResult, StepsResult};
use delivery_station::logs::{log_file_path, make_log_url, make_rel_path};
use delivery_station::text::usize_to_string;
use delivery_station::tmp_filename;

fn run_result(results: Vec<StepResult>) -> StepsResult {
    let status = results.last().map(|r| r.status).unwrap_or(0);
    StepsResult { status, action_result: results }
}

#[test]
fn nonempty_stdout_gets_a_url_and_empty_stderr_none() {
    let result = run_result(vec![StepResult::new(
        0,
        Some("build".to_string()),
        Some(b"hello".to_vec()),
        Some(Vec::new()),
    )]);
    let (files, logs) = result.persist_plan("http://host", "run1");

    assert_eq!(logs.len(), 1);
    assert_eq!(logs[0].description.as_deref(), Some("build"));
    assert_eq!(logs[0].stdout.as_deref(), Some("http://host/logs?id=run1/0/1"));
    assert_eq!(logs[0].stderr, None);

    assert_eq!(files.len(), 1);
    assert_eq!(files[0].rel_path, "run1/0/1");
    assert_eq!(files[0].bytes, b"hello".to_vec());
}

#[test]
fn both_streams_yield_two_files_in_order() {
    let result = run_result(vec![StepResult::new(
        1,
        None,
        Some(b"out".to_vec()),
        Some(b"err".to_vec()),
    )]);
    let (files, logs) = result.persist_plan("http://host", "r");

    assert_eq!(files.len(), 2);
    assert_eq!(files[0].rel_path, "r/0/1");
    assert_eq!(files[0].bytes, b"out".to_vec());
    assert_eq!(files[1].rel_path, "r/0/2");
    assert_eq!(files[1].bytes, b"err".to_vec());
    assert_eq!(logs[0].stdout.as_deref(), Some("http://host/logs?id=r/0/1"));
    assert_eq!(logs[0].stderr.as_deref(), Some("http://host/logs?id=r/0/2"));
}

#[test]
fn absent_streams_yield_no_files_and_no_urls() {
    let result = run_result(vec![StepResult::new(0, None, None, None)]);
    let (files, logs) = result.persist_plan("http://host", "r");
    assert!(files.is_empty());
    assert_eq!(logs.len(), 1);
    assert_eq!(logs[0].stdout, None);
    assert_eq!(logs[0].stderr, None);
}

#[test]
fn url_id_leads_back_to_the_original_bytes() {
    // Round trip at the plan level: take the id out of the issued URL, look
    // it up among the planned writes, and compare the bytes.
    let payload = b"line one\nline two\n".to_vec();
    let result = run_result(vec![
        StepResult::new(0, None, Some(b"first".to_vec()), None),
        StepResult::new(0, None, Some(payload.clone()), Some(b"warnings".to_vec())),
    ]);
    let (files, logs) = result.persist_plan("https://ci.example", "abc123");

    let url = logs[1].stdout.clone().unwrap();
    let id = url.strip_prefix("https://ci.example/logs?id=").unwrap();
    assert_eq!(id, "abc123/1/1");
    let file = files.iter().find(|f| f.rel_path == id).unwrap();
    assert_eq!(file.bytes, payload);

    // The write path and the retrieval path are the same function of the id.
    assert_eq!(
        log_file_path("/var/lib/ds", id),
        "/var/lib/ds/cache/logs/abc123/1/1"
    );
}

#[test]
fn distinct_run_ids_plan_disjoint_paths() {
    let mk = || {
        run_result(vec![
            StepResult::new(0, None, Some(b"a".to_vec()), Some(b"b".to_vec())),
            StepResult::new(0, None, Some(b"c".to_vec()), None),
        ])
    };
    let (files1, _) = mk().persist_plan("http://h", "runa");
    let (files2, _) = mk().persist_plan("http://h", "runb");
    for f1 in &files1 {
        for f2 in &files2 {
            assert_ne!(f1.rel_path, f2.rel_path);
        }
    }
}

#[test]
fn multi_digit_indices_render_in_decimal() {
    let mut results = Vec::new();
    for _ in 0..12 {
        results.push(StepResult::new(0, None, None, None));
    }
    results.push(StepResult::new(0, None, Some(b"x".to_vec()), None));
    let result = run_result(results);
    let (files, _) = result.persist_plan("http://h", "r");
    assert_eq!(files[0].rel_path, "r/12/1");
}

#[test]
fn rel_path_and_url_builders_compose() {
    assert_eq!(make_rel_path("run", 3, 2), "run/3/2");
    assert_eq!(make_log_url("http://b", "run/3/2"), "http://b/logs?id=run/3/2");
}

#[test]
fn usize_renders_in_decimal() {
    assert_eq!(usize_to_string(0), "0");
    assert_eq!(usize_to_string(7), "7");
    assert_eq!(usize_to_string(10), "10");
    assert_eq!(usize_to_string(90210), "90210");
}

#[test]
fn tmp_filename_is_alphanumeric_of_requested_length() {
    let name = tmp_filename(16);
    assert_eq!(name.len(), 16);
    assert!(name.chars().all(|c| c.is_ascii_alphanumeric()));
    let other = tmp_filename(16);
    // Randomized: two fresh names virtually never coincide, and never
    // contain a path separator.
    assert_ne!(name, other);
    assert_eq!(tmp_filename(0), "");
}

use delivery_station::executor::StepResult;
use delivery_station::pipeline::PipelineRun;

fn result_with_status(status: i32) -> StepResult {
    StepResult::new(status, None, None, None)
}

#[test]
fn short_circuit_stops_after_failing_step() {
    // A 3-step pipeline where step 2 exits nonzero: exactly 2 results, the
    // overall status is step 2's, and step 3 is never issued.
    let mut run = PipelineRun::new(3);
    let mut executed: Vec<usize> = Vec::new();

    while let Some(i) = run.next_index() {
        executed.push(i);
        let status = if i == 1 { 7 } else { 0 };
        run.record(result_with_status(status));
    }

    assert_eq!(executed, vec![0, 1]);
    let result = run.finish();
    assert_eq!(result.action_result.len(), 2);
    assert_eq!(result.status, 7);
    assert!(!result.success());
}

#[test]
fn all_steps_succeeding_run_to_completion() {
    let mut run = PipelineRun::new(3);
    let mut count = 0;
    while let Some(_i) = run.next_index() {
        count += 1;
        run.record(result_with_status(0));
    }
    assert_eq!(count, 3);
    let result = run.finish();
    assert_eq!(result.action_result.len(), 3);
    assert_eq!(result.status, 0);
    assert!(result.success());
}

#[test]
fn empty_pipeline_finishes_with_zero_status() {
    let run = PipelineRun::new(0);
    assert_eq!(run.next_index(), None);
    let result = run.finish();
    assert_eq!(result.status, 0);
    assert!(result.action_result.is_empty());
}

#[test]
fn failure_on_first_step_skips_the_rest() {
    let mut run = PipelineRun::new(2);
    assert_eq!(run.next_index(), Some(0));
    run.record(result_with_status(1));
    assert_eq!(run.next_index(), None);
    let result = run.finish();
    assert_eq!(result.action_result.len(), 1);
    assert_eq!(result.status, 1);
}

#[test]
fn step_result_success_is_zero_status() {
    assert!(result_with_status(0).success());
    assert!(!result_with_status(1).success());
    assert!(!result_with_status(-1).success());
}

#[test]
fn step_result_new_keeps_fields() {
    let r = StepResult::new(
        5,
        Some("deploy".to_string()),
        Some(b"out".to_vec()),
        Some(Vec::new()),
    );
    assert_eq!(r.status, 5);
    assert_eq!(r.description.as_deref(), Some("deploy"));
    assert_eq!(r.stdout.as_deref(), Some(&b"out"[..]));
    assert_eq!(r.stderr.as_deref(), Some(&b""[..]));
}

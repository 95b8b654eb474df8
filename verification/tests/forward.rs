use kubertui::forward::{
    log_contains_marker, output_line_count, ps_indicates_alive, timeout_error_message,
    ForwardAttempt, ForwardStep, FORWARD_POLL_INTERVAL_MS, FORWARD_TIMEOUT_MS,
};

#[test]
fn attempt_is_ready_as_soon_as_the_marker_is_seen() {
    let mut a = ForwardAttempt::new();
    assert_eq!(a.step(true), ForwardStep::Ready);
    assert_eq!(a.elapsed_ms, 0);
}

#[test]
fn attempt_waits_one_interval_per_step_before_the_timeout() {
    let mut a = ForwardAttempt::new();
    assert_eq!(a.step(false), ForwardStep::Wait);
    assert_eq!(a.elapsed_ms, FORWARD_POLL_INTERVAL_MS);
    assert_eq!(a.step(false), ForwardStep::Wait);
    assert_eq!(a.elapsed_ms, 2 * FORWARD_POLL_INTERVAL_MS);
}

#[test]
fn attempt_without_marker_fails_inside_the_timeout_window() {
    // the readiness log never emits the marker: the attempt must fail no
    // earlier than the timeout and no later than timeout + one interval
    let mut a = ForwardAttempt::new();
    let mut steps = 0u64;
    loop {
        match a.step(false) {
            ForwardStep::Wait => {
                steps += 1;
                assert!(steps <= 1000, "poll never timed out");
            }
            ForwardStep::TimedOut => break,
            ForwardStep::Ready => panic!("became ready without a marker"),
        }
    }
    assert!(a.elapsed_ms >= FORWARD_TIMEOUT_MS);
    assert!(a.elapsed_ms < FORWARD_TIMEOUT_MS + FORWARD_POLL_INTERVAL_MS);
    assert_eq!(steps, 30);
}

#[test]
fn attempt_can_become_ready_on_a_later_poll() {
    let mut a = ForwardAttempt::new();
    assert_eq!(a.step(false), ForwardStep::Wait);
    assert_eq!(a.step(false), ForwardStep::Wait);
    assert_eq!(a.step(true), ForwardStep::Ready);
}

#[test]
fn marker_is_found_in_any_line() {
    let lines = vec![
        "error: something".to_string(),
        "Forwarding from 127.0.0.1:8080 -> 80".to_string(),
    ];
    assert!(log_contains_marker(&lines));
}

#[test]
fn marker_absent_means_not_ready() {
    let lines = vec!["starting".to_string(), "still waiting".to_string()];
    assert!(!log_contains_marker(&lines));
    assert!(!log_contains_marker(&Vec::new()));
}

#[test]
fn line_count_matches_text_lines() {
    assert_eq!(output_line_count(&Vec::new()), 0);
    assert_eq!(output_line_count(&b"one line".to_vec()), 1);
    assert_eq!(output_line_count(&b"one line\n".to_vec()), 1);
    assert_eq!(output_line_count(&b"a\nb".to_vec()), 2);
    assert_eq!(output_line_count(&b"  PID TTY\n 1234 ?\n".to_vec()), 2);
}

#[test]
fn ps_alive_needs_success_and_a_row_beyond_the_header() {
    assert!(ps_indicates_alive(true, &b"  PID TTY\n 1234 ?\n".to_vec()));
    assert!(!ps_indicates_alive(true, &b"  PID TTY\n".to_vec()));
    assert!(!ps_indicates_alive(false, &b"  PID TTY\n 1234 ?\n".to_vec()));
    assert!(!ps_indicates_alive(true, &Vec::new()));
}

#[test]
fn timeout_failure_carries_stderr_or_a_generic_message() {
    assert_eq!(
        timeout_error_message("bind: address already in use".to_string()),
        "bind: address already in use"
    );
    assert_eq!(
        timeout_error_message(String::new()),
        "port-forward timed out before it became ready"
    );
}

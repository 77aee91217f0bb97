use statusline::snapshot::StatusLineGitSnapshot;
use statusline::state::FrameRequest;
use statusline::state::ReasoningEffort;
use statusline::state::StatusLineState;
use statusline::tokens::TokenUsage;
use statusline::tokens::TokenUsageInfo;

fn fresh() -> StatusLineState {
    StatusLineState::new("/home/user/project".to_string(), Some("project".to_string()), None)
}

fn usage(total: u64, reasoning: u64) -> TokenUsage {
    TokenUsage {
        total_tokens: total,
        input_tokens: 0,
        cached_input_tokens: 0,
        output_tokens: 0,
        reasoning_output_tokens: reasoning,
    }
}

fn info(total: u64, window: Option<u64>) -> TokenUsageInfo {
    TokenUsageInfo {
        total_token_usage: usage(total, 0),
        last_token_usage: usage(10, 0),
        model_context_window: window,
    }
}

#[test]
fn new_populates_directory_fields_and_requests_first_redraw() {
    let s = fresh();
    assert_eq!(s.snapshot.cwd_display, Some("/home/user/project".to_string()));
    assert_eq!(s.snapshot.cwd_basename, Some("project".to_string()));
    assert_eq!(s.snapshot.cwd_fallback, Some("project".to_string()));
    assert_eq!(s.frame_requests, vec![FrameRequest::Soon]);
}

#[test]
fn empty_basename_falls_back_to_display() {
    let mut s = fresh();
    s.set_working_directory("/".to_string(), Some(String::new()));
    assert_eq!(s.snapshot.cwd_display, Some("/".to_string()));
    assert_eq!(s.snapshot.cwd_basename, None);
    assert_eq!(s.snapshot.cwd_fallback, Some("/".to_string()));
}

#[test]
fn update_model_derives_detail_from_effort() {
    let mut s = fresh();
    s.update_model("gpt".to_string(), Some(ReasoningEffort::High));
    let m = s.snapshot.model.as_ref().unwrap();
    assert_eq!(m.label, "gpt");
    assert_eq!(m.detail, Some("high".to_string()));
    s.update_model("gpt".to_string(), Some(ReasoningEffort::Low));
    assert_eq!(s.snapshot.model.as_ref().unwrap().detail, Some("low".to_string()));
    s.update_model("gpt".to_string(), Some(ReasoningEffort::Medium));
    assert_eq!(s.snapshot.model.as_ref().unwrap().detail, None);
    s.update_model("gpt".to_string(), None);
    assert_eq!(s.snapshot.model.as_ref().unwrap().detail, None);
}

#[test]
fn update_tokens_none_clears_both_fields() {
    let mut s = fresh();
    s.update_tokens(Some(info(500, Some(1000))));
    assert!(s.snapshot.tokens.is_some());
    assert!(s.snapshot.context.is_some());
    s.update_tokens(None);
    assert!(s.snapshot.tokens.is_none());
    assert!(s.snapshot.context.is_none());
}

#[test]
fn context_present_iff_window_resolvable() {
    let mut s = fresh();
    s.update_tokens(Some(info(500, None)));
    assert!(s.snapshot.tokens.is_some());
    assert!(s.snapshot.context.is_none());

    s.update_tokens(Some(info(500, Some(2000))));
    let c = s.snapshot.context.unwrap();
    assert_eq!(c.window, 2000);
    assert_eq!(c.tokens_in_context, 500);
    assert_eq!(c.percent_remaining, 75);

    let mut with_hint =
        StatusLineState::new("/x".to_string(), None, Some(1000));
    with_hint.update_tokens(Some(info(500, None)));
    let c2 = with_hint.snapshot.context.unwrap();
    assert_eq!(c2.window, 1000);
    assert_eq!(c2.percent_remaining, 50);

    with_hint.update_tokens(Some(info(500, Some(4000))));
    assert_eq!(with_hint.snapshot.context.unwrap().window, 4000);
}

#[test]
fn environment_setters_replace_wholesale() {
    let mut s = fresh();
    s.set_devspace(Some("space1".to_string()));
    assert_eq!(s.snapshot.environment.devspace.as_ref().unwrap().name, "space1");
    s.set_devspace(None);
    assert!(s.snapshot.environment.devspace.is_none());
    s.set_hostname(Some("host".to_string()));
    assert_eq!(s.snapshot.environment.hostname, Some("host".to_string()));
    s.set_aws_profile(Some("prod".to_string()));
    assert_eq!(s.snapshot.environment.aws_profile, Some("prod".to_string()));
    s.set_kubernetes_context(Some("ctx".to_string()));
    assert_eq!(s.snapshot.environment.kubernetes_context, Some("ctx".to_string()));
    s.set_git_info(Some(StatusLineGitSnapshot { branch: Some("main".to_string()) }));
    assert_eq!(s.snapshot.git.as_ref().unwrap().branch, Some("main".to_string()));
    s.set_git_info(None);
    assert!(s.snapshot.git.is_none());
}

#[test]
fn set_session_id_is_a_noop() {
    let mut s = fresh();
    let frames_before = s.frame_requests.clone();
    s.set_session_id(Some("abc".to_string()));
    assert_eq!(s.frame_requests, frames_before);
    s.set_session_id(None);
    assert_eq!(s.frame_requests, frames_before);
}

#[test]
fn queued_messages_mirror_into_run_state() {
    let mut s = fresh();
    s.set_queued_messages(vec!["one".to_string()]);
    assert!(s.snapshot.run_state.is_none());
    s.start_task("Build".to_string(), 0);
    s.set_queued_messages(vec!["two".to_string(), "three".to_string()]);
    let rs = s.snapshot.run_state.as_ref().unwrap();
    assert_eq!(rs.queued_messages, vec!["two".to_string(), "three".to_string()]);
}

#[test]
fn update_run_header_unchanged_label_requests_no_redraw() {
    let mut s = fresh();
    s.start_task("Build".to_string(), 0);
    let before = s.frame_requests.len();
    s.update_run_header("Build".to_string());
    assert_eq!(s.frame_requests.len(), before);
    s.update_run_header("Deploy".to_string());
    assert_eq!(s.frame_requests.len(), before + 1);
    assert_eq!(s.snapshot.run_state.as_ref().unwrap().label, "Deploy");
}

#[test]
fn update_run_header_creates_run_state_before_any_timer() {
    let mut s = fresh();
    s.set_queued_messages(vec!["queued".to_string()]);
    let before = s.frame_requests.len();
    s.update_run_header("Warming up".to_string());
    let rs = s.snapshot.run_state.as_ref().unwrap();
    assert_eq!(rs.label, "Warming up");
    assert!(rs.show_interrupt_hint);
    assert_eq!(rs.queued_messages, vec!["queued".to_string()]);
    assert!(rs.timer.is_none());
    assert!(rs.spinner_started_at.is_none());
    assert_eq!(s.frame_requests.len(), before + 1);
    // the label survives a later start without resetting queued messages
    s.start_task("Warming up".to_string(), 100);
    assert!(s.run_timer.is_some());
}

#[test]
fn start_pause_resume_scenario_counts_only_running_time() {
    let mut s = fresh();
    s.start_task("Building".to_string(), 0);
    assert_eq!(s.elapsed_seconds(5_000), Some(5));
    s.pause_timer(5_000);
    assert_eq!(s.elapsed_seconds(8_000), Some(5));
    s.resume_timer(8_000);
    assert_eq!(s.elapsed_seconds(10_000), Some(7));
}

#[test]
fn complete_task_clears_timer_and_run_state() {
    let mut s = fresh();
    s.start_task("Build".to_string(), 0);
    s.complete_task(9_000);
    assert_eq!(s.elapsed_seconds(10_000), None);
    let snap = s.snapshot_for_render(10_000);
    assert!(snap.run_state.is_none());

    // same outcome when the timer was paused beforehand
    let mut s2 = fresh();
    s2.start_task("Build".to_string(), 0);
    s2.pause_timer(2_000);
    s2.complete_task(9_000);
    assert_eq!(s2.elapsed_seconds(10_000), None);
    assert!(s2.snapshot_for_render(10_000).run_state.is_none());
}

#[test]
fn start_task_resumes_existing_timer_without_reset() {
    let mut s = fresh();
    s.start_task("One".to_string(), 0);
    s.pause_timer(4_000);
    s.start_task("Two".to_string(), 10_000);
    // 4s accumulated before the pause, the 6s gap excluded
    assert_eq!(s.elapsed_seconds(12_000), Some(6));
    assert_eq!(s.snapshot.run_state.as_ref().unwrap().label, "Two");
}

#[test]
fn render_injects_live_timer_and_spinner_anchor() {
    let mut s = fresh();
    s.start_task("Build".to_string(), 500);
    let snap = s.snapshot_for_render(2_500);
    let rs = snap.run_state.as_ref().unwrap();
    let ts = rs.timer.unwrap();
    assert_eq!(ts.elapsed_running_ms, 2_000);
    assert!(!ts.is_paused);
    assert_eq!(rs.spinner_started_at, Some(500));
    assert!(rs.show_interrupt_hint);
}

#[test]
fn render_with_running_timer_requests_follow_up_every_call() {
    let mut s = fresh();
    s.start_task("Build".to_string(), 0);
    let before = s.frame_requests.len();
    let _ = s.snapshot_for_render(100);
    let _ = s.snapshot_for_render(101);
    assert_eq!(s.frame_requests.len(), before + 2);
    assert_eq!(s.frame_requests[before], FrameRequest::After { delay_ms: 48 });
    assert_eq!(s.frame_requests[before + 1], FrameRequest::After { delay_ms: 48 });
}

#[test]
fn render_with_paused_or_absent_timer_requests_no_follow_up() {
    let mut s = fresh();
    s.start_task("Build".to_string(), 0);
    s.pause_timer(1_000);
    let before = s.frame_requests.len();
    let _ = s.snapshot_for_render(2_000);
    assert_eq!(s.frame_requests.len(), before);

    let mut idle = fresh();
    let before_idle = idle.frame_requests.len();
    let _ = idle.snapshot_for_render(2_000);
    assert_eq!(idle.frame_requests.len(), before_idle);
}

#[test]
fn take_frame_requests_drains_in_order() {
    let mut s = fresh();
    s.request_redraw();
    let drained = s.take_frame_requests();
    assert_eq!(drained, vec![FrameRequest::Soon, FrameRequest::Soon]);
    assert!(s.frame_requests.is_empty());
    assert_eq!(s.take_frame_requests(), vec![]);
}

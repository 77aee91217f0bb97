//! The status-line orchestrator.
//!
//! [`StatusLineState`] owns the current snapshot, the optional run timer and
//! the queued-message list, folds each arriving event into one consistent
//! snapshot, and records a redraw request for every mutation. The host event
//! loop serializes all calls, drains the recorded [`FrameRequest`]s into its
//! frame scheduler (which coalesces duplicates), reads the monotonic clock,
//! and passes instants in as milliseconds.

use vstd::prelude::*;

use crate::snapshot::RunStateView;
use crate::snapshot::SnapshotView;
use crate::snapshot::StatusLineDevspaceSnapshot;
use crate::snapshot::StatusLineEnvironment;
use crate::snapshot::StatusLineGitSnapshot;
use crate::snapshot::StatusLineModelSnapshot;
use crate::snapshot::StatusLineRunState;
use crate::snapshot::StatusLineSnapshot;
use crate::snapshot::clone_string_vec;
use crate::timer::RunTimer;
use crate::tokens::TokenUsageInfo;
use crate::tokens::spec_context_snapshot;
use crate::tokens::spec_resolved_window;
use crate::tokens::spec_token_snapshot;
use crate::tokens::token_snapshot_from_info;

verus! {

/// Delay before the follow-up frame that keeps the spinner moving: about 20
/// frames per second.
pub const FRAME_DELAY_MS: u64 = 48;

/// One recorded redraw request for the host's frame scheduler.
#[derive(Clone, Copy, Debug, PartialEq, Eq)]
pub enum FrameRequest {
    /// Repaint as soon as possible.
    Soon,
    /// Repaint no earlier than this many milliseconds from now.
    After { delay_ms: u64 },
}

/// Reasoning-effort selection for the active model.
#[derive(Clone, Copy, Debug, PartialEq, Eq)]
pub enum ReasoningEffort {
    Minimal,
    Low,
    Medium,
    High,
}

/// The character sequences of an optional string.
pub open spec fn opt_text(o: Option<String>) -> Option<Seq<char>> {
    match o {
        Some(s) => Some(s@),
        None => None,
    }
}

/// The basename, kept only when non-empty.
pub open spec fn spec_nonempty(o: Option<String>) -> Option<String> {
    match o {
        Some(s) => if s@.len() > 0 {
            Some(s)
        } else {
            None
        },
        None => None,
    }
}

/// The detail string derived from a reasoning effort: `"high"` and `"low"`
/// are surfaced, every other value (including unset) yields no detail.
pub open spec fn spec_reasoning_detail(effort: Option<ReasoningEffort>) -> Option<Seq<char>> {
    match effort {
        Some(ReasoningEffort::High) => Some("high"@),
        Some(ReasoningEffort::Low) => Some("low"@),
        _ => None,
    }
}

/// Executable counterpart of [`spec_reasoning_detail`].
pub fn reasoning_detail(effort: Option<ReasoningEffort>) -> (r: Option<String>)
    ensures
        opt_text(r) == spec_reasoning_detail(effort),
{
    match effort {
        Some(ReasoningEffort::High) => Some("high".to_owned()),
        Some(ReasoningEffort::Low) => Some("low".to_owned()),
        _ => None,
    }
}

/// The orchestrator: current snapshot, optional run timer, queued messages,
/// the interrupt-hint flag, the configured context-window fallback, and the
/// redraw requests recorded since the host last drained them.
#[derive(Debug)]
pub struct StatusLineState {
    pub snapshot: StatusLineSnapshot,
    pub run_timer: Option<RunTimer>,
    pub queued_messages: Vec<String>,
    pub esc_hint: bool,
    pub context_window_hint: Option<u64>,
    pub frame_requests: Vec<FrameRequest>,
}

/// The fields no snapshot mutator touches.
pub open spec fn core_unchanged(a: StatusLineState, b: StatusLineState) -> bool {
    &&& a.run_timer == b.run_timer
    &&& a.queued_messages == b.queued_messages
    &&& a.esc_hint == b.esc_hint
    &&& a.context_window_hint == b.context_window_hint
}

/// The fields no timer operation touches.
pub open spec fn aux_unchanged(a: StatusLineState, b: StatusLineState) -> bool {
    &&& a.queued_messages == b.queued_messages
    &&& a.esc_hint == b.esc_hint
    &&& a.context_window_hint == b.context_window_hint
}

/// What `elapsed_seconds` reads at instant `now`.
pub open spec fn spec_elapsed_seconds(s: StatusLineState, now: u64) -> Option<u64> {
    match s.run_timer {
        Some(t) => Some((t.elapsed_at(now) / 1000) as u64),
        None => None,
    }
}

/// What `snapshot_for_render` materializes at instant `now`: the stored
/// snapshot, with live timer state, the spinner anchor, the current queued
/// messages and the current interrupt-hint flag injected when both a run
/// sub-snapshot and a timer exist.
pub open spec fn spec_render_snapshot(s: StatusLineState, now: u64) -> SnapshotView {
    match (s.snapshot.run_state, s.run_timer) {
        (Some(rs), Some(t)) => SnapshotView {
            run_state: Some(
                RunStateView {
                    label: rs.label,
                    show_interrupt_hint: s.esc_hint,
                    queued_messages: s.queued_messages@,
                    timer: Some(t.spec_snapshot(now)),
                    spinner_started_at: Some(t.spinner_started_at),
                },
            ),
            ..s.snapshot@
        },
        _ => s.snapshot@,
    }
}

impl StatusLineState {
    /// A well-formed state has a well-formed timer, if any.
    pub open spec fn wf(self) -> bool {
        match self.run_timer {
            Some(t) => t.wf(),
            None => true,
        }
    }

    /// Create a session state: directory fields populated from the initial
    /// working directory, everything else unknown, and the first redraw
    /// already requested.
    pub fn new(cwd_display: String, cwd_basename: Option<String>, context_window_hint: Option<
        u64,
    >) -> (r: StatusLineState)
        ensures
            r.snapshot@ == (SnapshotView {
                cwd_display: Some(cwd_display),
                cwd_basename: spec_nonempty(cwd_basename),
                cwd_fallback: (if spec_nonempty(cwd_basename) is Some {
                    spec_nonempty(cwd_basename)
                } else {
                    Some(cwd_display)
                }),
                model: None,
                tokens: None,
                context: None,
                git: None,
                environment: (StatusLineEnvironment {
                    devspace: None,
                    hostname: None,
                    aws_profile: None,
                    kubernetes_context: None,
                }),
                run_state: None,
            }),
            r.run_timer is None,
            r.queued_messages@ == Seq::<String>::empty(),
            r.esc_hint == true,
            r.context_window_hint == context_window_hint,
            r.frame_requests@ == seq![FrameRequest::Soon],
            r.wf(),
    {
        let mut state = StatusLineState {
            snapshot: StatusLineSnapshot::default(),
            run_timer: None,
            queued_messages: Vec::new(),
            esc_hint: true,
            context_window_hint,
            frame_requests: Vec::new(),
        };
        state.set_working_directory(cwd_display, cwd_basename);
        proof {
            assert(state.frame_requests@ =~= seq![FrameRequest::Soon]);
        }
        state
    }

    /// Recompute the directory display fields and request a redraw. The
    /// basename survives only when non-empty; the fallback is the kept
    /// basename, else the display string.
    pub fn set_working_directory(&mut self, display: String, basename: Option<String>)
        ensures
            final(self).snapshot@ == (SnapshotView {
                cwd_display: Some(display),
                cwd_basename: spec_nonempty(basename),
                cwd_fallback: (if spec_nonempty(basename) is Some {
                    spec_nonempty(basename)
                } else {
                    Some(display)
                }),
                ..old(self).snapshot@
            }),
            core_unchanged(*old(self), *final(self)),
            final(self).frame_requests@ == old(self).frame_requests@.push(FrameRequest::Soon),
    {
        let filtered: Option<String> = match basename {
            Some(b) => if b.as_str().is_empty() {
                None
            } else {
                Some(b)
            },
            None => None,
        };
        self.snapshot.cwd_display = Some(display.clone());
        self.snapshot.cwd_basename = match &filtered {
            Some(b) => Some(b.clone()),
            None => None,
        };
        self.snapshot.cwd_fallback = match filtered {
            Some(b) => Some(b),
            None => Some(display),
        };
        self.request_redraw();
    }

    /// Set the model label and its reasoning-effort detail; request a
    /// redraw.
    pub fn update_model(&mut self, label: String, effort: Option<ReasoningEffort>)
        ensures
            final(self).snapshot@ == (SnapshotView {
                model: final(self).snapshot@.model,
                ..old(self).snapshot@
            }),
            final(self).snapshot@.model matches Some(m) && m.label == label && opt_text(m.detail)
                == spec_reasoning_detail(effort),
            core_unchanged(*old(self), *final(self)),
            final(self).frame_requests@ == old(self).frame_requests@.push(FrameRequest::Soon),
    {
        let detail = reasoning_detail(effort);
        self.snapshot.model = Some(StatusLineModelSnapshot { label, detail });
        self.request_redraw();
    }

    /// Fold in a token-usage report: present reports set the token snapshot
    /// and derive the context snapshot under the window precedence
    /// (model-reported, else the configured hint, else none); an absent
    /// report clears both. Requests a redraw either way.
    pub fn update_tokens(&mut self, info: Option<TokenUsageInfo>)
        ensures
            final(self).snapshot@ == (SnapshotView {
                tokens: (match info {
                    Some(i) => Some(spec_token_snapshot(i)),
                    None => None,
                }),
                context: (match info {
                    Some(i) => spec_context_snapshot(
                        i,
                        spec_resolved_window(i, old(self).context_window_hint),
                    ),
                    None => None,
                }),
                ..old(self).snapshot@
            }),
            core_unchanged(*old(self), *final(self)),
            final(self).frame_requests@ == old(self).frame_requests@.push(FrameRequest::Soon),
    {
        match info {
            Some(info) => {
                let context_window = match info.model_context_window {
                    Some(w) => Some(w),
                    None => self.context_window_hint,
                };
                let (token_snapshot, context_snapshot) = token_snapshot_from_info(
                    &info,
                    context_window,
                );
                self.snapshot.tokens = Some(token_snapshot);
                self.snapshot.context = context_snapshot;
            },
            None => {
                self.snapshot.tokens = None;
                self.snapshot.context = None;
            },
        }
        self.request_redraw();
    }

    /// Replace the git info wholesale; absence clears it. Requests a redraw.
    pub fn set_git_info(&mut self, git: Option<StatusLineGitSnapshot>)
        ensures
            final(self).snapshot@ == (SnapshotView { git: git, ..old(self).snapshot@ }),
            core_unchanged(*old(self), *final(self)),
            final(self).frame_requests@ == old(self).frame_requests@.push(FrameRequest::Soon),
    {
        self.snapshot.git = git;
        self.request_redraw();
    }

    /// Replace the devspace tag wholesale; absence clears it. Requests a
    /// redraw.
    pub fn set_devspace(&mut self, devspace: Option<String>)
        ensures
            final(self).snapshot@ == (SnapshotView {
                environment: (StatusLineEnvironment {
                    devspace: (match devspace {
                        Some(name) => Some(StatusLineDevspaceSnapshot { name }),
                        None => None,
                    }),
                    ..old(self).snapshot.environment
                }),
                ..old(self).snapshot@
            }),
            core_unchanged(*old(self), *final(self)),
            final(self).frame_requests@ == old(self).frame_requests@.push(FrameRequest::Soon),
    {
        self.snapshot.environment.devspace = match devspace {
            Some(name) => Some(StatusLineDevspaceSnapshot { name }),
            None => None,
        };
        self.request_redraw();
    }

    /// Replace the hostname tag wholesale; absence clears it. Requests a
    /// redraw.
    pub fn set_hostname(&mut self, hostname: Option<String>)
        ensures
            final(self).snapshot@ == (SnapshotView {
                environment: (StatusLineEnvironment {
                    hostname: hostname,
                    ..old(self).snapshot.environment
                }),
                ..old(self).snapshot@
            }),
            core_unchanged(*old(self), *final(self)),
            final(self).frame_requests@ == old(self).frame_requests@.push(FrameRequest::Soon),
    {
        self.snapshot.environment.hostname = hostname;
        self.request_redraw();
    }

    /// Replace the cloud-profile tag wholesale; absence clears it. Requests
    /// a redraw.
    pub fn set_aws_profile(&mut self, profile: Option<String>)
        ensures
            final(self).snapshot@ == (SnapshotView {
                environment: (StatusLineEnvironment {
                    aws_profile: profile,
                    ..old(self).snapshot.environment
                }),
                ..old(self).snapshot@
            }),
            core_unchanged(*old(self), *final(self)),
            final(self).frame_requests@ == old(self).frame_requests@.push(FrameRequest::Soon),
    {
        self.snapshot.environment.aws_profile = profile;
        self.request_redraw();
    }

    /// Replace the cluster-context tag wholesale; absence clears it.
    /// Requests a redraw.
    pub fn set_kubernetes_context(&mut self, context: Option<String>)
        ensures
            final(self).snapshot@ == (SnapshotView {
                environment: (StatusLineEnvironment {
                    kubernetes_context: context,
                    ..old(self).snapshot.environment
                }),
                ..old(self).snapshot@
            }),
            core_unchanged(*old(self), *final(self)),
            final(self).frame_requests@ == old(self).frame_requests@.push(FrameRequest::Soon),
    {
        self.snapshot.environment.kubernetes_context = context;
        self.request_redraw();
    }

    /// The session identifier plays no part in the rendered line; accepted
    /// and discarded, with no redraw.
    pub fn set_session_id(&mut self, session_id: Option<String>)
        ensures
            *final(self) == *old(self),
    {
        let _ = session_id;
    }

    /// Replace the queued-message list, mirror it into an existing run
    /// sub-snapshot, and request a redraw.
    pub fn set_queued_messages(&mut self, messages: Vec<String>)
        ensures
            final(self).queued_messages@ == messages@,
            final(self).snapshot@ == (SnapshotView {
                run_state: (match old(self).snapshot@.run_state {
                    Some(rs) => Some(RunStateView { queued_messages: messages@, ..rs }),
                    None => None,
                }),
                ..old(self).snapshot@
            }),
            final(self).run_timer == old(self).run_timer,
            final(self).esc_hint == old(self).esc_hint,
            final(self).context_window_hint == old(self).context_window_hint,
            final(self).frame_requests@ == old(self).frame_requests@.push(FrameRequest::Soon),
    {
        self.queued_messages = messages;
        match &mut self.snapshot.run_state {
            Some(rs) => {
                rs.queued_messages = clone_string_vec(&self.queued_messages);
            },
            None => {},
        }
        self.request_redraw();
    }

    /// Update the run label without touching timer or queued-message state.
    /// An unchanged label is a no-op with no redraw; a changed label updates
    /// in place; with no run sub-snapshot present one is created from the
    /// current interrupt-hint flag and queued messages. Both latter cases
    /// request exactly one redraw.
    pub fn update_run_header(&mut self, header: String)
        ensures
            (match old(self).snapshot@.run_state {
                Some(rs) => {
                    if rs.label@ == header@ {
                        *final(self) == *old(self)
                    } else {
                        &&& final(self).snapshot@ == (SnapshotView {
                            run_state: Some((RunStateView { label: header, ..rs })),
                            ..old(self).snapshot@
                        })
                        &&& core_unchanged(*old(self), *final(self))
                        &&& final(self).frame_requests@ == old(self).frame_requests@.push(
                            FrameRequest::Soon,
                        )
                    }
                },
                None => {
                    &&& final(self).snapshot@ == (SnapshotView {
                        run_state: Some((RunStateView {
                            label: header,
                            show_interrupt_hint: old(self).esc_hint,
                            queued_messages: old(self).queued_messages@,
                            timer: None,
                            spinner_started_at: None,
                        })),
                        ..old(self).snapshot@
                    })
                    &&& core_unchanged(*old(self), *final(self))
                    &&& final(self).frame_requests@ == old(self).frame_requests@.push(
                        FrameRequest::Soon,
                    )
                },
            }),
    {
        let redraw: bool;
        match &mut self.snapshot.run_state {
            Some(rs) => {
                if rs.label == header {
                    redraw = false;
                } else {
                    rs.label = header;
                    redraw = true;
                }
            },
            None => {
                self.snapshot.run_state = Some(
                    StatusLineRunState {
                        label: header,
                        show_interrupt_hint: self.esc_hint,
                        queued_messages: clone_string_vec(&self.queued_messages),
                        timer: None,
                        spinner_started_at: None,
                    },
                );
                redraw = true;
            },
        }
        if redraw {
            self.request_redraw();
        }
    }

    /// Start (or restart) a task: resume the existing timer or create one
    /// anchored at `now`, then rebuild the run sub-snapshot around the new
    /// label while preserving its timer fields. Requests a redraw.
    pub fn start_task(&mut self, header: String, now: u64)
        requires
            old(self).wf(),
        ensures
            final(self).run_timer == Some(
                match old(self).run_timer {
                    Some(t) => t.spec_resumed(now),
                    None => RunTimer::spec_new(now),
                },
            ),
            final(self).snapshot@ == (SnapshotView {
                run_state: Some((RunStateView {
                    label: header,
                    show_interrupt_hint: old(self).esc_hint,
                    queued_messages: old(self).queued_messages@,
                    timer: (match old(self).snapshot@.run_state {
                        Some(rs) => rs.timer,
                        None => None,
                    }),
                    spinner_started_at: (match old(self).snapshot@.run_state {
                        Some(rs) => rs.spinner_started_at,
                        None => None,
                    }),
                })),
                ..old(self).snapshot@
            }),
            aux_unchanged(*old(self), *final(self)),
            final(self).frame_requests@ == old(self).frame_requests@.push(FrameRequest::Soon),
            final(self).wf(),
    {
        match &mut self.run_timer {
            Some(timer) => timer.resume(now),
            None => {
                self.run_timer = Some(RunTimer::new(now));
            },
        }
        let mut run_state = match &self.snapshot.run_state {
            Some(rs) => rs.clone(),
            None => StatusLineRunState::default(),
        };
        run_state.label = header;
        run_state.show_interrupt_hint = self.esc_hint;
        run_state.queued_messages = clone_string_vec(&self.queued_messages);
        self.snapshot.run_state = Some(run_state);
        self.request_redraw();
    }

    /// Finish the active task: pause the timer for bookkeeping symmetry,
    /// then discard it and clear the run sub-snapshot entirely — a completed
    /// task shows no run indicator at all. Requests a redraw.
    pub fn complete_task(&mut self, now: u64)
        requires
            old(self).wf(),
        ensures
            final(self).run_timer is None,
            final(self).snapshot@ == (SnapshotView { run_state: None, ..old(self).snapshot@ }),
            aux_unchanged(*old(self), *final(self)),
            final(self).frame_requests@ == old(self).frame_requests@.push(FrameRequest::Soon),
            final(self).wf(),
    {
        match &mut self.run_timer {
            Some(timer) => timer.pause(now),
            None => {},
        }
        self.run_timer = None;
        self.snapshot.run_state = None;
        self.request_redraw();
    }

    /// Resume the run timer if one exists, with a redraw; a state without a
    /// timer is left entirely untouched.
    pub fn resume_timer(&mut self, now: u64)
        requires
            old(self).wf(),
        ensures
            (match old(self).run_timer {
                Some(t) => {
                    &&& final(self).run_timer == Some(t.spec_resumed(now))
                    &&& final(self).snapshot == old(self).snapshot
                    &&& aux_unchanged(*old(self), *final(self))
                    &&& final(self).frame_requests@ == old(self).frame_requests@.push(
                        FrameRequest::Soon,
                    )
                },
                None => *final(self) == *old(self),
            }),
            final(self).wf(),
    {
        match &mut self.run_timer {
            Some(timer) => {
                timer.resume(now);
            },
            None => {
                return ;
            },
        }
        self.request_redraw();
    }

    /// Pause the run timer if one exists, with a redraw; the counterpart of
    /// `resume_timer` for interrupt flows. A state without a timer is left
    /// entirely untouched.
    pub fn pause_timer(&mut self, now: u64)
        requires
            old(self).wf(),
        ensures
            (match old(self).run_timer {
                Some(t) => {
                    &&& final(self).run_timer == Some(t.spec_paused(now))
                    &&& final(self).snapshot == old(self).snapshot
                    &&& aux_unchanged(*old(self), *final(self))
                    &&& final(self).frame_requests@ == old(self).frame_requests@.push(
                        FrameRequest::Soon,
                    )
                },
                None => *final(self) == *old(self),
            }),
            final(self).wf(),
    {
        match &mut self.run_timer {
            Some(timer) => {
                timer.pause(now);
            },
            None => {
                return ;
            },
        }
        self.request_redraw();
    }

    /// Whole seconds of current timer elapsed time; absent when no timer
    /// exists. Pure read.
    pub fn elapsed_seconds(&self, now: u64) -> (r: Option<u64>)
        ensures
            r == spec_elapsed_seconds(*self, now),
    {
        match &self.run_timer {
            Some(timer) => Some(timer.snapshot(now).elapsed_running_ms / 1000),
            None => None,
        }
    }

    /// Materialize the snapshot for one frame. When a run sub-snapshot and a
    /// timer both exist, live timer state, the spinner anchor, the current
    /// queued messages and the interrupt-hint flag are injected into the
    /// copy. When the timer exists and is not paused, a follow-up frame
    /// after [`FRAME_DELAY_MS`] is recorded — on every call, never
    /// deduplicated here — which sustains the animation cadence.
    pub fn snapshot_for_render(&mut self, now: u64) -> (snap: StatusLineSnapshot)
        ensures
            snap@ == spec_render_snapshot(*old(self), now),
            final(self).snapshot == old(self).snapshot,
            final(self).run_timer == old(self).run_timer,
            aux_unchanged(*old(self), *final(self)),
            final(self).frame_requests@ == (if old(self).run_timer matches Some(t)
                && !t.is_paused {
                old(self).frame_requests@.push(FrameRequest::After { delay_ms: FRAME_DELAY_MS })
            } else {
                old(self).frame_requests@
            }),
    {
        let mut snap = self.snapshot.clone();
        match (&mut snap.run_state, &self.run_timer) {
            (Some(rs), Some(timer)) => {
                rs.timer = Some(timer.snapshot(now));
                rs.spinner_started_at = Some(timer.spinner_started_at);
                rs.queued_messages = clone_string_vec(&self.queued_messages);
                rs.show_interrupt_hint = self.esc_hint;
            },
            _ => {},
        }
        match &self.run_timer {
            Some(timer) => {
                if !timer.is_paused {
                    self.frame_requests.push(FrameRequest::After { delay_ms: FRAME_DELAY_MS });
                }
            },
            None => {},
        }
        snap
    }

    /// Record an as-soon-as-possible redraw request.
    pub fn request_redraw(&mut self)
        ensures
            final(self).snapshot == old(self).snapshot,
            core_unchanged(*old(self), *final(self)),
            final(self).frame_requests@ == old(self).frame_requests@.push(FrameRequest::Soon),
    {
        self.frame_requests.push(FrameRequest::Soon);
    }

    /// Hand the recorded redraw requests to the host, oldest first, leaving
    /// none behind.
    pub fn take_frame_requests(&mut self) -> (r: Vec<FrameRequest>)
        ensures
            r@ == old(self).frame_requests@,
            final(self).frame_requests@ == Seq::<FrameRequest>::empty(),
            final(self).snapshot == old(self).snapshot,
            final(self).run_timer == old(self).run_timer,
            aux_unchanged(*old(self), *final(self)),
    {
        let mut out: Vec<FrameRequest> = Vec::new();
        core::mem::swap(&mut out, &mut self.frame_requests);
        out
    }
}

/// Law: once a task has been completed — no timer, no run sub-snapshot —
/// elapsed time reads as absent and any later materialized frame carries no
/// run sub-snapshot, whatever the prior pause state was.
pub proof fn lemma_completed_task_shows_no_run(s: StatusLineState, n1: u64, n2: u64)
    requires
        s.run_timer is None,
        s.snapshot.run_state is None,
    ensures
        spec_elapsed_seconds(s, n1) is None,
        spec_render_snapshot(s, n2).run_state is None,
{
}

} // verus!

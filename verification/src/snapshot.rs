//! The immutable-per-frame snapshot model.
//!
//! A [`StatusLineSnapshot`] describes everything the renderer needs for one
//! frame: working-directory display fields, model label, token and context
//! usage, environment tags, git info, and an optional active-run
//! sub-snapshot. Types whose fields carry vectors are viewed through ghost
//! mirror structs so contracts can speak of their mathematical content.

use vstd::prelude::*;

use crate::timer::RunTimerSnapshot;

verus! {

/// Model label plus an optional reasoning-effort detail string.
#[derive(Debug, PartialEq, Eq)]
pub struct StatusLineModelSnapshot {
    pub label: String,
    pub detail: Option<String>,
}

/// A named devspace environment tag.
#[derive(Debug, PartialEq, Eq)]
pub struct StatusLineDevspaceSnapshot {
    pub name: String,
}

/// Git information for the working directory.
#[derive(Debug, PartialEq, Eq)]
pub struct StatusLineGitSnapshot {
    pub branch: Option<String>,
}

/// Independently optional environment tags.
#[derive(Debug, PartialEq, Eq)]
pub struct StatusLineEnvironment {
    pub devspace: Option<StatusLineDevspaceSnapshot>,
    pub hostname: Option<String>,
    pub aws_profile: Option<String>,
    pub kubernetes_context: Option<String>,
}

/// One group of token counts; every count is cumulative and non-negative.
#[derive(Clone, Copy, Debug, PartialEq, Eq)]
pub struct TokenCountSnapshot {
    pub total_tokens: u64,
    pub input_tokens: u64,
    pub cached_input_tokens: u64,
    pub output_tokens: u64,
    pub reasoning_output_tokens: u64,
}

/// Session-cumulative counts plus the always-present last-turn counts.
#[derive(Clone, Copy, Debug, PartialEq, Eq)]
pub struct StatusLineTokenSnapshot {
    pub total: TokenCountSnapshot,
    pub last: Option<TokenCountSnapshot>,
}

/// Derived context-window occupancy; present only when a window size is
/// known.
#[derive(Clone, Copy, Debug, PartialEq, Eq)]
pub struct StatusLineContextSnapshot {
    pub percent_remaining: u8,
    pub tokens_in_context: u64,
    pub window: u64,
}

/// The active-run portion of the snapshot.
#[derive(Debug, PartialEq, Eq)]
pub struct StatusLineRunState {
    pub label: String,
    pub show_interrupt_hint: bool,
    pub queued_messages: Vec<String>,
    pub timer: Option<RunTimerSnapshot>,
    pub spinner_started_at: Option<u64>,
}

/// Ghost mirror of [`StatusLineRunState`]: the queued list as a sequence.
pub ghost struct RunStateView {
    pub label: String,
    pub show_interrupt_hint: bool,
    pub queued_messages: Seq<String>,
    pub timer: Option<RunTimerSnapshot>,
    pub spinner_started_at: Option<u64>,
}

impl View for StatusLineRunState {
    type V = RunStateView;

    open spec fn view(&self) -> RunStateView {
        RunStateView {
            label: self.label,
            show_interrupt_hint: self.show_interrupt_hint,
            queued_messages: self.queued_messages@,
            timer: self.timer,
            spinner_started_at: self.spinner_started_at,
        }
    }
}

/// Everything the renderer needs for one frame.
#[derive(Debug, PartialEq, Eq)]
pub struct StatusLineSnapshot {
    pub cwd_display: Option<String>,
    pub cwd_basename: Option<String>,
    pub cwd_fallback: Option<String>,
    pub model: Option<StatusLineModelSnapshot>,
    pub tokens: Option<StatusLineTokenSnapshot>,
    pub context: Option<StatusLineContextSnapshot>,
    pub git: Option<StatusLineGitSnapshot>,
    pub environment: StatusLineEnvironment,
    pub run_state: Option<StatusLineRunState>,
}

/// Ghost mirror of [`StatusLineSnapshot`]: the run sub-snapshot viewed.
pub ghost struct SnapshotView {
    pub cwd_display: Option<String>,
    pub cwd_basename: Option<String>,
    pub cwd_fallback: Option<String>,
    pub model: Option<StatusLineModelSnapshot>,
    pub tokens: Option<StatusLineTokenSnapshot>,
    pub context: Option<StatusLineContextSnapshot>,
    pub git: Option<StatusLineGitSnapshot>,
    pub environment: StatusLineEnvironment,
    pub run_state: Option<RunStateView>,
}

/// The viewed run sub-snapshot, if present.
pub open spec fn view_run_state(o: Option<StatusLineRunState>) -> Option<RunStateView> {
    match o {
        Some(rs) => Some(rs@),
        None => None,
    }
}

impl View for StatusLineSnapshot {
    type V = SnapshotView;

    open spec fn view(&self) -> SnapshotView {
        SnapshotView {
            cwd_display: self.cwd_display,
            cwd_basename: self.cwd_basename,
            cwd_fallback: self.cwd_fallback,
            model: self.model,
            tokens: self.tokens,
            context: self.context,
            git: self.git,
            environment: self.environment,
            run_state: view_run_state(self.run_state),
        }
    }
}

/// Element-for-element copy of a string vector, proved to keep the sequence.
pub fn clone_string_vec(v: &Vec<String>) -> (r: Vec<String>)
    ensures
        r@ == v@,
{
    let mut out: Vec<String> = Vec::new();
    let n = v.len();
    let mut i: usize = 0;
    while i < n
        invariant
            i <= n,
            n == v@.len(),
            out@ == v@.subrange(0, i as int),
        decreases n - i,
    {
        out.push(v[i].clone());
        proof {
            assert(v@.subrange(0, i + 1 as int) =~= v@.subrange(0, i as int).push(v@[i as int]));
        }
        i += 1;
    }
    proof {
        assert(v@.subrange(0, n as int) =~= v@);
    }
    out
}

/// Copy of an optional string, proved to keep the value.
fn clone_opt_string(o: &Option<String>) -> (r: Option<String>)
    ensures
        r == *o,
{
    match o {
        Some(s) => Some(s.clone()),
        None => None,
    }
}

impl Clone for StatusLineModelSnapshot {
    fn clone(&self) -> (r: Self)
        ensures
            r == *self,
    {
        StatusLineModelSnapshot { label: self.label.clone(), detail: clone_opt_string(&self.detail) }
    }
}

impl Clone for StatusLineDevspaceSnapshot {
    fn clone(&self) -> (r: Self)
        ensures
            r == *self,
    {
        StatusLineDevspaceSnapshot { name: self.name.clone() }
    }
}

impl Clone for StatusLineGitSnapshot {
    fn clone(&self) -> (r: Self)
        ensures
            r == *self,
    {
        StatusLineGitSnapshot { branch: clone_opt_string(&self.branch) }
    }
}

impl Clone for StatusLineEnvironment {
    fn clone(&self) -> (r: Self)
        ensures
            r == *self,
    {
        StatusLineEnvironment {
            devspace: match &self.devspace {
                Some(d) => Some(d.clone()),
                None => None,
            },
            hostname: clone_opt_string(&self.hostname),
            aws_profile: clone_opt_string(&self.aws_profile),
            kubernetes_context: clone_opt_string(&self.kubernetes_context),
        }
    }
}

impl Clone for StatusLineRunState {
    fn clone(&self) -> (r: Self)
        ensures
            r@ == self@,
    {
        StatusLineRunState {
            label: self.label.clone(),
            show_interrupt_hint: self.show_interrupt_hint,
            queued_messages: clone_string_vec(&self.queued_messages),
            timer: self.timer,
            spinner_started_at: self.spinner_started_at,
        }
    }
}

impl Clone for StatusLineSnapshot {
    fn clone(&self) -> (r: Self)
        ensures
            r@ == self@,
    {
        StatusLineSnapshot {
            cwd_display: clone_opt_string(&self.cwd_display),
            cwd_basename: clone_opt_string(&self.cwd_basename),
            cwd_fallback: clone_opt_string(&self.cwd_fallback),
            model: match &self.model {
                Some(m) => Some(m.clone()),
                None => None,
            },
            tokens: self.tokens,
            context: self.context,
            git: match &self.git {
                Some(g) => Some(g.clone()),
                None => None,
            },
            environment: self.environment.clone(),
            run_state: match &self.run_state {
                Some(rs) => Some(rs.clone()),
                None => None,
            },
        }
    }
}

impl Default for StatusLineEnvironment {
    /// An environment with every tag absent.
    fn default() -> (r: Self)
        ensures
            r == (StatusLineEnvironment {
                devspace: None,
                hostname: None,
                aws_profile: None,
                kubernetes_context: None,
            }),
    {
        StatusLineEnvironment { devspace: None, hostname: None, aws_profile: None, kubernetes_context: None }
    }
}

impl Default for StatusLineSnapshot {
    /// A snapshot with every field unknown.
    fn default() -> (r: Self)
        ensures
            r == (StatusLineSnapshot {
                cwd_display: None,
                cwd_basename: None,
                cwd_fallback: None,
                model: None,
                tokens: None,
                context: None,
                git: None,
                environment: StatusLineEnvironment {
                    devspace: None,
                    hostname: None,
                    aws_profile: None,
                    kubernetes_context: None,
                },
                run_state: None,
            }),
    {
        StatusLineSnapshot {
            cwd_display: None,
            cwd_basename: None,
            cwd_fallback: None,
            model: None,
            tokens: None,
            context: None,
            git: None,
            environment: StatusLineEnvironment {
                devspace: None,
                hostname: None,
                aws_profile: None,
                kubernetes_context: None,
            },
            run_state: None,
        }
    }
}

impl Default for StatusLineRunState {
    /// A run sub-snapshot with an empty label and nothing queued.
    fn default() -> (r: Self)
        ensures
            r@.label@ == Seq::<char>::empty(),
            r@.show_interrupt_hint == false,
            r@.queued_messages == Seq::<String>::empty(),
            r@.timer is None,
            r@.spinner_started_at is None,
    {
        StatusLineRunState {
            label: String::new(),
            show_interrupt_hint: false,
            queued_messages: Vec::new(),
            timer: None,
            spinner_started_at: None,
        }
    }
}

} // verus!

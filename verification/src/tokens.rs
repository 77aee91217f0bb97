//! Token-usage accounting and context-window math.
//!
//! The host feeds a [`TokenUsageInfo`] with cumulative session totals and
//! last-turn totals. From it the status line derives the token snapshot it
//! renders and, when a context-window size is resolvable, the occupancy of
//! that window.

use vstd::prelude::*;
use vstd::arithmetic::div_mod::lemma_div_by_multiple;
use vstd::arithmetic::div_mod::lemma_div_is_ordered;
use vstd::arithmetic::div_mod::lemma_div_pos_is_pos;

use crate::snapshot::StatusLineContextSnapshot;
use crate::snapshot::StatusLineTokenSnapshot;
use crate::snapshot::TokenCountSnapshot;
use crate::timer::sat_sub64;
use crate::timer::sat_sub_exec;

verus! {

/// One batch of token counts as reported by the model provider.
#[derive(Clone, Copy, Debug, PartialEq, Eq)]
pub struct TokenUsage {
    pub total_tokens: u64,
    pub input_tokens: u64,
    pub cached_input_tokens: u64,
    pub output_tokens: u64,
    pub reasoning_output_tokens: u64,
}

/// Cumulative session totals, last-turn totals, and the model-reported
/// context-window size when one was given.
#[derive(Clone, Copy, Debug, PartialEq, Eq)]
pub struct TokenUsageInfo {
    pub total_token_usage: TokenUsage,
    pub last_token_usage: TokenUsage,
    pub model_context_window: Option<u64>,
}

impl TokenUsage {
    /// Tokens currently occupying the context window: reasoning output does
    /// not persist in the window, every other token does.
    pub open spec fn spec_tokens_in_context(self) -> u64 {
        sat_sub64(self.total_tokens, self.reasoning_output_tokens)
    }

    /// Whole percent of the window still free: `(window - used) * 100 /
    /// window`, rounded down, with full-or-overfull windows at 0. A zero
    /// window size yields 0.
    pub open spec fn spec_percent_remaining(self, window: u64) -> u8 {
        if window == 0 {
            0u8
        } else {
            (((sat_sub64(window, self.spec_tokens_in_context()) as int) * 100) / (window as int)) as u8
        }
    }

    /// Tokens currently occupying the context window.
    pub fn tokens_in_context_window(&self) -> (r: u64)
        ensures
            r == self.spec_tokens_in_context(),
    {
        sat_sub_exec(self.total_tokens, self.reasoning_output_tokens)
    }

    /// Percentage of the context window remaining, given its size.
    pub fn percent_of_context_window_remaining(&self, window: u64) -> (r: u8)
        ensures
            r == self.spec_percent_remaining(window),
            r <= 100,
    {
        if window == 0 {
            return 0;
        }
        let used = self.tokens_in_context_window();
        let rem = sat_sub_exec(window, used);
        let q: u128 = ((rem as u128) * 100) / (window as u128);
        proof {
            let remi = rem as int;
            let wi = window as int;
            assert(remi <= wi);
            assert(remi * 100 <= wi * 100) by (nonlinear_arith)
                requires remi <= wi;
            lemma_div_is_ordered(remi * 100, wi * 100, wi);
            lemma_div_by_multiple(100, wi);
            assert(wi * 100 == 100 * wi) by (nonlinear_arith);
            assert(remi * 100 / wi <= 100);
            lemma_div_pos_is_pos(remi * 100, wi);
        }
        q as u8
    }
}

/// The token snapshot derived from a usage report: cumulative totals plus an
/// always-present last-turn sub-snapshot.
pub open spec fn spec_token_snapshot(info: TokenUsageInfo) -> StatusLineTokenSnapshot {
    StatusLineTokenSnapshot {
        total: spec_count_snapshot(info.total_token_usage),
        last: Some(spec_count_snapshot(info.last_token_usage)),
    }
}

/// Field-for-field copy of one count batch.
pub open spec fn spec_count_snapshot(u: TokenUsage) -> TokenCountSnapshot {
    TokenCountSnapshot {
        total_tokens: u.total_tokens,
        input_tokens: u.input_tokens,
        cached_input_tokens: u.cached_input_tokens,
        output_tokens: u.output_tokens,
        reasoning_output_tokens: u.reasoning_output_tokens,
    }
}

/// Context-window precedence: the model-reported size wins, else the
/// configured fallback hint, else none.
pub open spec fn spec_resolved_window(info: TokenUsageInfo, hint: Option<u64>) -> Option<u64> {
    if info.model_context_window is Some {
        info.model_context_window
    } else {
        hint
    }
}

/// The context snapshot derived from a usage report: present exactly when a
/// window size is known.
pub open spec fn spec_context_snapshot(info: TokenUsageInfo, window: Option<u64>) -> Option<
    StatusLineContextSnapshot,
> {
    match window {
        Some(w) => Some(
            StatusLineContextSnapshot {
                percent_remaining: info.total_token_usage.spec_percent_remaining(w),
                tokens_in_context: info.total_token_usage.spec_tokens_in_context(),
                window: w,
            },
        ),
        None => None,
    }
}

/// Law: the derived context snapshot exists if and only if a context-window
/// size is resolvable — model-reported or configured fallback — whatever the
/// usage numbers say.
pub proof fn lemma_context_iff_window_resolvable(info: TokenUsageInfo, hint: Option<u64>)
    ensures
        spec_context_snapshot(info, spec_resolved_window(info, hint)) is Some
            <==> (info.model_context_window is Some || hint is Some),
{
}

/// Derive the render-ready token and context snapshots from a usage report
/// and the already-resolved window size.
pub fn token_snapshot_from_info(info: &TokenUsageInfo, context_window: Option<u64>) -> (r: (
    StatusLineTokenSnapshot,
    Option<StatusLineContextSnapshot>,
))
    ensures
        r.0 == spec_token_snapshot(*info),
        r.1 == spec_context_snapshot(*info, context_window),
{
    let total = info.total_token_usage;
    let last = info.last_token_usage;
    let token_snapshot = StatusLineTokenSnapshot {
        total: TokenCountSnapshot {
            total_tokens: total.total_tokens,
            input_tokens: total.input_tokens,
            cached_input_tokens: total.cached_input_tokens,
            output_tokens: total.output_tokens,
            reasoning_output_tokens: total.reasoning_output_tokens,
        },
        last: Some(
            TokenCountSnapshot {
                total_tokens: last.total_tokens,
                input_tokens: last.input_tokens,
                cached_input_tokens: last.cached_input_tokens,
                output_tokens: last.output_tokens,
                reasoning_output_tokens: last.reasoning_output_tokens,
            },
        ),
    };
    let context_snapshot = match context_window {
        Some(window) => Some(
            StatusLineContextSnapshot {
                percent_remaining: total.percent_of_context_window_remaining(window),
                tokens_in_context: total.tokens_in_context_window(),
                window,
            },
        ),
        None => None,
    };
    (token_snapshot, context_snapshot)
}

} // verus!

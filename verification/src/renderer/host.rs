//! What the caller does when the windowing host fails after a selection
//! was accepted: it negotiates again from the next attempt, and carries the
//! host's failure over into the report of the next selection.

use vstd::prelude::*;
use vstd::string::StringExecFns;
use crate::renderer::diagnostics::DiagnosticsView;
use crate::renderer::selection::{RendererSelection, SelectionView, chain_separator};
use crate::text::opt_view;

verus! {

/// The attempt at which to negotiate again after the windowing host failed
/// with the selection of the attempt `failed`, in a plan of `total`
/// attempts: the next one, or none where the plan has no more.
pub fn next_start(failed: usize, total: usize) -> (next: Option<usize>)
    ensures
        next == (if failed + 1 < total {
            Some((failed + 1) as usize)
        } else {
            None
        }),
{
    if failed < total && failed + 1 < total {
        Some(failed + 1)
    } else {
        None
    }
}

/// The selection of a negotiation that started at `start`, with the
/// host's failure `previous` of the selection before it, if there was one.
///
/// The report shows a fallback when the negotiation did not start at the
/// head of the plan, when it chose another attempt than the first, or when the
/// host failed before. The host's failure goes to the end of the chain of
/// failures.
pub open spec fn carried_over(
    selection: SelectionView,
    start: int,
    previous: Option<Seq<char>>,
) -> SelectionView {
    let report = selection.diagnostics;
    SelectionView {
        diagnostics: DiagnosticsView {
            fallback_used: report.fallback_used || start > 0 || selection.attempt > 0
                || previous is Some,
            failure_reason: match previous {
                Some(error) => Some(
                    match report.failure_reason {
                        Some(chain) => chain + chain_separator() + error,
                        None => error,
                    },
                ),
                None => report.failure_reason,
            },
            ..report
        },
        ..selection
    }
}

impl RendererSelection {
    /// Carries the history of earlier negotiations over into the selection.
    pub fn carry_over(&mut self, start_attempt: usize, previous_error: Option<String>)
        ensures
            final(self)@ == carried_over(
                old(self)@,
                start_attempt as int,
                opt_view(previous_error),
            ),
    {
        if start_attempt > 0 || self.attempt > 0 {
            self.diagnostics.fallback_used = true;
        }
        match previous_error {
            Some(previous) => {
                self.diagnostics.fallback_used = true;
                let chained = match self.diagnostics.failure_reason.take() {
                    Some(existing) => {
                        let mut chain = existing;
                        chain.append(" -> ");
                        chain.append(previous.as_str());
                        chain
                    },
                    None => previous,
                };
                self.diagnostics.failure_reason = Some(chained);
            },
            None => {},
        }
    }
}

} // verus!

//! The reduction engine: a single greedy left-to-right pass of span
//! removals over a document, each candidate judged by the oracle.
//!
//! At every starting position the engine first tries the three-line span,
//! then the two-line span, then the single line, committing the first
//! candidate the oracle accepts and rolling every rejected candidate back.
//! After each accepted removal the current rendering is handed to a
//! persist sink, so the best known reduction survives a crash mid-run.

use crate::document::RustSourceFile;
use crate::document::lemma_count_removed_monotone;
use crate::document::lemma_rollback_restores;
use crate::document::spec_count_removed;
use crate::document::spec_remove_span;
use crate::document::spec_render;
use crate::document::spec_span_all_removed;
use crate::oracle::oracle_accepts;
use crate::oracle::oracle_rejects;
use vstd::prelude::*;

verus! {

/// The outcome of one candidate span attempt.
pub enum SpanAttempt {
    /// The oracle accepted the rendering without the span; the removal is
    /// committed and the snapshot was taken by the persist sink.
    Removed,
    /// Every line of the span was already removed: nothing to attempt, the
    /// state was accepted before.
    AlreadyRemoved,
    /// The oracle rejected the candidate; the mask is back to its
    /// pre-attempt state.  Carries the oracle's diagnostic.
    Rejected { message: String },
    /// The persist sink refused the snapshot of a committed removal.
    /// Fatal: without a place to persist progress the run cannot go on.
    PersistFailed,
}

/// Why a whole run aborted.
#[derive(Debug)]
pub enum RunError {
    /// The untouched document already fails the oracle, so the claimed
    /// failing input does not reproduce the target property: no reduction
    /// is attempted.  Carries the oracle's diagnostic.
    OriginalRejected { message: String },
    /// The persist sink refused a snapshot.
    PersistFailed,
}

/// Evidence that the persist sink was handed a string rendering exactly
/// `text` and answered `accepted`.
pub open spec fn sink_took<P: Fn(String) -> bool>(sink: P, text: Seq<char>, accepted: bool) -> bool {
    exists|s: String| s@ == text && call_ensures(sink, (s,), accepted)
}

impl RustSourceFile {
    /// Attempts to remove the span `[start, end)`.
    ///
    /// If the whole span is already removed, nothing is attempted.
    /// Otherwise every line of the span is removed, the rendering is put
    /// to the oracle, and the removal is committed and persisted on
    /// success or rolled back — restoring exactly the lines that were
    /// present before — on failure.
    pub fn try_remove_line_span<F: Fn(String) -> Result<(), String>, P: Fn(String) -> bool>(
        &mut self,
        start: usize,
        end: usize,
        is_equivalent: &F,
        persist: &P,
    ) -> (r: SpanAttempt)
        requires
            old(self).wf(),
            start <= end <= old(self).mask().len(),
            forall|s: String| #[trigger] call_requires(*is_equivalent, (s,)),
            forall|s: String| #[trigger] call_requires(*persist, (s,)),
        ensures
            final(self).wf(),
            final(self).lines == old(self).lines,
            final(self).mask().len() == old(self).mask().len(),
            forall|j: int|
                0 <= j < old(self).mask().len() && old(self).mask()[j] ==> final(self).mask()[j],
            forall|j: int|
                0 <= j < old(self).mask().len() && !(start <= j < end) ==> final(self).mask()[j]
                    == old(self).mask()[j],
            spec_count_removed(old(self).mask()) <= spec_count_removed(final(self).mask()),
            (r is AlreadyRemoved) <==> spec_span_all_removed(
                old(self).mask(),
                start as int,
                end as int,
            ),
            r is AlreadyRemoved ==> final(self).mask() == old(self).mask(),
            r is Removed ==> {
                &&& final(self).mask() == spec_remove_span(
                    old(self).mask(),
                    start as int,
                    end as int,
                )
                &&& oracle_accepts(*is_equivalent, final(self).rendering())
                &&& sink_took(*persist, final(self).rendering(), true)
            },
            r matches SpanAttempt::Rejected { message } ==> {
                &&& final(self).mask() == old(self).mask()
                &&& oracle_rejects(
                    *is_equivalent,
                    spec_render(
                        old(self).line_views(),
                        spec_remove_span(old(self).mask(), start as int, end as int),
                    ),
                    message@,
                )
            },
            r is PersistFailed ==> {
                &&& final(self).mask() == spec_remove_span(
                    old(self).mask(),
                    start as int,
                    end as int,
                )
                &&& oracle_accepts(*is_equivalent, final(self).rendering())
                &&& sink_took(*persist, final(self).rendering(), false)
            },
    {
        if self.span_all_removed(start, end) {
            return SpanAttempt::AlreadyRemoved;
        }
        let saved = self.saved_span(start, end);
        self.remove_span(start, end);
        proof {
            lemma_count_removed_monotone(old(self).mask(), self.mask());
        }
        let text = self.to_string();
        let ghost gtext = text;
        let verdict = is_equivalent(text);
        proof {
            assert(call_ensures(*is_equivalent, (gtext,), verdict));
        }
        match verdict {
            Ok(()) => {
                proof {
                    assert(verdict is Ok && verdict->Ok_0 == ());
                    assert(verdict == Result::<(), String>::Ok(()));
                }
                let snapshot = self.to_string();
                let ghost gsnap = snapshot;
                let accepted = persist(snapshot);
                proof {
                    assert(call_ensures(*persist, (gsnap,), accepted));
                }
                if accepted {
                    SpanAttempt::Removed
                } else {
                    SpanAttempt::PersistFailed
                }
            },
            Err(message) => {
                proof {
                    assert(verdict == Result::<(), String>::Err(message));
                }
                self.rollback_span(start, end, &saved);
                proof {
                    lemma_rollback_restores(old(self).mask(), start as int, end as int);
                }
                SpanAttempt::Rejected { message }
            },
        }
    }

    /// Attempts to remove the single line `line`, under the same
    /// commit-or-roll-back rule as a span.
    pub fn try_remove_line<F: Fn(String) -> Result<(), String>, P: Fn(String) -> bool>(
        &mut self,
        line: usize,
        is_equivalent: &F,
        persist: &P,
    ) -> (r: SpanAttempt)
        requires
            old(self).wf(),
            line < old(self).mask().len(),
            forall|s: String| #[trigger] call_requires(*is_equivalent, (s,)),
            forall|s: String| #[trigger] call_requires(*persist, (s,)),
        ensures
            final(self).wf(),
            final(self).lines == old(self).lines,
            final(self).mask().len() == old(self).mask().len(),
            forall|j: int|
                0 <= j < old(self).mask().len() && old(self).mask()[j] ==> final(self).mask()[j],
            forall|j: int|
                0 <= j < old(self).mask().len() && j != line ==> final(self).mask()[j] == old(
                    self,
                ).mask()[j],
            spec_count_removed(old(self).mask()) <= spec_count_removed(final(self).mask()),
            (r is AlreadyRemoved) <==> old(self).mask()[line as int],
            r is AlreadyRemoved ==> final(self).mask() == old(self).mask(),
            r is Removed ==> {
                &&& final(self).mask() == spec_remove_span(
                    old(self).mask(),
                    line as int,
                    line + 1,
                )
                &&& oracle_accepts(*is_equivalent, final(self).rendering())
                &&& sink_took(*persist, final(self).rendering(), true)
            },
            r matches SpanAttempt::Rejected { message } ==> {
                &&& final(self).mask() == old(self).mask()
                &&& oracle_rejects(
                    *is_equivalent,
                    spec_render(
                        old(self).line_views(),
                        spec_remove_span(old(self).mask(), line as int, line + 1),
                    ),
                    message@,
                )
            },
            r is PersistFailed ==> {
                &&& final(self).mask() == spec_remove_span(
                    old(self).mask(),
                    line as int,
                    line + 1,
                )
                &&& oracle_accepts(*is_equivalent, final(self).rendering())
                &&& sink_took(*persist, final(self).rendering(), false)
            },
    {
        let n: usize = self.lines.len();
        proof {
            assert(line < n);
        }
        self.try_remove_line_span(line, line + 1, is_equivalent, persist)
    }

    /// One full reduction run.
    ///
    /// The untouched rendering is put to the oracle first; a failure there
    /// is fatal and leaves the document unchanged.  Then, for each
    /// starting position from the left up to five lines before the end,
    /// the engine greedily attempts the three-line span, the two-line
    /// span, and the single line, committing the first accepted candidate
    /// and moving on.  Oracle failures during candidates are recoverable;
    /// a refused persist snapshot aborts the run.  On anything but a fatal
    /// oracle failure, the final rendering is one the oracle accepted.
    pub fn try_remove_lines<F: Fn(String) -> Result<(), String>, P: Fn(String) -> bool>(
        &mut self,
        is_equivalent: &F,
        persist: &P,
    ) -> (r: Result<(), RunError>)
        requires
            old(self).wf(),
            forall|s: String| #[trigger] call_requires(*is_equivalent, (s,)),
            forall|s: String| #[trigger] call_requires(*persist, (s,)),
        ensures
            final(self).wf(),
            final(self).lines == old(self).lines,
            final(self).mask().len() == old(self).mask().len(),
            forall|j: int|
                0 <= j < old(self).mask().len() && old(self).mask()[j] ==> final(self).mask()[j],
            spec_count_removed(old(self).mask()) <= spec_count_removed(final(self).mask()),
            r matches Err(RunError::OriginalRejected { message }) ==> {
                &&& final(self).mask() == old(self).mask()
                &&& oracle_rejects(*is_equivalent, old(self).rendering(), message@)
            },
            r is Ok ==> oracle_accepts(*is_equivalent, final(self).rendering()),
            r matches Err(RunError::PersistFailed) ==> oracle_accepts(
                *is_equivalent,
                final(self).rendering(),
            ),
            old(self).lines@.len() <= 5 ==> final(self).mask() == old(self).mask() && !(r matches
            Err(RunError::PersistFailed)),
    {
        let text = self.to_string();
        let ghost gtext = text;
        let verdict = is_equivalent(text);
        proof {
            assert(call_ensures(*is_equivalent, (gtext,), verdict));
        }
        match verdict {
            Err(message) => {
                proof {
                    assert(verdict == Result::<(), String>::Err(message));
                }
                return Err(RunError::OriginalRejected { message });
            },
            Ok(()) => {
                proof {
                    assert(verdict is Ok && verdict->Ok_0 == ());
                    assert(verdict == Result::<(), String>::Ok(()));
                }
            },
        }
        let line_count: usize = self.lines.len();
        let stop: usize = if line_count >= 5 {
            line_count - 5
        } else {
            0
        };
        let mut index: usize = 0;
        while index < stop
            invariant
                self.wf(),
                self.lines == old(self).lines,
                self.mask().len() == old(self).mask().len(),
                line_count == self.lines@.len(),
                stop + 5 <= line_count || stop == 0,
                forall|j: int|
                    0 <= j < old(self).mask().len() && old(self).mask()[j] ==> self.mask()[j],
                spec_count_removed(old(self).mask()) <= spec_count_removed(self.mask()),
                old(self).lines@.len() <= 5 ==> self.mask() == old(self).mask(),
                oracle_accepts(*is_equivalent, self.rendering()),
                forall|s: String| #[trigger] call_requires(*is_equivalent, (s,)),
                forall|s: String| #[trigger] call_requires(*persist, (s,)),
            decreases stop - index,
        {
            let wide = self.try_remove_line_span(index, index + 3, is_equivalent, persist);
            match wide {
                SpanAttempt::PersistFailed => {
                    return Err(RunError::PersistFailed);
                },
                SpanAttempt::Rejected { .. } => {
                    let narrow = self.try_remove_line_span(index, index + 2, is_equivalent, persist);
                    match narrow {
                        SpanAttempt::PersistFailed => {
                            return Err(RunError::PersistFailed);
                        },
                        SpanAttempt::Rejected { .. } => {
                            let single = self.try_remove_line(index, is_equivalent, persist);
                            match single {
                                SpanAttempt::PersistFailed => {
                                    return Err(RunError::PersistFailed);
                                },
                                _ => {},
                            }
                        },
                        _ => {},
                    }
                },
                _ => {},
            }
            index += 1;
        }
        Ok(())
    }
}

} // verus!

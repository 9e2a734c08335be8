//! The mutable, line-indexed document under reduction.
//!
//! A document is a fixed sequence of lines plus a parallel mask of removal
//! flags.  The mask is the only thing that ever changes; rendering
//! concatenates the lines whose flag is still clear, each followed by a
//! newline.

use vstd::prelude::*;
use vstd::string::StringExecFns;

verus! {

/// The mask with every entry of `[start, end)` set and the rest untouched.
pub open spec fn spec_remove_span(mask: Seq<bool>, start: int, end: int) -> Seq<bool> {
    Seq::new(
        mask.len(),
        |j: int|
            if start <= j < end {
                true
            } else {
                mask[j]
            },
    )
}

/// The mask after rolling a span attempt back: entries of `[start, end)`
/// whose saved flag was clear are cleared again, everything else is kept.
pub open spec fn spec_rollback_span(
    mask: Seq<bool>,
    start: int,
    end: int,
    saved: Seq<bool>,
) -> Seq<bool> {
    Seq::new(
        mask.len(),
        |j: int|
            if start <= j < end && !saved[j - start] {
                false
            } else {
                mask[j]
            },
    )
}

/// Whether every entry of `[start, end)` is already set.
pub open spec fn spec_span_all_removed(mask: Seq<bool>, start: int, end: int) -> bool {
    forall|j: int| start <= j < end ==> mask[j]
}

/// Asymmetric rollback: removing a span and then rolling it back with the
/// flags saved beforehand restores exactly the entries that were clear
/// before the attempt, keeps every entry that was already set, and so
/// brings the mask back to exactly its pre-attempt state.
pub proof fn lemma_rollback_restores(mask: Seq<bool>, start: int, end: int)
    requires
        0 <= start <= end <= mask.len(),
    ensures
        spec_rollback_span(
            spec_remove_span(mask, start, end),
            start,
            end,
            mask.subrange(start, end),
        ) == mask,
{
    assert(spec_rollback_span(
        spec_remove_span(mask, start, end),
        start,
        end,
        mask.subrange(start, end),
    ) =~= mask);
}

/// Removing a line twice is the same as removing it once: the second
/// removal leaves the mask unchanged.
pub proof fn lemma_remove_twice(mask: Seq<bool>, line: int)
    requires
        0 <= line < mask.len(),
    ensures
        mask.update(line, true).update(line, true) == mask.update(line, true),
{
    assert(mask.update(line, true).update(line, true) =~= mask.update(line, true));
}

/// Restoring a line that is not removed leaves the mask unchanged.
pub proof fn lemma_restore_absent(mask: Seq<bool>, line: int)
    requires
        0 <= line < mask.len(),
        !mask[line],
    ensures
        mask.update(line, false) == mask,
{
    assert(mask.update(line, false) =~= mask);
}

/// How many entries of a mask are set.
pub open spec fn spec_count_removed(mask: Seq<bool>) -> nat
    decreases mask.len(),
{
    if mask.len() == 0 {
        0
    } else {
        spec_count_removed(mask.drop_last()) + if mask.last() {
            1nat
        } else {
            0nat
        }
    }
}

/// The rendering of `lines` under `mask`: every line whose flag is clear,
/// in order, each followed by a newline.
pub open spec fn spec_render(lines: Seq<Seq<char>>, mask: Seq<bool>) -> Seq<char>
    decreases lines.len(),
{
    if lines.len() == 0 {
        Seq::empty()
    } else {
        spec_render(lines.drop_last(), mask.drop_last()) + if mask.len() >= lines.len()
            && mask[lines.len() - 1] {
            Seq::<char>::empty()
        } else {
            lines.last().push('\n')
        }
    }
}

/// The full text of `lines` with nothing removed: every line followed by a
/// newline.
pub open spec fn spec_full_text(lines: Seq<Seq<char>>) -> Seq<char>
    decreases lines.len(),
{
    if lines.len() == 0 {
        Seq::empty()
    } else {
        spec_full_text(lines.drop_last()) + lines.last().push('\n')
    }
}

/// Rendering a document whose mask is all clear yields the full text:
/// a freshly loaded document renders back to what it was loaded from.
pub proof fn lemma_render_fresh(lines: Seq<Seq<char>>, mask: Seq<bool>)
    requires
        mask.len() == lines.len(),
        forall|i: int| 0 <= i < mask.len() ==> !mask[i],
    ensures
        spec_render(lines, mask) == spec_full_text(lines),
    decreases lines.len(),
{
    if lines.len() > 0 {
        lemma_render_fresh(lines.drop_last(), mask.drop_last());
    }
}

/// A mask that is pointwise at most another mask has at most as many
/// entries set.
pub proof fn lemma_count_removed_monotone(a: Seq<bool>, b: Seq<bool>)
    requires
        a.len() == b.len(),
        forall|i: int| 0 <= i < a.len() ==> a[i] ==> b[i],
    ensures
        spec_count_removed(a) <= spec_count_removed(b),
    decreases a.len(),
{
    if a.len() > 0 {
        assert(a.last() ==> b.last());
        lemma_count_removed_monotone(a.drop_last(), b.drop_last());
    }
}

/// The lines whose flag is clear, in order.
pub open spec fn spec_visible(lines: Seq<Seq<char>>, mask: Seq<bool>) -> Seq<Seq<char>>
    decreases lines.len(),
{
    if lines.len() == 0 {
        Seq::empty()
    } else {
        spec_visible(lines.drop_last(), mask.drop_last()) + if mask.len() >= lines.len()
            && mask[lines.len() - 1] {
            Seq::<Seq<char>>::empty()
        } else {
            seq![lines.last()]
        }
    }
}

/// A line-oriented text buffer with a removal mask.
///
/// `lines` is fixed at load time; reduction only flips entries of
/// `is_removed`.  The two vectors always have the same length.
pub struct RustSourceFile {
    pub lines: Vec<String>,
    pub is_removed: Vec<bool>,
}

impl RustSourceFile {
    /// The lines and the mask stay in one-to-one correspondence.
    pub open spec fn wf(&self) -> bool {
        self.lines@.len() == self.is_removed@.len()
    }

    /// The lines as character sequences.
    pub open spec fn line_views(&self) -> Seq<Seq<char>> {
        self.lines.deep_view()
    }

    /// The removal mask.
    pub open spec fn mask(&self) -> Seq<bool> {
        self.is_removed@
    }

    /// The current rendering, as a character sequence.
    pub open spec fn rendering(&self) -> Seq<char> {
        spec_render(self.line_views(), self.mask())
    }

    /// Builds a document from its lines, nothing removed yet.
    pub fn from_lines(lines: Vec<String>) -> (doc: Self)
        ensures
            doc.wf(),
            doc.lines == lines,
            doc.mask().len() == lines@.len(),
            forall|i: int| 0 <= i < doc.mask().len() ==> !doc.mask()[i],
    {
        let n: usize = lines.len();
        let mut is_removed: Vec<bool> = Vec::new();
        let mut i: usize = 0;
        while i < n
            invariant
                i <= n,
                is_removed@.len() == i,
                forall|j: int| 0 <= j < i ==> !is_removed@[j],
            decreases n - i,
        {
            is_removed.push(false);
            i += 1;
        }
        RustSourceFile { lines, is_removed }
    }

    /// Builds a document from source text, nothing removed yet: the text
    /// is split at every newline, and a trailing segment without one
    /// becomes a final line of its own.
    ///
    /// Loading and rendering round-trip: for text that is empty or ends
    /// with a newline, the fresh document's full text is exactly the
    /// input; otherwise it is the input with one newline appended.
    pub fn from_text(text: &str) -> (doc: Self)
        ensures
            doc.wf(),
            forall|i: int| 0 <= i < doc.mask().len() ==> !doc.mask()[i],
            forall|i: int, c: int|
                0 <= i < doc.line_views().len() && 0 <= c < doc.line_views()[i].len()
                    ==> doc.line_views()[i][c] != '\n',
            (text@.len() == 0 || text@.last() == '\n') ==> spec_full_text(doc.line_views())
                == text@,
            !(text@.len() == 0 || text@.last() == '\n') ==> spec_full_text(doc.line_views())
                == text@ + seq!['\n'],
    {
        let n: usize = text.unicode_len();
        let mut lines: Vec<String> = Vec::new();
        let mut line_start: usize = 0;
        let mut i: usize = 0;
        while i < n
            invariant
                n == text@.len(),
                line_start <= i <= n,
                spec_full_text(lines.deep_view()) == text@.take(line_start as int),
                forall|j: int, c: int|
                    0 <= j < lines.deep_view().len() && 0 <= c < lines.deep_view()[j].len()
                        ==> lines.deep_view()[j][c] != '\n',
                forall|c: int| line_start <= c < i ==> text@[c] != '\n',
                line_start == 0 || text@[line_start - 1] == '\n',
            decreases n - i,
        {
            if text.get_char(i) == '\n' {
                let line = text.substring_char(line_start, i).to_owned();
                let ghost prev = lines.deep_view();
                let ghost lview = line@;
                lines.push(line);
                proof {
                    assert(lines.deep_view() =~= prev.push(lview));
                    assert(lines.deep_view().drop_last() =~= prev);
                    assert(spec_full_text(lines.deep_view()) == spec_full_text(prev)
                        + lview.push('\n'));
                    assert(text@.take(i + 1) =~= text@.take(line_start as int) + lview.push('\n'));
                    assert(forall|c: int| 0 <= c < lview.len() ==> lview[c] != '\n');
                }
                line_start = i + 1;
            }
            i += 1;
        }
        if line_start < n {
            let line = text.substring_char(line_start, n).to_owned();
            let ghost prev = lines.deep_view();
            let ghost lview = line@;
            lines.push(line);
            proof {
                assert(lines.deep_view() =~= prev.push(lview));
                assert(lines.deep_view().drop_last() =~= prev);
                assert(spec_full_text(lines.deep_view()) == spec_full_text(prev)
                    + lview.push('\n'));
                assert(text@ + seq!['\n'] =~= text@.take(line_start as int) + lview.push('\n'));
                assert(forall|c: int| 0 <= c < lview.len() ==> lview[c] != '\n');
                assert(text@[n - 1] != '\n');
            }
        } else {
            proof {
                assert(text@.take(line_start as int) =~= text@);
                if text@.len() > 0 {
                    assert(text@[line_start - 1] == '\n');
                }
            }
        }
        Self::from_lines(lines)
    }

    /// How many lines the document was loaded with.
    pub fn line_count(&self) -> (n: usize)
        ensures
            n == self.lines@.len(),
    {
        self.lines.len()
    }

    /// Whether line `line` is currently removed.
    pub fn is_line_removed(&self, line: usize) -> (r: bool)
        requires
            line < self.mask().len(),
        ensures
            r == self.mask()[line as int],
    {
        self.is_removed[line]
    }

    /// Marks one line removed.  Removing a line that is already removed
    /// changes nothing.
    pub fn remove_line(&mut self, line: usize)
        requires
            old(self).wf(),
            line < old(self).mask().len(),
        ensures
            final(self).wf(),
            final(self).lines == old(self).lines,
            final(self).mask() == old(self).mask().update(line as int, true),
            old(self).mask()[line as int] ==> final(self).mask() == old(self).mask(),
    {
        self.is_removed[line] = true;
        proof {
            if old(self).mask()[line as int] {
                assert(final(self).mask() =~= old(self).mask());
            }
        }
    }

    /// Clears one line's removal flag.  Restoring a line that is not
    /// removed changes nothing.
    pub fn restore_line(&mut self, line: usize)
        requires
            old(self).wf(),
            line < old(self).mask().len(),
        ensures
            final(self).wf(),
            final(self).lines == old(self).lines,
            final(self).mask() == old(self).mask().update(line as int, false),
            !old(self).mask()[line as int] ==> final(self).mask() == old(self).mask(),
    {
        self.is_removed[line] = false;
        proof {
            if !old(self).mask()[line as int] {
                assert(final(self).mask() =~= old(self).mask());
            }
        }
    }

    /// The current rendering: every line whose flag is clear, in order,
    /// each followed by a newline.
    pub fn to_string(&self) -> (r: String)
        requires
            self.wf(),
        ensures
            r@ == self.rendering(),
    {
        let mut out = String::new();
        let mut i: usize = 0;
        while i < self.lines.len()
            invariant
                self.wf(),
                i <= self.lines@.len(),
                out@ == spec_render(
                    self.line_views().take(i as int),
                    self.mask().take(i as int),
                ),
            decreases self.lines@.len() - i,
        {
            proof {
                assert(self.line_views().take(i + 1).drop_last() =~= self.line_views().take(
                    i as int,
                ));
                assert(self.mask().take(i + 1).drop_last() =~= self.mask().take(i as int));
            }
            if !self.is_removed[i] {
                out.append(self.lines[i].as_str());
                out.append("\n");
                proof {
                    reveal_strlit("\n");
                    assert(self.line_views()[i as int].push('\n') =~= self.line_views()[i as int]
                        + "\n"@);
                }
            }
            i += 1;
        }
        proof {
            assert(self.line_views().take(self.lines@.len() as int) =~= self.line_views());
            assert(self.mask().take(self.mask().len() as int) =~= self.mask());
        }
        out
    }

    /// Sets every flag of `[start, end)`.  Entries already set stay set;
    /// nothing outside the span changes.
    pub fn remove_span(&mut self, start: usize, end: usize)
        requires
            old(self).wf(),
            start <= end <= old(self).mask().len(),
        ensures
            final(self).wf(),
            final(self).lines == old(self).lines,
            final(self).mask() == spec_remove_span(old(self).mask(), start as int, end as int),
    {
        let mut i: usize = start;
        while i < end
            invariant
                old(self).wf(),
                self.wf(),
                start <= i <= end <= self.mask().len(),
                self.lines == old(self).lines,
                self.mask() == spec_remove_span(old(self).mask(), start as int, i as int),
            decreases end - i,
        {
            self.remove_line(i);
            proof {
                assert(self.mask() =~= spec_remove_span(
                    old(self).mask(),
                    start as int,
                    i + 1,
                ));
            }
            i += 1;
        }
        proof {
            assert(self.mask() =~= spec_remove_span(old(self).mask(), start as int, end as int));
        }
    }

    /// Copies the flags of `[start, end)`, for a later rollback.
    pub fn saved_span(&self, start: usize, end: usize) -> (saved: Vec<bool>)
        requires
            self.wf(),
            start <= end <= self.mask().len(),
        ensures
            saved@ == self.mask().subrange(start as int, end as int),
    {
        let mut saved: Vec<bool> = Vec::new();
        let mut i: usize = start;
        while i < end
            invariant
                self.wf(),
                start <= i <= end <= self.mask().len(),
                saved@ == self.mask().subrange(start as int, i as int),
            decreases end - i,
        {
            saved.push(self.is_removed[i]);
            proof {
                assert(saved@ =~= self.mask().subrange(start as int, i + 1));
            }
            i += 1;
        }
        saved
    }

    /// Rolls a span attempt back: clears exactly the flags of `[start, end)`
    /// that were clear in `saved`; entries that were already set before the
    /// attempt stay set.
    pub fn rollback_span(&mut self, start: usize, end: usize, saved: &Vec<bool>)
        requires
            old(self).wf(),
            start <= end <= old(self).mask().len(),
            saved@.len() == end - start,
        ensures
            final(self).wf(),
            final(self).lines == old(self).lines,
            final(self).mask() == spec_rollback_span(
                old(self).mask(),
                start as int,
                end as int,
                saved@,
            ),
    {
        let mut i: usize = start;
        while i < end
            invariant
                old(self).wf(),
                self.wf(),
                start <= i <= end <= self.mask().len(),
                saved@.len() == end - start,
                self.lines == old(self).lines,
                self.mask() == spec_rollback_span(old(self).mask(), start as int, i as int, saved@),
            decreases end - i,
        {
            if !saved[i - start] {
                self.restore_line(i);
            }
            proof {
                assert(self.mask() =~= spec_rollback_span(
                    old(self).mask(),
                    start as int,
                    i + 1,
                    saved@,
                ));
            }
            i += 1;
        }
        proof {
            assert(self.mask() =~= spec_rollback_span(
                old(self).mask(),
                start as int,
                end as int,
                saved@,
            ));
        }
    }

    /// Whether every line of `[start, end)` is already removed.
    pub fn span_all_removed(&self, start: usize, end: usize) -> (r: bool)
        requires
            self.wf(),
            start <= end <= self.mask().len(),
        ensures
            r == spec_span_all_removed(self.mask(), start as int, end as int),
    {
        let mut i: usize = start;
        while i < end
            invariant
                self.wf(),
                start <= i <= end <= self.mask().len(),
                forall|j: int| start <= j < i ==> self.mask()[j],
            decreases end - i,
        {
            if !self.is_removed[i] {
                return false;
            }
            i += 1;
        }
        true
    }

    /// The lines that are not removed, in order.
    pub fn lines(&self) -> (r: Vec<String>)
        requires
            self.wf(),
        ensures
            r.deep_view() == spec_visible(self.line_views(), self.mask()),
    {
        let mut r: Vec<String> = Vec::new();
        let mut i: usize = 0;
        while i < self.lines.len()
            invariant
                self.wf(),
                i <= self.lines@.len(),
                r.deep_view() == spec_visible(
                    self.line_views().take(i as int),
                    self.mask().take(i as int),
                ),
            decreases self.lines@.len() - i,
        {
            proof {
                assert(self.line_views().take(i + 1).drop_last() =~= self.line_views().take(
                    i as int,
                ));
                assert(self.mask().take(i + 1).drop_last() =~= self.mask().take(i as int));
            }
            if !self.is_removed[i] {
                r.push(self.lines[i].clone());
                proof {
                    assert(r.deep_view() =~= spec_visible(
                        self.line_views().take(i + 1),
                        self.mask().take(i + 1),
                    ));
                }
            }
            i += 1;
        }
        proof {
            assert(self.line_views().take(self.lines@.len() as int) =~= self.line_views());
            assert(self.mask().take(self.mask().len() as int) =~= self.mask());
        }
        r
    }

    /// How many lines are currently removed.
    pub fn removed_lines(&self) -> (n: usize)
        requires
            self.wf(),
        ensures
            n == spec_count_removed(self.mask()),
    {
        let mut n: usize = 0;
        let mut i: usize = 0;
        while i < self.is_removed.len()
            invariant
                i <= self.is_removed@.len(),
                n == spec_count_removed(self.is_removed@.take(i as int)),
                n <= i,
            decreases self.is_removed@.len() - i,
        {
            proof {
                assert(self.is_removed@.take(i + 1).drop_last() =~= self.is_removed@.take(
                    i as int,
                ));
            }
            if self.is_removed[i] {
                n += 1;
            }
            i += 1;
        }
        proof {
            assert(self.is_removed@.take(self.is_removed@.len() as int) =~= self.is_removed@);
        }
        n
    }
}

} // verus!

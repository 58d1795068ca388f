//! Gathering the outcomes of a run's lines into its output and its report.
use vstd::prelude::*;
use crate::resolver::{LineOutcome, OutcomeModel};

verus! {

/// The lines joined by line breaks.
pub open spec fn join_lines(s: Seq<Seq<char>>) -> Seq<char>
    decreases s.len(),
{
    if s.len() == 0 {
        Seq::empty()
    } else if s.len() == 1 {
        s[0]
    } else {
        join_lines(s.drop_last()) + seq!['\n'] + s.last()
    }
}

/// The text that an outcome leaves in the output.
pub open spec fn outcome_text(o: OutcomeModel) -> Seq<char> {
    match o {
        OutcomeModel::Replaced(t) => t,
        OutcomeModel::Unresolved(t, _) => t,
    }
}

/// The output lines of a run so far, and the email addresses left unresolved.
#[derive(Debug)]
pub struct Report {
    pub lines: Vec<String>,
    pub unresolved: Vec<String>,
}

impl Report {
    /// An empty report.
    pub fn new() -> (r: Self)
        ensures
            r.lines@.len() == 0,
            r.unresolved@.len() == 0,
    {
        Report { lines: Vec::new(), unresolved: Vec::new() }
    }

    /// Adds the outcome of the next line.
    pub fn record(&mut self, outcome: LineOutcome)
        ensures
            final(self).lines.deep_view() == old(self).lines.deep_view().push(outcome_text(outcome@)),
            final(self).unresolved.deep_view() == match outcome@ {
                OutcomeModel::Unresolved(_, e) => old(self).unresolved.deep_view().push(e),
                OutcomeModel::Replaced(_) => old(self).unresolved.deep_view(),
            },
    {
        match outcome {
            LineOutcome::Replaced { output } => {
                self.lines.push(output);
            },
            LineOutcome::Unresolved { output, email } => {
                self.lines.push(output);
                self.unresolved.push(email);
            },
        }
        assert(self.lines.deep_view() =~= old(self).lines.deep_view().push(outcome_text(outcome@)));
        assert(self.unresolved.deep_view() =~= match outcome@ {
            OutcomeModel::Unresolved(_, e) => old(self).unresolved.deep_view().push(e),
            OutcomeModel::Replaced(_) => old(self).unresolved.deep_view(),
        });
    }

    /// The output of the run: the lines joined by line breaks.
    pub fn output(&self) -> (r: String)
        ensures
            r@ == join_lines(self.lines.deep_view()),
    {
        let ghost all = self.lines.deep_view();
        let n = self.lines.len();
        let mut out = String::new();
        if n == 0 {
            return out;
        }
        out.append(self.lines[0].as_str());
        let mut i: usize = 1;
        assert(all.subrange(0, 1).drop_last().len() == 0);
        while i < n
            invariant
                all == self.lines.deep_view(),
                n == all.len(),
                1 <= i <= n,
                out@ == join_lines(all.subrange(0, i as int)),
            decreases n - i,
        {
            assert(all.subrange(0, i + 1).drop_last() =~= all.subrange(0, i as int));
            out.append("\n");
            proof {
                reveal_strlit("\n");
            }
            out.append(self.lines[i].as_str());
            i = i + 1;
        }
        assert(all.subrange(0, n as int) =~= all);
        out
    }
}

} // verus!

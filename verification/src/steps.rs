//! Host changes as data: what each install phase logs and runs.
use vstd::prelude::*;

use crate::model::LogLevel;
use crate::phases::strs;
use crate::text::owned;

verus! {

/// One thing an install phase does.
#[derive(Debug, Clone)]
pub enum Step {
    /// Log a line.
    Note(LogLevel, String),
    /// Run a command with root rights (logged; skipped in a dry run).
    Run(Vec<String>),
}

/// The meaning of a step.
pub enum StepView {
    Note(LogLevel, Seq<char>),
    Run(Seq<Seq<char>>),
}

impl View for Step {
    type V = StepView;

    open spec fn view(&self) -> StepView {
        match self {
            Step::Note(l, m) => StepView::Note(*l, m@),
            Step::Run(argv) => StepView::Run(strs(argv@)),
        }
    }
}

/// The views of a sequence of steps.
pub open spec fn step_views(v: Seq<Step>) -> Seq<StepView> {
    v.map_values(|s: Step| s@)
}

/// The texts of a sequence of string slices.
pub open spec fn lits(v: Seq<&str>) -> Seq<Seq<char>> {
    v.map_values(|s: &str| s@)
}

/// A command line made of fixed words.
pub fn argv(words: &[&str]) -> (out: Vec<String>)
    ensures
        strs(out@) == lits(words@),
{
    let mut out: Vec<String> = Vec::new();
    let mut i: usize = 0;
    while i < words.len()
        invariant
            i <= words.len(),
            out.len() == i,
            forall|j: int| 0 <= j < i ==> #[trigger] out@[j]@ == words@[j]@,
        decreases words.len() - i,
    {
        out.push(owned(words[i]));
        i = i + 1;
    }
    assert(strs(out@) =~= lits(words@));
    out
}

/// `sh -c <script>`.
pub fn shell(script: String) -> (s: Step)
    ensures
        s@ == StepView::Run(seq!["sh"@, "-c"@, script@]),
{
    let mut v: Vec<String> = Vec::new();
    v.push(owned("sh"));
    v.push(owned("-c"));
    let ghost sv = script@;
    v.push(script);
    assert(strs(v@) =~= seq!["sh"@, "-c"@, sv]);
    Step::Run(v)
}

} // verus!

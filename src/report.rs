use vstd::prelude::*;
use crate::failure::Failure;
use crate::text::{decimal, decimal_spec};

verus! {

/// How one scenario ended.
#[derive(Debug)]
pub enum Outcome {
    Pass,
    Fail(Failure),
}

/// The outcome that a scenario's result stands for.
pub open spec fn outcome_of(result: Result<(), Failure>) -> Outcome {
    match result {
        Ok(()) => Outcome::Pass,
        Err(f) => Outcome::Fail(f),
    }
}

/// How many of `entries` failed.
pub open spec fn failed_count(entries: Seq<(Seq<char>, Outcome)>) -> nat
    decreases entries.len(),
{
    if entries.len() == 0 {
        0
    } else {
        failed_count(entries.drop_last()) + if entries.last().1 is Fail { 1nat } else { 0nat }
    }
}

proof fn lemma_failed_count_bound(entries: Seq<(Seq<char>, Outcome)>)
    ensures
        failed_count(entries) <= entries.len(),
    decreases entries.len(),
{
    if entries.len() > 0 {
        lemma_failed_count_bound(entries.drop_last());
    }
}

/// The line printed once a scenario has ended: ` OK`, or ` FAILED: ` and the
/// failure's message.
pub open spec fn outcome_line_spec(o: Outcome) -> Seq<char> {
    match o {
        Outcome::Pass => " OK"@,
        Outcome::Fail(f) => " FAILED: "@ + f.message@,
    }
}

/// The line printed as a scenario starts.
pub open spec fn start_line_spec(name: Seq<char>) -> Seq<char> {
    "Running "@ + name + "..."@
}

/// The last line of a run.
pub open spec fn summary_spec(failed: nat) -> Seq<char> {
    if failed == 0 {
        "All tests passed!"@
    } else {
        decimal_spec(failed) + " tests failed."@
    }
}

/// Writes the line printed as the scenario `name` starts.
pub fn start_line(name: &str) -> (r: String)
    ensures
        r@ == start_line_spec(name@),
{
    proof { reveal_strlit("Running "); reveal_strlit("..."); }
    let mut line = String::from_str("Running ");
    line.append(name);
    line.append("...");
    line
}

impl Outcome {
    /// Writes the line printed once the scenario has ended this way.
    pub fn line(&self) -> (r: String)
        ensures
            r@ == outcome_line_spec(*self),
    {
        proof { reveal_strlit(" OK"); reveal_strlit(" FAILED: "); }
        match self {
            Outcome::Pass => String::from_str(" OK"),
            Outcome::Fail(f) => {
                let mut line = String::from_str(" FAILED: ");
                line.append(f.message.as_str());
                line
            },
        }
    }
}

/// The outcomes of a run, in the order the scenarios ran, and how many failed.
pub struct RunReport {
    entries: Vec<(String, Outcome)>,
    failed: u64,
}

impl View for RunReport {
    type V = Seq<(Seq<char>, Outcome)>;

    closed spec fn view(&self) -> Seq<(Seq<char>, Outcome)> {
        self.entries@.map_values(|e: (String, Outcome)| (e.0@, e.1))
    }
}

impl RunReport {
    /// The stored failure count is the number of failed entries, and the
    /// number of entries fits a `u64`.
    pub closed spec fn wf(&self) -> bool {
        &&& self.failed == failed_count(self@)
        &&& self@.len() <= u64::MAX
    }

    /// A report of no scenarios yet.
    pub fn new() -> (r: RunReport)
        ensures
            r.wf(),
            r@ == Seq::<(Seq<char>, Outcome)>::empty(),
    {
        let r = RunReport { entries: Vec::new(), failed: 0 };
        assert(r@ =~= Seq::<(Seq<char>, Outcome)>::empty());
        r
    }

    /// Records that the scenario `name` ended with `result`, after those
    /// recorded before, and returns the line to print for that outcome.
    pub fn record(&mut self, name: String, result: Result<(), Failure>) -> (line: String)
        requires
            old(self).wf(),
            old(self)@.len() < u64::MAX,
        ensures
            final(self).wf(),
            final(self)@ == old(self)@.push((name@, outcome_of(result))),
            line@ == outcome_line_spec(outcome_of(result)),
    {
        proof { lemma_failed_count_bound(self@); }
        let ghost before = self@;
        let outcome = match result {
            Ok(()) => Outcome::Pass,
            Err(f) => {
                self.failed = self.failed + 1;
                Outcome::Fail(f)
            },
        };
        let line = outcome.line();
        self.entries.push((name, outcome));
        proof {
            assert(self@ =~= before.push((name@, outcome_of(result))));
            assert(self@.drop_last() =~= before);
        }
        line
    }

    /// How many scenarios were recorded.
    pub fn total(&self) -> (r: u64)
        requires
            self.wf(),
        ensures
            r == self@.len(),
    {
        self.entries.len() as u64
    }

    /// How many of the recorded scenarios failed.
    pub fn failed(&self) -> (r: u64)
        requires
            self.wf(),
        ensures
            r == failed_count(self@),
    {
        self.failed
    }

    /// Whether every recorded scenario passed.
    pub fn all_passed(&self) -> (r: bool)
        requires
            self.wf(),
        ensures
            r <==> failed_count(self@) == 0,
    {
        self.failed == 0
    }

    /// Writes the last line of the run.
    pub fn summary(&self) -> (r: String)
        requires
            self.wf(),
        ensures
            r@ == summary_spec(failed_count(self@)),
    {
        proof { reveal_strlit("All tests passed!"); reveal_strlit(" tests failed."); }
        if self.failed == 0 {
            String::from_str("All tests passed!")
        } else {
            let mut line = decimal(self.failed);
            line.append(" tests failed.");
            line
        }
    }
}

} // verus!

//! The conversion run: strictly sequential, one external process per input
//! file, each file's outcome independent of the others.
//!
//! Spawning is outside the library, so a run is a small state machine: the
//! caller asks for the next command, launches it, and hands back what it
//! observed; the machine records one outcome per file and never skips a file
//! because an earlier one failed.

use vstd::prelude::*;
use crate::options::ConversionOptions;
use crate::args::spec_invocation;
use crate::args::build_all;
use crate::outcome::LaunchReport;
use crate::outcome::ConversionOutcome;
use crate::outcome::spec_classify;
use crate::outcome::classify;

verus! {

/// One conversion run in progress: the commands still to launch, how many
/// files have been attempted, and the outcomes recorded so far.
pub struct RunState {
    commands: Vec<Vec<String>>,
    attempted: usize,
    outcomes: Vec<ConversionOutcome>,
}

impl RunState {
    /// The argument lists of the run, one per input file, in input order.
    pub closed spec fn commands(self) -> Seq<Seq<Seq<char>>> {
        self.commands.deep_view()
    }

    /// The outcomes recorded so far, in input order.
    pub closed spec fn outcomes(self) -> Seq<ConversionOutcome> {
        self.outcomes@
    }

    /// How many files have been attempted so far.
    pub closed spec fn attempted(self) -> int {
        self.attempted as int
    }

    /// Every attempted file has exactly one recorded outcome, and files are
    /// attempted from the front.
    pub open spec fn wf(self) -> bool {
        0 <= self.attempted() <= self.commands().len() && self.outcomes().len()
            == self.attempted()
    }

    /// True once every file of the run has an outcome.
    pub open spec fn spec_done(self) -> bool {
        self.attempted() == self.commands().len()
    }

    /// Start a run: re-check tool availability first.  If the tool is
    /// unavailable the run is over before it begins — no command is built,
    /// no file is attempted, and the outcome sequence stays empty.
    /// Otherwise one command per input file is prepared, in input order.
    pub fn start(
        tool_available: bool,
        options: &ConversionOptions,
        inputs: &Vec<String>,
        output_dir: &String,
    ) -> (r: RunState)
        ensures
            r.wf(),
            r.attempted() == 0,
            r.outcomes() == Seq::<ConversionOutcome>::empty(),
            !tool_available ==> r.commands().len() == 0 && r.spec_done(),
            tool_available ==> r.commands().len() == inputs@.len(),
            tool_available ==> forall|i: int|
                0 <= i < inputs@.len() ==> r.commands()[i] == spec_invocation(
                    *options,
                    inputs@[i]@,
                    output_dir@,
                ),
    {
        let commands: Vec<Vec<String>> = if tool_available {
            build_all(options, inputs, output_dir)
        } else {
            Vec::new()
        };
        RunState { commands, attempted: 0, outcomes: Vec::new() }
    }

    /// True once every file of the run has an outcome.
    pub fn is_done(&self) -> (r: bool)
        ensures
            r == self.spec_done(),
    {
        self.attempted == self.commands.len()
    }

    /// The argument list of the next file to attempt, or `None` when the run
    /// is over.
    pub fn next_command(&self) -> (r: Option<&Vec<String>>)
        requires
            self.wf(),
        ensures
            self.spec_done() <==> r is None,
            !self.spec_done() ==> (r matches Some(c) && c.deep_view() == self.commands()[
                self.attempted()
            ]),
    {
        if self.attempted < self.commands.len() {
            Some(&self.commands[self.attempted])
        } else {
            None
        }
    }

    /// Record what launching the next file's command produced.  Exactly one
    /// outcome is appended, whatever the report says: a failure on this file
    /// leaves every later file still to be attempted.
    pub fn record(&mut self, report: LaunchReport)
        requires
            old(self).wf(),
            !old(self).spec_done(),
        ensures
            final(self).wf(),
            final(self).commands() == old(self).commands(),
            final(self).attempted() == old(self).attempted() + 1,
            final(self).outcomes() == old(self).outcomes().push(spec_classify(report)),
    {
        let n = self.commands.len();
        proof {
            assert(self.commands.deep_view().len() == n as int);
        }
        self.outcomes.push(classify(report));
        self.attempted = self.attempted + 1;
    }

    /// The outcomes recorded so far, one per attempted file, in input order.
    pub fn into_outcomes(self) -> (r: Vec<ConversionOutcome>)
        ensures
            r@ == self.outcomes(),
    {
        self.outcomes
    }
}

/// The outcome sequence after recording a whole sequence of launch reports on
/// top of the outcomes already recorded.
pub open spec fn spec_outcomes_after(
    prior: Seq<ConversionOutcome>,
    reports: Seq<LaunchReport>,
) -> Seq<ConversionOutcome>
    decreases reports.len(),
{
    if reports.len() == 0 {
        prior
    } else {
        spec_outcomes_after(prior.push(spec_classify(reports[0])), reports.skip(1))
    }
}

/// Law: a run never short-circuits.  Recording any sequence of launch
/// reports — failures included — appends exactly one outcome per report, in
/// report order, each the classification of its own report, and leaves the
/// outcomes already recorded unchanged.
pub proof fn lemma_run_never_short_circuits(
    prior: Seq<ConversionOutcome>,
    reports: Seq<LaunchReport>,
)
    ensures
        spec_outcomes_after(prior, reports).len() == prior.len() + reports.len(),
        forall|i: int|
            0 <= i < prior.len() ==> spec_outcomes_after(prior, reports)[i] == prior[i],
        forall|i: int|
            0 <= i < reports.len() ==> spec_outcomes_after(prior, reports)[prior.len() + i]
                == spec_classify(reports[i]),
    decreases reports.len(),
{
    if reports.len() > 0 {
        let stepped = prior.push(spec_classify(reports[0]));
        lemma_run_never_short_circuits(stepped, reports.skip(1));
        assert(spec_outcomes_after(prior, reports) == spec_outcomes_after(
            stepped,
            reports.skip(1),
        ));
        assert forall|i: int| 0 <= i < prior.len() implies spec_outcomes_after(prior, reports)[i]
            == prior[i] by {
            assert(spec_outcomes_after(stepped, reports.skip(1))[i] == stepped[i]);
            assert(stepped[i] == prior[i]);
        }
        assert forall|i: int| 0 <= i < reports.len() implies spec_outcomes_after(
            prior,
            reports,
        )[prior.len() + i] == spec_classify(reports[i]) by {
            if i == 0 {
                assert(spec_outcomes_after(stepped, reports.skip(1))[prior.len() as int] == stepped[
                    prior.len() as int
                ]);
                assert(stepped[prior.len() as int] == spec_classify(reports[0]));
            } else {
                assert(spec_outcomes_after(stepped, reports.skip(1))[stepped.len() + (i - 1)]
                    == spec_classify(reports.skip(1)[i - 1]));
                assert(reports.skip(1)[i - 1] == reports[i]);
            }
        }
    }
}

} // verus!

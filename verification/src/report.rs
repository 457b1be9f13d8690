//! The report: the records of the analysed documents, gathered one by one.

use vstd::prelude::*;
use crate::stats::{summary, summary_text, FileStats, StatsModel};

verus! {

/// The records of the documents that could be analysed, in the order in which
/// their analyses came in.
pub struct Report {
    entries: Vec<FileStats>,
}

/// The outcome of one analysis as mathematical values: the record, or nothing
/// where the document could not be read.
pub open spec fn outcome_model(outcome: Option<FileStats>) -> Option<StatsModel> {
    match outcome {
        Some(stats) => Some(stats@),
        None => None,
    }
}

/// The report after one more outcome has come in: a record is added at the
/// end, an absent one leaves the report as it was.
pub open spec fn with_outcome(report: Seq<StatsModel>, outcome: Option<StatsModel>) -> Seq<
    StatsModel,
> {
    match outcome {
        Some(stats) => report.push(stats),
        None => report,
    }
}

/// The report after the outcomes have come in one after the other.
pub open spec fn with_outcomes(report: Seq<StatsModel>, outcomes: Seq<Option<StatsModel>>) -> Seq<
    StatsModel,
>
    decreases outcomes.len(),
{
    if outcomes.len() == 0 {
        report
    } else {
        with_outcome(with_outcomes(report, outcomes.drop_last()), outcomes.last())
    }
}

/// Whether an outcome holds a record.
pub open spec fn is_record() -> spec_fn(Option<StatsModel>) -> bool {
    |outcome: Option<StatsModel>| outcome is Some
}

/// The records among `outcomes`, in their order.
pub open spec fn records_of(outcomes: Seq<Option<StatsModel>>) -> Seq<StatsModel> {
    outcomes.filter(is_record()).map_values(|outcome: Option<StatsModel>| outcome->0)
}

/// Gathering outcomes keeps what the report held and adds, in their order,
/// the records of the documents that could be read, and nothing for the
/// others: of ten outcomes with one absent, nine are added.
pub proof fn lemma_report_holds_the_readable(
    report: Seq<StatsModel>,
    outcomes: Seq<Option<StatsModel>>,
)
    ensures
        with_outcomes(report, outcomes) == report + records_of(outcomes),
        with_outcomes(report, outcomes).len() == report.len() + outcomes.filter(is_record()).len(),
    decreases outcomes.len(),
{
    reveal_with_fuel(Seq::filter, 1);
    if outcomes.len() > 0 {
        let earlier = outcomes.drop_last();
        lemma_report_holds_the_readable(report, earlier);
        earlier.lemma_filter_push(outcomes.last(), is_record());
    }
}

/// The records that `entries` hold, as mathematical values.
pub open spec fn models_of(entries: Seq<FileStats>) -> Seq<StatsModel> {
    entries.map_values(|stats: FileStats| stats@)
}

impl View for Report {
    type V = Seq<StatsModel>;

    closed spec fn view(&self) -> Seq<StatsModel> {
        models_of(self.entries@)
    }
}

impl Report {
    /// A report without entries: what is written where no document was found.
    pub fn new() -> (report: Report)
        ensures
            report@ == Seq::<StatsModel>::empty(),
    {
        Report { entries: Vec::new() }
    }

    /// The number of entries.
    pub fn len(&self) -> (n: usize)
        ensures
            n == self@.len(),
    {
        self.entries.len()
    }

    /// Takes in the outcome of one analysis. A record is added at the end of
    /// the report, and its summary is handed back to be shown; for a document
    /// that could not be read the report stays as it is and there is nothing
    /// to show.
    pub fn record(&mut self, outcome: Option<FileStats>) -> (shown: Option<String>)
        ensures
            final(self)@ == with_outcome(old(self)@, outcome_model(outcome)),
            match outcome {
                Some(stats) => shown matches Some(text) && text@ == summary_text(stats@),
                None => shown is None,
            },
    {
        match outcome {
            None => None,
            Some(stats) => {
                let text = summary(&stats);
                self.entries.push(stats);
                Some(text)
            },
        }
    }

    /// The entries, in the order in which they were recorded.
    pub fn into_entries(self) -> (entries: Vec<FileStats>)
        ensures
            models_of(entries@) == self@,
    {
        self.entries
    }
}

} // verus!

//! The copy queue: one source directory and the destinations that receive its
//! contents, in the order in which they are copied to.
//!
//! Copying itself is the work of the program around this crate. A
//! `CopySession` makes the decisions for it: which destination is next, what
//! a tick of the copy reports, what becomes of a destination that failed, and
//! when the whole run is complete.

use vstd::prelude::*;
use vstd::string::StringExecFns;
use crate::error::{CopyError, CopyErrorView};
use crate::progress::{percentage_of, CopyingState};
use crate::Args;

verus! {

/// What a queue holds, as plain text.
pub struct QueueView {
    pub source: Seq<char>,
    pub destinations: Seq<Seq<char>>,
}

/// One source and an ordered list of destinations. The order is the order of
/// copying and of the rows on the display. A queue is not changed once made.
#[derive(Debug)]
pub struct CopyQueue {
    source: String,
    destinations: Vec<String>,
}

impl View for CopyQueue {
    type V = QueueView;

    closed spec fn view(&self) -> QueueView {
        QueueView { source: self.source@, destinations: self.destinations.deep_view() }
    }
}

impl Clone for CopyQueue {
    fn clone(&self) -> (queue: CopyQueue)
        ensures
            queue@ == self@,
    {
        let queue = CopyQueue {
            source: self.source.clone(),
            destinations: self.destinations.clone(),
        };
        queue
    }
}

impl CopyQueue {
    /// A queue from a source path and the destination paths, kept in the
    /// order given.
    pub fn new(source: String, destinations: Vec<String>) -> (queue: CopyQueue)
        ensures
            queue@.source == source@,
            queue@.destinations == destinations.deep_view(),
    {
        CopyQueue { source, destinations }
    }

    /// The source path.
    pub fn source(&self) -> (source: &String)
        ensures
            source@ == self@.source,
    {
        &self.source
    }

    /// The destination paths, in copying order.
    pub fn destinations(&self) -> (destinations: &Vec<String>)
        ensures
            destinations.deep_view() == self@.destinations,
    {
        &self.destinations
    }
}

/// What became of one destination.
#[derive(Debug)]
pub enum Outcome {
    /// The contents of the source were copied into it.
    Copied,
    /// The copy into it failed, for the reason given.
    Failed(String),
}

/// An outcome as plain values.
pub enum OutcomeView {
    Copied,
    Failed(Seq<char>),
}

impl View for Outcome {
    type V = OutcomeView;

    open spec fn view(&self) -> OutcomeView {
        match self {
            Outcome::Copied => OutcomeView::Copied,
            Outcome::Failed(reason) => OutcomeView::Failed(reason@),
        }
    }
}

impl DeepView for Outcome {
    type V = OutcomeView;

    open spec fn deep_view(&self) -> OutcomeView {
        self@
    }
}

/// What the program around the session does next.
#[derive(Clone, Copy, Debug, PartialEq, Eq, Structural)]
pub enum CopyStep {
    /// Copy the source into the destination with this index in the queue,
    /// then record the outcome.
    CopyTo(usize),
    /// Every destination was attempted: announce the completion.
    Complete,
    /// The completion was announced. Nothing is left to do.
    Finished,
}

/// A run in progress.
pub struct CopySession {
    destinations: Vec<String>,
    total_bytes: u64,
    outcomes: Vec<Outcome>,
    completed: bool,
}

/// A run as plain values: the destinations in order, the size of the source,
/// the outcomes of the destinations attempted so far, in the same order, and
/// whether the completion was announced.
pub struct SessionView {
    pub destinations: Seq<Seq<char>>,
    pub total_bytes: nat,
    pub outcomes: Seq<OutcomeView>,
    pub completed: bool,
}

impl SessionView {
    /// No more outcomes than destinations, and no completion before every
    /// destination was attempted.
    pub open spec fn wf(self) -> bool {
        &&& self.outcomes.len() <= self.destinations.len()
        &&& self.completed ==> self.outcomes.len() == self.destinations.len()
    }

    /// The number of destinations attempted so far, which is also the index
    /// of the destination that is copied to next.
    pub open spec fn attempted(self) -> nat {
        self.outcomes.len()
    }

    /// The step that follows this state.
    pub open spec fn step(self) -> CopyStep {
        if self.attempted() < self.destinations.len() {
            CopyStep::CopyTo(self.attempted() as usize)
        } else if !self.completed {
            CopyStep::Complete
        } else {
            CopyStep::Finished
        }
    }

    /// The state after the step was handed out: announcing the completion is
    /// remembered, the other steps change nothing.
    pub open spec fn after_step(self) -> SessionView {
        if self.step() == CopyStep::Complete {
            SessionView { completed: true, ..self }
        } else {
            self
        }
    }

    /// The state after the destination that is being copied to ended with
    /// `outcome`. Once every destination was attempted, nothing is recorded.
    pub open spec fn after_outcome(self, outcome: OutcomeView) -> SessionView {
        if self.attempted() < self.destinations.len() {
            SessionView { outcomes: self.outcomes.push(outcome), ..self }
        } else {
            self
        }
    }
}

/// The destinations that were copied to, in queue order.
pub open spec fn succeeded_of(destinations: Seq<Seq<char>>, outcomes: Seq<OutcomeView>) -> Seq<
    Seq<char>,
>
    decreases outcomes.len(),
{
    if outcomes.len() == 0 {
        Seq::empty()
    } else {
        let rest = succeeded_of(destinations, outcomes.drop_last());
        match outcomes.last() {
            OutcomeView::Copied => rest.push(destinations[outcomes.len() - 1]),
            OutcomeView::Failed(_) => rest,
        }
    }
}

/// The destinations that failed, each with its reason, in queue order.
pub open spec fn failed_of(destinations: Seq<Seq<char>>, outcomes: Seq<OutcomeView>) -> Seq<
    (Seq<char>, Seq<char>),
>
    decreases outcomes.len(),
{
    if outcomes.len() == 0 {
        Seq::empty()
    } else {
        let rest = failed_of(destinations, outcomes.drop_last());
        match outcomes.last() {
            OutcomeView::Copied => rest,
            OutcomeView::Failed(reason) => rest.push((destinations[outcomes.len() - 1], reason)),
        }
    }
}

/// The account of a run: which destinations were copied to, and which
/// failed and why.
#[derive(Debug)]
pub struct CopySummary {
    pub succeeded: Vec<String>,
    pub failed: Vec<(String, String)>,
}

impl View for CopySession {
    type V = SessionView;

    closed spec fn view(&self) -> SessionView {
        SessionView {
            destinations: self.destinations.deep_view(),
            total_bytes: self.total_bytes as nat,
            outcomes: self.outcomes.deep_view(),
            completed: self.completed,
        }
    }
}

impl CopyQueue {
    /// Starts a run over the destinations of the queue. `measured` is the
    /// size of the source in bytes, or nothing when the source could not be
    /// read: then the run fails at once, before any destination is touched.
    pub fn start_copy(&self, measured: Option<u64>) -> (started: Result<CopySession, CopyError>)
        ensures
            match (measured, started) {
                (Some(total), Ok(session)) => session@ == (SessionView {
                    destinations: self@.destinations,
                    total_bytes: total as nat,
                    outcomes: Seq::empty(),
                    completed: false,
                }),
                (None, Err(error)) => error@ == CopyErrorView::SourceUnreadable,
                _ => false,
            },
    {
        match measured {
            Some(total_bytes) => {
                let session = CopySession {
                    destinations: self.destinations.clone(),
                    total_bytes,
                    outcomes: Vec::new(),
                    completed: false,
                };
                assert(session.outcomes.deep_view() =~= Seq::<OutcomeView>::empty());
                Ok(session)
            },
            None => Err(CopyError::SourceUnreadable),
        }
    }
}

impl CopySession {
    #[verifier::type_invariant]
    spec fn well_formed(self) -> bool {
        self@.wf()
    }

    /// Hands out the next step. Destinations come in queue order, one step
    /// each time until its outcome is recorded; after the last outcome the
    /// completion comes, once; from then on the run is finished.
    pub fn next_step(&mut self) -> (step: CopyStep)
        ensures
            old(self)@.wf(),
            step == old(self)@.step(),
            final(self)@ == old(self)@.after_step(),
            final(self)@.wf(),
    {
        proof {
            use_type_invariant(&*self);
        }
        if self.outcomes.len() < self.destinations.len() {
            CopyStep::CopyTo(self.outcomes.len())
        } else if !self.completed {
            self.completed = true;
            CopyStep::Complete
        } else {
            CopyStep::Finished
        }
    }

    /// The report for a tick of the copy: `copied_bytes` bytes have gone into
    /// the destination that is being copied to. There is no report once every
    /// destination was attempted.
    pub fn progress(&self, copied_bytes: u64) -> (report: Option<CopyingState>)
        ensures
            self@.wf(),
            match report {
                Some(state) => {
                    &&& self@.attempted() < self@.destinations.len()
                    &&& state@.bytes_copied == copied_bytes
                    &&& state@.percentage == percentage_of(copied_bytes as nat, self@.total_bytes)
                    &&& state@.destination == self@.destinations[self@.attempted() as int]
                    &&& state.wf()
                },
                None => self@.attempted() == self@.destinations.len(),
            },
    {
        proof {
            use_type_invariant(self);
        }
        let current: usize = self.outcomes.len();
        if current < self.destinations.len() {
            let destination = self.destinations[current].clone();
            Some(CopyingState::new(copied_bytes, self.total_bytes, destination))
        } else {
            None
        }
    }

    /// Records how the destination that is being copied to ended, and moves
    /// on to the next. A failure is kept and stops nothing. Once every
    /// destination was attempted, an outcome has no destination and is
    /// dropped.
    pub fn record(self, outcome: Outcome) -> (next: CopySession)
        ensures
            self@.wf(),
            next@ == self@.after_outcome(outcome@),
            next@.wf(),
    {
        proof {
            use_type_invariant(&self);
        }
        if self.outcomes.len() < self.destinations.len() {
            let ghost before = self.outcomes.deep_view();
            let CopySession { destinations, total_bytes, outcomes, completed } = self;
            let mut outcomes = outcomes;
            outcomes.push(outcome);
            assert(outcomes.deep_view() =~= before.push(outcome@));
            CopySession { destinations, total_bytes, outcomes, completed }
        } else {
            self
        }
    }

    /// The number of destinations attempted so far.
    pub fn attempted(&self) -> (count: usize)
        ensures
            count == self@.attempted(),
    {
        self.outcomes.len()
    }

    /// Whether the completion was announced.
    pub fn is_complete(&self) -> (completed: bool)
        ensures
            completed == self@.completed,
    {
        self.completed
    }

    /// The size of the source in bytes.
    pub fn total_bytes(&self) -> (total: u64)
        ensures
            total == self@.total_bytes,
    {
        self.total_bytes
    }

    /// The account of the run so far: the destinations copied to and the
    /// destinations that failed, each list in queue order.
    pub fn summary(&self) -> (summary: CopySummary)
        ensures
            summary.succeeded.deep_view() == succeeded_of(self@.destinations, self@.outcomes),
            summary.failed.deep_view() == failed_of(self@.destinations, self@.outcomes),
    {
        proof {
            use_type_invariant(self);
        }
        let ghost destinations = self.destinations.deep_view();
        let ghost outcomes = self.outcomes.deep_view();
        let mut succeeded: Vec<String> = Vec::new();
        let mut failed: Vec<(String, String)> = Vec::new();
        let mut index: usize = 0;
        while index < self.outcomes.len()
            invariant
                index <= self.outcomes.len() <= self.destinations.len(),
                destinations == self.destinations.deep_view(),
                outcomes == self.outcomes.deep_view(),
                succeeded.deep_view() == succeeded_of(destinations, outcomes.take(index as int)),
                failed.deep_view() == failed_of(destinations, outcomes.take(index as int)),
            decreases self.outcomes.len() - index,
        {
            let ghost seen = outcomes.take(index as int);
            let ghost next = outcomes.take(index + 1);
            assert(next.drop_last() =~= seen);
            match &self.outcomes[index] {
                Outcome::Copied => {
                    succeeded.push(self.destinations[index].clone());
                },
                Outcome::Failed(reason) => {
                    failed.push((self.destinations[index].clone(), reason.clone()));
                },
            }
            index = index + 1;
        }
        assert(outcomes.take(index as int) =~= outcomes);
        CopySummary { succeeded, failed }
    }
}

/// The lines that report an account: one for each destination copied to,
/// then one for each destination that failed.
pub open spec fn report_text(
    succeeded: Seq<Seq<char>>,
    failed: Seq<(Seq<char>, Seq<char>)>,
) -> Seq<Seq<char>> {
    succeeded.map_values(|destination: Seq<char>| "copied to "@ + destination) + failed.map_values(
        |failure: (Seq<char>, Seq<char>)|
            (CopyErrorView::DestinationCopy {
                destination: failure.0,
                reason: failure.1,
            }).message(),
    )
}

impl CopySummary {
    /// Whether every destination in the account was copied to.
    pub fn is_clean(&self) -> (clean: bool)
        ensures
            clean == (self.failed@.len() == 0),
    {
        self.failed.len() == 0
    }

    /// The exit code of a process that ends with this account: 0 when no
    /// destination failed, the code of a failed destination otherwise.
    pub fn exit_code(&self) -> (code: u8)
        ensures
            code == if self.failed@.len() == 0 {
                0u8
            } else {
                (CopyErrorView::DestinationCopy {
                    destination: Seq::empty(),
                    reason: Seq::empty(),
                }).exit_code()
            },
            code == 0 <==> self.failed@.len() == 0,
    {
        if self.failed.len() == 0 {
            0
        } else {
            let failure = CopyError::DestinationCopy {
                destination: String::new(),
                reason: String::new(),
            };
            failure.exit_code()
        }
    }

    /// The lines that report the account, the successes first and each
    /// failure with its destination and reason.
    pub fn report(&self) -> (lines: Vec<String>)
        ensures
            lines.deep_view() == report_text(self.succeeded.deep_view(), self.failed.deep_view()),
    {
        let ghost upper = self.succeeded.deep_view().map_values(
            |destination: Seq<char>| "copied to "@ + destination,
        );
        let ghost lower = self.failed.deep_view().map_values(
            |failure: (Seq<char>, Seq<char>)|
                (CopyErrorView::DestinationCopy {
                    destination: failure.0,
                    reason: failure.1,
                }).message(),
        );
        let mut lines: Vec<String> = Vec::new();
        let mut index: usize = 0;
        while index < self.succeeded.len()
            invariant
                index <= self.succeeded.len(),
                upper == self.succeeded.deep_view().map_values(
                    |destination: Seq<char>| "copied to "@ + destination,
                ),
                lines.deep_view() == upper.take(index as int),
            decreases self.succeeded.len() - index,
        {
            let mut line = String::from_str("copied to ");
            line.append(self.succeeded[index].as_str());
            lines.push(line);
            assert(upper.take(index + 1) =~= upper.take(index as int).push(upper[index as int]));
            index = index + 1;
        }
        let mut index: usize = 0;
        while index < self.failed.len()
            invariant
                index <= self.failed.len(),
                lower == self.failed.deep_view().map_values(
                    |failure: (Seq<char>, Seq<char>)|
                        (CopyErrorView::DestinationCopy {
                            destination: failure.0,
                            reason: failure.1,
                        }).message(),
                ),
                lines.deep_view() == upper + lower.take(index as int),
            decreases self.failed.len() - index,
        {
            let ghost before = lines.deep_view();
            let failure = CopyError::DestinationCopy {
                destination: self.failed[index].0.clone(),
                reason: self.failed[index].1.clone(),
            };
            let line = failure.message();
            lines.push(line);
            assert(lines.deep_view() =~= before.push(lower[index as int]));
            index = index + 1;
        }
        lines
    }
}

/// The steps come in order. While destinations are left, the step is to copy
/// to the first of them, and handing it out changes nothing. The completion
/// is announced only after every destination was attempted, and only once:
/// the step after it is the end, and stays the end.
pub proof fn lemma_steps_in_order(session: SessionView)
    requires
        session.wf(),
    ensures
        session.after_step().wf(),
        session.attempted() < session.destinations.len() ==> session.step() == CopyStep::CopyTo(
            session.attempted() as usize,
        ) && session.after_step() == session,
        session.step() == CopyStep::Complete ==> session.attempted() == session.destinations.len()
            && !session.completed,
        session.step() == CopyStep::Complete ==> session.after_step().step()
            == CopyStep::Finished,
        session.step() == CopyStep::Finished ==> session.after_step() == session,
{
}

/// An outcome moves the run on by one destination, whatever the outcome is:
/// after a failure the same step follows as after a success. Outcomes that
/// were recorded stay as they are.
pub proof fn lemma_failure_stops_nothing(session: SessionView, outcome: OutcomeView)
    requires
        session.wf(),
        session.attempted() < session.destinations.len(),
    ensures
        session.after_outcome(outcome).wf(),
        session.after_outcome(outcome).attempted() == session.attempted() + 1,
        session.after_outcome(outcome).step() == session.after_outcome(OutcomeView::Copied).step(),
        session.after_outcome(outcome).outcomes.take(session.attempted() as int)
            == session.outcomes,
        session.after_outcome(outcome).outcomes[session.attempted() as int] == outcome,
{
}

/// Every destination that was attempted is in the account once: among the
/// successes if it was copied to, among the failures, with its reason, if it
/// failed.
pub proof fn lemma_summary_accounts_for_each(
    destinations: Seq<Seq<char>>,
    outcomes: Seq<OutcomeView>,
    index: int,
)
    requires
        0 <= index < outcomes.len(),
    ensures
        succeeded_of(destinations, outcomes).len() + failed_of(destinations, outcomes).len()
            == outcomes.len(),
        outcomes[index] is Copied ==> succeeded_of(destinations, outcomes).contains(
            destinations[index],
        ),
        outcomes[index] matches OutcomeView::Failed(reason) ==> failed_of(
            destinations,
            outcomes,
        ).contains((destinations[index], reason)),
    decreases outcomes.len(),
{
    let rest = outcomes.drop_last();
    lemma_summary_counts(destinations, rest);
    if index < outcomes.len() - 1 {
        lemma_summary_accounts_for_each(destinations, rest, index);
        match outcomes[index] {
            OutcomeView::Copied => {
                let at = choose|at: int|
                    0 <= at < succeeded_of(destinations, rest).len() && succeeded_of(
                        destinations,
                        rest,
                    )[at] == destinations[index];
                assert(succeeded_of(destinations, outcomes)[at] == destinations[index]);
            },
            OutcomeView::Failed(reason) => {
                let at = choose|at: int|
                    0 <= at < failed_of(destinations, rest).len() && failed_of(
                        destinations,
                        rest,
                    )[at] == (destinations[index], reason);
                assert(failed_of(destinations, outcomes)[at] == (destinations[index], reason));
            },
        }
    } else {
        match outcomes[index] {
            OutcomeView::Copied => {
                let at = succeeded_of(destinations, rest).len() as int;
                assert(succeeded_of(destinations, outcomes)[at] == destinations[index]);
            },
            OutcomeView::Failed(reason) => {
                let at = failed_of(destinations, rest).len() as int;
                assert(failed_of(destinations, outcomes)[at] == (destinations[index], reason));
            },
        }
    }
}

/// The successes and the failures together are as many as the destinations
/// attempted.
pub proof fn lemma_summary_counts(destinations: Seq<Seq<char>>, outcomes: Seq<OutcomeView>)
    ensures
        succeeded_of(destinations, outcomes).len() + failed_of(destinations, outcomes).len()
            == outcomes.len(),
    decreases outcomes.len(),
{
    if outcomes.len() > 0 {
        lemma_summary_counts(destinations, outcomes.drop_last());
    }
}

impl From<&Args> for CopyQueue {
    fn from(a: &Args) -> (queue: CopyQueue)
        ensures
            queue@.source == a.copy_from@,
            queue@.destinations == a.drives.deep_view(),
    {
        let queue = CopyQueue { source: a.copy_from.clone(), destinations: a.drives.clone() };
        queue
    }
}

impl vstd::std_specs::convert::FromSpecImpl<&Args> for CopyQueue {
    /// The paths are cloned, so the queue is stated by its view, in the
    /// `ensures` of `from`, and not as a value.
    open spec fn obeys_from_spec() -> bool {
        false
    }

    closed spec fn from_spec(a: &Args) -> CopyQueue {
        CopyQueue { source: a.copy_from, destinations: a.drives }
    }
}

impl From<(String, Vec<String>)> for CopyQueue {
    fn from(parts: (String, Vec<String>)) -> (queue: CopyQueue)
        ensures
            queue@.source == parts.0@,
            queue@.destinations == parts.1.deep_view(),
    {
        CopyQueue { source: parts.0, destinations: parts.1 }
    }
}

impl vstd::std_specs::convert::FromSpecImpl<(String, Vec<String>)> for CopyQueue {
    open spec fn obeys_from_spec() -> bool {
        true
    }

    closed spec fn from_spec(parts: (String, Vec<String>)) -> CopyQueue {
        CopyQueue { source: parts.0, destinations: parts.1 }
    }
}

} // verus!

//! The gather run itself: a state machine that consumes the configured
//! sources in order, classifies the outcome the filesystem reported for each
//! attempted operation, accumulates the run counters, and decides whether
//! the run continues or aborts.
//!
//! The filesystem is driven by the caller: for each planned item it performs
//! the move or copy (or nothing, on a dry run) and feeds the outcome back
//! through [`Gatherer::record`]. Every decision — destination, outcome
//! classification, the stop-on-error abort, the counters — is made here.

use crate::config::Config;
use crate::paths::destination_for;
use crate::paths::destination_of;
use crate::report::fatal_message;
use crate::report::fatal_message_of;
use vstd::prelude::*;

verus! {

/// What the caller is to do with the current source.
#[derive(Clone, Copy, Debug, PartialEq, Eq, Structural)]
pub enum PlannedOp {
    /// Touch nothing; the run is a simulation.
    DryRun,
    /// Rename the source to the destination.
    Move,
    /// Copy the source's contents to the destination, overwriting it.
    Copy,
}

/// The operation a configuration asks for: a dry run plans no filesystem
/// action at all; otherwise the run moves or copies.
pub open spec fn planned_op_of(cfg: Config) -> PlannedOp {
    if cfg.dry_run {
        PlannedOp::DryRun
    } else if cfg.move_files {
        PlannedOp::Move
    } else {
        PlannedOp::Copy
    }
}

/// One source, the destination computed for it, and the operation the
/// caller is to attempt.
#[derive(Clone, Debug)]
pub struct ItemPlan {
    pub source: String,
    pub destination: String,
    pub op: PlannedOp,
}

/// What the filesystem reported for one attempted operation. A failure
/// carries the underlying error's text.
#[derive(Clone, Debug)]
pub enum ItemEvent {
    Success,
    Failure(String),
}

/// Whether an event reports success.
pub open spec fn event_ok(ev: ItemEvent) -> bool {
    match ev {
        ItemEvent::Success => true,
        ItemEvent::Failure(_) => false,
    }
}

/// The error text an event carries (empty for a success).
pub open spec fn event_msg(ev: ItemEvent) -> Seq<char> {
    match ev {
        ItemEvent::Success => Seq::<char>::empty(),
        ItemEvent::Failure(m) => m@,
    }
}

/// How one handled item ended.
#[derive(Clone, Copy, Debug, PartialEq, Eq, Structural)]
pub enum ItemResult {
    /// The item was gathered (or would have been, on a dry run).
    Processed,
    /// The item failed and the run went on without it.
    Skipped,
}

/// The record of one handled item.
#[derive(Clone, Debug)]
pub struct FileOutcome {
    pub source: String,
    pub destination: String,
    pub result: ItemResult,
    pub error: Option<String>,
}

/// What a recorded event means for the run: it goes on, or it is over.
#[derive(Clone, Debug)]
pub enum StepVerdict {
    /// The item was handled; the run continues with the next source.
    Continue(FileOutcome),
    /// The item failed under stop-on-error; the run is aborted with this
    /// fatal message and no later source is attempted.
    Abort(String),
}

/// The aggregate counters of one run.
#[derive(Clone, Copy, Debug, PartialEq, Eq, Structural)]
pub struct RunSummary {
    /// How many sources were consumed.
    pub total: usize,
    /// How many were gathered.
    pub processed: usize,
    /// How many failed and were skipped.
    pub skipped: usize,
}

/// The mathematical state of a run after a sequence of events: the
/// counters, and whether the run has aborted.
pub struct RunState {
    pub aborted: bool,
    pub total: int,
    pub processed: int,
    pub skipped: int,
}

/// The state of a run over the successes and failures of the attempted
/// items, one event per consumed source, in order. An item counts as
/// processed when its operation succeeded or the run is a dry run; a
/// failing item aborts the run under stop-on-error and is skipped
/// otherwise. Once aborted, the state never changes again.
pub open spec fn run_state(dry_run: bool, stop_on_error: bool, events: Seq<bool>) -> RunState
    decreases events.len(),
{
    if events.len() == 0 {
        RunState { aborted: false, total: 0, processed: 0, skipped: 0 }
    } else {
        let prev = run_state(dry_run, stop_on_error, events.drop_last());
        if prev.aborted {
            prev
        } else if dry_run || events.last() {
            RunState {
                aborted: false,
                total: prev.total + 1,
                processed: prev.processed + 1,
                skipped: prev.skipped,
            }
        } else if stop_on_error {
            RunState {
                aborted: true,
                total: prev.total + 1,
                processed: prev.processed,
                skipped: prev.skipped,
            }
        } else {
            RunState {
                aborted: false,
                total: prev.total + 1,
                processed: prev.processed,
                skipped: prev.skipped + 1,
            }
        }
    }
}

/// The counters of a run always balance: the sources consumed are exactly
/// those processed, those skipped, and — only on an aborted run — the one
/// item whose failure ended it.
pub proof fn lemma_counters_balance(dry_run: bool, stop_on_error: bool, events: Seq<bool>)
    ensures
        run_state(dry_run, stop_on_error, events).total == run_state(
            dry_run,
            stop_on_error,
            events,
        ).processed + run_state(dry_run, stop_on_error, events).skipped + if run_state(
            dry_run,
            stop_on_error,
            events,
        ).aborted {
            1int
        } else {
            0int
        },
        0 <= run_state(dry_run, stop_on_error, events).processed,
        0 <= run_state(dry_run, stop_on_error, events).skipped,
        run_state(dry_run, stop_on_error, events).total <= events.len(),
    decreases events.len(),
{
    if events.len() > 0 {
        lemma_counters_balance(dry_run, stop_on_error, events.drop_last());
    }
}

/// A run that does not stop on error never aborts: every source is
/// consumed, and the consumed sources are exactly those processed and those
/// skipped.
pub proof fn lemma_no_stop_never_aborts(dry_run: bool, events: Seq<bool>)
    ensures
        !run_state(dry_run, false, events).aborted,
        run_state(dry_run, false, events).total == events.len(),
        run_state(dry_run, false, events).total == run_state(dry_run, false, events).processed
            + run_state(dry_run, false, events).skipped,
    decreases events.len(),
{
    if events.len() > 0 {
        lemma_no_stop_never_aborts(dry_run, events.drop_last());
    }
}

/// A run all of whose items succeed (as every item of a dry run does)
/// completes with every source processed and nothing skipped.
pub proof fn lemma_all_ok_completes(dry_run: bool, stop_on_error: bool, events: Seq<bool>)
    requires
        forall|j: int| 0 <= j < events.len() ==> dry_run || events[j],
    ensures
        !run_state(dry_run, stop_on_error, events).aborted,
        run_state(dry_run, stop_on_error, events).total == events.len(),
        run_state(dry_run, stop_on_error, events).processed == events.len(),
        run_state(dry_run, stop_on_error, events).skipped == 0,
    decreases events.len(),
{
    if events.len() > 0 {
        lemma_all_ok_completes(dry_run, stop_on_error, events.drop_last());
    }
}

/// A dry run never aborts and reports every source as processed, whatever
/// the events say: no filesystem outcome can fail it.
pub proof fn lemma_dry_run_processes_all(stop_on_error: bool, events: Seq<bool>)
    ensures
        !run_state(true, stop_on_error, events).aborted,
        run_state(true, stop_on_error, events).total == events.len(),
        run_state(true, stop_on_error, events).processed == events.len(),
        run_state(true, stop_on_error, events).skipped == 0,
{
    lemma_all_ok_completes(true, stop_on_error, events);
}

/// A run that stops on error aborts exactly at its first failing item: the
/// items before it are all processed, nothing is skipped, and no later
/// event changes the state — later sources are never attempted.
pub proof fn lemma_stop_aborts_at_first_failure(events: Seq<bool>, first_bad: int)
    requires
        0 <= first_bad < events.len(),
        !events[first_bad],
        forall|j: int| 0 <= j < first_bad ==> events[j],
    ensures
        run_state(false, true, events).aborted,
        run_state(false, true, events).total == first_bad + 1,
        run_state(false, true, events).processed == first_bad,
        run_state(false, true, events).skipped == 0,
    decreases events.len(),
{
    if first_bad == events.len() - 1 {
        lemma_all_ok_completes(false, true, events.drop_last());
    } else {
        lemma_stop_aborts_at_first_failure(events.drop_last(), first_bad);
    }
}

/// An aborted run is over for good: whatever events might still be
/// appended, its state never changes — the items after the aborting one are
/// never attempted, and a skipped item is never revisited.
pub proof fn lemma_aborted_run_is_frozen(
    dry_run: bool,
    stop_on_error: bool,
    events: Seq<bool>,
    later: Seq<bool>,
)
    requires
        run_state(dry_run, stop_on_error, events).aborted,
    ensures
        run_state(dry_run, stop_on_error, events + later) == run_state(
            dry_run,
            stop_on_error,
            events,
        ),
    decreases later.len(),
{
    if later.len() == 0 {
        assert(events + later =~= events);
    } else {
        lemma_aborted_run_is_frozen(dry_run, stop_on_error, events, later.drop_last());
        assert((events + later).drop_last() =~= events + later.drop_last());
    }
}

/// The state machine of one gather run. It owns the configuration and the
/// counters; the caller asks for the current item's plan, performs the
/// planned operation, and records the outcome, until the sources are
/// exhausted or the run aborts.
pub struct Gatherer {
    cfg: Config,
    total: usize,
    processed: usize,
    skipped: usize,
    aborted: bool,
    events: Ghost<Seq<bool>>,
}

impl Gatherer {
    /// The configuration the run was started with.
    pub closed spec fn config_spec(&self) -> Config {
        self.cfg
    }

    /// The success or failure of each item recorded so far, in order.
    pub closed spec fn events(&self) -> Seq<bool> {
        self.events@
    }

    /// The mathematical state of the run so far.
    pub open spec fn state(&self) -> RunState {
        run_state(self.config_spec().dry_run, self.config_spec().stop_on_error, self.events())
    }

    /// The gatherer's counters and abort flag agree with the run's
    /// mathematical state, one recorded event per consumed source.
    pub closed spec fn wf(&self) -> bool {
        &&& self.events@.len() == self.total
        &&& self.events@.len() <= self.cfg.sources@.len()
        &&& self.total as int == self.state().total
        &&& self.processed as int == self.state().processed
        &&& self.skipped as int == self.state().skipped
        &&& self.aborted == self.state().aborted
    }

    /// Starts a run: no source consumed yet, all counters zero.
    pub fn new(cfg: Config) -> (g: Gatherer)
        ensures
            g.wf(),
            g.config_spec() == cfg,
            g.events() =~= Seq::<bool>::empty(),
    {
        Gatherer {
            cfg,
            total: 0,
            processed: 0,
            skipped: 0,
            aborted: false,
            events: Ghost(Seq::empty()),
        }
    }

    /// The configuration the run was started with.
    pub fn config(&self) -> (r: &Config)
        ensures
            *r == self.config_spec(),
    {
        &self.cfg
    }

    /// The run's counters so far.
    pub fn summary(&self) -> (s: RunSummary)
        requires
            self.wf(),
        ensures
            s.total as int == self.state().total,
            s.processed as int == self.state().processed,
            s.skipped as int == self.state().skipped,
    {
        RunSummary { total: self.total, processed: self.processed, skipped: self.skipped }
    }

    /// Whether the run has aborted under stop-on-error.
    pub fn is_aborted(&self) -> (r: bool)
        requires
            self.wf(),
        ensures
            r == self.state().aborted,
    {
        self.aborted
    }

    /// The plan for the next source: its destination under the target
    /// directory, and the operation the configuration asks for. Yields
    /// nothing once every source is consumed or the run has aborted — an
    /// aborted run never plans another item.
    pub fn current(&self) -> (r: Option<ItemPlan>)
        requires
            self.wf(),
        ensures
            match r {
                Option::None => self.state().aborted || self.events().len()
                    == self.config_spec().sources@.len(),
                Option::Some(p) => {
                    &&& !self.state().aborted
                    &&& self.events().len() < self.config_spec().sources@.len()
                    &&& p.source@ == self.config_spec().sources@[self.events().len() as int]@
                    &&& p.destination@ == destination_of(
                        self.config_spec().target_dir@,
                        self.config_spec().sources@[self.events().len() as int]@,
                    )
                    &&& p.op == planned_op_of(self.config_spec())
                },
            },
    {
        if self.aborted || self.total >= self.cfg.sources.len() {
            Option::None
        } else {
            let source: String = self.cfg.sources[self.total].clone();
            let destination = destination_for(self.cfg.target_dir.as_str(), source.as_str());
            let op: PlannedOp = if self.cfg.dry_run {
                PlannedOp::DryRun
            } else if self.cfg.move_files {
                PlannedOp::Move
            } else {
                PlannedOp::Copy
            };
            Option::Some(ItemPlan { source, destination, op })
        }
    }

    /// Records the outcome of the current source's operation and hands
    /// down the verdict. A successful item — and every item of a dry run —
    /// is processed. A failing item aborts the run with the fatal message
    /// when the run stops on error, and is skipped otherwise, with the
    /// error's text kept in the outcome.
    pub fn record(&mut self, ev: ItemEvent) -> (r: StepVerdict)
        requires
            old(self).wf(),
            !old(self).state().aborted,
            old(self).events().len() < old(self).config_spec().sources@.len(),
        ensures
            final(self).wf(),
            final(self).config_spec() == old(self).config_spec(),
            final(self).events() =~= old(self).events().push(event_ok(ev)),
            final(self).state().aborted <==> (old(self).config_spec().stop_on_error && !(old(
                self,
            ).config_spec().dry_run || event_ok(ev))),
            ({
                let cfg = old(self).config_spec();
                let src = cfg.sources@[old(self).events().len() as int]@;
                let dst = destination_of(cfg.target_dir@, src);
                let ok = cfg.dry_run || event_ok(ev);
                match r {
                    StepVerdict::Continue(out) => {
                        &&& ok || !cfg.stop_on_error
                        &&& out.source@ == src
                        &&& out.destination@ == dst
                        &&& (out.result == ItemResult::Processed <==> ok)
                        &&& (ok ==> out.error is None)
                        &&& (!ok ==> match out.error {
                            Option::Some(m) => m@ == event_msg(ev),
                            Option::None => false,
                        })
                    },
                    StepVerdict::Abort(msg) => {
                        &&& !ok
                        &&& cfg.stop_on_error
                        &&& msg@ == fatal_message_of(event_msg(ev), src, dst, cfg.move_files)
                    },
                }
            }),
    {
        proof {
            lemma_counters_balance(self.cfg.dry_run, self.cfg.stop_on_error, self.events@);
        }
        let source_count: usize = self.cfg.sources.len();
        proof {
            // The consumed count stays below the number of sources, so no
            // counter can overflow.
            assert(self.total < source_count);
        }
        let source: String = self.cfg.sources[self.total].clone();
        let destination = destination_for(self.cfg.target_dir.as_str(), source.as_str());
        let ok: bool = match &ev {
            ItemEvent::Success => true,
            ItemEvent::Failure(_) => false,
        };
        let ghost prior = self.events@;
        proof {
            self.events@ = self.events@.push(ok);
            assert(self.events@.drop_last() =~= prior);
        }
        self.total = self.total + 1;
        if self.cfg.dry_run || ok {
            self.processed = self.processed + 1;
            StepVerdict::Continue(
                FileOutcome {
                    source,
                    destination,
                    result: ItemResult::Processed,
                    error: Option::None,
                },
            )
        } else {
            let err: String = match ev {
                ItemEvent::Success => String::new(),
                ItemEvent::Failure(m) => m,
            };
            if self.cfg.stop_on_error {
                self.aborted = true;
                let msg = fatal_message(
                    err.as_str(),
                    source.as_str(),
                    destination.as_str(),
                    self.cfg.move_files,
                );
                StepVerdict::Abort(msg)
            } else {
                self.skipped = self.skipped + 1;
                StepVerdict::Continue(
                    FileOutcome {
                        source,
                        destination,
                        result: ItemResult::Skipped,
                        error: Option::Some(err),
                    },
                )
            }
        }
    }
}

} // verus!

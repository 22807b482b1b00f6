//! The stream sequencer: turns an ordered source of block notifications into
//! an ordered source of metrics records, one record per block, with
//! fail-fast termination.
//!
//! The sequencer owns no I/O. The driving loop reports each happening as a
//! [`BlockEvent`] and performs the [`SequencerAction`] the sequencer returns:
//! run the two per-block queries, forward a record downstream, or stop. All
//! decisions — which error a query outcome maps to, the fetch-or-default
//! rule for a missing weight value, and the first-error latch — are made
//! here, and every transition is pinned by [`spec_step`].

use vstd::prelude::*;
use crate::errors::StatsError;
use crate::loader::{load_weight_limits, spec_load_weight_limits};
use crate::scale::{decode_weight_aggregate, spec_decode_weight_aggregate};
use crate::stats::{enrich, enrich_fits, spec_enrich, BlockNote, BlockStats, RawBlockStats};
use crate::weight::{DispatchClassAggregate, Weight};

verus! {

/// Outcome of one per-block point query, as the driving loop reports it.
#[derive(Copy, Clone, Debug)]
pub enum QueryOutcome<T> {
    /// The query completed and found a value.
    Value(T),
    /// The query completed but the queried item was not there.
    Missing,
    /// The query failed in transport or decoding.
    Fault,
}

/// One happening the driving loop reports to the sequencer.
#[derive(Clone, Debug)]
pub enum BlockEvent {
    /// The source notified a newly observed block.
    Notified(BlockNote),
    /// Both per-block queries for the block being fetched have finished:
    /// first the raw statistics, then the consumed-weight storage value as
    /// the undecoded bytes the chain holds (or nothing, where the chain
    /// recorded none).
    Fetched(QueryOutcome<RawBlockStats>, QueryOutcome<Vec<u8>>),
    /// The notification source ended cleanly.
    UpstreamClosed,
    /// The notification source failed (disconnect).
    UpstreamFailed,
}

/// What the driving loop must do next.
#[derive(Copy, Clone, Debug)]
pub enum SequencerAction {
    /// Run the two per-block queries for this block, then report `Fetched`.
    Fetch(BlockNote),
    /// Forward this record downstream, then await the next notification.
    Emit(BlockStats),
    /// The stream is over; `None` is a clean end of the source, `Some` the
    /// error that poisoned it. No further record will ever be emitted.
    Halt(Option<StatsError>),
}

/// Where the sequencer stands between events.
#[derive(Copy, Clone, Debug)]
pub enum Phase {
    /// Subscribed and awaiting the next notification.
    Waiting,
    /// The queries for this notified block are in flight.
    Fetching(BlockNote),
    /// Terminated; `None` for a clean end, `Some` for the poisoning error.
    Done(Option<StatsError>),
}

/// The aggregate a missing consumed-weight storage value falls back to:
/// zero weight in every dispatch class.
pub open spec fn spec_zero_aggregate() -> DispatchClassAggregate<Weight> {
    DispatchClassAggregate {
        normal: Weight { ref_time: 0, proof_size: 0 },
        operational: Weight { ref_time: 0, proof_size: 0 },
        mandatory: Weight { ref_time: 0, proof_size: 0 },
    }
}

/// A terminal transition: remember the error and report it.
pub open spec fn spec_halt(e: StatsError) -> (Phase, SequencerAction) {
    (Phase::Done(Some(e)), SequencerAction::Halt(Some(e)))
}

/// How a fetched pair of query outcomes settles the block being fetched:
/// a faulted query is `QueryFailure`, absent raw statistics are
/// `BlockUnavailable`, a missing weight value defaults to the zero
/// aggregate rather than failing, and weight bytes that do not decode as
/// an aggregate are a `QueryFailure`.
pub open spec fn spec_settle(
    max_pov: u64,
    max_weight: Weight,
    note: BlockNote,
    st: QueryOutcome<RawBlockStats>,
    wt: QueryOutcome<Vec<u8>>,
) -> (Phase, SequencerAction) {
    match st {
        QueryOutcome::Fault => spec_halt(StatsError::QueryFailure),
        QueryOutcome::Missing => spec_halt(StatsError::BlockUnavailable),
        QueryOutcome::Value(s) => match wt {
            QueryOutcome::Fault => spec_halt(StatsError::QueryFailure),
            QueryOutcome::Missing => (
                Phase::Waiting,
                SequencerAction::Emit(spec_enrich(note, s, spec_zero_aggregate(), max_pov, max_weight)),
            ),
            QueryOutcome::Value(b) => match spec_decode_weight_aggregate(b@, 0) {
                Some(p) => (
                    Phase::Waiting,
                    SequencerAction::Emit(spec_enrich(note, s, p.0, max_pov, max_weight)),
                ),
                None => spec_halt(StatsError::QueryFailure),
            },
        },
    }
}

/// The sequencer's whole transition relation: next phase and action for any
/// phase and event. Once `Done`, every event returns the same `Halt` and
/// changes nothing — the first error latches. An event that does not belong
/// to the current phase is a defect of the driving loop and is treated like
/// a failed query: it terminates the stream.
pub open spec fn spec_step(
    max_pov: u64,
    max_weight: Weight,
    phase: Phase,
    event: BlockEvent,
) -> (Phase, SequencerAction) {
    match phase {
        Phase::Done(err) => (phase, SequencerAction::Halt(err)),
        Phase::Waiting => match event {
            BlockEvent::Notified(note) => (Phase::Fetching(note), SequencerAction::Fetch(note)),
            BlockEvent::UpstreamClosed => (Phase::Done(None), SequencerAction::Halt(None)),
            BlockEvent::UpstreamFailed => spec_halt(StatsError::ConnectionFailure),
            BlockEvent::Fetched(_, _) => spec_halt(StatsError::QueryFailure),
        },
        Phase::Fetching(note) => match event {
            BlockEvent::Fetched(st, wt) => spec_settle(max_pov, max_weight, note, st, wt),
            BlockEvent::UpstreamClosed => (Phase::Done(None), SequencerAction::Halt(None)),
            BlockEvent::UpstreamFailed => spec_halt(StatsError::ConnectionFailure),
            BlockEvent::Notified(_) => spec_halt(StatsError::QueryFailure),
        },
    }
}

/// Raw statistics carried by an event are small enough to derive from; the
/// driving loop checks this before reporting the event.
pub open spec fn wf_event(event: BlockEvent) -> bool {
    match event {
        BlockEvent::Fetched(QueryOutcome::Value(s), _) => enrich_fits(s),
        _ => true,
    }
}

/// The stream sequencer. Holds the two run-wide ceilings, the current
/// phase, and — for the ordering guarantee — the history of notified blocks
/// and emitted records as ghost state.
pub struct Sequencer {
    /// The proof-of-validity ceiling stamped into every record.
    pub max_pov: u64,
    /// The weight ceiling stamped into every record.
    pub max_weight: Weight,
    /// Where the sequencer stands.
    pub phase: Phase,
    /// Every block notified so far, in arrival order.
    pub notified: Ghost<Seq<BlockNote>>,
    /// Every record emitted so far, in emission order.
    pub emitted: Ghost<Seq<BlockStats>>,
}

impl Sequencer {
    /// The ordering guarantee, as an invariant: the records emitted so far
    /// are exactly one per notified block, in notification order — the
    /// `i`-th record carries the `i`-th notified block's identity and the
    /// run-wide ceilings — and no record exists beyond the notified prefix.
    pub open spec fn wf(self) -> bool {
        &&& forall|i: int|
            0 <= i < self.emitted@.len() ==> {
                &&& (#[trigger] self.emitted@[i]).hash == self.notified@[i].hash
                &&& self.emitted@[i].number == self.notified@[i].number
                &&& self.emitted@[i].max_pov == self.max_pov
                &&& self.emitted@[i].max_weight == self.max_weight
            }
        &&& match self.phase {
            Phase::Waiting => self.emitted@.len() == self.notified@.len(),
            Phase::Fetching(note) => {
                &&& self.notified@.len() == self.emitted@.len() + 1
                &&& self.notified@.last() == note
            },
            Phase::Done(_) => self.emitted@.len() <= self.notified@.len(),
        }
    }

    /// A fresh sequencer for one run: subscribed, nothing notified or
    /// emitted, ceilings fixed for the whole run.
    pub fn new(max_pov: u64, max_weight: Weight) -> (s: Sequencer)
        ensures
            s.phase is Waiting,
            s.max_pov == max_pov,
            s.max_weight == max_weight,
            s.notified@ == Seq::<BlockNote>::empty(),
            s.emitted@ == Seq::<BlockStats>::empty(),
            s.wf(),
    {
        Sequencer {
            max_pov,
            max_weight,
            phase: Phase::Waiting,
            notified: Ghost(Seq::empty()),
            emitted: Ghost(Seq::empty()),
        }
    }

    /// Feed one event and learn what to do next. The transition taken is
    /// exactly [`spec_step`]; the ghost histories record a notification
    /// precisely when one is accepted and a record precisely when one is
    /// emitted, so the ordering invariant [`Sequencer::wf`] is preserved.
    pub fn step(&mut self, event: BlockEvent) -> (action: SequencerAction)
        requires
            old(self).wf(),
            wf_event(event),
        ensures
            final(self).wf(),
            final(self).max_pov == old(self).max_pov,
            final(self).max_weight == old(self).max_weight,
            (final(self).phase, action) == spec_step(
                old(self).max_pov,
                old(self).max_weight,
                old(self).phase,
                event,
            ),
            final(self).notified@ == (match (old(self).phase, event) {
                (Phase::Waiting, BlockEvent::Notified(note)) => old(self).notified@.push(note),
                _ => old(self).notified@,
            }),
            final(self).emitted@ == (match action {
                SequencerAction::Emit(r) => old(self).emitted@.push(r),
                _ => old(self).emitted@,
            }),
    {
        match self.phase {
            Phase::Done(err) => SequencerAction::Halt(err),
            Phase::Waiting => match event {
                BlockEvent::Notified(note) => {
                    self.phase = Phase::Fetching(note);
                    self.notified = Ghost(self.notified@.push(note));
                    SequencerAction::Fetch(note)
                },
                BlockEvent::UpstreamClosed => {
                    self.phase = Phase::Done(None);
                    SequencerAction::Halt(None)
                },
                BlockEvent::UpstreamFailed => self.halt(StatsError::ConnectionFailure),
                BlockEvent::Fetched(_, _) => self.halt(StatsError::QueryFailure),
            },
            Phase::Fetching(note) => match event {
                BlockEvent::Fetched(st, wt) => match st {
                    QueryOutcome::Fault => self.halt(StatsError::QueryFailure),
                    QueryOutcome::Missing => self.halt(StatsError::BlockUnavailable),
                    QueryOutcome::Value(s) => match wt {
                        QueryOutcome::Fault => self.halt(StatsError::QueryFailure),
                        QueryOutcome::Missing => self.emit(note, s, DispatchClassAggregate::zero()),
                        QueryOutcome::Value(b) => match decode_weight_aggregate(&b, 0) {
                            Some((a, _)) => self.emit(note, s, a),
                            None => self.halt(StatsError::QueryFailure),
                        },
                    },
                },
                BlockEvent::UpstreamClosed => {
                    self.phase = Phase::Done(None);
                    SequencerAction::Halt(None)
                },
                BlockEvent::UpstreamFailed => self.halt(StatsError::ConnectionFailure),
                BlockEvent::Notified(_) => self.halt(StatsError::QueryFailure),
            },
        }
    }

    /// Trip the first-error latch.
    fn halt(&mut self, e: StatsError) -> (action: SequencerAction)
        ensures
            final(self).phase == Phase::Done(Some(e)),
            action == SequencerAction::Halt(Some(e)),
            final(self).max_pov == old(self).max_pov,
            final(self).max_weight == old(self).max_weight,
            final(self).notified@ == old(self).notified@,
            final(self).emitted@ == old(self).emitted@,
    {
        self.phase = Phase::Done(Some(e));
        SequencerAction::Halt(Some(e))
    }

    /// Derive and emit the record for the block being fetched.
    fn emit(
        &mut self,
        note: BlockNote,
        stats: RawBlockStats,
        consumed: DispatchClassAggregate<Weight>,
    ) -> (action: SequencerAction)
        requires
            enrich_fits(stats),
        ensures
            final(self).phase == Phase::Waiting,
            action == SequencerAction::Emit(
                spec_enrich(note, stats, consumed, old(self).max_pov, old(self).max_weight),
            ),
            final(self).max_pov == old(self).max_pov,
            final(self).max_weight == old(self).max_weight,
            final(self).notified@ == old(self).notified@,
            final(self).emitted@ == old(self).emitted@.push(
                spec_enrich(note, stats, consumed, old(self).max_pov, old(self).max_weight),
            ),
    {
        let record = enrich(note, stats, consumed, self.max_pov, self.max_weight);
        self.phase = Phase::Waiting;
        self.emitted = Ghost(self.emitted@.push(record));
        SequencerAction::Emit(record)
    }
}

/// Build the whole pipeline for one run: load the block-weight-limits
/// constant and, only if that succeeds, a fresh sequencer whose weight
/// ceiling is the constant's `max_block`. A loader failure yields the
/// loader's error and no sequencer — no block can ever be enriched.
pub fn start_pipeline(constant: Option<Vec<u8>>, max_pov: u64) -> (r: Result<Sequencer, StatsError>)
    ensures
        match spec_load_weight_limits(
            match constant {
                Option::Some(b) => Option::Some(b@),
                Option::None => Option::None,
            },
        ) {
            Result::Ok(limits) => {
                &&& r is Ok
                &&& r->Ok_0.phase is Waiting
                &&& r->Ok_0.max_pov == max_pov
                &&& r->Ok_0.max_weight == limits.max_block
                &&& r->Ok_0.notified@ == Seq::<BlockNote>::empty()
                &&& r->Ok_0.emitted@ == Seq::<BlockStats>::empty()
                &&& r->Ok_0.wf()
            },
            Result::Err(e) => r == Result::<Sequencer, StatsError>::Err(e),
        },
{
    match load_weight_limits(constant) {
        Result::Ok(limits) => Result::Ok(Sequencer::new(max_pov, limits.max_block)),
        Result::Err(e) => Result::Err(e),
    }
}

/// The weight aggregate a fetched pair settles with: the decoded stored
/// value, or the zero aggregate where the chain recorded none.
pub open spec fn outcome_weight(wt: QueryOutcome<Vec<u8>>) -> DispatchClassAggregate<Weight> {
    match wt {
        QueryOutcome::Value(b) => match spec_decode_weight_aggregate(b@, 0) {
            Some(p) => p.0,
            None => spec_zero_aggregate(),
        },
        _ => spec_zero_aggregate(),
    }
}

/// A fetched pair that settles in a record rather than an error: the raw
/// statistics are there, and the weight value is absent or decodes as an
/// aggregate.
pub open spec fn fetch_succeeds(
    st: QueryOutcome<RawBlockStats>,
    wt: QueryOutcome<Vec<u8>>,
) -> bool {
    &&& st is Value
    &&& match wt {
        QueryOutcome::Value(b) => spec_decode_weight_aggregate(b@, 0) is Some,
        QueryOutcome::Missing => true,
        QueryOutcome::Fault => false,
    }
}

/// The sequencer's transition relation folded over a whole event sequence:
/// the final phase and the records emitted along the way, in order.
pub open spec fn run_steps(
    max_pov: u64,
    max_weight: Weight,
    phase: Phase,
    events: Seq<BlockEvent>,
) -> (Phase, Seq<BlockStats>)
    decreases events.len(),
{
    if events.len() == 0 {
        (phase, Seq::empty())
    } else {
        let (next, action) = spec_step(max_pov, max_weight, phase, events[0]);
        let (last, rest) = run_steps(max_pov, max_weight, next, events.drop_first());
        match action {
            SequencerAction::Emit(r) => (last, seq![r] + rest),
            _ => (last, rest),
        }
    }
}

/// Fail-fast termination. For any three notified blocks where the first
/// and third would enrich but the second's fetch fails, the run emits
/// exactly the first block's record and ends terminated with an error:
/// the third block is never emitted, however its own queries would have
/// gone.
pub proof fn lemma_fail_fast(
    max_pov: u64,
    max_weight: Weight,
    b1: BlockNote,
    b2: BlockNote,
    b3: BlockNote,
    s1: RawBlockStats,
    w1: QueryOutcome<Vec<u8>>,
    bad_st: QueryOutcome<RawBlockStats>,
    bad_wt: QueryOutcome<Vec<u8>>,
    s3: RawBlockStats,
    w3: QueryOutcome<Vec<u8>>,
)
    requires
        fetch_succeeds(QueryOutcome::Value(s1), w1),
        !fetch_succeeds(bad_st, bad_wt),
        fetch_succeeds(QueryOutcome::Value(s3), w3),
    ensures
        ({
            let events = seq![
                BlockEvent::Notified(b1),
                BlockEvent::Fetched(QueryOutcome::Value(s1), w1),
                BlockEvent::Notified(b2),
                BlockEvent::Fetched(bad_st, bad_wt),
                BlockEvent::Notified(b3),
                BlockEvent::Fetched(QueryOutcome::Value(s3), w3),
            ];
            let (last, emits) = run_steps(max_pov, max_weight, Phase::Waiting, events);
            &&& emits =~= seq![
                spec_enrich(b1, s1, outcome_weight(w1), max_pov, max_weight),
            ]
            &&& last matches Phase::Done(Some(_))
            &&& last == spec_settle(max_pov, max_weight, b2, bad_st, bad_wt).0
        }),
{
    reveal_with_fuel(run_steps, 8);
    let events = seq![
        BlockEvent::Notified(b1),
        BlockEvent::Fetched(QueryOutcome::Value(s1), w1),
        BlockEvent::Notified(b2),
        BlockEvent::Fetched(bad_st, bad_wt),
        BlockEvent::Notified(b3),
        BlockEvent::Fetched(QueryOutcome::Value(s3), w3),
    ];
    assert(events.drop_first() =~= seq![
        BlockEvent::Fetched(QueryOutcome::Value(s1), w1),
        BlockEvent::Notified(b2),
        BlockEvent::Fetched(bad_st, bad_wt),
        BlockEvent::Notified(b3),
        BlockEvent::Fetched(QueryOutcome::Value(s3), w3),
    ]);
}

/// A missing consumed-weight storage value is not an error: the block
/// settles in a record whose weight is zero, and its weight percentages
/// are zero.
pub proof fn lemma_missing_weight_defaults_to_zero(
    max_pov: u64,
    max_weight: Weight,
    note: BlockNote,
    s: RawBlockStats,
)
    ensures
        ({
            let (next, action) = spec_step(
                max_pov,
                max_weight,
                Phase::Fetching(note),
                BlockEvent::Fetched(QueryOutcome::Value(s), QueryOutcome::Missing),
            );
            &&& next is Waiting
            &&& action matches SequencerAction::Emit(r) && {
                &&& r.weight == (Weight { ref_time: 0, proof_size: 0 })
                &&& max_weight.ref_time >= 1 ==> r.weight.ref_time * 100 / (
                    max_weight.ref_time as int) == 0
                &&& max_weight.proof_size >= 1 ==> r.weight.proof_size * 100 / (
                    max_weight.proof_size as int) == 0
            }
        }),
{
}

/// What one run of the whole pipeline emits: nothing when the constant
/// loader fails, else what the sequencer's run over the events emits.
pub open spec fn spec_pipeline_emits(
    constant: Option<Seq<u8>>,
    max_pov: u64,
    events: Seq<BlockEvent>,
) -> Seq<BlockStats> {
    match spec_load_weight_limits(constant) {
        Result::Ok(limits) => run_steps(max_pov, limits.max_block, Phase::Waiting, events).1,
        Result::Err(_) => Seq::empty(),
    }
}

/// A constant-loader failure before the first notification keeps the
/// enricher from ever running: whatever the notification source would have
/// produced, the pipeline emits no record.
pub proof fn lemma_loader_failure_emits_nothing(
    constant: Option<Seq<u8>>,
    max_pov: u64,
    events: Seq<BlockEvent>,
)
    requires
        spec_load_weight_limits(constant) is Err,
    ensures
        spec_pipeline_emits(constant, max_pov, events) == Seq::<BlockStats>::empty(),
{
}

} // verus!

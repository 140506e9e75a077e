//! The decisions of the IGDB synchronisation pipelines: which pages to
//! request, what to do with each response, how fetched records are
//! grouped into database batches, and the text of the queries sent.

use vstd::prelude::*;
use vstd::string::StringExecFns;

use crate::igdb::headers::{header_value, valid_header_text, HeaderText};
use crate::text::{count_char, lemma_int_text_has_no_comma, lemma_join_comma_count, int_text, join, nat_text, push_i64, push_joined, push_joined_i64, push_u64};

verus! {

/// Number of records asked for in one API request.
pub const API_BATCH_SIZE: usize = 500;

/// Number of API requests in flight at the same time.
pub const REQUEST_CONCURRENCY: usize = 4;

/// Number of records gathered before they are written to the database.
pub const DATABASE_BATCH_SIZE: usize = 5000;

/// The largest offset that a page request can carry: offsets are `u32`.
pub open spec fn max_offset() -> nat {
    u32::MAX as nat
}

// ---------------------------------------------------------------------
// Paging through an endpoint
// ---------------------------------------------------------------------

/// Number of page offsets a round starting at `offset` can issue: up
/// to `REQUEST_CONCURRENCY`, as long as each offset fits in a `u32`.
pub open spec fn round_count(offset: nat) -> nat {
    if offset > max_offset() {
        0
    } else {
        let fit = ((max_offset() - offset) as nat) / 500 + 1;
        if fit < 4 {
            fit
        } else {
            4
        }
    }
}

/// The offsets a round starting at `offset` requests, in order.
pub open spec fn round_offsets(offset: nat) -> Seq<nat> {
    Seq::new(round_count(offset), |i: int| (offset + 500 * i) as nat)
}

/// Whether a round starting at `offset` runs out of representable
/// offsets, so that no further round can follow it.
pub open spec fn round_exhausts(offset: nat) -> bool {
    offset + 500 * round_count(offset) > max_offset()
}

/// The offset at which the round after one starting at `offset` begins.
pub open spec fn next_round_start(offset: nat) -> nat {
    offset + 500 * round_count(offset)
}

/// The offsets requested by `rounds` consecutive rounds starting at
/// `offset`, with nothing but the end of the offset range stopping them.
pub open spec fn rounds_offsets(offset: nat, rounds: nat) -> Seq<nat>
    decreases rounds,
{
    if rounds == 0 {
        Seq::empty()
    } else if round_exhausts(offset) {
        round_offsets(offset)
    } else {
        round_offsets(offset) + rounds_offsets(next_round_start(offset), (rounds - 1) as nat)
    }
}

/// Number of offsets from `offset` on that fit in a `u32`, in steps of 500.
pub open spec fn offsets_available(offset: nat) -> nat {
    if offset > max_offset() {
        0
    } else {
        ((max_offset() - offset) as nat) / 500 + 1
    }
}

/// The model of a fetch planner.
pub struct FetchPlannerModel {
    /// The offset of the next page to request.
    pub next_offset: nat,
    /// Whether fetching has stopped: no further page is requested.
    pub stopped: bool,
    /// Whether an empty page was received in the current round.
    pub empty_page_seen: bool,
}

/// What the fetch loop is told to do with one response.
#[derive(Debug, Clone, Copy, PartialEq, Eq)]
pub enum FetchAction {
    /// Drop the response and go on with the next one.
    Ignore,
    /// The endpoint has no records at this offset: stop after this round.
    EndOfData,
    /// Hand the records to the database writer.
    Forward,
}

/// What became of one page request.
#[derive(Debug, Clone, Copy, PartialEq, Eq)]
pub enum FetchOutcome {
    /// The request was not sent because fetching had stopped.
    NotSent,
    /// The request failed in the network.
    NetworkError,
    /// The server answered with a status that is not a success.
    ErrorStatus,
    /// The body could not be read as a list of records.
    Unparsable,
    /// The body held this many records.
    Records(usize),
}

/// The action for a response: records go on to the database, an empty
/// page marks the end of the data, and every failure is skipped.
pub open spec fn action_for(outcome: FetchOutcome) -> FetchAction {
    match outcome {
        FetchOutcome::Records(n) => if n == 0 {
            FetchAction::EndOfData
        } else {
            FetchAction::Forward
        },
        _ => FetchAction::Ignore,
    }
}

/// The planner after it has issued a round of offsets.
pub open spec fn round_step(m: FetchPlannerModel) -> FetchPlannerModel {
    if m.stopped {
        m
    } else {
        let o = m.next_offset;
        FetchPlannerModel {
            next_offset: if round_exhausts(o) {
                (o + 500 * (round_count(o) - 1)) as nat
            } else {
                next_round_start(o)
            },
            stopped: round_exhausts(o),
            empty_page_seen: m.empty_page_seen,
        }
    }
}

/// The offsets the planner issues in its next round: none once stopped.
pub open spec fn round_step_offsets(m: FetchPlannerModel) -> Seq<nat> {
    if m.stopped {
        Seq::empty()
    } else {
        round_offsets(m.next_offset)
    }
}

/// The planner after the outcome of a request is recorded.
pub open spec fn outcome_step(m: FetchPlannerModel, outcome: FetchOutcome) -> FetchPlannerModel {
    FetchPlannerModel {
        empty_page_seen: m.empty_page_seen || action_for(outcome) == FetchAction::EndOfData,
        ..m
    }
}

/// The planner after the database writer is found gone.
pub open spec fn writer_gone_step(m: FetchPlannerModel) -> FetchPlannerModel {
    FetchPlannerModel { stopped: true, ..m }
}

/// The planner after a round is closed.
pub open spec fn end_round_step(m: FetchPlannerModel) -> FetchPlannerModel {
    FetchPlannerModel {
        next_offset: m.next_offset,
        stopped: m.stopped || m.empty_page_seen,
        empty_page_seen: false,
    }
}

/// What can happen to a planner.
pub enum PlannerEvent {
    /// A round of offsets is issued.
    NextRound,
    /// The outcome of a request is recorded.
    Outcome(FetchOutcome),
    /// The database writer is found gone.
    WriterGone,
    /// A round is closed.
    EndRound,
}

/// The planner after one event.
pub open spec fn planner_step(m: FetchPlannerModel, e: PlannerEvent) -> FetchPlannerModel {
    match e {
        PlannerEvent::NextRound => round_step(m),
        PlannerEvent::Outcome(o) => outcome_step(m, o),
        PlannerEvent::WriterGone => writer_gone_step(m),
        PlannerEvent::EndRound => end_round_step(m),
    }
}

/// The planner after a sequence of events, in order.
pub open spec fn planner_run(m: FetchPlannerModel, events: Seq<PlannerEvent>) -> FetchPlannerModel
    decreases events.len(),
{
    if events.len() == 0 {
        m
    } else {
        planner_step(planner_run(m, events.drop_last()), events.last())
    }
}

/// Decides, round by round, which pages of an endpoint to request and
/// when to stop.
pub struct FetchPlanner {
    next_offset: u32,
    stopped: bool,
    empty_page_seen: bool,
}

impl View for FetchPlanner {
    type V = FetchPlannerModel;

    closed spec fn view(&self) -> FetchPlannerModel {
        FetchPlannerModel {
            next_offset: self.next_offset as nat,
            stopped: self.stopped,
            empty_page_seen: self.empty_page_seen,
        }
    }
}

impl FetchPlanner {
    /// A planner that starts at offset 0.
    pub fn new() -> (p: FetchPlanner)
        ensures
            p@ == (FetchPlannerModel { next_offset: 0, stopped: false, empty_page_seen: false }),
    {
        FetchPlanner { next_offset: 0, stopped: false, empty_page_seen: false }
    }

    /// Whether fetching has stopped.
    pub fn is_stopped(&self) -> (b: bool)
        ensures
            b == self@.stopped,
    {
        self.stopped
    }

    /// The offsets of the next round. When fetching has stopped there are
    /// none. Otherwise they are the next `REQUEST_CONCURRENCY` pages,
    /// fewer where the offsets would leave the range of `u32`; in that
    /// case the planner is already stopped when the round is handed out,
    /// so a fetch loop that skips requests once stopped sends none of
    /// this last round (each comes back as `FetchOutcome::NotSent`).
    pub fn next_round(&mut self) -> (offsets: Vec<u32>)
        ensures
            final(self)@ == round_step(old(self)@),
            offsets@.len() == round_step_offsets(old(self)@).len(),
            old(self)@.stopped ==> offsets@.len() == 0 && final(self)@ == old(self)@,
            !old(self)@.stopped ==> {
                let o = old(self)@.next_offset;
                &&& offsets@.len() == round_count(o)
                &&& forall|i: int|
                    0 <= i < offsets@.len() ==> offsets@[i] as nat == #[trigger] round_offsets(o)[i]
                &&& final(self)@.stopped == round_exhausts(o)
                &&& !round_exhausts(o) ==> final(self)@.next_offset == next_round_start(o)
                &&& round_exhausts(o) ==> final(self)@.next_offset == o + 500 * (round_count(o) - 1)
                &&& final(self)@.empty_page_seen == old(self)@.empty_page_seen
            },
    {
        let mut offsets: Vec<u32> = Vec::new();
        if self.stopped {
            return offsets;
        }
        let ghost o = self.next_offset as nat;
        let mut i: usize = 0;
        while i < REQUEST_CONCURRENCY
            invariant_except_break
                0 <= i <= 4,
                !self.stopped,
                self.next_offset as nat == o + 500 * i,
                i <= offsets_available(o),
                offsets@.len() == i,
                forall|j: int| 0 <= j < i ==> offsets@[j] as nat == o + 500 * j,
            invariant
                self.empty_page_seen == old(self).empty_page_seen,
                !old(self).stopped,
                o == old(self).next_offset as nat,
            ensures
                offsets@.len() == round_count(o),
                forall|j: int| 0 <= j < offsets@.len() ==> offsets@[j] as nat == o + 500 * j,
                self.stopped == round_exhausts(o),
                !self.stopped ==> self.next_offset as nat == next_round_start(o),
                self.stopped ==> self.next_offset as nat == o + 500 * (round_count(o) - 1),
            decreases 4 - i,
        {
            offsets.push(self.next_offset);
            match self.next_offset.checked_add(API_BATCH_SIZE as u32) {
                Some(next) => {
                    self.next_offset = next;
                },
                None => {
                    self.stopped = true;
                    break;
                },
            }
            i = i + 1;
        }
        offsets
    }

    /// Decides what to do with one response, and notes an empty page.
    pub fn record_outcome(&mut self, outcome: FetchOutcome) -> (action: FetchAction)
        ensures
            action == action_for(outcome),
            final(self)@ == outcome_step(old(self)@, outcome),
    {
        match outcome {
            FetchOutcome::Records(n) => {
                if n == 0 {
                    self.empty_page_seen = true;
                    FetchAction::EndOfData
                } else {
                    FetchAction::Forward
                }
            },
            _ => FetchAction::Ignore,
        }
    }

    /// The database writer no longer takes records: stop fetching.
    pub fn writer_gone(&mut self)
        ensures
            final(self)@ == writer_gone_step(old(self)@),
    {
        self.stopped = true;
    }

    /// Closes a round: fetching stops when a page of it was empty.
    pub fn end_round(&mut self)
        ensures
            final(self)@ == end_round_step(old(self)@),
    {
        if self.empty_page_seen {
            self.stopped = true;
        }
        self.empty_page_seen = false;
    }
}

/// Law: once fetching has stopped it stays stopped, whatever happens
/// next, and no further round issues a page.
pub proof fn lemma_stop_is_final(m: FetchPlannerModel, events: Seq<PlannerEvent>)
    requires
        m.stopped,
    ensures
        planner_run(m, events).stopped,
        round_step_offsets(planner_run(m, events)).len() == 0,
    decreases events.len(),
{
    if events.len() > 0 {
        lemma_stop_is_final(m, events.drop_last());
    }
}

/// Law: an empty page ends the fetching: whatever other outcomes are
/// recorded in the same round, fetching has stopped once it closes.
pub proof fn lemma_empty_page_stops_after_round(m: FetchPlannerModel, outcomes: Seq<FetchOutcome>)
    ensures
        end_round_step(
            planner_run(
                outcome_step(m, FetchOutcome::Records(0)),
                outcomes.map_values(|o: FetchOutcome| PlannerEvent::Outcome(o)),
            ),
        ).stopped,
{
    lemma_outcomes_keep_empty_mark(outcome_step(m, FetchOutcome::Records(0)), outcomes);
}

proof fn lemma_outcomes_keep_empty_mark(m: FetchPlannerModel, outcomes: Seq<FetchOutcome>)
    requires
        m.empty_page_seen,
    ensures
        planner_run(m, outcomes.map_values(|o: FetchOutcome| PlannerEvent::Outcome(o))).empty_page_seen,
    decreases outcomes.len(),
{
    if outcomes.len() > 0 {
        lemma_outcomes_keep_empty_mark(m, outcomes.drop_last());
        assert(outcomes.map_values(|o: FetchOutcome| PlannerEvent::Outcome(o)).drop_last()
            =~= outcomes.drop_last().map_values(|o: FetchOutcome| PlannerEvent::Outcome(o)));
    }
}

/// Law: recording the outcomes of requests never moves the planner to
/// other pages and never stops it: whatever came back, the next page
/// offset and the stop state are those it had before.
pub proof fn lemma_outcomes_keep_pages(m: FetchPlannerModel, outcomes: Seq<FetchOutcome>)
    ensures
        planner_run(m, outcomes.map_values(|o: FetchOutcome| PlannerEvent::Outcome(o))).next_offset
            == m.next_offset,
        planner_run(m, outcomes.map_values(|o: FetchOutcome| PlannerEvent::Outcome(o))).stopped
            == m.stopped,
        (forall|i: int|
            0 <= i < outcomes.len() ==> action_for(#[trigger] outcomes[i])
                != FetchAction::EndOfData) ==> planner_run(
            m,
            outcomes.map_values(|o: FetchOutcome| PlannerEvent::Outcome(o)),
        ).empty_page_seen == m.empty_page_seen,
    decreases outcomes.len(),
{
    if outcomes.len() > 0 {
        let prev = outcomes.drop_last();
        lemma_outcomes_keep_pages(m, prev);
        assert(outcomes.map_values(|o: FetchOutcome| PlannerEvent::Outcome(o)).drop_last()
            =~= prev.map_values(|o: FetchOutcome| PlannerEvent::Outcome(o)));
        if forall|i: int|
            0 <= i < outcomes.len() ==> action_for(#[trigger] outcomes[i])
                != FetchAction::EndOfData {
            assert forall|i: int| 0 <= i < prev.len() implies action_for(#[trigger] prev[i])
                != FetchAction::EndOfData by {
                assert(prev[i] == outcomes[i]);
            }
            assert(action_for(outcomes[outcomes.len() - 1]) != FetchAction::EndOfData);
        }
    }
}

/// Law: after a round starting at offset `o` that neither ran out of
/// offsets nor met an empty page, fetching goes on and the next round
/// asks the four pages right after it, starting at `o + 2000`, whatever
/// responses were recorded in between.
pub proof fn lemma_next_round_follows(m: FetchPlannerModel, outcomes: Seq<FetchOutcome>)
    requires
        !m.stopped,
        !m.empty_page_seen,
        m.next_offset + 2000 <= max_offset(),
        forall|i: int|
            0 <= i < outcomes.len() ==> action_for(#[trigger] outcomes[i]) != FetchAction::EndOfData,
    ensures
        ({
            let after = end_round_step(
                planner_run(
                    round_step(m),
                    outcomes.map_values(|o: FetchOutcome| PlannerEvent::Outcome(o)),
                ),
            );
            &&& round_step_offsets(m) == seq![
                m.next_offset,
                m.next_offset + 500,
                m.next_offset + 1000,
                m.next_offset + 1500,
            ]
            &&& !after.stopped
            &&& after.next_offset == m.next_offset + 2000
            &&& round_step_offsets(after).len() >= 1
            &&& round_step_offsets(after)[0] == m.next_offset + 2000
        }),
{
    let o = m.next_offset;
    assert(round_count(o) == 4);
    assert(!round_exhausts(o));
    lemma_outcomes_keep_pages(round_step(m), outcomes);
    assert(round_offsets(o) =~= seq![o, o + 500, o + 1000, o + 1500]);
    assert(round_count(o + 2000) >= 1);
}

/// Law: records are handed to the database exactly when a page holds
/// some; a page with none marks the end of the data, and every failed or
/// unsent request is dropped.
pub proof fn lemma_actions_by_outcome(outcome: FetchOutcome)
    ensures
        action_for(outcome) == FetchAction::Forward <==> (outcome is Records && outcome->Records_0
            > 0),
        action_for(outcome) == FetchAction::EndOfData <==> outcome == FetchOutcome::Records(0),
        action_for(outcome) == FetchAction::Ignore <==> !(outcome is Records),
{
}

/// Law: when the database writer is gone, fetching stops at once and the
/// rest of the round changes nothing of that.
pub proof fn lemma_writer_gone_stops(m: FetchPlannerModel, events: Seq<PlannerEvent>)
    ensures
        planner_run(writer_gone_step(m), events).stopped,
{
    lemma_stop_is_final(writer_gone_step(m), events);
}

/// Law: rounds that nothing stops request the pages from `offset` on,
/// one after another, each exactly once and in order, until the range of
/// `u32` offsets is used up.
pub proof fn lemma_rounds_request_consecutive_pages(offset: nat, rounds: nat)
    ensures
        rounds_offsets(offset, rounds).len() == if 4 * rounds < offsets_available(offset) {
            4 * rounds
        } else {
            offsets_available(offset)
        },
        forall|i: int|
            0 <= i < rounds_offsets(offset, rounds).len() ==> #[trigger] rounds_offsets(
                offset,
                rounds,
            )[i] == offset + 500 * i,
    decreases rounds,
{
    if rounds == 0 {
    } else if round_exhausts(offset) {
        assert(round_count(offset) == offsets_available(offset));
    } else {
        let next = next_round_start(offset);
        lemma_rounds_request_consecutive_pages(next, (rounds - 1) as nat);
        assert(round_count(offset) == 4);
        assert(offsets_available(next) == offsets_available(offset) - 4);
        let first = round_offsets(offset);
        let rest = rounds_offsets(next, (rounds - 1) as nat);
        assert forall|i: int| 0 <= i < (first + rest).len() implies #[trigger] (first + rest)[i]
            == offset + 500 * i by {
            if i >= 4 {
                assert(rest[i - 4] == next + 500 * (i - 4));
            }
        }
    }
}

/// Law: a round that nothing stops issues `REQUEST_CONCURRENCY` pages and
/// the next round starts right after them; the round that uses up the
/// range of offsets ends on the last page offset that fits in a `u32`.
pub proof fn lemma_round_progress(offset: nat)
    requires
        offset % 500 == 0,
        offset <= max_offset(),
    ensures
        !round_exhausts(offset) ==> round_count(offset) == 4 && next_round_start(offset) == offset
            + 2000,
        round_exhausts(offset) ==> round_count(offset) >= 1 && round_offsets(offset).last()
            == 4294967000,
{
}

/// Law: starting from offset 0, enough rounds hand out every offset that
/// fits in a `u32`, from 0 in steps of 500, and then stop. The offsets of
/// the round that runs out of range are handed out with the planner
/// already stopped, so a loop that skips requests once stopped does not
/// send them.
pub proof fn lemma_rounds_from_zero_cover_all_offsets()
    ensures
        ({
            let all = rounds_offsets(0, 2147484);
            &&& all.len() == 8589935
            &&& all.last() == 4294967000
            &&& forall|i: int| 0 <= i < all.len() ==> #[trigger] all[i] == 500 * i
        }),
{
    lemma_rounds_request_consecutive_pages(0, 2147484);
}


// ---------------------------------------------------------------------
// Grouping fetched records into database batches
// ---------------------------------------------------------------------

/// All the sequences of `parts`, one after another.
pub open spec fn concat_all<T>(parts: Seq<Seq<T>>) -> Seq<T>
    decreases parts.len(),
{
    if parts.len() == 0 {
        Seq::empty()
    } else {
        concat_all(parts.drop_last()) + parts.last()
    }
}

/// One step of the database writer: the records of a fetched page join
/// the pending ones, and once there are at least `DATABASE_BATCH_SIZE`
/// pending records they all leave as one batch.
/// Yields the batch written, if any, and the records left pending.
pub open spec fn buffer_step<T>(pending: Seq<T>, items: Seq<T>) -> (Option<Seq<T>>, Seq<T>) {
    let joined = pending + items;
    if joined.len() >= DATABASE_BATCH_SIZE {
        (Some(joined), Seq::empty())
    } else {
        (None, joined)
    }
}

/// The batches written while the pages `inputs` arrive, in order, and the
/// records still pending after the last of them.
pub open spec fn buffer_run<T>(inputs: Seq<Seq<T>>) -> (Seq<Seq<T>>, Seq<T>)
    decreases inputs.len(),
{
    if inputs.len() == 0 {
        (Seq::empty(), Seq::empty())
    } else {
        let (batches, pending) = buffer_run(inputs.drop_last());
        match buffer_step(pending, inputs.last()).0 {
            Some(batch) => (batches.push(batch), buffer_step(pending, inputs.last()).1),
            None => (batches, buffer_step(pending, inputs.last()).1),
        }
    }
}

/// Every batch the writer saves for the pages `inputs`: those written on
/// the way, then the pending records, if any, once the pages end.
pub open spec fn batches_saved<T>(inputs: Seq<Seq<T>>) -> Seq<Seq<T>> {
    let (batches, pending) = buffer_run(inputs);
    if pending.len() > 0 {
        batches.push(pending)
    } else {
        batches
    }
}

/// Records waiting to be written to the database.
pub struct BatchBuffer<T> {
    pending: Vec<T>,
}

impl<T> View for BatchBuffer<T> {
    type V = Seq<T>;

    closed spec fn view(&self) -> Seq<T> {
        self.pending@
    }
}

impl<T> BatchBuffer<T> {
    /// An empty buffer.
    pub fn new() -> (b: BatchBuffer<T>)
        ensures
            b@ == Seq::<T>::empty(),
    {
        BatchBuffer { pending: Vec::new() }
    }

    /// Number of pending records.
    pub fn len(&self) -> (n: usize)
        ensures
            n == self@.len(),
    {
        self.pending.len()
    }

    /// Adds the records of a fetched page. When at least
    /// `DATABASE_BATCH_SIZE` records are then pending, all of them are
    /// returned as the batch to write and the buffer is left empty.
    pub fn push_items(&mut self, items: Vec<T>) -> (batch: Option<Vec<T>>)
        ensures
            match batch {
                Some(b) => buffer_step(old(self)@, items@) == (Some(b@), final(self)@),
                None => buffer_step(old(self)@, items@) == (None::<Seq<T>>, final(self)@),
            },
    {
        let mut items = items;
        self.pending.append(&mut items);
        if self.pending.len() >= DATABASE_BATCH_SIZE {
            let mut batch: Vec<T> = Vec::new();
            std::mem::swap(&mut batch, &mut self.pending);
            Some(batch)
        } else {
            None
        }
    }

    /// Ends the stream: the pending records, if there are any, form the
    /// last batch.
    pub fn finish(self) -> (batch: Option<Vec<T>>)
        ensures
            match batch {
                Some(b) => self@.len() > 0 && b@ == self@,
                None => self@.len() == 0,
            },
    {
        if self.pending.len() > 0 {
            Some(self.pending)
        } else {
            None
        }
    }
}

/// Law: one step of the writer writes a batch exactly when the pending
/// and the new records together reach `DATABASE_BATCH_SIZE`; the batch is
/// all of them, pending first, and nothing is left pending after it.
/// Otherwise nothing is written and every record stays pending, in order.
pub proof fn lemma_buffer_step_writes_when_full<T>(pending: Seq<T>, items: Seq<T>)
    ensures
        buffer_step(pending, items).0 is Some <==> pending.len() + items.len() >= 5000,
        buffer_step(pending, items).0 is Some ==> buffer_step(pending, items).0->0 == pending
            + items && buffer_step(pending, items).1.len() == 0,
        buffer_step(pending, items).0 is None ==> buffer_step(pending, items).1 == pending + items,
{
}

/// Law: the database writer saves every fetched record exactly once and
/// in the order of arrival, in batches of at least `DATABASE_BATCH_SIZE`
/// records except the last one; fewer than `DATABASE_BATCH_SIZE` records
/// are ever left pending between pages.
pub proof fn lemma_batches_preserve_records<T>(inputs: Seq<Seq<T>>)
    ensures
        concat_all(batches_saved(inputs)) == concat_all(inputs),
        concat_all(buffer_run(inputs).0) + buffer_run(inputs).1 == concat_all(inputs),
        buffer_run(inputs).1.len() < DATABASE_BATCH_SIZE,
        forall|k: int|
            0 <= k < buffer_run(inputs).0.len() ==> #[trigger] buffer_run(inputs).0[k].len()
                >= DATABASE_BATCH_SIZE,
        forall|k: int|
            0 <= k < batches_saved(inputs).len() ==> #[trigger] batches_saved(inputs)[k].len() > 0,
    decreases inputs.len(),
{
    if inputs.len() > 0 {
        let prev = inputs.drop_last();
        lemma_batches_preserve_records(prev);
        let (batches, pending) = buffer_run(prev);
        let last = inputs.last();
        let joined = pending + last;
        assert(concat_all(inputs) == concat_all(prev) + last);
        if joined.len() >= DATABASE_BATCH_SIZE {
            let nb = batches.push(joined);
            assert(nb.drop_last() =~= batches);
            assert(concat_all(nb) == concat_all(batches) + joined);
            assert(concat_all(nb) + Seq::<T>::empty() =~= concat_all(inputs));
            assert forall|k: int| 0 <= k < nb.len() implies #[trigger] nb[k].len()
                >= DATABASE_BATCH_SIZE by {
                if k < batches.len() {
                    assert(nb[k] == batches[k]);
                }
            }
        } else {
            assert(concat_all(batches) + joined =~= concat_all(inputs));
        }
        let (fb, fp) = buffer_run(inputs);
        if fp.len() > 0 {
            let saved = fb.push(fp);
            assert(saved.drop_last() =~= fb);
            assert(concat_all(saved) == concat_all(fb) + fp);
        } else {
            assert(concat_all(fb) + fp =~= concat_all(fb));
        }
        assert forall|k: int| 0 <= k < batches_saved(inputs).len() implies #[trigger] batches_saved(
            inputs,
        )[k].len() > 0 by {
            if k < fb.len() {
                assert(fb[k].len() >= DATABASE_BATCH_SIZE);
            }
        }
    }
}


// ---------------------------------------------------------------------
// Fetching records by id
// ---------------------------------------------------------------------

/// Number of id batches for `n` ids: batches of `API_BATCH_SIZE`, the
/// last one possibly shorter.
pub open spec fn chunk_count(n: nat) -> nat {
    (n + 499) / 500
}

/// The `k`-th batch of `ids`.
pub open spec fn chunk_at(ids: Seq<i64>, k: int) -> Seq<i64> {
    let start = 500 * k;
    let end = if start + 500 < ids.len() {
        start + 500
    } else {
        ids.len() as int
    };
    ids.subrange(start, end)
}

/// Splits `ids` into consecutive batches of `API_BATCH_SIZE` ids, the
/// last one holding what remains.
pub fn chunk_ids(ids: &Vec<i64>) -> (chunks: Vec<Vec<i64>>)
    ensures
        chunks@.len() == chunk_count(ids@.len()),
        forall|k: int| 0 <= k < chunks@.len() ==> #[trigger] chunks@[k]@ == chunk_at(ids@, k),
{
    let n = ids.len();
    let mut chunks: Vec<Vec<i64>> = Vec::new();
    let mut start: usize = 0;
    while start < n
        invariant
            n == ids@.len(),
            start <= n,
            start < n ==> start == 500 * chunks@.len(),
            start == n ==> 500 * chunks@.len() >= n,
            chunks@.len() <= chunk_count(n as nat),
            start < n ==> chunks@.len() < chunk_count(n as nat),
            start == n ==> chunks@.len() == chunk_count(n as nat),
            forall|k: int| 0 <= k < chunks@.len() ==> #[trigger] chunks@[k]@ == chunk_at(ids@, k),
        decreases n - start,
    {
        let end: usize = if n - start > API_BATCH_SIZE {
            start + API_BATCH_SIZE
        } else {
            n
        };
        let mut chunk: Vec<i64> = Vec::new();
        let mut j: usize = start;
        while j < end
            invariant
                start <= j <= end <= n,
                n == ids@.len(),
                chunk@ == ids@.subrange(start as int, j as int),
            decreases end - j,
        {
            chunk.push(ids[j]);
            assert(ids@.subrange(start as int, j + 1) =~= ids@.subrange(start as int, j as int).push(
                ids@[j as int],
            ));
            j = j + 1;
        }
        let ghost k = chunks@.len() as int;
        assert(chunk@ == chunk_at(ids@, k));
        chunks.push(chunk);
        start = end;
    }
    chunks
}

/// The first `m` batches of `ids`.
pub open spec fn chunks_of(ids: Seq<i64>, m: nat) -> Seq<Seq<i64>> {
    Seq::new(m, |k: int| chunk_at(ids, k))
}

/// Law: the id batches hold every id exactly once, in the given order;
/// each holds between one and `API_BATCH_SIZE` ids, and all but the last
/// hold exactly `API_BATCH_SIZE`.
pub proof fn lemma_chunks_partition_ids(ids: Seq<i64>)
    ensures
        concat_all(chunks_of(ids, chunk_count(ids.len()))) == ids,
        forall|k: int|
            0 <= k < chunk_count(ids.len()) ==> 1 <= #[trigger] chunk_at(ids, k).len() <= 500,
        forall|k: int|
            0 <= k < chunk_count(ids.len()) - 1 ==> #[trigger] chunk_at(ids, k).len() == 500,
{
    lemma_chunk_prefix(ids, chunk_count(ids.len()));
    assert(ids.subrange(0, ids.len() as int) =~= ids);
}

proof fn lemma_chunk_prefix(ids: Seq<i64>, m: nat)
    requires
        m <= chunk_count(ids.len()),
    ensures
        concat_all(chunks_of(ids, m)) == ids.subrange(
            0,
            if 500 * m < ids.len() {
                (500 * m) as int
            } else {
                ids.len() as int
            },
        ),
    decreases m,
{
    let s = chunks_of(ids, m);
    if m == 0 {
        assert(ids.subrange(0, 0) =~= Seq::<i64>::empty());
    } else {
        lemma_chunk_prefix(ids, (m - 1) as nat);
        let prev = chunks_of(ids, (m - 1) as nat);
        assert(s.drop_last() =~= prev);
        let e = if 500 * m < ids.len() {
            (500 * m) as int
        } else {
            ids.len() as int
        };
        assert(ids.subrange(0, 500 * (m - 1)) + chunk_at(ids, m - 1) =~= ids.subrange(0, e));
    }
}

/// The query that asks `fields` of the records with the given ids.
pub open spec fn id_query_text(fields: Seq<char>, ids: Seq<i64>) -> Seq<char> {
    "fields "@ + fields + "; where id = ("@ + join(
        ids.map_values(|v: i64| int_text(v as int)),
        ","@,
    ) + "); limit "@ + nat_text(500) + ";"@
}

/// Law: the id query names every id of its batch, in order, and nothing
/// else: between `where id = (` and `)` stand the decimal texts of all the
/// ids joined by commas, with exactly one comma fewer than there are ids,
/// and the query asks no more records than a batch holds.
pub proof fn lemma_id_query_names_every_id(fields: Seq<char>, ids: Seq<i64>)
    ensures
        ({
            let list = join(ids.map_values(|v: i64| int_text(v as int)), ","@);
            &&& id_query_text(fields, ids) == "fields "@ + fields + "; where id = ("@ + list
                + "); limit "@ + nat_text(API_BATCH_SIZE as nat) + ";"@
            &&& ids.len() > 0 ==> count_char(list, ',') + 1 == ids.len()
        }),
{
    let parts = ids.map_values(|v: i64| int_text(v as int));
    if ids.len() > 0 {
        assert forall|k: int| 0 <= k < parts.len() implies count_char(#[trigger] parts[k], ',')
            == 0 by {
            lemma_int_text_has_no_comma(ids[k] as int);
        }
        lemma_join_comma_count(parts);
    }
}

/// Builds the query that asks `fields` of the records with the given ids.
pub fn id_query(fields: &str, ids: &Vec<i64>) -> (q: String)
    ensures
        q@ == id_query_text(fields@, ids@),
{
    let mut q = String::new();
    q.append("fields ");
    q.append(fields);
    q.append("; where id = (");
    push_joined_i64(&mut q, ids, ",");
    q.append("); limit ");
    push_u64(&mut q, API_BATCH_SIZE as u64);
    q.append(";");
    q
}

// ---------------------------------------------------------------------
// Paged queries
// ---------------------------------------------------------------------

/// The timestamp from which to resume, given the latest `updated_at`
/// stored so far: 100 seconds earlier, and never before 0.
pub open spec fn margin_of(latest: int) -> int {
    if latest - 100 > 0 {
        latest - 100
    } else {
        0
    }
}

/// The timestamp from which to resume after `latest`.
pub fn margin_timestamp(latest: i64) -> (t: i64)
    ensures
        t as int == margin_of(latest as int),
{
    if latest > 100 {
        latest - 100
    } else {
        0
    }
}

/// Law: a synchronisation resumes at most 100 seconds before the latest
/// stored update, never later than it, and never before 0.
pub proof fn lemma_margin_bounds(latest: int)
    ensures
        0 <= margin_of(latest),
        latest >= 0 ==> margin_of(latest) <= latest,
        latest - margin_of(latest) <= 100,
        latest >= 100 ==> margin_of(latest) == latest - 100,
        latest <= 100 ==> margin_of(latest) == 0,
{
}

/// Where a synchronisation starts: after the margin when records are
/// already stored, from the beginning otherwise.
pub fn resume_timestamp(latest: Option<i64>) -> (t: Option<i64>)
    ensures
        match latest {
            Some(l) => t == Some(margin_of(l as int) as i64),
            None => t == None::<i64>,
        },
{
    match latest {
        Some(l) => Some(margin_timestamp(l)),
        None => None,
    }
}

/// The conditions of a paged query: records updated since the resume
/// timestamp, and the endpoint's own filter.
pub open spec fn sync_conditions(start: Option<i64>, extra_where: Option<Seq<char>>) -> Seq<
    Seq<char>,
> {
    let since: Seq<Seq<char>> = match start {
        Some(t) => seq!["updated_at >= "@ + int_text(t as int)],
        None => Seq::empty(),
    };
    match extra_where {
        Some(w) => since.push(w),
        None => since,
    }
}

/// The `where` clause of a paged query; empty when there is no condition.
pub open spec fn where_clause(conditions: Seq<Seq<char>>) -> Seq<char> {
    if conditions.len() == 0 {
        Seq::empty()
    } else {
        "where "@ + join(conditions, " & "@) + "; "@
    }
}

/// The query for one page of an endpoint, sorted by `updated_at`.
pub open spec fn sync_query_text(
    fields: Seq<char>,
    start: Option<i64>,
    extra_where: Option<Seq<char>>,
    offset: u32,
) -> Seq<char> {
    "fields "@ + fields + "; "@ + where_clause(sync_conditions(start, extra_where))
        + "sort updated_at asc; limit "@ + nat_text(500) + "; offset "@ + nat_text(offset as nat)
        + ";"@
}

/// The model of an optional string slice.
pub open spec fn opt_str_view(v: Option<&str>) -> Option<Seq<char>> {
    match v {
        Some(s) => Some(s@),
        None => None,
    }
}

/// Law: the query for a page asks the given fields, sorted by update
/// time, 500 records from the page offset on; its `where` clause holds
/// the resume condition, when there is a resume timestamp, and the
/// endpoint's filter, when there is one, joined by `&`, and is left out
/// when there is neither.
pub proof fn lemma_sync_query_conditions(
    fields: Seq<char>,
    start: Option<i64>,
    extra_where: Option<Seq<char>>,
    offset: u32,
)
    ensures
        ({
            let tail = "sort updated_at asc; limit "@ + nat_text(API_BATCH_SIZE as nat)
                + "; offset "@ + nat_text(offset as nat) + ";"@;
            let head = "fields "@ + fields + "; "@;
            let q = sync_query_text(fields, start, extra_where, offset);
            &&& (start is None && extra_where is None) ==> q == head + tail
            &&& (start is Some && extra_where is None) ==> q == head + "where "@
                + "updated_at >= "@ + int_text(start->0 as int) + "; "@ + tail
            &&& (start is None && extra_where is Some) ==> q == head + "where "@
                + extra_where->0 + "; "@ + tail
            &&& (start is Some && extra_where is Some) ==> q == head
                + "where "@ + "updated_at >= "@ + int_text(start->0 as int) + " & "@
                + extra_where->0 + "; "@ + tail
        }),
{
    let conds = sync_conditions(start, extra_where);
    let q = sync_query_text(fields, start, extra_where, offset);
    match (start, extra_where) {
        (None, None) => {
            assert(conds.len() == 0);
            assert("fields "@ + fields + "; "@ + Seq::<char>::empty() =~= "fields "@ + fields + "; "@);
        },
        (Some(t), None) => {
            assert(conds =~= seq!["updated_at >= "@ + int_text(t as int)]);
            assert(join(conds, " & "@) == conds[0]);
        },
        (None, Some(w)) => {
            assert(conds =~= seq![w]);
            assert(join(conds, " & "@) == conds[0]);
        },
        (Some(t), Some(w)) => {
            assert(conds =~= seq!["updated_at >= "@ + int_text(t as int), w]);
            assert(conds.drop_last() =~= seq!["updated_at >= "@ + int_text(t as int)]);
            assert(join(conds.drop_last(), " & "@) == conds[0]);
        },
    }
    assert(q == "fields "@ + fields + "; "@ + where_clause(conds) + "sort updated_at asc; limit "@
        + nat_text(500) + "; offset "@ + nat_text(offset as nat) + ";"@);
    match (start, extra_where) {
        (None, None) => {
            assert(q =~= "fields "@ + fields + "; "@ + ("sort updated_at asc; limit "@ + nat_text(500)
                + "; offset "@ + nat_text(offset as nat) + ";"@));
        },
        _ => {
            assert(q =~= "fields "@ + fields + "; "@ + where_clause(conds) + ("sort updated_at asc; limit "@
                + nat_text(500) + "; offset "@ + nat_text(offset as nat) + ";"@));
        },
    }
}

/// Builds the query for the page at `offset`.
pub fn sync_query(
    fields: &str,
    start_timestamp: Option<i64>,
    extra_where: Option<&str>,
    offset: u32,
) -> (q: String)
    ensures
        q@ == sync_query_text(fields@, start_timestamp, opt_str_view(extra_where), offset),
{
    let mut conditions: Vec<String> = Vec::new();
    if let Some(t) = start_timestamp {
        let mut c = String::new();
        c.append("updated_at >= ");
        push_i64(&mut c, t);
        conditions.push(c);
    }
    if let Some(w) = extra_where {
        conditions.push(String::from_str(w));
    }
    let ghost views = conditions@.map_values(|p: String| p@);
    assert(views =~= sync_conditions(start_timestamp, opt_str_view(extra_where)));
    let mut q = String::new();
    q.append("fields ");
    q.append(fields);
    q.append("; ");
    if conditions.len() > 0 {
        q.append("where ");
        push_joined(&mut q, &conditions, " & ");
        q.append("; ");
    }
    q.append("sort updated_at asc; limit ");
    push_u64(&mut q, API_BATCH_SIZE as u64);
    q.append("; offset ");
    push_u64(&mut q, offset as u64);
    q.append(";");
    q
}

/// The address of an IGDB endpoint.
pub open spec fn endpoint_url_text(endpoint: Seq<char>) -> Seq<char> {
    "https://api.igdb.com/v4/"@ + endpoint
}

/// Builds the address of an IGDB endpoint.
pub fn endpoint_url(endpoint: &str) -> (u: String)
    ensures
        u@ == endpoint_url_text(endpoint@),
{
    let mut u = String::new();
    u.append("https://api.igdb.com/v4/");
    u.append(endpoint);
    u
}

/// The statement that reads the latest `updated_at` of a table.
pub fn latest_update_sql(table_name: &str) -> (q: String)
    ensures
        q@ == "SELECT MAX(updated_at) FROM "@ + table_name@,
{
    let mut q = String::new();
    q.append("SELECT MAX(updated_at) FROM ");
    q.append(table_name);
    q
}

// ---------------------------------------------------------------------
// Schema upgrades
// ---------------------------------------------------------------------

/// The statement that lists the columns of a table.
pub fn table_info_sql(table_name: &str) -> (q: String)
    ensures
        q@ == "PRAGMA table_info("@ + table_name@ + ")"@,
{
    let mut q = String::new();
    q.append("PRAGMA table_info(");
    q.append(table_name);
    q.append(")");
    q
}

/// The statement that adds a column to a table.
pub open spec fn add_column_text(
    table_name: Seq<char>,
    column_name: Seq<char>,
    column_definition: Seq<char>,
) -> Seq<char> {
    "ALTER TABLE "@ + table_name + " ADD COLUMN "@ + column_name + " "@ + column_definition
}

/// Given the columns a table has, the statement that adds `column_name`
/// when it is not among them; nothing when it is.
pub fn missing_column_statement(
    columns: &Vec<String>,
    table_name: &str,
    column_name: &str,
    column_definition: &str,
) -> (st: Option<String>)
    ensures
        match st {
            Some(q) => {
                &&& forall|i: int| 0 <= i < columns@.len() ==> #[trigger] columns@[i]@ != column_name@
                &&& q@ == add_column_text(table_name@, column_name@, column_definition@)
            },
            None => exists|i: int| 0 <= i < columns@.len() && #[trigger] columns@[i]@ == column_name@,
        },
{
    let wanted = String::from_str(column_name);
    let n = columns.len();
    let mut i: usize = 0;
    while i < n
        invariant
            n == columns@.len(),
            i <= n,
            wanted@ == column_name@,
            forall|j: int| 0 <= j < i ==> #[trigger] columns@[j]@ != column_name@,
        decreases n - i,
    {
        if columns[i] == wanted {
            assert(columns@[i as int]@ == column_name@);
            return None;
        }
        i = i + 1;
    }
    let mut q = String::new();
    q.append("ALTER TABLE ");
    q.append(table_name);
    q.append(" ADD COLUMN ");
    q.append(column_name);
    q.append(" ");
    q.append(column_definition);
    Some(q)
}


// ---------------------------------------------------------------------
// Request headers
// ---------------------------------------------------------------------

/// Name of the header that carries the client id.
pub const CLIENT_ID_HEADER: &'static str = "Client-ID";

/// Name of the header that carries the access token.
pub const AUTHORIZATION_HEADER: &'static str = "Authorization";

/// The value of the `Authorization` header for an access token.
pub open spec fn bearer_text(access_token: Seq<char>) -> Seq<char> {
    "Bearer "@ + access_token
}

/// Law: the `Authorization` value is `Bearer`, one space, then the
/// access token unchanged.
pub proof fn lemma_bearer_wraps_token(access_token: Seq<char>)
    ensures
        bearer_text(access_token).len() == access_token.len() + 7,
        bearer_text(access_token).take(7) == seq!['B', 'e', 'a', 'r', 'e', 'r', ' '],
        bearer_text(access_token).skip(7) == access_token,
{
    reveal_strlit("Bearer ");
    assert(bearer_text(access_token).take(7) =~= seq!['B', 'e', 'a', 'r', 'e', 'r', ' ']);
    assert(bearer_text(access_token).skip(7) =~= access_token);
}

/// The headers sent with every IGDB request.
pub struct IgdbHeaders {
    /// The `Client-ID` header value.
    pub client_id: HeaderText,
    /// The `Authorization` header value.
    pub authorization: HeaderText,
}

/// The headers for an IGDB client: the client id as `Client-ID`, and the
/// access token as a bearer token in `Authorization`. Fails when either
/// value holds a byte that a header may not carry.
pub fn igdb_headers(client_id: &str, access_token: &str) -> (r: Result<
    IgdbHeaders,
    reqwest::header::InvalidHeaderValue,
>)
    ensures
        r is Ok <==> valid_header_text(client_id@) && valid_header_text(bearer_text(access_token@)),
        r matches Ok(h) ==> h.client_id@ == client_id@ && h.authorization@ == bearer_text(
            access_token@,
        ),
{
    let id_value = header_value(client_id)?;
    let mut bearer = String::new();
    bearer.append("Bearer ");
    bearer.append(access_token);
    let auth_value = header_value(bearer.as_str())?;
    Ok(IgdbHeaders { client_id: id_value, authorization: auth_value })
}

} // verus!

//! The batch accumulator: buffers the records of one pipeline and decides
//! when the buffer leaves as a batch.
//!
//! Two triggers are evaluated on every accepted record. The size trigger
//! fires when the buffer holds `max_rows` records; the time trigger fires
//! when `max_seconds` whole seconds have passed since the last flush. A tick
//! of the pipeline's timer evaluates the time trigger alone. Time is taken
//! from the caller, in milliseconds of a monotonic clock.

use vstd::prelude::*;

verus! {

/// The state of an accumulator.
pub struct AccumulatorModel<T> {
    /// The records accepted since the last flush, oldest first.
    pub pending: Seq<T>,
    pub max_rows: nat,
    pub max_seconds: nat,
    /// The instant of the last flush, or of creation.
    pub last_flush_ms: nat,
}

/// What a pipeline's feed delivers: a record, or a tick of the timer, each
/// with the instant at which it arrived.
#[derive(Debug)]
pub enum FeedEvent<T> {
    Record(T, u64),
    Tick(u64),
}

/// Whole seconds from one instant of a monotonic clock to a later one; zero
/// where the second instant is not later.
pub open spec fn elapsed_seconds(from_ms: nat, to_ms: nat) -> nat {
    if to_ms >= from_ms {
        ((to_ms - from_ms) / 1000) as nat
    } else {
        0
    }
}

impl<T> AccumulatorModel<T> {
    /// An empty accumulator created at `now_ms`.
    pub open spec fn fresh(max_rows: nat, max_seconds: nat, now_ms: nat) -> Self {
        AccumulatorModel { pending: Seq::empty(), max_rows, max_seconds, last_flush_ms: now_ms }
    }

    /// Between two calls the buffer is below the size trigger.
    pub open spec fn wf(self) -> bool {
        self.pending.len() == 0 || self.pending.len() < self.max_rows
    }

    /// The time trigger fires at `now_ms`.
    pub open spec fn time_due(self, now_ms: u64) -> bool {
        elapsed_seconds(self.last_flush_ms, now_ms as nat) >= self.max_seconds
    }

    /// The state after a flush at `now_ms`.
    pub open spec fn flushed(self, now_ms: u64) -> Self {
        AccumulatorModel { pending: Seq::empty(), last_flush_ms: now_ms as nat, ..self }
    }

    /// Accepting a record: it joins the buffer, and if either trigger fires
    /// the whole buffer, the record included, leaves as a batch.
    pub open spec fn accept(self, record: T, now_ms: u64) -> (Self, Option<Seq<T>>) {
        let filled = self.pending.push(record);
        if filled.len() >= self.max_rows || self.time_due(now_ms) {
            (self.flushed(now_ms), Some(filled))
        } else {
            (AccumulatorModel { pending: filled, ..self }, None)
        }
    }

    /// A tick of the timer: a buffer that is not empty leaves as a batch if
    /// the time trigger fires.
    pub open spec fn tick(self, now_ms: u64) -> (Self, Option<Seq<T>>) {
        if self.pending.len() > 0 && self.time_due(now_ms) {
            (self.flushed(now_ms), Some(self.pending))
        } else {
            (self, None)
        }
    }

    /// The final drain: a buffer that is not empty leaves as the last batch.
    pub open spec fn drain(self) -> (Self, Option<Seq<T>>) {
        if self.pending.len() > 0 {
            (AccumulatorModel { pending: Seq::empty(), ..self }, Some(self.pending))
        } else {
            (self, None)
        }
    }

    /// One event of the feed.
    pub open spec fn step(self, event: FeedEvent<T>) -> (Self, Option<Seq<T>>) {
        match event {
            FeedEvent::Record(record, at_ms) => self.accept(record, at_ms),
            FeedEvent::Tick(at_ms) => self.tick(at_ms),
        }
    }

    /// A whole feed, event by event: the state after it and the batches that
    /// left, in order.
    pub open spec fn run(self, events: Seq<FeedEvent<T>>) -> (Self, Seq<Seq<T>>)
        decreases events.len(),
    {
        if events.len() == 0 {
            (self, Seq::empty())
        } else {
            let (before, batches) = self.run(events.drop_last());
            let (after, batch) = before.step(events.last());
            (after, with_batch(batches, batch))
        }
    }

    /// A whole feed and then the final drain: the batches that left, in
    /// order.
    pub open spec fn run_to_end(self, events: Seq<FeedEvent<T>>) -> Seq<Seq<T>> {
        let (state, batches) = self.run(events);
        with_batch(batches, state.drain().1)
    }
}

/// A list of batches with one more at its end, where there is one.
pub open spec fn with_batch<T>(batches: Seq<Seq<T>>, batch: Option<Seq<T>>) -> Seq<Seq<T>> {
    match batch {
        Some(b) => batches.push(b),
        None => batches,
    }
}

/// The records of a feed, in order of arrival.
pub open spec fn records_of<T>(events: Seq<FeedEvent<T>>) -> Seq<T>
    decreases events.len(),
{
    if events.len() == 0 {
        Seq::empty()
    } else {
        match events.last() {
            FeedEvent::Record(record, _) => records_of(events.drop_last()).push(record),
            FeedEvent::Tick(_) => records_of(events.drop_last()),
        }
    }
}

/// The sum of the row counts of a list of batches.
pub open spec fn total_rows<T>(batches: Seq<Seq<T>>) -> nat
    decreases batches.len(),
{
    if batches.len() == 0 {
        0
    } else {
        total_rows(batches.drop_last()) + batches.last().len()
    }
}

/// The largest batch that an accumulator with the given size trigger lets
/// out. A trigger of zero fires on every record, so its batches hold one.
pub open spec fn batch_cap(max_rows: nat) -> nat {
    if max_rows == 0 {
        1
    } else {
        max_rows
    }
}

/// No batch is empty and none exceeds the cap.
pub open spec fn batches_bounded<T>(batches: Seq<Seq<T>>, max_rows: nat) -> bool {
    forall|i: int|
        0 <= i < batches.len() ==> 1 <= (#[trigger] batches[i]).len() <= batch_cap(max_rows)
}

/// The row counts of a list of batches sum to the number of rows that the
/// batches hold together.
pub proof fn total_rows_is_flattened_length<T>(batches: Seq<Seq<T>>)
    ensures
        total_rows(batches) == batches.flatten().len(),
    decreases batches.len(),
{
    if batches.len() > 0 {
        total_rows_is_flattened_length(batches.drop_last());
        batches.drop_last().lemma_flatten_push(batches.last());
        assert(batches.drop_last().push(batches.last()) =~= batches);
    }
}

/// One event of the feed loses no record, invents none and keeps their order:
/// what was pending, followed by the event's record if it is one, is what
/// left as a batch followed by what is pending now. The batch, if one left,
/// is not empty and within the cap.
pub proof fn step_keeps_records<T>(state: AccumulatorModel<T>, event: FeedEvent<T>)
    requires
        state.wf(),
    ensures
        state.step(event).0.wf(),
        state.step(event).0.max_rows == state.max_rows,
        state.step(event).0.max_seconds == state.max_seconds,
        with_batch(Seq::empty(), state.step(event).1).flatten() + state.step(event).0.pending
            == state.pending + records_of(seq![event]),
        batches_bounded(with_batch(Seq::empty(), state.step(event).1), state.max_rows),
{
    let one = seq![event];
    assert(records_of(one.drop_last()) =~= Seq::<T>::empty());
    if let Some(b) = state.step(event).1 {
        Seq::<Seq<T>>::empty().push(b).lemma_flatten_singleton();
    }
}

/// Over any feed, the batches that left followed by what is still pending are
/// exactly the records that were pending at the start followed by the records
/// of the feed, in order. No batch is empty, and none exceeds the cap.
pub proof fn run_keeps_records<T>(state: AccumulatorModel<T>, events: Seq<FeedEvent<T>>)
    requires
        state.wf(),
    ensures
        state.run(events).0.wf(),
        state.run(events).0.max_rows == state.max_rows,
        state.run(events).0.max_seconds == state.max_seconds,
        state.run(events).1.flatten() + state.run(events).0.pending == state.pending + records_of(
            events,
        ),
        batches_bounded(state.run(events).1, state.max_rows),
    decreases events.len(),
{
    if events.len() > 0 {
        let head = events.drop_last();
        let event = events.last();
        run_keeps_records(state, head);
        let (before, batches) = state.run(head);
        step_keeps_records(before, event);
        if let Some(b) = before.step(event).1 {
            batches.lemma_flatten_push(b);
            Seq::<Seq<T>>::empty().push(b).lemma_flatten_singleton();
        }
        assert((state.pending + records_of(head)) + records_of(seq![event]) =~= state.pending
            + records_of(events));
    }
}

/// Over any feed that ends with the final drain, the batches hold exactly the
/// records that were pending at the start followed by the records of the
/// feed, in order; their row counts sum to the number of those records; no
/// batch is empty, and none exceeds the cap.
pub proof fn run_to_end_keeps_records<T>(state: AccumulatorModel<T>, events: Seq<FeedEvent<T>>)
    requires
        state.wf(),
    ensures
        state.run_to_end(events).flatten() == state.pending + records_of(events),
        total_rows(state.run_to_end(events)) == state.pending.len() + records_of(events).len(),
        batches_bounded(state.run_to_end(events), state.max_rows),
{
    run_keeps_records(state, events);
    let (last, batches) = state.run(events);
    if let Some(b) = last.drain().1 {
        batches.lemma_flatten_push(b);
    }
    total_rows_is_flattened_length(state.run_to_end(events));
}

/// With a size trigger of at least one, no batch of a feed that ends with the
/// final drain holds more rows than the trigger allows.
pub proof fn no_batch_exceeds_max_rows<T>(state: AccumulatorModel<T>, events: Seq<FeedEvent<T>>)
    requires
        state.wf(),
        state.max_rows >= 1,
    ensures
        forall|i: int|
            0 <= i < state.run_to_end(events).len() ==> 1 <= (#[trigger] state.run_to_end(
                events,
            )[i]).len() <= state.max_rows,
{
    run_to_end_keeps_records(state, events);
}

/// The size trigger fires exactly when the accepted record brings the buffer
/// to `max_rows`: the batch is the buffer with that record at its end, and
/// the buffer is empty afterwards, so that no row leaves twice.
pub proof fn size_trigger_includes_record<T>(state: AccumulatorModel<T>, record: T, now_ms: u64)
    requires
        state.wf(),
        state.pending.len() + 1 == state.max_rows,
    ensures
        state.accept(record, now_ms).1 == Some(state.pending.push(record)),
        state.accept(record, now_ms).0.pending.len() == 0,
{
}

/// Below the size trigger, and with the time trigger silent, an accepted
/// record stays in the buffer and nothing leaves.
pub proof fn no_trigger_no_flush<T>(state: AccumulatorModel<T>, record: T, now_ms: u64)
    requires
        state.wf(),
        state.pending.len() + 1 < state.max_rows,
        !state.time_due(now_ms),
    ensures
        state.accept(record, now_ms).1 is None,
        state.accept(record, now_ms).0.pending == state.pending.push(record),
        state.accept(record, now_ms).0.last_flush_ms == state.last_flush_ms,
{
}

/// The batch accumulator of one pipeline.
pub struct BatchAccumulator<T> {
    buffer: Vec<T>,
    max_rows: usize,
    max_seconds: u64,
    last_flush_ms: u64,
}

impl<T> View for BatchAccumulator<T> {
    type V = AccumulatorModel<T>;

    closed spec fn view(&self) -> AccumulatorModel<T> {
        AccumulatorModel {
            pending: self.buffer@,
            max_rows: self.max_rows as nat,
            max_seconds: self.max_seconds as nat,
            last_flush_ms: self.last_flush_ms as nat,
        }
    }
}

/// The contents of a batch that may or may not have left.
pub open spec fn batch_model<T>(batch: Option<Vec<T>>) -> Option<Seq<T>> {
    match batch {
        Some(b) => Some(b@),
        None => None,
    }
}

/// The contents of each batch of a list.
pub open spec fn batch_models<T>(batches: Seq<Vec<T>>) -> Seq<Seq<T>> {
    Seq::new(batches.len(), |i: int| batches[i]@)
}

impl<T> BatchAccumulator<T> {
    #[verifier::type_invariant]
    spec fn inv(&self) -> bool {
        self@.wf()
    }

    /// An empty accumulator whose timer starts at `now_ms`. The buffer is
    /// sized for `max_rows` records where the allocator grants that.
    pub fn new(max_rows: usize, max_seconds: u64, now_ms: u64) -> (made: Self)
        ensures
            made@ == AccumulatorModel::<T>::fresh(
                max_rows as nat,
                max_seconds as nat,
                now_ms as nat,
            ),
    {
        BatchAccumulator {
            buffer: Self::sized_buffer(max_rows),
            max_rows,
            max_seconds,
            last_flush_ms: now_ms,
        }
    }

    /// An empty buffer, with room reserved for `max_rows` records where the
    /// allocator grants it. The room changes nothing that the buffer holds:
    /// whether it was granted or not, the buffer is empty.
    fn sized_buffer(max_rows: usize) -> (buffer: Vec<T>)
        ensures
            buffer@ == Seq::<T>::empty(),
    {
        let mut buffer: Vec<T> = Vec::new();
        let _ = buffer.try_reserve(max_rows);
        buffer
    }

    /// The number of records in the buffer.
    pub fn pending_rows(&self) -> (n: usize)
        ensures
            n == self@.pending.len(),
            self@.wf(),
    {
        proof {
            use_type_invariant(self);
        }
        self.buffer.len()
    }

    fn time_due(&self, now_ms: u64) -> (due: bool)
        ensures
            due == self@.time_due(now_ms),
    {
        if now_ms >= self.last_flush_ms {
            (now_ms - self.last_flush_ms) / 1000 >= self.max_seconds
        } else {
            0 >= self.max_seconds
        }
    }

    /// Accepts one record at instant `now_ms` and hands out the batch that
    /// this completes, if it completes one.
    pub fn accept(&mut self, record: T, now_ms: u64) -> (batch: Option<Vec<T>>)
        ensures
            old(self)@.wf(),
            final(self)@ == old(self)@.accept(record, now_ms).0,
            batch_model(batch) == old(self)@.accept(record, now_ms).1,
    {
        proof {
            use_type_invariant(&*self);
        }
        let due = self.time_due(now_ms);
        let mut filled: Vec<T> = Vec::new();
        core::mem::swap(&mut filled, &mut self.buffer);
        filled.push(record);
        if filled.len() >= self.max_rows || due {
            self.last_flush_ms = now_ms;
            self.buffer = Self::sized_buffer(self.max_rows);
            Some(filled)
        } else {
            self.buffer = filled;
            None
        }
    }

    /// A tick of the timer at instant `now_ms`: hands out the buffer as a
    /// batch if it is not empty and the time trigger fires.
    pub fn tick(&mut self, now_ms: u64) -> (batch: Option<Vec<T>>)
        ensures
            old(self)@.wf(),
            final(self)@ == old(self)@.tick(now_ms).0,
            batch_model(batch) == old(self)@.tick(now_ms).1,
    {
        proof {
            use_type_invariant(&*self);
        }
        if self.buffer.len() > 0 && self.time_due(now_ms) {
            let mut filled: Vec<T> = Self::sized_buffer(self.max_rows);
            core::mem::swap(&mut filled, &mut self.buffer);
            self.last_flush_ms = now_ms;
            Some(filled)
        } else {
            None
        }
    }

    /// The final drain, on exhaustion of the source: hands out the buffer as
    /// the last batch if it is not empty.
    pub fn drain(&mut self) -> (batch: Option<Vec<T>>)
        ensures
            old(self)@.wf(),
            final(self)@ == old(self)@.drain().0,
            batch_model(batch) == old(self)@.drain().1,
    {
        proof {
            use_type_invariant(&*self);
        }
        if self.buffer.len() > 0 {
            let mut filled: Vec<T> = Self::sized_buffer(self.max_rows);
            core::mem::swap(&mut filled, &mut self.buffer);
            Some(filled)
        } else {
            None
        }
    }

    /// One event of the feed.
    pub fn step(&mut self, event: FeedEvent<T>) -> (batch: Option<Vec<T>>)
        ensures
            old(self)@.wf(),
            final(self)@ == old(self)@.step(event).0,
            batch_model(batch) == old(self)@.step(event).1,
    {
        match event {
            FeedEvent::Record(record, at_ms) => self.accept(record, at_ms),
            FeedEvent::Tick(at_ms) => self.tick(at_ms),
        }
    }
}

/// Runs a whole feed through a fresh accumulator whose timer starts at
/// `start_ms`, drains it at the end, and returns the batches in the order in
/// which they left.
pub fn run_batcher<T>(feed: Vec<FeedEvent<T>>, max_rows: usize, max_secs: u64, start_ms: u64) -> (batches:
    Vec<Vec<T>>)
    ensures
        batch_models(batches@) == AccumulatorModel::<T>::fresh(
            max_rows as nat,
            max_secs as nat,
            start_ms as nat,
        ).run_to_end(feed@),
        batch_models(batches@).flatten() == records_of(feed@),
        total_rows(batch_models(batches@)) == records_of(feed@).len(),
        batches_bounded(batch_models(batches@), max_rows as nat),
{
    let ghost start = AccumulatorModel::<T>::fresh(
        max_rows as nat,
        max_secs as nat,
        start_ms as nat,
    );
    let ghost all = feed@;
    let mut accumulator: BatchAccumulator<T> = BatchAccumulator::new(max_rows, max_secs, start_ms);
    let mut batches: Vec<Vec<T>> = Vec::new();
    for event in it: feed.into_iter()
        invariant
            it.seq() == all,
            start == AccumulatorModel::<T>::fresh(
                max_rows as nat,
                max_secs as nat,
                start_ms as nat,
            ),
            accumulator@ == start.run(all.take(it.index() as int)).0,
            batch_models(batches@) == start.run(all.take(it.index() as int)).1,
    {
        proof {
            assert(all.take(it.index() + 1).drop_last() =~= all.take(it.index() as int));
        }
        if let Some(batch) = accumulator.step(event) {
            batches.push(batch);
        }
    }
    assert(all.take(all.len() as int) =~= all);
    if let Some(batch) = accumulator.drain() {
        batches.push(batch);
    }
    proof {
        run_to_end_keeps_records(start, all);
    }
    batches
}

} // verus!

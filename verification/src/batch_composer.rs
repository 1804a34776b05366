//! Which requests each spam tick sends.
use crate::handles::{current_pct, held_pct};
use crate::request::{requests, ExecutionRequest, RequestModel};
use tokio::sync::watch;
use vstd::prelude::*;

verus! {

/// Produces the [`ExecutionRequest`]s to send on a given spam tick. This is the
/// seam the spam loop pulls from: the uniform single-pool behavior and the
/// two-pool priority-ratio blend are two implementations of it.
pub trait BatchComposer: Send {
    /// Whether the composer is in a state that its constructor or a tick can
    /// leave it in.
    spec fn wf(&self) -> bool;

    /// Whether `tick` may turn this composer into `after` and hand out `batch`.
    spec fn composes(&self, tick: u64, after: &Self, batch: Seq<RequestModel>) -> bool;

    /// Returns the batch for `tick` (0-based, the global tick index). Returning
    /// fewer than the nominal batch size is allowed (e.g. a stream ran dry).
    fn compose(&mut self, tick: u64) -> (batch: Vec<ExecutionRequest>)
        requires
            old(self).wf(),
        ensures
            final(self).wf(),
            old(self).composes(tick, final(self), requests(batch@)),
    ;
}

/// Replays a fixed set of pre-built chunks round-robin: `chunk[tick % len]`.
pub struct ReplayComposer {
    chunks: Vec<Vec<ExecutionRequest>>,
}

/// The batch that a replay of `chunks` sends on `tick`.
pub open spec fn replayed(chunks: Seq<Seq<RequestModel>>, tick: nat) -> Seq<RequestModel> {
    if chunks.len() == 0 {
        Seq::empty()
    } else {
        chunks[tick as int % chunks.len() as int]
    }
}

impl ReplayComposer {
    /// The chunks, in the order in which they are replayed.
    pub closed spec fn chunks(&self) -> Seq<Seq<RequestModel>> {
        self.chunks@.map_values(|chunk: Vec<ExecutionRequest>| requests(chunk@))
    }

    pub fn new(chunks: Vec<Vec<ExecutionRequest>>) -> (composer: Self)
        ensures
            composer.wf(),
            composer.chunks() == chunks@.map_values(
                |chunk: Vec<ExecutionRequest>| requests(chunk@),
            ),
    {
        Self { chunks }
    }
}

impl BatchComposer for ReplayComposer {
    open spec fn wf(&self) -> bool {
        true
    }

    open spec fn composes(&self, tick: u64, after: &Self, batch: Seq<RequestModel>) -> bool {
        &&& after.chunks() == self.chunks()
        &&& batch == replayed(self.chunks(), tick as nat)
    }

    fn compose(&mut self, tick: u64) -> (batch: Vec<ExecutionRequest>)
        ensures
            final(self).chunks() == old(self).chunks(),
            old(self).chunks().len() == 0 ==> batch@.len() == 0,
            old(self).chunks().len() > 0 ==> requests(batch@) == old(self).chunks()[tick as int
                % old(self).chunks().len() as int],
    {
        if self.chunks.is_empty() {
            let batch: Vec<ExecutionRequest> = Vec::new();
            assert(requests(batch@) =~= Seq::<RequestModel>::empty());
            return batch;
        }
        let index = (tick % (self.chunks.len() as u64)) as usize;
        let batch = self.chunks[index].clone();
        assert(requests(batch@) =~= requests(self.chunks@[index as int]@));
        batch
    }
}

/// Blends two pre-generated, per-pool tx streams by a live priority ratio.
/// Normal traffic is a constant baseline: every tick draws a full `batch_size`
/// from the normal stream regardless of the slider. The slider only adds
/// priority traffic on top: each call also advances the priority cursor by
/// `M = round(batch_size * pct/100)`, so the per-tick total is `batch_size + M`
/// (at 100% that is `2 * batch_size`: full normal rate plus an equal priority
/// rate). This models a fixed normal load with the slider controlling the
/// *additional* priority load over the reserved-blockspace cap.
///
/// Cursors only ever advance forward. Nonces are assigned later, so blending is
/// nonce-safe as long as the two pools use disjoint from-addresses, which they
/// do, since they are different pools.
pub struct PriorityRatioComposer {
    priority_txs: Vec<ExecutionRequest>,
    normal_txs: Vec<ExecutionRequest>,
    priority_cursor: usize,
    normal_cursor: usize,
    batch_size: usize,
    priority_pct: watch::Receiver<u8>,
}

/// What a [`PriorityRatioComposer`] holds, but for the live ratio.
pub struct BlendModel {
    pub priority: Seq<RequestModel>,
    pub normal: Seq<RequestModel>,
    pub priority_cursor: nat,
    pub normal_cursor: nat,
    pub batch_size: nat,
}

/// `round(batch_size * pct / 100)`, with `pct` clamped to `[0, 100]`: the count
/// of priority txs added on top of the normal baseline.
pub open spec fn priority_share(batch_size: nat, pct: nat) -> nat {
    let clamped = if pct < 100 {
        pct
    } else {
        100
    };
    (batch_size * clamped + 50) / 100
}

/// Where a cursor stands after up to `n` of `len` items were taken.
pub open spec fn taken_to(len: nat, cursor: nat, n: nat) -> nat {
    if cursor + n < len {
        cursor + n
    } else {
        len
    }
}

impl BlendModel {
    /// Both cursors lie within their streams.
    pub open spec fn wf(self) -> bool {
        &&& self.priority_cursor <= self.priority.len()
        &&& self.normal_cursor <= self.normal.len()
    }

    /// The priority cursor after a tick at `pct`.
    pub open spec fn next_priority_cursor(self, pct: nat) -> nat {
        taken_to(self.priority.len(), self.priority_cursor, priority_share(self.batch_size, pct))
    }

    /// The normal cursor after a tick.
    pub open spec fn next_normal_cursor(self) -> nat {
        taken_to(self.normal.len(), self.normal_cursor, self.batch_size)
    }

    /// The state after a tick at `pct`.
    pub open spec fn after_tick(self, pct: nat) -> BlendModel {
        BlendModel {
            priority_cursor: self.next_priority_cursor(pct),
            normal_cursor: self.next_normal_cursor(),
            ..self
        }
    }

    /// The priority requests that a tick at `pct` sends.
    pub open spec fn priority_drawn(self, pct: nat) -> Seq<RequestModel> {
        self.priority.subrange(self.priority_cursor as int, self.next_priority_cursor(pct) as int)
    }

    /// The normal requests that a tick sends.
    pub open spec fn normal_drawn(self) -> Seq<RequestModel> {
        self.normal.subrange(self.normal_cursor as int, self.next_normal_cursor() as int)
    }

    /// The batch that a tick at `pct` sends: priority first, then normal.
    pub open spec fn batch(self, pct: nat) -> Seq<RequestModel> {
        self.priority_drawn(pct) + self.normal_drawn()
    }
}

impl View for PriorityRatioComposer {
    type V = BlendModel;

    closed spec fn view(&self) -> BlendModel {
        BlendModel {
            priority: requests(self.priority_txs@),
            normal: requests(self.normal_txs@),
            priority_cursor: self.priority_cursor as nat,
            normal_cursor: self.normal_cursor as nat,
            batch_size: self.batch_size as nat,
        }
    }
}

impl PriorityRatioComposer {
    /// The live ratio that each tick reads.
    pub closed spec fn ratio(&self) -> watch::Receiver<u8> {
        self.priority_pct
    }

    pub fn new(
        priority_txs: Vec<ExecutionRequest>,
        normal_txs: Vec<ExecutionRequest>,
        batch_size: usize,
        priority_pct: watch::Receiver<u8>,
    ) -> (composer: Self)
        ensures
            composer.wf(),
            composer.ratio() == priority_pct,
            composer@ == (BlendModel {
                priority: requests(priority_txs@),
                normal: requests(normal_txs@),
                priority_cursor: 0,
                normal_cursor: 0,
                batch_size: batch_size as nat,
            }),
    {
        Self {
            priority_txs,
            normal_txs,
            priority_cursor: 0,
            normal_cursor: 0,
            batch_size,
            priority_pct,
        }
    }

    /// How many priority requests have been handed out.
    pub fn priority_cursor(&self) -> (cursor: usize)
        ensures
            cursor == self@.priority_cursor,
    {
        self.priority_cursor
    }

    /// How many normal requests have been handed out.
    pub fn normal_cursor(&self) -> (cursor: usize)
        ensures
            cursor == self@.normal_cursor,
    {
        self.normal_cursor
    }

    /// `round(batch_size * pct / 100)`, with `pct` clamped to `[0, 100]`, so the
    /// result is always in `[0, batch_size]`. This is the count of *additional*
    /// priority txs added on top of the constant normal baseline.
    pub fn priority_count(batch_size: usize, pct: u8) -> (count: usize)
        ensures
            count == priority_share(batch_size as nat, pct as nat),
            0 <= count <= batch_size,
    {
        let pct: usize = if pct < 100 {
            pct as usize
        } else {
            100
        };
        // Whole hundreds are scaled apart from the rest, so that no product
        // outgrows the batch size.
        let hundreds: usize = batch_size / 100;
        let rest: usize = batch_size % 100;
        assert(batch_size == 100 * hundreds + rest);
        assert(hundreds * pct <= hundreds * 100 && 0 <= rest * pct <= rest * 100
            && batch_size * pct == 100 * (hundreds * pct) + rest * pct) by (nonlinear_arith)
            requires
                0 <= pct <= 100,
                0 <= hundreds,
                0 <= rest,
                batch_size == 100 * hundreds + rest,
        ;
        hundreds * pct + (rest * pct + 50) / 100
    }

    /// Returns the batch of a tick at which the live ratio is `pct`.
    pub fn compose_at(&mut self, pct: u8) -> (batch: Vec<ExecutionRequest>)
        requires
            old(self).wf(),
        ensures
            final(self).wf(),
            final(self).ratio() == old(self).ratio(),
            final(self)@ == old(self)@.after_tick(pct as nat),
            requests(batch@) == old(self)@.batch(pct as nat),
    {
        let want_priority = Self::priority_count(self.batch_size, pct);
        let want_normal = self.batch_size;

        let mut batch = take(
            self.priority_txs.as_slice(),
            &mut self.priority_cursor,
            want_priority,
        );
        let ghost priority_part = batch@;
        let mut normal = take(self.normal_txs.as_slice(), &mut self.normal_cursor, want_normal);
        let ghost normal_part = normal@;
        batch.append(&mut normal);
        assert(requests(batch@) =~= requests(priority_part) + requests(normal_part));
        batch
    }
}

impl BatchComposer for PriorityRatioComposer {
    open spec fn wf(&self) -> bool {
        self@.wf()
    }

    open spec fn composes(&self, tick: u64, after: &Self, batch: Seq<RequestModel>) -> bool {
        &&& after.ratio() == self.ratio()
        &&& exists|pct: u8|
            {
                &&& held_pct(self.ratio(), pct)
                &&& after@ == #[trigger] self@.after_tick(pct as nat)
                &&& batch == self@.batch(pct as nat)
            }
    }

    fn compose(&mut self, tick: u64) -> (batch: Vec<ExecutionRequest>)
        ensures
            final(self).ratio() == old(self).ratio(),
            exists|pct: u8|
                {
                    &&& #[trigger] held_pct(old(self).ratio(), pct)
                    &&& final(self)@ == old(self)@.after_tick(pct as nat)
                    &&& requests(batch@) == old(self)@.batch(pct as nat)
                },
    {
        let pct = current_pct(&self.priority_pct);
        self.compose_at(pct)
    }
}

/// Takes up to `n` requests from `src` starting at `*cursor`, advancing the
/// cursor past what it returned (clamped at the end of the slice).
pub fn take(src: &[ExecutionRequest], cursor: &mut usize, n: usize) -> (taken: Vec<
    ExecutionRequest,
>)
    requires
        *old(cursor) <= src@.len(),
    ensures
        *final(cursor) == taken_to(src@.len(), *old(cursor) as nat, n as nat),
        requests(taken@) == requests(src@).subrange(*old(cursor) as int, *final(cursor) as int),
{
    let start = *cursor;
    let end: usize = if n < src.len() - start {
        start + n
    } else {
        src.len()
    };
    let mut taken: Vec<ExecutionRequest> = Vec::new();
    let mut i: usize = start;
    while i < end
        invariant
            start <= i <= end <= src@.len(),
            requests(taken@) == requests(src@).subrange(start as int, i as int),
        decreases end - i,
    {
        let ghost before = taken@;
        taken.push(src[i].clone());
        assert(requests(taken@) =~= requests(before).push(src@[i as int]@));
        assert(requests(src@).subrange(start as int, i + 1) =~= requests(src@).subrange(
            start as int,
            i as int,
        ).push(src@[i as int]@));
        i += 1;
    }
    *cursor = end;
    taken
}

/// A replay repeats itself after as many ticks as there are chunks.
pub proof fn replay_is_periodic(chunks: Seq<Seq<RequestModel>>, tick: nat)
    ensures
        replayed(chunks, tick + chunks.len()) == replayed(chunks, tick),
{
    if chunks.len() > 0 {
        vstd::arithmetic::div_mod::lemma_mod_add_multiples_vanish(
            tick as int,
            chunks.len() as int,
        );
    }
}

/// The replay visits the chunks in order, one per tick: the tick after that of
/// one chunk sends the next chunk, and after the last comes the first.
pub proof fn replay_goes_round(chunks: Seq<Seq<RequestModel>>, round: nat, i: nat)
    requires
        i < chunks.len(),
    ensures
        replayed(chunks, round * chunks.len() + i) == chunks[i as int],
{
    vstd::arithmetic::div_mod::lemma_fundamental_div_mod_converse_mod(
        (round * chunks.len() + i) as int,
        chunks.len() as int,
        round as int,
        i as int,
    );
}

/// The priority share is the nearest whole number to `batch_size * pct / 100`
/// for a ratio of at most 100, nothing at 0, and the whole batch size from 100
/// on; a half is rounded up. It never exceeds the batch size.
pub proof fn priority_share_rounds(batch_size: nat, pct: nat)
    ensures
        priority_share(batch_size, pct) <= batch_size,
        pct == 0 ==> priority_share(batch_size, pct) == 0,
        pct >= 100 ==> priority_share(batch_size, pct) == batch_size,
        pct <= 100 ==> -50 < 100 * priority_share(batch_size, pct) - batch_size * pct <= 50,
{
    let clamped = if pct < 100 {
        pct
    } else {
        100nat
    };
    assert(batch_size * clamped <= batch_size * 100) by (nonlinear_arith)
        requires
            clamped <= 100,
    ;
    assert(pct == 0 ==> batch_size * clamped == 0) by (nonlinear_arith)
        requires
            pct == 0 ==> clamped == 0,
    ;
}

/// A higher ratio never sends less priority traffic.
pub proof fn priority_share_grows(batch_size: nat, low: nat, high: nat)
    requires
        low <= high,
    ensures
        priority_share(batch_size, low) <= priority_share(batch_size, high),
{
    let a = if low < 100 {
        low
    } else {
        100nat
    };
    let b = if high < 100 {
        high
    } else {
        100nat
    };
    assert(batch_size * a <= batch_size * b) by (nonlinear_arith)
        requires
            a <= b,
    ;
}

impl BlendModel {
    /// Normal traffic is a constant baseline: whatever the ratio, a tick sends
    /// the same normal requests and leaves the normal cursor at the same place.
    pub proof fn normal_baseline_is_constant(self, pct: nat, other: nat)
        ensures
            self.after_tick(pct).normal_cursor == self.after_tick(other).normal_cursor,
            self.after_tick(pct).normal_drawn() == self.after_tick(other).normal_drawn(),
            self.batch(pct) == self.priority_drawn(pct) + self.normal_drawn(),
            self.batch(other) == self.priority_drawn(other) + self.normal_drawn(),
    {
    }

    /// While both streams last, a tick sends the whole batch size of normal
    /// requests and the priority share on top; at a ratio of 100 that is twice
    /// the batch size.
    pub proof fn tick_total(self, pct: nat)
        requires
            self.priority_cursor + priority_share(self.batch_size, pct) <= self.priority.len(),
            self.normal_cursor + self.batch_size <= self.normal.len(),
        ensures
            self.normal_drawn().len() == self.batch_size,
            self.priority_drawn(pct).len() == priority_share(self.batch_size, pct),
            self.batch(pct).len() == self.batch_size + priority_share(self.batch_size, pct),
            pct >= 100 ==> self.batch(pct).len() == 2 * self.batch_size,
    {
        priority_share_rounds(self.batch_size, pct);
    }

    /// A stream that runs dry gives what is left of it, without touching what
    /// the other stream gives.
    pub proof fn dry_stream_gives_the_rest(self, pct: nat)
        requires
            self.wf(),
        ensures
            self.priority_cursor + priority_share(self.batch_size, pct) >= self.priority.len()
                ==> self.priority_drawn(pct) == self.priority.skip(self.priority_cursor as int),
            self.normal_cursor + self.batch_size >= self.normal.len() ==> self.normal_drawn()
                == self.normal.skip(self.normal_cursor as int),
    {
    }

    /// Cursors only ever advance, and never past the end of their stream; the
    /// streams and the batch size stay as they are.
    pub proof fn cursors_advance(self, pct: nat)
        requires
            self.wf(),
        ensures
            self.after_tick(pct).wf(),
            self.priority_cursor <= self.after_tick(pct).priority_cursor,
            self.normal_cursor <= self.after_tick(pct).normal_cursor,
            self.after_tick(pct).priority == self.priority,
            self.after_tick(pct).normal == self.normal,
            self.after_tick(pct).batch_size == self.batch_size,
    {
    }

    /// The state after one tick at each of `pcts`.
    pub open spec fn after_ticks(self, pcts: Seq<nat>) -> BlendModel
        decreases pcts.len(),
    {
        if pcts.len() == 0 {
            self
        } else {
            self.after_ticks(pcts.drop_last()).after_tick(pcts.last())
        }
    }

    /// The priority requests sent by one tick at each of `pcts`.
    pub open spec fn all_priority_drawn(self, pcts: Seq<nat>) -> Seq<RequestModel>
        decreases pcts.len(),
    {
        if pcts.len() == 0 {
            Seq::empty()
        } else {
            self.all_priority_drawn(pcts.drop_last()) + self.after_ticks(
                pcts.drop_last(),
            ).priority_drawn(pcts.last())
        }
    }

    /// The normal requests sent by one tick at each of `pcts`.
    pub open spec fn all_normal_drawn(self, pcts: Seq<nat>) -> Seq<RequestModel>
        decreases pcts.len(),
    {
        if pcts.len() == 0 {
            Seq::empty()
        } else {
            self.all_normal_drawn(pcts.drop_last()) + self.after_ticks(
                pcts.drop_last(),
            ).normal_drawn()
        }
    }

    /// However the ratio moves, the ticks send each stream in order, from where
    /// its cursor stood to where it stands, leaving nothing out and sending
    /// nothing twice.
    pub proof fn streams_are_sent_in_order(self, pcts: Seq<nat>)
        requires
            self.wf(),
        ensures
            self.after_ticks(pcts).wf(),
            self.after_ticks(pcts).priority == self.priority,
            self.after_ticks(pcts).normal == self.normal,
            self.after_ticks(pcts).batch_size == self.batch_size,
            self.priority_cursor <= self.after_ticks(pcts).priority_cursor,
            self.normal_cursor <= self.after_ticks(pcts).normal_cursor,
            self.all_priority_drawn(pcts) == self.priority.subrange(
                self.priority_cursor as int,
                self.after_ticks(pcts).priority_cursor as int,
            ),
            self.all_normal_drawn(pcts) == self.normal.subrange(
                self.normal_cursor as int,
                self.after_ticks(pcts).normal_cursor as int,
            ),
        decreases pcts.len(),
    {
        if pcts.len() > 0 {
            self.streams_are_sent_in_order(pcts.drop_last());
        }
    }

    /// After `n` ticks the normal cursor has moved by `n` batch sizes, or the
    /// normal stream is used up.
    pub proof fn normal_rate_is_constant(self, pcts: Seq<nat>)
        requires
            self.wf(),
        ensures
            self.after_ticks(pcts).normal_cursor == taken_to(
                self.normal.len(),
                self.normal_cursor,
                pcts.len() * self.batch_size,
            ),
        decreases pcts.len(),
    {
        if pcts.len() > 0 {
            self.normal_rate_is_constant(pcts.drop_last());
            self.streams_are_sent_in_order(pcts.drop_last());
            assert(pcts.len() * self.batch_size == pcts.drop_last().len() * self.batch_size
                + self.batch_size) by (nonlinear_arith)
                requires
                    pcts.len() == pcts.drop_last().len() + 1,
            ;
        } else {
            assert(pcts.len() * self.batch_size == 0) by (nonlinear_arith)
                requires
                    pcts.len() == 0,
            ;
        }
    }

    /// The priority shares of one tick at each of `pcts`, added up.
    pub open spec fn total_share(self, pcts: Seq<nat>) -> nat
        decreases pcts.len(),
    {
        if pcts.len() == 0 {
            0
        } else {
            self.total_share(pcts.drop_last()) + priority_share(self.batch_size, pcts.last())
        }
    }

    /// After ticks at `pcts` the priority cursor has moved by the shares of all
    /// of them, or the priority stream is used up.
    pub proof fn priority_rate_follows_the_ratio(self, pcts: Seq<nat>)
        requires
            self.wf(),
        ensures
            self.after_ticks(pcts).priority_cursor == taken_to(
                self.priority.len(),
                self.priority_cursor,
                self.total_share(pcts),
            ),
        decreases pcts.len(),
    {
        if pcts.len() > 0 {
            self.priority_rate_follows_the_ratio(pcts.drop_last());
            self.streams_are_sent_in_order(pcts.drop_last());
        }
    }
}

/// A replay of no chunks sends nothing.
pub proof fn empty_replay_sends_nothing(tick: nat)
    ensures
        replayed(Seq::<Seq<RequestModel>>::empty(), tick).len() == 0,
{
}

/// A cursor moves by as much as is asked for, and stops at the end of its
/// stream.
pub proof fn cursor_stops_at_the_end(len: nat, cursor: nat, n: nat)
    requires
        cursor <= len,
    ensures
        cursor <= taken_to(len, cursor, n) <= len,
        taken_to(len, cursor, n) <= cursor + n,
        taken_to(len, cursor, n) == len || taken_to(len, cursor, n) == cursor + n,
{
}

impl ReplayComposer {
    /// On every tick a replay hands out the chunk whose place is the remainder of
    /// the tick by the number of chunks, and keeps all of its chunks.
    pub proof fn tick_replays_its_chunk(
        &self,
        tick: u64,
        after: &Self,
        batch: Seq<RequestModel>,
        round: nat,
        i: nat,
    )
        requires
            self.composes(tick, after, batch),
        ensures
            after.chunks() == self.chunks(),
            self.chunks().len() == 0 ==> batch.len() == 0,
            i < self.chunks().len() && tick == round * self.chunks().len() + i ==> batch
                == self.chunks()[i as int],
    {
        if i < self.chunks().len() && tick == round * self.chunks().len() + i {
            replay_goes_round(self.chunks(), round, i);
        }
    }
}

impl BlendModel {
    /// A tick at a ratio of at most 100 draws, from where each cursor stands, the
    /// whole batch size of normal requests and `share` priority requests, where
    /// `share` is `batch_size * pct / 100` rounded half up, as far as the streams
    /// last. The batch is the priority requests and then the normal ones, and the
    /// cursors stand behind them; nothing else changes.
    pub proof fn tick_draws_from_both_streams(self, pct: nat, share: nat)
        requires
            self.wf(),
            pct <= 100,
            100 * share <= self.batch_size * pct + 50 < 100 * share + 100,
        ensures
            ({
                let after = self.after_tick(pct);
                let batch = self.batch(pct);
                let drawn = after.priority_cursor - self.priority_cursor;
                &&& after.priority == self.priority
                &&& after.normal == self.normal
                &&& after.batch_size == self.batch_size
                &&& after.priority_cursor == self.priority_cursor + share
                    || self.priority_cursor + share > self.priority.len()
                    && after.priority_cursor == self.priority.len()
                &&& after.normal_cursor == self.normal_cursor + self.batch_size
                    || self.normal_cursor + self.batch_size > self.normal.len()
                    && after.normal_cursor == self.normal.len()
                &&& batch.len() == drawn + after.normal_cursor - self.normal_cursor
                &&& forall|i: int|
                    0 <= i < drawn ==> #[trigger] batch[i] == self.priority[self.priority_cursor
                        + i]
                &&& forall|i: int|
                    drawn <= i < batch.len() ==> #[trigger] batch[i] == self.normal[
                    self.normal_cursor + i - drawn]
            }),
    {
    }

    /// A ratio above 100 counts as 100, which is a share of the whole batch size.
    pub proof fn ratio_above_100_counts_as_100(self, pct: nat)
        requires
            pct >= 100,
        ensures
            self.after_tick(pct) == self.after_tick(100),
            self.batch(pct) == self.batch(100),
            100 * self.batch_size <= self.batch_size * 100 + 50 < 100 * self.batch_size + 100,
    {
    }

    /// Both cursors of a blend lie within their streams, and that is all that
    /// makes it well formed.
    pub proof fn blend_is_well_formed(self)
        ensures
            self.wf() <==> self.priority_cursor <= self.priority.len() && self.normal_cursor
                <= self.normal.len(),
    {
    }

    /// Ticks follow one another: what several ticks leave behind and send is what
    /// all but the last do, and then the last.
    pub proof fn ticks_add_up(self, pcts: Seq<nat>, last: nat)
        ensures
            self.after_ticks(Seq::empty()) == self,
            self.after_ticks(pcts.push(last)) == self.after_ticks(pcts).after_tick(last),
            self.all_priority_drawn(Seq::empty()).len() == 0,
            self.all_priority_drawn(pcts.push(last)) == self.all_priority_drawn(pcts)
                + self.after_ticks(pcts).priority_drawn(last),
            self.all_normal_drawn(Seq::empty()).len() == 0,
            self.all_normal_drawn(pcts.push(last)) == self.all_normal_drawn(pcts)
                + self.after_ticks(pcts).normal_drawn(),
            self.total_share(Seq::empty()) == 0,
            self.total_share(pcts.push(last)) == self.total_share(pcts) + priority_share(
                self.batch_size,
                last,
            ),
    {
        assert(pcts.push(last).drop_last() =~= pcts);
    }
}

impl PriorityRatioComposer {
    /// On every tick the composer hands out exactly the batch, and is left in
    /// exactly the state, of a tick at a ratio that its channel held. With
    /// [`BlendModel::tick_draws_from_both_streams`] that fixes the batch for the
    /// ratio that was read.
    pub proof fn tick_goes_by_a_held_ratio(
        &self,
        tick: u64,
        after: &Self,
        batch: Seq<RequestModel>,
    ) -> (pct: u8)
        requires
            self.composes(tick, after, batch),
        ensures
            held_pct(self.ratio(), pct),
            after.ratio() == self.ratio(),
            after@ == self@.after_tick(pct as nat),
            batch == self@.batch(pct as nat),
    {
        choose|pct: u8|
            {
                &&& held_pct(self.ratio(), pct)
                &&& after@ == #[trigger] self@.after_tick(pct as nat)
                &&& batch == self@.batch(pct as nat)
            }
    }

    /// The length of a tick's batch follows from the ratio that was read: where
    /// both streams last, it is the batch size and the share on top, and the
    /// priority cursor has moved by just that share.
    pub proof fn tick_sends_the_share_of_its_ratio(
        &self,
        tick: u64,
        after: &Self,
        batch: Seq<RequestModel>,
    ) -> (pct: u8)
        requires
            self.wf(),
            self.composes(tick, after, batch),
            self@.priority_cursor + self@.batch_size <= self@.priority.len(),
            self@.normal_cursor + self@.batch_size <= self@.normal.len(),
        ensures
            held_pct(self.ratio(), pct),
            ({
                let share = after@.priority_cursor - self@.priority_cursor;
                &&& batch.len() == self@.batch_size + share
                &&& after@.normal_cursor == self@.normal_cursor + self@.batch_size
                &&& pct <= 100 ==> 100 * share <= self@.batch_size * pct + 50 < 100 * share + 100
                &&& pct >= 100 ==> share == self@.batch_size
            }),
    {
        let pct = self.tick_goes_by_a_held_ratio(tick, after, batch);
        priority_share_rounds(self@.batch_size, pct as nat);
        self@.tick_total(pct as nat);
        pct
    }
}

} // verus!

use crate::atari::contains_action;
use crate::channel::another_sender;
use crate::channel::open_channel;
use crate::channel::receive;
use crate::channel::receive_within;
use crate::channel::receiver_channel;
use crate::channel::sender_channel;
use crate::channel::Received;
use crate::collect::is_settled;
use crate::collect::Collector;
use crate::error::BatchError;
use crate::pool::drain_pool;
use crate::pool::start_pool;
use crate::report::StepReport;
use crate::report::StepRequest;
use crate::rom::rom_of_name;
use crate::rom::BundledRom;
use std::sync::mpsc::Receiver;
use std::sync::mpsc::Sender;
use threadpool::ThreadPool;
use vstd::prelude::*;

verus! {

/// What one slot's simulator is made from.
#[derive(Clone, Copy, Debug, PartialEq, Eq, Structural)]
pub struct SlotConfig {
    pub slot_index: usize,
    pub rom: BundledRom,
    pub max_frames: u32,
    pub gray_scale: bool,
    /// The batch's seed plus the slot's index.
    pub seed: i32,
}

/// The batch engine as mathematical values.
pub struct VecAtariView {
    pub num_envs: usize,
    /// How many slots' work the pool runs at a time.
    pub workers: usize,
    /// The pool on which the slots' work runs, and which `close` waits for.
    pub pool: ThreadPool,
    /// The channel on which the slots' reports come in.
    pub channel: int,
    pub rom: BundledRom,
    pub max_frames: u32,
    pub gray_scale: bool,
    pub seed: i32,
    pub action_space: Seq<i32>,
    /// A round has been handed out and its reports have not been gathered.
    pub round_open: bool,
    /// How many reports the open round has been offered.
    pub taken: nat,
    /// The reports that the open round has taken, by slot.
    pub received: Map<usize, StepReport>,
    pub closed: bool,
}

impl VecAtariView {
    /// The first action of the batch that is not in the action space stands
    /// at `i`.
    pub open spec fn first_invalid_at(self, actions: Seq<i32>, i: int) -> bool {
        &&& 0 <= i < actions.len()
        &&& !self.action_space.contains(actions[i])
        &&& forall|j: int| 0 <= j < i ==> self.action_space.contains(#[trigger] actions[j])
    }

    /// Every action of the batch is in the action space.
    pub open spec fn all_valid(self, actions: Seq<i32>) -> bool {
        forall|j: int| 0 <= j < actions.len() ==> self.action_space.contains(#[trigger] actions[j])
    }

    /// One request per slot, in the order of the slots, each with the action
    /// that stands at the slot's place in the batch.
    pub open spec fn dispatch(self, actions: Seq<i32>) -> Seq<StepRequest> {
        Seq::new(
            self.num_envs as nat,
            |i: int| StepRequest { slot_index: i as usize, action: actions[i] },
        )
    }

    /// The engine with a round just opened.
    pub open spec fn opened(self) -> VecAtariView {
        VecAtariView { round_open: true, taken: 0, received: Map::empty(), ..self }
    }

    /// The engine with its round gathered.
    pub open spec fn rested(self) -> VecAtariView {
        VecAtariView { round_open: false, taken: 0, received: Map::empty(), ..self }
    }

    /// The open round takes a report only from a slot of the batch that has
    /// not reported in this round.
    pub open spec fn takes(self, report: StepReport) -> bool {
        report.slot_index < self.num_envs && !self.received.contains_key(report.slot_index)
    }

    /// What slot `i`'s simulator is made from.
    pub open spec fn slot_config(self, i: int) -> SlotConfig {
        SlotConfig {
            slot_index: i as usize,
            rom: self.rom,
            max_frames: self.max_frames,
            gray_scale: self.gray_scale,
            seed: (self.seed + i) as i32,
        }
    }
}

/// Whether every slot of a batch of `num_envs` gets a seed of its own: the
/// batch's seed plus the slot's index has to stay an `i32`.
pub open spec fn seeds_fit(seed: i32, num_envs: usize) -> bool {
    seed + num_envs - 1 <= i32::MAX
}

/// Whether every slot of a batch of `num_envs` gets a seed of its own.
pub fn check_seeds_fit(seed: i32, num_envs: usize) -> (fit: bool)
    ensures
        fit == seeds_fit(seed, num_envs),
{
    let room: i64 = i32::MAX as i64 - seed as i64;
    num_envs == 0 || (num_envs - 1) as u64 <= room as u64
}

/// A batch of environments that are stepped together: the caller hands in one
/// action per slot and gets one report per slot back, in the order of the
/// slots. The engine checks the batch, hands out the slots' work, and puts
/// the reports in order; the simulators run on the engine's pool, driven by
/// whoever drives the engine.
pub struct VecAtari {
    num_envs: usize,
    workers: usize,
    pool: ThreadPool,
    sender: Sender<StepReport>,
    receiver: Receiver<StepReport>,
    rom: BundledRom,
    max_frames: u32,
    gray_scale: bool,
    seed: i32,
    action_space: Vec<i32>,
    round: Option<Collector>,
    taken: usize,
    closed: bool,
}

impl View for VecAtari {
    type V = VecAtariView;

    closed spec fn view(&self) -> VecAtariView {
        VecAtariView {
            num_envs: self.num_envs,
            workers: self.workers,
            pool: self.pool,
            channel: sender_channel(self.sender),
            rom: self.rom,
            max_frames: self.max_frames,
            gray_scale: self.gray_scale,
            seed: self.seed,
            action_space: self.action_space@,
            round_open: self.round.is_some(),
            taken: self.taken as nat,
            received: match self.round {
                Some(collector) => collector@,
                None => Map::empty(),
            },
            closed: self.closed,
        }
    }
}

impl VecAtari {
    /// There is at least one slot and one worker, every slot has a seed, the
    /// engine receives from the channel that its senders send into, and an
    /// open round has been offered no more reports than there are slots.
    pub closed spec fn wf(&self) -> bool {
        &&& self.num_envs > 0
        &&& self.workers > 0
        &&& seeds_fit(self.seed, self.num_envs)
        &&& receiver_channel(self.receiver) == sender_channel(self.sender)
        &&& match self.round {
            Some(collector) => {
                &&& collector.wf()
                &&& collector.spec_expected() == self.num_envs
                &&& self.taken <= self.num_envs
            },
            None => self.taken == 0,
        }
    }

    /// An engine has at least one slot and one worker, and a seed for every
    /// slot. Its round has been offered no more reports than there are slots,
    /// and holds none from outside the batch.
    pub proof fn lemma_bounds(&self)
        requires
            self.wf(),
        ensures
            self@.num_envs > 0,
            self@.workers > 0,
            seeds_fit(self@.seed, self@.num_envs),
            self@.taken <= self@.num_envs,
            !self@.round_open ==> self@.taken == 0 && self@.received == Map::<
                usize,
                StepReport,
            >::empty(),
            forall|slot: usize| self@.received.contains_key(slot) ==> slot < self@.num_envs,
    {
        if let Some(collector) = self.round {
            collector.lemma_count_bounded();
        }
    }

    /// An engine for `num_envs` environments of the game called `game`, with
    /// a pool that runs every slot's work at the same time. `action_space`
    /// is what the simulator of slot 0 offers; it is taken to hold for every
    /// slot.
    pub fn new(
        num_envs: usize,
        game: &str,
        max_frames: u32,
        gray_scale: bool,
        seed: i32,
        action_space: Vec<i32>,
    ) -> (engine: VecAtari)
        requires
            num_envs > 0,
            rom_of_name(game@).is_some(),
            seeds_fit(seed, num_envs),
        ensures
            engine.wf(),
            engine@ == (VecAtariView {
                num_envs,
                workers: num_envs,
                pool: engine@.pool,
                channel: engine@.channel,
                rom: rom_of_name(game@).unwrap(),
                max_frames,
                gray_scale,
                seed,
                action_space: action_space@,
                round_open: false,
                taken: 0,
                received: Map::empty(),
                closed: false,
            }),
    {
        VecAtari::with_workers(num_envs, num_envs, game, max_frames, gray_scale, seed, action_space)
    }

    /// As `new`, with a pool that runs the work of `workers` slots at a time.
    /// With fewer workers than slots, some slots' work waits for others'.
    pub fn with_workers(
        num_envs: usize,
        workers: usize,
        game: &str,
        max_frames: u32,
        gray_scale: bool,
        seed: i32,
        action_space: Vec<i32>,
    ) -> (engine: VecAtari)
        requires
            num_envs > 0,
            workers > 0,
            rom_of_name(game@).is_some(),
            seeds_fit(seed, num_envs),
        ensures
            engine.wf(),
            engine@ == (VecAtariView {
                num_envs,
                workers,
                pool: engine@.pool,
                channel: engine@.channel,
                rom: rom_of_name(game@).unwrap(),
                max_frames,
                gray_scale,
                seed,
                action_space: action_space@,
                round_open: false,
                taken: 0,
                received: Map::empty(),
                closed: false,
            }),
    {
        let rom = BundledRom::name2rom(game);
        let pool = start_pool(workers);
        let (sender, receiver) = open_channel();
        VecAtari {
            num_envs,
            workers,
            pool,
            sender,
            receiver,
            rom,
            max_frames,
            gray_scale,
            seed,
            action_space,
            round: None,
            taken: 0,
            closed: false,
        }
    }

    pub fn num_envs(&self) -> (n: usize)
        ensures
            n == self@.num_envs,
    {
        self.num_envs
    }

    pub fn workers(&self) -> (n: usize)
        ensures
            n == self@.workers,
    {
        self.workers
    }

    /// The pool on which the slots' work is to run: the engine's own, the
    /// one that `close` waits for.
    pub fn pool(&self) -> (pool: &ThreadPool)
        ensures
            *pool == self@.pool,
    {
        &self.pool
    }

    /// A new sending end of the engine's channel, for a worker to send its
    /// slot's report on: what is sent on it is what `gather` receives.
    pub fn sender(&self) -> (sender: Sender<StepReport>)
        ensures
            sender_channel(sender) == self@.channel,
    {
        another_sender(&self.sender)
    }

    /// How many reports the open round has been offered.
    pub fn taken(&self) -> (n: usize)
        ensures
            n == self@.taken,
    {
        self.taken
    }

    pub fn action_space(&self) -> (space: &Vec<i32>)
        ensures
            space@ == self@.action_space,
    {
        &self.action_space
    }

    /// Whether a round is under way: handed out and not yet gathered.
    pub fn round_open(&self) -> (open: bool)
        ensures
            open == self@.round_open,
    {
        self.round.is_some()
    }

    pub fn is_closed(&self) -> (closed: bool)
        ensures
            closed == self@.closed,
    {
        self.closed
    }

    /// What the simulator of slot `slot_index` is made from.
    pub fn slot_config(&self, slot_index: usize) -> (config: SlotConfig)
        requires
            self.wf(),
            slot_index < self@.num_envs,
        ensures
            config == self@.slot_config(slot_index as int),
            config.seed == self@.seed + slot_index,
    {
        let offset: i64 = slot_index as i64;
        let seed: i64 = self.seed as i64 + offset;
        SlotConfig {
            slot_index,
            rom: self.rom,
            max_frames: self.max_frames,
            gray_scale: self.gray_scale,
            seed: seed as i32,
        }
    }

    /// Opens a round of steps: checks the batch and hands out one request per
    /// slot. A batch that is refused opens no round and changes nothing. The
    /// round before has to be gathered first.
    pub fn step(&mut self, actions: Vec<i32>) -> (requests: Result<Vec<StepRequest>, BatchError>)
        requires
            old(self).wf(),
            !old(self)@.round_open,
        ensures
            final(self).wf(),
            match requests {
                Ok(requests) => {
                    &&& !old(self)@.closed
                    &&& actions@.len() == old(self)@.num_envs
                    &&& old(self)@.all_valid(actions@)
                    &&& requests@ == old(self)@.dispatch(actions@)
                    &&& final(self)@ == old(self)@.opened()
                },
                Err(BatchError::PoolClosed) => old(self)@.closed && final(self)@ == old(self)@,
                Err(BatchError::ShapeMismatch { expected, actual }) => {
                    &&& !old(self)@.closed
                    &&& actions@.len() != old(self)@.num_envs
                    &&& expected == old(self)@.num_envs
                    &&& actual == actions@.len()
                    &&& final(self)@ == old(self)@
                },
                Err(BatchError::InvalidAction { slot_index, action }) => {
                    &&& !old(self)@.closed
                    &&& actions@.len() == old(self)@.num_envs
                    &&& old(self)@.first_invalid_at(actions@, slot_index as int)
                    &&& action == actions@[slot_index as int]
                    &&& final(self)@ == old(self)@
                },
                Err(_) => false,
            },
    {
        if self.closed {
            return Err(BatchError::PoolClosed);
        }
        if actions.len() != self.num_envs {
            return Err(BatchError::ShapeMismatch { expected: self.num_envs, actual: actions.len() });
        }
        let mut requests: Vec<StepRequest> = Vec::new();
        let mut i: usize = 0;
        while i < actions.len()
            invariant
                *self == *old(self),
                self.wf(),
                !self@.closed,
                actions@.len() == self.num_envs,
                0 <= i <= actions@.len(),
                requests@ == Seq::new(
                    i as nat,
                    |j: int| StepRequest { slot_index: j as usize, action: actions@[j] },
                ),
                forall|j: int| 0 <= j < i ==> self@.action_space.contains(#[trigger] actions@[j]),
            decreases actions@.len() - i,
        {
            let action = actions[i];
            if !contains_action(&self.action_space, action) {
                return Err(BatchError::InvalidAction { slot_index: i, action });
            }
            requests.push(StepRequest { slot_index: i, action });
            i = i + 1;
            assert(requests@ =~= Seq::new(
                i as nat,
                |j: int| StepRequest { slot_index: j as usize, action: actions@[j] },
            ));
        }
        self.round = Some(Collector::new(self.num_envs));
        self.taken = 0;
        Ok(requests)
    }

    /// Opens a round of resets: every slot is to be reset and to report its
    /// first observation. The round before has to be gathered first.
    pub fn reset(&mut self) -> (opened: Result<(), BatchError>)
        requires
            old(self).wf(),
            !old(self)@.round_open,
        ensures
            final(self).wf(),
            match opened {
                Ok(_) => !old(self)@.closed && final(self)@ == old(self)@.opened(),
                Err(e) => old(self)@.closed && e == BatchError::PoolClosed && final(self)@ == old(
                    self,
                )@,
            },
    {
        if self.closed {
            return Err(BatchError::PoolClosed);
        }
        self.round = Some(Collector::new(self.num_envs));
        self.taken = 0;
        Ok(())
    }

    /// Hands one report to the open round, without the channel. A report
    /// from a slot outside the batch, or from one that has reported in this
    /// round, is handed back; it counts as offered all the same.
    pub fn accept(&mut self, report: StepReport) -> (refused: Option<StepReport>)
        requires
            old(self).wf(),
            old(self)@.round_open,
            old(self)@.taken < old(self)@.num_envs,
        ensures
            final(self).wf(),
            refused == if old(self)@.takes(report) {
                None
            } else {
                Some(report)
            },
            final(self)@ == (VecAtariView {
                taken: old(self)@.taken + 1,
                received: if old(self)@.takes(report) {
                    old(self)@.received.insert(report.slot_index, report)
                } else {
                    old(self)@.received
                },
                ..old(self)@
            }),
    {
        let mut collector = self.round.take().unwrap();
        let refused = collector.accept(report);
        self.round = Some(collector);
        self.taken = self.taken + 1;
        refused
    }

    /// Closes the open round: waits on the channel until the round has been
    /// offered one report per slot, and hands out the batch in the order of
    /// the slots. A slot from which no report was taken stands in the batch
    /// with a fault. With `patience_ms`, no single wait lasts longer than so
    /// many milliseconds. If a wait runs out, or the channel has no sender
    /// left, the round stays open with what it has taken, and can be
    /// gathered again.
    pub fn gather(&mut self, patience_ms: Option<u32>) -> (batch: Result<Vec<StepReport>, BatchError>)
        requires
            old(self).wf(),
            old(self)@.round_open,
        ensures
            final(self).wf(),
            old(self)@.taken == old(self)@.num_envs ==> batch.is_ok(),
            match batch {
                Ok(batch) => {
                    &&& exists|received: Map<usize, StepReport>|
                        old(self)@.received.submap_of(received) && #[trigger] is_settled(
                            batch@,
                            old(self)@.num_envs as nat,
                            received,
                        )
                    &&& old(self)@.taken == old(self)@.num_envs ==> is_settled(
                        batch@,
                        old(self)@.num_envs as nat,
                        old(self)@.received,
                    )
                    &&& batch@.len() == old(self)@.num_envs
                    &&& forall|i: int| 0 <= i < batch@.len() ==> (#[trigger] batch@[i]).slot_index == i
                    &&& final(self)@ == old(self)@.rested()
                },
                Err(e) => {
                    &&& e == BatchError::PoolClosed || (e == BatchError::Timeout
                        && patience_ms.is_some())
                    &&& old(self)@.taken <= final(self)@.taken < old(self)@.num_envs
                    &&& old(self)@.received.submap_of(final(self)@.received)
                    &&& final(self)@ == (VecAtariView {
                        taken: final(self)@.taken,
                        received: final(self)@.received,
                        ..old(self)@
                    })
                },
            },
    {
        let ghost before = self@.received;
        let mut collector = self.round.take().unwrap();
        let mut taken = self.taken;
        while taken < self.num_envs
            invariant
                collector.wf(),
                collector.spec_expected() == self.num_envs,
                old(self)@.taken <= taken <= self.num_envs,
                before == old(self)@.received,
                before.submap_of(collector@),
                taken == old(self)@.taken ==> collector@ == before,
                self.round.is_none(),
                self.taken == old(self).taken,
                self.num_envs == old(self).num_envs,
                self.workers == old(self).workers,
                self.pool == old(self).pool,
                self.sender == old(self).sender,
                self.receiver == old(self).receiver,
                self.rom == old(self).rom,
                self.max_frames == old(self).max_frames,
                self.gray_scale == old(self).gray_scale,
                self.seed == old(self).seed,
                self.action_space == old(self).action_space,
                self.closed == old(self).closed,
                old(self).wf(),
                old(self)@.round_open,
            decreases self.num_envs - taken,
        {
            let got = match patience_ms {
                Some(millis) => receive_within(&self.receiver, millis),
                None => receive(&self.receiver),
            };
            match got {
                Received::Report(report) => {
                    let ghost held = collector@;
                    let _ = collector.accept(report);
                    taken = taken + 1;
                    assert(before.submap_of(collector@)) by {
                        assert(held.submap_of(collector@));
                    }
                },
                Received::TimedOut => {
                    self.round = Some(collector);
                    self.taken = taken;
                    return Err(BatchError::Timeout);
                },
                Received::Closed => {
                    self.round = Some(collector);
                    self.taken = taken;
                    return Err(BatchError::PoolClosed);
                },
            }
        }
        let ghost received = collector@;
        let batch = collector.settle();
        self.taken = 0;
        assert(is_settled(batch@, old(self)@.num_envs as nat, received));
        Ok(batch)
    }

    /// Shuts the engine down: waits until the pool has come to rest, after
    /// which no round can be opened any more. A round that is still open can
    /// be gathered afterwards. To be called before the simulators are closed.
    pub fn close(&mut self)
        requires
            old(self).wf(),
        ensures
            final(self).wf(),
            final(self)@ == (VecAtariView { closed: true, ..old(self)@ }),
    {
        drain_pool(&self.pool);
        self.closed = true;
    }
}

} // verus!

//! Topping up the accounts of a session's pools.
use crate::agents::{
    addresses_of, all_addresses, pool_models, pools_of, pools_of_class_are_complete,
    pools_of_class_keep_their_places, Address, AgentClass, AgentPool, AgentStore, PoolModel,
};
use crate::amount::{capped, threshold_is_a_tenth_above, top_up_threshold, Amount};
use vstd::prelude::*;

verus! {

/// One pass over several pools. The pools are funded one after the other,
/// because every transfer comes from the same funder account and concurrent
/// transfers would race its nonce. The pass ends at the first failure.
pub struct FundingPass {
    pools: Vec<AgentPool>,
    next: usize,
    error: Option<String>,
}

/// What is left of a [`FundingPass`], and the failure that ended it.
pub struct PassModel {
    pub rest: Seq<PoolModel>,
    pub error: Option<Seq<char>>,
}

impl PassModel {
    /// The pool to fund now.
    pub open spec fn pending(self) -> Option<PoolModel> {
        if self.error is None && self.rest.len() > 0 {
            Some(self.rest[0])
        } else {
            None
        }
    }

    /// The pass after the pending pool was funded, or failed with an error.
    pub open spec fn reported(self, answer: Option<Seq<char>>) -> PassModel {
        if self.pending() is None {
            self
        } else {
            match answer {
                None => PassModel { rest: self.rest.drop_first(), error: None },
                Some(e) => PassModel { rest: self.rest, error: Some(e) },
            }
        }
    }

    /// The pass after each of `answers` was reported.
    pub open spec fn reported_all(self, answers: Seq<Option<Seq<char>>>) -> PassModel
        decreases answers.len(),
    {
        if answers.len() == 0 {
            self
        } else {
            self.reported_all(answers.drop_last()).reported(answers.last())
        }
    }
}

impl FundingPass {
    /// The pass is within its list of pools.
    pub closed spec fn wf(&self) -> bool {
        self.next <= self.pools@.len()
    }

    /// Plans to fund each of `pools`, in order.
    pub fn new(pools: Vec<AgentPool>) -> (pass: Self)
        ensures
            pass.wf(),
            pass@ == (PassModel { rest: pool_models(pools@), error: None }),
    {
        let pass = FundingPass { pools, next: 0, error: None };
        assert(pass@.rest =~= pool_models(pools@));
        pass
    }

    /// Returns the pool to fund now; none when the pass is over.
    pub fn pending(&self) -> (pool: Option<&AgentPool>)
        requires
            self.wf(),
        ensures
            match pool {
                Some(p) => self@.pending() == Some(p@),
                None => self@.pending() is None,
            },
    {
        if self.error.is_none() && self.next < self.pools.len() {
            Some(&self.pools[self.next])
        } else {
            None
        }
    }

    /// Notes how funding the pending pool went: `None` when it was funded, and
    /// otherwise the error.
    pub fn report(&mut self, answer: Option<String>)
        requires
            old(self).wf(),
        ensures
            final(self).wf(),
            final(self)@ == old(self)@.reported(
                match answer {
                    Some(e) => Some(e@),
                    None => None,
                },
            ),
    {
        if self.error.is_none() && self.next < self.pools.len() {
            match answer {
                None => {
                    self.next = self.next + 1;
                    assert(self@.rest =~= old(self)@.rest.drop_first());
                },
                Some(e) => {
                    self.error = Some(e);
                },
            }
        }
    }

    /// Ends the pass with the failure that stopped it, if there was one.
    pub fn finish(self) -> (outcome: Result<(), String>)
        ensures
            match outcome {
                Ok(()) => self@.error is None,
                Err(e) => self@.error == Some(e@),
            },
    {
        match self.error {
            Some(e) => Err(e),
            None => Ok(()),
        }
    }
}

impl View for FundingPass {
    type V = PassModel;

    closed spec fn view(&self) -> PassModel {
        PassModel {
            rest: pool_models(self.pools@).skip(self.next as int),
            error: match self.error {
                Some(e) => Some(e@),
                None => None,
            },
        }
    }
}

/// A pass whose transfers all succeed funds every pool in order and ends
/// without an error.
pub proof fn pass_funds_every_pool(pools: Seq<PoolModel>, answers: Seq<Option<Seq<char>>>)
    requires
        answers.len() <= pools.len(),
        forall|i: int| 0 <= i < answers.len() ==> answers[i] is None,
    ensures
        ({
            let start = PassModel { rest: pools, error: None };
            &&& start.reported_all(answers) == PassModel {
                rest: pools.skip(answers.len() as int),
                error: None,
            }
            &&& answers.len() < pools.len() ==> start.reported_all(answers).pending() == Some(
                pools[answers.len() as int],
            )
            &&& answers.len() == pools.len() ==> start.reported_all(answers).pending() is None
        }),
    decreases answers.len(),
{
    if answers.len() == 0 {
        assert(pools.skip(0) =~= pools);
    } else {
        pass_funds_every_pool(pools, answers.drop_last());
        assert(pools.skip(answers.len() - 1).drop_first() =~= pools.skip(answers.len() as int));
    }
}

/// The first failure ends a pass: the error is kept, and whatever is reported
/// afterwards, no further pool is funded.
pub proof fn pass_stops_at_first_failure(
    pools: Seq<PoolModel>,
    funded: Seq<Option<Seq<char>>>,
    error: Seq<char>,
    later: Seq<Option<Seq<char>>>,
)
    requires
        funded.len() < pools.len(),
        forall|i: int| 0 <= i < funded.len() ==> funded[i] is None,
    ensures
        ({
            let start = PassModel { rest: pools, error: None };
            let end = start.reported_all(funded.push(Some(error)) + later);
            end.error == Some(error) && end.pending() is None
        }),
    decreases later.len(),
{
    let start = PassModel { rest: pools, error: None };
    if later.len() == 0 {
        pass_funds_every_pool(pools, funded);
        let answers = funded.push(Some(error));
        assert(answers + later =~= answers);
        assert(answers.drop_last() =~= funded);
    } else {
        pass_stops_at_first_failure(pools, funded, error, later.drop_last());
        let answers = funded.push(Some(error)) + later;
        assert(answers.drop_last() =~= funded.push(Some(error)) + later.drop_last());
    }
}

/// Where the background funding of a run stands.
#[derive(Clone, Copy, Debug, PartialEq, Eq, Structural)]
enum FundingPhase {
    Waiting,
    Checking,
    Funding,
    Exited,
}

/// What the background funding is told.
pub enum FundingEvent {
    /// The spam loop has finished a batch.
    BatchDone,
    /// The spam loop is gone.
    SignalsClosed,
    /// The run was cancelled.
    Cancelled,
    /// The balance that was asked for.
    Balance(Amount),
    /// The balance that was asked for could not be read.
    BalanceFailed,
    /// The pool was funded.
    Funded,
    /// The pool could not be funded.
    FundFailed,
}

/// What the background funding does next.
pub enum FundingAction {
    /// Wait for the spam loop or for cancellation.
    AwaitSignal,
    /// Ask for the balance of an account.
    QueryBalance(Address),
    /// Fund the accounts of a pool with `amount`.
    FundPool { pool: AgentPool, amount: Amount },
    /// Stop.
    Exit,
}

/// What a [`FundingEvent`] tells.
pub enum EventModel {
    BatchDone,
    SignalsClosed,
    Cancelled,
    Balance(nat),
    BalanceFailed,
    Funded,
    FundFailed,
}

/// What a [`FundingAction`] asks for.
pub enum ActionModel {
    AwaitSignal,
    QueryBalance(Address),
    FundPool { pool: PoolModel, amount: nat },
    Exit,
}

impl View for FundingEvent {
    type V = EventModel;

    open spec fn view(&self) -> EventModel {
        match self {
            FundingEvent::BatchDone => EventModel::BatchDone,
            FundingEvent::SignalsClosed => EventModel::SignalsClosed,
            FundingEvent::Cancelled => EventModel::Cancelled,
            FundingEvent::Balance(balance) => EventModel::Balance(balance@),
            FundingEvent::BalanceFailed => EventModel::BalanceFailed,
            FundingEvent::Funded => EventModel::Funded,
            FundingEvent::FundFailed => EventModel::FundFailed,
        }
    }
}

impl View for FundingAction {
    type V = ActionModel;

    open spec fn view(&self) -> ActionModel {
        match self {
            FundingAction::AwaitSignal => ActionModel::AwaitSignal,
            FundingAction::QueryBalance(address) => ActionModel::QueryBalance(*address),
            FundingAction::FundPool { pool, amount } => ActionModel::FundPool {
                pool: pool@,
                amount: amount@,
            },
            FundingAction::Exit => ActionModel::Exit,
        }
    }
}

/// The phases of the background funding, with what is left to do in each.
pub enum PhaseModel {
    Waiting,
    Checking(Seq<Address>),
    Funding(Seq<PoolModel>),
    Exited,
}

/// The background funding of a run: the spammer pools, the balance that each
/// account should hold, and the phase.
pub struct LoopModel {
    pub pools: Seq<PoolModel>,
    pub min_balance: nat,
    pub phase: PhaseModel,
}

impl LoopModel {
    /// The background funding at its start.
    pub open spec fn start(store: Seq<PoolModel>, min_balance: nat) -> LoopModel {
        LoopModel {
            pools: pools_of(store, AgentClass::Spammer),
            min_balance,
            phase: PhaseModel::Waiting,
        }
    }

    /// Whether `balance` calls for funding: it has dropped to within 10% of the
    /// minimum.
    pub open spec fn is_low(self, balance: nat) -> bool {
        balance <= top_up_threshold(self.min_balance)
    }

    /// Going on to check the accounts in `rest`.
    pub open spec fn checking(rest: Seq<Address>) -> PhaseModel {
        if rest.len() == 0 {
            PhaseModel::Waiting
        } else {
            PhaseModel::Checking(rest)
        }
    }

    /// Going on to fund the pools in `rest`.
    pub open spec fn funding(rest: Seq<PoolModel>) -> PhaseModel {
        if rest.len() == 0 {
            PhaseModel::Waiting
        } else {
            PhaseModel::Funding(rest)
        }
    }

    /// The phase after `event`. An event that does not answer the pending
    /// action changes nothing.
    pub open spec fn next_phase(self, event: EventModel) -> PhaseModel {
        match (self.phase, event) {
            (PhaseModel::Waiting, EventModel::BatchDone) => Self::checking(
                addresses_of(self.pools),
            ),
            (PhaseModel::Waiting, EventModel::SignalsClosed) => PhaseModel::Exited,
            (PhaseModel::Waiting, EventModel::Cancelled) => PhaseModel::Exited,
            (PhaseModel::Checking(rest), EventModel::Balance(balance)) => if self.is_low(balance) {
                Self::funding(self.pools)
            } else {
                Self::checking(rest.drop_first())
            },
            (PhaseModel::Checking(rest), EventModel::BalanceFailed) => Self::checking(
                rest.drop_first(),
            ),
            (PhaseModel::Funding(rest), EventModel::Funded) => Self::funding(rest.drop_first()),
            (PhaseModel::Funding(_), EventModel::FundFailed) => PhaseModel::Waiting,
            _ => self.phase,
        }
    }

    /// The background funding after `event`.
    pub open spec fn after(self, event: EventModel) -> LoopModel {
        LoopModel { phase: self.next_phase(event), ..self }
    }

    /// The pending action.
    pub open spec fn action(self) -> ActionModel {
        match self.phase {
            PhaseModel::Waiting => ActionModel::AwaitSignal,
            PhaseModel::Checking(rest) => ActionModel::QueryBalance(rest[0]),
            PhaseModel::Funding(rest) => ActionModel::FundPool {
                pool: rest[0],
                amount: self.min_balance,
            },
            PhaseModel::Exited => ActionModel::Exit,
        }
    }

    /// What is left to check or to fund is never nothing.
    pub open spec fn wf(self) -> bool {
        match self.phase {
            PhaseModel::Checking(rest) => rest.len() > 0,
            PhaseModel::Funding(rest) => rest.len() > 0,
            _ => true,
        }
    }
}

/// Listens for "batch done" signals and funds the spammer accounts when the
/// balance of one has dropped to within 10% of `min_balance`.
pub struct FundingLoop {
    pools: Vec<AgentPool>,
    addresses: Vec<Address>,
    min_balance: Amount,
    threshold: Amount,
    phase: FundingPhase,
    next: usize,
}

impl View for FundingLoop {
    type V = LoopModel;

    closed spec fn view(&self) -> LoopModel {
        LoopModel {
            pools: pool_models(self.pools@),
            min_balance: self.min_balance@,
            phase: match self.phase {
                FundingPhase::Waiting => PhaseModel::Waiting,
                FundingPhase::Checking => PhaseModel::Checking(
                    self.addresses@.skip(self.next as int),
                ),
                FundingPhase::Funding => PhaseModel::Funding(
                    pool_models(self.pools@).skip(self.next as int),
                ),
                FundingPhase::Exited => PhaseModel::Exited,
            },
        }
    }
}

impl FundingLoop {
    /// The fields fit together, and something is left to do in a phase that
    /// works through a list.
    pub closed spec fn wf(&self) -> bool {
        &&& self.addresses@ == addresses_of(pool_models(self.pools@))
        &&& self.threshold@ == capped(top_up_threshold(self.min_balance@))
        &&& self.phase == FundingPhase::Checking ==> self.next < self.addresses@.len()
        &&& self.phase == FundingPhase::Funding ==> self.next < self.pools@.len()
    }

    /// Watches every spammer pool of `store`, not just the first: a
    /// priority-ratio run has two.
    pub fn new(store: &AgentStore, min_balance: Amount) -> (funding: Self)
        ensures
            funding.wf(),
            funding@ == LoopModel::start(store@, min_balance@),
            funding@.pools == pools_of(store@, AgentClass::Spammer),
            funding@.min_balance == min_balance@,
            funding@.phase == PhaseModel::Waiting,
    {
        let pools = store.pools_of_class(AgentClass::Spammer);
        let addresses = all_addresses(&pools);
        FundingLoop {
            pools,
            addresses,
            min_balance,
            threshold: min_balance.top_up_threshold(),
            phase: FundingPhase::Waiting,
            next: 0,
        }
    }

    /// Returns what to do next.
    pub fn action(&self) -> (action: FundingAction)
        requires
            self.wf(),
        ensures
            action@ == self@.action(),
    {
        match self.phase {
            FundingPhase::Waiting => FundingAction::AwaitSignal,
            FundingPhase::Checking => FundingAction::QueryBalance(self.addresses[self.next]),
            FundingPhase::Funding => FundingAction::FundPool {
                pool: self.pools[self.next].clone(),
                amount: self.min_balance,
            },
            FundingPhase::Exited => FundingAction::Exit,
        }
    }

    fn check_next(&mut self)
        requires
            old(self).wf(),
            old(self).phase == FundingPhase::Checking,
        ensures
            final(self).wf(),
            final(self)@ == (LoopModel {
                phase: LoopModel::checking(
                    old(self).addresses@.skip(old(self).next as int).drop_first(),
                ),
                ..old(self)@
            }),
    {
        let count = self.addresses.len();
        self.next = self.next + 1;
        assert(self.addresses@.skip(self.next as int) =~= old(self).addresses@.skip(
            old(self).next as int,
        ).drop_first());
        if self.next == count {
            self.phase = FundingPhase::Waiting;
        }
    }

    fn start_funding(&mut self)
        requires
            old(self).wf(),
        ensures
            final(self).wf(),
            final(self)@ == (LoopModel {
                phase: LoopModel::funding(old(self)@.pools),
                ..old(self)@
            }),
    {
        if self.pools.len() == 0 {
            self.phase = FundingPhase::Waiting;
        } else {
            self.phase = FundingPhase::Funding;
            self.next = 0;
            assert(pool_models(self.pools@).skip(0) =~= pool_models(self.pools@));
        }
    }

    /// Takes in an event and returns what to do next.
    pub fn step(&mut self, event: FundingEvent) -> (action: FundingAction)
        requires
            old(self).wf(),
        ensures
            final(self).wf(),
            final(self)@ == old(self)@.after(event@),
            action@ == final(self)@.action(),
    {
        match (self.phase, event) {
            (FundingPhase::Waiting, FundingEvent::BatchDone) => {
                if self.addresses.len() > 0 {
                    self.phase = FundingPhase::Checking;
                    self.next = 0;
                    assert(self.addresses@.skip(0) =~= self.addresses@);
                }
            },
            (FundingPhase::Waiting, FundingEvent::SignalsClosed) => {
                self.phase = FundingPhase::Exited;
            },
            (FundingPhase::Waiting, FundingEvent::Cancelled) => {
                self.phase = FundingPhase::Exited;
            },
            (FundingPhase::Checking, FundingEvent::Balance(balance)) => {
                proof {
                    threshold_is_a_tenth_above(self.min_balance@, balance);
                }
                if !self.threshold.is_below(&balance) {
                    self.start_funding();
                } else {
                    self.check_next();
                }
            },
            (FundingPhase::Checking, FundingEvent::BalanceFailed) => {
                self.check_next();
            },
            (FundingPhase::Funding, FundingEvent::Funded) => {
                let count = self.pools.len();
                self.next = self.next + 1;
                assert(pool_models(self.pools@).skip(self.next as int) =~= pool_models(
                    old(self).pools@,
                ).skip(old(self).next as int).drop_first());
                if self.next == count {
                    self.phase = FundingPhase::Waiting;
                }
            },
            (FundingPhase::Funding, FundingEvent::FundFailed) => {
                self.phase = FundingPhase::Waiting;
            },
            _ => {},
        }
        self.action()
    }
}

impl LoopModel {
    /// The background funding after each of `events`.
    pub open spec fn after_all(self, events: Seq<EventModel>) -> LoopModel
        decreases events.len(),
    {
        if events.len() == 0 {
            self
        } else {
            self.after_all(events.drop_last()).after(events.last())
        }
    }

    /// The events of a round in which the queries were answered by `answers`;
    /// `None` stands for a balance that could not be read.
    pub open spec fn round(answers: Seq<Option<nat>>) -> Seq<EventModel> {
        seq![EventModel::BatchDone] + answers.map_values(
            |answer: Option<nat>|
                match answer {
                    Some(balance) => EventModel::Balance(balance),
                    None => EventModel::BalanceFailed,
                },
        )
    }

    /// No answer is a low balance.
    pub open spec fn none_low(self, answers: Seq<Option<nat>>) -> bool {
        forall|i: int|
            0 <= i < answers.len() ==> (#[trigger] answers[i] matches Some(balance)
                ==> !self.is_low(balance))
    }

    /// A balance is low if and only if it is at most a tenth above the minimum.
    /// One that has reached the minimum, or is below it, is always low.
    pub proof fn low_is_within_a_tenth_of_the_minimum(self, balance: nat)
        ensures
            self.is_low(balance) <==> 10 * balance <= 11 * self.min_balance,
            balance <= self.min_balance ==> self.is_low(balance),
    {
    }

    /// While no balance is low, a round asks for the balance of one account
    /// after the other, over all spammer pools, skipping those that cannot be
    /// read; when every account was asked for, it waits again, and nothing was
    /// funded.
    pub proof fn quiet_round_checks_every_account(self, answers: Seq<Option<nat>>)
        requires
            self.phase == PhaseModel::Waiting,
            answers.len() <= addresses_of(self.pools).len(),
            self.none_low(answers),
        ensures
            self.after_all(Self::round(answers)) == (LoopModel {
                phase: Self::checking(addresses_of(self.pools).skip(answers.len() as int)),
                ..self
            }),
            answers.len() < addresses_of(self.pools).len() ==> self.after_all(
                Self::round(answers),
            ).action() == ActionModel::QueryBalance(
                addresses_of(self.pools)[answers.len() as int],
            ),
            answers.len() == addresses_of(self.pools).len() ==> self.after_all(
                Self::round(answers),
            ) == self,
        decreases answers.len(),
    {
        let all = addresses_of(self.pools);
        let events = Self::round(answers);
        if answers.len() == 0 {
            assert(events =~= seq![EventModel::BatchDone]);
            assert(events.drop_last() =~= Seq::empty());
            assert(self.after_all(Seq::empty()) == self);
            assert(all.skip(0) =~= all);
        } else {
            let front = answers.drop_last();
            assert(self.none_low(front)) by {
                assert forall|i: int| 0 <= i < front.len() implies (#[trigger] front[i] matches Some(
                    balance,
                ) ==> !self.is_low(balance)) by {
                    assert(front[i] == answers[i]);
                }
            }
            self.quiet_round_checks_every_account(front);
            assert(events.drop_last() =~= Self::round(front));
            assert(events.last() == match answers.last() {
                Some(balance) => EventModel::Balance(balance),
                None => EventModel::BalanceFailed,
            });
            assert(answers[answers.len() - 1] == answers.last());
            assert(all.skip(answers.len() - 1).drop_first() =~= all.skip(answers.len() as int));
        }
    }

    /// The first low balance of a round starts the funding of every spammer
    /// pool, the first of them first, each with the minimum balance.
    pub proof fn low_balance_funds_every_pool(self, answers: Seq<Option<nat>>, balance: nat)
        requires
            self.phase == PhaseModel::Waiting,
            answers.len() < addresses_of(self.pools).len(),
            self.none_low(answers),
            self.is_low(balance),
        ensures
            self.pools.len() > 0,
            self.after_all(Self::round(answers.push(Some(balance)))) == (LoopModel {
                phase: PhaseModel::Funding(self.pools),
                ..self
            }),
            self.after_all(Self::round(answers.push(Some(balance)))).action()
                == (ActionModel::FundPool { pool: self.pools[0], amount: self.min_balance }),
    {
        self.quiet_round_checks_every_account(answers);
        let events = Self::round(answers.push(Some(balance)));
        assert(events.drop_last() =~= Self::round(answers));
        assert(events.last() == EventModel::Balance(balance));
    }

    /// Once funding has started, the pools are funded one after the other, each
    /// once; when the last is funded, the loop waits again.
    pub proof fn funding_goes_through_the_pools(self, funded: nat)
        requires
            self.phase == PhaseModel::Funding(self.pools),
            funded <= self.pools.len(),
        ensures
            self.after_all(Seq::new(funded, |i: int| EventModel::Funded)) == (LoopModel {
                phase: if funded == 0 {
                    self.phase
                } else {
                    Self::funding(self.pools.skip(funded as int))
                },
                ..self
            }),
            0 < funded < self.pools.len() ==> self.after_all(
                Seq::new(funded, |i: int| EventModel::Funded),
            ).action() == (ActionModel::FundPool {
                pool: self.pools[funded as int],
                amount: self.min_balance,
            }),
        decreases funded,
    {
        let events = Seq::new(funded, |i: int| EventModel::Funded);
        if funded > 0 {
            let before = (funded - 1) as nat;
            self.funding_goes_through_the_pools(before);
            assert(events.drop_last() =~= Seq::new(before, |i: int| EventModel::Funded));
            assert(self.pools.skip(0) =~= self.pools);
            assert(self.pools.skip(before as int).drop_first() =~= self.pools.skip(funded as int));
        }
    }

    /// Funding starts on one occasion only: when a balance that was asked for
    /// turns out low.
    pub proof fn only_a_low_balance_starts_funding(self, event: EventModel)
        requires
            !(self.phase is Funding),
            self.after(event).phase is Funding,
        ensures
            self.phase is Checking,
            event matches EventModel::Balance(balance) && self.is_low(balance),
    {
    }

    /// A failed transfer ends the round, and nothing but the next batch starts
    /// another one.
    pub proof fn failed_funding_waits_for_the_next_batch(self, event: EventModel)
        requires
            self.phase is Funding,
        ensures
            self.after(EventModel::FundFailed).phase == PhaseModel::Waiting,
            event != EventModel::BatchDone ==> !(self.after(EventModel::FundFailed).after(
                event,
            ).phase is Checking || self.after(EventModel::FundFailed).after(
                event,
            ).phase is Funding),
    {
    }

    /// The loop exits when the run is cancelled or the spam loop is gone, as
    /// soon as it waits, and never takes up work again.
    pub proof fn exit_is_final(self, events: Seq<EventModel>)
        requires
            self.phase == PhaseModel::Waiting,
        ensures
            self.after(EventModel::Cancelled).after_all(events).action() == ActionModel::Exit,
            self.after(EventModel::SignalsClosed).after_all(events).action() == ActionModel::Exit,
            self.after(EventModel::Cancelled).after_all(events).phase == PhaseModel::Exited,
            self.after(EventModel::SignalsClosed).after_all(events).phase == PhaseModel::Exited,
        decreases events.len(),
    {
        if events.len() > 0 {
            self.exit_is_final(events.drop_last());
        }
    }

    /// No event changes the pools or the minimum balance, and a phase that works
    /// through a list always has something left to do.
    pub proof fn events_keep_the_setup(self, event: EventModel)
        requires
            self.wf(),
        ensures
            self.after(event).wf(),
            self.after(event).pools == self.pools,
            self.after(event).min_balance == self.min_balance,
    {
    }
}

impl PassModel {
    /// A pass asks for the first pool that is left, until it has failed or none
    /// is left. A pool that was funded is taken off; a failure is kept, and takes
    /// nothing off. When nothing is asked for, a report changes nothing.
    pub proof fn pass_takes_the_pools_off(self, error: Seq<char>)
        ensures
            self.pending() is Some <==> self.error is None && self.rest.len() > 0,
            self.pending() matches Some(pool) ==> {
                &&& pool == self.rest[0]
                &&& self.reported(None).error is None
                &&& seq![pool] + self.reported(None).rest == self.rest
                &&& self.reported(Some(error)).error == Some(error)
                &&& self.reported(Some(error)).rest == self.rest
            },
            self.pending() is None ==> self.reported(None) == self && self.reported(Some(error))
                == self,
    {
        if self.pending() is Some {
            assert(seq![self.rest[0]] + self.rest.drop_first() =~= self.rest);
        }
    }

    /// Reporting several answers is reporting all but the last, and then the last.
    pub proof fn reports_add_up(self, answers: Seq<Option<Seq<char>>>, last: Option<Seq<char>>)
        ensures
            self.reported_all(Seq::empty()) == self,
            self.reported_all(answers.push(last)) == self.reported_all(answers).reported(last),
    {
        assert(answers.push(last).drop_last() =~= answers);
    }
}

/// The models of events and actions leave nothing out: they tell the variants
/// apart, and hold the balance, the address, the pool and the amount.
pub proof fn funding_models_are_faithful(event: FundingEvent, action: FundingAction)
    ensures
        match event {
            FundingEvent::BatchDone => event@ == EventModel::BatchDone,
            FundingEvent::SignalsClosed => event@ == EventModel::SignalsClosed,
            FundingEvent::Cancelled => event@ == EventModel::Cancelled,
            FundingEvent::Balance(balance) => event@ == EventModel::Balance(balance@),
            FundingEvent::BalanceFailed => event@ == EventModel::BalanceFailed,
            FundingEvent::Funded => event@ == EventModel::Funded,
            FundingEvent::FundFailed => event@ == EventModel::FundFailed,
        },
        match action {
            FundingAction::AwaitSignal => action@ == ActionModel::AwaitSignal,
            FundingAction::QueryBalance(address) => action@ == ActionModel::QueryBalance(address),
            FundingAction::FundPool { pool, amount } => action@ == (ActionModel::FundPool {
                pool: pool@,
                amount: amount@,
            }),
            FundingAction::Exit => action@ == ActionModel::Exit,
        },
{
}

impl LoopModel {
    /// A new loop watches a pool if and only if the store holds it and it is a
    /// spammer pool, as often as the store has it and in the store's order:
    /// `places` are rising, the pool at each of them is watched, and every place
    /// of a spammer pool is among them. It keeps the given minimum, and waits.
    pub proof fn loop_watches_every_spammer_pool(
        store: Seq<PoolModel>,
        min_balance: nat,
        pool: PoolModel,
    ) -> (places: Seq<int>)
        ensures
            ({
                let start = LoopModel::start(store, min_balance);
                &&& start.min_balance == min_balance
                &&& start.action() == ActionModel::AwaitSignal
                &&& start.pools.contains(pool) <==> store.contains(pool) && pool.agent_class
                    == AgentClass::Spammer
                &&& places.len() == start.pools.len()
                &&& forall|k: int|
                    0 <= k < places.len() ==> {
                        &&& 0 <= #[trigger] places[k] < store.len()
                        &&& start.pools[k] == store[places[k]]
                    }
                &&& forall|j: int, k: int| 0 <= j < k < places.len() ==> places[j] < places[k]
                &&& forall|i: int|
                    0 <= i < store.len() && (#[trigger] store[i]).agent_class
                        == AgentClass::Spammer ==> places.contains(i)
            }),
    {
        pools_of_class_are_complete(store, AgentClass::Spammer, pool);
        pools_of_class_keep_their_places(store, AgentClass::Spammer)
    }

    /// The action is the first thing that is left to do: the next account to ask
    /// for, or the next pool to fund, with the minimum balance.
    pub proof fn action_is_the_next_thing_to_do(self)
        ensures
            match self.phase {
                PhaseModel::Waiting => self.action() == ActionModel::AwaitSignal,
                PhaseModel::Checking(rest) => self.action() == ActionModel::QueryBalance(rest[0]),
                PhaseModel::Funding(rest) => self.action() == (ActionModel::FundPool {
                    pool: rest[0],
                    amount: self.min_balance,
                }),
                PhaseModel::Exited => self.action() == ActionModel::Exit,
            },
    {
    }

    /// A loop that waits takes up all the accounts of its pools when a batch is
    /// done, if there are any, and ends when the run is cancelled or gone.
    pub proof fn batch_starts_the_checks(self)
        requires
            self.phase == PhaseModel::Waiting,
        ensures
            addresses_of(self.pools).len() == 0 ==> self.after(EventModel::BatchDone).phase
                == PhaseModel::Waiting,
            addresses_of(self.pools).len() > 0 ==> self.after(EventModel::BatchDone).phase
                == PhaseModel::Checking(addresses_of(self.pools)),
            self.after(EventModel::Cancelled).phase == PhaseModel::Exited,
            self.after(EventModel::SignalsClosed).phase == PhaseModel::Exited,
    {
    }

    /// A balance of at most a tenth above the minimum turns the loop to funding
    /// all of its pools. Any other answer takes the account off the list, and the
    /// loop waits when the list is empty.
    pub proof fn answer_decides_the_check(self, rest: Seq<Address>, balance: nat)
        requires
            self.phase == PhaseModel::Checking(rest),
            rest.len() > 0,
            self.pools.len() > 0,
        ensures
            10 * balance <= 11 * self.min_balance ==> self.after(
                EventModel::Balance(balance),
            ).phase == PhaseModel::Funding(self.pools),
            10 * balance > 11 * self.min_balance ==> self.after(
                EventModel::Balance(balance),
            ).phase == self.after(EventModel::BalanceFailed).phase,
            rest.len() == 1 ==> self.after(EventModel::BalanceFailed).phase == PhaseModel::Waiting,
            rest.len() > 1 ==> {
                &&& self.after(EventModel::BalanceFailed).phase matches PhaseModel::Checking(left)
                &&& seq![rest[0]] + left == rest
            },
    {
        assert(seq![rest[0]] + rest.drop_first() =~= rest);
    }

    /// A pool that was funded is taken off the list, and the loop waits when the
    /// list is empty. A transfer that failed sends it back to waiting at once.
    pub proof fn answer_decides_the_funding(self, rest: Seq<PoolModel>)
        requires
            self.phase == PhaseModel::Funding(rest),
            rest.len() > 0,
        ensures
            self.after(EventModel::FundFailed).phase == PhaseModel::Waiting,
            rest.len() == 1 ==> self.after(EventModel::Funded).phase == PhaseModel::Waiting,
            rest.len() > 1 ==> {
                &&& self.after(EventModel::Funded).phase matches PhaseModel::Funding(left)
                &&& seq![rest[0]] + left == rest
            },
    {
        assert(seq![rest[0]] + rest.drop_first() =~= rest);
    }

    /// An event that does not answer what the loop has asked for changes nothing.
    pub proof fn stray_event_changes_nothing(self, event: EventModel)
        requires
            match self.phase {
                PhaseModel::Waiting => !(event is BatchDone) && !(event is Cancelled) && !(
                event is SignalsClosed),
                PhaseModel::Checking(_) => !(event is Balance) && !(event is BalanceFailed),
                PhaseModel::Funding(_) => !(event is Funded) && !(event is FundFailed),
                PhaseModel::Exited => true,
            },
        ensures
            self.after(event) == self,
    {
    }

    /// Taking in several events is taking in all but the last, and then the last.
    /// A round is a batch and then one answer after the other.
    pub proof fn events_add_up(
        self,
        events: Seq<EventModel>,
        last: EventModel,
        answers: Seq<Option<nat>>,
        balance: nat,
    )
        ensures
            self.after_all(Seq::empty()) == self,
            self.after_all(events.push(last)) == self.after_all(events).after(last),
            Self::round(Seq::empty()) == seq![EventModel::BatchDone],
            Self::round(answers.push(Some(balance))) == Self::round(answers).push(
                EventModel::Balance(balance),
            ),
            Self::round(answers.push(None)) == Self::round(answers).push(
                EventModel::BalanceFailed,
            ),
    {
        assert(events.push(last).drop_last() =~= events);
        assert(Self::round(Seq::empty()) =~= seq![EventModel::BatchDone]);
        assert(Self::round(answers.push(Some(balance))) =~= Self::round(answers).push(
            EventModel::Balance(balance),
        ));
        assert(Self::round(answers.push(None)) =~= Self::round(answers).push(
            EventModel::BalanceFailed,
        ));
    }
}

} // verus!

//! The retry adapter.

use vstd::prelude::*;
use crate::error::Error;
use crate::delay::Delay;
use crate::model::{Phase, RetryView, Step};
use crate::strategy::{default_strategy, NewStrategy, Strategy, StrategyView};

verus! {

/// The retry adapter.
///
/// It holds at most one sink and forwards events to it. When the sink fails,
/// the adapter drops it, has a new one built and hands the same event to the
/// new sink, as often and after such delays as the retry strategy allows. When
/// the strategy runs out, the adapter gives up: the event is lost and an
/// error returned. The adapter survives that, and the next event makes it
/// reconnect with a fresh strategy.
///
/// The adapter does not sleep, build sinks or call them. Each operation
/// returns a [`Step`]; the caller does what the step says and reports the
/// outcome with [`Retry::constructed`] or [`Retry::delivered`], until a step
/// says that the operation has ended. Waiting blocks the caller, so an
/// adapter is best driven from a thread of its own. Every operation takes the
/// adapter by exclusive reference: callers that share an adapter put it
/// behind a lock and hold the lock for a whole operation.
pub struct Retry<Slave, FactoryError, SlaveError> {
    slave: Option<Slave>,
    strategy: NewStrategy,
    initialized: bool,
    phase: Phase,
    schedule: Strategy,
    drawn: Ghost<nat>,
    factory_error: Option<FactoryError>,
    slave_error: Option<SlaveError>,
}

impl<Slave, FactoryError, SlaveError> View for Retry<Slave, FactoryError, SlaveError> {
    type V = RetryView<Slave, FactoryError, SlaveError>;

    closed spec fn view(&self) -> RetryView<Slave, FactoryError, SlaveError> {
        RetryView {
            slave: self.slave,
            initialized: self.initialized,
            strategy: self.strategy@,
            phase: self.phase,
            drawn: self.drawn@,
            factory_error: self.factory_error,
            slave_error: self.slave_error,
        }
    }
}

/// What a strategy maker chosen at creation makes: its own strategies, or the
/// default ones where none was chosen.
pub open spec fn chosen_strategy(strategy: Option<NewStrategy>) -> StrategyView {
    match strategy {
        Some(maker) => maker@,
        None => default_strategy(),
    }
}

impl<Slave, FactoryError, SlaveError> Retry<Slave, FactoryError, SlaveError> {
    /// Whether the strategy held for the running campaign is what the model
    /// says is left of it.
    pub closed spec fn in_step(&self) -> bool {
        self.phase.in_campaign() ==> self.schedule@ == self.strategy@.skip(self.drawn@)
    }

    /// Whether the adapter is in a state that its operations keep up.
    pub open spec fn wf(&self) -> bool {
        &&& self.in_step()
        &&& self@.inv()
    }

    /// Creates a new retry adapter.
    ///
    /// * `strategy`: makes the retry strategy of each campaign; `None` stands
    ///   for the default strategy of four attempts with growing delays.
    /// * `connect_now`: whether to connect right away. If so, the step
    ///   returned asks for the first sink, and the campaign that follows may
    ///   give up. If not, the adapter connects when the first event comes.
    ///   Either way the first connection attempt is made without waiting.
    pub fn new<Accepted>(strategy: Option<NewStrategy>, connect_now: bool) -> (created: (
        Self,
        Step<Accepted, FactoryError, SlaveError>,
    ))
        ensures
            created.0.wf(),
            (created.0@, created.1) == RetryView::<Slave, FactoryError, SlaveError>::create::<
                Accepted,
            >(chosen_strategy(strategy), connect_now),
    {
        let strategy = match strategy {
            Some(maker) => maker,
            None => NewStrategy::default(),
        };
        let mut result = Retry {
            slave: None,
            strategy,
            initialized: false,
            phase: Phase::Idle,
            schedule: Strategy::new(Vec::new()),
            drawn: Ghost(0),
            factory_error: None,
            slave_error: None,
        };
        if connect_now {
            let step = result.begin_campaign(true);
            (result, step)
        } else {
            (result, Step::Ready)
        }
    }

    /// Begins the delivery of one event. Where the adapter holds a sink, the
    /// event goes to it; otherwise a reconnection campaign begins.
    pub fn log<Accepted>(&mut self) -> (step: Step<Accepted, FactoryError, SlaveError>)
        requires
            old(self).wf(),
            old(self)@.phase is Idle,
        ensures
            final(self).wf(),
            (final(self)@, step) == old(self)@.log::<Accepted>(),
    {
        if self.slave.is_some() {
            self.phase = Phase::Forwarding;
            Step::Deliver
        } else {
            self.begin_campaign(false)
        }
    }

    /// Takes the outcome of handing the event to the current sink, after a
    /// step [`Step::Deliver`].
    pub fn delivered<Accepted>(&mut self, result: Result<Accepted, SlaveError>) -> (step: Step<
        Accepted,
        FactoryError,
        SlaveError,
    >)
        requires
            old(self).wf(),
            old(self)@.phase.awaits_delivery(),
        ensures
            final(self).wf(),
            (final(self)@, step) == old(self)@.delivered(result),
    {
        match result {
            Ok(accepted) => {
                self.settle();
                Step::Delivered(accepted)
            },
            Err(error) => {
                self.slave = None;
                self.slave_error = Some(error);
                match self.phase {
                    Phase::Redelivering => {
                        self.phase = Phase::Reconnecting;
                        self.advance()
                    },
                    _ => self.begin_campaign(false),
                }
            },
        }
    }

    /// Takes the outcome of building a sink, after a step [`Step::Connect`].
    pub fn constructed<Accepted>(&mut self, result: Result<Slave, FactoryError>) -> (step: Step<
        Accepted,
        FactoryError,
        SlaveError,
    >)
        requires
            old(self).wf(),
            old(self)@.phase.awaits_sink(),
        ensures
            final(self).wf(),
            (final(self)@, step) == old(self)@.constructed::<Accepted>(result),
    {
        match result {
            Ok(slave) => {
                self.slave = Some(slave);
                match self.phase {
                    Phase::Opening => {
                        self.settle();
                        Step::Ready
                    },
                    _ => {
                        self.phase = Phase::Redelivering;
                        Step::Deliver
                    },
                }
            },
            Err(error) => {
                self.factory_error = Some(error);
                self.advance()
            },
        }
    }

    /// The sink that the adapter holds, if any. After a step
    /// [`Step::Deliver`] it is the sink that the event is meant for.
    pub fn current(&self) -> (slave: Option<&Slave>)
        ensures
            slave == match self@.slave {
                Some(held) => Some(&held),
                None => None,
            },
    {
        self.slave.as_ref()
    }

    /// What the adapter is waiting for.
    pub fn phase(&self) -> (phase: Phase)
        ensures
            phase == self@.phase,
    {
        self.phase
    }

    /// Whether a connection attempt was ever started on this adapter.
    pub fn initialized(&self) -> (initialized: bool)
        ensures
            initialized == self@.initialized,
    {
        self.initialized
    }

    /// Closes the running operation.
    fn settle(&mut self)
        ensures
            final(self)@ == old(self)@.settled(),
            final(self).in_step(),
    {
        self.phase = Phase::Idle;
        self.drawn = Ghost(0);
        self.factory_error = None;
        self.slave_error = None;
    }

    /// Starts a campaign with a fresh strategy and makes its first move.
    fn begin_campaign<Accepted>(&mut self, eager: bool) -> (step: Step<
        Accepted,
        FactoryError,
        SlaveError,
    >)
        ensures
            final(self).in_step(),
            (final(self)@, step) == old(self)@.begin_campaign::<Accepted>(eager),
    {
        self.schedule = self.strategy.fresh();
        self.drawn = Ghost(0);
        self.phase = if eager {
            Phase::Opening
        } else {
            Phase::Reconnecting
        };
        proof {
            self@.strategy.lemma_skip_skip(0, 0);
            assert(self@.strategy.skip(0) =~= self@.strategy);
        }
        if !self.initialized {
            self.initialized = true;
            Step::Connect(Delay::from_secs(0))
        } else {
            self.advance()
        }
    }

    /// Makes the next move of the running campaign.
    fn advance<Accepted>(&mut self) -> (step: Step<Accepted, FactoryError, SlaveError>)
        requires
            old(self).in_step(),
            old(self)@.phase.in_campaign(),
        ensures
            final(self).in_step(),
            (final(self)@, step) == old(self)@.advance::<Accepted>(),
    {
        proof {
            self@.strategy.lemma_skip_at(self@.drawn, 0);
            self@.strategy.lemma_skip_skip(self@.drawn, 1);
        }
        match self.schedule.next() {
            Some(delay) => {
                self.drawn = Ghost((self.drawn@ + 1) as nat);
                Step::Connect(delay)
            },
            None => {
                let error = Error {
                    factory: self.factory_error.take(),
                    slave: self.slave_error.take(),
                };
                self.slave = None;
                self.settle();
                Step::GaveUp(error)
            },
        }
    }
}

} // verus!

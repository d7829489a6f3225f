//! The adapter as a mathematical state machine.
//!
//! [`RetryView`] is what an adapter is to its contracts, and the functions on
//! it say, for every state and every outcome reported by the caller, what the
//! next state is and what the caller is told to do. The executable adapter is
//! proved to follow them step for step.

use vstd::prelude::*;
use crate::delay::Delay;
use crate::error::Error;
use crate::strategy::StrategyView;

verus! {

/// What the adapter is waiting for.
#[derive(Clone, Copy, Debug, PartialEq, Eq, Structural)]
pub enum Phase {
    /// No operation is under way.
    Idle,
    /// The adapter is being connected at its creation, and the caller is
    /// building a sink.
    Opening,
    /// The caller is handing an event to the sink that the adapter held when
    /// the event came in.
    Forwarding,
    /// The adapter is reconnecting for an event, and the caller is building a
    /// sink.
    Reconnecting,
    /// The caller is handing an event to a sink built for it in the running
    /// campaign.
    Redelivering,
}

impl Phase {
    /// Whether the adapter awaits the outcome of building a sink.
    pub open spec fn awaits_sink(self) -> bool {
        self is Opening || self is Reconnecting
    }

    /// Whether the adapter awaits the outcome of handing the event over.
    pub open spec fn awaits_delivery(self) -> bool {
        self is Forwarding || self is Redelivering
    }

    /// Whether a reconnection campaign is under way.
    pub open spec fn in_campaign(self) -> bool {
        self is Opening || self is Reconnecting || self is Redelivering
    }
}

/// What the adapter tells its caller after each operation: either what to do
/// next, or how the operation ended.
#[derive(Debug, PartialEq, Eq)]
pub enum Step<Accepted, FactoryError, SlaveError> {
    /// Wait for the delay, then build a sink and report the outcome with
    /// `constructed`.
    Connect(Delay),
    /// Hand the event to the current sink and report the outcome with
    /// `delivered`.
    Deliver,
    /// The adapter is set up: there is nothing more to do for now.
    Ready,
    /// A sink accepted the event and answered with the value held here.
    Delivered(Accepted),
    /// The campaign ran out of attempts. The event is lost and the adapter
    /// holds no sink, but it can be used again.
    GaveUp(Error<FactoryError, SlaveError>),
}

/// What happens to the adapter: a call of one of its operations with what
/// the caller reports in it.
pub enum Input<Slave, Accepted, FactoryError, SlaveError> {
    /// The adapter is told to connect at its creation.
    Open,
    /// An event comes in.
    Log,
    /// The caller has tried to build a sink.
    Constructed(Result<Slave, FactoryError>),
    /// The caller has handed the event to the current sink.
    Delivered(Result<Accepted, SlaveError>),
}

/// The adapter as its contracts see it.
pub struct RetryView<Slave, FactoryError, SlaveError> {
    /// The sink that the adapter holds, if any.
    pub slave: Option<Slave>,
    /// Whether a connection attempt was ever started, successful or not.
    pub initialized: bool,
    /// What every fresh strategy gives.
    pub strategy: StrategyView,
    /// What the adapter is waiting for.
    pub phase: Phase,
    /// How many delays the running campaign has taken from its strategy.
    pub drawn: nat,
    /// The last error of the factory in the running campaign.
    pub factory_error: Option<FactoryError>,
    /// The last error of a sink since the event came in.
    pub slave_error: Option<SlaveError>,
}

impl<Slave, FactoryError, SlaveError> RetryView<Slave, FactoryError, SlaveError> {
    /// The adapter that has never tried to connect.
    pub open spec fn fresh(strategy: StrategyView) -> Self {
        RetryView {
            slave: None,
            initialized: false,
            strategy,
            phase: Phase::Idle,
            drawn: 0,
            factory_error: None,
            slave_error: None,
        }
    }

    /// The adapter as a campaign that gave up leaves it: without a sink, with
    /// nothing under way and nothing kept of the campaign.
    pub open spec fn disconnected(strategy: StrategyView) -> Self {
        RetryView { initialized: true, ..Self::fresh(strategy) }
    }

    /// The state with the running operation closed and its errors forgotten.
    pub open spec fn settled(self) -> Self {
        RetryView {
            phase: Phase::Idle,
            drawn: 0,
            factory_error: None,
            slave_error: None,
            ..self
        }
    }

    /// What is left of the running campaign's strategy.
    pub open spec fn schedule(self) -> StrategyView {
        self.strategy.skip(self.drawn)
    }

    /// The number of sinks that the adapter holds.
    pub open spec fn sinks(self) -> nat {
        if self.slave is Some {
            1
        } else {
            0
        }
    }

    /// What holds of every state that the adapter reaches.
    pub open spec fn inv(self) -> bool {
        &&& self.slave is Some ==> self.initialized
        &&& self.phase.in_campaign() ==> self.initialized
        &&& self.phase.awaits_sink() ==> self.slave is None
        &&& self.phase.awaits_delivery() ==> self.slave is Some
        &&& !self.phase.in_campaign() ==> self.drawn == 0 && self.factory_error is None
        &&& self.phase is Idle ==> self.slave_error is None
        &&& self.phase is Forwarding ==> self.slave_error is None
        &&& self.phase is Opening ==> self.slave_error is None
    }

    /// The next attempt of the running campaign: the strategy's next delay
    /// is taken and the caller told to connect after it, or, where the
    /// strategy has ended, the campaign gives up with the last errors.
    pub open spec fn advance<Accepted>(self) -> (Self, Step<Accepted, FactoryError, SlaveError>) {
        match self.strategy.at(self.drawn) {
            Some(delay) => (RetryView { drawn: self.drawn + 1, ..self }, Step::Connect(delay)),
            None => (
                RetryView { slave: None, ..self }.settled(),
                Step::GaveUp(Error { factory: self.factory_error, slave: self.slave_error }),
            ),
        }
    }

    /// The start of a campaign with a fresh strategy: at creation where
    /// `eager`, for an event otherwise. The first attempt that the adapter
    /// ever makes comes without delay and before the strategy's delays; every
    /// other attempt waits as the strategy says.
    pub open spec fn begin_campaign<Accepted>(self, eager: bool) -> (
        Self,
        Step<Accepted, FactoryError, SlaveError>,
    ) {
        let phase = if eager {
            Phase::Opening
        } else {
            Phase::Reconnecting
        };
        let begun = RetryView { initialized: true, phase, drawn: 0, ..self };
        if !self.initialized {
            (begun, Step::Connect(Delay::zero()))
        } else {
            begun.advance()
        }
    }

    /// The creation of an adapter: it connects at once where `connect_now`,
    /// and otherwise waits for the first event.
    pub open spec fn create<Accepted>(strategy: StrategyView, connect_now: bool) -> (
        Self,
        Step<Accepted, FactoryError, SlaveError>,
    ) {
        if connect_now {
            Self::fresh(strategy).open()
        } else {
            (Self::fresh(strategy), Step::Ready)
        }
    }

    /// The connection at creation: a campaign that needs no event.
    pub open spec fn open<Accepted>(self) -> (Self, Step<Accepted, FactoryError, SlaveError>) {
        self.begin_campaign(true)
    }

    /// The arrival of an event: it goes to the sink that the adapter holds,
    /// or, where it holds none, a campaign begins.
    pub open spec fn log<Accepted>(self) -> (Self, Step<Accepted, FactoryError, SlaveError>) {
        if self.slave is Some {
            (RetryView { phase: Phase::Forwarding, ..self }, Step::Deliver)
        } else {
            self.begin_campaign(false)
        }
    }

    /// The outcome of handing the event to the current sink. On success the
    /// operation ends and the sink is kept. On failure the sink is dropped
    /// and its error kept; a campaign begins if none is under way, and the
    /// running one goes on with its own strategy otherwise.
    pub open spec fn delivered<Accepted>(self, result: Result<Accepted, SlaveError>) -> (
        Self,
        Step<Accepted, FactoryError, SlaveError>,
    ) {
        match result {
            Ok(accepted) => (self.settled(), Step::Delivered(accepted)),
            Err(error) => {
                let failed = RetryView { slave: None, slave_error: Some(error), ..self };
                if self.phase is Redelivering {
                    RetryView { phase: Phase::Reconnecting, ..failed }.advance()
                } else {
                    failed.begin_campaign(false)
                }
            },
        }
    }

    /// The outcome of building a sink. A new sink becomes the current one;
    /// that ends a connection at creation, and otherwise the event goes to
    /// the new sink. On failure the error is kept and the campaign goes on.
    pub open spec fn constructed<Accepted>(self, result: Result<Slave, FactoryError>) -> (
        Self,
        Step<Accepted, FactoryError, SlaveError>,
    ) {
        match result {
            Ok(slave) => {
                let connected = RetryView { slave: Some(slave), ..self };
                if self.phase is Opening {
                    (connected.settled(), Step::Ready)
                } else {
                    (RetryView { phase: Phase::Redelivering, ..connected }, Step::Deliver)
                }
            },
            Err(error) => RetryView { factory_error: Some(error), ..self }.advance(),
        }
    }

    /// Whether `input` may happen in this state: an adapter is opened only
    /// before it has ever tried to connect, an event comes in only while
    /// nothing is under way, and an outcome is reported only when the adapter
    /// has asked for it.
    pub open spec fn admits<Accepted>(
        self,
        input: Input<Slave, Accepted, FactoryError, SlaveError>,
    ) -> bool {
        match input {
            Input::Open => self.phase is Idle && !self.initialized,
            Input::Log => self.phase is Idle,
            Input::Constructed(_) => self.phase.awaits_sink(),
            Input::Delivered(_) => self.phase.awaits_delivery(),
        }
    }

    /// The next state and the step that the caller is given when `input`
    /// happens.
    pub open spec fn react<Accepted>(
        self,
        input: Input<Slave, Accepted, FactoryError, SlaveError>,
    ) -> (Self, Step<Accepted, FactoryError, SlaveError>) {
        match input {
            Input::Open => self.open(),
            Input::Log => self.log(),
            Input::Constructed(result) => self.constructed(result),
            Input::Delivered(result) => self.delivered(result),
        }
    }
}

} // verus!

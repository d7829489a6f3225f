//! What holds of the adapter over its whole life.
//!
//! A life of an adapter is a run: a state to begin with and the inputs that
//! follow. The laws here are stated of every run in which each input comes
//! when the adapter admits it, which is what the operations of
//! [`Retry`](crate::retry::Retry) ask of their callers.

use vstd::prelude::*;
use crate::delay::Delay;
use crate::error::Error;
use crate::model::{Input, Phase, RetryView, Step};
use crate::strategy::StrategyView;

verus! {

impl<Slave, FactoryError, SlaveError> RetryView<Slave, FactoryError, SlaveError> {
    /// The state after the inputs of `inputs`, in order.
    pub open spec fn after<Accepted>(
        self,
        inputs: Seq<Input<Slave, Accepted, FactoryError, SlaveError>>,
    ) -> Self
        decreases inputs.len(),
    {
        if inputs.len() == 0 {
            self
        } else {
            self.after(inputs.drop_last()).react(inputs.last()).0
        }
    }

    /// The state in which input `k` of the run arrives.
    pub open spec fn state_at<Accepted>(
        self,
        inputs: Seq<Input<Slave, Accepted, FactoryError, SlaveError>>,
        k: int,
    ) -> Self {
        self.after(inputs.take(k))
    }

    /// The step with which the adapter answers input `k` of the run.
    pub open spec fn step_at<Accepted>(
        self,
        inputs: Seq<Input<Slave, Accepted, FactoryError, SlaveError>>,
        k: int,
    ) -> Step<Accepted, FactoryError, SlaveError> {
        self.state_at(inputs, k).react(inputs[k]).1
    }

    /// Whether every input of the run comes when the adapter admits it.
    pub open spec fn admits_all<Accepted>(
        self,
        inputs: Seq<Input<Slave, Accepted, FactoryError, SlaveError>>,
    ) -> bool {
        forall|k: int|
            0 <= k < inputs.len() ==> (#[trigger] self.state_at(inputs, k)).admits(inputs[k])
    }

    /// Whether an answer to one of the first `k` inputs of the run asked for
    /// a connection attempt.
    pub open spec fn attempted_before<Accepted>(
        self,
        inputs: Seq<Input<Slave, Accepted, FactoryError, SlaveError>>,
        k: int,
    ) -> bool {
        exists|j: int| 0 <= j < k && (#[trigger] self.step_at(inputs, j)) is Connect
    }

    /// A new adapter is in a valid state. Created without connecting it has
    /// never tried to connect and asks for nothing; created with connecting
    /// it is the same adapter, opened.
    pub proof fn lemma_create_valid<Accepted>(strategy: StrategyView, connect_now: bool)
        ensures
            Self::create::<Accepted>(strategy, connect_now).0.inv(),
            Self::create::<Accepted>(strategy, connect_now).0.strategy == strategy,
            Self::fresh(strategy).inv(),
            Self::create::<Accepted>(strategy, false) == (
                Self::fresh(strategy),
                Step::<Accepted, FactoryError, SlaveError>::Ready,
            ),
            Self::fresh(strategy).admits(
                Input::<Slave, Accepted, FactoryError, SlaveError>::Open,
            ),
            Self::create::<Accepted>(strategy, true) == Self::fresh(strategy).react(
                Input::<Slave, Accepted, FactoryError, SlaveError>::Open,
            ),
            Self::create::<Accepted>(strategy, true).1 == Step::<
                Accepted,
                FactoryError,
                SlaveError,
            >::Connect(Delay::zero()),
    {
    }

    /// Every admitted input leaves the adapter in a valid state, with the
    /// strategy that it was created with, and never takes back that a
    /// connection attempt was started: that is noted when the first attempt
    /// is asked for, and stays.
    pub proof fn lemma_react_keeps_inv<Accepted>(
        self,
        input: Input<Slave, Accepted, FactoryError, SlaveError>,
    )
        requires
            self.inv(),
            self.admits(input),
        ensures
            self.react(input).0.inv(),
            self.react(input).0.strategy == self.strategy,
            self.react(input).0.initialized == (self.initialized || self.react(input).1 is Connect),
    {
    }

    /// The state in which an input arrives is the state that the input
    /// before it has left.
    pub proof fn lemma_state_at_next<Accepted>(
        self,
        inputs: Seq<Input<Slave, Accepted, FactoryError, SlaveError>>,
        k: int,
    )
        requires
            0 <= k < inputs.len(),
        ensures
            self.state_at(inputs, k + 1) == self.state_at(inputs, k).react(inputs[k]).0,
    {
        assert(inputs.take(k + 1).drop_last() =~= inputs.take(k));
        assert(inputs.take(k + 1).last() == inputs[k]);
    }

    /// The first input of a run arrives in the state that the run begins
    /// with, and the state after the last input is the state after the run.
    pub proof fn lemma_state_at_ends<Accepted>(
        self,
        inputs: Seq<Input<Slave, Accepted, FactoryError, SlaveError>>,
    )
        ensures
            self.state_at(inputs, 0) == self,
            self.state_at(inputs, inputs.len() as int) == self.after(inputs),
    {
        assert(inputs.take(0) =~= Seq::empty());
        assert(inputs.take(inputs.len() as int) =~= inputs);
    }

    /// Every state of an admitted run is valid and has the strategy of the
    /// first.
    pub proof fn lemma_run_keeps_inv<Accepted>(
        self,
        inputs: Seq<Input<Slave, Accepted, FactoryError, SlaveError>>,
        k: int,
    )
        requires
            self.inv(),
            self.admits_all(inputs),
            0 <= k <= inputs.len(),
        ensures
            self.state_at(inputs, k).inv(),
            self.state_at(inputs, k).strategy == self.strategy,
        decreases k,
    {
        if k > 0 {
            self.lemma_run_keeps_inv(inputs, k - 1);
            self.lemma_state_at_next(inputs, k - 1);
            self.state_at(inputs, k - 1).lemma_react_keeps_inv(inputs[k - 1]);
        } else {
            self.lemma_state_at_ends(inputs);
        }
    }

    /// At most one sink: however the adapter was driven, it holds one sink
    /// or none, and none while it has a new one built.
    pub proof fn lemma_at_most_one_sink<Accepted>(
        self,
        inputs: Seq<Input<Slave, Accepted, FactoryError, SlaveError>>,
    )
        requires
            self.inv(),
            self.admits_all(inputs),
        ensures
            self.after(inputs).sinks() <= 1,
            self.after(inputs).phase.awaits_sink() ==> self.after(inputs).sinks() == 0,
            self.after(inputs).phase.awaits_delivery() ==> self.after(inputs).sinks() == 1,
    {
        self.lemma_run_keeps_inv(inputs, inputs.len() as int);
        self.lemma_state_at_ends(inputs);
    }

    /// The adapter has noted a connection attempt exactly when the run began
    /// with one noted or an earlier answer asked for one.
    pub proof fn lemma_initialized_by_attempt<Accepted>(
        self,
        inputs: Seq<Input<Slave, Accepted, FactoryError, SlaveError>>,
        k: int,
    )
        requires
            self.inv(),
            self.admits_all(inputs),
            0 <= k <= inputs.len(),
        ensures
            self.state_at(inputs, k).initialized == (self.initialized || self.attempted_before(
                inputs,
                k,
            )),
        decreases k,
    {
        if k > 0 {
            self.lemma_initialized_by_attempt(inputs, k - 1);
            self.lemma_run_keeps_inv(inputs, k - 1);
            self.lemma_state_at_next(inputs, k - 1);
            let before = self.state_at(inputs, k - 1);
            before.lemma_react_keeps_inv(inputs[k - 1]);
            if self.attempted_before(inputs, k - 1) {
                let j = choose|j: int|
                    0 <= j < k - 1 && (#[trigger] self.step_at(inputs, j)) is Connect;
                assert(0 <= j < k && self.step_at(inputs, j) is Connect);
            }
            if self.step_at(inputs, k - 1) is Connect {
                assert(0 <= k - 1 < k && self.step_at(inputs, k - 1) is Connect);
            }
            if self.attempted_before(inputs, k) {
                let j = choose|j: int|
                    0 <= j < k && (#[trigger] self.step_at(inputs, j)) is Connect;
                if j < k - 1 {
                    assert(0 <= j < k - 1 && self.step_at(inputs, j) is Connect);
                }
            }
        } else {
            self.lemma_state_at_ends(inputs);
        }
    }

    /// No delay once: the first connection attempt of an adapter's life is
    /// asked for without delay and leaves the campaign's strategy untouched;
    /// every later attempt, in that campaign or another, is asked for with
    /// the delay that the strategy gives in the place that the campaign has
    /// come to.
    pub proof fn lemma_zero_delay_once<Accepted>(
        self,
        inputs: Seq<Input<Slave, Accepted, FactoryError, SlaveError>>,
        k: int,
    )
        requires
            self.inv(),
            self.admits_all(inputs),
            0 <= k < inputs.len(),
            self.step_at(inputs, k) is Connect,
        ensures
            ({
                let first = !self.initialized && !self.attempted_before(inputs, k);
                let before = self.state_at(inputs, k);
                let after = self.state_at(inputs, k + 1);
                let delay = self.step_at(inputs, k)->Connect_0;
                &&& first ==> delay == Delay::zero() && after.drawn == 0
                &&& !first ==> Some(delay) == self.strategy.at(before.drawn) && after.drawn
                    == before.drawn + 1
                &&& !before.phase.in_campaign() ==> before.drawn == 0
            }),
    {
        self.lemma_initialized_by_attempt(inputs, k);
        self.lemma_run_keeps_inv(inputs, k);
        self.lemma_state_at_next(inputs, k);
    }

    /// Giving up at once: where the strategy gives no delay at all, a failed
    /// attempt to build a sink ends the campaign there and then, with that
    /// failure in the error and no further attempt asked for.
    pub proof fn lemma_empty_strategy_gives_up<Accepted>(self, error: FactoryError)
        requires
            self.inv(),
            self.phase.awaits_sink(),
            self.strategy.is_exhausted(),
        ensures
            self.constructed::<Accepted>(Err(error)) == (
                Self::disconnected(self.strategy),
                Step::<Accepted, FactoryError, SlaveError>::GaveUp(
                    Error { factory: Some(error), slave: self.slave_error },
                ),
            ),
    {
    }

    /// Delivered once: the answer to a hand-over is never another hand-over
    /// to the same sink. A sink that accepts the event ends the operation and
    /// stays; a sink that fails is dropped.
    pub proof fn lemma_delivered_once<Accepted>(self, result: Result<Accepted, SlaveError>)
        requires
            self.inv(),
            self.phase.awaits_delivery(),
        ensures
            !(self.delivered(result).1 is Deliver),
            result matches Ok(accepted) ==> self.delivered(result) == (
                self.settled(),
                Step::<Accepted, FactoryError, SlaveError>::Delivered(accepted),
            ) && self.settled().slave == self.slave,
            result is Err ==> self.delivered(result).0.slave is None,
            self.delivered(result).1 is Delivered ==> result is Ok,
    {
    }

    /// A hand-over is asked for only when an event comes in while a sink is
    /// held, and then to that sink, or when a new sink has just been built
    /// for the event, and then to the new one.
    pub proof fn lemma_deliver_to_current<Accepted>(
        self,
        input: Input<Slave, Accepted, FactoryError, SlaveError>,
    )
        requires
            self.inv(),
            self.admits(input),
            self.react(input).1 is Deliver,
        ensures
            match input {
                Input::Log => self.slave is Some && self.react(input).0.slave == self.slave,
                Input::Constructed(Ok(slave)) => self.react(input).0.slave == Some(slave),
                _ => false,
            },
    {
    }

    /// Delivered once, in a run: after a hand-over was asked for, the next
    /// input is its outcome, and the answer to that is no second hand-over.
    /// If the sink accepted the event, the operation ends with the sink's
    /// answer and the sink stays; if it failed, the sink is gone.
    pub proof fn lemma_delivered_once_in_run<Accepted>(
        self,
        inputs: Seq<Input<Slave, Accepted, FactoryError, SlaveError>>,
        k: int,
    )
        requires
            self.inv(),
            self.admits_all(inputs),
            0 <= k,
            k + 1 < inputs.len(),
            self.step_at(inputs, k) is Deliver,
        ensures
            inputs[k + 1] is Delivered,
            !(self.step_at(inputs, k + 1) is Deliver),
            inputs[k + 1] matches Input::Delivered(Ok(accepted)) ==> self.step_at(inputs, k + 1)
                == Step::<Accepted, FactoryError, SlaveError>::Delivered(accepted)
                && self.state_at(inputs, k + 2).slave == self.state_at(inputs, k + 1).slave
                && self.state_at(inputs, k + 2).phase is Idle,
            inputs[k + 1] matches Input::Delivered(Err(_)) ==> self.state_at(
                inputs,
                k + 2,
            ).slave is None,
    {
        self.lemma_run_keeps_inv(inputs, k);
        self.lemma_run_keeps_inv(inputs, k + 1);
        self.lemma_state_at_next(inputs, k);
        self.lemma_state_at_next(inputs, k + 1);
        assert(self.state_at(inputs, k + 1).admits(inputs[k + 1]));
    }

    /// One strategy for a campaign: while a campaign runs, whatever happens
    /// either ends it or leaves it with the strategy that it began with. A
    /// step that asks for an attempt takes the strategy's next delay, and no
    /// other step takes any, however often sinks were built and failed in
    /// between.
    pub proof fn lemma_one_strategy_per_campaign<Accepted>(
        self,
        input: Input<Slave, Accepted, FactoryError, SlaveError>,
    )
        requires
            self.inv(),
            self.admits(input),
            self.phase.in_campaign(),
        ensures
            ({
                let (next, step) = self.react(input);
                &&& next.phase.in_campaign() || next.phase is Idle
                &&& next.phase is Idle ==> step is Ready || step is Delivered || step is GaveUp
                &&& step is GaveUp ==> self.strategy.at(self.drawn) is None
                &&& next.phase.in_campaign() ==> next.schedule() == self.schedule().skip(
                    if step is Connect {
                        1
                    } else {
                        0
                    },
                )
                &&& step matches Step::Connect(delay) ==> self.schedule().at(0) == Some(delay)
            }),
    {
        self.strategy.lemma_skip_skip(self.drawn, 1);
        self.strategy.lemma_skip_skip(self.drawn, 0);
        self.strategy.lemma_skip_at(self.drawn, 0);
    }

    /// Ready after giving up: a campaign that gives up leaves nothing
    /// behind. Whatever it met, the adapter is then without a sink and with
    /// nothing under way, and the next event starts a campaign of its own
    /// with the strategy from its beginning.
    pub proof fn lemma_ready_after_giving_up<Accepted>(
        self,
        input: Input<Slave, Accepted, FactoryError, SlaveError>,
    )
        requires
            self.inv(),
            self.admits(input),
            self.react(input).1 is GaveUp,
        ensures
            self.react(input).0 == Self::disconnected(self.strategy),
            self.react(input).0.admits(Input::<Slave, Accepted, FactoryError, SlaveError>::Log),
            self.react(input).0.log::<Accepted>() == match self.strategy.at(0) {
                Some(delay) => (
                    RetryView {
                        phase: Phase::Reconnecting,
                        drawn: 1,
                        ..Self::disconnected(self.strategy)
                    },
                    Step::<Accepted, FactoryError, SlaveError>::Connect(delay),
                ),
                None => (
                    Self::disconnected(self.strategy),
                    Step::<Accepted, FactoryError, SlaveError>::GaveUp(
                        Error { factory: None, slave: None },
                    ),
                ),
            },
    {
    }

    /// What the error of a campaign that gave up holds: the failure that
    /// ended it. After a failed attempt to build a sink that is the
    /// factory's error, with no error of a sink where the adapter was being
    /// opened; after a failed hand-over it is the sink's error. Only a
    /// campaign that could make no attempt at all gives an error that holds
    /// nothing.
    pub proof fn lemma_error_of_giving_up<Accepted>(
        self,
        input: Input<Slave, Accepted, FactoryError, SlaveError>,
    )
        requires
            self.inv(),
            self.admits(input),
            self.react(input).1 is GaveUp,
        ensures
            ({
                let error = self.react(input).1->GaveUp_0;
                match input {
                    Input::Open => false,
                    Input::Log => error == (Error::<FactoryError, SlaveError> {
                        factory: None,
                        slave: None,
                    }) && self.initialized && self.slave is None && self.strategy.is_exhausted(),
                    Input::Constructed(result) => result is Err && error.factory == Some(
                        result->Err_0,
                    ) && error.slave == self.slave_error && (self.phase is Opening
                        ==> error.slave is None),
                    Input::Delivered(result) => result is Err && error.slave == Some(
                        result->Err_0,
                    ) && error.factory == self.factory_error,
                }
            }),
    {
    }
}

} // verus!

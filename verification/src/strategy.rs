//! Retry strategies: the delays of one reconnection campaign.

use vstd::prelude::*;
use crate::delay::Delay;

verus! {

/// The delays that a strategy still has to give, in the order in which it
/// gives them: first those of `listed`, then `forever` again and again. With
/// `forever` absent the strategy ends after the listed delays.
pub struct StrategyView {
    pub listed: Seq<Delay>,
    pub forever: Option<Delay>,
}

impl StrategyView {
    /// The strategy that gives no delay.
    pub open spec fn empty() -> StrategyView {
        StrategyView { listed: Seq::empty(), forever: None }
    }

    /// The delay in place `n`, counted from zero, or `None` where the
    /// strategy has ended before.
    pub open spec fn at(self, n: nat) -> Option<Delay> {
        if n < self.listed.len() {
            Some(self.listed[n as int])
        } else {
            self.forever
        }
    }

    /// What is left once the first `n` delays have been taken.
    pub open spec fn skip(self, n: nat) -> StrategyView {
        if n < self.listed.len() {
            StrategyView { listed: self.listed.skip(n as int), forever: self.forever }
        } else {
            StrategyView { listed: Seq::empty(), forever: self.forever }
        }
    }

    /// Whether the strategy gives no delay any more.
    pub open spec fn is_exhausted(self) -> bool {
        self.at(0) is None
    }

    /// Taking `n` delays and then looking at place `k` is looking at place
    /// `n + k` at once.
    pub proof fn lemma_skip_at(self, n: nat, k: nat)
        ensures
            self.skip(n).at(k) == self.at(n + k),
    {
    }

    /// Taking `n` delays and then `k` more is taking `n + k` at once, and
    /// taking none changes nothing.
    pub proof fn lemma_skip_skip(self, n: nat, k: nat)
        ensures
            self.skip(n).skip(k) == self.skip(n + k),
            self.skip(0).listed =~= self.listed,
            self.skip(0).forever == self.forever,
    {
        let twice = self.skip(n).skip(k);
        let once = self.skip(n + k);
        assert(twice.listed =~= once.listed);
    }
}

/// A retry strategy: how long to wait before each reconnection attempt of one
/// campaign. Once it gives no further delay, the adapter gives up, so it sets
/// both the waiting times and the number of attempts. Delays are pulled one
/// at a time, and a strategy may go on for ever.
pub struct Strategy {
    delays: Vec<Delay>,
    cursor: usize,
    forever: Option<Delay>,
}

impl View for Strategy {
    type V = StrategyView;

    closed spec fn view(&self) -> StrategyView {
        StrategyView {
            listed: if self.cursor <= self.delays@.len() {
                self.delays@.skip(self.cursor as int)
            } else {
                Seq::empty()
            },
            forever: self.forever,
        }
    }
}

impl Strategy {
    /// A strategy that gives the delays of `delays` in order and then ends.
    pub fn new(delays: Vec<Delay>) -> (strategy: Strategy)
        ensures
            strategy@ == (StrategyView { listed: delays@, forever: None }),
    {
        let strategy = Strategy { delays, cursor: 0, forever: None };
        assert(strategy@.listed =~= delays@);
        strategy
    }

    /// A strategy that gives the delays of `delays` in order and after them
    /// `every`, without end.
    pub fn endless(delays: Vec<Delay>, every: Delay) -> (strategy: Strategy)
        ensures
            strategy@ == (StrategyView { listed: delays@, forever: Some(every) }),
    {
        let strategy = Strategy { delays, cursor: 0, forever: Some(every) };
        assert(strategy@.listed =~= delays@);
        strategy
    }

    /// Takes the next delay, or returns `None` where the strategy has ended.
    pub fn next(&mut self) -> (delay: Option<Delay>)
        ensures
            delay == old(self)@.at(0),
            final(self)@ == old(self)@.skip(1),
    {
        if self.cursor < self.delays.len() {
            let delay = self.delays[self.cursor];
            self.cursor = self.cursor + 1;
            assert(self@.listed =~= old(self)@.skip(1).listed);
            Some(delay)
        } else {
            assert(self@.listed =~= old(self)@.skip(1).listed);
            self.forever
        }
    }

    /// A second strategy that gives what this one still has to give. The two
    /// share nothing: taking a delay from one leaves the other as it was.
    pub fn duplicate(&self) -> (copy: Strategy)
        ensures
            copy@ == self@,
    {
        let mut delays: Vec<Delay> = Vec::new();
        let mut i: usize = self.cursor;
        while i < self.delays.len()
            invariant
                self.cursor <= i,
                self.cursor > self.delays.len() ==> delays@.len() == 0,
                self.cursor <= self.delays.len() ==> i <= self.delays.len() && delays@
                    =~= self.delays@.subrange(self.cursor as int, i as int),
            decreases self.delays.len() - i,
        {
            delays.push(self.delays[i]);
            i = i + 1;
        }
        let copy = Strategy { delays, cursor: 0, forever: self.forever };
        assert(copy@.listed =~= self@.listed);
        copy
    }
}

/// A maker of strategies: every reconnection campaign asks it for a fresh
/// strategy, so that no campaign is cut short by what an earlier one used up.
pub struct NewStrategy {
    template: Strategy,
}

impl View for NewStrategy {
    type V = StrategyView;

    closed spec fn view(&self) -> StrategyView {
        self.template@
    }
}

impl NewStrategy {
    /// A maker whose strategies all give what `template` has to give.
    pub fn new(template: Strategy) -> (maker: NewStrategy)
        ensures
            maker@ == template@,
    {
        NewStrategy { template }
    }

    /// A fresh strategy for one campaign.
    pub fn fresh(&self) -> (strategy: Strategy)
        ensures
            strategy@ == self@,
    {
        self.template.duplicate()
    }
}

impl Default for NewStrategy {
    /// The maker of default strategies, see [`default_new_strategy`].
    fn default() -> (maker: NewStrategy)
        ensures
            maker@ == default_strategy(),
    {
        NewStrategy::new(default_new_strategy())
    }
}

/// What the default strategy gives: four delays of one, two, three and four
/// seconds, and then the end.
pub open spec fn default_strategy() -> StrategyView {
    StrategyView {
        listed: seq![
            Delay { secs: 1, nanos: 0 },
            Delay { secs: 2, nanos: 0 },
            Delay { secs: 3, nanos: 0 },
            Delay { secs: 4, nanos: 0 },
        ],
        forever: None,
    }
}

/// The default strategy: up to four reconnection attempts, each after a
/// longer wait than the one before.
pub fn default_new_strategy() -> (strategy: Strategy)
    ensures
        strategy@ == default_strategy(),
{
    let mut delays: Vec<Delay> = Vec::new();
    let mut secs: u64 = 1;
    while secs < 5
        invariant
            1 <= secs <= 5,
            delays@.len() == secs - 1,
            forall|i: int| 0 <= i < delays@.len() ==> delays@[i] == (Delay {
                secs: (i + 1) as u64,
                nanos: 0,
            }),
        decreases 5 - secs,
    {
        delays.push(Delay::from_secs(secs));
        secs = secs + 1;
    }
    assert(delays@ =~= default_strategy().listed);
    Strategy::new(delays)
}

} // verus!

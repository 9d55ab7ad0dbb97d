//! Results of running a simulated trading scenario.

use vstd::prelude::*;
use crate::domain::decimal::{
    decimal_div, decimal_mul, decimal_sub, decimal_text, int_view, value_le, Decimal, DecimalView,
};
use crate::numparse::{decimal_text as nat_text, u128_to_text};
use crate::strategy::engine::RebalanceResult;
use crate::text::{append_str, string_of};

verus! {

/// Result of running a scenario.
#[derive(Debug)]
pub struct ScenarioResult {
    /// Name of the scenario.
    pub name: String,
    /// Number of rebalancing cycles executed.
    pub cycles: usize,
    /// Total number of trades executed.
    pub total_trades: usize,
    /// Initial portfolio value.
    pub initial_value: Decimal,
    /// Final portfolio value.
    pub final_value: Decimal,
    /// Return percentage.
    pub return_percent: Decimal,
    /// Results from each rebalancing cycle.
    pub cycle_results: Vec<RebalanceResult>,
    /// Whether the scenario passed.
    pub passed: bool,
    /// Failure reason if not passed.
    pub failure_reason: Option<String>,
}

/// The return of a change in value, in percent: `(final - initial) / initial * 100`.
pub open spec fn spec_return(initial: DecimalView, fin: DecimalView) -> Option<DecimalView> {
    match decimal_sub(fin, initial) {
        Some(gain) => match decimal_div(gain, initial) {
            Some(ratio) => decimal_mul(ratio, int_view(100)),
            None => None,
        },
        None => None,
    }
}

impl ScenarioResult {
    /// A passing result with nothing run yet.
    pub fn new(name: &str) -> (r: ScenarioResult)
        ensures
            r.name@ == name@,
            r.cycles == 0,
            r.total_trades == 0,
            r.initial_value@ == int_view(0),
            r.final_value@ == int_view(0),
            r.return_percent@ == int_view(0),
            r.cycle_results@.len() == 0,
            r.passed,
            r.failure_reason is None,
    {
        ScenarioResult {
            name: String::from_str(name),
            cycles: 0,
            total_trades: 0,
            initial_value: Decimal::zero(),
            final_value: Decimal::zero(),
            return_percent: Decimal::zero(),
            cycle_results: Vec::new(),
            passed: true,
            failure_reason: None,
        }
    }

    /// Marks the scenario as failed with a reason.
    pub fn fail(&mut self, reason: &str)
        ensures
            !final(self).passed,
            final(self).failure_reason matches Some(m) && m@ == reason@,
            final(self).name == old(self).name,
            final(self).cycles == old(self).cycles,
            final(self).total_trades == old(self).total_trades,
            final(self).initial_value == old(self).initial_value,
            final(self).final_value == old(self).final_value,
            final(self).return_percent == old(self).return_percent,
            final(self).cycle_results == old(self).cycle_results,
    {
        self.passed = false;
        self.failure_reason = Some(String::from_str(reason));
    }

    /// Whether the return percentage is computable (what `calculate_return` needs): the
    /// initial value is zero, or the return's arithmetic does not overflow.
    pub fn return_defined(&self) -> (b: bool)
        ensures
            b == (self.initial_value@.mantissa != 0 ==> spec_return(
                self.initial_value@,
                self.final_value@,
            ) is Some),
    {
        if self.initial_value.is_zero() {
            return true;
        }
        match self.final_value.checked_sub(&self.initial_value) {
            Some(gain) => match gain.checked_div(&self.initial_value) {
                Some(ratio) => ratio.checked_mul(&Decimal::from_u32(100)).is_some(),
                None => false,
            },
            None => false,
        }
    }

    /// Sets the return percentage from the initial and final values (left unchanged when the
    /// initial value is zero).
    pub fn calculate_return(&mut self)
        requires
            old(self).initial_value@.mantissa != 0 ==> spec_return(
                old(self).initial_value@,
                old(self).final_value@,
            ) is Some,
        ensures
            final(self).return_percent@ == if old(self).initial_value@.mantissa == 0 {
                old(self).return_percent@
            } else {
                spec_return(old(self).initial_value@, old(self).final_value@)->Some_0
            },
            final(self).name == old(self).name,
            final(self).cycles == old(self).cycles,
            final(self).total_trades == old(self).total_trades,
            final(self).initial_value == old(self).initial_value,
            final(self).final_value == old(self).final_value,
            final(self).cycle_results == old(self).cycle_results,
            final(self).passed == old(self).passed,
            final(self).failure_reason == old(self).failure_reason,
    {
        if !self.initial_value.is_zero() {
            let gain = match self.final_value.checked_sub(&self.initial_value) {
                Some(g) => g,
                None => vstd::pervasive::unreached(),
            };
            let ratio = match gain.checked_div(&self.initial_value) {
                Some(q) => q,
                None => vstd::pervasive::unreached(),
            };
            self.return_percent = match ratio.checked_mul(&Decimal::from_u32(100)) {
                Some(x) => x,
                None => vstd::pervasive::unreached(),
            };
        }
    }
}

/// Whether a scenario rebalances at a tick: at every `interval`-th tick after the first.
pub fn should_rebalance(tick: usize, interval: usize) -> (b: bool)
    requires
        interval > 0,
    ensures
        b == (tick > 0 && tick % interval == 0),
{
    tick > 0 && tick % interval == 0
}

impl ScenarioResult {
    /// Counts a rebalancing cycle: its executed actions are added to the trades, the cycle
    /// is kept, and the cycle count goes up by one.
    pub fn record_cycle(&mut self, cycle: RebalanceResult)
        requires
            old(self).total_trades + cycle.executed@.len() <= usize::MAX,
            old(self).cycles < usize::MAX,
        ensures
            final(self).total_trades == old(self).total_trades + cycle.executed@.len(),
            final(self).cycles == old(self).cycles + 1,
            final(self).cycle_results@ == old(self).cycle_results@.push(cycle),
            final(self).name == old(self).name,
            final(self).initial_value == old(self).initial_value,
            final(self).final_value == old(self).final_value,
            final(self).return_percent == old(self).return_percent,
            final(self).passed == old(self).passed,
            final(self).failure_reason == old(self).failure_reason,
    {
        self.total_trades = self.total_trades + cycle.executed.len();
        self.cycles = self.cycles + 1;
        self.cycle_results.push(cycle);
    }
}

/// A fixed check on a scenario's outcome.
#[derive(Debug, Clone, Copy)]
pub enum ScenarioCheck {
    /// Portfolio value should be at least this amount.
    MinValue(Decimal),
    /// Portfolio value should be at most this amount.
    MaxValue(Decimal),
    /// Return should be at least this percentage.
    MinReturn(Decimal),
    /// Total trades should be at most this number.
    MaxTrades(usize),
    /// Final allocation should be within tolerance of target (checked separately: it always
    /// passes here).
    AllocationWithinTolerance(Decimal),
}

/// Whether a check passes on a final value, a return and a trade count.
pub open spec fn spec_check(c: ScenarioCheck, final_value: DecimalView, return_percent: DecimalView, trades: nat) -> bool {
    match c {
        ScenarioCheck::MinValue(min) => value_le(min@, final_value),
        ScenarioCheck::MaxValue(max) => value_le(final_value, max@),
        ScenarioCheck::MinReturn(min) => value_le(min@, return_percent),
        ScenarioCheck::MaxTrades(max) => trades <= max,
        ScenarioCheck::AllocationWithinTolerance(_) => true,
    }
}

/// The description of a check.
pub open spec fn spec_description(c: ScenarioCheck) -> Seq<char> {
    match c {
        ScenarioCheck::MinValue(v) => "Portfolio value >= "@ + decimal_text(v@),
        ScenarioCheck::MaxValue(v) => "Portfolio value <= "@ + decimal_text(v@),
        ScenarioCheck::MinReturn(r) => "Return >= "@ + decimal_text(r@) + "%"@,
        ScenarioCheck::MaxTrades(n) => "Total trades <= "@ + nat_text(n as nat),
        ScenarioCheck::AllocationWithinTolerance(t) => "Allocation within "@ + decimal_text(t@)
            + "% of target"@,
    }
}

impl ScenarioCheck {
    /// Whether the check passes on a scenario's result.
    pub fn check(&self, result: &ScenarioResult) -> (b: bool)
        ensures
            b == spec_check(*self, result.final_value@, result.return_percent@, result.total_trades as nat),
    {
        match self {
            ScenarioCheck::MinValue(min) => result.final_value.ge(min),
            ScenarioCheck::MaxValue(max) => result.final_value.le(max),
            ScenarioCheck::MinReturn(min) => result.return_percent.ge(min),
            ScenarioCheck::MaxTrades(max) => result.total_trades <= *max,
            ScenarioCheck::AllocationWithinTolerance(_) => true,
        }
    }

    /// A description of the check.
    pub fn description(&self) -> (s: String)
        ensures
            s@ == spec_description(*self),
    {
        match self {
            ScenarioCheck::MinValue(v) => {
                let mut s = String::from_str("Portfolio value >= ");
                append_str(&mut s, v.to_string().as_str());
                s
            },
            ScenarioCheck::MaxValue(v) => {
                let mut s = String::from_str("Portfolio value <= ");
                append_str(&mut s, v.to_string().as_str());
                s
            },
            ScenarioCheck::MinReturn(r) => {
                let mut s = String::from_str("Return >= ");
                append_str(&mut s, r.to_string().as_str());
                append_str(&mut s, "%");
                s
            },
            ScenarioCheck::MaxTrades(n) => {
                let mut s = String::from_str("Total trades <= ");
                let digits = u128_to_text(*n as u128);
                append_str(&mut s, string_of(&digits).as_str());
                s
            },
            ScenarioCheck::AllocationWithinTolerance(t) => {
                let mut s = String::from_str("Allocation within ");
                append_str(&mut s, t.to_string().as_str());
                append_str(&mut s, "% of target");
                s
            },
        }
    }
}

} // verus!

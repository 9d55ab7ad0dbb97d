//! The balancer engine's decisions: its configuration, how a plan starts, how a difference
//! becomes an action once the exchange has answered, and how executed actions are tallied.
//! The exchange calls, waits and logging around them are the caller's.

use vstd::prelude::*;
use crate::domain::decimal::{decimal_mul, int_view, value_lt, Decimal, DecimalView};
use crate::domain::money::{Money, MoneyView};
use crate::domain::order::{OrderDirection, OrderStatus};
use crate::domain::position::{
    pnl_percent_defined, spec_tradeable_lots, spec_unrealized_pnl_percent, Position,
};
use crate::domain::wallet::{abs_view, symbol_index, DesiredAllocation, Wallet, WalletView};
use crate::exchange::error::ExchangeError;
use crate::exchange::types::MarketStatus;
use crate::strategy::calculator::{
    diffs_defined, diffs_spec, diffs_view, keep_significant, priority_sorted, spec_lots,
    AllocationDiff, CalculatorView, DiffView, RebalanceCalculator,
};
use crate::strategy::rebalance::{actions_view, ActionView, PlanView, RebalanceAction, RebalancePlan};
use crate::numparse::decimal_text as nat_text;
use crate::strategy::rebalance::count_string;
use crate::text::append_str;

verus! {

/// Configuration for the balancer engine.
#[derive(Debug)]
pub struct BalancerConfig {
    /// Minimum trade size as percentage of portfolio.
    pub min_trade_percent: Decimal,
    /// Minimum trade value in base currency.
    pub min_trade_value: Decimal,
    /// Tolerance for considering allocation "close enough".
    pub tolerance_percent: Decimal,
    /// Delay between consecutive orders (milliseconds).
    pub order_delay_ms: u64,
    /// Whether to actually execute trades or just simulate.
    pub dry_run: bool,
    /// Maximum number of orders per rebalancing cycle.
    pub max_orders_per_cycle: usize,
    /// Minimum profit percentage required for selling a position.
    pub min_profit_percent_for_close: Option<Decimal>,
}

impl Default for BalancerConfig {
    fn default() -> (r: BalancerConfig)
        ensures
            r.min_trade_percent@ == (DecimalView { mantissa: 1, scale: 1 }),
            r.min_trade_value@ == (DecimalView { mantissa: 100, scale: 0 }),
            r.tolerance_percent@ == (DecimalView { mantissa: 5, scale: 1 }),
            r.order_delay_ms == 1000,
            !r.dry_run,
            r.max_orders_per_cycle == 20,
            r.min_profit_percent_for_close is None,
    {
        BalancerConfig {
            min_trade_percent: Decimal::new(1, 1),
            min_trade_value: Decimal::new(100, 0),
            tolerance_percent: Decimal::new(5, 1),
            order_delay_ms: 1000,
            dry_run: false,
            max_orders_per_cycle: 20,
            min_profit_percent_for_close: None,
        }
    }
}

impl Clone for BalancerConfig {
    fn clone(&self) -> (r: BalancerConfig)
        ensures
            r == *self,
    {
        BalancerConfig {
            min_trade_percent: self.min_trade_percent,
            min_trade_value: self.min_trade_value,
            tolerance_percent: self.tolerance_percent,
            order_delay_ms: self.order_delay_ms,
            dry_run: self.dry_run,
            max_orders_per_cycle: self.max_orders_per_cycle,
            min_profit_percent_for_close: self.min_profit_percent_for_close,
        }
    }
}

/// The calculator a balancer engine uses: the defaults with the configuration's minimum
/// trade percentage, minimum trade value and tolerance.
pub fn calculator_for(config: &BalancerConfig) -> (r: RebalanceCalculator)
    ensures
        r@ == (CalculatorView {
            min_trade_percent: config.min_trade_percent@,
            min_trade_value: config.min_trade_value@,
            tolerance_percent: config.tolerance_percent@,
        }),
{
    RebalanceCalculator::new().with_min_trade_percent(config.min_trade_percent).with_min_trade_value(
        config.min_trade_value,
    ).with_tolerance_percent(config.tolerance_percent)
}

/// Result of a single rebalancing cycle.
#[derive(Debug)]
pub struct RebalanceResult {
    /// The plan that was created.
    pub plan: RebalancePlan,
    /// Actions that were successfully executed.
    pub executed: Vec<RebalanceAction>,
    /// Actions that failed, with the error text.
    pub failed: Vec<(RebalanceAction, String)>,
    /// Whether the cycle completed successfully.
    pub success: bool,
    /// Error message if the cycle failed.
    pub error: Option<String>,
}

impl RebalanceResult {
    /// A successful result.
    pub fn success(plan: RebalancePlan, executed: Vec<RebalanceAction>) -> (r: RebalanceResult)
        ensures
            r.plan == plan,
            r.executed == executed,
            r.failed@.len() == 0,
            r.success,
            r.error is None,
    {
        RebalanceResult { plan, executed, failed: Vec::new(), success: true, error: None }
    }

    /// A failed result with its error message.
    pub fn failure(plan: RebalancePlan, error: &str) -> (r: RebalanceResult)
        ensures
            r.plan == plan,
            r.executed@.len() == 0,
            r.failed@.len() == 0,
            !r.success,
            r.error is Some && r.error->Some_0@ == error@,
    {
        RebalanceResult {
            plan,
            executed: Vec::new(),
            failed: Vec::new(),
            success: false,
            error: Some(String::from_str(error)),
        }
    }
}

/// How building a plan begins: either the plan is already final (nothing to trade), or the
/// differences that need an exchange's prices to become actions, in priority order.
pub enum PlanStart {
    /// The plan needs nothing more.
    Finished(RebalancePlan),
    /// An empty plan and the differences to convert into its actions, in order.
    Convert { plan: RebalancePlan, diffs: Vec<AllocationDiff> },
}

/// The significant differences in priority order.
pub open spec fn plan_diffs(
    calc: CalculatorView,
    w: WalletView,
    desired: Seq<(Seq<char>, DecimalView)>,
    all: Seq<DiffView>,
) -> Seq<DiffView> {
    priority_sorted(keep_significant(all, calc.tolerance_percent, calc.min_trade_value))
}

/// Starts a rebalancing plan for a wallet: a portfolio within tolerance gets an empty plan
/// saying so; otherwise the significant differences, sells first, at most
/// `max_orders_per_cycle` of them, go on to become actions of a new plan in the wallet's
/// currency (a dry run when the configuration says so).
pub fn start_plan(
    config: &BalancerConfig,
    calculator: &RebalanceCalculator,
    wallet: &Wallet,
    desired: &DesiredAllocation,
) -> (r: PlanStart)
    requires
        diffs_defined(wallet@, desired@),
    ensures
        exists|all: Seq<DiffView>|
            #![trigger diffs_spec(all, wallet@, desired@)]
            diffs_spec(all, wallet@, desired@) && {
                let sorted = plan_diffs(calculator@, wallet@, desired@, all);
                match r {
                    PlanStart::Finished(p) => sorted.len() == 0 && p@ == (PlanView {
                        actions: Seq::empty(),
                        total_sell_value: MoneyView {
                            amount: int_view(0),
                            currency: wallet@.base_currency,
                        },
                        total_buy_value: MoneyView {
                            amount: int_view(0),
                            currency: wallet@.base_currency,
                        },
                        trade_count: 0,
                        dry_run: false,
                        empty_reason: Some("Portfolio already balanced"@),
                    }),
                    PlanStart::Convert { plan, diffs } => sorted.len() > 0 && diffs_view(diffs@)
                        == sorted.take(
                        if sorted.len() <= config.max_orders_per_cycle {
                            sorted.len() as int
                        } else {
                            config.max_orders_per_cycle as int
                        },
                    ) && plan@ == (PlanView {
                        actions: Seq::empty(),
                        total_sell_value: MoneyView {
                            amount: int_view(0),
                            currency: wallet@.base_currency,
                        },
                        total_buy_value: MoneyView {
                            amount: int_view(0),
                            currency: wallet@.base_currency,
                        },
                        trade_count: 0,
                        dry_run: config.dry_run,
                        empty_reason: None,
                    }),
                }
            },
{
    let currency = wallet.base_currency();
    let diffs = calculator.calculate_diffs(wallet, desired);
    let ghost all = diffs_view(diffs@);
    let significant = calculator.filter_significant_diffs(diffs);
    if significant.len() == 0 {
        let p = RebalancePlan::empty_with_reason(currency, "Portfolio already balanced");
        proof {
            assert(priority_sorted(Seq::<DiffView>::empty()) =~= Seq::<DiffView>::empty());
        }
        return PlanStart::Finished(p);
    }
    let sorted = calculator.sort_by_priority(significant);
    let ghost sv = diffs_view(sorted@);
    proof {
        lemma_priority_sorted_len(
            keep_significant(all, calculator@.tolerance_percent, calculator@.min_trade_value),
        );
    }
    let mut plan = RebalancePlan::new(currency);
    plan.set_dry_run(config.dry_run);
    let mut chosen: Vec<AllocationDiff> = Vec::new();
    let mut i: usize = 0;
    while i < sorted.len() && i < config.max_orders_per_cycle
        invariant
            i <= sorted.len(),
            i <= config.max_orders_per_cycle,
            sv == diffs_view(sorted@),
            diffs_view(chosen@) == sv.take(i as int),
        decreases sorted.len() - i,
    {
        let ghost before = diffs_view(chosen@);
        chosen.push(sorted[i].duplicate());
        assert(diffs_view(chosen@) =~= before.push(sv[i as int]));
        assert(sv.take(i + 1) =~= sv.take(i as int).push(sv[i as int]));
        i = i + 1;
    }
    PlanStart::Convert { plan, diffs: chosen }
}

proof fn lemma_priority_sorted_len(s: Seq<DiffView>)
    ensures
        priority_sorted(s).len() == s.len(),
    decreases s.len(),
{
    if s.len() > 0 {
        lemma_priority_sorted_len(s.drop_last());
        let r = priority_sorted(s.drop_last());
        crate::strategy::calculator::lemma_insert_pos_bound(r, s.last(), 0);
    }
}

/// What the exchange's instrument lookup failing means for a difference: an unknown
/// instrument is skipped, any other error ends the plan.
pub fn skip_missing_instrument(error: ExchangeError) -> (r: Result<
    Option<RebalanceAction>,
    ExchangeError,
>)
    ensures
        error is InstrumentNotFound ==> r == Ok::<Option<RebalanceAction>, ExchangeError>(None),
        !(error is InstrumentNotFound) ==> r == Err::<Option<RebalanceAction>, ExchangeError>(
            error,
        ),
{
    match error {
        ExchangeError::InstrumentNotFound(_) => Ok(None),
        e => Err(e),
    }
}

/// The action for a difference given the instrument's exchange and lot size and the market's
/// status and last price, or `None` when it is skipped.
pub open spec fn spec_action(
    config_min_profit: Option<DecimalView>,
    w: WalletView,
    d: DiffView,
    instrument_exchange: Seq<char>,
    lot_size: nat,
    tradeable: bool,
    last_price: MoneyView,
) -> Option<ActionView> {
    let price_per_lot = MoneyView {
        amount: decimal_mul(last_price.amount, int_view(lot_size as int))->Some_0,
        currency: last_price.currency,
    };
    let direction = if d.diff_value.mantissa > 0 {
        OrderDirection::Buy
    } else {
        OrderDirection::Sell
    };
    let lots = spec_lots(d.diff_value, price_per_lot.amount);
    let position = match symbol_index(w.positions, d.symbol, 0) {
        Some(i) => Some(w.positions[i]),
        None => None,
    };
    let below_min_profit = match (config_min_profit, position) {
        (Some(min), Some(p)) => match spec_unrealized_pnl_percent(p) {
            Some(pct) => value_lt(pct, min),
            None => false,
        },
        _ => false,
    };
    let none_available = match position {
        Some(p) => lots > spec_tradeable_lots(p) && spec_tradeable_lots(p) == 0,
        None => false,
    };
    if !tradeable || lots == 0 || (direction == OrderDirection::Sell && (below_min_profit
        || none_available)) {
        None
    } else {
        Some(
            ActionView {
                symbol: d.symbol,
                exchange: instrument_exchange,
                direction,
                lots,
                estimated_price: price_per_lot,
                estimated_value: MoneyView {
                    amount: decimal_mul(price_per_lot.amount, int_view(lots as int))->Some_0,
                    currency: price_per_lot.currency,
                },
                current_percent: d.current_percent,
                target_percent: d.desired_percent,
                priority: 0,
            },
        )
    }
}

/// The arithmetic `action_from_market` does on a tradeable market is defined: the price per
/// lot and the lot division; once the trade has lots, the P&L of a position about to be sold
/// when a minimum profit is set, the position's lots (which divide by its lot size) when
/// that check lets the sell go on, and the estimated value of a trade that is kept.
pub open spec fn action_defined(
    config_min_profit: Option<DecimalView>,
    w: WalletView,
    d: DiffView,
    lot_size: nat,
    tradeable: bool,
    last_price: MoneyView,
) -> bool {
    let ppl = decimal_mul(last_price.amount, int_view(lot_size as int));
    let position = match symbol_index(w.positions, d.symbol, 0) {
        Some(i) => Some(w.positions[i]),
        None => None,
    };
    let sell = d.diff_value.mantissa <= 0;
    let lots = spec_lots(d.diff_value, ppl->Some_0);
    let below_min_profit = match (config_min_profit, position) {
        (Some(min), Some(p)) => match spec_unrealized_pnl_percent(p) {
            Some(pct) => value_lt(pct, min),
            None => false,
        },
        _ => false,
    };
    let none_available = match position {
        Some(p) => lots > spec_tradeable_lots(p) && spec_tradeable_lots(p) == 0,
        None => false,
    };
    tradeable ==> {
        &&& ppl is Some
        &&& (ppl->Some_0.mantissa != 0 ==> crate::domain::decimal::decimal_div(
            abs_view(d.diff_value),
            ppl->Some_0,
        ) is Some)
        &&& lots > 0 ==> {
            &&& (sell && config_min_profit is Some && position is Some ==> pnl_percent_defined(
                position->Some_0,
            ))
            &&& (sell && !below_min_profit && position is Some ==> position->Some_0.lot_size > 0)
            &&& (!(sell && (below_min_profit || none_available)) ==> decimal_mul(
                ppl->Some_0,
                int_view(lots as int),
            ) is Some)
        }
    }
}

/// Converts a difference into an action once the instrument and market data are known:
/// closed markets and zero-lot trades are skipped, and a sell is skipped when its position
/// is below the configured minimum profit or has no tradeable lot left.
pub fn action_from_market(
    config: &BalancerConfig,
    wallet: &Wallet,
    diff: &AllocationDiff,
    instrument_exchange: &str,
    lot_size: u32,
    market_status: MarketStatus,
    last_price: &Money,
) -> (r: Option<RebalanceAction>)
    requires
        action_defined(
            crate::domain::decimal::opt_view(config.min_profit_percent_for_close),
            wallet@,
            diff@,
            lot_size as nat,
            market_status.spec_is_tradeable(),
            last_price@,
        ),
    ensures
        match (r, spec_action(
            crate::domain::decimal::opt_view(config.min_profit_percent_for_close),
            wallet@,
            diff@,
            instrument_exchange@,
            lot_size as nat,
            market_status.spec_is_tradeable(),
            last_price@,
        )) {
            (Some(a), Some(v)) => a@ == v,
            (None, None) => true,
            _ => false,
        },
{
    let position = wallet.get_position(diff.symbol.as_str());
    if !market_status.is_tradeable() {
        return None;
    }
    let price_per_lot = last_price.multiply(Decimal::from_u32(lot_size));
    let direction = if diff.needs_buy() {
        OrderDirection::Buy
    } else {
        OrderDirection::Sell
    };
    let calc = RebalanceCalculator::new();
    let lots = calc.calculate_lots(diff.diff_value, price_per_lot.amount(), lot_size);
    if lots == 0 {
        return None;
    }
    if direction == OrderDirection::Sell {
        match config.min_profit_percent_for_close {
            Some(min_profit) => match position {
                Some(pos) => match pos.unrealized_pnl_percent() {
                    Some(pnl_pct) => {
                        if pnl_pct.lt(&min_profit) {
                            return None;
                        }
                    },
                    None => {},
                },
                None => {},
            },
            None => {},
        }
        match position {
            Some(pos) => {
                let available = pos.tradeable_lots();
                if lots > available && available == 0 {
                    return None;
                }
            },
            None => {},
        }
    }
    let estimated_value = price_per_lot.multiply(Decimal::from_u32(lots));
    Some(
        RebalanceAction {
            symbol: diff.symbol.clone(),
            exchange: String::from_str(instrument_exchange),
            direction,
            lots,
            estimated_price: price_per_lot,
            estimated_value,
            current_percent: diff.current_percent,
            target_percent: diff.desired_percent,
            priority: 0,
        },
    )
}

/// Whether the arithmetic `action_from_market` does is defined for these arguments (what
/// it needs).
pub fn action_is_defined(
    config: &BalancerConfig,
    wallet: &Wallet,
    diff: &AllocationDiff,
    lot_size: u32,
    market_status: MarketStatus,
    last_price: &Money,
) -> (b: bool)
    ensures
        b == action_defined(
            crate::domain::decimal::opt_view(config.min_profit_percent_for_close),
            wallet@,
            diff@,
            lot_size as nat,
            market_status.spec_is_tradeable(),
            last_price@,
        ),
{
    if !market_status.is_tradeable() {
        return true;
    }
    let ppl = match last_price.amount().checked_mul(&Decimal::from_u32(lot_size)) {
        Some(x) => x,
        None => {
            return false;
        },
    };
    if !ppl.is_zero() {
        if diff.diff_value.abs().checked_div(&ppl).is_none() {
            return false;
        }
    }
    let calc = RebalanceCalculator::new();
    let lots = calc.calculate_lots(diff.diff_value, ppl, lot_size);
    if lots == 0 {
        return true;
    }
    let sell = !diff.needs_buy();
    let position = wallet.get_position(diff.symbol.as_str());
    let mut below = false;
    if sell {
        match (config.min_profit_percent_for_close, position) {
            (Some(min), Some(pos)) => {
                if !pos.pnl_percent_is_defined() {
                    return false;
                }
                match pos.unrealized_pnl_percent() {
                    Some(pct) => {
                        below = pct.lt(&min);
                    },
                    None => {},
                }
            },
            _ => {},
        }
    }
    let mut none_available = false;
    if sell && !below {
        match position {
            Some(pos) => {
                if pos.lot_size() == 0 {
                    return false;
                }
                let available = pos.tradeable_lots();
                none_available = lots > available && available == 0;
            },
            None => {},
        }
    }
    if sell && (below || none_available) {
        true
    } else {
        ppl.checked_mul(&Decimal::from_u32(lots)).is_some()
    }
}

/// Whether a plan is to be executed: it has actions and is not a dry run.
pub fn plan_needs_execution(plan: &RebalancePlan) -> (b: bool)
    ensures
        b == (plan@.actions.len() > 0 && !plan@.dry_run),
{
    !plan.is_empty() && !plan.dry_run
}

/// The wait before executing the action at `index`: the configured delay before every
/// action but the first, when the delay is not zero.
pub fn delay_before(config: &BalancerConfig, index: usize) -> (r: Option<u64>)
    ensures
        r == (if index > 0 && config.order_delay_ms > 0 {
            Some(config.order_delay_ms)
        } else {
            None
        }),
{
    if index > 0 && config.order_delay_ms > 0 {
        Some(config.order_delay_ms)
    } else {
        None
    }
}

/// What an order's status after submission means: filled, partially filled and submitted
/// orders succeed; a rejection carries the exchange's message (or "Unknown reason"); any
/// other status is unexpected.
pub fn order_outcome(status: OrderStatus, message: Option<&str>) -> (r: Result<(), ExchangeError>)
    ensures
        (status is Filled || status is PartiallyFilled || status is Submitted) <==> r is Ok,
        status is Rejected ==> (r matches Err(ExchangeError::OrderRejected(m)) && m@ == (
        match message {
            Some(t) => t@,
            None => "Unknown reason"@,
        })),
        !(status is Filled || status is PartiallyFilled || status is Submitted || status is Rejected)
            ==> (r matches Err(ExchangeError::UnexpectedResponse(m)) && m@
            == "Unexpected order status: "@ + status_name(status)),
{
    match status {
        OrderStatus::Filled | OrderStatus::PartiallyFilled | OrderStatus::Submitted => Ok(()),
        OrderStatus::Rejected => {
            let m = match message {
                Some(t) => String::from_str(t),
                None => String::from_str("Unknown reason"),
            };
            Err(ExchangeError::OrderRejected(m))
        },
        _ => {
            let mut m = String::from_str("Unexpected order status: ");
            append_str(&mut m, status_name_str(status));
            Err(ExchangeError::UnexpectedResponse(m))
        },
    }
}

/// The name of an order status, as its `Debug` form writes it.
pub open spec fn status_name(s: OrderStatus) -> Seq<char> {
    match s {
        OrderStatus::Pending => "Pending"@,
        OrderStatus::Submitted => "Submitted"@,
        OrderStatus::PartiallyFilled => "PartiallyFilled"@,
        OrderStatus::Filled => "Filled"@,
        OrderStatus::Cancelled => "Cancelled"@,
        OrderStatus::Rejected => "Rejected"@,
        OrderStatus::Expired => "Expired"@,
    }
}

fn status_name_str(s: OrderStatus) -> (r: &'static str)
    ensures
        r@ == status_name(s),
{
    match s {
        OrderStatus::Pending => "Pending",
        OrderStatus::Submitted => "Submitted",
        OrderStatus::PartiallyFilled => "PartiallyFilled",
        OrderStatus::Filled => "Filled",
        OrderStatus::Cancelled => "Cancelled",
        OrderStatus::Rejected => "Rejected",
        OrderStatus::Expired => "Expired",
    }
}

/// The actions that succeeded (no error text), in order.
pub open spec fn succeeded(acts: Seq<ActionView>, outcomes: Seq<Option<Seq<char>>>) -> Seq<ActionView>
    decreases acts.len(),
{
    if acts.len() == 0 || outcomes.len() != acts.len() {
        Seq::empty()
    } else {
        let r = succeeded(acts.drop_last(), outcomes.drop_last());
        if outcomes.last() is None {
            r.push(acts.last())
        } else {
            r
        }
    }
}

/// The actions that failed with their error text, in order.
pub open spec fn failures(acts: Seq<ActionView>, outcomes: Seq<Option<Seq<char>>>) -> Seq<
    (ActionView, Seq<char>),
>
    decreases acts.len(),
{
    if acts.len() == 0 || outcomes.len() != acts.len() {
        Seq::empty()
    } else {
        let r = failures(acts.drop_last(), outcomes.drop_last());
        match outcomes.last() {
            Some(m) => r.push((acts.last(), m)),
            None => r,
        }
    }
}

pub open spec fn opt_texts(s: Seq<Option<String>>) -> Seq<Option<Seq<char>>> {
    s.map_values(|o: Option<String>| match o {
        Some(t) => Some(t@),
        None => None,
    })
}

pub open spec fn failed_view(s: Seq<(RebalanceAction, String)>) -> Seq<(ActionView, Seq<char>)> {
    s.map_values(|f: (RebalanceAction, String)| (f.0@, f.1@))
}

/// The result of executing a plan, from the outcome of each of its actions in order (`None`
/// for success, else the error text): the executed and failed actions, success exactly when
/// nothing failed, and then the error `<failed> of <trade_count> trades failed`.
pub fn finish_execution(plan: &RebalancePlan, outcomes: Vec<Option<String>>) -> (r: RebalanceResult)
    requires
        outcomes@.len() == plan@.actions.len(),
    ensures
        r.plan@ == plan@,
        actions_view(r.executed@) == succeeded(plan@.actions, opt_texts(outcomes@)),
        failed_view(r.failed@) == failures(plan@.actions, opt_texts(outcomes@)),
        r.success == (r.failed@.len() == 0),
        r.failed@.len() == 0 ==> r.error is None,
        r.failed@.len() > 0 ==> r.error is Some && r.error->Some_0@ == nat_text(
            r.failed@.len() as nat,
        ) + " of "@ + nat_text(plan@.trade_count) + " trades failed"@,
{
    let ghost acts = plan@.actions;
    let ghost outs = opt_texts(outcomes@);
    let mut executed: Vec<RebalanceAction> = Vec::new();
    let mut failed: Vec<(RebalanceAction, String)> = Vec::new();
    let mut i: usize = 0;
    while i < plan.actions.len()
        invariant
            i <= plan.actions.len(),
            outcomes@.len() == plan.actions@.len(),
            acts == plan@.actions,
            outs == opt_texts(outcomes@),
            actions_view(executed@) == succeeded(acts.take(i as int), outs.take(i as int)),
            failed_view(failed@) == failures(acts.take(i as int), outs.take(i as int)),
        decreases plan.actions.len() - i,
    {
        assert(acts.take(i + 1).drop_last() =~= acts.take(i as int));
        assert(outs.take(i + 1).drop_last() =~= outs.take(i as int));
        match &outcomes[i] {
            None => {
                let ghost before = actions_view(executed@);
                executed.push(plan.actions[i].duplicate());
                assert(actions_view(executed@) =~= before.push(acts[i as int]));
            },
            Some(msg) => {
                let ghost before = failed_view(failed@);
                failed.push((plan.actions[i].duplicate(), msg.clone()));
                assert(failed_view(failed@) =~= before.push((acts[i as int], msg@)));
            },
        }
        i = i + 1;
    }
    assert(acts.take(plan.actions.len() as int) =~= acts);
    assert(outs.take(plan.actions.len() as int) =~= outs);
    let nfailed = failed.len();
    let mut result = RebalanceResult::success(plan.duplicate(), executed);
    result.failed = failed;
    if nfailed > 0 {
        result.success = false;
        let mut m = count_string(nfailed);
        append_str(&mut m, " of ");
        let tc = count_string(plan.trade_count);
        append_str(&mut m, tc.as_str());
        append_str(&mut m, " trades failed");
        result.error = Some(m);
    }
    result
}

} // verus!

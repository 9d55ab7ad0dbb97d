//! Trading settings for strategy behaviour, and times of day.

use vstd::prelude::*;
use crate::domain::decimal::{decimal_mul, int_view, Decimal, DecimalView};

verus! {

/// A time of day: seconds since midnight and a fraction of a second in nanoseconds.
#[derive(Debug, Clone, Copy, PartialEq, Eq, Structural)]
pub struct TimeOfDay {
    /// Whole seconds since midnight (below 86400).
    pub secs: u32,
    /// Nanoseconds within the second.
    pub nanos: u32,
}

/// `a` is not later than `b`.
pub open spec fn time_le(a: TimeOfDay, b: TimeOfDay) -> bool {
    a.secs < b.secs || (a.secs == b.secs && a.nanos <= b.nanos)
}

impl TimeOfDay {
    /// The time `hour:min:sec`, or `None` when a part is out of range (as
    /// `NaiveTime::from_hms_opt` decides).
    pub fn from_hms(hour: u32, min: u32, sec: u32) -> (r: Option<TimeOfDay>)
        ensures
            (hour < 24 && min < 60 && sec < 60) ==> r == Some(
                TimeOfDay { secs: (hour * 3600 + min * 60 + sec) as u32, nanos: 0 },
            ),
            !(hour < 24 && min < 60 && sec < 60) ==> r is None,
    {
        if hour < 24 && min < 60 && sec < 60 {
            Some(TimeOfDay { secs: hour * 3600 + min * 60 + sec, nanos: 0 })
        } else {
            None
        }
    }

    /// Whether this time is not later than `other`.
    pub fn not_after(&self, other: &TimeOfDay) -> (b: bool)
        ensures
            b == time_le(*self, *other),
    {
        self.secs < other.secs || (self.secs == other.secs && self.nanos <= other.nanos)
    }
}

/// Settings of a trading strategy for one instrument.
#[derive(Debug)]
pub struct TradingSettings {
    /// Instrument identifier.
    pub instrument: String,
    /// Minimum profit in price steps.
    pub minimum_profit_steps: u32,
    /// Minimum market order size to trigger a buy.
    pub minimum_market_order_size_to_buy: u64,
    /// Minimum market order size to trigger a sell.
    pub minimum_market_order_size_to_sell: u64,
    /// Minimum market order size to change the buy price.
    pub minimum_market_order_size_to_change_buy_price: u64,
    /// Minimum market order size to change the sell price.
    pub minimum_market_order_size_to_change_sell_price: u64,
    /// Depth of the order book to analyze.
    pub market_order_book_depth: usize,
    /// Maximum position size in lots.
    pub max_position_lots: u64,
    /// Lot size for the instrument.
    pub lot_size: u64,
    /// Time of day when buying is allowed to start.
    pub minimum_time_to_buy: Option<TimeOfDay>,
    /// Time of day when buying must stop.
    pub maximum_time_to_buy: Option<TimeOfDay>,
    /// Number of lots to sell early if owned.
    pub early_sell_owned_lots_delta: Option<u32>,
    /// Multiplier for early sell of owned lots.
    pub early_sell_owned_lots_multiplier: Option<Decimal>,
    /// Price step (minimum price increment).
    pub price_step: Decimal,
    /// Whether the strategy is enabled.
    pub enabled: bool,
}

/// The default settings apart from the instrument.
pub open spec fn default_settings_for(s: TradingSettings, instrument: Seq<char>) -> bool {
    &&& s.instrument@ == instrument
    &&& s.minimum_profit_steps == 1
    &&& s.minimum_market_order_size_to_buy == 10
    &&& s.minimum_market_order_size_to_sell == 10
    &&& s.minimum_market_order_size_to_change_buy_price == 50
    &&& s.minimum_market_order_size_to_change_sell_price == 50
    &&& s.market_order_book_depth == 5
    &&& s.max_position_lots == 100
    &&& s.lot_size == 1
    &&& s.minimum_time_to_buy is None
    &&& s.maximum_time_to_buy is None
    &&& s.early_sell_owned_lots_delta is None
    &&& s.early_sell_owned_lots_multiplier is None
    &&& s.price_step@ == (DecimalView { mantissa: 1, scale: 2 })
    &&& s.enabled
}

impl Default for TradingSettings {
    fn default() -> (r: TradingSettings)
        ensures
            default_settings_for(r, Seq::empty()),
    {
        TradingSettings {
            instrument: String::new(),
            minimum_profit_steps: 1,
            minimum_market_order_size_to_buy: 10,
            minimum_market_order_size_to_sell: 10,
            minimum_market_order_size_to_change_buy_price: 50,
            minimum_market_order_size_to_change_sell_price: 50,
            market_order_book_depth: 5,
            max_position_lots: 100,
            lot_size: 1,
            minimum_time_to_buy: None,
            maximum_time_to_buy: None,
            early_sell_owned_lots_delta: None,
            early_sell_owned_lots_multiplier: None,
            price_step: Decimal::new(1, 2),
            enabled: true,
        }
    }
}

impl TradingSettings {
    /// Default settings for an instrument.
    pub fn new(instrument: &str) -> (r: TradingSettings)
        ensures
            default_settings_for(r, instrument@),
    {
        TradingSettings { instrument: String::from_str(instrument), ..TradingSettings::default() }
    }

    /// Sets the minimum profit steps.
    pub fn with_minimum_profit_steps(self, steps: u32) -> (r: TradingSettings)
        ensures
            r == (TradingSettings { minimum_profit_steps: steps, ..self }),
    {
        TradingSettings { minimum_profit_steps: steps, ..self }
    }

    /// Sets the price step.
    pub fn with_price_step(self, step: Decimal) -> (r: TradingSettings)
        ensures
            r == (TradingSettings { price_step: step, ..self }),
    {
        TradingSettings { price_step: step, ..self }
    }

    /// Sets the lot size.
    pub fn with_lot_size(self, size: u64) -> (r: TradingSettings)
        ensures
            r == (TradingSettings { lot_size: size, ..self }),
    {
        TradingSettings { lot_size: size, ..self }
    }

    /// Sets the maximum position.
    pub fn with_max_position(self, lots: u64) -> (r: TradingSettings)
        ensures
            r == (TradingSettings { max_position_lots: lots, ..self }),
    {
        TradingSettings { max_position_lots: lots, ..self }
    }

    /// Sets the order book depth.
    pub fn with_order_book_depth(self, depth: usize) -> (r: TradingSettings)
        ensures
            r == (TradingSettings { market_order_book_depth: depth, ..self }),
    {
        TradingSettings { market_order_book_depth: depth, ..self }
    }

    /// Sets the minimum order size to buy.
    pub fn with_min_order_size_to_buy(self, size: u64) -> (r: TradingSettings)
        ensures
            r == (TradingSettings { minimum_market_order_size_to_buy: size, ..self }),
    {
        TradingSettings { minimum_market_order_size_to_buy: size, ..self }
    }

    /// Sets the minimum order size to sell.
    pub fn with_min_order_size_to_sell(self, size: u64) -> (r: TradingSettings)
        ensures
            r == (TradingSettings { minimum_market_order_size_to_sell: size, ..self }),
    {
        TradingSettings { minimum_market_order_size_to_sell: size, ..self }
    }

    /// Sets the hours in which buying is allowed.
    pub fn with_trading_hours(self, start: TimeOfDay, end: TimeOfDay) -> (r: TradingSettings)
        ensures
            r == (TradingSettings {
                minimum_time_to_buy: Some(start),
                maximum_time_to_buy: Some(end),
                ..self
            }),
    {
        TradingSettings { minimum_time_to_buy: Some(start), maximum_time_to_buy: Some(end), ..self }
    }

    /// Enables or disables the strategy.
    pub fn with_enabled(self, enabled: bool) -> (r: TradingSettings)
        ensures
            r == (TradingSettings { enabled, ..self }),
    {
        TradingSettings { enabled, ..self }
    }

    /// The minimum profit: the price step times the minimum profit steps.
    pub fn minimum_profit(&self) -> (r: Decimal)
        requires
            decimal_mul(self.price_step@, int_view(self.minimum_profit_steps as int)) is Some,
        ensures
            Some(r@) == decimal_mul(self.price_step@, int_view(self.minimum_profit_steps as int)),
    {
        match self.price_step.checked_mul(&Decimal::from_u32(self.minimum_profit_steps)) {
            Some(x) => x,
            None => vstd::pervasive::unreached(),
        }
    }

    /// Whether buying is allowed at a time: within the start and end times that are set
    /// (both included).
    pub fn is_trading_time(&self, time: TimeOfDay) -> (b: bool)
        ensures
            b == ((self.minimum_time_to_buy matches Some(s) ==> time_le(s, time)) && (
            self.maximum_time_to_buy matches Some(e) ==> time_le(time, e))),
    {
        match (self.minimum_time_to_buy, self.maximum_time_to_buy) {
            (Some(start), Some(end)) => start.not_after(&time) && time.not_after(&end),
            (Some(start), None) => start.not_after(&time),
            (None, Some(end)) => time.not_after(&end),
            (None, None) => true,
        }
    }
}

} // verus!

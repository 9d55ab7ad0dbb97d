//! Simulated market state: prices with a bid-ask spread, and deterministic price movements.

use vstd::prelude::*;
use crate::assoc::{
    assoc_get, assoc_insert, find_key, insert_key, key_index, keys_unique, lemma_key_index_found,
    lemma_key_index_props, lemma_map_vals, map_vals, pairs_view,
};
use crate::clock::{utc_now, Timestamp};
use crate::domain::decimal::{
    decimal_add, decimal_div, decimal_mul, decimal_sub, int_view, opt_view, Decimal, DecimalView,
};
use crate::domain::money::{opt_money, Money, MoneyView};
use crate::exchange::types::{Instrument, InstrumentType, InstrumentView, MarketData, MarketStatus};

verus! {

/// `a * b`, when both are known and the product fits.
pub open spec fn mul_o(a: Option<DecimalView>, b: Option<DecimalView>) -> Option<DecimalView> {
    match (a, b) {
        (Some(x), Some(y)) => decimal_mul(x, y),
        _ => None,
    }
}

/// `a / b`, when both are known and the quotient is defined.
pub open spec fn div_o(a: Option<DecimalView>, b: Option<DecimalView>) -> Option<DecimalView> {
    match (a, b) {
        (Some(x), Some(y)) => decimal_div(x, y),
        _ => None,
    }
}

/// `a + b`, when both are known and the sum fits.
pub open spec fn add_o(a: Option<DecimalView>, b: Option<DecimalView>) -> Option<DecimalView> {
    match (a, b) {
        (Some(x), Some(y)) => decimal_add(x, y),
        _ => None,
    }
}

/// `a - b`, when both are known and the difference fits.
pub open spec fn sub_o(a: Option<DecimalView>, b: Option<DecimalView>) -> Option<DecimalView> {
    match (a, b) {
        (Some(x), Some(y)) => decimal_sub(x, y),
        _ => None,
    }
}

fn mul_opt(a: Option<Decimal>, b: Option<Decimal>) -> (r: Option<Decimal>)
    ensures
        opt_view(r) == mul_o(opt_view(a), opt_view(b)),
{
    match (a, b) {
        (Some(x), Some(y)) => x.checked_mul(&y),
        _ => None,
    }
}

fn div_opt(a: Option<Decimal>, b: Option<Decimal>) -> (r: Option<Decimal>)
    ensures
        opt_view(r) == div_o(opt_view(a), opt_view(b)),
{
    match (a, b) {
        (Some(x), Some(y)) => x.checked_div(&y),
        _ => None,
    }
}

fn add_opt(a: Option<Decimal>, b: Option<Decimal>) -> (r: Option<Decimal>)
    ensures
        opt_view(r) == add_o(opt_view(a), opt_view(b)),
{
    match (a, b) {
        (Some(x), Some(y)) => x.checked_add(&y),
        _ => None,
    }
}

fn sub_opt(a: Option<Decimal>, b: Option<Decimal>) -> (r: Option<Decimal>)
    ensures
        opt_view(r) == sub_o(opt_view(a), opt_view(b)),
{
    match (a, b) {
        (Some(x), Some(y)) => x.checked_sub(&y),
        _ => None,
    }
}

/// The bid price: `price * (1 - spread_percent / 200)`.
pub open spec fn spec_bid(price: DecimalView, spread: DecimalView) -> Option<DecimalView> {
    mul_o(Some(price), sub_o(Some(int_view(1)), decimal_div(spread, int_view(200))))
}

/// The ask price: `price * (1 + spread_percent / 200)`.
pub open spec fn spec_ask(price: DecimalView, spread: DecimalView) -> Option<DecimalView> {
    mul_o(Some(price), add_o(Some(int_view(1)), decimal_div(spread, int_view(200))))
}

/// Simulated market state for a single instrument.
#[derive(Debug, Clone, Copy)]
pub struct MarketState {
    /// Current price.
    pub price: Decimal,
    /// Bid-ask spread as a percentage.
    pub spread_percent: Decimal,
    /// 24h volume.
    pub volume: Decimal,
    /// Current market status.
    pub status: MarketStatus,
    /// Last update time.
    pub last_update: Timestamp,
}

/// A state just created for a price: 0.1% spread, a volume of one million, an open market.
pub open spec fn is_fresh_state(s: MarketState, price: Decimal) -> bool {
    &&& s.price == price
    &&& s.spread_percent@ == (DecimalView { mantissa: 1, scale: 1 })
    &&& s.volume@ == int_view(1000000)
    &&& s.status == MarketStatus::Open
}

/// `b` is `a` with a new price (and any update time).
pub open spec fn repriced(a: MarketState, b: MarketState, price: Decimal) -> bool {
    &&& b.price == price
    &&& b.spread_percent == a.spread_percent
    &&& b.volume == a.volume
    &&& b.status == a.status
}

/// The market data arithmetic of a state is defined (bid, ask, and the 102% and 98% marks).
pub open spec fn market_data_defined(s: MarketState) -> bool {
    &&& spec_bid(s.price@, s.spread_percent@) is Some
    &&& spec_ask(s.price@, s.spread_percent@) is Some
    &&& decimal_mul(s.price@, DecimalView { mantissa: 102, scale: 2 }) is Some
    &&& decimal_mul(s.price@, DecimalView { mantissa: 98, scale: 2 }) is Some
}

/// The market data a state gives for a symbol, in a currency.
pub open spec fn is_market_data_of(r: MarketData, s: MarketState, symbol: Seq<char>, currency: Seq<char>) -> bool {
    &&& r.symbol@ == symbol
    &&& r.last_price@ == (MoneyView { amount: s.price@, currency })
    &&& opt_money(r.bid) == Some(
        MoneyView { amount: spec_bid(s.price@, s.spread_percent@)->Some_0, currency },
    )
    &&& opt_money(r.ask) == Some(
        MoneyView { amount: spec_ask(s.price@, s.spread_percent@)->Some_0, currency },
    )
    &&& r.volume_24h == Some(s.volume)
    &&& opt_money(r.high_24h) == Some(
        MoneyView {
            amount: decimal_mul(s.price@, DecimalView { mantissa: 102, scale: 2 })->Some_0,
            currency,
        },
    )
    &&& opt_money(r.low_24h) == Some(
        MoneyView {
            amount: decimal_mul(s.price@, DecimalView { mantissa: 98, scale: 2 })->Some_0,
            currency,
        },
    )
    &&& r.change_24h is None
    &&& r.change_percent_24h is None
    &&& r.market_status == s.status
    &&& r.timestamp == s.last_update
}

impl MarketState {
    /// A new state at a price, updated now.
    pub fn new(price: Decimal) -> (r: MarketState)
        ensures
            is_fresh_state(r, price),
    {
        MarketState {
            price,
            spread_percent: Decimal::new(1, 1),
            volume: Decimal::new(1000000, 0),
            status: MarketStatus::Open,
            last_update: utc_now(),
        }
    }

    /// Sets the spread percentage.
    pub fn with_spread(self, spread_percent: Decimal) -> (r: MarketState)
        ensures
            r == (MarketState { spread_percent, ..self }),
    {
        MarketState { spread_percent, ..self }
    }

    /// Sets the market status.
    pub fn with_status(self, status: MarketStatus) -> (r: MarketState)
        ensures
            r == (MarketState { status, ..self }),
    {
        MarketState { status, ..self }
    }

    /// The bid price.
    pub fn bid(&self) -> (r: Decimal)
        requires
            spec_bid(self.price@, self.spread_percent@) is Some,
        ensures
            Some(r@) == spec_bid(self.price@, self.spread_percent@),
    {
        let half = self.spread_percent.checked_div(&Decimal::from_u32(200));
        let factor = sub_opt(Some(Decimal::one()), half);
        match mul_opt(Some(self.price), factor) {
            Some(x) => x,
            None => vstd::pervasive::unreached(),
        }
    }

    /// The ask price.
    pub fn ask(&self) -> (r: Decimal)
        requires
            spec_ask(self.price@, self.spread_percent@) is Some,
        ensures
            Some(r@) == spec_ask(self.price@, self.spread_percent@),
    {
        let half = self.spread_percent.checked_div(&Decimal::from_u32(200));
        let factor = add_opt(Some(Decimal::one()), half);
        match mul_opt(Some(self.price), factor) {
            Some(x) => x,
            None => vstd::pervasive::unreached(),
        }
    }

    /// Updates the price (and the update time).
    pub fn set_price(&mut self, price: Decimal)
        ensures
            repriced(*old(self), *final(self), price),
    {
        self.price = price;
        self.last_update = utc_now();
    }

    /// The market data of this state for a symbol, priced in a currency.
    pub fn to_market_data(&self, symbol: &str, currency: &str) -> (r: MarketData)
        requires
            market_data_defined(*self),
        ensures
            is_market_data_of(r, *self, symbol@, currency@),
    {
        let high = match self.price.checked_mul(&Decimal::new(102, 2)) {
            Some(x) => x,
            None => vstd::pervasive::unreached(),
        };
        let low = match self.price.checked_mul(&Decimal::new(98, 2)) {
            Some(x) => x,
            None => vstd::pervasive::unreached(),
        };
        MarketData {
            symbol: String::from_str(symbol),
            last_price: Money::new(self.price, currency),
            bid: Some(Money::new(self.bid(), currency)),
            ask: Some(Money::new(self.ask(), currency)),
            volume_24h: Some(self.volume),
            high_24h: Some(Money::new(high, currency)),
            low_24h: Some(Money::new(low, currency)),
            change_24h: None,
            change_percent_24h: None,
            market_status: self.status,
            timestamp: self.last_update,
        }
    }
}

/// Price model for simulation.
#[derive(Debug, Clone, Copy)]
pub enum PriceModel {
    /// Static price (no changes).
    Static,
    /// Random walk with given volatility (percentage per tick).
    RandomWalk { volatility: Decimal },
    /// Mean reverting towards `mean` at `reversion_speed`, with random volatility.
    MeanReverting { mean: Decimal, reversion_speed: Decimal, volatility: Decimal },
    /// Trending with a drift per tick, with random volatility.
    Trending { drift: Decimal, volatility: Decimal },
}

/// The pseudo-random number (from -1.000 to 0.999) for a seed at a step: the seed times the
/// step, plus 12345 (wrapping), taken modulo 2000, minus 1000, in thousandths.
pub open spec fn spec_random(seed: u64, step: u64) -> DecimalView {
    let s = vstd::wrapping::u64_specs::wrapping_add(
        vstd::wrapping::u64_specs::wrapping_mul(seed, step),
        12345,
    );
    DecimalView { mantissa: (s % 2000) as int - 1000, scale: 3 }
}

/// The price after `current` under a model, with the random number of the given step.
pub open spec fn spec_next_price(model: PriceModel, seed: u64, step: u64, current: DecimalView) -> Option<
    DecimalView,
> {
    let random = Some(spec_random(seed, step));
    let hundred = Some(int_view(100));
    let one = Some(int_view(1));
    let cur = Some(current);
    match model {
        PriceModel::Static => cur,
        PriceModel::RandomWalk { volatility } => {
            let change = div_o(mul_o(Some(volatility@), random), hundred);
            mul_o(cur, add_o(one, change))
        },
        PriceModel::MeanReverting { mean, reversion_speed, volatility } => {
            let noise = div_o(mul_o(Some(volatility@), random), hundred);
            let reversion = div_o(mul_o(Some(reversion_speed@), sub_o(Some(mean@), cur)), hundred);
            add_o(add_o(cur, reversion), mul_o(cur, noise))
        },
        PriceModel::Trending { drift, volatility } => {
            let noise = div_o(mul_o(Some(volatility@), random), hundred);
            let trend = div_o(Some(drift@), hundred);
            mul_o(cur, add_o(add_o(one, trend), noise))
        },
    }
}

/// Price generator for simulating market movements.
#[derive(Debug, Clone, Copy)]
pub struct PriceGenerator {
    model: PriceModel,
    rng_seed: u64,
    step_count: u64,
}

/// The mathematical form of a `PriceGenerator`.
pub struct GeneratorView {
    pub model: PriceModel,
    pub seed: u64,
    pub steps: u64,
}

impl View for PriceGenerator {
    type V = GeneratorView;

    closed spec fn view(&self) -> GeneratorView {
        GeneratorView { model: self.model, seed: self.rng_seed, steps: self.step_count }
    }
}

/// A generator's next step is possible and its price is defined.
pub open spec fn step_defined(g: GeneratorView, current: DecimalView) -> bool {
    &&& g.steps < u64::MAX
    &&& spec_next_price(g.model, g.seed, (g.steps + 1) as u64, current) is Some
}

/// A generator after one step.
pub open spec fn stepped(g: GeneratorView) -> GeneratorView {
    GeneratorView { steps: (g.steps + 1) as u64, ..g }
}

impl PriceGenerator {
    /// A generator for a model, with seed 42 and no steps taken.
    pub fn new(model: PriceModel) -> (r: PriceGenerator)
        ensures
            r@ == (GeneratorView { model, seed: 42, steps: 0 }),
    {
        PriceGenerator { model, rng_seed: 42, step_count: 0 }
    }

    /// Sets the random seed.
    pub fn with_seed(self, seed: u64) -> (r: PriceGenerator)
        ensures
            r@ == (GeneratorView { seed, ..self@ }),
    {
        PriceGenerator { rng_seed: seed, ..self }
    }

    /// Generates the next price given the current price.
    pub fn next_price(&mut self, current: Decimal) -> (r: Decimal)
        requires
            step_defined(old(self)@, current@),
        ensures
            final(self)@ == stepped(old(self)@),
            Some(r@) == spec_next_price(old(self)@.model, old(self)@.seed, final(self)@.steps, current@),
    {
        self.step_count = self.step_count + 1;
        let random = Some(self.pseudo_random());
        let hundred = Some(Decimal::from_u32(100));
        let one = Some(Decimal::one());
        let cur = Some(current);
        let next = match self.model {
            PriceModel::Static => cur,
            PriceModel::RandomWalk { volatility } => {
                let change = div_opt(mul_opt(Some(volatility), random), hundred);
                mul_opt(cur, add_opt(one, change))
            },
            PriceModel::MeanReverting { mean, reversion_speed, volatility } => {
                let noise = div_opt(mul_opt(Some(volatility), random), hundred);
                let reversion = div_opt(
                    mul_opt(Some(reversion_speed), sub_opt(Some(mean), cur)),
                    hundred,
                );
                add_opt(add_opt(cur, reversion), mul_opt(cur, noise))
            },
            PriceModel::Trending { drift, volatility } => {
                let noise = div_opt(mul_opt(Some(volatility), random), hundred);
                let trend = div_opt(Some(drift), hundred);
                mul_opt(cur, add_opt(add_opt(one, trend), noise))
            },
        };
        match next {
            Some(x) => x,
            None => vstd::pervasive::unreached(),
        }
    }

    /// The pseudo-random number of the current step.
    fn pseudo_random(&self) -> (r: Decimal)
        ensures
            r@ == spec_random(self.rng_seed, self.step_count),
    {
        let seed = self.rng_seed.wrapping_mul(self.step_count).wrapping_add(12345);
        let value: i64 = (seed % 2000) as i64 - 1000;
        Decimal::new(value, 3)
    }
}

/// Manager for the market states, instruments and price generators of many symbols.
#[derive(Debug)]
pub struct MarketManager {
    states: Vec<(String, MarketState)>,
    instruments: Vec<(String, Instrument)>,
    generators: Vec<(String, PriceGenerator)>,
    base_currency: String,
}

/// The mathematical form of a `MarketManager`: states, instruments and generators by symbol
/// (each symbol at most once in each), and the base currency.
pub struct ManagerView {
    pub states: Seq<(Seq<char>, MarketState)>,
    pub instruments: Seq<(Seq<char>, InstrumentView)>,
    pub generators: Seq<(Seq<char>, GeneratorView)>,
    pub base_currency: Seq<char>,
}

/// An instrument's view.
pub open spec fn instrument_view_of(i: Instrument) -> InstrumentView {
    i@
}

/// A generator's view.
pub open spec fn generator_view_of(g: PriceGenerator) -> GeneratorView {
    g@
}

impl View for MarketManager {
    type V = ManagerView;

    closed spec fn view(&self) -> ManagerView {
        ManagerView {
            states: pairs_view(self.states@),
            instruments: map_vals(pairs_view(self.instruments@), |i: Instrument| instrument_view_of(i)),
            generators: map_vals(pairs_view(self.generators@), |g: PriceGenerator| generator_view_of(g)),
            base_currency: self.base_currency@,
        }
    }
}

/// The instrument the manager lists for a symbol.
pub open spec fn simulated_instrument(symbol: Seq<char>, name: Seq<char>, lot_size: nat, currency: Seq<char>) -> InstrumentView {
    InstrumentView {
        symbol,
        name,
        exchange_id: "SIM_"@ + symbol,
        exchange: "SIMULATOR"@,
        instrument_type: InstrumentType::Stock,
        currency,
        lot_size,
        min_price_increment: DecimalView { mantissa: 1, scale: 2 },
        min_quantity: 1,
        tradeable: true,
        margin_available: false,
        short_available: false,
    }
}

/// Every state with a generator can take its next step.
pub open spec fn tick_defined(v: ManagerView) -> bool {
    forall|i: int|
        0 <= i < v.states.len() ==> match assoc_get(v.generators, #[trigger] v.states[i].0) {
            Some(g) => step_defined(g, v.states[i].1.price@),
            None => true,
        }
}

/// A state after a tick, given the generator of its symbol (before the tick).
pub open spec fn ticked_state(before: MarketState, after: MarketState, g: Option<GeneratorView>) -> bool {
    match g {
        Some(gv) => repriced(
            before,
            after,
            after.price,
        ) && Some(after.price@) == spec_next_price(
            gv.model,
            gv.seed,
            (gv.steps + 1) as u64,
            before.price@,
        ),
        None => after == before,
    }
}

impl MarketManager {
    #[verifier::type_invariant]
    spec fn keys_distinct(self) -> bool {
        &&& keys_unique(pairs_view(self.states@))
        &&& keys_unique(pairs_view(self.instruments@))
        &&& keys_unique(pairs_view(self.generators@))
    }

    /// An empty market in a base currency.
    pub fn new(base_currency: &str) -> (r: MarketManager)
        ensures
            r@.states == Seq::<(Seq<char>, MarketState)>::empty(),
            r@.instruments == Seq::<(Seq<char>, InstrumentView)>::empty(),
            r@.generators == Seq::<(Seq<char>, GeneratorView)>::empty(),
            r@.base_currency == base_currency@,
    {
        let r = MarketManager {
            states: Vec::new(),
            instruments: Vec::new(),
            generators: Vec::new(),
            base_currency: String::from_str(base_currency),
        };
        assert(r@.states =~= Seq::<(Seq<char>, MarketState)>::empty());
        assert(r@.instruments =~= Seq::<(Seq<char>, InstrumentView)>::empty());
        assert(r@.generators =~= Seq::<(Seq<char>, GeneratorView)>::empty());
        r
    }

    /// The base currency.
    pub fn base_currency(&self) -> (r: &str)
        ensures
            r@ == self@.base_currency,
    {
        self.base_currency.as_str()
    }

    /// Adds (or replaces) an instrument with an initial price and a static price model.
    pub fn add_instrument(&mut self, symbol: &str, name: &str, price: Decimal, lot_size: u32)
        ensures
            final(self)@.instruments == assoc_insert(
                old(self)@.instruments,
                symbol@,
                simulated_instrument(symbol@, name@, lot_size as nat, old(self)@.base_currency),
            ),
            match assoc_get(final(self)@.states, symbol@) {
                Some(st) => is_fresh_state(st, price) && final(self)@.states == assoc_insert(
                    old(self)@.states,
                    symbol@,
                    st,
                ),
                None => false,
            },
            final(self)@.generators == assoc_insert(
                old(self)@.generators,
                symbol@,
                GeneratorView { model: PriceModel::Static, seed: 42, steps: 0 },
            ),
            final(self)@.base_currency == old(self)@.base_currency,
    {
        proof {
            use_type_invariant(&*self);
        }
        let mut exchange_id = String::from_str("SIM_");
        crate::text::append_str(&mut exchange_id, symbol);
        let instrument = Instrument {
            symbol: String::from_str(symbol),
            name: String::from_str(name),
            exchange_id,
            exchange: String::from_str("SIMULATOR"),
            instrument_type: InstrumentType::Stock,
            currency: self.base_currency.clone(),
            lot_size,
            min_price_increment: Decimal::new(1, 2),
            min_quantity: 1,
            tradeable: true,
            margin_available: false,
            short_available: false,
        };
        let state = MarketState::new(price);
        let generator = PriceGenerator::new(PriceModel::Static);
        let ghost iv = pairs_view(self.instruments@);
        let ghost sv = pairs_view(self.states@);
        let ghost gv = pairs_view(self.generators@);
        proof {
            crate::assoc::lemma_assoc_insert(iv, symbol@, instrument);
            crate::assoc::lemma_assoc_insert(sv, symbol@, state);
            crate::assoc::lemma_assoc_insert(gv, symbol@, generator);
            lemma_map_vals(iv, |i: Instrument| instrument_view_of(i), symbol@, instrument);
            lemma_map_vals(gv, |g: PriceGenerator| generator_view_of(g), symbol@, generator);
        }
        let mut instruments = Vec::new();
        std::mem::swap(&mut instruments, &mut self.instruments);
        insert_key(&mut instruments, symbol, instrument);
        self.instruments = instruments;
        let mut states = Vec::new();
        std::mem::swap(&mut states, &mut self.states);
        insert_key(&mut states, symbol, state);
        self.states = states;
        let mut generators = Vec::new();
        std::mem::swap(&mut generators, &mut self.generators);
        insert_key(&mut generators, symbol, generator);
        self.generators = generators;
    }

    /// Sets the price model of a symbol (a fresh generator, whether or not the symbol is
    /// listed).
    pub fn set_price_model(&mut self, symbol: &str, model: PriceModel)
        ensures
            final(self)@.generators == assoc_insert(
                old(self)@.generators,
                symbol@,
                GeneratorView { model, seed: 42, steps: 0 },
            ),
            final(self)@.states == old(self)@.states,
            final(self)@.instruments == old(self)@.instruments,
            final(self)@.base_currency == old(self)@.base_currency,
    {
        proof {
            use_type_invariant(&*self);
        }
        let generator = PriceGenerator::new(model);
        let ghost gv = pairs_view(self.generators@);
        proof {
            crate::assoc::lemma_assoc_insert(gv, symbol@, generator);
            lemma_map_vals(gv, |g: PriceGenerator| generator_view_of(g), symbol@, generator);
        }
        let mut generators = Vec::new();
        std::mem::swap(&mut generators, &mut self.generators);
        insert_key(&mut generators, symbol, generator);
        self.generators = generators;
    }

    /// The current market state of a symbol.
    pub fn get_state(&self, symbol: &str) -> (r: Option<&MarketState>)
        ensures
            match (r, assoc_get(self@.states, symbol@)) {
                (Some(x), Some(v)) => *x == v,
                (None, None) => true,
                _ => false,
            },
    {
        match find_key(&self.states, symbol) {
            Some(i) => Some(&self.states[i].1),
            None => None,
        }
    }

    /// The instrument of a symbol.
    pub fn get_instrument(&self, symbol: &str) -> (r: Option<&Instrument>)
        ensures
            match (r, assoc_get(self@.instruments, symbol@)) {
                (Some(x), Some(v)) => x@ == v,
                (None, None) => true,
                _ => false,
            },
    {
        let ghost iv = pairs_view(self.instruments@);
        proof {
            lemma_map_vals(iv, |i: Instrument| instrument_view_of(i), symbol@, arbitrary());
        }
        match find_key(&self.instruments, symbol) {
            Some(i) => Some(&self.instruments[i].1),
            None => None,
        }
    }

    /// The market data of a symbol, in the base currency.
    pub fn get_market_data(&self, symbol: &str) -> (r: Option<MarketData>)
        requires
            assoc_get(self@.states, symbol@) matches Some(st) ==> market_data_defined(st),
        ensures
            match (r, assoc_get(self@.states, symbol@)) {
                (Some(d), Some(st)) => is_market_data_of(d, st, symbol@, self@.base_currency),
                (None, None) => true,
                _ => false,
            },
    {
        match find_key(&self.states, symbol) {
            Some(i) => Some(self.states[i].1.to_market_data(symbol, self.base_currency.as_str())),
            None => None,
        }
    }

    /// All instruments, in the order they were first added.
    pub fn list_instruments(&self) -> (r: Vec<Instrument>)
        ensures
            r@.map_values(|i: Instrument| i@) == self@.instruments.map_values(
                |e: (Seq<char>, InstrumentView)| e.1,
            ),
    {
        let ghost target = self@.instruments.map_values(|e: (Seq<char>, InstrumentView)| e.1);
        let mut out: Vec<Instrument> = Vec::new();
        let mut i: usize = 0;
        while i < self.instruments.len()
            invariant
                i <= self.instruments.len(),
                target == self@.instruments.map_values(|e: (Seq<char>, InstrumentView)| e.1),
                target.len() == self.instruments@.len(),
                out@.map_values(|x: Instrument| x@) == target.take(i as int),
            decreases self.instruments.len() - i,
        {
            let ghost before = out@.map_values(|x: Instrument| x@);
            out.push(self.instruments[i].1.duplicate());
            assert(out@.map_values(|x: Instrument| x@) =~= before.push(target[i as int]));
            assert(target.take(i + 1) =~= target.take(i as int).push(target[i as int]));
            i = i + 1;
        }
        assert(target.take(self.instruments.len() as int) =~= target);
        out
    }

    /// Advances every priced symbol with a generator by one step of its model.
    pub fn tick(&mut self)
        requires
            tick_defined(old(self)@),
        ensures
            final(self)@.states.len() == old(self)@.states.len(),
            forall|i: int|
                0 <= i < old(self)@.states.len() ==> {
                    &&& (#[trigger] final(self)@.states[i]).0 == old(self)@.states[i].0
                    &&& ticked_state(
                        old(self)@.states[i].1,
                        final(self)@.states[i].1,
                        assoc_get(old(self)@.generators, old(self)@.states[i].0),
                    )
                },
            final(self)@.generators.len() == old(self)@.generators.len(),
            forall|j: int|
                0 <= j < old(self)@.generators.len() ==> {
                    &&& (#[trigger] final(self)@.generators[j]).0 == old(self)@.generators[j].0
                    &&& final(self)@.generators[j].1 == if assoc_get(
                        old(self)@.states,
                        old(self)@.generators[j].0,
                    ) is Some {
                        stepped(old(self)@.generators[j].1)
                    } else {
                        old(self)@.generators[j].1
                    }
                },
            final(self)@.instruments == old(self)@.instruments,
            final(self)@.base_currency == old(self)@.base_currency,
    {
        proof {
            use_type_invariant(&*self);
        }
        let ghost old_v = self@;
        let ghost ss = old_v.states;
        let ghost gs = old_v.generators;
        let mut states: Vec<(String, MarketState)> = Vec::new();
        std::mem::swap(&mut states, &mut self.states);
        let mut generators: Vec<(String, PriceGenerator)> = Vec::new();
        std::mem::swap(&mut generators, &mut self.generators);
        let mut i: usize = 0;
        proof {
            let pg = pairs_view(generators@);
            assert forall|j: int| 0 <= j < gs.len() implies {
                &&& (#[trigger] pg[j]).0 == gs[j].0
                &&& pg[j].1@ == if key_index(ss, gs[j].0, 0) matches Some(ii) && ii < i {
                    stepped(gs[j].1)
                } else {
                    gs[j].1
                }
            } by {
                assert(gs[j] == (pg[j].0, generator_view_of(pg[j].1)));
                lemma_key_index_props(ss, gs[j].0, 0);
            }
            let ps = pairs_view(states@);
            assert(ps == ss);
        }
        while i < states.len()
            invariant
                0 <= i <= states@.len(),
                ss.len() == states@.len(),
                keys_unique(ss),
                keys_unique(pairs_view(states@)),
                keys_unique(pairs_view(generators@)),
                tick_defined(old_v),
                ss == old_v.states,
                gs == old_v.generators,
                generators@.len() == gs.len(),
                forall|k: int|
                    0 <= k < ss.len() ==> {
                        &&& (#[trigger] pairs_view(states@)[k]).0 == ss[k].0
                        &&& k < i ==> ticked_state(
                            ss[k].1,
                            pairs_view(states@)[k].1,
                            assoc_get(gs, ss[k].0),
                        )
                        &&& k >= i ==> pairs_view(states@)[k].1 == ss[k].1
                    },
                forall|j: int|
                    0 <= j < gs.len() ==> {
                        &&& (#[trigger] pairs_view(generators@)[j]).0 == gs[j].0
                        &&& pairs_view(generators@)[j].1@ == if key_index(ss, gs[j].0, 0) matches Some(
                            ii,
                        ) && ii < i {
                            stepped(gs[j].1)
                        } else {
                            gs[j].1
                        }
                    },
            decreases states.len() - i,
        {
            let key = states[i].0.clone();
            let ghost k = ss[i as int].0;
            let ghost gnow = pairs_view(generators@);
            let ghost snow = pairs_view(states@);
            assert(snow[i as int].0 == ss[i as int].0);
            assert(snow[i as int].0 == states@[i as int].0@);
            assert(k == key@);
            proof {
                lemma_key_index_found(ss, k, 0, i as int);
                crate::assoc::lemma_key_index_same_keys(gs, gnow, k, 0);
                lemma_key_index_props(gs, k, 0);
            }
            match find_key(&generators, key.as_str()) {
                Some(j) => {
                    let mut g = generators[j].1;
                    let mut st = states[i].1;
                    proof {
                        assert(gs[j as int].0 == k);
                        assert(assoc_get(gs, k) == Some(gs[j as int].1));
                        assert(gnow[j as int].0 == gs[j as int].0);
                        assert(key_index(ss, k, 0) == Some(i as int));
                        assert(gnow[j as int].1@ == gs[j as int].1);
                        assert(g@ == gs[j as int].1);
                        assert(snow[i as int].1 == ss[i as int].1);
                        assert(st == ss[i as int].1);
                    }
                    let p = g.next_price(st.price);
                    st.set_price(p);
                    let gkey = generators[j].0.clone();
                    generators.set(j, (gkey, g));
                    states.set(i, (key, st));
                    proof {
                        assert(pairs_view(states@) =~= snow.update(i as int, (k, st)));
                        assert(pairs_view(generators@) =~= gnow.update(j as int, (gnow[j as int].0, g)));
                        assert forall|jj: int| 0 <= jj < gs.len() implies {
                            &&& (#[trigger] pairs_view(generators@)[jj]).0 == gs[jj].0
                            &&& pairs_view(generators@)[jj].1@ == if key_index(ss, gs[jj].0, 0) matches Some(
                                ii,
                            ) && ii < i + 1 {
                                stepped(gs[jj].1)
                            } else {
                                gs[jj].1
                            }
                        } by {
                            lemma_key_index_props(ss, gs[jj].0, 0);
                            if jj != j {
                                assert(gs[jj].0 != k);
                            }
                        }
                        assert forall|a: int, b: int|
                            0 <= a < b < pairs_view(states@).len() implies pairs_view(states@)[a].0
                            != pairs_view(states@)[b].0 by {
                            assert(snow[a].0 == ss[a].0);
                            assert(snow[b].0 == ss[b].0);
                        }
                        assert forall|a: int, b: int|
                            0 <= a < b < pairs_view(generators@).len() implies pairs_view(
                            generators@,
                        )[a].0 != pairs_view(generators@)[b].0 by {
                            assert(pairs_view(generators@)[a].0 == gnow[a].0);
                            assert(pairs_view(generators@)[b].0 == gnow[b].0);
                        }
                    }
                },
                None => {
                    proof {
                        assert(assoc_get(gs, k) is None);
                        assert forall|jj: int| 0 <= jj < gs.len() implies {
                            &&& (#[trigger] pairs_view(generators@)[jj]).0 == gs[jj].0
                            &&& pairs_view(generators@)[jj].1@ == if key_index(ss, gs[jj].0, 0) matches Some(
                                ii,
                            ) && ii < i + 1 {
                                stepped(gs[jj].1)
                            } else {
                                gs[jj].1
                            }
                        } by {
                            lemma_key_index_props(ss, gs[jj].0, 0);
                        }
                    }
                },
            }
            i = i + 1;
        }
        self.states = states;
        self.generators = generators;
        proof {
            assert forall|j: int| 0 <= j < gs.len() implies (assoc_get(ss, gs[j].0) is Some) == (
            key_index(ss, gs[j].0, 0) matches Some(ii) && ii < i) by {
                lemma_key_index_props(ss, gs[j].0, 0);
            }
        }
    }

    /// Sets the market status of every symbol.
    pub fn set_market_status(&mut self, status: MarketStatus)
        ensures
            final(self)@.states.len() == old(self)@.states.len(),
            forall|i: int|
                0 <= i < old(self)@.states.len() ==> (#[trigger] final(self)@.states[i]) == (
                old(self)@.states[i].0,
                MarketState { status, ..old(self)@.states[i].1 },
            ),
            final(self)@.instruments == old(self)@.instruments,
            final(self)@.generators == old(self)@.generators,
            final(self)@.base_currency == old(self)@.base_currency,
    {
        proof {
            use_type_invariant(&*self);
        }
        let ghost old_v = self@;
        let mut states: Vec<(String, MarketState)> = Vec::new();
        std::mem::swap(&mut states, &mut self.states);
        let mut i: usize = 0;
        while i < states.len()
            invariant
                0 <= i <= states@.len(),
                old_v.states.len() == states@.len(),
                keys_unique(pairs_view(states@)),
                keys_unique(old_v.states),
                forall|k: int|
                    0 <= k < old_v.states.len() ==> (#[trigger] pairs_view(states@)[k]) == if k < i {
                        (old_v.states[k].0, MarketState { status, ..old_v.states[k].1 })
                    } else {
                        old_v.states[k]
                    },
            decreases states.len() - i,
        {
            let ghost before = pairs_view(states@);
            let key = states[i].0.clone();
            let st = states[i].1.with_status(status);
            assert(before[i as int] == old_v.states[i as int]);
            assert(key@ == before[i as int].0);
            states.set(i, (key, st));
            proof {
                assert(pairs_view(states@) =~= before.update(i as int, (key@, st)));
                assert forall|a: int| 0 <= a < old_v.states.len() implies (#[trigger] pairs_view(states@)[a]).0
                    == old_v.states[a].0 by {
                    assert(before[a] == if a < i {
                        (old_v.states[a].0, MarketState { status, ..old_v.states[a].1 })
                    } else {
                        old_v.states[a]
                    });
                }
                assert forall|a: int, b: int|
                    0 <= a < b < pairs_view(states@).len() implies pairs_view(states@)[a].0
                    != pairs_view(states@)[b].0 by {
                    assert(pairs_view(states@)[a].0 == old_v.states[a].0);
                    assert(pairs_view(states@)[b].0 == old_v.states[b].0);
                }
            }
            i = i + 1;
        }
        self.states = states;
    }

    /// Sets the price of a listed symbol (and its update time); an unknown symbol changes
    /// nothing.
    pub fn set_price(&mut self, symbol: &str, price: Decimal)
        ensures
            match key_index(old(self)@.states, symbol@, 0) {
                Some(i) => {
                    &&& final(self)@.states.len() == old(self)@.states.len()
                    &&& final(self)@.states[i].0 == symbol@
                    &&& repriced(old(self)@.states[i].1, final(self)@.states[i].1, price)
                    &&& forall|j: int|
                        0 <= j < old(self)@.states.len() && j != i
                            ==> #[trigger] final(self)@.states[j] == old(self)@.states[j]
                },
                None => final(self)@.states == old(self)@.states,
            },
            final(self)@.instruments == old(self)@.instruments,
            final(self)@.generators == old(self)@.generators,
            final(self)@.base_currency == old(self)@.base_currency,
    {
        proof {
            use_type_invariant(&*self);
        }
        let ghost old_s = pairs_view(self.states@);
        let mut states: Vec<(String, MarketState)> = Vec::new();
        std::mem::swap(&mut states, &mut self.states);
        match find_key(&states, symbol) {
            Some(i) => {
                let mut st = states[i].1;
                st.set_price(price);
                states.set(i, (String::from_str(symbol), st));
                proof {
                    lemma_key_index_props(old_s, symbol@, 0);
                    assert(pairs_view(states@) =~= old_s.update(i as int, (symbol@, st)));
                    assert forall|a: int, b: int|
                        0 <= a < b < pairs_view(states@).len() implies pairs_view(states@)[a].0
                        != pairs_view(states@)[b].0 by {
                        assert(pairs_view(states@)[a].0 == old_s[a].0);
                        assert(pairs_view(states@)[b].0 == old_s[b].0);
                    }
                }
            },
            None => {},
        }
        self.states = states;
    }
}


/// A static price model never moves the price: a tick leaves the price of a symbol whose
/// generator is static unchanged.
pub proof fn lemma_static_price_stays(before: MarketState, after: MarketState, g: GeneratorView)
    requires
        g.model is Static,
        ticked_state(before, after, Some(g)),
    ensures
        after.price@ == before.price@,
{
}

} // verus!

//! Application configuration: allocation modes, market-closure behaviour, global settings,
//! configuration errors and the defaults that a configuration file may leave out.

use vstd::prelude::*;
use crate::domain::decimal::{decimal_sub, decimal_text, int_view, value_lt, Decimal, DecimalView};
use crate::domain::wallet::{
    abs_view, decimal_sum, entries_view, entry_values, insert_all, DesiredAllocation,
};
use crate::strategy::engine::BalancerConfig;
use crate::text::{append_str, chars_eq};

verus! {

/// Mode for determining desired allocation.
#[derive(Debug, Clone, Copy, PartialEq, Eq, Structural)]
pub enum AllocationMode {
    /// Manual allocation with fixed percentages.
    Manual,
    /// Allocation based on market capitalization.
    MarketCap,
    /// Allocation based on assets under management.
    Aum,
    /// Decorrelation strategy.
    Decorrelation,
}

impl AllocationMode {
    /// The default mode (manual).
    pub fn default() -> (r: Self)
        ensures
            r == AllocationMode::Manual,
    {
        AllocationMode::Manual
    }
}

/// Behavior when market is closed.
#[derive(Debug, Clone, Copy, PartialEq, Eq, Structural)]
pub enum MarketClosureBehavior {
    /// Skip the rebalancing iteration.
    Skip,
    /// Force orders (may be queued or rejected).
    Force,
    /// Perform calculations but don't place orders.
    DryRun,
}

impl MarketClosureBehavior {
    /// The default behaviour (skip).
    pub fn default() -> (r: Self)
        ensures
            r == MarketClosureBehavior::Skip,
    {
        MarketClosureBehavior::Skip
    }
}

/// Global application settings.
#[derive(Debug, Clone)]
pub struct GlobalSettings {
    /// Log level.
    pub log_level: String,
    /// Whether to enable verbose logging.
    pub verbose: bool,
    /// Whether to run in dry mode globally.
    pub dry_run: bool,
}

impl GlobalSettings {
    /// Settings with every field at its type's default.
    pub fn default() -> (r: Self)
        ensures
            r.log_level@ == Seq::<char>::empty(),
            !r.verbose,
            !r.dry_run,
    {
        GlobalSettings { log_level: String::new(), verbose: false, dry_run: false }
    }
}

/// Configuration-related errors.
#[derive(Debug, Clone)]
pub enum ConfigError {
    /// File I/O error.
    IoError(String),
    /// JSON parsing error.
    ParseError(String),
    /// JSON serialization error.
    SerializeError(String),
    /// Configuration validation error.
    ValidationError(String),
}

/// Environment variable named for an account's API token when none is given.
pub fn default_token_env() -> (r: String)
    ensures
        r@ == "EXCHANGE_API_TOKEN"@,
{
    "EXCHANGE_API_TOKEN".to_string()
}

/// Rebalancing interval when none is given: one hour.
pub fn default_balance_interval() -> (r: u64)
    ensures
        r == 3600,
{
    3600
}

/// Delay between orders when none is given: one second.
pub fn default_order_delay() -> (r: u64)
    ensures
        r == 1000,
{
    1000
}

/// Users are active unless stated otherwise.
pub fn default_true() -> (r: bool)
    ensures
        r,
{
    true
}

/// Configuration version when none is given.
pub fn default_version() -> (r: String)
    ensures
        r@ == "1.0.0"@,
{
    "1.0.0".to_string()
}

/// Log level when none is given.
pub fn default_log_level() -> (r: String)
    ensures
        r@ == "info"@,
{
    "info".to_string()
}

impl ConfigError {
    /// The message of the error.
    pub fn to_string(&self) -> (s: String)
        ensures
            s@ == match self {
                ConfigError::IoError(e) => "IO error: "@ + e@,
                ConfigError::ParseError(e) => "Parse error: "@ + e@,
                ConfigError::SerializeError(e) => "Serialize error: "@ + e@,
                ConfigError::ValidationError(e) => "Validation error: "@ + e@,
            },
    {
        let (mut s, e) = match self {
            ConfigError::IoError(e) => (String::from_str("IO error: "), e),
            ConfigError::ParseError(e) => (String::from_str("Parse error: "), e),
            ConfigError::SerializeError(e) => (String::from_str("Serialize error: "), e),
            ConfigError::ValidationError(e) => (String::from_str("Validation error: "), e),
        };
        append_str(&mut s, e.as_str());
        s
    }
}

/// Margin trading configuration.
#[derive(Debug)]
pub struct MarginConfig {
    /// Whether margin trading is enabled.
    pub enabled: bool,
    /// Margin multiplier (e.g., 2.0 for 2x leverage).
    pub multiplier: Decimal,
    /// Maximum margin position size as percentage of portfolio.
    pub max_margin_size: Option<Decimal>,
}

impl Default for MarginConfig {
    fn default() -> (r: MarginConfig)
        ensures
            !r.enabled,
            r.multiplier@ == int_view(1),
            r.max_margin_size is None,
    {
        MarginConfig { enabled: false, multiplier: Decimal::one(), max_margin_size: None }
    }
}

/// Minimum trade percentage when none is given: 0.1%.
pub fn default_min_trade_percent() -> (r: Decimal)
    ensures
        r@ == (DecimalView { mantissa: 1, scale: 1 }),
{
    Decimal::new(1, 1)
}

/// Rebalancing tolerance when none is given: 0.5%.
pub fn default_tolerance() -> (r: Decimal)
    ensures
        r@ == (DecimalView { mantissa: 5, scale: 1 }),
{
    Decimal::new(5, 1)
}

/// Margin multiplier when none is given: 1.
pub fn default_multiplier() -> (r: Decimal)
    ensures
        r@ == int_view(1),
{
    Decimal::one()
}

/// Configuration for a single trading account.
#[derive(Debug)]
pub struct AccountConfig {
    /// Unique account identifier.
    pub id: String,
    /// Human-readable account name.
    pub name: String,
    /// Exchange type.
    pub exchange: String,
    /// Exchange-specific account ID.
    pub exchange_account_id: String,
    /// Environment variable holding the API token.
    pub token_env_var: String,
    /// Desired allocation (symbol, percentage), each symbol once.
    pub desired_allocation: Vec<(String, Decimal)>,
    /// Allocation mode.
    pub allocation_mode: AllocationMode,
    /// Balance interval in seconds.
    pub balance_interval_secs: u64,
    /// Delay between orders in milliseconds.
    pub order_delay_ms: u64,
    /// Margin configuration.
    pub margin: MarginConfig,
    /// Behavior when market is closed.
    pub market_closure_behavior: MarketClosureBehavior,
    /// Minimum profit percentage required to close a position.
    pub min_profit_percent_for_close: Option<Decimal>,
    /// Minimum trade size as percentage of portfolio.
    pub min_trade_percent: Decimal,
    /// Tolerance percentage for rebalancing.
    pub tolerance_percent: Decimal,
}

impl AccountConfig {
    /// The desired allocation as a map.
    pub fn to_desired_allocation(&self) -> (r: DesiredAllocation)
        ensures
            r@ == insert_all(Seq::empty(), entries_view(self.desired_allocation@)),
    {
        let mut v: Vec<(String, Decimal)> = Vec::new();
        let mut i: usize = 0;
        while i < self.desired_allocation.len()
            invariant
                i <= self.desired_allocation.len(),
                entries_view(v@) == entries_view(self.desired_allocation@).take(i as int),
            decreases self.desired_allocation.len() - i,
        {
            let ghost before = entries_view(v@);
            let k = self.desired_allocation[i].0.clone();
            v.push((k, self.desired_allocation[i].1));
            assert(entries_view(v@) =~= before.push(entries_view(self.desired_allocation@)[i as int]));
            assert(entries_view(self.desired_allocation@).take(i + 1) =~= entries_view(
                self.desired_allocation@,
            ).take(i as int).push(entries_view(self.desired_allocation@)[i as int]));
            i = i + 1;
        }
        assert(entries_view(self.desired_allocation@).take(self.desired_allocation.len() as int)
            =~= entries_view(self.desired_allocation@));
        DesiredAllocation::from_map(v)
    }

    /// The balancer configuration for this account: its minimum trade percentage,
    /// tolerance, order delay and minimum profit, a minimum trade value of 100, at most 20
    /// orders a cycle, and a dry run when closed markets are to be dry-run.
    pub fn to_balancer_config(&self) -> (r: BalancerConfig)
        ensures
            r.min_trade_percent == self.min_trade_percent,
            r.min_trade_value@ == (DecimalView { mantissa: 100, scale: 0 }),
            r.tolerance_percent == self.tolerance_percent,
            r.order_delay_ms == self.order_delay_ms,
            r.dry_run == (self.market_closure_behavior == MarketClosureBehavior::DryRun),
            r.max_orders_per_cycle == 20,
            r.min_profit_percent_for_close == self.min_profit_percent_for_close,
    {
        BalancerConfig {
            min_trade_percent: self.min_trade_percent,
            min_trade_value: Decimal::new(100, 0),
            tolerance_percent: self.tolerance_percent,
            order_delay_ms: self.order_delay_ms,
            dry_run: match self.market_closure_behavior {
                MarketClosureBehavior::DryRun => true,
                _ => false,
            },
            max_orders_per_cycle: 20,
            min_profit_percent_for_close: self.min_profit_percent_for_close,
        }
    }
}

/// Configuration for a user.
#[derive(Debug)]
pub struct UserConfig {
    /// Unique user identifier.
    pub id: String,
    /// Human-readable user name.
    pub name: String,
    /// Email (optional).
    pub email: Option<String>,
    /// Trading accounts for this user.
    pub accounts: Vec<AccountConfig>,
    /// Whether this user is active.
    pub active: bool,
}

/// Index of the first account configuration with the id.
pub open spec fn config_index(accs: Seq<AccountConfig>, id: Seq<char>, from: int) -> Option<int>
    decreases accs.len() - from,
{
    if from < 0 || from >= accs.len() {
        None
    } else if accs[from].id@ == id {
        Some(from)
    } else {
        config_index(accs, id, from + 1)
    }
}

fn find_config<'a>(accs: &'a Vec<AccountConfig>, id: &str) -> (r: Option<&'a AccountConfig>)
    ensures
        match config_index(accs@, id@, 0) {
            Some(i) => r == Some(&accs@[i]),
            None => r is None,
        },
{
    let mut i: usize = 0;
    while i < accs.len()
        invariant
            i <= accs.len(),
            config_index(accs@, id@, 0) == config_index(accs@, id@, i as int),
        decreases accs.len() - i,
    {
        if chars_eq(accs[i].id.as_str(), id) {
            return Some(&accs[i]);
        }
        i = i + 1;
    }
    None
}

impl UserConfig {
    /// A new active user with no email and no accounts.
    pub fn new(id: &str, name: &str) -> (r: UserConfig)
        ensures
            r.id@ == id@,
            r.name@ == name@,
            r.email is None,
            r.accounts@.len() == 0,
            r.active,
    {
        UserConfig {
            id: String::from_str(id),
            name: String::from_str(name),
            email: None,
            accounts: Vec::new(),
            active: true,
        }
    }

    /// Adds an account.
    pub fn add_account(&mut self, account: AccountConfig)
        ensures
            final(self).accounts@ == old(self).accounts@.push(account),
            final(self).id == old(self).id,
            final(self).name == old(self).name,
            final(self).email == old(self).email,
            final(self).active == old(self).active,
    {
        self.accounts.push(account);
    }

    /// The first account with the id.
    pub fn get_account(&self, id: &str) -> (r: Option<&AccountConfig>)
        ensures
            match config_index(self.accounts@, id@, 0) {
                Some(i) => r == Some(&self.accounts@[i]),
                None => r is None,
            },
    {
        find_config(&self.accounts, id)
    }

    /// The accounts (all of them are active).
    pub fn active_accounts(&self) -> (r: &[AccountConfig])
        ensures
            r@ == self.accounts@,
    {
        self.accounts.as_slice()
    }
}

/// Main application configuration.
#[derive(Debug)]
pub struct AppConfig {
    /// Configuration version.
    pub version: String,
    /// Global settings.
    pub settings: GlobalSettings,
    /// Users.
    pub users: Vec<UserConfig>,
    /// Accounts outside any user.
    pub accounts: Vec<AccountConfig>,
}

/// The sum of an account's desired percentages.
pub open spec fn allocation_total(a: AccountConfig) -> Option<DecimalView> {
    decimal_sum(entry_values(entries_view(a.desired_allocation@)))
}

/// The arithmetic of checking an account is defined.
pub open spec fn account_check_defined(a: AccountConfig) -> bool {
    (a.id@.len() > 0 && a.exchange@.len() > 0 && a.allocation_mode == AllocationMode::Manual
        && a.desired_allocation@.len() > 0) ==> {
        &&& allocation_total(a) is Some
        &&& decimal_sub(allocation_total(a)->Some_0, int_view(100)) is Some
    }
}

/// The problem with an account configuration, if any: no id, no exchange, or a manual
/// allocation summing to more than 1 away from 100.
pub open spec fn account_problem(a: AccountConfig) -> Option<Seq<char>> {
    if a.id@.len() == 0 {
        Some("Account ID cannot be empty"@)
    } else if a.exchange@.len() == 0 {
        Some("Account "@ + a.id@ + " has no exchange specified"@)
    } else if a.allocation_mode == AllocationMode::Manual && a.desired_allocation@.len() > 0
        && value_lt(
        int_view(1),
        abs_view(decimal_sub(allocation_total(a)->Some_0, int_view(100))->Some_0),
    ) {
        Some(
            "Account "@ + a.id@ + " allocation sums to "@ + decimal_text(allocation_total(a)->Some_0)
                + "%, expected ~100%"@,
        )
    } else {
        None
    }
}

/// The first problem among account configurations, from `i` on.
pub open spec fn first_account_problem(accs: Seq<AccountConfig>, i: int) -> Option<Seq<char>>
    decreases accs.len() - i,
{
    if i < 0 || i >= accs.len() {
        None
    } else {
        match account_problem(accs[i]) {
            Some(p) => Some(p),
            None => first_account_problem(accs, i + 1),
        }
    }
}

/// The first problem among users, from `i` on: a user without id, or one of its accounts.
pub open spec fn first_user_problem(users: Seq<UserConfig>, i: int) -> Option<Seq<char>>
    decreases users.len() - i,
{
    if i < 0 || i >= users.len() {
        None
    } else if users[i].id@.len() == 0 {
        Some("User ID cannot be empty"@)
    } else {
        match first_account_problem(users[i].accounts@, 0) {
            Some(p) => Some(p),
            None => first_user_problem(users, i + 1),
        }
    }
}

/// What `validate` reports: no accounts at all, else the first problem of the direct
/// accounts, then of the users in order.
pub open spec fn spec_app_validate(c: AppConfig) -> Option<Seq<char>> {
    if no_accounts(c) {
        Some("No accounts configured"@)
    } else {
        match first_account_problem(c.accounts@, 0) {
            Some(p) => Some(p),
            None => first_user_problem(c.users@, 0),
        }
    }
}

/// No account anywhere: neither direct nor under a user.
pub open spec fn no_accounts(c: AppConfig) -> bool {
    c.accounts@.len() == 0 && forall|i: int|
        0 <= i < c.users@.len() ==> (#[trigger] c.users@[i]).accounts@.len() == 0
}

/// The checks of the accounts from `i` on are defined as far as they are reached: each
/// account's own check, and the next ones while no problem has been found.
pub open spec fn checks_defined_from(accs: Seq<AccountConfig>, i: int) -> bool
    decreases accs.len() - i,
{
    if i < 0 || i >= accs.len() {
        true
    } else {
        &&& account_check_defined(accs[i])
        &&& (account_problem(accs[i]) is None ==> checks_defined_from(accs, i + 1))
    }
}

/// The checks of the users from `i` on are defined as far as they are reached.
pub open spec fn users_defined_from(users: Seq<UserConfig>, i: int) -> bool
    decreases users.len() - i,
{
    if i < 0 || i >= users.len() {
        true
    } else {
        users[i].id@.len() > 0 ==> {
            &&& checks_defined_from(users[i].accounts@, 0)
            &&& (first_account_problem(users[i].accounts@, 0) is None ==> users_defined_from(
                users,
                i + 1,
            ))
        }
    }
}

/// Every account check that validating the configuration reaches is defined.
pub open spec fn app_check_defined(c: AppConfig) -> bool {
    &&& checks_defined_from(c.accounts@, 0)
    &&& (first_account_problem(c.accounts@, 0) is None ==> users_defined_from(c.users@, 0))
}

impl AppConfig {
    /// The account with the id: a direct account first, else the first user's account.
    pub fn get_account(&self, id: &str) -> (r: Option<&AccountConfig>)
        ensures
            match config_index(self.accounts@, id@, 0) {
                Some(i) => r == Some(&self.accounts@[i]),
                None => match first_user_with(self.users@, id@, 0) {
                    Some(u) => r == Some(
                        &self.users@[u].accounts@[config_index(self.users@[u].accounts@, id@, 0)->Some_0],
                    ),
                    None => r is None,
                },
            },
    {
        match find_config(&self.accounts, id) {
            Some(a) => {
                return Some(a);
            },
            None => {},
        }
        let mut i: usize = 0;
        while i < self.users.len()
            invariant
                i <= self.users.len(),
                config_index(self.accounts@, id@, 0) is None,
                first_user_with(self.users@, id@, 0) == first_user_with(self.users@, id@, i as int),
            decreases self.users.len() - i,
        {
            match self.users[i].get_account(id) {
                Some(a) => {
                    return Some(a);
                },
                None => {},
            }
            i = i + 1;
        }
        None
    }

    /// The first user with the id.
    pub fn get_user(&self, id: &str) -> (r: Option<&UserConfig>)
        ensures
            match user_config_index(self.users@, id@, 0) {
                Some(i) => r == Some(&self.users@[i]),
                None => r is None,
            },
    {
        let mut i: usize = 0;
        while i < self.users.len()
            invariant
                i <= self.users.len(),
                user_config_index(self.users@, id@, 0) == user_config_index(
                    self.users@,
                    id@,
                    i as int,
                ),
            decreases self.users.len() - i,
        {
            if chars_eq(self.users[i].id.as_str(), id) {
                return Some(&self.users[i]);
            }
            i = i + 1;
        }
        None
    }

    /// The direct accounts, then every user's accounts.
    pub fn all_accounts(&self) -> (r: Vec<&AccountConfig>)
        ensures
            r@.map_values(|a: &AccountConfig| *a) == self.accounts@ + user_accounts(self.users@),
    {
        let mut out: Vec<&AccountConfig> = Vec::new();
        let mut i: usize = 0;
        while i < self.accounts.len()
            invariant
                i <= self.accounts.len(),
                out@.map_values(|a: &AccountConfig| *a) == self.accounts@.take(i as int),
            decreases self.accounts.len() - i,
        {
            let ghost prev = out@.map_values(|a: &AccountConfig| *a);
            out.push(&self.accounts[i]);
            assert(out@.map_values(|a: &AccountConfig| *a) =~= prev.push(self.accounts@[i as int]));
            assert(self.accounts@.take(i + 1) =~= self.accounts@.take(i as int).push(
                self.accounts@[i as int],
            ));
            i = i + 1;
        }
        assert(self.accounts@.take(self.accounts.len() as int) =~= self.accounts@);
        let mut u: usize = 0;
        while u < self.users.len()
            invariant
                u <= self.users.len(),
                out@.map_values(|a: &AccountConfig| *a) == self.accounts@ + user_accounts(
                    self.users@.take(u as int),
                ),
            decreases self.users.len() - u,
        {
            let accs = &self.users[u].accounts;
            let ghost before = out@.map_values(|a: &AccountConfig| *a);
            let mut j: usize = 0;
            while j < accs.len()
                invariant
                    j <= accs.len(),
                    out@.map_values(|a: &AccountConfig| *a) == before + accs@.take(j as int),
                decreases accs.len() - j,
            {
                let ghost prev = out@.map_values(|a: &AccountConfig| *a);
                out.push(&accs[j]);
                assert(out@.map_values(|a: &AccountConfig| *a) =~= prev.push(accs@[j as int]));
                assert(before + accs@.take(j + 1) =~= (before + accs@.take(j as int)).push(
                    accs@[j as int],
                ));
                j = j + 1;
            }
            assert(accs@.take(accs.len() as int) =~= accs@);
            assert(self.users@.take(u + 1).drop_last() =~= self.users@.take(u as int));
            assert(self.accounts@ + user_accounts(self.users@.take(u + 1)) =~= before + accs@);
            u = u + 1;
        }
        assert(self.users@.take(self.users.len() as int) =~= self.users@);
        out
    }

    /// The active users, in order.
    pub fn active_users(&self) -> (r: Vec<&UserConfig>)
        ensures
            r@.map_values(|u: &UserConfig| *u) == self.users@.filter(|u: UserConfig| u.active),
    {
        let ghost src = self.users@;
        let mut out: Vec<&UserConfig> = Vec::new();
        let mut i: usize = 0;
        while i < self.users.len()
            invariant
                i <= self.users.len(),
                src == self.users@,
                out@.map_values(|u: &UserConfig| *u) == src.take(i as int).filter(
                    |u: UserConfig| u.active,
                ),
            decreases self.users.len() - i,
        {
            proof {
                assert(src.take(i + 1) =~= src.take(i as int).push(src[i as int]));
                src.take(i as int).lemma_filter_push(src[i as int], |u: UserConfig| u.active);
            }
            if self.users[i].active {
                let ghost before = out@.map_values(|u: &UserConfig| *u);
                out.push(&self.users[i]);
                assert(out@.map_values(|u: &UserConfig| *u) =~= before.push(src[i as int]));
            }
            i = i + 1;
        }
        assert(src.take(self.users.len() as int) =~= src);
        out
    }

    /// Whether every account check that `validate` reaches is defined (what it needs).
    pub fn validate_is_defined(&self) -> (b: bool)
        ensures
            b == app_check_defined(*self),
    {
        let mut i: usize = 0;
        while i < self.accounts.len()
            invariant
                i <= self.accounts.len(),
                checks_defined_from(self.accounts@, 0) == checks_defined_from(self.accounts@, i as int),
                first_account_problem(self.accounts@, 0) == first_account_problem(
                    self.accounts@,
                    i as int,
                ),
            decreases self.accounts.len() - i,
        {
            if !account_check_is_defined(&self.accounts[i]) {
                return false;
            }
            match validate_account(&self.accounts[i]) {
                Err(_) => {
                    return true;
                },
                Ok(()) => {},
            }
            i = i + 1;
        }
        let mut u: usize = 0;
        while u < self.users.len()
            invariant
                u <= self.users.len(),
                checks_defined_from(self.accounts@, 0),
                first_account_problem(self.accounts@, 0) is None,
                users_defined_from(self.users@, 0) == users_defined_from(self.users@, u as int),
            decreases self.users.len() - u,
        {
            let user = &self.users[u];
            if user.id.as_str().is_empty() {
                return true;
            }
            let mut j: usize = 0;
            while j < user.accounts.len()
                invariant
                    0 <= u < self.users@.len(),
                    user == &self.users@[u as int],
                    user.id@.len() > 0,
                    j <= user.accounts.len(),
                    checks_defined_from(self.accounts@, 0),
                    first_account_problem(self.accounts@, 0) is None,
                    users_defined_from(self.users@, 0) == users_defined_from(self.users@, u as int),
                    checks_defined_from(user.accounts@, 0) == checks_defined_from(
                        user.accounts@,
                        j as int,
                    ),
                    first_account_problem(user.accounts@, 0) == first_account_problem(
                        user.accounts@,
                        j as int,
                    ),
                decreases user.accounts.len() - j,
            {
                if !account_check_is_defined(&user.accounts[j]) {
                    return false;
                }
                match validate_account(&user.accounts[j]) {
                    Err(_) => {
                        return true;
                    },
                    Ok(()) => {},
                }
                j = j + 1;
            }
            u = u + 1;
        }
        true
    }

    /// Checks the configuration: some account must exist, and every account (direct ones
    /// first, then each user's after checking the user has an id) must pass its checks.
    pub fn validate(&self) -> (r: Result<(), ConfigError>)
        requires
            app_check_defined(*self),
        ensures
            match (r, spec_app_validate(*self)) {
                (Ok(()), None) => true,
                (Err(ConfigError::ValidationError(m)), Some(p)) => m@ == p,
                _ => false,
            },
            r is Ok ==> forall|u: int, j: int|
                0 <= u < self.users@.len() && 0 <= j < self.users@[u].accounts@.len()
                    ==> account_problem(#[trigger] self.users@[u].accounts@[j]) is None,
            r is Ok ==> forall|j: int|
                0 <= j < self.accounts@.len() ==> account_problem(#[trigger] self.accounts@[j]) is None,
    {
        proof {
            lemma_app_validate_checks_every_account(*self);
        }
        let mut has_accounts = self.accounts.len() > 0;
        let mut k: usize = 0;
        while k < self.users.len()
            invariant
                k <= self.users.len(),
                has_accounts == (self.accounts@.len() > 0 || exists|i: int|
                    0 <= i < k && (#[trigger] self.users@[i]).accounts@.len() > 0),
            decreases self.users.len() - k,
        {
            if self.users[k].accounts.len() > 0 {
                has_accounts = true;
            }
            k = k + 1;
        }
        if !has_accounts {
            return Err(ConfigError::ValidationError(String::from_str("No accounts configured")));
        }
        assert(!no_accounts(*self));
        let mut i: usize = 0;
        while i < self.accounts.len()
            invariant
                i <= self.accounts.len(),
                app_check_defined(*self),
                !no_accounts(*self),
                first_account_problem(self.accounts@, 0) == first_account_problem(
                    self.accounts@,
                    i as int,
                ),
                checks_defined_from(self.accounts@, i as int),
            decreases self.accounts.len() - i,
        {
            match validate_account(&self.accounts[i]) {
                Err(e) => {
                    return Err(e);
                },
                Ok(()) => {},
            }
            i = i + 1;
        }
        let mut u: usize = 0;
        while u < self.users.len()
            invariant
                u <= self.users.len(),
                app_check_defined(*self),
                !no_accounts(*self),
                first_account_problem(self.accounts@, 0) is None,
                first_user_problem(self.users@, 0) == first_user_problem(self.users@, u as int),
                users_defined_from(self.users@, u as int),
            decreases self.users.len() - u,
        {
            let user = &self.users[u];
            if user.id.as_str().is_empty() {
                return Err(ConfigError::ValidationError(String::from_str("User ID cannot be empty")));
            }
            let mut j: usize = 0;
            while j < user.accounts.len()
                invariant
                    0 <= u < self.users@.len(),
                    user == &self.users@[u as int],
                    user.id@.len() > 0,
                    j <= user.accounts.len(),
                    app_check_defined(*self),
                    !no_accounts(*self),
                    first_account_problem(self.accounts@, 0) is None,
                    first_user_problem(self.users@, 0) == first_user_problem(self.users@, u as int),
                    first_account_problem(user.accounts@, 0) == first_account_problem(
                        user.accounts@,
                        j as int,
                    ),
                    checks_defined_from(user.accounts@, j as int),
                    users_defined_from(self.users@, u as int),
                decreases user.accounts.len() - j,
            {
                match validate_account(&user.accounts[j]) {
                    Err(e) => {
                        return Err(e);
                    },
                    Ok(()) => {},
                }
                j = j + 1;
            }
            u = u + 1;
        }
        Ok(())
    }
}

/// Whether checking one account's allocation is defined (what `validate_account` needs).
pub fn account_check_is_defined(account: &AccountConfig) -> (b: bool)
    ensures
        b == account_check_defined(*account),
{
    let manual = match account.allocation_mode {
        AllocationMode::Manual => true,
        _ => false,
    };
    if account.id.as_str().is_empty() || account.exchange.as_str().is_empty() || !manual
        || account.desired_allocation.len() == 0 {
        return true;
    }
    match crate::domain::wallet::try_sum_values(&account.desired_allocation) {
        Some(total) => total.checked_sub(&Decimal::from_u32(100)).is_some(),
        None => false,
    }
}

/// Checks one account configuration.
pub fn validate_account(account: &AccountConfig) -> (r: Result<(), ConfigError>)
    requires
        account_check_defined(*account),
    ensures
        match (r, account_problem(*account)) {
            (Ok(()), None) => true,
            (Err(ConfigError::ValidationError(m)), Some(p)) => m@ == p,
            _ => false,
        },
{
    if account.id.as_str().is_empty() {
        return Err(ConfigError::ValidationError(String::from_str("Account ID cannot be empty")));
    }
    if account.exchange.as_str().is_empty() {
        let mut m = String::from_str("Account ");
        append_str(&mut m, account.id.as_str());
        append_str(&mut m, " has no exchange specified");
        return Err(ConfigError::ValidationError(m));
    }
    let manual = match account.allocation_mode {
        AllocationMode::Manual => true,
        _ => false,
    };
    if manual && account.desired_allocation.len() > 0 {
        let total = crate::domain::wallet::sum_values(&account.desired_allocation);
        let diff = match total.checked_sub(&Decimal::from_u32(100)) {
            Some(x) => x.abs(),
            None => vstd::pervasive::unreached(),
        };
        if Decimal::from_u32(1).lt(&diff) {
            let mut m = String::from_str("Account ");
            append_str(&mut m, account.id.as_str());
            append_str(&mut m, " allocation sums to ");
            let t = total.to_string();
            append_str(&mut m, t.as_str());
            append_str(&mut m, "%, expected ~100%");
            return Err(ConfigError::ValidationError(m));
        }
    }
    Ok(())
}

/// The accounts of the users, user after user.
pub open spec fn user_accounts(users: Seq<UserConfig>) -> Seq<AccountConfig>
    decreases users.len(),
{
    if users.len() == 0 {
        Seq::empty()
    } else {
        user_accounts(users.drop_last()) + users.last().accounts@
    }
}

/// Index of the first user having an account with the id, from `from` on.
pub open spec fn first_user_with(users: Seq<UserConfig>, id: Seq<char>, from: int) -> Option<int>
    decreases users.len() - from,
{
    if from < 0 || from >= users.len() {
        None
    } else if config_index(users[from].accounts@, id, 0) is Some {
        Some(from)
    } else {
        first_user_with(users, id, from + 1)
    }
}

/// Index of the first user configuration with the id, from `from` on.
pub open spec fn user_config_index(users: Seq<UserConfig>, id: Seq<char>, from: int) -> Option<int>
    decreases users.len() - from,
{
    if from < 0 || from >= users.len() {
        None
    } else if users[from].id@ == id {
        Some(from)
    } else {
        user_config_index(users, id, from + 1)
    }
}

/// Every account of a configuration: the direct accounts, then each user's accounts.
pub open spec fn every_account(c: AppConfig) -> Seq<AccountConfig> {
    c.accounts@ + user_accounts(c.users@)
}

/// The indices, below `n`, of the accounts with the id, in order.
pub open spec fn indices_with_id(all: Seq<AccountConfig>, id: Seq<char>, n: int) -> Seq<usize>
    decreases n,
{
    if n <= 0 {
        Seq::empty()
    } else if all[n - 1].id@ == id {
        indices_with_id(all, id, n - 1).push((n - 1) as usize)
    } else {
        indices_with_id(all, id, n - 1)
    }
}

/// The indices `lo`, `lo + 1`, ..., below `lo + n`.
pub open spec fn index_range(lo: int, n: int) -> Seq<usize> {
    Seq::new(n as nat, |k: int| (lo + k) as usize)
}

/// The accounts to process, as indices into `every_account`: those with the requested
/// account id when one is given; else the accounts of the first user with the requested user
/// id (none when there is no such user); else all of them.
pub open spec fn spec_select_accounts(
    c: AppConfig,
    account: Option<Seq<char>>,
    user: Option<Seq<char>>,
) -> Seq<usize> {
    let all = every_account(c);
    match account {
        Some(id) => indices_with_id(all, id, all.len() as int),
        None => match user {
            Some(uid) => match user_config_index(c.users@, uid, 0) {
                Some(u) => index_range(
                    (c.accounts@.len() + user_accounts(c.users@.take(u)).len()) as int,
                    c.users@[u].accounts@.len() as int,
                ),
                None => Seq::empty(),
            },
            None => index_range(0, all.len() as int),
        },
    }
}

/// A prefix of the users has no more accounts than all of them.
proof fn lemma_user_accounts_prefix(users: Seq<UserConfig>, n: int)
    requires
        0 <= n <= users.len(),
    ensures
        user_accounts(users.take(n)).len() + (if n < users.len() { users[n].accounts@.len() } else {
            0
        }) <= user_accounts(users).len(),
        n < users.len() ==> user_accounts(users.take(n + 1)) == user_accounts(users.take(n))
            + users[n].accounts@,
    decreases users.len(),
{
    if n < users.len() {
        assert(users.take(n + 1).drop_last() =~= users.take(n));
        if n + 1 < users.len() {
            let d = users.drop_last();
            lemma_user_accounts_prefix(d, n + 1);
            assert(d.take(n + 1) =~= users.take(n + 1));
        } else {
            assert(users.take(n + 1) =~= users);
        }
    } else {
        assert(users.take(n) =~= users);
    }
}

/// Picks the accounts to process: by account id first, then by user id, else all of them;
/// the result lists indices into the accounts `AppConfig::all_accounts` returns.
pub fn select_accounts(config: &AppConfig, account: &Option<String>, user: &Option<String>) -> (r:
    Vec<usize>)
    ensures
        r@ == spec_select_accounts(
            *config,
            match account {
                Some(a) => Some(a@),
                None => None,
            },
            match user {
                Some(u) => Some(u@),
                None => None,
            },
        ),
{
    let all = config.all_accounts();
    let ghost av = every_account(*config);
    assert(all@.len() == av.len()) by {
        assert(all@.map_values(|a: &AccountConfig| *a).len() == all@.len());
    }
    match account {
        Some(id) => {
            let mut out: Vec<usize> = Vec::new();
            let mut i: usize = 0;
            while i < all.len()
                invariant
                    i <= all.len(),
                    all@.len() == av.len(),
                    all@.map_values(|a: &AccountConfig| *a) == av,
                    out@ == indices_with_id(av, id@, i as int),
                decreases all.len() - i,
            {
                assert(*all@[i as int] == av[i as int]);
                if chars_eq(all[i].id.as_str(), id.as_str()) {
                    out.push(i);
                }
                i = i + 1;
            }
            out
        },
        None => match user {
            Some(uid) => {
                let mut u: usize = 0;
                let mut offset: usize = config.accounts.len();
                proof {
                    assert(config.users@.take(0) =~= Seq::<UserConfig>::empty());
                }
                while u < config.users.len()
                    invariant
                        u <= config.users.len(),
                        all@.len() == av.len(),
                        av == every_account(*config),
                        av.len() == config.accounts@.len() + user_accounts(config.users@).len(),
                        *user == Some(*uid),
                        account is None,
                        all.len() <= usize::MAX,
                        offset == config.accounts@.len() + user_accounts(config.users@.take(u as int)).len(),
                        user_config_index(config.users@, uid@, 0) == user_config_index(
                            config.users@,
                            uid@,
                            u as int,
                        ),
                    decreases config.users.len() - u,
                {
                    proof {
                        lemma_user_accounts_prefix(config.users@, u as int);
                    }
                    if chars_eq(config.users[u].id.as_str(), uid.as_str()) {
                        let n = config.users[u].accounts.len();
                        assert(user_config_index(config.users@, uid@, u as int) == Some(u as int));
                        let mut out: Vec<usize> = Vec::new();
                        let mut k: usize = 0;
                        while k < n
                            invariant
                                k <= n,
                                offset + n <= all@.len(),
                                all@.len() <= usize::MAX,
                                out@ =~= index_range(offset as int, k as int),
                            decreases n - k,
                        {
                            out.push(offset + k);
                            k = k + 1;
                        }
                        assert(out@ =~= index_range(offset as int, n as int));
                        return out;
                    }
                    offset = offset + config.users[u].accounts.len();
                    u = u + 1;
                }
                Vec::new()
            },
            None => {
                let mut out: Vec<usize> = Vec::new();
                let mut k: usize = 0;
                while k < all.len()
                    invariant
                        k <= all.len(),
                        out@ =~= index_range(0, k as int),
                    decreases all.len() - k,
                {
                    out.push(k);
                    k = k + 1;
                }
                out
            },
        },
    }
}

/// The accounts from `i` on have no problem exactly when no account among them has one.
pub proof fn lemma_first_account_problem_none(accs: Seq<AccountConfig>, i: int)
    requires
        0 <= i,
    ensures
        (first_account_problem(accs, i) is None) == (forall|j: int|
            i <= j < accs.len() ==> (#[trigger] account_problem(accs[j])) is None),
    decreases accs.len() - i,
{
    if i < accs.len() {
        lemma_first_account_problem_none(accs, i + 1);
    }
}

/// The users from `i` on have no problem exactly when each of them has an id and none of
/// their accounts has a problem.
pub proof fn lemma_first_user_problem_none(users: Seq<UserConfig>, i: int)
    requires
        0 <= i,
    ensures
        (first_user_problem(users, i) is None) == (forall|u: int|
            i <= u < users.len() ==> {
                &&& (#[trigger] users[u]).id@.len() > 0
                &&& forall|j: int|
                    0 <= j < users[u].accounts@.len() ==> (#[trigger] account_problem(
                        users[u].accounts@[j],
                    )) is None
            }),
    decreases users.len() - i,
{
    if i < users.len() {
        lemma_first_user_problem_none(users, i + 1);
        lemma_first_account_problem_none(users[i].accounts@, 0);
    }
}

/// A configuration passes validation exactly when it has some account, every direct account
/// passes its check, and every user has an id and every account under every user passes
/// its check.
pub proof fn lemma_app_validate_checks_every_account(c: AppConfig)
    ensures
        (spec_app_validate(c) is None) == ({
            &&& !no_accounts(c)
            &&& forall|j: int|
                0 <= j < c.accounts@.len() ==> (#[trigger] account_problem(c.accounts@[j])) is None
            &&& forall|u: int|
                0 <= u < c.users@.len() ==> {
                    &&& (#[trigger] c.users@[u]).id@.len() > 0
                    &&& forall|j: int|
                        0 <= j < c.users@[u].accounts@.len() ==> (#[trigger] account_problem(
                            c.users@[u].accounts@[j],
                        )) is None
                }
        }),
{
    lemma_first_account_problem_none(c.accounts@, 0);
    lemma_first_user_problem_none(c.users@, 0);
}

} // verus!

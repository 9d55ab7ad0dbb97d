//! Users (broker connections), their accounts, trading configurations and their
//! validation.

use vstd::prelude::*;
use crate::assoc::{assoc_insert, lemma_key_index_found, lemma_key_index_none};
use crate::domain::allocation::{spec_is_valid, tickers_into, valid_defined, Allocation};
use crate::domain::decimal::{Decimal, DecimalView};
use crate::strategy::order_text::{lemma_take_push_contains, names};
use crate::text::{chars_eq, lowercase, unicode_lowercase};

verus! {

/// The type of broker/exchange connection.
#[derive(Debug, Clone, PartialEq, Eq)]
pub enum BrokerType {
    /// T-Bank (formerly Tinkoff Investments).
    TBank,
    /// Binance cryptocurrency exchange.
    Binance,
    /// Interactive Brokers.
    InteractiveBrokers,
    /// Simulated exchange (for testing).
    Simulator,
    /// Custom broker with a name.
    Custom(String),
}

/// The mathematical form of a `BrokerType`.
pub enum BrokerKind {
    TBank,
    Binance,
    InteractiveBrokers,
    Simulator,
    Custom(Seq<char>),
}

/// The broker a name stands for: matched on its lower-case form, otherwise a custom broker
/// keeping the name as given.
pub open spec fn spec_broker_from_name(name: Seq<char>) -> BrokerKind {
    let l = unicode_lowercase(name);
    if l == "tbank"@ || l == "t-bank"@ || l == "tinkoff"@ {
        BrokerKind::TBank
    } else if l == "binance"@ {
        BrokerKind::Binance
    } else if l == "ib"@ || l == "ibkr"@ || l == "interactive_brokers"@ || l
        == "interactivebrokers"@ {
        BrokerKind::InteractiveBrokers
    } else if l == "sim"@ || l == "simulator"@ || l == "simulated"@ || l == "demo"@ {
        BrokerKind::Simulator
    } else {
        BrokerKind::Custom(name)
    }
}

impl BrokerType {
    pub open spec fn view(&self) -> BrokerKind {
        match self {
            BrokerType::TBank => BrokerKind::TBank,
            BrokerType::Binance => BrokerKind::Binance,
            BrokerType::InteractiveBrokers => BrokerKind::InteractiveBrokers,
            BrokerType::Simulator => BrokerKind::Simulator,
            BrokerType::Custom(n) => BrokerKind::Custom(n@),
        }
    }

    /// The name of a broker kind.
    pub open spec fn spec_name(k: BrokerKind) -> Seq<char> {
        match k {
            BrokerKind::TBank => "tbank"@,
            BrokerKind::Binance => "binance"@,
            BrokerKind::InteractiveBrokers => "interactive_brokers"@,
            BrokerKind::Simulator => "simulator"@,
            BrokerKind::Custom(n) => n,
        }
    }

    /// The default broker (T-Bank).
    pub fn default() -> (r: Self)
        ensures
            r.view() == BrokerKind::TBank,
    {
        BrokerType::TBank
    }

    /// Creates a broker type from a string name.
    pub fn from_name(name: &str) -> (r: Self)
        ensures
            r.view() == spec_broker_from_name(name@),
    {
        let l = lowercase(name);
        let l = l.as_str();
        if chars_eq(l, "tbank") || chars_eq(l, "t-bank") || chars_eq(l, "tinkoff") {
            BrokerType::TBank
        } else if chars_eq(l, "binance") {
            BrokerType::Binance
        } else if chars_eq(l, "ib") || chars_eq(l, "ibkr") || chars_eq(l, "interactive_brokers")
            || chars_eq(l, "interactivebrokers") {
            BrokerType::InteractiveBrokers
        } else if chars_eq(l, "sim") || chars_eq(l, "simulator") || chars_eq(l, "simulated")
            || chars_eq(l, "demo") {
            BrokerType::Simulator
        } else {
            BrokerType::Custom(name.to_string())
        }
    }

    /// Returns the broker name as a string.
    pub fn as_str(&self) -> (r: &str)
        ensures
            r@ == Self::spec_name(self.view()),
    {
        match self {
            BrokerType::TBank => "tbank",
            BrokerType::Binance => "binance",
            BrokerType::InteractiveBrokers => "interactive_brokers",
            BrokerType::Simulator => "simulator",
            BrokerType::Custom(name) => name.as_str(),
        }
    }
}

/// Global settings for the trading bot.
#[derive(Debug, Clone)]
pub struct Settings {
    /// Log level (trace, debug, info, warn, error).
    pub log_level: String,
    /// Enable verbose output.
    pub verbose: bool,
    /// Run in dry-run mode (no actual trades).
    pub dry_run: bool,
    /// Run in plan mode (show what would happen).
    pub plan: bool,
}

impl Settings {
    /// Settings with every field at its type's default (an empty log level, all flags off).
    pub fn default() -> (r: Self)
        ensures
            r.log_level@ == Seq::<char>::empty(),
            !r.verbose && !r.dry_run && !r.plan,
    {
        Settings { log_level: String::new(), verbose: false, dry_run: false, plan: false }
    }
}

/// Configuration validation errors.
#[derive(Debug, Clone)]
pub enum ConfigValidationError {
    /// No users configured.
    NoUsers,
    /// Missing API token for a user.
    MissingToken(String),
    /// No accounts configured for a user.
    NoAccounts(String),
    /// Invalid allocation for an account (user id, account id).
    InvalidAllocation(String, String),
}

/// The mathematical form of a validation error.
pub enum ValidationErrorView {
    NoUsers,
    MissingToken(Seq<char>),
    NoAccounts(Seq<char>),
    InvalidAllocation(Seq<char>, Seq<char>),
}

impl ConfigValidationError {
    pub open spec fn view(&self) -> ValidationErrorView {
        match self {
            ConfigValidationError::NoUsers => ValidationErrorView::NoUsers,
            ConfigValidationError::MissingToken(u) => ValidationErrorView::MissingToken(u@),
            ConfigValidationError::NoAccounts(u) => ValidationErrorView::NoAccounts(u@),
            ConfigValidationError::InvalidAllocation(u, a) => ValidationErrorView::InvalidAllocation(
                u@,
                a@,
            ),
        }
    }

    /// The message of the error.
    pub fn to_string(&self) -> (s: String)
        ensures
            s@ == validation_message(self.view()),
    {
        match self {
            ConfigValidationError::NoUsers => String::from_str("No users configured"),
            ConfigValidationError::MissingToken(user) => {
                let mut s = String::from_str("Missing API token for user '");
                crate::text::append_str(&mut s, user.as_str());
                crate::text::append_str(&mut s, "'");
                s
            },
            ConfigValidationError::NoAccounts(user) => {
                let mut s = String::from_str("No accounts configured for user '");
                crate::text::append_str(&mut s, user.as_str());
                crate::text::append_str(&mut s, "'");
                s
            },
            ConfigValidationError::InvalidAllocation(user, account) => {
                let mut s = String::from_str("Invalid allocation for account '");
                crate::text::append_str(&mut s, account.as_str());
                crate::text::append_str(&mut s, "' of user '");
                crate::text::append_str(&mut s, user.as_str());
                crate::text::append_str(&mut s, "'");
                s
            },
        }
    }
}

/// The message of a validation error.
pub open spec fn validation_message(e: ValidationErrorView) -> Seq<char> {
    match e {
        ValidationErrorView::NoUsers => "No users configured"@,
        ValidationErrorView::MissingToken(u) => "Missing API token for user '"@ + u + "'"@,
        ValidationErrorView::NoAccounts(u) => "No accounts configured for user '"@ + u + "'"@,
        ValidationErrorView::InvalidAllocation(u, a) => "Invalid allocation for account '"@ + a
            + "' of user '"@ + u + "'"@,
    }
}

/// A trading account within a broker connection.
#[derive(Debug)]
pub struct Account {
    /// Account identifier (unique within user).
    pub id: String,
    /// Human-readable account name.
    pub name: String,
    /// The broker's account ID.
    pub exchange_account_id: String,
    /// Target allocation for this account.
    pub allocation: Allocation,
    /// Balance interval in seconds.
    pub balance_interval_secs: u64,
    /// Delay between orders in milliseconds.
    pub order_delay_ms: u64,
    /// Minimum trade percentage.
    pub min_trade_percent: Decimal,
    /// Tolerance percentage for rebalancing.
    pub tolerance_percent: Decimal,
}

impl Account {
    /// A new account named after its id, with the default intervals (1 hour between
    /// balances, 1 second between orders), minimum trade 0.1% and tolerance 0.5%.
    pub fn new(id: &str, allocation: Allocation) -> (r: Account)
        ensures
            r.id@ == id@,
            r.name@ == id@,
            r.exchange_account_id@ == Seq::<char>::empty(),
            r.allocation == allocation,
            r.balance_interval_secs == 3600,
            r.order_delay_ms == 1000,
            r.min_trade_percent@ == (DecimalView { mantissa: 1, scale: 1 }),
            r.tolerance_percent@ == (DecimalView { mantissa: 5, scale: 1 }),
    {
        Account {
            name: String::from_str(id),
            id: String::from_str(id),
            exchange_account_id: String::new(),
            allocation,
            balance_interval_secs: 3600,
            order_delay_ms: 1000,
            min_trade_percent: Decimal::new(1, 1),
            tolerance_percent: Decimal::new(5, 1),
        }
    }

    /// Sets the display name.
    pub fn with_name(self, name: &str) -> (r: Account)
        ensures
            r.name@ == name@,
            r.id == self.id,
            r.exchange_account_id == self.exchange_account_id,
            r.allocation == self.allocation,
            r.balance_interval_secs == self.balance_interval_secs,
            r.order_delay_ms == self.order_delay_ms,
            r.min_trade_percent == self.min_trade_percent,
            r.tolerance_percent == self.tolerance_percent,
    {
        Account { name: String::from_str(name), ..self }
    }

    /// Sets the broker's account ID.
    pub fn with_exchange_id(self, id: &str) -> (r: Account)
        ensures
            r.exchange_account_id@ == id@,
            r.id == self.id,
            r.name == self.name,
            r.allocation == self.allocation,
            r.balance_interval_secs == self.balance_interval_secs,
            r.order_delay_ms == self.order_delay_ms,
            r.min_trade_percent == self.min_trade_percent,
            r.tolerance_percent == self.tolerance_percent,
    {
        Account { exchange_account_id: String::from_str(id), ..self }
    }

    /// Sets the balance interval.
    pub fn with_balance_interval(self, secs: u64) -> (r: Account)
        ensures
            r == (Account { balance_interval_secs: secs, ..self }),
    {
        Account { balance_interval_secs: secs, ..self }
    }
}

/// A connection to a broker with its credentials and accounts.
#[derive(Debug)]
pub struct User {
    /// Unique user identifier.
    pub id: String,
    /// Human-readable name.
    pub name: String,
    /// Broker type.
    pub broker: BrokerType,
    /// Environment variable name containing the API token.
    pub token_env_var: String,
    /// Additional credentials (credential name, environment variable), each name once.
    pub credentials: Vec<(String, String)>,
    /// Trading accounts under this user.
    pub accounts: Vec<Account>,
    /// Whether this user is enabled.
    pub enabled: bool,
}

pub open spec fn pairs_view(ps: Seq<(String, String)>) -> Seq<(Seq<char>, Seq<char>)> {
    ps.map_values(|p: (String, String)| (p.0@, p.1@))
}

/// Index of the first account with the id, from `from` on.
pub open spec fn account_index(accs: Seq<Account>, id: Seq<char>, from: int) -> Option<int>
    decreases accs.len() - from,
{
    if from < 0 || from >= accs.len() {
        None
    } else if accs[from].id@ == id {
        Some(from)
    } else {
        account_index(accs, id, from + 1)
    }
}

/// Tickers of the accounts' allocations, from the first account on, each added once.
pub open spec fn accounts_tickers(accs: Seq<Account>, acc: Seq<Seq<char>>) -> Seq<Seq<char>>
    decreases accs.len(),
{
    if accs.len() == 0 {
        acc
    } else {
        add_missing(accounts_tickers(accs.drop_last(), acc), tickers_into(accs.last().allocation, Seq::empty()))
    }
}

/// Adding the texts of `more` that `acc` lacks, in order.
pub open spec fn add_missing(acc: Seq<Seq<char>>, more: Seq<Seq<char>>) -> Seq<Seq<char>>
    decreases more.len(),
{
    if more.len() == 0 {
        acc
    } else {
        let r = add_missing(acc, more.drop_last());
        if r.contains(more.last()) {
            r
        } else {
            r.push(more.last())
        }
    }
}

impl User {
    /// A new enabled user with a random id, no name, credentials or accounts.
    pub fn new(broker: BrokerType, token_env_var: &str) -> (r: User)
        ensures
            crate::domain::trade::is_uuid_text(r.id@),
            r.name@ == Seq::<char>::empty(),
            r.broker == broker,
            r.token_env_var@ == token_env_var@,
            r.credentials@.len() == 0,
            r.accounts@.len() == 0,
            r.enabled,
    {
        User {
            id: crate::domain::trade::uuid_v4_text(),
            name: String::new(),
            broker,
            token_env_var: String::from_str(token_env_var),
            credentials: Vec::new(),
            accounts: Vec::new(),
            enabled: true,
        }
    }

    /// Sets the id.
    pub fn with_id(self, id: &str) -> (r: User)
        ensures
            r.id@ == id@,
            r.name == self.name,
            r.broker == self.broker,
            r.token_env_var == self.token_env_var,
            r.credentials == self.credentials,
            r.accounts == self.accounts,
            r.enabled == self.enabled,
    {
        User { id: String::from_str(id), ..self }
    }

    /// Sets the name.
    pub fn with_name(self, name: &str) -> (r: User)
        ensures
            r.name@ == name@,
            r.id == self.id,
            r.broker == self.broker,
            r.token_env_var == self.token_env_var,
            r.credentials == self.credentials,
            r.accounts == self.accounts,
            r.enabled == self.enabled,
    {
        User { name: String::from_str(name), ..self }
    }

    /// Adds (or replaces) a credential's environment variable.
    pub fn with_credential(self, key: &str, env_var: &str) -> (r: User)
        ensures
            pairs_view(r.credentials@) == assoc_insert(pairs_view(self.credentials@), key@, env_var@),
            r.id == self.id,
            r.name == self.name,
            r.broker == self.broker,
            r.token_env_var == self.token_env_var,
            r.accounts == self.accounts,
            r.enabled == self.enabled,
    {
        let mut creds = self.credentials;
        let ghost pv = pairs_view(creds@);
        let mut i: usize = 0;
        while i < creds.len()
            invariant
                i <= creds.len(),
                pv == pairs_view(creds@),
                pv == pairs_view(self.credentials@),
                forall|j: int| 0 <= j < i ==> pv[j].0 != key@,
            decreases creds.len() - i,
        {
            if chars_eq(creds[i].0.as_str(), key) {
                proof {
                    lemma_key_index_found(pv, key@, 0, i as int);
                }
                creds.set(i, (String::from_str(key), String::from_str(env_var)));
                assert(pairs_view(creds@) =~= pv.update(i as int, (key@, env_var@)));
                return User { credentials: creds, ..self };
            }
            i = i + 1;
        }
        proof {
            lemma_key_index_none(pv, key@, 0);
        }
        creds.push((String::from_str(key), String::from_str(env_var)));
        assert(pairs_view(creds@) =~= pv.push((key@, env_var@)));
        User { credentials: creds, ..self }
    }

    /// Adds an account.
    pub fn add_account(&mut self, account: Account)
        ensures
            final(self).accounts@ == old(self).accounts@.push(account),
            final(self).id == old(self).id,
            final(self).token_env_var == old(self).token_env_var,
            final(self).enabled == old(self).enabled,
    {
        self.accounts.push(account);
    }

    /// The first account with the id.
    pub fn get_account(&self, id: &str) -> (r: Option<&Account>)
        ensures
            match account_index(self.accounts@, id@, 0) {
                Some(i) => r == Some(&self.accounts@[i]),
                None => r is None,
            },
    {
        match self.account_position(id) {
            Some(i) => Some(&self.accounts[i]),
            None => None,
        }
    }

    fn account_position(&self, id: &str) -> (r: Option<usize>)
        ensures
            match r {
                Some(k) => account_index(self.accounts@, id@, 0) == Some(k as int) && k
                    < self.accounts.len(),
                None => account_index(self.accounts@, id@, 0) is None,
            },
    {
        let mut i: usize = 0;
        while i < self.accounts.len()
            invariant
                i <= self.accounts.len(),
                account_index(self.accounts@, id@, 0) == account_index(self.accounts@, id@, i as int),
            decreases self.accounts.len() - i,
        {
            if chars_eq(self.accounts[i].id.as_str(), id) {
                return Some(i);
            }
            i = i + 1;
        }
        None
    }

    /// The first account with the id, to change in place.
    pub fn get_account_mut(&mut self, id: &str) -> (r: Option<&mut Account>)
        ensures
            match account_index(old(self).accounts@, id@, 0) {
                Some(i) => r matches Some(a) && *a == old(self).accounts@[i]
                    && *final(self) == (User { accounts: final(self).accounts, ..*old(self) })
                    && final(self).accounts@ == old(self).accounts@.update(i, *final(a)),
                None => r is None && *final(self) == *old(self),
            },
    {
        match self.account_position(id) {
            Some(i) => Some(&mut self.accounts[i]),
            None => None,
        }
    }

    /// The accounts (all of them are active).
    pub fn active_accounts(&self) -> (r: &[Account])
        ensures
            r@ == self.accounts@,
    {
        self.accounts.as_slice()
    }

    /// The tickers of all accounts' allocations, once each, in the order met.
    pub fn all_tickers(&self) -> (r: Vec<String>)
        ensures
            names(r@) == accounts_tickers(self.accounts@, Seq::empty()),
    {
        let mut tickers: Vec<String> = Vec::new();
        let mut i: usize = 0;
        assert(names(tickers@) =~= Seq::<Seq<char>>::empty());
        while i < self.accounts.len()
            invariant
                i <= self.accounts.len(),
                names(tickers@) == accounts_tickers(self.accounts@.take(i as int), Seq::empty()),
            decreases self.accounts.len() - i,
        {
            let more = self.accounts[i].allocation.all_tickers();
            let ghost start = names(tickers@);
            let ghost mv = names(more@);
            let mut j: usize = 0;
            while j < more.len()
                invariant
                    j <= more.len(),
                    mv == names(more@),
                    names(tickers@) == add_missing(start, mv.take(j as int)),
                decreases more.len() - j,
            {
                assert(mv.take(j + 1).drop_last() =~= mv.take(j as int));
                let ghost cur = names(tickers@);
                let mut found = false;
                let mut k: usize = 0;
                while k < tickers.len()
                    invariant
                        k <= tickers.len(),
                        j < more.len(),
                        mv == names(more@),
                        cur == names(tickers@),
                        found == cur.take(k as int).contains(mv[j as int]),
                    decreases tickers.len() - k,
                {
                    proof {
                        lemma_take_push_contains(cur, k as int);
                    }
                    if chars_eq(tickers[k].as_str(), more[j].as_str()) {
                        found = true;
                    }
                    k = k + 1;
                }
                assert(cur.take(tickers.len() as int) =~= cur);
                if !found {
                    tickers.push(more[j].clone());
                    assert(names(tickers@) =~= cur.push(mv[j as int]));
                }
                j = j + 1;
            }
            assert(mv.take(more.len() as int) =~= mv);
            assert(self.accounts@.take(i + 1).drop_last() =~= self.accounts@.take(i as int));
            i = i + 1;
        }
        assert(self.accounts@.take(self.accounts.len() as int) =~= self.accounts@);
        tickers
    }
}

/// The whole trading configuration: settings and users.
#[derive(Debug)]
pub struct TradingConfig {
    /// Global settings.
    pub settings: Settings,
    /// Configured users.
    pub users: Vec<User>,
}

/// The first problem in the users, in order: a user without token or accounts, or an
/// account whose allocation is invalid.
pub open spec fn first_problem(users: Seq<User>, i: int) -> Option<ValidationErrorView>
    decreases users.len() - i, 0int,
{
    if i < 0 || i >= users.len() {
        None
    } else if users[i].token_env_var@.len() == 0 {
        Some(ValidationErrorView::MissingToken(users[i].id@))
    } else if users[i].accounts@.len() == 0 {
        Some(ValidationErrorView::NoAccounts(users[i].id@))
    } else {
        match first_invalid_account(users[i].accounts@, 0) {
            Some(a) => Some(ValidationErrorView::InvalidAllocation(users[i].id@, a)),
            None => first_problem(users, i + 1),
        }
    }
}

/// The id of the first account (from `j` on) whose allocation is invalid.
pub open spec fn first_invalid_account(accs: Seq<Account>, j: int) -> Option<Seq<char>>
    decreases accs.len() - j,
{
    if j < 0 || j >= accs.len() {
        None
    } else if !spec_is_valid(accs[j].allocation) {
        Some(accs[j].id@)
    } else {
        first_invalid_account(accs, j + 1)
    }
}

/// The allocation checks of the accounts from `j` on are defined as far as they are
/// reached (up to the first invalid allocation).
pub open spec fn valid_defined_from(accs: Seq<Account>, j: int) -> bool
    decreases accs.len() - j,
{
    if j < 0 || j >= accs.len() {
        true
    } else {
        &&& valid_defined(accs[j].allocation)
        &&& (spec_is_valid(accs[j].allocation) ==> valid_defined_from(accs, j + 1))
    }
}

/// The allocation checks of the users from `i` on are defined as far as validation reaches
/// them.
pub open spec fn users_valid_defined_from(users: Seq<User>, i: int) -> bool
    decreases users.len() - i,
{
    if i < 0 || i >= users.len() {
        true
    } else {
        (users[i].token_env_var@.len() > 0 && users[i].accounts@.len() > 0) ==> {
            &&& valid_defined_from(users[i].accounts@, 0)
            &&& (first_invalid_account(users[i].accounts@, 0) is None ==> users_valid_defined_from(
                users,
                i + 1,
            ))
        }
    }
}

/// Every allocation check that validation reaches is defined.
pub open spec fn users_valid_defined(users: Seq<User>) -> bool {
    users_valid_defined_from(users, 0)
}

/// What `validate` returns: no users, or the first problem, or success.
pub open spec fn spec_validate(users: Seq<User>) -> Option<ValidationErrorView> {
    if users.len() == 0 {
        Some(ValidationErrorView::NoUsers)
    } else {
        first_problem(users, 0)
    }
}

/// Every (user, account) pair, users in order and each user's accounts in order.
pub open spec fn user_account_pairs(users: Seq<User>) -> Seq<(User, Account)>
    decreases users.len(),
{
    if users.len() == 0 {
        Seq::empty()
    } else {
        user_account_pairs(users.drop_last()) + users.last().accounts@.map_values(
            |a: Account| (users.last(), a),
        )
    }
}

impl TradingConfig {
    /// Every account with its user, users in order.
    pub fn all_accounts(&self) -> (r: Vec<(&User, &Account)>)
        ensures
            r@.map_values(|p: (&User, &Account)| (*p.0, *p.1)) == user_account_pairs(self.users@),
    {
        let mut out: Vec<(&User, &Account)> = Vec::new();
        let mut u: usize = 0;
        assert(self.users@.take(0) =~= Seq::<User>::empty());
        while u < self.users.len()
            invariant
                u <= self.users.len(),
                out@.map_values(|p: (&User, &Account)| (*p.0, *p.1)) == user_account_pairs(
                    self.users@.take(u as int),
                ),
            decreases self.users.len() - u,
        {
            let user = &self.users[u];
            let ghost before = out@.map_values(|p: (&User, &Account)| (*p.0, *p.1));
            let mut j: usize = 0;
            while j < user.accounts.len()
                invariant
                    j <= user.accounts.len(),
                    out@.map_values(|p: (&User, &Account)| (*p.0, *p.1)) == before
                        + user.accounts@.take(j as int).map_values(|a: Account| (*user, a)),
                decreases user.accounts.len() - j,
            {
                let ghost prev = out@.map_values(|p: (&User, &Account)| (*p.0, *p.1));
                out.push((user, &user.accounts[j]));
                assert(out@.map_values(|p: (&User, &Account)| (*p.0, *p.1)) =~= prev.push(
                    (*user, user.accounts@[j as int]),
                ));
                assert(user.accounts@.take(j + 1).map_values(|a: Account| (*user, a))
                    =~= user.accounts@.take(j as int).map_values(|a: Account| (*user, a)).push(
                    (*user, user.accounts@[j as int]),
                ));
                j = j + 1;
            }
            assert(user.accounts@.take(user.accounts.len() as int) =~= user.accounts@);
            assert(self.users@.take(u + 1).drop_last() =~= self.users@.take(u as int));
            assert(self.users@.take(u + 1).last() == *user);
            u = u + 1;
        }
        assert(self.users@.take(self.users.len() as int) =~= self.users@);
        out
    }

    /// An empty configuration with default settings.
    pub fn new() -> (r: TradingConfig)
        ensures
            r.users@.len() == 0,
            r.settings.log_level@ == Seq::<char>::empty(),
            !r.settings.verbose && !r.settings.dry_run && !r.settings.plan,
    {
        TradingConfig { settings: Settings::default(), users: Vec::new() }
    }

    /// Adds a user.
    pub fn add_user(&mut self, user: User)
        ensures
            final(self).users@ == old(self).users@.push(user),
            final(self).settings == old(self).settings,
    {
        self.users.push(user);
    }

    /// The first user with the id.
    pub fn get_user(&self, id: &str) -> (r: Option<&User>)
        ensures
            match user_index(self.users@, id@, 0) {
                Some(i) => r == Some(&self.users@[i]),
                None => r is None,
            },
    {
        let mut i: usize = 0;
        while i < self.users.len()
            invariant
                i <= self.users.len(),
                user_index(self.users@, id@, 0) == user_index(self.users@, id@, i as int),
            decreases self.users.len() - i,
        {
            if chars_eq(self.users[i].id.as_str(), id) {
                return Some(&self.users[i]);
            }
            i = i + 1;
        }
        None
    }

    /// The enabled users, in order.
    pub fn active_users(&self) -> (r: Vec<&User>)
        ensures
            r@.map_values(|u: &User| *u) == self.users@.filter(|u: User| u.enabled),
    {
        let ghost src = self.users@;
        let mut out: Vec<&User> = Vec::new();
        let mut i: usize = 0;
        while i < self.users.len()
            invariant
                i <= self.users.len(),
                src == self.users@,
                out@.map_values(|u: &User| *u) == src.take(i as int).filter(|u: User| u.enabled),
            decreases self.users.len() - i,
        {
            proof {
                assert(src.take(i + 1) =~= src.take(i as int).push(src[i as int]));
                src.take(i as int).lemma_filter_push(src[i as int], |u: User| u.enabled);
            }
            if self.users[i].enabled {
                let ghost before = out@.map_values(|u: &User| *u);
                out.push(&self.users[i]);
                assert(out@.map_values(|u: &User| *u) =~= before.push(src[i as int]));
            }
            i = i + 1;
        }
        assert(src.take(self.users.len() as int) =~= src);
        out
    }

    /// Checks the configuration: there must be users, each with a token and accounts, and
    /// every account's allocation must be valid; the first problem found is returned.
    pub fn validate(&self) -> (r: Result<(), ConfigValidationError>)
        requires
            users_valid_defined(self.users@),
        ensures
            match (r, spec_validate(self.users@)) {
                (Ok(()), None) => true,
                (Err(e), Some(v)) => e.view() == v,
                _ => false,
            },
    {
        if self.users.len() == 0 {
            return Err(ConfigValidationError::NoUsers);
        }
        let mut i: usize = 0;
        while i < self.users.len()
            invariant
                i <= self.users.len(),
                self.users@.len() > 0,
                users_valid_defined_from(self.users@, i as int),
                first_problem(self.users@, 0) == first_problem(self.users@, i as int),
            decreases self.users.len() - i,
        {
            let user = &self.users[i];
            if user.token_env_var.as_str().is_empty() {
                return Err(ConfigValidationError::MissingToken(user.id.clone()));
            }
            if user.accounts.len() == 0 {
                return Err(ConfigValidationError::NoAccounts(user.id.clone()));
            }
            let mut j: usize = 0;
            while j < user.accounts.len()
                invariant
                    0 <= i < self.users@.len(),
                    user == &self.users@[i as int],
                    j <= user.accounts.len(),
                    first_problem(self.users@, 0) == first_problem(self.users@, i as int),
                    self.users@[i as int].token_env_var@.len() > 0,
                    self.users@[i as int].accounts@.len() > 0,
                    users_valid_defined_from(self.users@, i as int),
                    valid_defined_from(user.accounts@, j as int),
                    first_invalid_account(user.accounts@, 0) == first_invalid_account(
                        user.accounts@,
                        j as int,
                    ),
                decreases user.accounts.len() - j,
            {
                let account = &user.accounts[j];
                if !account.allocation.is_valid() {
                    return Err(
                        ConfigValidationError::InvalidAllocation(user.id.clone(), account.id.clone()),
                    );
                }
                j = j + 1;
            }
            i = i + 1;
        }
        Ok(())
    }
}

/// Index of the first user with the id, from `from` on.
pub open spec fn user_index(users: Seq<User>, id: Seq<char>, from: int) -> Option<int>
    decreases users.len() - from,
{
    if from < 0 || from >= users.len() {
        None
    } else if users[from].id@ == id {
        Some(from)
    } else {
        user_index(users, id, from + 1)
    }
}

} // verus!

//! Command-line options and the log level they select.

use vstd::prelude::*;
use crate::config::{AccountConfig, AppConfig, UserConfig};
use crate::lino_args::env::{getenv_bool, getenv_u64, spec_getenv_bool, spec_getenv_u64};
use crate::text::{chars_eq, lowercase, unicode_lowercase};

verus! {

/// Command-line options of the trading bot.
#[derive(Debug, Clone)]
pub struct Cli {
    /// Path to configuration file (JSON format).
    pub config: Option<String>,
    /// Path to lenv file for environment variables.
    pub lenv: Option<String>,
    /// Log level (trace, debug, info, warn, error).
    pub log_level: String,
    /// Enable verbose output.
    pub verbose: bool,
    /// Run in dry-run mode (no actual trades).
    pub dry_run: bool,
    /// Plan mode: calculate orders but do not execute them.
    pub plan: bool,
    /// Account ID to use (all configured accounts when absent).
    pub account: Option<String>,
    /// User ID to use (for multi-user setups).
    pub user: Option<String>,
    /// Rebalancing interval in seconds (overrides config).
    pub balance_interval: Option<u64>,
    /// Delay between orders in milliseconds.
    pub order_delay: Option<u64>,
    /// Run once and exit.
    pub run_once: bool,
    /// Run demo mode with simulated exchange.
    pub demo: bool,
}

/// Logging verbosity.
#[derive(Debug, Clone, Copy, PartialEq, Eq, Structural)]
pub enum LogLevel {
    Trace,
    Debug,
    Info,
    Warn,
    Error,
}

/// The level a log-level name selects (matched on its lower-case form; unknown names
/// select `Info`).
pub open spec fn spec_log_level(name: Seq<char>) -> LogLevel {
    let l = unicode_lowercase(name);
    if l == "trace"@ {
        LogLevel::Trace
    } else if l == "debug"@ {
        LogLevel::Debug
    } else if l == "info"@ {
        LogLevel::Info
    } else if l == "warn"@ || l == "warning"@ {
        LogLevel::Warn
    } else if l == "error"@ {
        LogLevel::Error
    } else {
        LogLevel::Info
    }
}

/// Reads a log-level name.
pub fn log_level_from_name(name: &str) -> (r: LogLevel)
    ensures
        r == spec_log_level(name@),
{
    let l = lowercase(name);
    let l = l.as_str();
    if chars_eq(l, "trace") {
        LogLevel::Trace
    } else if chars_eq(l, "debug") {
        LogLevel::Debug
    } else if chars_eq(l, "info") {
        LogLevel::Info
    } else if chars_eq(l, "warn") || chars_eq(l, "warning") {
        LogLevel::Warn
    } else if chars_eq(l, "error") {
        LogLevel::Error
    } else {
        LogLevel::Info
    }
}

impl Cli {
    /// Gets the effective log level.
    pub fn get_log_level(&self) -> (r: LogLevel)
        ensures
            r == spec_log_level(self.log_level@),
    {
        log_level_from_name(self.log_level.as_str())
    }
}

/// An account configuration with the CLI's overrides applied: the balance interval and the
/// order delay when given.
pub open spec fn overridden(a: AccountConfig, interval: Option<u64>, delay: Option<u64>) -> AccountConfig {
    AccountConfig {
        balance_interval_secs: match interval {
            Some(i) => i,
            None => a.balance_interval_secs,
        },
        order_delay_ms: match delay {
            Some(d) => d,
            None => a.order_delay_ms,
        },
        ..a
    }
}

/// Overrides the balance interval and order delay of every account of a list.
fn override_accounts(accounts: Vec<AccountConfig>, interval: Option<u64>, delay: Option<u64>) -> (r:
    Vec<AccountConfig>)
    ensures
        r@.len() == accounts@.len(),
        forall|i: int| 0 <= i < accounts@.len() ==> #[trigger] r@[i] == overridden(accounts@[i], interval, delay),
{
    let mut src = accounts;
    let ghost orig = src@;
    let mut out: Vec<AccountConfig> = Vec::new();
    let mut k: usize = 0;
    let n0 = src.len();
    assert(orig.subrange(0, orig.len() as int) =~= orig);
    while src.len() > 0
        invariant
            orig.len() == n0,
            k + src@.len() == orig.len(),
            src@ == orig.subrange(k as int, orig.len() as int),
            out@.len() == k,
            forall|i: int| 0 <= i < k ==> #[trigger] out@[i] == overridden(orig[i], interval, delay),
        decreases src@.len(),
    {
        let mut a = src.remove(0);
        assert(a == orig[k as int]);
        match interval {
            Some(v) => {
                a.balance_interval_secs = v;
            },
            None => {},
        }
        match delay {
            Some(v) => {
                a.order_delay_ms = v;
            },
            None => {},
        }
        out.push(a);
        k = k + 1;
        assert(src@ =~= orig.subrange(k as int, orig.len() as int));
    }
    out
}

impl Cli {
    /// Applies the command line to a configuration: verbose and dry-run switch the global
    /// settings on (never off), the log level is replaced, and a given balance interval or
    /// order delay replaces that of every account, direct or under a user.
    pub fn merge_with_config(&self, config: AppConfig) -> (r: AppConfig)
        ensures
            r.version == config.version,
            r.settings.verbose == (config.settings.verbose || self.verbose),
            r.settings.dry_run == (config.settings.dry_run || self.dry_run),
            r.settings.log_level@ == self.log_level@,
            r.accounts@.len() == config.accounts@.len(),
            forall|i: int|
                0 <= i < config.accounts@.len() ==> #[trigger] r.accounts@[i] == overridden(
                    config.accounts@[i],
                    self.balance_interval,
                    self.order_delay,
                ),
            r.users@.len() == config.users@.len(),
            forall|u: int|
                0 <= u < config.users@.len() ==> {
                    &&& (#[trigger] r.users@[u]).id == config.users@[u].id
                    &&& r.users@[u].name == config.users@[u].name
                    &&& r.users@[u].email == config.users@[u].email
                    &&& r.users@[u].active == config.users@[u].active
                    &&& r.users@[u].accounts@.len() == config.users@[u].accounts@.len()
                    &&& forall|j: int|
                        0 <= j < config.users@[u].accounts@.len() ==> #[trigger] r.users@[u].accounts@[j]
                            == overridden(
                            config.users@[u].accounts@[j],
                            self.balance_interval,
                            self.order_delay,
                        )
                },
    {
        let mut config = config;
        if self.verbose {
            config.settings.verbose = true;
        }
        if self.dry_run {
            config.settings.dry_run = true;
        }
        config.settings.log_level = self.log_level.clone();
        let accounts = override_accounts(config.accounts, self.balance_interval, self.order_delay);
        let mut users_src = config.users;
        let ghost orig = users_src@;
        let n0 = users_src.len();
        let mut users: Vec<UserConfig> = Vec::new();
        let mut k: usize = 0;
        assert(orig.subrange(0, orig.len() as int) =~= orig);
        while users_src.len() > 0
            invariant
                orig.len() == n0,
                k + users_src@.len() == orig.len(),
                users_src@ == orig.subrange(k as int, orig.len() as int),
                users@.len() == k,
                forall|u: int|
                    0 <= u < k ==> {
                        &&& (#[trigger] users@[u]).id == orig[u].id
                        &&& users@[u].name == orig[u].name
                        &&& users@[u].email == orig[u].email
                        &&& users@[u].active == orig[u].active
                        &&& users@[u].accounts@.len() == orig[u].accounts@.len()
                        &&& forall|j: int|
                            0 <= j < orig[u].accounts@.len() ==> #[trigger] users@[u].accounts@[j]
                                == overridden(orig[u].accounts@[j], self.balance_interval, self.order_delay)
                    },
            decreases users_src@.len(),
        {
            let user = users_src.remove(0);
            assert(user == orig[k as int]);
            let accs = override_accounts(user.accounts, self.balance_interval, self.order_delay);
            users.push(
                UserConfig {
                    id: user.id,
                    name: user.name,
                    email: user.email,
                    accounts: accs,
                    active: user.active,
                },
            );
            k = k + 1;
            assert(users_src@ =~= orig.subrange(k as int, orig.len() as int));
        }
        AppConfig { version: config.version, settings: config.settings, users, accounts }
    }
}

/// The effective runtime configuration.
#[derive(Debug)]
pub struct RuntimeConfig {
    /// Path to configuration file.
    pub config_path: Option<String>,
    /// Path to lenv file.
    pub lenv_path: Option<String>,
    /// Log level.
    pub log_level: LogLevel,
    /// Verbose mode.
    pub verbose: bool,
    /// Dry run mode.
    pub dry_run: bool,
    /// Plan mode: calculate and display orders without executing them.
    pub plan: bool,
    /// Specific account to use.
    pub account: Option<String>,
    /// Specific user to use.
    pub user: Option<String>,
    /// Balance interval override.
    pub balance_interval: Option<u64>,
    /// Order delay override.
    pub order_delay: Option<u64>,
    /// Run once and exit.
    pub run_once: bool,
    /// Demo mode.
    pub demo: bool,
    /// Application configuration.
    pub app_config: Option<AppConfig>,
}

/// The environment values a runtime configuration is read from: each as found by the
/// case-insensitive lookup (`TRADER_BOT_LOG_LEVEL` defaulting to `info`, the other texts
/// empty when not set), and the paths and names that are exactly set.
pub struct EnvValues {
    /// `TRADER_BOT_LOG_LEVEL` (`info` when not set).
    pub log_level: String,
    /// `TRADER_BOT_VERBOSE`.
    pub verbose: String,
    /// `TRADER_BOT_DRY_RUN`.
    pub dry_run: String,
    /// `TRADER_BOT_PLAN`.
    pub plan: String,
    /// `TRADER_BOT_BALANCE_INTERVAL`.
    pub balance_interval: String,
    /// `TRADER_BOT_ORDER_DELAY`.
    pub order_delay: String,
    /// `TRADER_BOT_RUN_ONCE`.
    pub run_once: String,
    /// `TRADER_BOT_CONFIG`, when set.
    pub config_path: Option<String>,
    /// `LENV_FILE`, when set.
    pub lenv_path: Option<String>,
    /// `TRADER_BOT_ACCOUNT`, when set.
    pub account: Option<String>,
    /// `TRADER_BOT_USER`, when set.
    pub user: Option<String>,
}

/// A positive count, or none for zero.
pub open spec fn positive(v: u64) -> Option<u64> {
    if v > 0 {
        Some(v)
    } else {
        None
    }
}

impl RuntimeConfig {
    /// The runtime configuration of a parsed command line and the loaded configuration.
    pub fn from_cli(cli: Cli, app_config: Option<AppConfig>) -> (r: RuntimeConfig)
        ensures
            r.config_path == cli.config,
            r.lenv_path == cli.lenv,
            r.log_level == spec_log_level(cli.log_level@),
            r.verbose == cli.verbose,
            r.dry_run == cli.dry_run,
            r.plan == cli.plan,
            r.account == cli.account,
            r.user == cli.user,
            r.balance_interval == cli.balance_interval,
            r.order_delay == cli.order_delay,
            r.run_once == cli.run_once,
            r.demo == cli.demo,
            r.app_config == app_config,
    {
        let log_level = cli.get_log_level();
        RuntimeConfig {
            config_path: cli.config,
            lenv_path: cli.lenv,
            log_level,
            verbose: cli.verbose,
            dry_run: cli.dry_run,
            plan: cli.plan,
            account: cli.account,
            user: cli.user,
            balance_interval: cli.balance_interval,
            order_delay: cli.order_delay,
            run_once: cli.run_once,
            demo: cli.demo,
            app_config,
        }
    }

    /// The runtime configuration the environment gives: flags read as booleans (false by
    /// default), intervals as counts where zero (or unreadable) means none, no demo and no
    /// loaded configuration.
    pub fn from_env(env: EnvValues) -> (r: RuntimeConfig)
        ensures
            r.config_path == env.config_path,
            r.lenv_path == env.lenv_path,
            r.log_level == spec_log_level(env.log_level@),
            r.verbose == spec_getenv_bool(env.verbose@, false),
            r.dry_run == spec_getenv_bool(env.dry_run@, false),
            r.plan == spec_getenv_bool(env.plan@, false),
            r.account == env.account,
            r.user == env.user,
            r.balance_interval == positive(spec_getenv_u64(env.balance_interval@, 0)),
            r.order_delay == positive(spec_getenv_u64(env.order_delay@, 0)),
            r.run_once == spec_getenv_bool(env.run_once@, false),
            !r.demo,
            r.app_config is None,
    {
        let log_level = log_level_from_name(env.log_level.as_str());
        let bi = getenv_u64(env.balance_interval.as_str(), 0);
        let od = getenv_u64(env.order_delay.as_str(), 0);
        RuntimeConfig {
            config_path: env.config_path,
            lenv_path: env.lenv_path,
            log_level,
            verbose: getenv_bool(env.verbose.as_str(), false),
            dry_run: getenv_bool(env.dry_run.as_str(), false),
            plan: getenv_bool(env.plan.as_str(), false),
            account: env.account,
            user: env.user,
            balance_interval: if bi > 0 {
                Some(bi)
            } else {
                None
            },
            order_delay: if od > 0 {
                Some(od)
            } else {
                None
            },
            run_once: getenv_bool(env.run_once.as_str(), false),
            demo: false,
            app_config: None,
        }
    }
}

} // verus!

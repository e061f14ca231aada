use vstd::prelude::*;
use vstd::string::*;

use crate::decimal::{Dec, Decimal};
use crate::errors::ConfigError;
use crate::kinds::{Exchange, ExecutionMode, InstrumentType, Pairs};
use crate::table::Table;
use crate::text;
use crate::text::join;
use crate::types::InstrumentKey;

verus! {

/// Limits that an order must keep before it is sent to an exchange.
#[derive(Clone, Copy, Debug)]
pub struct FatFingerConfig {
    /// Largest size of one order, in units of the base asset.
    pub max_order_size: Decimal,
    /// Largest value of one order, in US dollars.
    pub max_order_notional_usd: Decimal,
    /// Largest deviation of a limit price from the mid-price, in percent.
    pub max_price_deviation_pct: Decimal,
}

impl Default for FatFingerConfig {
    fn default() -> (r: FatFingerConfig)
        ensures
            r.max_order_size@ == (Dec { m: 10, s: 0 }),
            r.max_order_notional_usd@ == (Dec { m: 100_000, s: 0 }),
            r.max_price_deviation_pct@ == (Dec { m: 5, s: 0 }),
    {
        FatFingerConfig {
            max_order_size: Decimal::new(10, 0),
            max_order_notional_usd: Decimal::new(100_000, 0),
            max_price_deviation_pct: Decimal::new(5, 0),
        }
    }
}

/// Limits on what is held and risked.
#[derive(Clone, Copy, Debug)]
pub struct RiskConfig {
    pub max_position_size: Decimal,
    pub max_total_exposure: Decimal,
    pub max_leverage: Decimal,
    pub delta_threshold: Decimal,
    pub min_funding_rate: Decimal,
    pub max_negative_funding_rate: Decimal,
    pub daily_drawdown_limit_pct: Decimal,
    pub fat_finger: FatFingerConfig,
}

impl Default for RiskConfig {
    fn default() -> (r: RiskConfig)
        ensures
            r.max_position_size@ == (Dec { m: 1000, s: 0 }),
            r.max_total_exposure@ == (Dec { m: 5000, s: 0 }),
            r.max_leverage@ == (Dec { m: 1, s: 0 }),
            r.delta_threshold@ == (Dec { m: 5, s: 2 }),
            r.min_funding_rate@ == (Dec { m: 1, s: 4 }),
            r.max_negative_funding_rate@ == (Dec { m: -1, s: 3 }),
            r.daily_drawdown_limit_pct@ == (Dec { m: 5, s: 0 }),
            r.fat_finger.max_order_size@ == (Dec { m: 10, s: 0 }),
            r.fat_finger.max_order_notional_usd@ == (Dec { m: 100_000, s: 0 }),
            r.fat_finger.max_price_deviation_pct@ == (Dec { m: 5, s: 0 }),
    {
        RiskConfig {
            max_position_size: Decimal::new(1000, 0),
            max_total_exposure: Decimal::new(5000, 0),
            max_leverage: Decimal::new(1, 0),
            delta_threshold: Decimal::new(5, 2),
            min_funding_rate: Decimal::new(1, 4),
            max_negative_funding_rate: Decimal::new(-1, 3),
            daily_drawdown_limit_pct: Decimal::new(5, 0),
            fat_finger: FatFingerConfig::default(),
        }
    }
}

/// An instrument as a configuration names it, below its exchange.
#[derive(Clone, Copy, Debug)]
pub struct InstrumentRef {
    pub pair: Pairs,
    pub instrument_type: InstrumentType,
}

impl InstrumentRef {
    /// The key on an exchange.
    pub fn to_instrument_key(&self, exchange: Exchange) -> (r: InstrumentKey)
        ensures
            r == (InstrumentKey { exchange, pair: self.pair, instrument_type: self.instrument_type }),
    {
        InstrumentKey { exchange, pair: self.pair, instrument_type: self.instrument_type }
    }
}

/// Settings of the account manager.
#[derive(Clone, Copy, Debug)]
pub struct AccountManagerCfg {
    pub mailbox_capacity: usize,
    pub snapshot_max_age_secs: u64,
}

impl AccountManagerCfg {
    pub open spec fn standard() -> AccountManagerCfg {
        AccountManagerCfg {
            mailbox_capacity: 64,
            snapshot_max_age_secs: 30,
        }
    }
}

impl Default for AccountManagerCfg {
    fn default() -> (r: AccountManagerCfg)
        ensures
            r == AccountManagerCfg::standard(),
    {
        AccountManagerCfg {
            mailbox_capacity: 64,
            snapshot_max_age_secs: 30,
        }
    }
}

/// Settings of the price manager.
#[derive(Clone, Copy, Debug)]
pub struct PriceManagerCfg {
    pub mailbox_capacity: usize,
    pub broadcast_capacity: usize,
    pub ws_capacity: usize,
    pub max_cache_entries: u64,
    pub ttl_secs: u64,
}

impl PriceManagerCfg {
    pub open spec fn standard() -> PriceManagerCfg {
        PriceManagerCfg {
            mailbox_capacity: 64,
            broadcast_capacity: 256,
            ws_capacity: 256,
            max_cache_entries: 10000,
            ttl_secs: 60,
        }
    }
}

impl Default for PriceManagerCfg {
    fn default() -> (r: PriceManagerCfg)
        ensures
            r == PriceManagerCfg::standard(),
    {
        PriceManagerCfg {
            mailbox_capacity: 64,
            broadcast_capacity: 256,
            ws_capacity: 256,
            max_cache_entries: 10000,
            ttl_secs: 60,
        }
    }
}

/// Settings of the order manager.
#[derive(Clone, Copy, Debug)]
pub struct OrderManagerCfg {
    pub mailbox_capacity: usize,
    pub broadcast_capacity: usize,
    pub ws_capacity: usize,
    pub reconcile_interval_secs: u64,
}

impl OrderManagerCfg {
    pub open spec fn standard() -> OrderManagerCfg {
        OrderManagerCfg {
            mailbox_capacity: 128,
            broadcast_capacity: 1024,
            ws_capacity: 1024,
            reconcile_interval_secs: 30,
        }
    }
}

impl Default for OrderManagerCfg {
    fn default() -> (r: OrderManagerCfg)
        ensures
            r == OrderManagerCfg::standard(),
    {
        OrderManagerCfg {
            mailbox_capacity: 128,
            broadcast_capacity: 1024,
            ws_capacity: 1024,
            reconcile_interval_secs: 30,
        }
    }
}

/// Settings of the position manager.
#[derive(Clone, Copy, Debug)]
pub struct PositionManagerCfg {
    pub mailbox_capacity: usize,
    pub broadcast_capacity: usize,
    pub reconcile_interval_secs: u64,
}

impl PositionManagerCfg {
    pub open spec fn standard() -> PositionManagerCfg {
        PositionManagerCfg {
            mailbox_capacity: 1024,
            broadcast_capacity: 1024,
            reconcile_interval_secs: 30,
        }
    }
}

impl Default for PositionManagerCfg {
    fn default() -> (r: PositionManagerCfg)
        ensures
            r == PositionManagerCfg::standard(),
    {
        PositionManagerCfg {
            mailbox_capacity: 1024,
            broadcast_capacity: 1024,
            reconcile_interval_secs: 30,
        }
    }
}

/// Settings of all managers.
#[derive(Clone, Copy, Debug)]
pub struct ManagersConfig {
    pub account: AccountManagerCfg,
    pub price: PriceManagerCfg,
    pub order: OrderManagerCfg,
    pub position: PositionManagerCfg,
}

impl ManagersConfig {
    pub open spec fn standard() -> ManagersConfig {
        ManagersConfig {
            account: AccountManagerCfg::standard(),
            price: PriceManagerCfg::standard(),
            order: OrderManagerCfg::standard(),
            position: PositionManagerCfg::standard(),
        }
    }
}

impl Default for ManagersConfig {
    fn default() -> (r: ManagersConfig)
        ensures
            r == ManagersConfig::standard(),
    {
        ManagersConfig {
            account: AccountManagerCfg::default(),
            price: PriceManagerCfg::default(),
            order: OrderManagerCfg::default(),
            position: PositionManagerCfg::default(),
        }
    }
}

/// Which strategy to run.
#[derive(Debug)]
pub struct RunnerStrategyConfig {
    /// The strategy's name.
    pub strategy: String,
}

/// What to run, and how often to look again.
#[derive(Debug)]
pub struct RunnerConfig {
    pub account_reconcile_interval_secs: u64,
    pub funding_rate_poll_interval_secs: u64,
    pub zmq_ttl_secs: u64,
    pub managers: ManagersConfig,
    /// The exchanges to start, each with a section of its own.
    pub exchanges: Vec<String>,
    pub strategies: Option<RunnerStrategyConfig>,
}

impl Default for RunnerConfig {
    fn default() -> (r: RunnerConfig)
        ensures
            r.account_reconcile_interval_secs == 30,
            r.funding_rate_poll_interval_secs == 60,
            r.zmq_ttl_secs == 30,
            r.managers == ManagersConfig::standard(),
            r.exchanges@.len() == 0,
            r.strategies is None,
    {
        RunnerConfig {
            account_reconcile_interval_secs: 30,
            funding_rate_poll_interval_secs: 60,
            zmq_ttl_secs: 30,
            managers: ManagersConfig::default(),
            exchanges: Vec::new(),
            strategies: None,
        }
    }
}

impl RunnerConfig {
    /// The time between two reconciliations of the account, in seconds.
    pub fn account_reconcile_interval(&self) -> (r: u64)
        ensures
            r == self.account_reconcile_interval_secs,
    {
        self.account_reconcile_interval_secs
    }

    /// The time between two looks at the funding rate, in seconds.
    pub fn funding_rate_poll_interval(&self) -> (r: u64)
        ensures
            r == self.funding_rate_poll_interval_secs,
    {
        self.funding_rate_poll_interval_secs
    }
}

/// What the section of an exchange says of its instruments: the entries of its list where it has
/// one, each a text or something else.
#[derive(Debug)]
pub struct ExchangeSection {
    pub instruments: Option<Vec<Option<String>>>,
}

/// The whole configuration.
#[derive(Debug)]
pub struct AppConfig {
    pub execution_mode: ExecutionMode,
    pub redis_url: String,
    pub runner: RunnerConfig,
    pub risk: RiskConfig,
    /// The sections of the exchanges, by name.
    pub exchanges: Table<String, ExchangeSection>,
}

impl Default for AppConfig {
    fn default() -> (r: AppConfig)
        ensures
            r.execution_mode == ExecutionMode::Paper,
            r.redis_url@ == "redis://127.0.0.1:6379"@,
            r.runner.account_reconcile_interval_secs == 30,
            r.runner.funding_rate_poll_interval_secs == 60,
            r.runner.zmq_ttl_secs == 30,
            r.runner.managers == ManagersConfig::standard(),
            r.runner.exchanges@.len() == 0,
            r.runner.strategies is None,
            r.risk.max_position_size@ == (Dec { m: 1000, s: 0 }),
            r.risk.max_total_exposure@ == (Dec { m: 5000, s: 0 }),
            r.risk.max_leverage@ == (Dec { m: 1, s: 0 }),
            r.risk.delta_threshold@ == (Dec { m: 5, s: 2 }),
            r.risk.min_funding_rate@ == (Dec { m: 1, s: 4 }),
            r.risk.max_negative_funding_rate@ == (Dec { m: -1, s: 3 }),
            r.risk.daily_drawdown_limit_pct@ == (Dec { m: 5, s: 0 }),
            r.risk.fat_finger.max_order_size@ == (Dec { m: 10, s: 0 }),
            r.risk.fat_finger.max_order_notional_usd@ == (Dec { m: 100_000, s: 0 }),
            r.risk.fat_finger.max_price_deviation_pct@ == (Dec { m: 5, s: 0 }),
            r.exchanges@ == Map::<Seq<char>, ExchangeSection>::empty(),
            r.complaints() == Seq::<Seq<char>>::empty(),
    {
        let r = AppConfig {
            execution_mode: ExecutionMode::Paper,
            redis_url: "redis://127.0.0.1:6379".to_owned(),
            runner: RunnerConfig::default(),
            risk: RiskConfig::default(),
            exchanges: Table::new(),
        };
        proof {
            r.sound_has_no_complaints();
        }
        r
    }
}

/// One complaint, or none.
pub open spec fn complaint(bad: bool, message: Seq<char>) -> Seq<Seq<char>> {
    if bad {
        seq![message]
    } else {
        Seq::empty()
    }
}

/// The complaint about an exchange that is to be started but has no section.
pub open spec fn missing_section(name: Seq<char>) -> Seq<char> {
    "runner.exchanges lists '"@ + name + "' but no [exchanges."@ + name + "] config found"@
}

/// The complaints about exchanges that are to be started but have no section, in their order.
pub open spec fn missing_sections(names: Seq<String>, sections: Map<Seq<char>, ExchangeSection>) -> Seq<Seq<char>>
    decreases names.len(),
{
    if names.len() == 0 {
        Seq::empty()
    } else {
        missing_sections(names.drop_last(), sections) + complaint(
            !sections.contains_key(names.last()@),
            missing_section(names.last()@),
        )
    }
}

fn note(errors: &mut Vec<String>, bad: bool, message: &str)
    ensures
        text::views(final(errors)@) == text::views(old(errors)@) + complaint(bad, message@),
{
    if bad {
        errors.push(message.to_owned());
    }
    assert(text::views(errors@) =~= text::views(old(errors)@) + complaint(bad, message@));
}

impl AppConfig {
    /// What is wrong with the limits, in order.
    pub open spec fn limit_complaints(self) -> Seq<Seq<char>> {
        complaint(self.risk.max_leverage@.m <= 0, "risk.max_leverage must be > 0"@)
            + complaint(self.risk.max_position_size@.m <= 0, "risk.max_position_size must be > 0"@)
            + complaint(self.risk.max_total_exposure@.m <= 0, "risk.max_total_exposure must be > 0"@)
            + complaint(self.risk.daily_drawdown_limit_pct@.m <= 0, "risk.daily_drawdown_limit_pct must be > 0"@)
            + complaint(self.risk.delta_threshold@.m <= 0, "risk.delta_threshold must be > 0"@)
            + complaint(self.risk.min_funding_rate@.m <= 0, "risk.min_funding_rate must be > 0"@)
            + complaint(self.risk.fat_finger.max_order_size@.m <= 0, "risk.fat_finger.max_order_size must be > 0"@)
            + complaint(self.risk.fat_finger.max_order_notional_usd@.m <= 0, "risk.fat_finger.max_order_notional_usd must be > 0"@)
            + complaint(self.risk.fat_finger.max_price_deviation_pct@.m <= 0, "risk.fat_finger.max_price_deviation_pct must be > 0"@)
    }

    /// What is wrong with the configuration, in order: limits that are not positive, intervals of
    /// zero, live trading without an exchange, and exchanges without a section.
    pub open spec fn complaints(self) -> Seq<Seq<char>> {
        self.limit_complaints()
            + complaint(self.runner.funding_rate_poll_interval_secs == 0, "runner.funding_rate_poll_interval_secs must be > 0"@)
            + complaint(self.runner.account_reconcile_interval_secs == 0, "runner.account_reconcile_interval_secs must be > 0"@)
            + complaint(
            self.execution_mode == ExecutionMode::Live && self.exchanges@ == Map::<
                Seq<char>,
                ExchangeSection,
            >::empty(),
            "No exchanges configured for Live mode"@,
        ) + missing_sections(self.runner.exchanges@, self.exchanges@)
    }

    /// All limits are positive, no interval is zero, live trading has an exchange, and every
    /// exchange that is to be started has a section.
    pub open spec fn sound(self) -> bool {
        &&& self.risk.max_leverage@.m > 0
        &&& self.risk.max_position_size@.m > 0
        &&& self.risk.max_total_exposure@.m > 0
        &&& self.risk.daily_drawdown_limit_pct@.m > 0
        &&& self.risk.delta_threshold@.m > 0
        &&& self.risk.min_funding_rate@.m > 0
        &&& self.risk.fat_finger.max_order_size@.m > 0
        &&& self.risk.fat_finger.max_order_notional_usd@.m > 0
        &&& self.risk.fat_finger.max_price_deviation_pct@.m > 0
        &&& self.runner.funding_rate_poll_interval_secs > 0
        &&& self.runner.account_reconcile_interval_secs > 0
        &&& self.execution_mode == ExecutionMode::Live ==> self.exchanges@ != Map::<Seq<char>, ExchangeSection>::empty()
        &&& forall|i: int|
            0 <= i < self.runner.exchanges@.len() ==> self.exchanges@.contains_key((#[trigger] self.runner.exchanges@[i])@)
    }

    /// There is nothing to complain about exactly where the configuration is sound.
    pub proof fn sound_has_no_complaints(self)
        ensures
            self.sound() <==> self.complaints() == Seq::<Seq<char>>::empty(),
    {
        missing_sections_empty(self.runner.exchanges@, self.exchanges@);
        if self.sound() {
            assert(self.complaints() =~= Seq::<Seq<char>>::empty());
        }
        if self.complaints() == Seq::<Seq<char>>::empty() {
            assert(self.complaints().len() == 0);
            assert(missing_sections(self.runner.exchanges@, self.exchanges@).len() == 0);
            assert(missing_sections(self.runner.exchanges@, self.exchanges@) =~= Seq::<Seq<char>>::empty());
        }
    }

    /// The configuration itself where nothing is wrong with it, else all that is wrong with it.
    pub fn accept(self) -> (r: Result<AppConfig, ConfigError>)
        ensures
            match r {
                Ok(config) => self.sound() && config == self,
                Err(ConfigError::ValidationFailed { reason }) => !self.sound() && reason@ == text::joined(
                    self.complaints(),
                    ", "@,
                ),
                Err(_) => false,
            },
    {
        proof {
            self.sound_has_no_complaints();
        }
        let errors = self.validate();
        if errors.len() == 0 {
            assert(text::views(errors@) =~= Seq::<Seq<char>>::empty());
            Ok(self)
        } else {
            assert(text::views(errors@).len() > 0);
            Err(ConfigError::ValidationFailed { reason: join(&errors, ", ") })
        }
    }

    /// What is wrong with the configuration.
    pub fn validate(&self) -> (r: Vec<String>)
        ensures
            text::views(r@) == self.complaints(),
    {
        let zero = Decimal::zero();
        let mut errors: Vec<String> = Vec::new();
        assert(text::views(errors@) =~= Seq::<Seq<char>>::empty());
        proof {
            crate::decimal_laws::units_have_sign(self.risk.max_leverage@);
            crate::decimal_laws::units_have_sign(self.risk.max_position_size@);
            crate::decimal_laws::units_have_sign(self.risk.max_total_exposure@);
            crate::decimal_laws::units_have_sign(self.risk.daily_drawdown_limit_pct@);
            crate::decimal_laws::units_have_sign(self.risk.delta_threshold@);
            crate::decimal_laws::units_have_sign(self.risk.min_funding_rate@);
            crate::decimal_laws::units_have_sign(self.risk.fat_finger.max_order_size@);
            crate::decimal_laws::units_have_sign(self.risk.fat_finger.max_order_notional_usd@);
            crate::decimal_laws::units_have_sign(self.risk.fat_finger.max_price_deviation_pct@);
            crate::decimal_laws::units_have_sign(Dec::zero());
        }
        note(&mut errors, self.risk.max_leverage.at_most(zero), "risk.max_leverage must be > 0");
        note(&mut errors, self.risk.max_position_size.at_most(zero), "risk.max_position_size must be > 0");
        note(&mut errors, self.risk.max_total_exposure.at_most(zero), "risk.max_total_exposure must be > 0");
        note(&mut errors, self.risk.daily_drawdown_limit_pct.at_most(zero), "risk.daily_drawdown_limit_pct must be > 0");
        note(&mut errors, self.risk.delta_threshold.at_most(zero), "risk.delta_threshold must be > 0");
        note(&mut errors, self.risk.min_funding_rate.at_most(zero), "risk.min_funding_rate must be > 0");
        note(&mut errors, self.risk.fat_finger.max_order_size.at_most(zero), "risk.fat_finger.max_order_size must be > 0");
        note(&mut errors, self.risk.fat_finger.max_order_notional_usd.at_most(zero), "risk.fat_finger.max_order_notional_usd must be > 0");
        note(&mut errors, self.risk.fat_finger.max_price_deviation_pct.at_most(zero), "risk.fat_finger.max_price_deviation_pct must be > 0");
        assert(text::views(errors@) =~= self.limit_complaints());
        note(&mut errors, self.runner.funding_rate_poll_interval_secs == 0, "runner.funding_rate_poll_interval_secs must be > 0");
        note(&mut errors, self.runner.account_reconcile_interval_secs == 0, "runner.account_reconcile_interval_secs must be > 0");
        let no_exchange = self.exchanges.len() == 0;
        proof {
            if no_exchange {
                assert(self.exchanges@ =~= Map::<Seq<char>, ExchangeSection>::empty());
            } else {
                assert(self.exchanges@.contains_key(crate::table::Key::key(&self.exchanges.rows()[0].0)));
            }
        }
        note(
            &mut errors,
            self.execution_mode == ExecutionMode::Live && no_exchange,
            "No exchanges configured for Live mode",
        );
        let ghost before = text::views(errors@);
        for i in 0..self.runner.exchanges.len()
            invariant
                text::views(errors@) == before + missing_sections(
                    self.runner.exchanges@.take(i as int),
                    self.exchanges@,
                ),
        {
            let name = &self.runner.exchanges[i];
            let known = self.exchanges.contains(name);
            let mut message: String = "runner.exchanges lists '".to_owned();
            message.append(name.as_str());
            message.append("' but no [exchanges.");
            message.append(name.as_str());
            message.append("] config found");
            note(&mut errors, !known, message.as_str());
            assert(self.runner.exchanges@.take(i + 1).drop_last() =~= self.runner.exchanges@.take(i as int));
            assert(text::views(errors@) =~= before + missing_sections(
                self.runner.exchanges@.take(i + 1),
                self.exchanges@,
            ));
        }
        assert(self.runner.exchanges@.take(self.runner.exchanges@.len() as int) =~= self.runner.exchanges@);
        assert(text::views(errors@) =~= self.complaints());
        errors
    }

    /// The keys that the section of an exchange lists: those of its entries that are texts and
    /// can be read as keys, in order.
    pub fn tracked_instruments(&self, exchange: Exchange) -> (r: Vec<InstrumentKey>)
        ensures
            r@ == (if self.exchanges@.contains_key(exchange.text()) {
                section_keys(self.exchanges@[exchange.text()])
            } else {
                Seq::empty()
            }),
    {
        let name = exchange.to_string();
        let section = match self.exchanges.get(&name) {
            Some(section) => section,
            None => return Vec::new(),
        };
        let entries = match &section.instruments {
            Some(entries) => entries,
            None => return Vec::new(),
        };
        let mut keys: Vec<InstrumentKey> = Vec::new();
        for i in 0..entries.len()
            invariant
                keys@ == listed_keys(entries@.take(i as int)),
        {
            assert(entries@.take(i + 1).drop_last() =~= entries@.take(i as int));
            if let Some(entry) = &entries[i] {
                if let Ok(key) = InstrumentKey::from_str(entry.as_str()) {
                    keys.push(key);
                }
            }
        }
        assert(entries@.take(entries@.len() as int) =~= entries@);
        keys
    }
}

proof fn missing_sections_empty(names: Seq<String>, sections: Map<Seq<char>, ExchangeSection>)
    ensures
        missing_sections(names, sections) == Seq::<Seq<char>>::empty() <==> (forall|i: int|
            0 <= i < names.len() ==> sections.contains_key((#[trigger] names[i])@)),
    decreases names.len(),
{
    if names.len() > 0 {
        let front = names.drop_last();
        missing_sections_empty(front, sections);
        let all = missing_sections(names, sections);
        let rest = missing_sections(front, sections);
        if all == Seq::<Seq<char>>::empty() {
            assert(all.len() == 0);
            assert(rest =~= Seq::<Seq<char>>::empty());
            assert forall|i: int| 0 <= i < names.len() implies sections.contains_key((#[trigger] names[i])@) by {
                if i < front.len() {
                    assert(front[i] == names[i]);
                }
            }
        }
        if forall|i: int| 0 <= i < names.len() ==> sections.contains_key((#[trigger] names[i])@) {
            assert forall|i: int| 0 <= i < front.len() implies sections.contains_key((#[trigger] front[i])@) by {
                assert(front[i] == names[i]);
            }
            assert(names.last() == names[names.len() - 1]);
            assert(all =~= Seq::<Seq<char>>::empty());
        }
    }
}

/// The keys among the entries of a list, in order.
pub open spec fn listed_keys(entries: Seq<Option<String>>) -> Seq<InstrumentKey>
    decreases entries.len(),
{
    if entries.len() == 0 {
        Seq::empty()
    } else {
        let front = listed_keys(entries.drop_last());
        match entries.last() {
            Some(entry) => match InstrumentKey::read(entry@) {
                Ok(key) => front.push(key),
                Err(_) => front,
            },
            None => front,
        }
    }
}

/// The keys that a section lists; none without a list.
pub open spec fn section_keys(section: ExchangeSection) -> Seq<InstrumentKey> {
    match section.instruments {
        Some(entries) => listed_keys(entries@),
        None => Seq::empty(),
    }
}

} // verus!

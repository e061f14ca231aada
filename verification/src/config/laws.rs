use vstd::prelude::*;

use crate::config::types;
use crate::config::types::AppConfig;
use crate::decimal_laws;
use crate::kinds::ExecutionMode;

verus! {

/// A configuration that is accepted has limits above zero, all of them, and no interval of zero.
pub proof fn accepted_limits_are_positive(config: AppConfig)
    requires
        config.complaints().len() == 0,
    ensures
        config.risk.max_leverage@.units() > 0,
        config.risk.max_position_size@.units() > 0,
        config.risk.max_total_exposure@.units() > 0,
        config.risk.daily_drawdown_limit_pct@.units() > 0,
        config.risk.delta_threshold@.units() > 0,
        config.risk.min_funding_rate@.units() > 0,
        config.risk.fat_finger.max_order_size@.units() > 0,
        config.risk.fat_finger.max_order_notional_usd@.units() > 0,
        config.risk.fat_finger.max_price_deviation_pct@.units() > 0,
        config.runner.funding_rate_poll_interval_secs > 0,
        config.runner.account_reconcile_interval_secs > 0,
{
    assert(config.complaints() =~= Seq::<Seq<char>>::empty());
    config.sound_has_no_complaints();
    decimal_laws::units_have_sign(config.risk.max_leverage@);
    decimal_laws::units_have_sign(config.risk.max_position_size@);
    decimal_laws::units_have_sign(config.risk.max_total_exposure@);
    decimal_laws::units_have_sign(config.risk.daily_drawdown_limit_pct@);
    decimal_laws::units_have_sign(config.risk.delta_threshold@);
    decimal_laws::units_have_sign(config.risk.min_funding_rate@);
    decimal_laws::units_have_sign(config.risk.fat_finger.max_order_size@);
    decimal_laws::units_have_sign(config.risk.fat_finger.max_order_notional_usd@);
    decimal_laws::units_have_sign(config.risk.fat_finger.max_price_deviation_pct@);
}

/// An accepted configuration that trades live has an exchange, and every exchange that it starts
/// has a section.
pub proof fn accepted_exchanges_have_sections(config: AppConfig, i: int)
    requires
        config.complaints().len() == 0,
        0 <= i < config.runner.exchanges@.len(),
    ensures
        config.exchanges@.contains_key(config.runner.exchanges@[i]@),
{
    assert(config.complaints() =~= Seq::<Seq<char>>::empty());
    config.sound_has_no_complaints();
}

/// Live trading without an exchange is refused; any other mode may do without one.
pub proof fn live_trading_needs_an_exchange(config: AppConfig)
    requires
        config.complaints().len() == 0,
        config.execution_mode == ExecutionMode::Live,
    ensures
        exists|name: Seq<char>| config.exchanges@.contains_key(name),
{
    assert(config.complaints() =~= Seq::<Seq<char>>::empty());
    config.sound_has_no_complaints();
    if forall|name: Seq<char>| !config.exchanges@.contains_key(name) {
        assert(config.exchanges@ =~= Map::<Seq<char>, types::ExchangeSection>::empty());
    }
}

/// Each fault is named: there are as many complaints on the limits as limits that are not above
/// zero.
pub proof fn each_bad_limit_is_named(config: AppConfig)
    ensures
        config.limit_complaints().len() == bad(config.risk.max_leverage@.units()) + bad(
            config.risk.max_position_size@.units(),
        ) + bad(config.risk.max_total_exposure@.units()) + bad(config.risk.daily_drawdown_limit_pct@.units()) + bad(
            config.risk.delta_threshold@.units(),
        ) + bad(config.risk.min_funding_rate@.units()) + bad(config.risk.fat_finger.max_order_size@.units()) + bad(
            config.risk.fat_finger.max_order_notional_usd@.units(),
        ) + bad(config.risk.fat_finger.max_price_deviation_pct@.units()),
{
    decimal_laws::units_have_sign(config.risk.max_leverage@);
    decimal_laws::units_have_sign(config.risk.max_position_size@);
    decimal_laws::units_have_sign(config.risk.max_total_exposure@);
    decimal_laws::units_have_sign(config.risk.daily_drawdown_limit_pct@);
    decimal_laws::units_have_sign(config.risk.delta_threshold@);
    decimal_laws::units_have_sign(config.risk.min_funding_rate@);
    decimal_laws::units_have_sign(config.risk.fat_finger.max_order_size@);
    decimal_laws::units_have_sign(config.risk.fat_finger.max_order_notional_usd@);
    decimal_laws::units_have_sign(config.risk.fat_finger.max_price_deviation_pct@);
}

/// One for a limit that is not above zero.
pub open spec fn bad(units: int) -> nat {
    if units > 0 {
        0
    } else {
        1
    }
}

} // verus!

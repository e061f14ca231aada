use vstd::prelude::*;
use vstd::string::*;

use crate::decimal;
use crate::decimal::{Dec, Decimal};
use crate::errors::{PriceError, TradingError};
use crate::exchanges::requests;
use crate::exchanges::requests::other_exchange;
use crate::ids;
use crate::ids::outside_uuid;
use crate::kinds::{Currency, Exchange, OrderSide, OrderStatus, OrderType};
use crate::manager::account::AccountManagerError;
use crate::manager::types::{AccountModel, AccountSnapshot, BalanceView, CollateralScope};
use crate::orders::{Order, OrderRequest, Position};
use crate::table::Table;
use crate::text::concat;
use crate::time::UtcTime;
use crate::types::{InstrumentKey, OrderBookSnapshot};

verus! {

/// What a paper account holds.
#[derive(Debug)]
pub struct MockState {
    pub balances: Table<Currency, BalanceView>,
    pub positions: Table<InstrumentKey, Position>,
    /// The orders that are not filled, by client order identifier.
    pub open_orders: Table<String, Order>,
}

/// The balance that a paper account starts with.
pub open spec fn starting_balance(b: BalanceView, now: UtcTime) -> bool {
    &&& b.exchange == Exchange::Binance
    &&& b.partition is None
    &&& b.asset == Currency::USDT
    &&& b.total@ == (Dec { m: 100_000, s: 0 })
    &&& b.free@ == (Dec { m: 100_000, s: 0 })
    &&& b.locked@ == Dec::zero()
    &&& b.borrowed@ == Dec::zero()
    &&& b.unrealized_pnl@ == Dec::zero()
    &&& b.collateral_scope == CollateralScope::SharedAcrossPartitions
    &&& b.as_of_utc == now
}

impl MockState {
    /// A hundred thousand USDT and nothing else.
    pub fn start_at(now: UtcTime) -> (r: MockState)
        ensures
            r.balances@.dom() == set![Currency::USDT],
            starting_balance(r.balances@[Currency::USDT], now),
            r.positions@ == Map::<InstrumentKey, Position>::empty(),
            r.open_orders@ == Map::<Seq<char>, Order>::empty(),
    {
        let mut balances: Table<Currency, BalanceView> = Table::new();
        balances.insert(
            Currency::USDT,
            BalanceView {
                exchange: Exchange::Binance,
                partition: None,
                asset: Currency::USDT,
                total: Decimal::from_u64(100_000),
                free: Decimal::from_u64(100_000),
                locked: Decimal::zero(),
                borrowed: Decimal::zero(),
                unrealized_pnl: Decimal::zero(),
                collateral_scope: CollateralScope::SharedAcrossPartitions,
                as_of_utc: now,
            },
        );
        assert(balances@.dom() =~= set![Currency::USDT]);
        MockState { balances, positions: Table::new(), open_orders: Table::new() }
    }
}

impl Default for MockState {
    fn default() -> (r: MockState)
        ensures
            r.balances@.dom() == set![Currency::USDT],
            starting_balance(r.balances@[Currency::USDT], r.balances@[Currency::USDT].as_of_utc),
            r.balances@[Currency::USDT].as_of_utc@ >= 0,
            r.positions@ == Map::<InstrumentKey, Position>::empty(),
            r.open_orders@ == Map::<Seq<char>, Order>::empty(),
    {
        MockState::start_at(UtcTime::now())
    }
}

/// The best price on the other side of the book.
pub open spec fn touch(book: OrderBookSnapshot, side: OrderSide) -> Option<Dec> {
    match side {
        OrderSide::Buy => decimal::view_opt(book.best_ask),
        OrderSide::Sell => decimal::view_opt(book.best_bid),
    }
}

/// Whether an order is filled at once at a price: a market order is, a limit order where its own
/// price is as good, and one that must not take what is on offer never.
pub open spec fn marketable(request: OrderRequest, price: Dec) -> bool {
    match request.order_type {
        OrderType::Market => true,
        OrderType::PostOnly => false,
        OrderType::Limit => !request.post_only && match (request.side, decimal::view_opt(request.price)) {
            (OrderSide::Buy, Some(own)) => price.le(own),
            (OrderSide::Buy, None) => price.le(Dec::zero()),
            (OrderSide::Sell, Some(own)) => own.le(price),
            (OrderSide::Sell, None) => (Dec { m: decimal::MAX_MANTISSA as int, s: 0 }).le(price),
        },
    }
}

/// Total and free balance after a fill: what is bought is paid for, what is sold brings its worth.
pub open spec fn paid(total: Dec, free: Dec, side: OrderSide, notional: Dec) -> Option<(Dec, Dec)> {
    let (t, f) = match side {
        OrderSide::Buy => (total.difference(notional), free.difference(notional)),
        OrderSide::Sell => (total.sum(notional), free.sum(notional)),
    };
    match (t, f) {
        (Some(t), Some(f)) => Some((t, f)),
        _ => None,
    }
}

/// The mean of two prices, weighted by two sizes, over a whole.
pub open spec fn blended(size: Dec, entry: Dec, fill: Dec, price: Dec, whole: Dec) -> Option<Dec> {
    match (size.product(entry), fill.product(price)) {
        (Some(a), Some(b)) => match a.sum(b) {
            Some(worth) => worth.quotient(whole),
            None => None,
        },
        _ => None,
    }
}

/// Size and entry price of a position after a fill. The entry price is blended where a purchase
/// leaves it long or a sale leaves it short, and stays otherwise.
pub open spec fn moved(size: Dec, entry: Dec, side: OrderSide, fill: Dec, price: Dec) -> Option<(Dec, Dec)> {
    match side {
        OrderSide::Buy => match size.sum(fill) {
            None => None,
            Some(new_size) => if Dec::zero().lt(new_size) {
                match blended(size, entry, fill, price, new_size) {
                    Some(e) => Some((new_size, e)),
                    None => None,
                }
            } else {
                Some((new_size, entry))
            },
        },
        OrderSide::Sell => match size.difference(fill) {
            None => None,
            Some(new_size) => if new_size.lt(Dec::zero()) {
                match blended(size.abs(), entry, fill, price, new_size.abs()) {
                    Some(e) => Some((new_size, e)),
                    None => None,
                }
            } else {
                Some((new_size, entry))
            },
        },
    }
}

/// What becomes of a paper order.
pub enum Paper {
    /// The book has no price on the other side.
    NoPrice,
    /// It stays open.
    Rests,
    /// It is filled at a price.
    Fills(Dec),
    /// There is not enough to pay with: so much is needed, so much is there.
    TooPoor(Dec, Dec),
    /// A sum, product or quotient has no value.
    Overflow,
}

/// What becomes of a paper order, given the best price on the other side, the balance of the quote
/// currency and the position.
pub open spec fn paper(
    request: OrderRequest,
    price: Option<Dec>,
    balance: Option<(Dec, Dec)>,
    position: (Dec, Dec),
) -> Paper {
    match price {
        None => Paper::NoPrice,
        Some(price) => if !marketable(request, price) {
            Paper::Rests
        } else {
            match request.size@.product(price) {
                None => Paper::Overflow,
                Some(notional) => match balance {
                    None if request.side == OrderSide::Buy => Paper::TooPoor(notional, Dec::zero()),
                    Some((_, free)) if request.side == OrderSide::Buy && free.lt(notional) => Paper::TooPoor(
                        notional,
                        free,
                    ),
                    _ => if (balance matches Some((total, free)) && paid(total, free, request.side, notional) is None)
                        || moved(position.0, position.1, request.side, request.size@, price) is None {
                        Paper::Overflow
                    } else {
                        Paper::Fills(price)
                    },
                },
            }
        },
    }
}

/// A paper account in place of one at an exchange. Prices come from the exchange.
#[derive(Debug)]
pub struct MockExchange {
    state: MockState,
    exchange: Exchange,
}

impl MockExchange {
    pub closed spec fn holds(&self) -> MockState {
        self.state
    }

    pub closed spec fn of(&self) -> Exchange {
        self.exchange
    }

    pub fn new(exchange: Exchange) -> (r: MockExchange)
        ensures
            r.of() == exchange,
            r.holds().balances@.dom() == set![Currency::USDT],
            starting_balance(r.holds().balances@[Currency::USDT], r.holds().balances@[Currency::USDT].as_of_utc),
            r.holds().positions@ == Map::<InstrumentKey, Position>::empty(),
            r.holds().open_orders@ == Map::<Seq<char>, Order>::empty(),
    {
        MockExchange { state: MockState::default(), exchange }
    }

    pub fn get_state(&self) -> (r: &MockState)
        ensures
            *r == self.holds(),
    {
        &self.state
    }

    /// The client order identifier of an order.
    pub fn format_client_id(&self, internal_id: &str) -> (r: String)
        ensures
            r@ == "mock-"@ + internal_id@,
    {
        concat("mock-", internal_id)
    }

    /// The account as it stands, under the name of the exchange that it stands for.
    pub fn fetch_account_snapshot(&self, exchange: Exchange, now: UtcTime) -> (r: Result<AccountSnapshot, AccountManagerError>)
        ensures
            match r {
                Ok(s) => {
                    &&& exchange == self.of()
                    &&& s.exchange == self.of()
                    &&& s.model == AccountModel::Unified
                    &&& s.partitions@.len() == 0
                    &&& s.as_of_utc == now
                    &&& s.balances@.len() == self.holds().balances.rows().len()
                    &&& forall|i: int|
                        0 <= i < s.balances@.len() ==> #[trigger] s.balances@[i] == (BalanceView {
                            exchange: self.of(),
                            ..self.holds().balances.rows()[i].1
                        })
                },
                Err(e) => exchange != self.of() && requests::is_other_exchange(e, "MockExchange"@, exchange),
            },
    {
        if exchange != self.exchange {
            return Err(other_exchange("MockExchange", exchange));
        }
        let mut balances: Vec<BalanceView> = Vec::new();
        let n: usize = self.state.balances.len();
        for i in 0..n
            invariant
                n == self.state.balances.rows().len(),
                balances@.len() == i,
                forall|j: int|
                    0 <= j < i ==> #[trigger] balances@[j] == (BalanceView {
                        exchange: self.exchange,
                        ..self.state.balances.rows()[j].1
                    }),
        {
            let (_, held) = self.state.balances.row(i);
            let mut balance: BalanceView = held.clone();
            balance.exchange = self.exchange;
            balances.push(balance);
        }
        Ok(
            AccountSnapshot {
                exchange: self.exchange,
                model: AccountModel::Unified,
                partitions: Vec::new(),
                balances,
                as_of_utc: now,
            },
        )
    }

    /// Total and free balance of the currency that a pair is paid in.
    pub open spec fn quote_balance(&self, key: InstrumentKey) -> Option<(Dec, Dec)> {
        let balances = self.holds().balances@;
        if balances.contains_key(Currency::USDT) {
            Some((balances[Currency::USDT].total@, balances[Currency::USDT].free@))
        } else {
            None
        }
    }

    /// Size and entry price of a position; zero where there is none.
    pub open spec fn position_of(&self, key: InstrumentKey) -> (Dec, Dec) {
        let positions = self.holds().positions@;
        if positions.contains_key(key) {
            (positions[key].size@, positions[key].entry_price@)
        } else {
            (Dec::zero(), Dec::zero())
        }
    }

    /// What becomes of an order, given the book.
    pub open spec fn outcome(&self, request: OrderRequest, book: OrderBookSnapshot) -> Paper {
        paper(request, touch(book, request.side), self.quote_balance(request.key), self.position_of(request.key))
    }

    /// Whether an order is the one that was asked for, in a state.
    pub open spec fn is_paper_order(
        order: Order,
        request: OrderRequest,
        client_order_id: Seq<char>,
        exchange_order_id: Seq<char>,
        filled: Option<Dec>,
        now: UtcTime,
    ) -> bool {
        &&& order.internal_id@.len() == 0
        &&& order.strategy_id@ == request.strategy_id@
        &&& order.client_order_id@ == client_order_id
        &&& order.exchange_order_id matches Some(id) && id@ == exchange_order_id
        &&& order.request == request
        &&& order.created_at == now
        &&& order.updated_at == now
        &&& match filled {
            Some(price) => order.status == OrderStatus::Filled && order.filled_size == request.size
                && decimal::view_opt(order.avg_fill_price) == Some(price),
            None => order.status == OrderStatus::New && order.filled_size@ == Dec::zero() && order.avg_fill_price is None,
        }
    }

    /// Whether an account is another one after an order was filled: only the balance of the quote
    /// currency and the position change.
    pub open spec fn filled_from(&self, before: MockExchange, request: OrderRequest, price: Dec) -> bool {
        let notional = request.size@.product(price)->0;
        let was = before.position_of(request.key);
        let now = moved(was.0, was.1, request.side, request.size@, price)->0;
        let positions = before.holds().positions@;
        &&& self.of() == before.of()
        &&& self.holds().open_orders@ == before.holds().open_orders@
        &&& self.position_of(request.key) == now
        &&& self.holds().positions@ == positions.insert(request.key, self.holds().positions@[request.key])
        &&& positions.contains_key(request.key) ==> {
            let p = self.holds().positions@[request.key];
            let q = positions[request.key];
            p.unrealized_pnl == q.unrealized_pnl && p.leverage == q.leverage && p.liquidation_price == q.liquidation_price
                && p.key == q.key
        }
        &&& !positions.contains_key(request.key) ==> {
            let p = self.holds().positions@[request.key];
            p.unrealized_pnl@ == Dec::zero() && p.leverage@ == Dec::one() && p.liquidation_price is None && p.key
                == request.key
        }
        &&& match before.quote_balance(request.key) {
            None => self.holds().balances@ == before.holds().balances@,
            Some((total, free)) => {
                let b = self.holds().balances@[Currency::USDT];
                let a = before.holds().balances@[Currency::USDT];
                &&& self.holds().balances@ == before.holds().balances@.insert(Currency::USDT, b)
                &&& paid(total, free, request.side, notional) == Some((b.total@, b.free@))
                &&& b == (BalanceView { total: b.total, free: b.free, ..a })
            },
        }
    }

    /// Fills an order against a book, or keeps it. `None` where the arithmetic overflows; nothing
    /// changes then, nor where the order is refused.
    pub fn place_order_with(
        &mut self,
        request: OrderRequest,
        client_order_id: String,
        book: &OrderBookSnapshot,
        exchange_order_id: String,
        now: UtcTime,
    ) -> (r: Option<Result<Order, TradingError>>)
        ensures
            match old(self).outcome(request, *book) {
                Paper::Overflow => r is None && *final(self) == *old(self),
                Paper::NoPrice => (r matches Some(Err(TradingError::Other(m))) && m@ == (match request.side {
                    OrderSide::Buy => "no asks in order book"@,
                    OrderSide::Sell => "no bids in order book"@,
                })) && *final(self) == *old(self),
                Paper::TooPoor(needed, there) => (r matches Some(
                    Err(TradingError::InsufficientBalance { required, available }),
                ) && required@ == needed && available@ == there) && *final(self) == *old(self),
                Paper::Rests => {
                    &&& r matches Some(Ok(order)) && MockExchange::is_paper_order(
                        order,
                        request,
                        client_order_id@,
                        exchange_order_id@,
                        None,
                        now,
                    ) && final(self).holds().open_orders@ == old(self).holds().open_orders@.insert(client_order_id@, order)
                    &&& final(self).holds().balances == old(self).holds().balances
                    &&& final(self).holds().positions == old(self).holds().positions
                    &&& final(self).of() == old(self).of()
                },
                Paper::Fills(price) => {
                    &&& r matches Some(Ok(order)) && MockExchange::is_paper_order(
                        order,
                        request,
                        client_order_id@,
                        exchange_order_id@,
                        Some(price),
                        now,
                    )
                    &&& final(self).filled_from(*old(self), request, price)
                },
            },
    {
        let touch = match request.side {
            OrderSide::Buy => book.best_ask,
            OrderSide::Sell => book.best_bid,
        };
        let price = match touch {
            Some(price) => price,
            None => {
                return match request.side {
                    OrderSide::Buy => Some(Err(TradingError::Other("no asks in order book".to_owned()))),
                    OrderSide::Sell => Some(Err(TradingError::Other("no bids in order book".to_owned()))),
                };
            },
        };
        let fills = match request.order_type {
            OrderType::Market => true,
            OrderType::PostOnly => false,
            OrderType::Limit => !request.post_only && match request.side {
                OrderSide::Buy => price.at_most(
                    match request.price {
                        Some(own) => own,
                        None => Decimal::zero(),
                    },
                ),
                OrderSide::Sell => (match request.price {
                    Some(own) => own,
                    None => Decimal::max_value(),
                }).at_most(price),
            },
        };
        if !fills {
            let order = Order {
                internal_id: String::new(),
                strategy_id: request.strategy_id.clone(),
                client_order_id: client_order_id.clone(),
                exchange_order_id: Some(exchange_order_id),
                request,
                status: OrderStatus::New,
                filled_size: Decimal::zero(),
                avg_fill_price: None,
                created_at: now,
                updated_at: now,
            };
            let answer = order.clone();
            self.state.open_orders.insert(client_order_id, order);
            return Some(Ok(answer));
        }
        let notional = match request.size.checked_mul(price) {
            Some(notional) => notional,
            None => return None,
        };
        let quote = request.key.pair.quote();
        let paid_balance = match self.state.balances.get(&quote) {
            Some(balance) => {
                let (total, free) = match request.side {
                    OrderSide::Buy => {
                        if balance.free.less_than(notional) {
                            return Some(
                                Err(
                                    TradingError::InsufficientBalance { required: notional, available: balance.free },
                                ),
                            );
                        }
                        (balance.total.checked_sub(notional), balance.free.checked_sub(notional))
                    },
                    OrderSide::Sell => (balance.total.checked_add(notional), balance.free.checked_add(notional)),
                };
                match (total, free) {
                    (Some(total), Some(free)) => {
                        let mut after: BalanceView = balance.clone();
                        after.total = total;
                        after.free = free;
                        Some(after)
                    },
                    _ => return None,
                }
            },
            None => {
                if request.side == OrderSide::Buy {
                    return Some(
                        Err(TradingError::InsufficientBalance { required: notional, available: Decimal::zero() }),
                    );
                }
                None
            },
        };
        let was = match self.state.positions.get(&request.key) {
            Some(p) => *p,
            None => Position {
                key: request.key,
                size: Decimal::zero(),
                entry_price: Decimal::zero(),
                unrealized_pnl: Decimal::zero(),
                leverage: Decimal::one(),
                liquidation_price: None,
            },
        };
        let (size, entry_price) = match move_position(was.size, was.entry_price, request.side, request.size, price) {
            Some(m) => m,
            None => return None,
        };
        if let Some(after) = paid_balance {
            self.state.balances.insert(quote, after);
        }
        self.state.positions.insert(request.key, Position { size, entry_price, ..was });
        Some(
            Ok(
                Order {
                    internal_id: String::new(),
                    strategy_id: request.strategy_id.clone(),
                    client_order_id,
                    exchange_order_id: Some(exchange_order_id),
                    filled_size: request.size,
                    request,
                    status: OrderStatus::Filled,
                    avg_fill_price: Some(price),
                    created_at: now,
                    updated_at: now,
                },
            ),
        )
    }

    /// Whether an order is the one that was asked for, in a state, under a random identifier and
    /// made at a time of the clock.
    pub open spec fn is_fresh_order(
        order: Order,
        request: OrderRequest,
        client_order_id: Seq<char>,
        filled: Option<Dec>,
    ) -> bool {
        &&& order.exchange_order_id matches Some(id) && ids::is_random_id(id@) && MockExchange::is_paper_order(
            order,
            request,
            client_order_id,
            id@,
            filled,
            order.created_at,
        )
        &&& order.created_at@ >= 0
    }

    /// Fills an order against a book, or keeps it, at the time that the clock shows and under a new
    /// identifier. `None` where the arithmetic overflows.
    pub fn place_order(&mut self, request: OrderRequest, client_order_id: String, book: &OrderBookSnapshot) -> (r: Option<
        Result<Order, TradingError>,
    >)
        ensures
            match old(self).outcome(request, *book) {
                Paper::Overflow => r is None && *final(self) == *old(self),
                Paper::NoPrice => (r matches Some(Err(TradingError::Other(m))) && m@ == (match request.side {
                    OrderSide::Buy => "no asks in order book"@,
                    OrderSide::Sell => "no bids in order book"@,
                })) && *final(self) == *old(self),
                Paper::TooPoor(needed, there) => (r matches Some(
                    Err(TradingError::InsufficientBalance { required, available }),
                ) && required@ == needed && available@ == there) && *final(self) == *old(self),
                Paper::Rests => {
                    &&& r matches Some(Ok(order)) && MockExchange::is_fresh_order(order, request, client_order_id@, None)
                        && final(self).holds().open_orders@ == old(self).holds().open_orders@.insert(
                        client_order_id@,
                        order,
                    )
                    &&& final(self).holds().balances == old(self).holds().balances
                    &&& final(self).holds().positions == old(self).holds().positions
                    &&& final(self).of() == old(self).of()
                },
                Paper::Fills(price) => {
                    &&& r matches Some(Ok(order)) && MockExchange::is_fresh_order(
                        order,
                        request,
                        client_order_id@,
                        Some(price),
                    )
                    &&& final(self).filled_from(*old(self), request, price)
                },
            },
    {
        let id = outside_uuid();
        let now = UtcTime::now();
        self.place_order_with(request, client_order_id, book, id, now)
    }

    /// Whether an error tells that an order is not open here.
    pub open spec fn is_not_open(&self, e: TradingError, client_order_id: Seq<char>) -> bool {
        e matches TradingError::OrderNotFound { exchange, order_id } && exchange@ == self.of().variant() && order_id@
            == client_order_id
    }

    /// Takes an open order back.
    pub fn cancel_order(&mut self, client_order_id: &String, now: UtcTime) -> (r: Result<Order, TradingError>)
        ensures
            ({
                let open = old(self).holds().open_orders@;
                match r {
                    Ok(order) => {
                        &&& open.contains_key(client_order_id@)
                        &&& order == (Order {
                            status: OrderStatus::Canceled,
                            updated_at: now,
                            ..open[client_order_id@]
                        })
                        &&& final(self).holds().open_orders@ == open.remove(client_order_id@)
                        &&& final(self).holds().balances == old(self).holds().balances
                        &&& final(self).holds().positions == old(self).holds().positions
                        &&& final(self).of() == old(self).of()
                    },
                    Err(e) => !open.contains_key(client_order_id@) && old(self).is_not_open(e, client_order_id@)
                        && final(self).holds().open_orders@ == open && final(self).holds().balances == old(
                        self).holds().balances && final(self).holds().positions == old(self).holds().positions
                        && final(self).of() == old(self).of(),
                }
            }),
    {
        match self.state.open_orders.remove(client_order_id) {
            Some(order) => {
                let mut order = order;
                order.mark_at(OrderStatus::Canceled, now);
                Ok(order)
            },
            None => Err(
                TradingError::OrderNotFound {
                    exchange: self.exchange.variant_name().to_owned(),
                    order_id: client_order_id.clone(),
                },
            ),
        }
    }

    /// The open orders of an instrument.
    pub fn get_open_orders(&self, key: InstrumentKey) -> (r: Vec<Order>)
        ensures
            r@ == orders_in(self.holds().open_orders.rows()).filter(|o: Order| o.request.key == key),
    {
        let mut orders: Vec<Order> = Vec::new();
        let n: usize = self.state.open_orders.len();
        let ghost all = orders_in(self.state.open_orders.rows());
        for i in 0..n
            invariant
                n == self.state.open_orders.rows().len(),
                all == orders_in(self.state.open_orders.rows()),
                orders@ == all.take(i as int).filter(|o: Order| o.request.key == key),
        {
            proof {
                reveal(Seq::filter);
                assert(all.take(i + 1).drop_last() =~= all.take(i as int));
            }
            let (_, order) = self.state.open_orders.row(i);
            if order.request.key == key {
                orders.push(order.clone());
            }
        }
        assert(all.take(n as int) =~= all);
        orders
    }

    /// An open order.
    pub fn get_order_status(&self, client_order_id: &String) -> (r: Result<Order, TradingError>)
        ensures
            match r {
                Ok(order) => self.holds().open_orders@.contains_key(client_order_id@) && order
                    == self.holds().open_orders@[client_order_id@],
                Err(e) => !self.holds().open_orders@.contains_key(client_order_id@) && self.is_not_open(
                    e,
                    client_order_id@,
                ),
            },
    {
        match self.state.open_orders.get(client_order_id) {
            Some(order) => Ok(order.clone()),
            None => Err(
                TradingError::OrderNotFound {
                    exchange: self.exchange.variant_name().to_owned(),
                    order_id: client_order_id.clone(),
                },
            ),
        }
    }

    /// All positions.
    pub fn fetch_positions(&self) -> (r: Vec<Position>)
        ensures
            r@ == positions_in(self.holds().positions.rows()),
    {
        let mut positions: Vec<Position> = Vec::new();
        let n: usize = self.state.positions.len();
        for i in 0..n
            invariant
                n == self.state.positions.rows().len(),
                positions@ == positions_in(self.state.positions.rows()).take(i as int),
        {
            let (_, position) = self.state.positions.row(i);
            positions.push(*position);
            assert(positions_in(self.state.positions.rows()).take(i as int).push(*position) =~= positions_in(
                self.state.positions.rows(),
            ).take(i + 1));
        }
        assert(positions_in(self.state.positions.rows()).take(n as int) =~= positions_in(self.state.positions.rows()));
        positions
    }
}

/// The orders of rows.
pub open spec fn orders_in(rows: Seq<(String, Order)>) -> Seq<Order> {
    rows.map_values(|row: (String, Order)| row.1)
}

/// The positions of rows.
pub open spec fn positions_in(rows: Seq<(InstrumentKey, Position)>) -> Seq<Position> {
    rows.map_values(|row: (InstrumentKey, Position)| row.1)
}

fn blend(size: Decimal, entry: Decimal, fill: Decimal, price: Decimal, whole: Decimal) -> (r: Option<Decimal>)
    ensures
        decimal::view_opt(r) == blended(size@, entry@, fill@, price@, whole@),
{
    match (size.checked_mul(entry), fill.checked_mul(price)) {
        (Some(a), Some(b)) => match a.checked_add(b) {
            Some(worth) => worth.checked_div(whole),
            None => None,
        },
        _ => None,
    }
}

fn move_position(size: Decimal, entry: Decimal, side: OrderSide, fill: Decimal, price: Decimal) -> (r: Option<
    (Decimal, Decimal),
>)
    ensures
        match r {
            Some((s, e)) => moved(size@, entry@, side, fill@, price@) == Some((s@, e@)),
            None => moved(size@, entry@, side, fill@, price@) is None,
        },
{
    match side {
        OrderSide::Buy => match size.checked_add(fill) {
            Some(new_size) => if Decimal::zero().less_than(new_size) {
                match blend(size, entry, fill, price, new_size) {
                    Some(e) => Some((new_size, e)),
                    None => None,
                }
            } else {
                Some((new_size, entry))
            },
            None => None,
        },
        OrderSide::Sell => match size.checked_sub(fill) {
            Some(new_size) => if new_size.less_than(Decimal::zero()) {
                match blend(size.abs(), entry, fill, price, new_size.abs()) {
                    Some(e) => Some((new_size, e)),
                    None => None,
                }
            } else {
                Some((new_size, entry))
            },
            None => None,
        },
    }
}

/// The error with which an order is answered whose book could not be fetched.
pub fn no_book(error: &PriceError) -> (r: TradingError)
    ensures
        r matches TradingError::Other(m) && m@ == "failed to fetch order book for mock execution: "@ + error.text(),
{
    TradingError::Other(concat("failed to fetch order book for mock execution: ", error.message().as_str()))
}

/// No purchase spends more than is free: where one is filled, what is needed is there.
pub proof fn purchase_is_covered(request: OrderRequest, price: Option<Dec>, balance: (Dec, Dec), position: (Dec, Dec))
    requires
        request.side == OrderSide::Buy,
        paper(request, price, Some(balance), position) is Fills,
    ensures
        price matches Some(p) && (request.size@.product(p) matches Some(notional) && notional.le(balance.1)),
{
}

/// A market order never stays open.
pub proof fn market_order_never_rests(request: OrderRequest, price: Option<Dec>, balance: Option<(Dec, Dec)>, position: (Dec, Dec))
    requires
        request.order_type == OrderType::Market,
    ensures
        !(paper(request, price, balance, position) is Rests),
{
}

/// An order that must not take what is on offer is never filled at once.
pub proof fn post_only_order_never_fills(
    request: OrderRequest,
    price: Option<Dec>,
    balance: Option<(Dec, Dec)>,
    position: (Dec, Dec),
)
    requires
        request.order_type == OrderType::PostOnly || (request.order_type == OrderType::Limit && request.post_only),
    ensures
        !(paper(request, price, balance, position) is Fills),
{
}

/// A limit order is never filled at a price that is worse than its own.
pub proof fn limit_is_kept(
    request: OrderRequest,
    own: Decimal,
    price: Option<Dec>,
    balance: Option<(Dec, Dec)>,
    position: (Dec, Dec),
)
    requires
        request.order_type == OrderType::Limit,
        request.price == Some(own),
        paper(request, price, balance, position) is Fills,
    ensures
        paper(request, price, balance, position) matches Paper::Fills(p) && (match request.side {
            OrderSide::Buy => p.le(own@),
            OrderSide::Sell => own@.le(p),
        }),
{
}

} // verus!

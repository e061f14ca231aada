use vstd::prelude::*;
use vstd::string::*;

use crate::errors::AccountError;
use crate::kinds::{Currency, Exchange};
use crate::manager::types;
use crate::manager::types::{
    copy_opt_partition, copy_partitions, AccountModel, AccountPartitionRef, AccountSnapshot, BalanceQuery, BalanceView,
    CollateralSummary, MarginMode, MarginStateView, Measure,
};
use crate::table::Table;
use crate::text;
use crate::text::{concat, signed_number};
use crate::time;
use crate::time::UtcTime;

verus! {

/// Why the account manager cannot answer.
#[derive(Debug, PartialEq)]
pub enum AccountManagerError {
    UnsupportedAccountModel { exchange: Exchange, requested: AccountModel },
    PartitionNotFound { exchange: Exchange, partition: String },
    AssetBalanceNotFound { exchange: Exchange, asset: Currency, partition: String },
    SnapshotStale { exchange: Exchange, last_update_utc: UtcTime, max_age_secs: i64 },
    InvalidQuery { reason: String },
    Other { reason: String },
    ActorMailboxClosed,
    ActorResponseDropped,
    SourceError(AccountError),
}

impl AccountModel {
    /// The model as error messages give it.
    pub open spec fn text(self) -> Seq<char> {
        match self {
            AccountModel::Unified => "Unified"@,
            AccountModel::Segmented => "Segmented"@,
        }
    }

    pub fn to_string(&self) -> (r: String)
        ensures
            r@ == self.text(),
    {
        match self {
            AccountModel::Unified => "Unified".to_owned(),
            AccountModel::Segmented => "Segmented".to_owned(),
        }
    }
}

impl AccountManagerError {
    /// The error in words.
    pub open spec fn text(self) -> Seq<char> {
        match self {
            AccountManagerError::UnsupportedAccountModel { exchange, requested } => "unsupported account model "@
                + requested.text() + " for exchange "@ + exchange.variant(),
            AccountManagerError::PartitionNotFound { exchange, partition } => "partition not found on "@
                + exchange.variant() + ": "@ + partition@,
            AccountManagerError::AssetBalanceNotFound { exchange, asset, partition } => "asset balance not found on "@
                + exchange.variant() + " for "@ + asset.text() + " ("@ + partition@ + ")"@,
            AccountManagerError::SnapshotStale { exchange, last_update_utc, max_age_secs } => "snapshot for "@
                + exchange.variant() + " is stale: updated at "@ + time::time_text(last_update_utc@) + ", max age "@
                + text::signed_digits(max_age_secs as int) + "s"@,
            AccountManagerError::InvalidQuery { reason } => "invalid account query: "@ + reason@,
            AccountManagerError::Other { reason } => "account manager error: "@ + reason@,
            AccountManagerError::ActorMailboxClosed => "account manager actor mailbox is closed"@,
            AccountManagerError::ActorResponseDropped => "account manager actor response channel dropped"@,
            AccountManagerError::SourceError(e) => "account source error: "@ + e.text(),
        }
    }

    pub fn message(&self) -> (r: String)
        ensures
            r@ == self.text(),
    {
        match self {
            AccountManagerError::UnsupportedAccountModel { exchange, requested } => {
                let mut out: String = "unsupported account model ".to_owned();
                out.append(requested.to_string().as_str());
                out.append(" for exchange ");
                out.append(exchange.variant_name());
                out
            },
            AccountManagerError::PartitionNotFound { exchange, partition } => {
                let mut out: String = "partition not found on ".to_owned();
                out.append(exchange.variant_name());
                out.append(": ");
                out.append(partition.as_str());
                out
            },
            AccountManagerError::AssetBalanceNotFound { exchange, asset, partition } => {
                let mut out: String = "asset balance not found on ".to_owned();
                out.append(exchange.variant_name());
                out.append(" for ");
                out.append(asset.to_string().as_str());
                out.append(" (");
                out.append(partition.as_str());
                out.append(")");
                out
            },
            AccountManagerError::SnapshotStale { exchange, last_update_utc, max_age_secs } => {
                let mut out: String = "snapshot for ".to_owned();
                out.append(exchange.variant_name());
                out.append(" is stale: updated at ");
                out.append(last_update_utc.to_string().as_str());
                out.append(", max age ");
                out.append(signed_number(*max_age_secs).as_str());
                out.append("s");
                out
            },
            AccountManagerError::InvalidQuery { reason } => concat("invalid account query: ", reason.as_str()),
            AccountManagerError::Other { reason } => concat("account manager error: ", reason.as_str()),
            AccountManagerError::ActorMailboxClosed => "account manager actor mailbox is closed".to_owned(),
            AccountManagerError::ActorResponseDropped => "account manager actor response channel dropped".to_owned(),
            AccountManagerError::SourceError(e) => concat("account source error: ", e.message().as_str()),
        }
    }
}

/// Settings of an account manager.
#[derive(Clone, Copy, Debug)]
pub struct AccountManagerConfig {
    pub mailbox_capacity: usize,
    /// Seconds after which a snapshot is fetched anew; it is still given out meanwhile.
    pub snapshot_max_age: i64,
}

impl Default for AccountManagerConfig {
    fn default() -> (r: AccountManagerConfig)
        ensures
            r == (AccountManagerConfig { mailbox_capacity: 64, snapshot_max_age: 30 }),
    {
        AccountManagerConfig { mailbox_capacity: 64, snapshot_max_age: 30 }
    }
}

#[derive(Clone, Copy, Debug, PartialEq, Eq, Structural)]
pub enum AccountEventKind {
    SnapshotUpdated,
    SnapshotReconciled,
}

/// That a snapshot has come in.
#[derive(Clone, Copy, Debug, PartialEq)]
pub struct AccountEvent {
    pub exchange: Exchange,
    pub kind: AccountEventKind,
    pub as_of_utc: UtcTime,
}

/// What can be asked of the account manager.
#[derive(Debug)]
pub enum AccountQuery {
    AccountModel { exchange: Exchange },
    ListPartitions { exchange: Exchange },
    GetBalances { query: BalanceQuery },
    GetEffectiveCollateral { exchange: Exchange, quote_asset: Currency, partition: Option<AccountPartitionRef> },
    GetMarginState { exchange: Exchange, partition: Option<AccountPartitionRef> },
    ReconcileSnapshot { exchange: Exchange },
    GetSnapshot { exchange: Exchange },
}

impl AccountQuery {
    /// The exchange whose account is asked about.
    pub open spec fn on(self) -> Exchange {
        match self {
            AccountQuery::AccountModel { exchange } => exchange,
            AccountQuery::ListPartitions { exchange } => exchange,
            AccountQuery::GetBalances { query } => query.exchange,
            AccountQuery::GetEffectiveCollateral { exchange, .. } => exchange,
            AccountQuery::GetMarginState { exchange, .. } => exchange,
            AccountQuery::ReconcileSnapshot { exchange } => exchange,
            AccountQuery::GetSnapshot { exchange } => exchange,
        }
    }

    pub fn exchange(&self) -> (r: Exchange)
        ensures
            r == self.on(),
    {
        match self {
            AccountQuery::AccountModel { exchange } => *exchange,
            AccountQuery::ListPartitions { exchange } => *exchange,
            AccountQuery::GetBalances { query } => query.exchange,
            AccountQuery::GetEffectiveCollateral { exchange, .. } => *exchange,
            AccountQuery::GetMarginState { exchange, .. } => *exchange,
            AccountQuery::ReconcileSnapshot { exchange } => *exchange,
            AccountQuery::GetSnapshot { exchange } => *exchange,
        }
    }

    pub fn is_reconcile(&self) -> (r: bool)
        ensures
            r == (*self is ReconcileSnapshot),
    {
        match self {
            AccountQuery::ReconcileSnapshot { .. } => true,
            _ => false,
        }
    }
}

/// A question and the number under which its answer is awaited.
#[derive(Debug)]
pub struct Ticket {
    pub id: u64,
    pub query: AccountQuery,
}

/// An answer to a question.
#[derive(Debug)]
pub enum AccountAnswer {
    Model(AccountModel),
    Partitions(Vec<AccountPartitionRef>),
    Balances(Vec<BalanceView>),
    Collateral(CollateralSummary),
    Margin(MarginStateView),
    Snapshot(AccountSnapshot),
    /// A sum of balances overflows.
    Overflow,
}

/// An answer, or why there is none.
pub type AccountReply = Result<AccountAnswer, AccountManagerError>;

/// A part that is asked for but that the account does not have.
pub open spec fn unknown_part(snapshot: AccountSnapshot, partition: Option<AccountPartitionRef>) -> bool {
    partition is Some && !snapshot.has_part(partition->0)
}

/// The answer that says that a part is not known.
pub open spec fn says_unknown_part(r: AccountReply, exchange: Exchange, partition: Option<AccountPartitionRef>) -> bool {
    match r {
        Err(AccountManagerError::PartitionNotFound { exchange: e, partition: p }) => {
            e == exchange && p@ == partition->0.text()
        },
        _ => false,
    }
}

/// Whether an answer is a collateral summary of a snapshot.
pub open spec fn summarizes(
    c: CollateralSummary,
    snapshot: AccountSnapshot,
    exchange: Exchange,
    quote_asset: Currency,
    partition: Option<AccountPartitionRef>,
) -> bool {
    &&& c.exchange == exchange
    &&& c.model == snapshot.model
    &&& c.quote_asset == quote_asset
    &&& c.partition == partition
    &&& Some(c.effective_collateral@) == snapshot.figure(quote_asset, partition, Measure::Equity)
    &&& Some(c.total_balance@) == snapshot.figure(quote_asset, partition, Measure::Total)
    &&& Some(c.total_borrowed@) == snapshot.figure(quote_asset, partition, Measure::Borrowed)
    &&& Some(c.total_unrealized_pnl@) == snapshot.figure(quote_asset, partition, Measure::Unrealized)
    &&& c.as_of_utc == snapshot.as_of_utc
}

/// Whether a reply answers a question on a snapshot that is at hand.
pub open spec fn answers(snapshot: AccountSnapshot, query: AccountQuery, r: AccountReply) -> bool {
    match query {
        AccountQuery::AccountModel { exchange } => r matches Ok(AccountAnswer::Model(m)) && m == snapshot.model,
        AccountQuery::ListPartitions { exchange } => {
            r matches Ok(AccountAnswer::Partitions(ps)) && ps@ == snapshot.partitions@
        },
        AccountQuery::GetBalances { query } => {
            r matches Ok(AccountAnswer::Balances(bs)) && bs@ == snapshot.balances@.filter(
                |b: BalanceView| query.wants(b),
            )
        },
        AccountQuery::GetEffectiveCollateral { exchange, quote_asset, partition } => {
            if unknown_part(snapshot, partition) {
                says_unknown_part(r, exchange, partition)
            } else if snapshot.figure(quote_asset, partition, Measure::Equity) is Some && snapshot.figure(
                quote_asset,
                partition,
                Measure::Total,
            ) is Some && snapshot.figure(quote_asset, partition, Measure::Borrowed) is Some && snapshot.figure(
                quote_asset,
                partition,
                Measure::Unrealized,
            ) is Some {
                r matches Ok(AccountAnswer::Collateral(c)) && summarizes(c, snapshot, exchange, quote_asset, partition)
            } else {
                r == Ok::<AccountAnswer, AccountManagerError>(AccountAnswer::Overflow)
            }
        },
        AccountQuery::GetMarginState { exchange, partition } => {
            if unknown_part(snapshot, partition) {
                says_unknown_part(r, exchange, partition)
            } else {
                r == Ok::<AccountAnswer, AccountManagerError>(
                    AccountAnswer::Margin(
                        MarginStateView {
                            exchange,
                            partition,
                            mode: if snapshot.model == AccountModel::Unified {
                                MarginMode::Portfolio
                            } else {
                                MarginMode::Cross
                            },
                            margin_ratio: None,
                            initial_margin_ratio: None,
                            maintenance_margin_ratio: None,
                            as_of_utc: snapshot.as_of_utc,
                        },
                    ),
                )
            }
        },
        AccountQuery::ReconcileSnapshot { exchange } => {
            r matches Ok(AccountAnswer::Snapshot(s)) && s.same_snapshot(snapshot)
        },
        AccountQuery::GetSnapshot { exchange } => r matches Ok(AccountAnswer::Snapshot(s)) && s.same_snapshot(snapshot),
    }
}

/// Answers a question on a snapshot.
pub fn answer(snapshot: &AccountSnapshot, query: &AccountQuery) -> (r: AccountReply)
    ensures
        answers(*snapshot, *query, r),
{
    match query {
        AccountQuery::AccountModel { .. } => Ok(AccountAnswer::Model(snapshot.model)),
        AccountQuery::ListPartitions { .. } => Ok(AccountAnswer::Partitions(copy_partitions(&snapshot.partitions))),
        AccountQuery::GetBalances { query } => Ok(AccountAnswer::Balances(get_balances(snapshot, query))),
        AccountQuery::GetEffectiveCollateral { exchange, quote_asset, partition } => get_effective_collateral(
            snapshot,
            *exchange,
            *quote_asset,
            partition,
        ),
        AccountQuery::GetMarginState { exchange, partition } => get_margin_state(snapshot, *exchange, partition),
        AccountQuery::ReconcileSnapshot { .. } => Ok(AccountAnswer::Snapshot(snapshot.clone())),
        AccountQuery::GetSnapshot { .. } => Ok(AccountAnswer::Snapshot(snapshot.clone())),
    }
}

/// The balances of a snapshot that are asked for, in order.
pub fn get_balances(snapshot: &AccountSnapshot, query: &BalanceQuery) -> (r: Vec<BalanceView>)
    ensures
        r@ == snapshot.balances@.filter(|b: BalanceView| query.wants(b)),
{
    let mut out: Vec<BalanceView> = Vec::new();
    let ghost wanted = |b: BalanceView| query.wants(b);
    for i in 0..snapshot.balances.len()
        invariant
            wanted == (|b: BalanceView| query.wants(b)),
            out@ == snapshot.balances@.take(i as int).filter(wanted),
    {
        proof {
            reveal(Seq::filter);
            assert(snapshot.balances@.take(i + 1).drop_last() =~= snapshot.balances@.take(i as int));
        }
        if query.matches(&snapshot.balances[i]) {
            out.push(snapshot.balances[i].clone());
        }
    }
    assert(snapshot.balances@.take(snapshot.balances@.len() as int) =~= snapshot.balances@);
    out
}

/// The collateral of an account or of one of its parts.
pub fn get_effective_collateral(
    snapshot: &AccountSnapshot,
    exchange: Exchange,
    quote_asset: Currency,
    partition: &Option<AccountPartitionRef>,
) -> (r: AccountReply)
    ensures
        answers(
            *snapshot,
            AccountQuery::GetEffectiveCollateral { exchange, quote_asset, partition: *partition },
            r,
        ),
{
    if let Some(p) = partition {
        if !snapshot.has_partition(p) {
            return Err(AccountManagerError::PartitionNotFound { exchange, partition: p.to_string() });
        }
    }
    let part: Option<&AccountPartitionRef> = match partition {
        Some(p) => Some(p),
        None => None,
    };
    match (
        snapshot.checked_effective_collateral(quote_asset, part),
        snapshot.checked_totals(quote_asset, part),
    ) {
        (Some(effective_collateral), Some((total_balance, total_borrowed, total_unrealized_pnl))) => Ok(
            AccountAnswer::Collateral(
                CollateralSummary {
                    exchange,
                    model: snapshot.model,
                    quote_asset,
                    partition: copy_opt_partition(partition),
                    effective_collateral,
                    total_balance,
                    total_borrowed,
                    total_unrealized_pnl,
                    as_of_utc: snapshot.as_of_utc,
                },
            ),
        ),
        _ => Ok(AccountAnswer::Overflow),
    }
}

/// How an account or one of its parts is margined.
pub fn get_margin_state(
    snapshot: &AccountSnapshot,
    exchange: Exchange,
    partition: &Option<AccountPartitionRef>,
) -> (r: AccountReply)
    ensures
        answers(*snapshot, AccountQuery::GetMarginState { exchange, partition: *partition }, r),
{
    if let Some(p) = partition {
        if !snapshot.has_partition(p) {
            return Err(AccountManagerError::PartitionNotFound { exchange, partition: p.to_string() });
        }
    }
    let mode = match snapshot.model {
        AccountModel::Unified => MarginMode::Portfolio,
        AccountModel::Segmented => MarginMode::Cross,
    };
    Ok(
        AccountAnswer::Margin(
            MarginStateView {
                exchange,
                partition: copy_opt_partition(partition),
                mode,
                margin_ratio: None,
                initial_margin_ratio: None,
                maintenance_margin_ratio: None,
                as_of_utc: snapshot.as_of_utc,
            },
        ),
    )
}

/// What is to be done after a command or a fetch.
#[derive(Debug)]
pub struct AccountStep {
    /// The exchange whose snapshot is to be fetched.
    pub fetch: Option<Exchange>,
    /// The answers to give, each under the number of its question.
    pub replies: Vec<(u64, AccountReply)>,
    /// The events to tell, in order.
    pub events: Vec<AccountEvent>,
}

/// Whether some question asks for a fresh snapshot.
pub open spec fn any_reconcile(tickets: Seq<Ticket>) -> bool {
    exists|i: int| 0 <= i < tickets.len() && (#[trigger] tickets[i]).query is ReconcileSnapshot
}

/// One event for each question that asked for a fresh snapshot.
pub open spec fn reconcile_events(tickets: Seq<Ticket>, exchange: Exchange, as_of_utc: UtcTime) -> Seq<AccountEvent>
    decreases tickets.len(),
{
    if tickets.len() == 0 {
        Seq::empty()
    } else {
        let front = reconcile_events(tickets.drop_last(), exchange, as_of_utc);
        if tickets.last().query is ReconcileSnapshot {
            front.push(AccountEvent { exchange, kind: AccountEventKind::SnapshotReconciled, as_of_utc })
        } else {
            front
        }
    }
}

/// The events after a snapshot came in: that it was updated, unless someone asked for a fresh one,
/// who is told that it was reconciled.
pub open spec fn fetch_events(tickets: Seq<Ticket>, exchange: Exchange, as_of_utc: UtcTime) -> Seq<AccountEvent> {
    if any_reconcile(tickets) {
        reconcile_events(tickets, exchange, as_of_utc)
    } else {
        seq![AccountEvent { exchange, kind: AccountEventKind::SnapshotUpdated, as_of_utc }]
    }
}

/// Every question has its answer, in order.
pub open spec fn all_answered(tickets: Seq<Ticket>, snapshot: AccountSnapshot, replies: Seq<(u64, AccountReply)>) -> bool {
    &&& replies.len() == tickets.len()
    &&& forall|i: int|
        #![trigger replies[i]]
        0 <= i < replies.len() ==> replies[i].0 == tickets[i].id && answers(snapshot, tickets[i].query, replies[i].1)
}

/// Every question has the same refusal, in order.
pub open spec fn all_refused(tickets: Seq<Ticket>, reason: Seq<char>, replies: Seq<(u64, AccountReply)>) -> bool {
    &&& replies.len() == tickets.len()
    &&& forall|i: int|
        #![trigger replies[i]]
        0 <= i < replies.len() ==> replies[i].0 == tickets[i].id && (replies[i].1 matches Err(
            AccountManagerError::Other { reason: said },
        ) && said@ == reason)
}

/// The questions that wait for an exchange's snapshot.
pub open spec fn waiting(pending: Map<Exchange, Vec<Ticket>>, exchange: Exchange) -> Seq<Ticket> {
    if pending.contains_key(exchange) {
        pending[exchange]@
    } else {
        Seq::empty()
    }
}

/// Snapshots of accounts, the questions that wait for one, and the fetches under way.
#[derive(Debug)]
pub struct AccountState {
    snapshots: Table<Exchange, AccountSnapshot>,
    pending: Table<Exchange, Vec<Ticket>>,
    fetching: Table<Exchange, ()>,
    max_age_secs: i64,
}

impl AccountState {
    pub closed spec fn snapshots(&self) -> Map<Exchange, AccountSnapshot> {
        self.snapshots@
    }

    pub closed spec fn pending(&self) -> Map<Exchange, Vec<Ticket>> {
        self.pending@
    }

    pub closed spec fn fetching(&self) -> Set<Exchange> {
        self.fetching@.dom()
    }

    pub closed spec fn max_age(&self) -> int {
        self.max_age_secs as int
    }

    /// Whoever waits for an exchange's snapshot asked about that exchange, and a fetch of it is
    /// under way.
    #[verifier::type_invariant]
    pub open spec fn inv(self) -> bool {
        forall|e: Exchange|
            #![trigger waiting(self.pending(), e)]
            waiting(self.pending(), e).len() > 0 ==> self.fetching().contains(e) && forall|i: int|
                #![trigger waiting(self.pending(), e)[i]]
                0 <= i < waiting(self.pending(), e).len() ==> waiting(self.pending(), e)[i].query.on() == e
    }

    /// Whether a snapshot is so old at a time that it is to be fetched anew.
    pub open spec fn stale(&self, exchange: Exchange, now: UtcTime) -> bool {
        self.snapshots().contains_key(exchange) && now@ - self.snapshots()[exchange].as_of_utc@ > self.max_age()
            * 1_000_000_000
    }

    /// No snapshots and nobody waiting.
    pub fn new(config: &AccountManagerConfig) -> (r: AccountState)
        ensures
            r.snapshots() == Map::<Exchange, AccountSnapshot>::empty(),
            r.pending() == Map::<Exchange, Vec<Ticket>>::empty(),
            r.fetching() == Set::<Exchange>::empty(),
            r.max_age() == config.snapshot_max_age,
    {
        let r = AccountState {
            snapshots: Table::new(),
            pending: Table::new(),
            fetching: Table::new(),
            max_age_secs: config.snapshot_max_age,
        };
        assert(r.fetching() =~= Set::<Exchange>::empty());
        r
    }

    pub fn is_stale_at(&self, exchange: Exchange, now: UtcTime) -> (r: bool)
        ensures
            r == self.stale(exchange, now),
    {
        match self.snapshots.get(&exchange) {
            Some(snapshot) => now.nanos_since(&snapshot.as_of_utc) > self.max_age_secs as i128 * 1_000_000_000,
            None => false,
        }
    }

    /// Notes that a fetch is under way, and says whether it is a new one.
    fn start_fetch(&mut self, exchange: Exchange) -> (r: Option<Exchange>)
        ensures
            r == (if old(self).fetching().contains(exchange) { None } else { Some(exchange) }),
            final(self).fetching() == old(self).fetching().insert(exchange),
            final(self).snapshots() == old(self).snapshots(),
            final(self).pending() == old(self).pending(),
            final(self).max_age() == old(self).max_age(),
    {
        proof {
            use_type_invariant(&*self);
        }
        if self.fetching.contains(&exchange) {
            assert(self.fetching() =~= old(self).fetching().insert(exchange));
            return None;
        }
        let mut pending: Table<Exchange, Vec<Ticket>> = Table::new();
        std::mem::swap(&mut pending, &mut self.pending);
        let mut fetching: Table<Exchange, ()> = Table::new();
        std::mem::swap(&mut fetching, &mut self.fetching);
        fetching.insert(exchange, ());
        assert(fetching@.dom() =~= old(self).fetching().insert(exchange));
        self.fetching = fetching;
        proof {
            assert forall|e: Exchange|
                #![trigger waiting(pending@, e)]
                waiting(pending@, e).len() > 0 implies self.fetching().contains(e) && forall|i: int|
                #![trigger waiting(pending@, e)[i]]
                0 <= i < waiting(pending@, e).len() ==> waiting(pending@, e)[i].query.on() == e by {
                assert(waiting(pending@, e) == waiting(old(self).pending(), e));
                assert(old(self).fetching().contains(e));
            }
        }
        self.pending = pending;
        Some(exchange)
    }

    /// Lets a question wait for its exchange's snapshot.
    fn enqueue(&mut self, ticket: Ticket)
        requires
            old(self).fetching().contains(ticket.query.on()),
        ensures
            waiting(final(self).pending(), ticket.query.on()) == waiting(
                old(self).pending(),
                ticket.query.on(),
            ).push(ticket),
            forall|e: Exchange|
                e != ticket.query.on() ==> waiting(final(self).pending(), e) == waiting(old(self).pending(), e),
            final(self).snapshots() == old(self).snapshots(),
            final(self).fetching() == old(self).fetching(),
            final(self).max_age() == old(self).max_age(),
    {
        proof {
            use_type_invariant(&*self);
        }
        let exchange = ticket.query.exchange();
        let mut pending: Table<Exchange, Vec<Ticket>> = Table::new();
        std::mem::swap(&mut pending, &mut self.pending);
        let mut queue = match pending.remove(&exchange) {
            Some(queue) => queue,
            None => Vec::new(),
        };
        let ghost before = queue@;
        assert(before =~= waiting(old(self).pending(), exchange));
        queue.push(ticket);
        pending.insert(exchange, queue);
        proof {
            assert forall|e: Exchange|
                #![trigger waiting(pending@, e)]
                waiting(pending@, e).len() > 0 implies self.fetching().contains(e) && forall|i: int|
                #![trigger waiting(pending@, e)[i]]
                0 <= i < waiting(pending@, e).len() ==> waiting(pending@, e)[i].query.on() == e by {
                assert(waiting(old(self).pending(), e).len() > 0 ==> old(self).fetching().contains(e));
                if e == exchange {
                    assert forall|i: int|
                        #![trigger waiting(pending@, e)[i]]
                        0 <= i < waiting(pending@, e).len() implies waiting(pending@, e)[i].query.on() == e by {
                        if i < before.len() {
                            assert(waiting(old(self).pending(), e)[i].query.on() == e);
                        }
                    }
                } else {
                    assert(waiting(pending@, e) == waiting(old(self).pending(), e));
                }
            }
        }
        self.pending = pending;
    }

    /// Takes in a question at a time. One that asks for a fresh snapshot, or that finds none, waits
    /// for a fetch, which is started unless one is under way. Any other is answered at once, from
    /// a stale snapshot too, which is then fetched anew in the background.
    pub fn handle_command_at(&mut self, ticket: Ticket, now: UtcTime) -> (r: AccountStep)
        ensures
            ({
                let e = ticket.query.on();
                let waits = ticket.query is ReconcileSnapshot || !old(self).snapshots().contains_key(e);
                let refresh = waits || old(self).stale(e, now);
                &&& r.fetch == (if refresh && !old(self).fetching().contains(e) { Some(e) } else { None })
                &&& final(self).fetching() == (if refresh { old(self).fetching().insert(e) } else {
                    old(self).fetching()
                })
                &&& final(self).snapshots() == old(self).snapshots()
                &&& final(self).max_age() == old(self).max_age()
                &&& r.events@ == Seq::<AccountEvent>::empty()
                &&& forall|other: Exchange|
                    other != e ==> waiting(final(self).pending(), other) == waiting(old(self).pending(), other)
                &&& waits ==> {
                    &&& r.replies@.len() == 0
                    &&& waiting(final(self).pending(), e) == waiting(old(self).pending(), e).push(ticket)
                }
                &&& !waits ==> {
                    &&& r.replies@.len() == 1
                    &&& r.replies@[0].0 == ticket.id
                    &&& answers(old(self).snapshots()[e], ticket.query, r.replies@[0].1)
                    &&& waiting(final(self).pending(), e) == waiting(old(self).pending(), e)
                }
            }),
    {
        let exchange = ticket.query.exchange();
        if ticket.query.is_reconcile() || !self.snapshots.contains(&exchange) {
            let fetch = self.start_fetch(exchange);
            self.enqueue(ticket);
            return AccountStep { fetch, replies: Vec::new(), events: Vec::new() };
        }
        let fetch = if self.is_stale_at(exchange, now) {
            self.start_fetch(exchange)
        } else {
            None
        };
        let mut replies: Vec<(u64, AccountReply)> = Vec::new();
        if let Some(snapshot) = self.snapshots.get(&exchange) {
            replies.push((ticket.id, answer(snapshot, &ticket.query)));
        }
        AccountStep { fetch, replies, events: Vec::new() }
    }

    /// Takes in a question at the time that the clock shows: what `handle_command_at` does for some
    /// time. Whether a snapshot that is at hand is stale depends on the clock, and with it whether
    /// a fetch is started.
    pub fn handle_command(&mut self, ticket: Ticket) -> (r: AccountStep)
        ensures
            ({
                let e = ticket.query.on();
                let waits = ticket.query is ReconcileSnapshot || !old(self).snapshots().contains_key(e);
                &&& r.fetch matches Some(f) ==> f == e && !old(self).fetching().contains(e)
                &&& waits ==> r.fetch == (if old(self).fetching().contains(e) { None } else { Some(e) })
                &&& final(self).fetching() == (if waits || r.fetch is Some {
                    old(self).fetching().insert(e)
                } else {
                    old(self).fetching()
                })
                &&& final(self).snapshots() == old(self).snapshots()
                &&& final(self).max_age() == old(self).max_age()
                &&& forall|other: Exchange|
                    other != e ==> waiting(final(self).pending(), other) == waiting(old(self).pending(), other)
                &&& r.events@ == Seq::<AccountEvent>::empty()
                &&& waits ==> {
                    &&& r.replies@.len() == 0
                    &&& waiting(final(self).pending(), e) == waiting(old(self).pending(), e).push(ticket)
                }
                &&& !waits ==> {
                    &&& r.replies@.len() == 1
                    &&& r.replies@[0].0 == ticket.id
                    &&& answers(old(self).snapshots()[e], ticket.query, r.replies@[0].1)
                    &&& waiting(final(self).pending(), e) == waiting(old(self).pending(), e)
                }
            }),
    {
        self.handle_command_at(ticket, UtcTime::now())
    }

    /// Ends a fetch: nobody waits for the exchange any more, and the questions that waited are
    /// handed over.
    fn finish_fetch(&mut self, exchange: Exchange) -> (r: Vec<Ticket>)
        ensures
            r@ == waiting(old(self).pending(), exchange),
            forall|i: int| #![trigger r@[i]] 0 <= i < r@.len() ==> r@[i].query.on() == exchange,
            waiting(final(self).pending(), exchange).len() == 0,
            forall|e: Exchange|
                e != exchange ==> waiting(final(self).pending(), e) == waiting(old(self).pending(), e),
            final(self).fetching() == old(self).fetching().remove(exchange),
            final(self).snapshots() == old(self).snapshots(),
            final(self).max_age() == old(self).max_age(),
    {
        proof {
            use_type_invariant(&*self);
        }
        let mut pending: Table<Exchange, Vec<Ticket>> = Table::new();
        std::mem::swap(&mut pending, &mut self.pending);
        let queue = match pending.remove(&exchange) {
            Some(queue) => queue,
            None => Vec::new(),
        };
        assert(queue@ =~= waiting(old(self).pending(), exchange));
        let mut fetching: Table<Exchange, ()> = Table::new();
        std::mem::swap(&mut fetching, &mut self.fetching);
        let done = fetching.remove(&exchange);
        assert(fetching@.dom() =~= old(self).fetching().remove(exchange));
        self.fetching = fetching;
        proof {
            assert forall|e: Exchange|
                #![trigger waiting(pending@, e)]
                waiting(pending@, e).len() > 0 implies self.fetching().contains(e) && forall|i: int|
                #![trigger waiting(pending@, e)[i]]
                0 <= i < waiting(pending@, e).len() ==> waiting(pending@, e)[i].query.on() == e by {
                assert(waiting(pending@, e) == waiting(old(self).pending(), e));
                assert(old(self).fetching().contains(e));
            }
            assert forall|i: int| #![trigger queue@[i]] 0 <= i < queue@.len() implies queue@[i].query.on() == exchange by {
                assert(waiting(old(self).pending(), exchange)[i].query.on() == exchange);
            }
        }
        self.pending = pending;
        queue
    }

    fn store(&mut self, exchange: Exchange, snapshot: AccountSnapshot)
        ensures
            final(self).snapshots() == old(self).snapshots().insert(exchange, snapshot),
            final(self).pending() == old(self).pending(),
            final(self).fetching() == old(self).fetching(),
            final(self).max_age() == old(self).max_age(),
    {
        proof {
            use_type_invariant(&*self);
        }
        let mut snapshots: Table<Exchange, AccountSnapshot> = Table::new();
        std::mem::swap(&mut snapshots, &mut self.snapshots);
        snapshots.insert(exchange, snapshot);
        self.snapshots = snapshots;
    }

    /// Takes in the result of a fetch: everyone who waited for it is answered, from the new
    /// snapshot or with the reason why there is none, and nobody waits any more.
    pub fn handle_fetch_result(
        &mut self,
        exchange: Exchange,
        result: Result<AccountSnapshot, AccountManagerError>,
    ) -> (r: AccountStep)
        ensures
            r.fetch is None,
            final(self).fetching() == old(self).fetching().remove(exchange),
            waiting(final(self).pending(), exchange).len() == 0,
            forall|e: Exchange|
                e != exchange ==> waiting(final(self).pending(), e) == waiting(old(self).pending(), e),
            final(self).max_age() == old(self).max_age(),
            match result {
                Ok(snapshot) => {
                    &&& final(self).snapshots() == old(self).snapshots().insert(exchange, snapshot)
                    &&& r.events@ == fetch_events(
                        waiting(old(self).pending(), exchange),
                        exchange,
                        snapshot.as_of_utc,
                    )
                    &&& all_answered(waiting(old(self).pending(), exchange), snapshot, r.replies@)
                },
                Err(e) => {
                    &&& final(self).snapshots() == old(self).snapshots()
                    &&& r.events@ == Seq::<AccountEvent>::empty()
                    &&& all_refused(waiting(old(self).pending(), exchange), e.text(), r.replies@)
                },
            },
    {
        let tickets = self.finish_fetch(exchange);
        let mut replies: Vec<(u64, AccountReply)> = Vec::new();
        let mut events: Vec<AccountEvent> = Vec::new();
        match result {
            Ok(snapshot) => {
                let as_of_utc = snapshot.as_of_utc;
                let mut reconciles: bool = false;
                for i in 0..tickets.len()
                    invariant
                        replies@.len() == i,
                        forall|j: int|
                            #![trigger replies@[j]]
                            0 <= j < i ==> replies@[j].0 == tickets@[j].id && answers(
                                snapshot,
                                tickets@[j].query,
                                replies@[j].1,
                            ),
                        events@ == reconcile_events(tickets@.take(i as int), exchange, as_of_utc),
                        reconciles == any_reconcile(tickets@.take(i as int)),
                {
                    let ticket = &tickets[i];
                    assert(tickets@.take(i + 1).drop_last() =~= tickets@.take(i as int));
                    replies.push((ticket.id, answer(&snapshot, &ticket.query)));
                    let is_reconcile = ticket.query.is_reconcile();
                    if is_reconcile {
                        events.push(
                            AccountEvent { exchange, kind: AccountEventKind::SnapshotReconciled, as_of_utc },
                        );
                    }
                    proof {
                        let now = tickets@.take(i + 1);
                        let before = tickets@.take(i as int);
                        if is_reconcile {
                            assert(now[i as int].query is ReconcileSnapshot);
                        }
                        if any_reconcile(before) {
                            let k = choose|k: int|
                                0 <= k < before.len() && (#[trigger] before[k]).query is ReconcileSnapshot;
                            assert(now[k].query is ReconcileSnapshot);
                        }
                        if any_reconcile(now) && !is_reconcile {
                            let k = choose|k: int|
                                0 <= k < now.len() && (#[trigger] now[k]).query is ReconcileSnapshot;
                            assert(before[k].query is ReconcileSnapshot);
                        }
                    }
                    reconciles = reconciles || is_reconcile;
                }
                assert(tickets@.take(tickets@.len() as int) =~= tickets@);
                if !reconciles {
                    proof {
                        no_reconcile_no_events(tickets@, exchange, as_of_utc);
                    }
                    events.push(AccountEvent { exchange, kind: AccountEventKind::SnapshotUpdated, as_of_utc });
                    assert(events@ =~= fetch_events(tickets@, exchange, as_of_utc));
                }
                self.store(exchange, snapshot);
            },
            Err(e) => {
                let reason = e.message();
                for i in 0..tickets.len()
                    invariant
                        replies@.len() == i,
                        reason@ == e.text(),
                        forall|j: int|
                            #![trigger replies@[j]]
                            0 <= j < i ==> replies@[j].0 == tickets@[j].id && (replies@[j].1 matches Err(
                                AccountManagerError::Other { reason: said },
                            ) && said@ == e.text()),
                {
                    replies.push((tickets[i].id, Err(AccountManagerError::Other { reason: reason.clone() })));
                }
            },
        }
        AccountStep { fetch: None, replies, events }
    }
}

proof fn no_reconcile_no_events(tickets: Seq<Ticket>, exchange: Exchange, as_of_utc: UtcTime)
    requires
        !any_reconcile(tickets),
    ensures
        reconcile_events(tickets, exchange, as_of_utc) == Seq::<AccountEvent>::empty(),
    decreases tickets.len(),
{
    if tickets.len() > 0 {
        let front = tickets.drop_last();
        assert forall|i: int| 0 <= i < front.len() implies !((#[trigger] front[i]).query is ReconcileSnapshot) by {
            assert(tickets[i] == front[i]);
        }
        no_reconcile_no_events(front, exchange, as_of_utc);
        assert(tickets.last() == tickets[tickets.len() - 1]);
    }
}

/// The collateral that the manager reports is the snapshot's own.
pub proof fn summary_agrees_with_snapshot(
    c: CollateralSummary,
    snapshot: AccountSnapshot,
    exchange: Exchange,
    quote_asset: Currency,
    partition: Option<AccountPartitionRef>,
)
    requires
        summarizes(c, snapshot, exchange, quote_asset, partition),
    ensures
        Some(c.effective_collateral@) == snapshot.figure(quote_asset, partition, Measure::Equity),
        partition is None && snapshot.model == AccountModel::Segmented ==> c.effective_collateral@
            == crate::decimal::Dec::zero(),
{
    types::segmented_needs_partition(snapshot.balances@, quote_asset, Measure::Equity);
}

/// Where its figures are added up exactly, a summary's collateral is its total and its unrealized
/// profit less what is borrowed.
pub proof fn collateral_adds_up(
    c: CollateralSummary,
    snapshot: AccountSnapshot,
    exchange: Exchange,
    quote_asset: Currency,
    partition: Option<AccountPartitionRef>,
)
    requires
        summarizes(c, snapshot, exchange, quote_asset, partition),
        forall|i: int| 0 <= i < snapshot.balances@.len() ==> (#[trigger] snapshot.balances@[i]).sound(),
        types::adds_exactly(snapshot.model, snapshot.balances@, quote_asset, partition, Measure::Equity),
        types::adds_exactly(snapshot.model, snapshot.balances@, quote_asset, partition, Measure::Total),
        types::adds_exactly(snapshot.model, snapshot.balances@, quote_asset, partition, Measure::Borrowed),
        types::adds_exactly(snapshot.model, snapshot.balances@, quote_asset, partition, Measure::Unrealized),
    ensures
        c.effective_collateral@.units() == c.total_balance@.units() + c.total_unrealized_pnl@.units()
            - c.total_borrowed@.units(),
{
    let (model, list) = (snapshot.model, snapshot.balances@);
    types::exact_figure_is_sum(model, list, quote_asset, partition, Measure::Equity);
    types::exact_figure_is_sum(model, list, quote_asset, partition, Measure::Total);
    types::exact_figure_is_sum(model, list, quote_asset, partition, Measure::Borrowed);
    types::exact_figure_is_sum(model, list, quote_asset, partition, Measure::Unrealized);
    types::unit_sums_agree(model, list, quote_asset, partition);
}

} // verus!

use vstd::prelude::*;
use vstd::string::*;

use crate::decimal;
use crate::decimal::{Dec, Decimal};
use crate::decimal_laws;
use crate::kinds::{Currency, Exchange};
use crate::orders::copy_opt_string;
use crate::text;
use crate::text::{quote, same};
use crate::time::UtcTime;

verus! {

/// Whether an exchange keeps one account for everything or one for each kind of trading.
#[derive(Clone, Copy, Debug, PartialEq, Eq, Hash, Structural)]
pub enum AccountModel {
    Unified,
    Segmented,
}

/// Kinds of part that an account can have.
#[derive(Debug, PartialEq, Eq, Hash)]
pub enum PartitionKind {
    Unified,
    Spot,
    Swap,
    Margin,
    Funding,
    Options,
    Other(String),
}

/// A part of an account.
#[derive(Debug, PartialEq, Eq, Hash)]
pub struct AccountPartitionRef {
    pub exchange: Exchange,
    pub kind: PartitionKind,
    pub account_id: Option<String>,
}

/// Whether a balance can be drawn on from every part of an account or from its own only.
#[derive(Clone, Copy, Debug, PartialEq, Eq, Hash, Structural)]
pub enum CollateralScope {
    SharedAcrossPartitions,
    PartitionOnly,
}

#[derive(Clone, Copy, Debug, PartialEq, Eq, Hash, Structural)]
pub enum MarginMode {
    Cross,
    Isolated,
    Portfolio,
}

impl PartitionKind {
    /// The same kind, whatever the memory that holds its name.
    pub open spec fn same_kind(self, other: PartitionKind) -> bool {
        match (self, other) {
            (PartitionKind::Other(a), PartitionKind::Other(b)) => a@ == b@,
            (PartitionKind::Unified, PartitionKind::Unified) => true,
            (PartitionKind::Spot, PartitionKind::Spot) => true,
            (PartitionKind::Swap, PartitionKind::Swap) => true,
            (PartitionKind::Margin, PartitionKind::Margin) => true,
            (PartitionKind::Funding, PartitionKind::Funding) => true,
            (PartitionKind::Options, PartitionKind::Options) => true,
            _ => false,
        }
    }

    /// The kind as error messages give it.
    pub open spec fn text(self) -> Seq<char> {
        match self {
            PartitionKind::Unified => "Unified"@,
            PartitionKind::Spot => "Spot"@,
            PartitionKind::Swap => "Swap"@,
            PartitionKind::Margin => "Margin"@,
            PartitionKind::Funding => "Funding"@,
            PartitionKind::Options => "Options"@,
            PartitionKind::Other(name) => "Other("@ + text::quoted(name@) + ")"@,
        }
    }

    pub fn is(&self, other: &PartitionKind) -> (r: bool)
        ensures
            r == self.same_kind(*other),
    {
        match (self, other) {
            (PartitionKind::Other(a), PartitionKind::Other(b)) => same(a.as_str(), b.as_str()),
            (PartitionKind::Unified, PartitionKind::Unified) => true,
            (PartitionKind::Spot, PartitionKind::Spot) => true,
            (PartitionKind::Swap, PartitionKind::Swap) => true,
            (PartitionKind::Margin, PartitionKind::Margin) => true,
            (PartitionKind::Funding, PartitionKind::Funding) => true,
            (PartitionKind::Options, PartitionKind::Options) => true,
            _ => false,
        }
    }

    pub fn to_string(&self) -> (r: String)
        ensures
            r@ == self.text(),
    {
        match self {
            PartitionKind::Unified => "Unified".to_owned(),
            PartitionKind::Spot => "Spot".to_owned(),
            PartitionKind::Swap => "Swap".to_owned(),
            PartitionKind::Margin => "Margin".to_owned(),
            PartitionKind::Funding => "Funding".to_owned(),
            PartitionKind::Options => "Options".to_owned(),
            PartitionKind::Other(name) => {
                let mut out: String = "Other(".to_owned();
                out.append(quote(name.as_str()).as_str());
                out.append(")");
                out
            },
        }
    }
}

impl Clone for PartitionKind {
    fn clone(&self) -> (r: PartitionKind)
        ensures
            r == *self,
    {
        match self {
            PartitionKind::Unified => PartitionKind::Unified,
            PartitionKind::Spot => PartitionKind::Spot,
            PartitionKind::Swap => PartitionKind::Swap,
            PartitionKind::Margin => PartitionKind::Margin,
            PartitionKind::Funding => PartitionKind::Funding,
            PartitionKind::Options => PartitionKind::Options,
            PartitionKind::Other(name) => PartitionKind::Other(name.clone()),
        }
    }
}

/// The same text, or both absent.
pub open spec fn same_opt(a: Option<String>, b: Option<String>) -> bool {
    match (a, b) {
        (Some(a), Some(b)) => a@ == b@,
        (None, None) => true,
        _ => false,
    }
}

/// An optional text as error messages give it.
pub open spec fn opt_text(a: Option<String>) -> Seq<char> {
    match a {
        Some(s) => "Some("@ + text::quoted(s@) + ")"@,
        None => "None"@,
    }
}

impl AccountPartitionRef {
    /// The same part of the same account.
    pub open spec fn same_part(self, other: AccountPartitionRef) -> bool {
        &&& self.exchange == other.exchange
        &&& self.kind.same_kind(other.kind)
        &&& same_opt(self.account_id, other.account_id)
    }

    /// The part as error messages give it: kind and identifier.
    pub open spec fn text(self) -> Seq<char> {
        self.kind.text() + "/"@ + opt_text(self.account_id)
    }

    pub fn is(&self, other: &AccountPartitionRef) -> (r: bool)
        ensures
            r == self.same_part(*other),
    {
        let same_id = match (&self.account_id, &other.account_id) {
            (Some(a), Some(b)) => same(a.as_str(), b.as_str()),
            (None, None) => true,
            _ => false,
        };
        self.exchange == other.exchange && self.kind.is(&other.kind) && same_id
    }

    pub fn to_string(&self) -> (r: String)
        ensures
            r@ == self.text(),
    {
        let mut out = self.kind.to_string();
        out.append("/");
        match &self.account_id {
            Some(id) => {
                let mut some: String = "Some(".to_owned();
                some.append(quote(id.as_str()).as_str());
                some.append(")");
                out.append(some.as_str());
            },
            None => out.append("None"),
        }
        out
    }
}

impl Clone for AccountPartitionRef {
    fn clone(&self) -> (r: AccountPartitionRef)
        ensures
            r == *self,
    {
        AccountPartitionRef {
            exchange: self.exchange,
            kind: self.kind.clone(),
            account_id: copy_opt_string(&self.account_id),
        }
    }
}

/// A copy of a part that may be absent.
pub fn copy_opt_partition(p: &Option<AccountPartitionRef>) -> (r: Option<AccountPartitionRef>)
    ensures
        r == *p,
{
    match p {
        Some(p) => Some(p.clone()),
        None => None,
    }
}

/// Whether a balance lies in a part.
pub open spec fn lies_in(held: Option<AccountPartitionRef>, part: AccountPartitionRef) -> bool {
    match held {
        Some(p) => p.same_part(part),
        None => false,
    }
}

fn is_in(held: &Option<AccountPartitionRef>, part: &AccountPartitionRef) -> (r: bool)
    ensures
        r == lies_in(*held, *part),
{
    match held {
        Some(p) => p.is(part),
        None => false,
    }
}

/// Which balances to give.
#[derive(Debug, PartialEq)]
pub struct BalanceQuery {
    pub exchange: Exchange,
    pub partition: Option<AccountPartitionRef>,
    pub asset: Option<Currency>,
    pub include_zero_balances: bool,
}

impl Clone for BalanceQuery {
    fn clone(&self) -> (r: BalanceQuery)
        ensures
            r == *self,
    {
        BalanceQuery {
            exchange: self.exchange,
            partition: copy_opt_partition(&self.partition),
            asset: self.asset,
            include_zero_balances: self.include_zero_balances,
        }
    }
}

impl BalanceQuery {
    /// Whether a balance is asked for: of the asset where one is named, in the part where one is
    /// named, and unless zero balances are wanted with something in it.
    pub open spec fn wants(self, b: BalanceView) -> bool {
        &&& self.asset matches Some(asset) ==> b.asset == asset
        &&& self.partition matches Some(p) ==> lies_in(b.partition, p)
        &&& self.include_zero_balances || !b.total@.is_zero() || !b.unrealized_pnl@.is_zero()
    }

    pub fn matches(&self, b: &BalanceView) -> (r: bool)
        ensures
            r == self.wants(*b),
    {
        let asset_fits = match self.asset {
            Some(asset) => b.asset == asset,
            None => true,
        };
        let part_fits = match &self.partition {
            Some(p) => is_in(&b.partition, p),
            None => true,
        };
        asset_fits && part_fits && (self.include_zero_balances || !b.total.is_zero() || !b.unrealized_pnl.is_zero())
    }
}

/// What is held of one asset.
#[derive(Debug, PartialEq)]
pub struct BalanceView {
    pub exchange: Exchange,
    pub partition: Option<AccountPartitionRef>,
    pub asset: Currency,
    pub total: Decimal,
    pub free: Decimal,
    pub locked: Decimal,
    pub borrowed: Decimal,
    pub unrealized_pnl: Decimal,
    pub collateral_scope: CollateralScope,
    pub as_of_utc: UtcTime,
}

impl Clone for BalanceView {
    fn clone(&self) -> (r: BalanceView)
        ensures
            r == *self,
    {
        BalanceView {
            exchange: self.exchange,
            partition: copy_opt_partition(&self.partition),
            asset: self.asset,
            total: self.total,
            free: self.free,
            locked: self.locked,
            borrowed: self.borrowed,
            unrealized_pnl: self.unrealized_pnl,
            collateral_scope: self.collateral_scope,
            as_of_utc: self.as_of_utc,
        }
    }
}

impl BalanceView {
    /// Total and unrealized profit less what is borrowed. `None` is overflow.
    pub open spec fn equity(self) -> Option<Dec> {
        match self.total@.sum(self.unrealized_pnl@) {
            None => None,
            Some(gross) => gross.difference(self.borrowed@),
        }
    }

    /// What the balance is worth after debts.
    pub fn net_equity(&self) -> (r: Decimal)
        requires
            self.equity() is Some,
        ensures
            Some(r@) == self.equity(),
    {
        self.total.checked_add(self.unrealized_pnl).unwrap().checked_sub(self.borrowed).unwrap()
    }

    /// What the balance is worth after debts, or `None` where the arithmetic overflows.
    pub fn checked_net_equity(&self) -> (r: Option<Decimal>)
        ensures
            decimal::view_opt(r) == self.equity(),
    {
        match self.total.checked_add(self.unrealized_pnl) {
            None => None,
            Some(gross) => gross.checked_sub(self.borrowed),
        }
    }
}

/// What an account can put up for its positions.
#[derive(Debug, PartialEq)]
pub struct CollateralSummary {
    pub exchange: Exchange,
    pub model: AccountModel,
    pub quote_asset: Currency,
    pub partition: Option<AccountPartitionRef>,
    pub effective_collateral: Decimal,
    pub total_balance: Decimal,
    pub total_borrowed: Decimal,
    pub total_unrealized_pnl: Decimal,
    pub as_of_utc: UtcTime,
}

/// How an account is margined.
#[derive(Debug, PartialEq)]
pub struct MarginStateView {
    pub exchange: Exchange,
    pub partition: Option<AccountPartitionRef>,
    pub mode: MarginMode,
    pub margin_ratio: Option<Decimal>,
    pub initial_margin_ratio: Option<Decimal>,
    pub maintenance_margin_ratio: Option<Decimal>,
    pub as_of_utc: UtcTime,
}

/// An account as it was at some time.
#[derive(Debug, PartialEq)]
pub struct AccountSnapshot {
    pub exchange: Exchange,
    pub model: AccountModel,
    pub partitions: Vec<AccountPartitionRef>,
    pub balances: Vec<BalanceView>,
    pub as_of_utc: UtcTime,
}

/// Whether a balance counts as collateral. In a unified account every balance of the asset counts
/// for the whole; for one part those that are shared or lie in the part. In a segmented account
/// only what lies in the named part counts, and nothing without a part.
pub open spec fn counts(
    model: AccountModel,
    b: BalanceView,
    quote_asset: Currency,
    partition: Option<AccountPartitionRef>,
) -> bool {
    &&& b.asset == quote_asset
    &&& match (model, partition) {
        (AccountModel::Unified, None) => true,
        (AccountModel::Unified, Some(p)) => {
            b.collateral_scope == CollateralScope::SharedAcrossPartitions || lies_in(b.partition, p)
        },
        (AccountModel::Segmented, None) => false,
        (AccountModel::Segmented, Some(p)) => lies_in(b.partition, p),
    }
}

/// What is added up over balances.
pub enum Measure {
    Equity,
    Total,
    Borrowed,
    Unrealized,
}

impl Measure {
    /// The figure of one balance. `None` is overflow.
    pub open spec fn of(self, b: BalanceView) -> Option<Dec> {
        match self {
            Measure::Equity => b.equity(),
            Measure::Total => Some(b.total@),
            Measure::Borrowed => Some(b.borrowed@),
            Measure::Unrealized => Some(b.unrealized_pnl@),
        }
    }
}

/// A figure added up, from the first balance to the last, over those that count. `None` is
/// overflow.
pub open spec fn added_up(
    model: AccountModel,
    balances: Seq<BalanceView>,
    quote_asset: Currency,
    partition: Option<AccountPartitionRef>,
    what: Measure,
) -> Option<Dec>
    decreases balances.len(),
{
    if balances.len() == 0 {
        Some(Dec::zero())
    } else {
        match added_up(model, balances.drop_last(), quote_asset, partition, what) {
            None => None,
            Some(so_far) => if counts(model, balances.last(), quote_asset, partition) {
                match what.of(balances.last()) {
                    None => None,
                    Some(figure) => so_far.sum(figure),
                }
            } else {
                Some(so_far)
            },
        }
    }
}

impl BalanceView {
    /// Its numbers are decimals.
    pub open spec fn sound(self) -> bool {
        self.total@.wf() && self.borrowed@.wf() && self.unrealized_pnl@.wf()
    }
}

impl Measure {
    /// Whether the figure of one balance comes out exactly.
    pub open spec fn exact(self, b: BalanceView) -> bool {
        match self {
            Measure::Equity => b.total@.exact_sum(b.unrealized_pnl@) matches Some(gross) && gross.exact_difference(
                b.borrowed@,
            ) is Some,
            _ => true,
        }
    }

    /// The figure of one balance, counted in the finest steps.
    pub open spec fn units(self, b: BalanceView) -> int {
        match self {
            Measure::Equity => b.total@.units() + b.unrealized_pnl@.units() - b.borrowed@.units(),
            Measure::Total => b.total@.units(),
            Measure::Borrowed => b.borrowed@.units(),
            Measure::Unrealized => b.unrealized_pnl@.units(),
        }
    }
}

/// Whether a figure is added up exactly, with no digit lost on the way.
pub open spec fn adds_exactly(
    model: AccountModel,
    balances: Seq<BalanceView>,
    quote_asset: Currency,
    partition: Option<AccountPartitionRef>,
    what: Measure,
) -> bool
    decreases balances.len(),
{
    if balances.len() == 0 {
        true
    } else {
        let front = balances.drop_last();
        &&& adds_exactly(model, front, quote_asset, partition, what)
        &&& counts(model, balances.last(), quote_asset, partition) ==> what.exact(balances.last()) && (added_up(
            model,
            front,
            quote_asset,
            partition,
            what,
        )->0).exact_sum(what.of(balances.last())->0) is Some
    }
}

/// A figure added up in the finest steps over the balances that count.
pub open spec fn unit_sum(
    model: AccountModel,
    balances: Seq<BalanceView>,
    quote_asset: Currency,
    partition: Option<AccountPartitionRef>,
    what: Measure,
) -> int
    decreases balances.len(),
{
    if balances.len() == 0 {
        0
    } else {
        unit_sum(model, balances.drop_last(), quote_asset, partition, what) + (if counts(
            model,
            balances.last(),
            quote_asset,
            partition,
        ) {
            what.units(balances.last())
        } else {
            0
        })
    }
}

/// A figure that is added up exactly is the sum of the balances' figures.
pub proof fn exact_figure_is_sum(
    model: AccountModel,
    balances: Seq<BalanceView>,
    quote_asset: Currency,
    partition: Option<AccountPartitionRef>,
    what: Measure,
)
    requires
        forall|i: int| 0 <= i < balances.len() ==> (#[trigger] balances[i]).sound(),
        adds_exactly(model, balances, quote_asset, partition, what),
    ensures
        added_up(model, balances, quote_asset, partition, what) matches Some(d) && d.wf() && d.units() == unit_sum(
            model,
            balances,
            quote_asset,
            partition,
            what,
        ),
    decreases balances.len(),
{
    if balances.len() == 0 {
        decimal_laws::units_have_sign(Dec::zero());
    } else {
        let front = balances.drop_last();
        assert forall|i: int| 0 <= i < front.len() implies (#[trigger] front[i]).sound() by {
            assert(balances[i].sound());
        }
        exact_figure_is_sum(model, front, quote_asset, partition, what);
        let b = balances.last();
        assert(b.sound());
        if counts(model, b, quote_asset, partition) {
            let so_far = added_up(model, front, quote_asset, partition, what)->0;
            if what is Equity {
                let gross = b.total@.exact_sum(b.unrealized_pnl@)->0;
                decimal_laws::exact_sum_adds_units(b.total@, b.unrealized_pnl@);
                decimal_laws::exact_difference_subtracts_units(gross, b.borrowed@);
            }
            decimal_laws::exact_sum_adds_units(so_far, what.of(b)->0);
        }
    }
}

/// Over any balances, collateral is total and unrealized profit less what is borrowed.
pub proof fn unit_sums_agree(
    model: AccountModel,
    balances: Seq<BalanceView>,
    quote_asset: Currency,
    partition: Option<AccountPartitionRef>,
)
    ensures
        unit_sum(model, balances, quote_asset, partition, Measure::Equity) == unit_sum(
            model,
            balances,
            quote_asset,
            partition,
            Measure::Total,
        ) + unit_sum(model, balances, quote_asset, partition, Measure::Unrealized) - unit_sum(
            model,
            balances,
            quote_asset,
            partition,
            Measure::Borrowed,
        ),
    decreases balances.len(),
{
    if balances.len() > 0 {
        unit_sums_agree(model, balances.drop_last(), quote_asset, partition);
    }
}

/// Without a part a segmented account has no collateral.
pub proof fn segmented_needs_partition(balances: Seq<BalanceView>, quote_asset: Currency, what: Measure)
    ensures
        added_up(AccountModel::Segmented, balances, quote_asset, None, what) == Some(Dec::zero()),
    decreases balances.len(),
{
    if balances.len() > 0 {
        segmented_needs_partition(balances.drop_last(), quote_asset, what);
    }
}

/// Balances of other assets do not count.
pub proof fn other_assets_do_not_count(
    model: AccountModel,
    balances: Seq<BalanceView>,
    quote_asset: Currency,
    partition: Option<AccountPartitionRef>,
    what: Measure,
)
    requires
        forall|i: int| #![trigger balances[i]] 0 <= i < balances.len() ==> balances[i].asset != quote_asset,
    ensures
        added_up(model, balances, quote_asset, partition, what) == Some(Dec::zero()),
    decreases balances.len(),
{
    if balances.len() > 0 {
        let front = balances.drop_last();
        assert forall|i: int| #![trigger front[i]] 0 <= i < front.len() implies front[i].asset != quote_asset by {
            assert(front[i] == balances[i]);
        }
        other_assets_do_not_count(model, front, quote_asset, partition, what);
        assert(balances.last() == balances[balances.len() - 1]);
    }
}

/// A copy of a list of parts.
pub fn copy_partitions(list: &Vec<AccountPartitionRef>) -> (r: Vec<AccountPartitionRef>)
    ensures
        r@ == list@,
{
    let mut out: Vec<AccountPartitionRef> = Vec::new();
    for i in 0..list.len()
        invariant
            out@ == list@.take(i as int),
    {
        out.push(list[i].clone());
        assert(list@.take(i as int).push(list@[i as int]) =~= list@.take(i + 1));
    }
    assert(list@.take(list@.len() as int) =~= list@);
    out
}

/// A copy of a list of balances.
pub fn copy_balances(list: &Vec<BalanceView>) -> (r: Vec<BalanceView>)
    ensures
        r@ == list@,
{
    let mut out: Vec<BalanceView> = Vec::new();
    for i in 0..list.len()
        invariant
            out@ == list@.take(i as int),
    {
        out.push(list[i].clone());
        assert(list@.take(i as int).push(list@[i as int]) =~= list@.take(i + 1));
    }
    assert(list@.take(list@.len() as int) =~= list@);
    out
}

impl Clone for AccountSnapshot {
    fn clone(&self) -> (r: AccountSnapshot)
        ensures
            r.same_snapshot(*self),
    {
        AccountSnapshot {
            exchange: self.exchange,
            model: self.model,
            partitions: copy_partitions(&self.partitions),
            balances: copy_balances(&self.balances),
            as_of_utc: self.as_of_utc,
        }
    }
}

fn does_count(
    model: AccountModel,
    b: &BalanceView,
    quote_asset: Currency,
    partition: Option<&AccountPartitionRef>,
) -> (r: bool)
    ensures
        r == counts(model, *b, quote_asset, deref_part(partition)),
{
    if b.asset != quote_asset {
        return false;
    }
    match (model, partition) {
        (AccountModel::Unified, None) => true,
        (AccountModel::Unified, Some(p)) => {
            b.collateral_scope == CollateralScope::SharedAcrossPartitions || is_in(&b.partition, p)
        },
        (AccountModel::Segmented, None) => false,
        (AccountModel::Segmented, Some(p)) => is_in(&b.partition, p),
    }
}

/// A part that is handed in by reference.
pub open spec fn deref_part(partition: Option<&AccountPartitionRef>) -> Option<AccountPartitionRef> {
    match partition {
        Some(p) => Some(*p),
        None => None,
    }
}

impl AccountSnapshot {
    /// Equal field by field, the lists element by element.
    pub open spec fn same_snapshot(self, other: AccountSnapshot) -> bool {
        &&& self.exchange == other.exchange
        &&& self.model == other.model
        &&& self.partitions@ == other.partitions@
        &&& self.balances@ == other.balances@
        &&& self.as_of_utc == other.as_of_utc
    }

    /// Whether the account has a part.
    pub open spec fn has_part(self, p: AccountPartitionRef) -> bool {
        exists|i: int| 0 <= i < self.partitions@.len() && (#[trigger] self.partitions@[i]).same_part(p)
    }

    /// Whether a balance lies in a part, or in none where none is asked for.
    pub open spec fn in_part(b: BalanceView, partition: Option<AccountPartitionRef>) -> bool {
        match (b.partition, partition) {
            (None, None) => true,
            (Some(held), Some(p)) => held.same_part(p),
            _ => false,
        }
    }

    /// The balances that lie in a part, or in none where none is named, in order.
    pub fn balances_for_partition(&self, partition: Option<&AccountPartitionRef>) -> (r: Vec<&BalanceView>)
        ensures
            r@.map_values(|b: &BalanceView| *b) == self.balances@.filter(
                |b: BalanceView| AccountSnapshot::in_part(b, deref_part(partition)),
            ),
    {
        let mut out: Vec<&BalanceView> = Vec::new();
        let ghost wanted = |b: BalanceView| AccountSnapshot::in_part(b, deref_part(partition));
        for i in 0..self.balances.len()
            invariant
                wanted == (|b: BalanceView| AccountSnapshot::in_part(b, deref_part(partition))),
                out@.map_values(|b: &BalanceView| *b) == self.balances@.take(i as int).filter(wanted),
        {
            proof {
                reveal(Seq::filter);
                assert(self.balances@.take(i + 1).drop_last() =~= self.balances@.take(i as int));
            }
            let b = &self.balances[i];
            let fits = match (&b.partition, partition) {
                (None, None) => true,
                (Some(held), Some(p)) => held.is(p),
                _ => false,
            };
            let ghost before = out@;
            if fits {
                out.push(b);
                assert(before.push(b).map_values(|b: &BalanceView| *b) =~= before.map_values(
                    |b: &BalanceView| *b,
                ).push(*b));
            }
        }
        assert(self.balances@.take(self.balances@.len() as int) =~= self.balances@);
        out
    }

    /// Whether the account has a part.
    pub fn has_partition(&self, p: &AccountPartitionRef) -> (r: bool)
        ensures
            r == self.has_part(*p),
    {
        for i in 0..self.partitions.len()
            invariant
                forall|j: int| 0 <= j < i ==> !(#[trigger] self.partitions@[j]).same_part(*p),
        {
            if self.partitions[i].is(p) {
                return true;
            }
        }
        false
    }

    /// A figure of the whole account or of one part.
    pub open spec fn figure(self, quote_asset: Currency, partition: Option<AccountPartitionRef>, what: Measure) -> Option<Dec> {
        added_up(self.model, self.balances@, quote_asset, partition, what)
    }

    /// The collateral of the whole account or of one part.
    pub fn effective_collateral(&self, quote_asset: Currency, partition: Option<&AccountPartitionRef>) -> (r: Decimal)
        requires
            self.figure(quote_asset, deref_part(partition), Measure::Equity) is Some,
        ensures
            Some(r@) == self.figure(quote_asset, deref_part(partition), Measure::Equity),
    {
        self.checked_effective_collateral(quote_asset, partition).unwrap()
    }

    /// The collateral of the whole account or of one part, or `None` where the arithmetic
    /// overflows.
    pub fn checked_effective_collateral(&self, quote_asset: Currency, partition: Option<&AccountPartitionRef>) -> (r:
        Option<Decimal>)
        ensures
            decimal::view_opt(r) == self.figure(quote_asset, deref_part(partition), Measure::Equity),
    {
        let ghost part = deref_part(partition);
        let mut total = Decimal::zero();
        for i in 0..self.balances.len()
            invariant
                part == deref_part(partition),
                Some(total@) == added_up(self.model, self.balances@.take(i as int), quote_asset, part, Measure::Equity),
        {
            let b = &self.balances[i];
            assert(self.balances@.take(i + 1).drop_last() =~= self.balances@.take(i as int));
            if does_count(self.model, b, quote_asset, partition) {
                let next = match b.checked_net_equity() {
                    Some(equity) => total.checked_add(equity),
                    None => None,
                };
                match next {
                    Some(sum) => {
                        total = sum;
                    },
                    None => {
                        proof {
                            overflow_stays(self.model, self.balances@, i + 1, quote_asset, part, Measure::Equity);
                        }
                        return None;
                    },
                }
            }
        }
        assert(self.balances@.take(self.balances@.len() as int) =~= self.balances@);
        Some(total)
    }

    /// Total, borrowed and unrealized profit of what counts as collateral, or `None` where the
    /// arithmetic overflows.
    pub fn checked_totals(&self, quote_asset: Currency, partition: Option<&AccountPartitionRef>) -> (r: Option<
        (Decimal, Decimal, Decimal),
    >)
        ensures
            r is Some <==> self.figure(quote_asset, deref_part(partition), Measure::Total) is Some && self.figure(
                quote_asset,
                deref_part(partition),
                Measure::Borrowed,
            ) is Some && self.figure(quote_asset, deref_part(partition), Measure::Unrealized) is Some,
            r matches Some(t) ==> {
                &&& Some(t.0@) == self.figure(quote_asset, deref_part(partition), Measure::Total)
                &&& Some(t.1@) == self.figure(quote_asset, deref_part(partition), Measure::Borrowed)
                &&& Some(t.2@) == self.figure(quote_asset, deref_part(partition), Measure::Unrealized)
            },
    {
        let ghost part = deref_part(partition);
        let mut total = Decimal::zero();
        let mut borrowed = Decimal::zero();
        let mut unrealized = Decimal::zero();
        for i in 0..self.balances.len()
            invariant
                part == deref_part(partition),
                Some(total@) == added_up(self.model, self.balances@.take(i as int), quote_asset, part, Measure::Total),
                Some(borrowed@) == added_up(
                    self.model,
                    self.balances@.take(i as int),
                    quote_asset,
                    part,
                    Measure::Borrowed,
                ),
                Some(unrealized@) == added_up(
                    self.model,
                    self.balances@.take(i as int),
                    quote_asset,
                    part,
                    Measure::Unrealized,
                ),
        {
            let b = &self.balances[i];
            assert(self.balances@.take(i + 1).drop_last() =~= self.balances@.take(i as int));
            if does_count(self.model, b, quote_asset, partition) {
                match (
                    total.checked_add(b.total),
                    borrowed.checked_add(b.borrowed),
                    unrealized.checked_add(b.unrealized_pnl),
                ) {
                    (Some(t), Some(o), Some(u)) => {
                        total = t;
                        borrowed = o;
                        unrealized = u;
                    },
                    _ => {
                        proof {
                            overflow_stays(self.model, self.balances@, i + 1, quote_asset, part, Measure::Total);
                            overflow_stays(self.model, self.balances@, i + 1, quote_asset, part, Measure::Borrowed);
                            overflow_stays(self.model, self.balances@, i + 1, quote_asset, part, Measure::Unrealized);
                        }
                        return None;
                    },
                }
            }
        }
        assert(self.balances@.take(self.balances@.len() as int) =~= self.balances@);
        Some((total, borrowed, unrealized))
    }
}

proof fn overflow_stays(
    model: AccountModel,
    balances: Seq<BalanceView>,
    i: int,
    quote_asset: Currency,
    partition: Option<AccountPartitionRef>,
    what: Measure,
)
    requires
        0 <= i <= balances.len(),
    ensures
        added_up(model, balances.take(i), quote_asset, partition, what) is None ==> added_up(
            model,
            balances,
            quote_asset,
            partition,
            what,
        ) is None,
    decreases balances.len() - i,
{
    if i < balances.len() {
        assert(balances.take(i + 1).drop_last() =~= balances.take(i));
        overflow_stays(model, balances, i + 1, quote_asset, partition, what);
    } else {
        assert(balances.take(i) =~= balances);
    }
}

} // verus!

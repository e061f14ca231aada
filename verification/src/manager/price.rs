use vstd::prelude::*;
use vstd::string::*;

use crate::errors::PriceError;
use crate::kinds::{Exchange, InstrumentType, Pairs};
use crate::table::Table;
use crate::text::concat;
use crate::types::{InstrumentKey, OrderBookSnapshot, OrderBookUpdate};

verus! {

/// Why the price manager cannot answer.
#[derive(Debug, PartialEq)]
pub enum PriceManagerError {
    InstrumentNotFound { key: InstrumentKey },
    SnapshotUnavailable { key: InstrumentKey },
    ActorMailboxClosed,
    ActorResponseDropped,
    FeederError(PriceError),
}

impl InstrumentType {
    /// The kind as error messages give it.
    pub open spec fn variant(self) -> Seq<char> {
        match self {
            InstrumentType::Spot => "Spot"@,
            InstrumentType::Swap => "Swap"@,
        }
    }

    pub fn variant_name(&self) -> (r: &'static str)
        ensures
            r@ == self.variant(),
    {
        match self {
            InstrumentType::Spot => "Spot",
            InstrumentType::Swap => "Swap",
        }
    }
}

impl InstrumentKey {
    /// The key as error messages give it, field by field.
    pub open spec fn fields(self) -> Seq<char> {
        "InstrumentKey { exchange: "@ + self.exchange.variant() + ", pair: "@ + self.pair.text() + ", instrument_type: "@
            + self.instrument_type.variant() + " }"@
    }

    pub fn fields_string(&self) -> (r: String)
        ensures
            r@ == self.fields(),
    {
        let mut out: String = "InstrumentKey { exchange: ".to_owned();
        out.append(self.exchange.variant_name());
        out.append(", pair: ");
        out.append(self.pair.to_string().as_str());
        out.append(", instrument_type: ");
        out.append(self.instrument_type.variant_name());
        out.append(" }");
        out
    }
}

impl PriceManagerError {
    /// The error in words.
    pub open spec fn text(self) -> Seq<char> {
        match self {
            PriceManagerError::InstrumentNotFound { key } => "instrument not found: "@ + key.fields(),
            PriceManagerError::SnapshotUnavailable { key } => "snapshot unavailable (no data received yet) for: "@
                + key.fields(),
            PriceManagerError::ActorMailboxClosed => "price manager actor mailbox is closed"@,
            PriceManagerError::ActorResponseDropped => "price manager actor response channel dropped"@,
            PriceManagerError::FeederError(e) => "price feeder error: "@ + e.text(),
        }
    }

    pub fn message(&self) -> (r: String)
        ensures
            r@ == self.text(),
    {
        match self {
            PriceManagerError::InstrumentNotFound { key } => concat(
                "instrument not found: ",
                key.fields_string().as_str(),
            ),
            PriceManagerError::SnapshotUnavailable { key } => concat(
                "snapshot unavailable (no data received yet) for: ",
                key.fields_string().as_str(),
            ),
            PriceManagerError::ActorMailboxClosed => "price manager actor mailbox is closed".to_owned(),
            PriceManagerError::ActorResponseDropped => "price manager actor response channel dropped".to_owned(),
            PriceManagerError::FeederError(e) => concat("price feeder error: ", e.message().as_str()),
        }
    }
}

/// Settings of a price manager.
#[derive(Clone, Copy, Debug)]
pub struct PriceManagerConfig {
    pub mailbox_capacity: usize,
    pub event_broadcast_capacity: usize,
    pub ws_channel_capacity: usize,
    /// How many order books are kept at most.
    pub max_capacity: u64,
    /// Seconds after which an order book is no longer given out.
    pub time_to_live: u64,
}

impl Default for PriceManagerConfig {
    fn default() -> (r: PriceManagerConfig)
        ensures
            r == (PriceManagerConfig {
                mailbox_capacity: 64,
                event_broadcast_capacity: 256,
                ws_channel_capacity: 256,
                max_capacity: 10_000,
                time_to_live: 60,
            }),
    {
        PriceManagerConfig {
            mailbox_capacity: 64,
            event_broadcast_capacity: 256,
            ws_channel_capacity: 256,
            max_capacity: 10_000,
            time_to_live: 60,
        }
    }
}

/// A thousand years of 365 days, in seconds: the longest time that the cache accepts.
pub const LONGEST_TIME_TO_LIVE: u64 = 31_536_000_000;

/// The cache of `moka`, a bounded map whose entries expire.
#[verifier::external_type_specification]
#[verifier::external_body]
#[verifier::reject_recursive_types(K)]
#[verifier::reject_recursive_types(V)]
#[verifier::reject_recursive_types(S)]
pub struct ExCache<K, V, S>(moka::sync::Cache<K, V, S>);

/// A cache of order books, each under the number of its key.
pub type BookCache = moka::sync::Cache<u64, OrderBookSnapshot, std::hash::RandomState>;

/// The order book that was last put into a cache under each number. An entry may since have been
/// dropped for its age or for want of room, so a cache need not hold it any more.
pub uninterp spec fn last_put(cache: BookCache) -> Map<u64, OrderBookSnapshot>;

/// How many order books a cache was made for, and for how many seconds each.
pub uninterp spec fn made_for(cache: BookCache) -> (u64, u64);

pub open spec fn no_books() -> Map<u64, OrderBookSnapshot> {
    Map::empty()
}

/// Calls `moka::sync::Cache::builder`, `max_capacity`, `time_to_live` and `build`, which panics
/// for a time above a thousand years. Nothing was put into the cache yet. When an entry is dropped
/// is not stated: it rests on the clock and on the entries that the cache chooses to keep.
#[verifier::external_body]
fn outside_cache(max_capacity: u64, time_to_live: u64) -> (r: BookCache)
    requires
        time_to_live <= LONGEST_TIME_TO_LIVE,
    ensures
        last_put(r) == no_books(),
        made_for(r) == (max_capacity, time_to_live),
{
    let ttl = std::time::Duration::from_secs(time_to_live);
    moka::sync::Cache::builder().max_capacity(max_capacity).time_to_live(ttl).build()
}

/// Calls `moka::sync::Cache::insert`, which puts a value under a key in place of an older one. The
/// limits of the cache stay those that it was made with.
#[verifier::external_body]
fn outside_insert(
    cache: &mut BookCache,
    code: u64,
    book: OrderBookSnapshot,
)
    ensures
        last_put(*final(cache)) == last_put(*old(cache)).insert(code, book),
        made_for(*final(cache)) == made_for(*old(cache)),
{
    cache.insert(code, book);
}

/// Calls `moka::sync::Cache::get`, which gives a clone of the value that was last put under a key,
/// or nothing where none was put or it has been dropped. Whether it has been dropped depends on
/// the clock and on how full the cache is.
#[verifier::external_body]
fn outside_get(cache: &BookCache, code: u64) -> (r: Option<
    OrderBookSnapshot,
>)
    ensures
        r matches Some(book) ==> last_put(*cache).contains_key(code) && book.same_book(last_put(*cache)[code]),
{
    cache.get(&code)
}

impl InstrumentKey {
    /// A number for every key.
    pub open spec fn code_of(self) -> int {
        self.exchange.rank() * 100 + self.pair.rank() * 10 + self.instrument_type.rank()
    }

    pub fn code(&self) -> (r: u64)
        ensures
            r == self.code_of(),
    {
        self.exchange.index() * 100 + self.pair.index() * 10 + self.instrument_type.index()
    }
}

impl Exchange {
    pub open spec fn rank(self) -> int {
        match self {
            Exchange::Binance => 0,
            Exchange::Bybit => 1,
            Exchange::Gateio => 2,
            Exchange::Aster => 3,
            Exchange::Okx => 4,
        }
    }

    fn index(&self) -> (r: u64)
        ensures
            r == self.rank(),
            r < 5,
    {
        match self {
            Exchange::Binance => 0,
            Exchange::Bybit => 1,
            Exchange::Gateio => 2,
            Exchange::Aster => 3,
            Exchange::Okx => 4,
        }
    }
}

impl Pairs {
    pub open spec fn rank(self) -> int {
        match self {
            Pairs::BTCUSDT => 0,
            Pairs::ETHUSDT => 1,
            Pairs::XRPUSDT => 2,
            Pairs::USDCUSDT => 3,
            Pairs::SOLUSDT => 4,
        }
    }

    fn index(&self) -> (r: u64)
        ensures
            r == self.rank(),
            r < 5,
    {
        match self {
            Pairs::BTCUSDT => 0,
            Pairs::ETHUSDT => 1,
            Pairs::XRPUSDT => 2,
            Pairs::USDCUSDT => 3,
            Pairs::SOLUSDT => 4,
        }
    }
}

impl InstrumentType {
    pub open spec fn rank(self) -> int {
        match self {
            InstrumentType::Spot => 0,
            InstrumentType::Swap => 1,
        }
    }

    fn index(&self) -> (r: u64)
        ensures
            r == self.rank(),
            r < 2,
    {
        match self {
            InstrumentType::Spot => 0,
            InstrumentType::Swap => 1,
        }
    }
}

/// Different keys have different numbers.
pub proof fn codes_tell_keys_apart(a: InstrumentKey, b: InstrumentKey)
    requires
        a.code_of() == b.code_of(),
    ensures
        a == b,
{
}

/// An order book, or why there is none.
pub type PriceReply = Result<OrderBookSnapshot, PriceManagerError>;

/// What is to be done after a command, an update or a fetch.
#[derive(Debug)]
pub struct PriceStep {
    /// The instrument whose order book is to be fetched.
    pub fetch: Option<InstrumentKey>,
    /// The answers to give, each under the number of its question.
    pub replies: Vec<(u64, PriceReply)>,
    /// The update to tell.
    pub update: Option<OrderBookUpdate>,
}

/// Everyone who waited gets the same order book.
pub open spec fn all_served(ids: Seq<u64>, book: OrderBookSnapshot, replies: Seq<(u64, PriceReply)>) -> bool {
    &&& replies.len() == ids.len()
    &&& forall|i: int|
        #![trigger replies[i]]
        0 <= i < replies.len() ==> replies[i].0 == ids[i] && (replies[i].1 matches Ok(b) && b.same_book(book))
}

/// Everyone who waited hears the same reason.
pub open spec fn all_failed(ids: Seq<u64>, reason: Seq<char>, replies: Seq<(u64, PriceReply)>) -> bool {
    &&& replies.len() == ids.len()
    &&& forall|i: int|
        #![trigger replies[i]]
        0 <= i < replies.len() ==> replies[i].0 == ids[i] && (replies[i].1 matches Err(
            PriceManagerError::FeederError(PriceError::Network(said)),
        ) && said@ == reason)
}

/// The questions that wait for an instrument's order book.
pub open spec fn waiting(pending: Map<InstrumentKey, Vec<u64>>, key: InstrumentKey) -> Seq<u64> {
    if pending.contains_key(key) {
        pending[key]@
    } else {
        Seq::empty()
    }
}

/// The questions that wait for an order book, and the fetches under way.
#[derive(Debug)]
struct Queues {
    pending: Table<InstrumentKey, Vec<u64>>,
    fetching: Table<InstrumentKey, ()>,
}

impl Queues {
    spec fn pending(&self) -> Map<InstrumentKey, Vec<u64>> {
        self.pending@
    }

    spec fn fetching(&self) -> Set<InstrumentKey> {
        self.fetching@.dom()
    }

    #[verifier::type_invariant]
    spec fn inv(self) -> bool {
        queues_agree(self.pending(), self.fetching())
    }

    /// Lets a question wait for a fetch, which is started unless one is under way.
    fn wait(&mut self, key: InstrumentKey, id: u64) -> (r: PriceStep)
        ensures
            r.fetch == (if old(self).fetching().contains(key) { None } else { Some(key) }),
            r.replies@.len() == 0,
            r.update is None,
            final(self).fetching() == old(self).fetching().insert(key),
            waiting(final(self).pending(), key) == waiting(old(self).pending(), key).push(id),
            forall|k: InstrumentKey|
                k != key ==> waiting(final(self).pending(), k) == waiting(old(self).pending(), k),
    {
        proof {
            use_type_invariant(&*self);
        }
        let mut pending: Table<InstrumentKey, Vec<u64>> = Table::new();
        std::mem::swap(&mut pending, &mut self.pending);
        let mut queue: Vec<u64> = match pending.remove(&key) {
            Some(queue) => queue,
            None => Vec::new(),
        };
        assert(queue@ =~= waiting(old(self).pending(), key));
        queue.push(id);
        pending.insert(key, queue);
        let under_way = self.fetching.contains(&key);
        let mut fetching: Table<InstrumentKey, ()> = Table::new();
        std::mem::swap(&mut fetching, &mut self.fetching);
        fetching.insert(key, ());
        assert(fetching@.dom() =~= old(self).fetching().insert(key));
        self.fetching = fetching;
        proof {
            assert forall|k: InstrumentKey|
                #![trigger waiting(pending@, k)]
                waiting(pending@, k).len() > 0 implies self.fetching().contains(k) by {
                if k != key {
                    assert(waiting(pending@, k) == waiting(old(self).pending(), k));
                }
            }
        }
        self.pending = pending;
        PriceStep { fetch: if under_way { None } else { Some(key) }, replies: Vec::new(), update: None }
    }

    /// Takes out the questions that wait for an order book.
    fn release(&mut self, key: InstrumentKey) -> (r: Vec<u64>)
        ensures
            r@ == waiting(old(self).pending(), key),
            waiting(final(self).pending(), key).len() == 0,
            forall|k: InstrumentKey|
                k != key ==> waiting(final(self).pending(), k) == waiting(old(self).pending(), k),
            final(self).fetching() == old(self).fetching(),
    {
        proof {
            use_type_invariant(&*self);
        }
        let mut pending: Table<InstrumentKey, Vec<u64>> = Table::new();
        std::mem::swap(&mut pending, &mut self.pending);
        let queue: Vec<u64> = match pending.remove(&key) {
            Some(queue) => queue,
            None => Vec::new(),
        };
        assert(queue@ =~= waiting(old(self).pending(), key));
        proof {
            assert forall|k: InstrumentKey|
                #![trigger waiting(pending@, k)]
                waiting(pending@, k).len() > 0 implies self.fetching().contains(k) by {
                assert(waiting(pending@, k) == waiting(old(self).pending(), k));
            }
        }
        self.pending = pending;
        queue
    }

    fn end_fetch(&mut self, key: InstrumentKey)
        requires
            waiting(old(self).pending(), key).len() == 0,
        ensures
            final(self).fetching() == old(self).fetching().remove(key),
            final(self).pending() == old(self).pending(),
    {
        proof {
            use_type_invariant(&*self);
        }
        let mut pending: Table<InstrumentKey, Vec<u64>> = Table::new();
        std::mem::swap(&mut pending, &mut self.pending);
        let mut fetching: Table<InstrumentKey, ()> = Table::new();
        std::mem::swap(&mut fetching, &mut self.fetching);
        let done = fetching.remove(&key);
        assert(fetching@.dom() =~= old(self).fetching().remove(key));
        self.fetching = fetching;
        proof {
            assert forall|k: InstrumentKey|
                #![trigger waiting(pending@, k)]
                waiting(pending@, k).len() > 0 implies self.fetching().contains(k) by {
                assert(old(self).fetching().contains(k));
            }
        }
        self.pending = pending;
    }
}

/// Whoever waits for an order book waits for a fetch that is under way.
pub open spec fn queues_agree(pending: Map<InstrumentKey, Vec<u64>>, fetching: Set<InstrumentKey>) -> bool {
    forall|k: InstrumentKey| #![trigger waiting(pending, k)] waiting(pending, k).len() > 0 ==> fetching.contains(k)
}

/// Order books, the questions that wait for one, and the fetches under way.
pub struct PriceState {
    cache: BookCache,
    queues: Queues,
}

impl PriceState {
    /// The order book that came in last, by the number of its key.
    pub closed spec fn books(&self) -> Map<u64, OrderBookSnapshot> {
        last_put(self.cache)
    }

    /// How many order books are kept at most, and for how many seconds each.
    pub closed spec fn limits(&self) -> (u64, u64) {
        made_for(self.cache)
    }

    pub closed spec fn pending(&self) -> Map<InstrumentKey, Vec<u64>> {
        self.queues.pending()
    }

    pub closed spec fn fetching(&self) -> Set<InstrumentKey> {
        self.queues.fetching()
    }

    /// No order books and nobody waiting.
    pub fn new(config: &PriceManagerConfig) -> (r: PriceState)
        requires
            config.time_to_live <= LONGEST_TIME_TO_LIVE,
        ensures
            r.books() == Map::<u64, OrderBookSnapshot>::empty(),
            r.limits() == (config.max_capacity, config.time_to_live),
            r.pending() == Map::<InstrumentKey, Vec<u64>>::empty(),
            r.fetching() == Set::<InstrumentKey>::empty(),
            queues_agree(r.pending(), r.fetching()),
    {
        let r = PriceState {
            cache: outside_cache(config.max_capacity, config.time_to_live),
            queues: Queues { pending: Table::new(), fetching: Table::new() },
        };
        assert(r.fetching() =~= Set::<InstrumentKey>::empty());
        r
    }

    /// The order book of an instrument, where the cache still holds it.
    pub fn cached(&self, key: &InstrumentKey) -> (r: Option<OrderBookSnapshot>)
        ensures
            r matches Some(book) ==> self.books().contains_key(key.code_of() as u64) && book.same_book(
                self.books()[key.code_of() as u64],
            ),
    {
        outside_get(&self.cache, key.code())
    }

    /// Takes in a question for an order book, given what the cache holds: a hit is answered at
    /// once, a miss waits for a fetch.
    pub fn handle_get_snapshot_with(&mut self, key: InstrumentKey, id: u64, cached: Option<OrderBookSnapshot>) -> (r:
        PriceStep)
        ensures
            queues_agree(final(self).pending(), final(self).fetching()),
            final(self).limits() == old(self).limits(),
            r.update is None,
            final(self).books() == old(self).books(),
            forall|k: InstrumentKey|
                k != key ==> waiting(final(self).pending(), k) == waiting(old(self).pending(), k),
            match cached {
                Some(book) => {
                    &&& r.fetch is None
                    &&& r.replies@ == seq![(id, Ok::<OrderBookSnapshot, PriceManagerError>(book))]
                    &&& *final(self) == *old(self)
                },
                None => {
                    &&& r.fetch == (if old(self).fetching().contains(key) { None } else { Some(key) })
                    &&& r.replies@.len() == 0
                    &&& final(self).fetching() == old(self).fetching().insert(key)
                    &&& waiting(final(self).pending(), key) == waiting(old(self).pending(), key).push(id)
                },
            },
    {
        proof {
            use_type_invariant(&self.queues);
        }
        match cached {
            Some(book) => {
                let mut replies: Vec<(u64, PriceReply)> = Vec::new();
                replies.push((id, Ok(book)));
                assert(replies@ =~= seq![(id, Ok::<OrderBookSnapshot, PriceManagerError>(book))]);
                PriceStep { fetch: None, replies, update: None }
            },
            None => {
                let step = self.queues.wait(key, id);
                proof {
                    use_type_invariant(&self.queues);
                }
                step
            },
        }
    }

    /// Takes in a question for an order book. Whether the cache still holds one depends on the
    /// clock; what it gives is the one that came in last.
    pub fn handle_get_snapshot(&mut self, key: InstrumentKey, id: u64) -> (r: PriceStep)
        ensures
            queues_agree(final(self).pending(), final(self).fetching()),
            final(self).limits() == old(self).limits(),
            r.update is None,
            final(self).books() == old(self).books(),
            r.replies@.len() == 1 || r.replies@.len() == 0,
            r.replies@.len() == 1 ==> {
                &&& r.fetch is None
                &&& *final(self) == *old(self)
                &&& r.replies@[0].0 == id
                &&& r.replies@[0].1 matches Ok(book) && old(self).books().contains_key(key.code_of() as u64)
                    && book.same_book(old(self).books()[key.code_of() as u64])
            },
            r.replies@.len() == 0 ==> {
                &&& r.fetch == (if old(self).fetching().contains(key) { None } else { Some(key) })
                &&& final(self).fetching() == old(self).fetching().insert(key)
                &&& waiting(final(self).pending(), key) == waiting(old(self).pending(), key).push(id)
                &&& forall|k: InstrumentKey|
                    k != key ==> waiting(final(self).pending(), k) == waiting(old(self).pending(), k)
            },
            // What never came in cannot be given out.
            !old(self).books().contains_key(key.code_of() as u64) ==> r.replies@.len() == 0,
    {
        let cached = self.cached(&key);
        self.handle_get_snapshot_with(key, id, cached)
    }

    /// Takes in a question for a fresh order book: it waits for a fetch whatever the cache holds.
    pub fn handle_refresh_snapshot(&mut self, key: InstrumentKey, id: u64) -> (r: PriceStep)
        ensures
            queues_agree(final(self).pending(), final(self).fetching()),
            final(self).limits() == old(self).limits(),
            r.fetch == (if old(self).fetching().contains(key) { None } else { Some(key) }),
            r.replies@.len() == 0,
            r.update is None,
            final(self).books() == old(self).books(),
            final(self).fetching() == old(self).fetching().insert(key),
            waiting(final(self).pending(), key) == waiting(old(self).pending(), key).push(id),
            forall|k: InstrumentKey|
                k != key ==> waiting(final(self).pending(), k) == waiting(old(self).pending(), k),
    {
        let step = self.queues.wait(key, id);
        proof {
            use_type_invariant(&self.queues);
        }
        step
    }

    /// Takes in an update from the stream: it is kept and told, and everyone who waited for the
    /// instrument gets it. A fetch that is under way stays so.
    pub fn handle_ws_update(&mut self, update: OrderBookUpdate) -> (r: PriceStep)
        ensures
            queues_agree(final(self).pending(), final(self).fetching()),
            final(self).limits() == old(self).limits(),
            r.fetch is None,
            r.update matches Some(told) && told.snapshot.same_book(update.snapshot),
            all_served(waiting(old(self).pending(), update.snapshot.key), update.snapshot, r.replies@),
            final(self).books().dom() == old(self).books().dom().insert(update.snapshot.key.code_of() as u64),
            final(self).books()[update.snapshot.key.code_of() as u64].same_book(update.snapshot),
            forall|c: u64|
                c != update.snapshot.key.code_of() && old(self).books().contains_key(c) ==> #[trigger] final(
                    self).books()[c] == old(self).books()[c],
            waiting(final(self).pending(), update.snapshot.key).len() == 0,
            forall|k: InstrumentKey|
                k != update.snapshot.key ==> waiting(final(self).pending(), k) == waiting(old(self).pending(), k),
            final(self).fetching() == old(self).fetching(),
    {
        let key = update.snapshot.key;
        outside_insert(&mut self.cache, key.code(), update.snapshot.clone());
        let ids = self.queues.release(key);
        let replies = serve_all(&ids, &update.snapshot);
        proof {
            use_type_invariant(&self.queues);
        }
        PriceStep { fetch: None, replies, update: Some(update) }
    }

    /// Takes in the result of a fetch: an order book is kept and told, everyone who waited gets it
    /// or hears why there is none, and nobody waits any more.
    pub fn handle_rest_result(&mut self, key: InstrumentKey, result: PriceReply) -> (r: PriceStep)
        ensures
            queues_agree(final(self).pending(), final(self).fetching()),
            final(self).limits() == old(self).limits(),
            r.fetch is None,
            waiting(final(self).pending(), key).len() == 0,
            forall|k: InstrumentKey|
                k != key ==> waiting(final(self).pending(), k) == waiting(old(self).pending(), k),
            final(self).fetching() == old(self).fetching().remove(key),
            match result {
                Ok(book) => {
                    &&& r.update matches Some(told) && told.snapshot == book
                    &&& all_served(waiting(old(self).pending(), key), book, r.replies@)
                    &&& final(self).books().dom() == old(self).books().dom().insert(key.code_of() as u64)
                    &&& final(self).books()[key.code_of() as u64].same_book(book)
                    &&& forall|c: u64|
                        c != key.code_of() && old(self).books().contains_key(c) ==> #[trigger] final(self).books()[c]
                            == old(self).books()[c]
                },
                Err(e) => {
                    &&& r.update is None
                    &&& all_failed(waiting(old(self).pending(), key), e.text(), r.replies@)
                    &&& final(self).books() == old(self).books()
                },
            },
    {
        let ids = self.queues.release(key);
        self.queues.end_fetch(key);
        proof {
            use_type_invariant(&self.queues);
        }
        match result {
            Ok(book) => {
                outside_insert(&mut self.cache, key.code(), book.clone());
                let replies = serve_all(&ids, &book);
                PriceStep { fetch: None, replies, update: Some(OrderBookUpdate { snapshot: book }) }
            },
            Err(e) => {
                let reason = e.message();
                let mut replies: Vec<(u64, PriceReply)> = Vec::new();
                for i in 0..ids.len()
                    invariant
                        replies@.len() == i,
                        reason@ == e.text(),
                        forall|j: int|
                            #![trigger replies@[j]]
                            0 <= j < i ==> replies@[j].0 == ids@[j] && (replies@[j].1 matches Err(
                                PriceManagerError::FeederError(PriceError::Network(said)),
                            ) && said@ == e.text()),
                {
                    replies.push((ids[i], Err(PriceManagerError::FeederError(PriceError::Network(reason.clone())))));
                }
                PriceStep { fetch: None, replies, update: None }
            },
        }
    }

}

/// The same order book for everyone who waits.
fn serve_all(ids: &Vec<u64>, book: &OrderBookSnapshot) -> (r: Vec<(u64, PriceReply)>)
    ensures
        all_served(ids@, *book, r@),
{
    let mut replies: Vec<(u64, PriceReply)> = Vec::new();
    for i in 0..ids.len()
        invariant
            replies@.len() == i,
            forall|j: int|
                #![trigger replies@[j]]
                0 <= j < i ==> replies@[j].0 == ids@[j] && (replies@[j].1 matches Ok(b) && b.same_book(*book)),
    {
        replies.push((ids[i], Ok(book.clone())));
    }
    replies
}

} // verus!

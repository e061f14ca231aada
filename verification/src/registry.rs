use vstd::prelude::*;

use crate::kinds::{Exchange, InstrumentType, Pairs};
use crate::text::same;
use crate::types::{Instrument, InstrumentKey};

verus! {

/// The instruments that are known, each key once. An instrument that is registered again moves
/// to the end.
#[derive(Debug)]
pub struct InstrumentRegistry {
    instruments: Vec<Instrument>,
}

impl View for InstrumentRegistry {
    type V = Seq<Instrument>;

    closed spec fn view(&self) -> Seq<Instrument> {
        self.instruments@
    }
}

/// No two instruments have the same key.
pub open spec fn keys_distinct(instruments: Seq<Instrument>) -> bool {
    forall|i: int, j: int|
        #![trigger instruments[i], instruments[j]]
        0 <= i < j < instruments.len() ==> instruments[i].key != instruments[j].key
}

/// The instruments without the one that has a key.
pub open spec fn without_key(instruments: Seq<Instrument>, key: InstrumentKey) -> Seq<Instrument> {
    instruments.filter(|i: Instrument| i.key != key)
}

/// The instruments after one more is registered: an older one of the same key is dropped, the
/// new one comes last.
pub open spec fn registered(instruments: Seq<Instrument>, instrument: Instrument) -> Seq<Instrument> {
    without_key(instruments, instrument.key).push(instrument)
}

/// The instruments after a whole list is registered, in order.
pub open spec fn all_registered(instruments: Seq<Instrument>, more: Seq<Instrument>) -> Seq<Instrument>
    decreases more.len(),
{
    if more.len() == 0 {
        instruments
    } else {
        registered(all_registered(instruments, more.drop_last()), more.last())
    }
}

/// Whether an instrument of a key is known.
pub open spec fn has_key(instruments: Seq<Instrument>, key: InstrumentKey) -> bool {
    exists|i: int| 0 <= i < instruments.len() && (#[trigger] instruments[i]).key == key
}

/// The instrument of a key, where one is known.
pub open spec fn found(instruments: Seq<Instrument>, key: InstrumentKey) -> Option<Instrument> {
    if has_key(instruments, key) {
        Some(instruments[choose|i: int| 0 <= i < instruments.len() && (#[trigger] instruments[i]).key == key])
    } else {
        None
    }
}

/// Whether an instrument goes by a symbol on an exchange.
pub open spec fn goes_by(i: Instrument, exchange: Exchange, symbol: Seq<char>, kind: InstrumentType) -> bool {
    i.key.exchange == exchange && i.exchange_symbol@ == symbol && i.key.instrument_type == kind
}

/// The instrument that goes by a symbol on an exchange: the one that was registered earliest, if
/// there are several.
pub open spec fn known_by(
    instruments: Seq<Instrument>,
    exchange: Exchange,
    symbol: Seq<char>,
    kind: InstrumentType,
) -> Option<Instrument>
    decreases instruments.len(),
{
    if instruments.len() == 0 {
        None
    } else {
        match known_by(instruments.drop_last(), exchange, symbol, kind) {
            Some(i) => Some(i),
            None => if goes_by(instruments.last(), exchange, symbol, kind) {
                Some(instruments.last())
            } else {
                None
            },
        }
    }
}

proof fn known_stays_known(instruments: Seq<Instrument>, i: int, exchange: Exchange, symbol: Seq<char>, kind: InstrumentType)
    requires
        0 <= i <= instruments.len(),
        known_by(instruments.take(i), exchange, symbol, kind) is Some,
    ensures
        known_by(instruments, exchange, symbol, kind) == known_by(instruments.take(i), exchange, symbol, kind),
    decreases instruments.len() - i,
{
    if i < instruments.len() {
        assert(instruments.take(i + 1).drop_last() =~= instruments.take(i));
        known_stays_known(instruments, i + 1, exchange, symbol, kind);
    } else {
        assert(instruments.take(i) =~= instruments);
    }
}

/// An instrument that is found by a symbol is registered and goes by it.
pub proof fn known_goes_by(instruments: Seq<Instrument>, exchange: Exchange, symbol: Seq<char>, kind: InstrumentType)
    ensures
        known_by(instruments, exchange, symbol, kind) matches Some(i) ==> instruments.contains(i) && goes_by(
            i,
            exchange,
            symbol,
            kind,
        ),
        known_by(instruments, exchange, symbol, kind) is None ==> forall|j: int|
            0 <= j < instruments.len() ==> !goes_by(#[trigger] instruments[j], exchange, symbol, kind),
    decreases instruments.len(),
{
    if instruments.len() > 0 {
        let front = instruments.drop_last();
        known_goes_by(front, exchange, symbol, kind);
        match known_by(front, exchange, symbol, kind) {
            Some(i) => {
                let at = choose|at: int| 0 <= at < front.len() && front[at] == i;
                assert(instruments[at] == i);
            },
            None => {
                assert forall|j: int| 0 <= j < instruments.len() && known_by(instruments, exchange, symbol, kind) is None
                    implies !goes_by(#[trigger] instruments[j], exchange, symbol, kind) by {
                    if j < front.len() {
                        assert(front[j] == instruments[j]);
                    }
                }
                assert(instruments[instruments.len() - 1] == instruments.last());
            },
        }
    }
}

/// An instrument whose key is new comes last, and nothing else changes.
pub proof fn new_key_comes_last(instruments: Seq<Instrument>, instrument: Instrument)
    requires
        !has_key(instruments, instrument.key),
    ensures
        registered(instruments, instrument) == instruments.push(instrument),
{
    absent_key_drops_nothing(instruments, instrument.key);
}

/// Dropping a key that no instrument has changes nothing.
proof fn absent_key_drops_nothing(instruments: Seq<Instrument>, key: InstrumentKey)
    requires
        !has_key(instruments, key),
    ensures
        without_key(instruments, key) == instruments,
    decreases instruments.len(),
{
    reveal(Seq::filter);
    if instruments.len() > 0 {
        let front = instruments.drop_last();
        assert forall|i: int| 0 <= i < front.len() implies (#[trigger] front[i]).key != key by {
            assert(instruments[i].key != key);
        }
        absent_key_drops_nothing(front, key);
        assert(instruments[instruments.len() - 1].key != key);
        assert(front.push(instruments.last()) =~= instruments);
    }
}

/// Dropping a key keeps the others, in order, and keeps keys distinct.
pub proof fn without_key_keeps_others(instruments: Seq<Instrument>, key: InstrumentKey)
    requires
        keys_distinct(instruments),
    ensures
        keys_distinct(without_key(instruments, key)),
        !has_key(without_key(instruments, key), key),
        forall|k: InstrumentKey| k != key ==> has_key(without_key(instruments, key), k) == has_key(instruments, k),
        forall|x: Instrument| #[trigger]
            without_key(instruments, key).contains(x) <==> instruments.contains(x) && x.key != key,
    decreases instruments.len(),
{
    reveal(Seq::filter);
    let kept = without_key(instruments, key);
    if instruments.len() > 0 {
        let front = instruments.drop_last();
        let last = instruments.last();
        without_key_keeps_others(front, key);
        let kept_front = without_key(front, key);
        assert forall|x: Instrument| #[trigger] kept.contains(x) <==> instruments.contains(x) && x.key != key by {
            assert(instruments =~= front.push(last));
            if kept.contains(x) {
                let i = choose|i: int| 0 <= i < kept.len() && kept[i] == x;
                if last.key != key && i == kept.len() - 1 {
                    assert(instruments[instruments.len() - 1] == x);
                } else {
                    assert(kept_front[i] == x);
                    assert(kept_front.contains(x));
                    let j = choose|j: int| 0 <= j < front.len() && front[j] == x;
                    assert(instruments[j] == x);
                }
            }
            if instruments.contains(x) && x.key != key {
                let j = choose|j: int| 0 <= j < instruments.len() && instruments[j] == x;
                if j < front.len() {
                    assert(front[j] == x);
                    assert(front.contains(x));
                    assert(kept_front.contains(x));
                    let i = choose|i: int| 0 <= i < kept_front.len() && kept_front[i] == x;
                    assert(kept[i] == x);
                } else {
                    assert(kept[kept.len() - 1] == x);
                }
            }
        }
        assert(keys_distinct(kept)) by {
            assert forall|i: int, j: int|
                #![trigger kept[i], kept[j]]
                0 <= i < j < kept.len() implies kept[i].key != kept[j].key by {
                assert(last.key != key ==> kept =~= kept_front.push(last));
                if last.key != key && j == kept.len() - 1 {
                    assert(kept_front[i] == kept[i]);
                    assert(kept_front.contains(kept[i]));
                    let k = choose|k: int| 0 <= k < front.len() && front[k] == kept[i];
                    assert(instruments[k] == kept[i]);
                    assert(instruments[instruments.len() - 1] == last);
                } else {
                    assert(kept_front[i] == kept[i] && kept_front[j] == kept[j]);
                }
            }
        }
    }
    assert(!has_key(kept, key)) by {
        assert forall|i: int| 0 <= i < kept.len() implies (#[trigger] kept[i]).key != key by {
            assert(kept.contains(kept[i]));
        }
    }
    assert forall|k: InstrumentKey| k != key implies has_key(kept, k) == has_key(instruments, k) by {
        if has_key(kept, k) {
            let i = choose|i: int| 0 <= i < kept.len() && (#[trigger] kept[i]).key == k;
            assert(kept.contains(kept[i]));
            let j = choose|j: int| 0 <= j < instruments.len() && instruments[j] == kept[i];
            assert(instruments[j].key == k);
        }
        if has_key(instruments, k) {
            let j = choose|j: int| 0 <= j < instruments.len() && (#[trigger] instruments[j]).key == k;
            assert(instruments.contains(instruments[j]));
            assert(kept.contains(instruments[j]));
            let i = choose|i: int| 0 <= i < kept.len() && kept[i] == instruments[j];
            assert(kept[i].key == k);
        }
    }
}

/// With distinct keys at most one instrument leaves with a key.
pub proof fn length_without_key(instruments: Seq<Instrument>, key: InstrumentKey)
    requires
        keys_distinct(instruments),
    ensures
        without_key(instruments, key).len() == instruments.len() - (if has_key(instruments, key) {
            1int
        } else {
            0
        }),
    decreases instruments.len(),
{
    reveal(Seq::filter);
    if instruments.len() > 0 {
        let front = instruments.drop_last();
        assert(keys_distinct(front)) by {
            assert forall|i: int, j: int|
                #![trigger front[i], front[j]]
                0 <= i < j < front.len() implies front[i].key != front[j].key by {
                assert(instruments[i].key != instruments[j].key);
            }
        }
        length_without_key(front, key);
        if has_key(front, key) {
            let i = choose|i: int| 0 <= i < front.len() && (#[trigger] front[i]).key == key;
            assert(instruments[i].key == key);
            assert(instruments[instruments.len() - 1].key != key);
        } else if instruments.last().key == key {
            assert(instruments[instruments.len() - 1].key == key);
        } else {
            if has_key(instruments, key) {
                let i = choose|i: int| 0 <= i < instruments.len() && (#[trigger] instruments[i]).key == key;
                assert(front[i].key == key);
            }
        }
    }
}

/// With distinct keys the instrument of a key is the only one with it.
pub proof fn found_is_unique(instruments: Seq<Instrument>, x: Instrument)
    requires
        keys_distinct(instruments),
        instruments.contains(x),
    ensures
        found(instruments, x.key) == Some(x),
{
    let j = choose|j: int| 0 <= j < instruments.len() && instruments[j] == x;
    assert(instruments[j].key == x.key);
    let i = choose|i: int| 0 <= i < instruments.len() && (#[trigger] instruments[i]).key == x.key;
    assert(i == j);
}

/// What is registered is found under its key, every other key gives what it gave before, the keys
/// stay distinct, and there is one instrument more where the key is new.
pub proof fn registered_is_found(instruments: Seq<Instrument>, instrument: Instrument)
    requires
        keys_distinct(instruments),
    ensures
        keys_distinct(registered(instruments, instrument)),
        found(registered(instruments, instrument), instrument.key) == Some(instrument),
        forall|k: InstrumentKey|
            k != instrument.key ==> found(registered(instruments, instrument), k) == found(instruments, k),
        registered(instruments, instrument).len() == instruments.len() + (if has_key(instruments, instrument.key) {
            0int
        } else {
            1
        }),
{
    length_without_key(instruments, instrument.key);
    let kept = without_key(instruments, instrument.key);
    let after = registered(instruments, instrument);
    without_key_keeps_others(instruments, instrument.key);
    assert(keys_distinct(after)) by {
        assert forall|i: int, j: int|
            #![trigger after[i], after[j]]
            0 <= i < j < after.len() implies after[i].key != after[j].key by {
            assert(kept[i] == after[i]);
            if j == after.len() - 1 {
                assert(kept.contains(kept[i]));
            } else {
                assert(kept[j] == after[j]);
            }
        }
    }
    assert(after[after.len() - 1] == instrument);
    assert(after.contains(instrument));
    found_is_unique(after, instrument);
    assert forall|k: InstrumentKey| k != instrument.key implies found(after, k) == found(instruments, k) by {
        if has_key(instruments, k) {
            let j = choose|j: int| 0 <= j < instruments.len() && (#[trigger] instruments[j]).key == k;
            let x = instruments[j];
            assert(instruments.contains(x));
            found_is_unique(instruments, x);
            assert(kept.contains(x));
            let i = choose|i: int| 0 <= i < kept.len() && kept[i] == x;
            assert(after[i] == x);
            assert(after.contains(x));
            found_is_unique(after, x);
        } else {
            if has_key(after, k) {
                let i = choose|i: int| 0 <= i < after.len() && (#[trigger] after[i]).key == k;
                assert(kept[i] == after[i]);
                assert(has_key(kept, k));
            }
        }
    }
}

/// The keys stay distinct however many instruments are registered.
pub proof fn all_registered_keeps_keys_distinct(instruments: Seq<Instrument>, more: Seq<Instrument>)
    requires
        keys_distinct(instruments),
    ensures
        keys_distinct(all_registered(instruments, more)),
    decreases more.len(),
{
    if more.len() > 0 {
        all_registered_keeps_keys_distinct(instruments, more.drop_last());
        registered_is_found(all_registered(instruments, more.drop_last()), more.last());
    }
}

/// Registering an instrument twice in a row is the same as registering it once.
pub proof fn registering_twice_is_once(instruments: Seq<Instrument>, instrument: Instrument)
    requires
        keys_distinct(instruments),
    ensures
        registered(registered(instruments, instrument), instrument) == registered(instruments, instrument),
{
    reveal(Seq::filter);
    let kept = without_key(instruments, instrument.key);
    without_key_keeps_others(instruments, instrument.key);
    absent_key_drops_nothing(kept, instrument.key);
    assert(registered(instruments, instrument).drop_last() =~= kept);
}

impl InstrumentRegistry {
    #[verifier::type_invariant]
    pub open spec fn inv(self) -> bool {
        keys_distinct(self@)
    }

    /// A registry without instruments.
    pub fn new() -> (r: InstrumentRegistry)
        ensures
            r@ == Seq::<Instrument>::empty(),
    {
        InstrumentRegistry { instruments: Vec::new() }
    }

    /// Registers an instrument.
    pub fn insert(&mut self, instrument: Instrument)
        ensures
            final(self)@ == registered(old(self)@, instrument),
            found(final(self)@, instrument.key) == Some(instrument),
            forall|k: InstrumentKey| k != instrument.key ==> found(final(self)@, k) == found(old(self)@, k),
            final(self)@.len() == old(self)@.len() + (if has_key(old(self)@, instrument.key) {
                0int
            } else {
                1
            }),
    {
        proof {
            use_type_invariant(&*self);
            registered_is_found(self@, instrument);
        }
        let mut kept: Vec<Instrument> = Vec::new();
        for i in 0..self.instruments.len()
            invariant
                kept@ == without_key(self.instruments@.take(i as int), instrument.key),
        {
            proof {
                reveal(Seq::filter);
                assert(self.instruments@.take(i + 1).drop_last() =~= self.instruments@.take(i as int));
            }
            if self.instruments[i].key != instrument.key {
                kept.push(self.instruments[i].clone());
            }
        }
        assert(self.instruments@.take(self.instruments@.len() as int) =~= self.instruments@);
        kept.push(instrument);
        self.instruments = kept;
    }

    /// Registers instruments one after the other.
    pub fn insert_batch(&mut self, instruments: Vec<Instrument>)
        ensures
            final(self)@ == all_registered(old(self)@, instruments@),
    {
        for i in 0..instruments.len()
            invariant
                self@ == all_registered(old(self)@, instruments@.take(i as int)),
        {
            assert(instruments@.take(i + 1).drop_last() =~= instruments@.take(i as int));
            self.insert(instruments[i].clone());
        }
        assert(instruments@.take(instruments@.len() as int) =~= instruments@);
    }

    /// The instrument of a key.
    pub fn get(&self, key: &InstrumentKey) -> (r: Option<Instrument>)
        ensures
            r == found(self@, *key),
    {
        proof {
            use_type_invariant(self);
        }
        for i in 0..self.instruments.len()
            invariant
                keys_distinct(self@),
                forall|j: int| 0 <= j < i ==> (#[trigger] self.instruments@[j]).key != *key,
        {
            if self.instruments[i].key == *key {
                proof {
                    assert(self@.contains(self.instruments@[i as int]));
                    found_is_unique(self@, self.instruments@[i as int]);
                }
                return Some(self.instruments[i].clone());
            }
        }
        None
    }

    /// The instrument of an exchange, a pair and a kind.
    pub fn get_by_parts(&self, exchange: Exchange, pair: Pairs, instrument_type: InstrumentType) -> (r: Option<
        Instrument,
    >)
        ensures
            r == found(self@, InstrumentKey { exchange, pair, instrument_type }),
    {
        self.get(&InstrumentKey { exchange, pair, instrument_type })
    }

    /// The instruments of a pair, in the order in which they were last registered.
    pub fn get_by_pair(&self, pair: Pairs) -> (r: Vec<Instrument>)
        ensures
            r@ == self@.filter(|i: Instrument| i.key.pair == pair),
    {
        let mut out: Vec<Instrument> = Vec::new();
        for i in 0..self.instruments.len()
            invariant
                out@ == self.instruments@.take(i as int).filter(|x: Instrument| x.key.pair == pair),
        {
            proof {
                reveal(Seq::filter);
                assert(self.instruments@.take(i + 1).drop_last() =~= self.instruments@.take(i as int));
            }
            if self.instruments[i].key.pair == pair {
                out.push(self.instruments[i].clone());
            }
        }
        assert(self.instruments@.take(self.instruments@.len() as int) =~= self.instruments@);
        out
    }

    /// The instruments of an exchange, in the order in which they were last registered.
    pub fn get_by_exchange(&self, exchange: Exchange) -> (r: Vec<Instrument>)
        ensures
            r@ == self@.filter(|i: Instrument| i.key.exchange == exchange),
    {
        let mut out: Vec<Instrument> = Vec::new();
        for i in 0..self.instruments.len()
            invariant
                out@ == self.instruments@.take(i as int).filter(|x: Instrument| x.key.exchange == exchange),
        {
            proof {
                reveal(Seq::filter);
                assert(self.instruments@.take(i + 1).drop_last() =~= self.instruments@.take(i as int));
            }
            if self.instruments[i].key.exchange == exchange {
                out.push(self.instruments[i].clone());
            }
        }
        assert(self.instruments@.take(self.instruments@.len() as int) =~= self.instruments@);
        out
    }

    /// The instrument that goes by a symbol on an exchange: the one that was registered earliest,
    /// if there are several.
    pub fn get_by_exchange_symbol(&self, exchange: Exchange, symbol: &str, instrument_type: InstrumentType) -> (r:
        Option<Instrument>)
        ensures
            r == known_by(self@, exchange, symbol@, instrument_type),
    {
        for i in 0..self.instruments.len()
            invariant
                known_by(self@.take(i as int), exchange, symbol@, instrument_type) is None,
        {
            let x = &self.instruments[i];
            assert(self@.take(i + 1).drop_last() =~= self@.take(i as int));
            if x.key.exchange == exchange && x.key.instrument_type == instrument_type && same(
                x.exchange_symbol.as_str(),
                symbol,
            ) {
                proof {
                    known_stays_known(self@, i + 1, exchange, symbol@, instrument_type);
                }
                return Some(x.clone());
            }
        }
        assert(self@.take(self@.len() as int) =~= self@);
        None
    }

    /// All instruments, in the order in which they were last registered.
    pub fn get_all(&self) -> (r: Vec<Instrument>)
        ensures
            r@ == self@,
    {
        let mut out: Vec<Instrument> = Vec::new();
        for i in 0..self.instruments.len()
            invariant
                out@ == self.instruments@.take(i as int),
        {
            out.push(self.instruments[i].clone());
            assert(self.instruments@.take(i as int).push(self.instruments@[i as int]) =~= self.instruments@.take(i + 1));
        }
        assert(self.instruments@.take(self.instruments@.len() as int) =~= self.instruments@);
        out
    }

    pub fn contains(&self, key: &InstrumentKey) -> (r: bool)
        ensures
            r == has_key(self@, *key),
    {
        self.get(key).is_some()
    }

    pub fn len(&self) -> (r: usize)
        ensures
            r == self@.len(),
    {
        self.instruments.len()
    }

    pub fn is_empty(&self) -> (r: bool)
        ensures
            r == (self@.len() == 0),
    {
        self.len() == 0
    }

    /// Forgets all instruments.
    pub fn clear(&mut self)
        ensures
            final(self)@ == Seq::<Instrument>::empty(),
    {
        self.instruments = Vec::new();
    }
}

} // verus!

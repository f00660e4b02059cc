//! Weighted tables: which values can be drawn, and how often.

use crate::random::sample_index;
use crate::random::total_weight;
use crate::random::weighted_index;
use crate::random::WeightedError;
use crate::random::WeightedIndex;
use vstd::prelude::*;

verus! {

/// How often a value is drawn relative to the others. A weight of zero keeps
/// the value in the table without ever letting it be drawn.
pub type Weight = u32;

/// What a value needs to serve as the key of a weighted table: an identity
/// that can be compared.
pub trait WeightKey: Sized {
    /// The mathematical identity of a key. Two keys with the same identity
    /// share one entry of a table.
    type Id;

    spec fn id(&self) -> Self::Id;

    fn same_key(&self, other: &Self) -> (same: bool)
        ensures
            same == (self.id() == other.id()),
    ;
}

impl WeightKey for String {
    type Id = Seq<char>;

    open spec fn id(&self) -> Seq<char> {
        self@
    }

    fn same_key(&self, other: &Self) -> (same: bool) {
        *self == *other
    }
}

/// One row of a table.
#[derive(Debug)]
struct Entry<K> {
    key: K,
    weight: Weight,
}

/// A table from keys to weights. No two rows share a key identity; rows keep
/// the order in which their keys first arrived.
#[derive(Debug)]
pub struct WeightMap<K: WeightKey> {
    entries: Vec<Entry<K>>,
}

/// The rows of a table as plain values: the keys, and the weight of each.
pub struct TableView<K> {
    pub keys: Seq<K>,
    pub weights: Seq<Weight>,
}

impl<K> TableView<K> {
    /// Whether a draw from the rows can give `key`: it stands in a row whose
    /// weight is positive.
    pub open spec fn offers(&self, key: K) -> bool {
        exists|i: int|
            0 <= i < self.keys.len() && #[trigger] self.keys[i] == key && self.weights[i] > 0
    }

    /// Whether the rows can be drawn from.
    pub open spec fn drawable(&self) -> bool {
        drawable(self.weights)
    }
}

/// Whether no two keys of the sequence share an identity.
pub open spec fn distinct_keys<K: WeightKey>(keys: Seq<K>) -> bool {
    forall|i: int, j: int|
        0 <= i < keys.len() && 0 <= j < keys.len() && (#[trigger] keys[i]).id() == (
        #[trigger] keys[j]).id() ==> i == j
}

/// Whether some key of the sequence has the identity `id`.
pub open spec fn holds_key<K: WeightKey>(keys: Seq<K>, id: K::Id) -> bool {
    exists|i: int| 0 <= i < keys.len() && (#[trigger] keys[i]).id() == id
}

/// The row at which the identity `id` stands; meaningful where `holds_key`.
pub open spec fn row_of<K: WeightKey>(keys: Seq<K>, id: K::Id) -> int {
    choose|i: int| 0 <= i < keys.len() && (#[trigger] keys[i]).id() == id
}

/// The table as a map from key identities to weights.
pub open spec fn table<K: WeightKey>(keys: Seq<K>, weights: Seq<Weight>) -> Map<K::Id, Weight> {
    Map::new(|id: K::Id| holds_key(keys, id), |id: K::Id| weights[row_of(keys, id)])
}

/// The sum of two weights, held at the largest weight where it would pass it.
pub open spec fn joined_weight(a: Weight, b: Weight) -> Weight {
    if a + b > Weight::MAX {
        Weight::MAX
    } else {
        (a + b) as Weight
    }
}

/// Two tables merged: every key of either, and where both hold a key, the
/// joined weight.
pub open spec fn merged<I>(a: Map<I, Weight>, b: Map<I, Weight>) -> Map<I, Weight> {
    Map::new(
        |id: I| a.dom().contains(id) || b.dom().contains(id),
        |id: I|
            if a.dom().contains(id) && b.dom().contains(id) {
                joined_weight(a[id], b[id])
            } else if a.dom().contains(id) {
                a[id]
            } else {
                b[id]
            },
    )
}

/// The rows after `weight` is stored for `key`: the row of the key keeps
/// its key and gets the weight, and a key that has no row gets one at the
/// end.
pub open spec fn with_stored<K: WeightKey>(rows: TableView<K>, key: K, weight: Weight) -> TableView<
    K,
> {
    if holds_key(rows.keys, key.id()) {
        TableView {
            keys: rows.keys,
            weights: rows.weights.update(row_of(rows.keys, key.id()), weight),
        }
    } else {
        TableView { keys: rows.keys.push(key), weights: rows.weights.push(weight) }
    }
}

/// The rows after `weight` is added to what they hold for `key`: the row of
/// the key gets the joined weight, and a key that has no row gets one at
/// the end.
pub open spec fn with_added<K: WeightKey>(rows: TableView<K>, key: K, weight: Weight) -> TableView<
    K,
> {
    if holds_key(rows.keys, key.id()) {
        let row = row_of(rows.keys, key.id());
        TableView {
            keys: rows.keys,
            weights: rows.weights.update(row, joined_weight(rows.weights[row], weight)),
        }
    } else {
        TableView { keys: rows.keys.push(key), weights: rows.weights.push(weight) }
    }
}

/// The rows of `a` after the rows of `b` are added to them one by one.
pub open spec fn merged_rows<K: WeightKey>(a: TableView<K>, b: TableView<K>) -> TableView<K>
    decreases b.keys.len(),
{
    if b.keys.len() == 0 {
        a
    } else {
        with_added(
            merged_rows(a, TableView { keys: b.keys.drop_last(), weights: b.weights.drop_last() }),
            b.keys.last(),
            b.weights.last(),
        )
    }
}

/// Whether a list of weights can be drawn from: it is not empty, some weight
/// is positive, and the weights sum to no more than the largest weight.
pub open spec fn drawable(weights: Seq<Weight>) -> bool {
    weights.len() > 0 && 0 < total_weight(weights) <= Weight::MAX
}

/// The error that stands in the way of drawing from a list of weights.
pub open spec fn draw_error(weights: Seq<Weight>) -> WeightedError {
    if weights.len() == 0 {
        WeightedError::NoItem
    } else if total_weight(weights) > Weight::MAX {
        WeightedError::InvalidWeight
    } else {
        WeightedError::AllWeightsZero
    }
}

pub proof fn lemma_total_weight_push(weights: Seq<Weight>, weight: Weight)
    ensures
        total_weight(weights.push(weight)) == total_weight(weights) + weight,
{
    assert(weights.push(weight).drop_last() =~= weights);
}

/// A positive weight makes the total positive, and the total is at least
/// every single weight.
pub proof fn lemma_total_weight_bounds(weights: Seq<Weight>, i: int)
    requires
        0 <= i < weights.len(),
    ensures
        total_weight(weights) >= weights[i],
    decreases weights.len(),
{
    if i < weights.len() - 1 {
        lemma_total_weight_bounds(weights.drop_last(), i);
    }
}

/// The total of a prefix never exceeds the total of the whole list.
pub proof fn lemma_total_weight_prefix(weights: Seq<Weight>, n: int)
    requires
        0 <= n <= weights.len(),
    ensures
        total_weight(weights.take(n)) <= total_weight(weights),
    decreases weights.len(),
{
    if n == weights.len() {
        assert(weights.take(n) =~= weights);
    } else {
        lemma_total_weight_prefix(weights.drop_last(), n);
        assert(weights.drop_last().take(n) =~= weights.take(n));
    }
}

/// Sums `weights`, giving up as soon as the sum passes the largest weight.
pub fn checked_total(weights: &Vec<Weight>) -> (total: Option<Weight>)
    ensures
        match total {
            Some(sum) => sum == total_weight(weights@),
            None => total_weight(weights@) > Weight::MAX,
        },
{
    let mut sum: Weight = 0;
    let mut i: usize = 0;
    while i < weights.len()
        invariant
            i <= weights.len(),
            sum == total_weight(weights@.take(i as int)),
        decreases weights.len() - i,
    {
        proof {
            assert(weights@.take(i as int + 1) =~= weights@.take(i as int).push(weights@[i as int]));
            lemma_total_weight_push(weights@.take(i as int), weights@[i as int]);
        }
        match sum.checked_add(weights[i]) {
            Some(next) => {
                sum = next;
            },
            None => {
                proof {
                    lemma_total_weight_prefix(weights@, i as int + 1);
                }
                return None;
            },
        }
        i += 1;
    }
    proof {
        assert(weights@.take(i as int) =~= weights@);
    }
    Some(sum)
}

/// Builds the distribution over the rows of a list of weights.
///
/// Succeeds exactly on a drawable list; otherwise names what is wrong.
pub fn distribution_of(weights: &Vec<Weight>) -> (made: Result<WeightedIndex, WeightedError>)
    ensures
        match made {
            Ok(distribution) => drawable(weights@) && crate::random::distribution_weights(
                distribution,
            ) == weights@,
            Err(error) => !drawable(weights@) && error == draw_error(weights@),
        },
{
    match checked_total(weights) {
        None => {
            if weights.len() == 0 {
                Err(WeightedError::NoItem)
            } else {
                Err(WeightedError::InvalidWeight)
            }
        },
        Some(_) => weighted_index(weights),
    }
}

impl<K: WeightKey> WeightMap<K> {
    /// The keys of the table, row by row.
    pub closed spec fn key_seq(&self) -> Seq<K> {
        self.entries@.map_values(|e: Entry<K>| e.key)
    }

    /// The weights of the table, row by row.
    pub closed spec fn weight_seq(&self) -> Seq<Weight> {
        self.entries@.map_values(|e: Entry<K>| e.weight)
    }

    #[verifier::type_invariant]
    closed spec fn well_formed(&self) -> bool {
        distinct_keys(self.key_seq())
    }

    /// The rows of the table.
    pub open spec fn rows(&self) -> TableView<K> {
        TableView { keys: self.key_seq(), weights: self.weight_seq() }
    }

    /// Every table holds one weight per key.
    pub proof fn lemma_one_weight_per_key(&self)
        ensures
            self.key_seq().len() == self.weight_seq().len(),
    {
    }

    /// An empty table.
    pub fn new() -> (made: Self)
        ensures
            made.key_seq() == Seq::<K>::empty(),
            made.weight_seq() == Seq::<Weight>::empty(),
            made@ == Map::<K::Id, Weight>::empty(),
    {
        let made = WeightMap { entries: Vec::new() };
        assert(made.key_seq() =~= Seq::<K>::empty());
        assert(made.weight_seq() =~= Seq::<Weight>::empty());
        assert(made@ =~= Map::<K::Id, Weight>::empty());
        made
    }

    /// The number of rows.
    pub fn len(&self) -> (rows: usize)
        ensures
            rows == self.key_seq().len(),
            rows == self.weight_seq().len(),
            rows == self@.dom().len(),
            distinct_keys(self.key_seq()),
    {
        proof {
            use_type_invariant(self);
            lemma_table_size(self.key_seq(), self.weight_seq());
        }
        self.entries.len()
    }

    /// Whether the table has no row.
    pub fn is_empty(&self) -> (empty: bool)
        ensures
            empty == (self.key_seq().len() == 0),
    {
        self.entries.len() == 0
    }

    fn find(&self, key: &K) -> (row: Option<usize>)
        ensures
            match row {
                Some(i) => i < self.key_seq().len() && self.key_seq()[i as int].id() == key.id(),
                None => !holds_key(self.key_seq(), key.id()),
            },
    {
        let mut i: usize = 0;
        while i < self.entries.len()
            invariant
                i <= self.entries.len(),
                forall|j: int| 0 <= j < i ==> (#[trigger] self.key_seq()[j]).id() != key.id(),
            decreases self.entries.len() - i,
        {
            if self.entries[i].key.same_key(key) {
                return Some(i);
            }
            i += 1;
        }
        None
    }

    /// The weight stored for the key, if the table holds it.
    pub fn get(&self, key: &K) -> (found: Option<&Weight>)
        ensures
            found is Some <==> self@.dom().contains(key.id()),
            found matches Some(weight) ==> *weight == self@[key.id()],
    {
        proof {
            use_type_invariant(self);
        }
        match self.find(key) {
            Some(i) => {
                proof {
                    lemma_table_row(self.key_seq(), self.weight_seq(), i as int);
                }
                Some(&self.entries[i].weight)
            },
            None => None,
        }
    }
}

impl<K: WeightKey> WeightMap<K> {
    /// Stores `weight` for `key`. A key the table already holds keeps its row
    /// and gets the new weight; a new key gets a row at the end. Returns the
    /// weight that was stored before, if any.
    pub fn insert(&mut self, key: K, weight: Weight) -> (previous: Option<Weight>)
        ensures
            final(self)@ == old(self)@.insert(key.id(), weight),
            previous == if old(self)@.dom().contains(key.id()) {
                Some(old(self)@[key.id()])
            } else {
                None
            },
            !old(self)@.dom().contains(key.id()) ==> final(self).key_seq() == old(
                self,
            ).key_seq().push(key) && final(self).weight_seq() == old(self).weight_seq().push(
                weight,
            ),
            old(self)@.dom().contains(key.id()) ==> final(self).key_seq() == old(self).key_seq()
                && final(self).weight_seq() == old(self).weight_seq().update(
                row_of(old(self).key_seq(), key.id()),
                weight,
            ),
            final(self).rows() == with_stored(old(self).rows(), key, weight),
    {
        proof {
            use_type_invariant(&*self);
        }
        let found = self.find(&key);
        let ghost keys = self.key_seq();
        let ghost weights = self.weight_seq();
        let mut entries: Vec<Entry<K>> = Vec::new();
        std::mem::swap(&mut entries, &mut self.entries);
        match found {
            Some(i) => {
                let previous = entries[i].weight;
                entries[i].weight = weight;
                proof {
                    assert(entries@.map_values(|e: Entry<K>| e.key) =~= keys);
                }
                self.entries = entries;
                proof {
                    lemma_table_row(keys, weights, i as int);
                    assert(self.key_seq() =~= keys);
                    assert(self.weight_seq() =~= weights.update(i as int, weight));
                    lemma_table_update(keys, weights, i as int, weight);
                }
                Some(previous)
            },
            None => {
                let ghost id = key.id();
                entries.push(Entry { key, weight });
                proof {
                    assert(entries@.map_values(|e: Entry<K>| e.key) =~= keys.push(key));
                    lemma_table_push(keys, weights, key, weight);
                }
                self.entries = entries;
                proof {
                    assert(self.key_seq() =~= keys.push(key));
                    assert(self.weight_seq() =~= weights.push(weight));
                    lemma_table_push(keys, weights, key, weight);
                }
                None
            },
        }
    }
}

impl<K: WeightKey> WeightMap<K> {
    /// Adds `weight` to what the table holds for `key`; the sum is held at the
    /// largest weight. A key the table does not hold yet starts from nothing.
    pub fn add_weight(&mut self, key: K, weight: Weight)
        ensures
            final(self)@ == old(self)@.insert(
                key.id(),
                if old(self)@.dom().contains(key.id()) {
                    joined_weight(old(self)@[key.id()], weight)
                } else {
                    weight
                },
            ),
            final(self).rows() == with_added(old(self).rows(), key, weight),
    {
        proof {
            use_type_invariant(&*self);
            if holds_key(self.key_seq(), key.id()) {
                lemma_table_row(
                    self.key_seq(),
                    self.weight_seq(),
                    row_of(self.key_seq(), key.id()),
                );
            }
        }
        let joined = match self.get(&key) {
            Some(stored) => stored.saturating_add(weight),
            None => weight,
        };
        self.insert(key, joined);
    }

    /// Merges the rows of `other` into this table: a key that both hold gets
    /// the joined weight, a key that only `other` holds gets a row of its own.
    pub fn extend(&mut self, other: WeightMap<K>)
        ensures
            final(self)@ == merged(old(self)@, other@),
            final(self).rows() == merged_rows(old(self).rows(), other.rows()),
    {
        proof {
            use_type_invariant(&other);
        }
        let ghost keys = other.key_seq();
        let ghost weights = other.weight_seq();
        let rest = other.entries;
        proof {
            assert(keys.take(0) =~= Seq::<K>::empty());
            assert(table(keys.take(0), weights.take(0)) =~= Map::<K::Id, Weight>::empty());
            assert(self@ =~= merged(self@, Map::<K::Id, Weight>::empty()));
        }
        for entry in iter: rest
            invariant
                keys == rest@.map_values(|e: Entry<K>| e.key),
                weights == rest@.map_values(|e: Entry<K>| e.weight),
                iter.seq() == rest@,
                distinct_keys(keys),
                self@ == merged(
                    old(self)@,
                    table(keys.take(iter.index() as int), weights.take(iter.index() as int)),
                ),
                self.rows() == merged_rows(
                    old(self).rows(),
                    TableView {
                        keys: keys.take(iter.index() as int),
                        weights: weights.take(iter.index() as int),
                    },
                ),
        {
            let ghost n = iter.index() as int;
            proof {
                lemma_table_take(keys, weights, n);
            }
            self.add_weight(entry.key, entry.weight);
            proof {
                let before = table(keys.take(n), weights.take(n));
                let after = table(keys.take(n + 1), weights.take(n + 1));
                assert(after == before.insert(keys[n].id(), weights[n]));
                assert(!before.dom().contains(keys[n].id()));
                assert(self@ =~= merged(old(self)@, after));
                assert(keys.take(n + 1).drop_last() =~= keys.take(n));
                assert(weights.take(n + 1).drop_last() =~= weights.take(n));
            }
        }
        proof {
            assert(keys.take(keys.len() as int) =~= keys);
            assert(weights.take(keys.len() as int) =~= weights);
        }
    }
}

/// The table of the first `n + 1` rows is the table of the first `n` rows
/// with row `n` added, and row `n`'s key is new to it.
pub proof fn lemma_table_take<K: WeightKey>(keys: Seq<K>, weights: Seq<Weight>, n: int)
    requires
        distinct_keys(keys),
        keys.len() == weights.len(),
        0 <= n < keys.len(),
    ensures
        distinct_keys(keys.take(n)),
        !table(keys.take(n), weights.take(n)).dom().contains(keys[n].id()),
        table(keys.take(n + 1), weights.take(n + 1)) == table(keys.take(n), weights.take(n)).insert(
            keys[n].id(),
            weights[n],
        ),
{
    let front = keys.take(n);
    assert(distinct_keys(front)) by {
        assert forall|i: int, j: int|
            0 <= i < front.len() && 0 <= j < front.len() && (#[trigger] front[i]).id() == (
            #[trigger] front[j]).id() implies i == j by {
            assert(keys[i].id() == keys[j].id());
        }
    }
    assert(!holds_key(front, keys[n].id())) by {
        if holds_key(front, keys[n].id()) {
            let r = row_of(front, keys[n].id());
            assert(keys[r].id() == keys[n].id());
        }
    }
    assert(keys.take(n + 1) =~= front.push(keys[n]));
    assert(weights.take(n + 1) =~= weights.take(n).push(weights[n]));
    lemma_table_push(front, weights.take(n), keys[n], weights[n]);
}

/// Whether `weight` is what a row weighs in a draw under the override
/// function: the weight the function names for its key, or the stored one
/// where the function names none.
pub open spec fn weight_under<K: WeightKey, F: Fn(&K) -> Option<Weight>>(
    modify: F,
    key: K,
    stored: Weight,
    weight: Weight,
) -> bool {
    call_ensures(modify, (&key,), Some(weight)) || (call_ensures(modify, (&key,), None::<Weight>)
        && weight == stored)
}

/// Whether `weights` weighs every row of the table under the override function.
pub open spec fn weights_under<K: WeightKey, F: Fn(&K) -> Option<Weight>>(
    modify: F,
    keys: Seq<K>,
    stored: Seq<Weight>,
    weights: Seq<Weight>,
) -> bool {
    &&& weights.len() == keys.len()
    &&& forall|i: int|
        0 <= i < keys.len() ==> weight_under(modify, keys[i], stored[i], #[trigger] weights[i])
}

impl<K: WeightKey> WeightMap<K> {
    /// The keys, row by row.
    pub fn keys(&self) -> (keys: Vec<&K>)
        ensures
            keys@.len() == self.key_seq().len(),
            forall|i: int| 0 <= i < keys@.len() ==> *(#[trigger] keys@[i]) == self.key_seq()[i],
    {
        let mut keys: Vec<&K> = Vec::new();
        let mut i: usize = 0;
        while i < self.entries.len()
            invariant
                i <= self.entries.len(),
                keys@.len() == i,
                forall|j: int| 0 <= j < i ==> *(#[trigger] keys@[j]) == self.key_seq()[j],
            decreases self.entries.len() - i,
        {
            keys.push(&self.entries[i].key);
            i += 1;
        }
        keys
    }

    /// The weights, row by row.
    pub fn values(&self) -> (weights: Vec<Weight>)
        ensures
            weights@ == self.weight_seq(),
    {
        let mut weights: Vec<Weight> = Vec::new();
        let mut i: usize = 0;
        while i < self.entries.len()
            invariant
                i <= self.entries.len(),
                weights@ == self.weight_seq().take(i as int),
            decreases self.entries.len() - i,
        {
            weights.push(self.entries[i].weight);
            proof {
                assert(self.weight_seq().take(i as int + 1) =~= self.weight_seq().take(
                    i as int,
                ).push(self.weight_seq()[i as int]));
            }
            i += 1;
        }
        proof {
            assert(self.weight_seq().take(i as int) =~= self.weight_seq());
        }
        weights
    }

    /// The rows: each key with its weight.
    pub fn iter(&self) -> (rows: Vec<(&K, Weight)>)
        ensures
            rows@.len() == self.key_seq().len(),
            forall|i: int|
                0 <= i < rows@.len() ==> *(#[trigger] rows@[i]).0 == self.key_seq()[i] && rows@[i].1
                    == self.weight_seq()[i],
    {
        let mut rows: Vec<(&K, Weight)> = Vec::new();
        let mut i: usize = 0;
        while i < self.entries.len()
            invariant
                i <= self.entries.len(),
                rows@.len() == i,
                forall|j: int|
                    0 <= j < i ==> *(#[trigger] rows@[j]).0 == self.key_seq()[j] && rows@[j].1
                        == self.weight_seq()[j],
            decreases self.entries.len() - i,
        {
            rows.push((&self.entries[i].key, self.entries[i].weight));
            i += 1;
        }
        rows
    }

    /// The keys, row by row, taken out of the table.
    pub fn into_keys(self) -> (keys: Vec<K>)
        ensures
            keys@ == self.key_seq(),
    {
        let ghost all = self.key_seq();
        let rest = self.entries;
        let mut keys: Vec<K> = Vec::new();
        for entry in iter: rest
            invariant
                all == rest@.map_values(|e: Entry<K>| e.key),
                iter.seq() == rest@,
                keys@ == all.take(iter.index() as int),
        {
            proof {
                assert(all.take(iter.index() as int + 1) =~= all.take(iter.index() as int).push(
                    all[iter.index() as int],
                ));
            }
            keys.push(entry.key);
        }
        proof {
            assert(all.take(all.len() as int) =~= all);
        }
        keys
    }

    /// The weights, row by row, taken out of the table.
    pub fn into_values(self) -> (weights: Vec<Weight>)
        ensures
            weights@ == self.weight_seq(),
    {
        self.values()
    }

    /// Builds a table from rows, first to last. A key that comes again
    /// replaces the weight that was stored for it; the row and the key that
    /// came first stay.
    pub fn from_pairs(pairs: Vec<(K, Weight)>) -> (made: Self)
        ensures
            made.rows() == pairs_rows(pairs@),
            made@ == pairs_table(pairs@),
    {
        let mut made = WeightMap::new();
        proof {
            assert(pairs@.take(0) =~= Seq::<(K, Weight)>::empty());
        }
        for pair in iter: pairs
            invariant
                iter.seq() == pairs@,
                made.rows() == pairs_rows(pairs@.take(iter.index() as int)),
                made@ == pairs_table(pairs@.take(iter.index() as int)),
        {
            proof {
                assert(pairs@.take(iter.index() as int + 1).drop_last() =~= pairs@.take(
                    iter.index() as int,
                ));
            }
            made.insert(pair.0, pair.1);
        }
        proof {
            assert(pairs@.take(pairs@.len() as int) =~= pairs@);
        }
        made
    }

    /// Splits the table for a draw: the keys row by row, and the distribution
    /// over the rows in which each row weighs what `modify_weight_function`
    /// names for its key, or its stored weight where the function names none.
    /// The table itself is left as it is.
    pub fn split_weights_with_modifications<F: Fn(&K) -> Option<Weight>>(
        &self,
        modify_weight_function: F,
    ) -> (split: Result<(Vec<&K>, WeightedIndex), WeightedError>)
        requires
            forall|i: int|
                0 <= i < self.key_seq().len() ==> call_requires(
                    modify_weight_function,
                    (&#[trigger] self.key_seq()[i],),
                ),
        ensures
            match split {
                Ok((values, distribution)) => {
                    &&& values@.len() == self.key_seq().len()
                    &&& forall|i: int|
                        0 <= i < values@.len() ==> *(#[trigger] values@[i]) == self.key_seq()[i]
                    &&& drawable(crate::random::distribution_weights(distribution))
                    &&& weights_under(
                        modify_weight_function,
                        self.key_seq(),
                        self.weight_seq(),
                        crate::random::distribution_weights(distribution),
                    )
                },
                Err(error) => exists|weights: Seq<Weight>|
                    weights_under(
                        modify_weight_function,
                        self.key_seq(),
                        self.weight_seq(),
                        weights,
                    ) && !drawable(weights) && error == draw_error(weights),
            },
    {
        let mut weights: Vec<Weight> = Vec::new();
        let mut values: Vec<&K> = Vec::new();
        let mut i: usize = 0;
        while i < self.entries.len()
            invariant
                i <= self.entries.len(),
                values@.len() == i,
                weights@.len() == i,
                forall|k: int|
                    0 <= k < self.key_seq().len() ==> call_requires(
                        modify_weight_function,
                        (&#[trigger] self.key_seq()[k],),
                    ),
                forall|j: int| 0 <= j < i ==> *(#[trigger] values@[j]) == self.key_seq()[j],
                forall|j: int|
                    0 <= j < i ==> weight_under(
                        modify_weight_function,
                        self.key_seq()[j],
                        self.weight_seq()[j],
                        #[trigger] weights@[j],
                    ),
            decreases self.entries.len() - i,
        {
            let value = &self.entries[i].key;
            assert(*value == self.key_seq()[i as int]);
            values.push(value);
            match modify_weight_function(value) {
                Some(new_weight) => weights.push(new_weight),
                None => weights.push(self.entries[i].weight),
            }
            i += 1;
        }
        match distribution_of(&weights) {
            Ok(distribution) => Ok((values, distribution)),
            Err(error) => Err(error),
        }
    }

    /// Splits the table for a draw: the keys row by row, and the distribution
    /// over the rows by their stored weights.
    pub fn split_weights(&self) -> (split: Result<(Vec<&K>, WeightedIndex), WeightedError>)
        ensures
            match split {
                Ok((values, distribution)) => {
                    &&& drawable(self.weight_seq())
                    &&& values@.len() == self.key_seq().len()
                    &&& forall|i: int|
                        0 <= i < values@.len() ==> *(#[trigger] values@[i]) == self.key_seq()[i]
                    &&& crate::random::distribution_weights(distribution) == self.weight_seq()
                },
                Err(error) => !drawable(self.weight_seq()) && error == draw_error(
                    self.weight_seq(),
                ),
            },
    {
        let keep = |key: &K| -> (named: Option<Weight>)
            ensures
                named is None,
            { None };
        let split = self.split_weights_with_modifications(keep);
        proof {
            assert forall|weights: Seq<Weight>|
                weights_under(keep, self.key_seq(), self.weight_seq(), weights) implies weights
                == self.weight_seq() by {
                assert forall|i: int| 0 <= i < weights.len() implies weights[i]
                    == self.weight_seq()[i] by {
                    assert(weight_under(keep, self.key_seq()[i], self.weight_seq()[i], weights[i]));
                }
                assert(weights =~= self.weight_seq());
            }
        }
        split
    }

    /// Draws one key of the table, each with a chance proportional to its weight.
    ///
    /// Succeeds exactly on a drawable table. The key drawn stands in a row of
    /// the table, and that row's weight is positive.
    pub fn draw(&self, rng: &mut rand::rngs::StdRng) -> (drawn: Result<&K, WeightedError>)
        ensures
            match drawn {
                Ok(key) => drawable(self.weight_seq()) && self.rows().offers(*key),
                Err(error) => !drawable(self.weight_seq()) && error == draw_error(
                    self.weight_seq(),
                ),
            },
    {
        match self.split_weights() {
            Ok((values, distribution)) => {
                let row = sample_index(rng, &distribution);
                proof {
                    assert(self.rows().keys[row as int] == *values@[row as int]);
                }
                Ok(values[row])
            },
            Err(error) => Err(error),
        }
    }
}

/// The weights of the rows in a draw that must not give the key `excluded`:
/// the rows of that key weigh nothing.
pub open spec fn without_key(rows: TableView<String>, excluded: Seq<char>) -> Seq<Weight> {
    Seq::new(
        rows.keys.len(),
        |i: int|
            if rows.keys[i]@ == excluded {
                0
            } else {
                rows.weights[i]
            },
    )
}

impl WeightMap<String> {
    /// Draws one key other than `excluded`, each with a chance proportional
    /// to its weight.
    ///
    /// Succeeds exactly where the rows can be drawn from once the rows of
    /// `excluded` weigh nothing.
    pub fn draw_except(&self, rng: &mut rand::rngs::StdRng, excluded: &str) -> (drawn: Result<
        &String,
        WeightedError,
    >)
        ensures
            match drawn {
                Ok(key) => drawable(without_key(self.rows(), excluded@)) && self.rows().offers(*key)
                    && key@ != excluded@,
                Err(error) => !drawable(without_key(self.rows(), excluded@)) && error
                    == draw_error(without_key(self.rows(), excluded@)),
            },
    {
        let skip = |key: &String| -> (named: Option<Weight>)
            ensures
                named == if key@ == excluded@ {
                    Some(0u32)
                } else {
                    None::<Weight>
                },
            {
                if crate::text::same_text(key.as_str(), excluded) {
                    Some(0)
                } else {
                    None
                }
            };
        let split = self.split_weights_with_modifications(skip);
        proof {
            self.lemma_one_weight_per_key();
            assert forall|weights: Seq<Weight>|
                weights_under(skip, self.key_seq(), self.weight_seq(), weights) implies weights
                == without_key(self.rows(), excluded@) by {
                assert forall|i: int| 0 <= i < weights.len() implies weights[i] == without_key(
                    self.rows(),
                    excluded@,
                )[i] by {
                    assert(weight_under(skip, self.key_seq()[i], self.weight_seq()[i], weights[i]));
                }
                assert(weights =~= without_key(self.rows(), excluded@));
            }
        }
        match split {
            Ok((values, distribution)) => {
                let row = sample_index(rng, &distribution);
                proof {
                    assert(self.rows().keys[row as int] == *values@[row as int]);
                }
                Ok(values[row])
            },
            Err(error) => Err(error),
        }
    }
}

impl<K: WeightKey + Copy> WeightMap<K> {
    /// A fresh copy of a table whose keys are plain values.
    pub fn copied(&self) -> (copy: Self)
        ensures
            copy.rows() == self.rows(),
    {
        proof {
            use_type_invariant(self);
        }
        let mut entries: Vec<Entry<K>> = Vec::new();
        let mut i: usize = 0;
        while i < self.entries.len()
            invariant
                i <= self.entries.len(),
                entries@ =~= self.entries@.take(i as int),
            decreases self.entries.len() - i,
        {
            entries.push(Entry { key: self.entries[i].key, weight: self.entries[i].weight });
            i += 1;
        }
        proof {
            assert(self.entries@.take(i as int) =~= self.entries@);
            assert(entries@.map_values(|e: Entry<K>| e.key) =~= self.key_seq());
            assert(entries@.map_values(|e: Entry<K>| e.weight) =~= self.weight_seq());
        }
        WeightMap { entries }
    }
}

impl Clone for WeightMap<String> {
    fn clone(&self) -> (copy: Self)
        ensures
            copy.rows() == self.rows(),
    {
        proof {
            use_type_invariant(self);
        }
        let mut entries: Vec<Entry<String>> = Vec::new();
        let mut i: usize = 0;
        while i < self.entries.len()
            invariant
                i <= self.entries.len(),
                entries@ =~= self.entries@.take(i as int),
            decreases self.entries.len() - i,
        {
            entries.push(Entry { key: self.entries[i].key.clone(), weight: self.entries[i].weight });
            i += 1;
        }
        proof {
            assert(self.entries@.take(i as int) =~= self.entries@);
            assert(entries@.map_values(|e: Entry<String>| e.key) =~= self.key_seq());
            assert(entries@.map_values(|e: Entry<String>| e.weight) =~= self.weight_seq());
        }
        WeightMap { entries }
    }
}

/// The rows of a table that may be absent.
pub open spec fn optional_rows<K: WeightKey>(table: Option<WeightMap<K>>) -> Option<TableView<K>> {
    match table {
        Some(table) => Some(table.rows()),
        None => None,
    }
}

/// A fresh copy of a table that may be absent.
pub fn copy_optional_table(table: &Option<WeightMap<String>>) -> (copy: Option<WeightMap<String>>)
    ensures
        optional_rows(copy) == optional_rows(*table),
{
    match table {
        Some(table) => Some(table.clone()),
        None => None,
    }
}

/// The rows that rows build up when stored first to last.
pub open spec fn pairs_rows<K: WeightKey>(pairs: Seq<(K, Weight)>) -> TableView<K>
    decreases pairs.len(),
{
    if pairs.len() == 0 {
        TableView { keys: Seq::empty(), weights: Seq::empty() }
    } else {
        with_stored(pairs_rows(pairs.drop_last()), pairs.last().0, pairs.last().1)
    }
}

/// The map that rows build up when stored first to last.
pub open spec fn pairs_table<K: WeightKey>(pairs: Seq<(K, Weight)>) -> Map<K::Id, Weight>
    decreases pairs.len(),
{
    if pairs.len() == 0 {
        Map::empty()
    } else {
        pairs_table(pairs.drop_last()).insert(pairs.last().0.id(), pairs.last().1)
    }
}

/// Merging does not depend on which table comes first.
pub proof fn lemma_merge_commutes<I>(a: Map<I, Weight>, b: Map<I, Weight>)
    ensures
        merged(a, b) == merged(b, a),
{
    assert(merged(a, b) =~= merged(b, a));
}

/// Merging three tables does not depend on which two are merged first.
pub proof fn lemma_merge_associates<I>(a: Map<I, Weight>, b: Map<I, Weight>, c: Map<I, Weight>)
    ensures
        merged(merged(a, b), c) == merged(a, merged(b, c)),
{
    assert(merged(merged(a, b), c) =~= merged(a, merged(b, c)));
}

/// A list of weights with a positive entry, whose sum the sampler can hold,
/// can be drawn from.
pub proof fn lemma_positive_weight_is_drawable(weights: Seq<Weight>, i: int)
    requires
        0 <= i < weights.len(),
        weights[i] > 0,
        total_weight(weights) <= Weight::MAX,
    ensures
        drawable(weights),
{
    lemma_total_weight_bounds(weights, i);
}

/// Changing the weight of one row changes the map at that row's key only.
pub proof fn lemma_table_update<K: WeightKey>(
    keys: Seq<K>,
    weights: Seq<Weight>,
    row: int,
    weight: Weight,
)
    requires
        distinct_keys(keys),
        keys.len() == weights.len(),
        0 <= row < keys.len(),
    ensures
        table(keys, weights.update(row, weight)) == table(keys, weights).insert(
            keys[row].id(),
            weight,
        ),
{
    let changed = table(keys, weights.update(row, weight));
    let expected = table(keys, weights).insert(keys[row].id(), weight);
    assert(changed =~= expected) by {
        assert forall|id: K::Id| changed.dom().contains(id) <==> expected.dom().contains(id) by {
            if id == keys[row].id() {
                assert(holds_key(keys, id));
            }
        }
        assert forall|id: K::Id| changed.dom().contains(id) implies changed[id] == expected[id] by {
            let r = row_of(keys, id);
            if id == keys[row].id() {
                assert(r == row);
            } else {
                assert(r != row);
            }
        }
    }
}

/// A new row under a key the table does not hold adds that key to the map.
pub proof fn lemma_table_push<K: WeightKey>(
    keys: Seq<K>,
    weights: Seq<Weight>,
    key: K,
    weight: Weight,
)
    requires
        distinct_keys(keys),
        keys.len() == weights.len(),
        !holds_key(keys, key.id()),
    ensures
        distinct_keys(keys.push(key)),
        table(keys.push(key), weights.push(weight)) == table(keys, weights).insert(
            key.id(),
            weight,
        ),
{
    let more_keys = keys.push(key);
    let more_weights = weights.push(weight);
    assert(distinct_keys(more_keys)) by {
        assert forall|i: int, j: int|
            0 <= i < more_keys.len() && 0 <= j < more_keys.len() && (#[trigger] more_keys[i]).id()
                == (#[trigger] more_keys[j]).id() implies i == j by {
            if i < keys.len() && j < keys.len() {
                assert(keys[i].id() == keys[j].id());
            } else if i < keys.len() {
                assert(keys[i].id() == key.id());
            } else if j < keys.len() {
                assert(keys[j].id() == key.id());
            }
        }
    }
    let grown = table(more_keys, more_weights);
    let expected = table(keys, weights).insert(key.id(), weight);
    assert(grown =~= expected) by {
        assert forall|id: K::Id| grown.dom().contains(id) <==> expected.dom().contains(id) by {
            if holds_key(more_keys, id) {
                let r = row_of(more_keys, id);
                if r < keys.len() {
                    assert(keys[r].id() == id);
                }
            }
            if holds_key(keys, id) {
                let r = row_of(keys, id);
                assert(more_keys[r].id() == id);
            }
            if id == key.id() {
                assert(more_keys[keys.len() as int].id() == id);
            }
        }
        assert forall|id: K::Id| grown.dom().contains(id) implies grown[id] == expected[id] by {
            let r = row_of(more_keys, id);
            if id == key.id() {
                assert(more_keys[keys.len() as int].id() == id);
                assert(r == keys.len());
            } else {
                assert(r < keys.len());
                assert(keys[r].id() == id);
                let q = row_of(keys, id);
                assert(more_keys[q].id() == id);
                assert(q == r);
            }
        }
    }
}

impl<K: WeightKey> View for WeightMap<K> {
    type V = Map<K::Id, Weight>;

    open spec fn view(&self) -> Map<K::Id, Weight> {
        table(self.key_seq(), self.weight_seq())
    }
}

/// In a table without repeated keys, each row is what the map holds for its key.
pub proof fn lemma_table_row<K: WeightKey>(keys: Seq<K>, weights: Seq<Weight>, row: int)
    requires
        distinct_keys(keys),
        0 <= row < keys.len(),
    ensures
        table(keys, weights).dom().contains(keys[row].id()),
        table(keys, weights)[keys[row].id()] == weights[row],
        row_of(keys, keys[row].id()) == row,
{
    let id = keys[row].id();
    assert(holds_key(keys, id));
    let r = row_of(keys, id);
    assert(keys[r].id() == keys[row].id());
}

/// A table without repeated keys has as many keys in its map as it has rows.
pub proof fn lemma_table_size<K: WeightKey>(keys: Seq<K>, weights: Seq<Weight>)
    requires
        distinct_keys(keys),
    ensures
        table(keys, weights).dom().finite(),
        table(keys, weights).dom().len() == keys.len(),
    decreases keys.len(),
{
    let dom = table(keys, weights).dom();
    if keys.len() == 0 {
        assert(dom =~= Set::<K::Id>::empty());
    } else {
        let front = keys.drop_last();
        let last = keys.last().id();
        assert(distinct_keys(front)) by {
            assert forall|i: int, j: int|
                0 <= i < front.len() && 0 <= j < front.len() && (#[trigger] front[i]).id() == (
                #[trigger] front[j]).id() implies i == j by {
                assert(keys[i].id() == keys[j].id());
            }
        }
        lemma_table_size(front, weights);
        let smaller = table(front, weights).dom();
        assert(!smaller.contains(last)) by {
            if holds_key(front, last) {
                let i = row_of(front, last);
                assert(keys[i].id() == keys[keys.len() - 1].id());
            }
        }
        assert(dom =~= smaller.insert(last)) by {
            assert forall|id: K::Id| dom.contains(id) <==> smaller.insert(last).contains(id) by {
                if holds_key(keys, id) {
                    let i = row_of(keys, id);
                    if i < front.len() {
                        assert(front[i].id() == id);
                    }
                }
                if holds_key(front, id) {
                    let i = row_of(front, id);
                    assert(keys[i].id() == id);
                }
                if id == last {
                    assert(keys[keys.len() - 1].id() == id);
                }
            }
        }
    }
}

} // verus!

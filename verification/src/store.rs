//! Entity stores and identifier allocators.
//!
//! A store maps identifiers to records of one kind. It keeps each record as
//! a row of a table, under the record's identifier; the row holds the other
//! fields. What a store holds, as a map from identifier to record, is its
//! view. An allocator hands out the identifiers of one kind, counting up.

use crate::listing::is_listing;
use crate::storage::{
    counter_region, counter_value, entry_views, region_number, table_region, table_rows, Counter,
    Region, Row, RowView, Table,
};
use std::marker::PhantomData;
use vstd::prelude::*;

verus! {

/// A kind of record that a store can keep.
pub trait Record: Sized + View {
    /// The identifier of a record.
    spec fn id_of(record: Self::V) -> u64;

    /// The record that a row under an identifier stands for.
    spec fn of_row(id: u64, row: RowView) -> Self::V;

    /// A record read from a row has the identifier that the row is under.
    proof fn lemma_id_of_row(id: u64, row: RowView)
        ensures
            Self::id_of(Self::of_row(id, row)) == id,
    ;

    /// The identifier of the record.
    fn id(&self) -> (id: u64)
        ensures
            id == Self::id_of(self@),
    ;

    /// The row that stands for the record.
    fn to_row(&self) -> (row: Row)
        ensures
            Self::of_row(Self::id_of(self@), row@) == self@,
    ;

    /// The record that `row` under `id` stands for.
    fn from_row(id: u64, row: &Row) -> (record: Self)
        ensures
            record@ == Self::of_row(id, row@),
    ;
}

/// A store of records of kind `R`, keyed by identifier.
pub struct Store<R: Record> {
    table: Table,
    kind: PhantomData<R>,
}

/// The records of a scan, each by its view and under its identifier.
pub open spec fn record_entries<R: Record>(records: Seq<R>) -> Seq<(u64, R::V)> {
    records.map_values(|r: R| (R::id_of(r@), r@))
}

/// A store without records.
pub open spec fn no_records<V>() -> Map<u64, V> {
    Map::empty()
}

/// What is left of `records` when every identifier below `count` is removed.
pub open spec fn without_below<V>(records: Map<u64, V>, count: u64) -> Map<u64, V> {
    Map::new(|id: u64| records.contains_key(id) && id >= count, |id: u64| records[id])
}

/// The records that the rows of a table stand for, each under the
/// identifier of its row.
pub open spec fn records_of<R: Record>(rows: Map<u64, RowView>) -> Map<u64, R::V> {
    Map::new(|id: u64| rows.contains_key(id), |id: u64| R::of_row(id, rows[id]))
}

impl<R: Record> View for Store<R> {
    type V = Map<u64, R::V>;

    closed spec fn view(&self) -> Map<u64, R::V> {
        records_of::<R>(table_rows(self.table))
    }
}

impl<R: Record> Store<R> {
    /// Every record is kept under its own identifier.
    pub proof fn lemma_keyed(&self)
        ensures
            forall|id: u64| #[trigger] self@.contains_key(id) ==> R::id_of(self@[id]) == id,
    {
        assert forall|id: u64| #[trigger] self@.contains_key(id) implies R::id_of(self@[id])
            == id by {
            R::lemma_id_of_row(id, table_rows(self.table)[id]);
        }
    }

    /// The number of the region that the store was made in.
    pub closed spec fn region(&self) -> u8 {
        table_region(self.table)
    }

    /// The store over `table`: it holds the records that the rows of the
    /// table stand for, in the region of the table.
    pub fn from_table(table: Table) -> (store: Self)
        ensures
            store@ == records_of::<R>(table_rows(table)),
            store.region() == table_region(table),
    {
        Store { table, kind: PhantomData }
    }

    /// A new, empty store in `region`. What the region held is overwritten.
    pub fn create(region: Region) -> (store: Self)
        ensures
            store@ == no_records::<R::V>(),
            store.region() == region_number(region),
    {
        let store = Store::from_table(Table::create(region));
        assert(store@ =~= no_records::<R::V>());
        store
    }

    /// The store that `region` holds, and a new one where it holds none: a
    /// store in `region`. What it holds depends on the memory alone.
    pub fn load(region: Region) -> (store: Self)
        ensures
            store.region() == region_number(region),
    {
        Store::from_table(Table::load(region))
    }

    /// The record under `id`, if there is one.
    pub fn get(&self, id: u64) -> (found: Option<R>)
        ensures
            found is Some <==> self@.contains_key(id),
            found is Some ==> found->0@ == self@[id],
    {
        match self.table.get(id) {
            Some(row) => Some(R::from_row(id, &row)),
            None => None,
        }
    }

    /// Puts `record` under its identifier, in place of what was there.
    /// Returns whether a record was there before.
    pub fn put(&mut self, record: &R) -> (replaced: bool)
        ensures
            final(self)@ == old(self)@.insert(R::id_of(record@), record@),
            replaced == old(self)@.contains_key(R::id_of(record@)),
    {
        let previous = self.table.insert(record.id(), record.to_row());
        assert(self@ =~= old(self)@.insert(R::id_of(record@), record@));
        previous.is_some()
    }

    /// Takes the record under `id` out and returns it, if there is one.
    pub fn remove(&mut self, id: u64) -> (removed: Option<R>)
        ensures
            final(self)@ == old(self)@.remove(id),
            removed is Some <==> old(self)@.contains_key(id),
            removed is Some ==> removed->0@ == old(self)@[id],
    {
        let removed = self.table.remove(id);
        assert(self@ =~= old(self)@.remove(id));
        match removed {
            Some(row) => Some(R::from_row(id, &row)),
            None => None,
        }
    }

    /// All records, by ascending identifier.
    pub fn scan(&self) -> (records: Vec<R>)
        ensures
            is_listing(record_entries(records@), self@),
    {
        let rows = self.table.entries();
        let mut records: Vec<R> = Vec::new();
        let mut i: usize = 0;
        while i < rows.len()
            invariant
                i <= rows.len(),
                records.len() == i,
                forall|j: int|
                    0 <= j < i ==> (#[trigger] records[j])@ == R::of_row(rows[j].0, rows[j].1@),
            decreases rows.len() - i,
        {
            let record = R::from_row(rows[i].0, &rows[i].1);
            records.push(record);
            i += 1;
        }
        proof {
            let listed = entry_views(rows@);
            let entries = record_entries(records@);
            let held = table_rows(self.table);
            assert forall|j: int| 0 <= j < entries.len() implies (#[trigger] entries[j]).0
                == rows[j].0 && entries[j].1 == R::of_row(rows[j].0, rows[j].1@) by {
                assert(records[j]@ == R::of_row(rows[j].0, rows[j].1@));
                R::lemma_id_of_row(rows[j].0, rows[j].1@);
            }
            assert forall|j: int| 0 <= j < entries.len() implies self@.contains_key(
                (#[trigger] entries[j]).0,
            ) && self@[entries[j].0] == entries[j].1 by {
                assert(listed[j].0 == rows[j].0);
                assert(held.contains_key(listed[j].0));
            }
            assert forall|j: int, k: int| 0 <= j < k < entries.len() implies (
            #[trigger] entries[j]).0 < (#[trigger] entries[k]).0 by {
                assert(listed[j].0 < listed[k].0);
            }
            assert forall|id: u64| #[trigger] self@.contains_key(id) implies exists|j: int|
                0 <= j < entries.len() && (#[trigger] entries[j]).0 == id by {
                assert(held.contains_key(id));
                let j = choose|j: int| 0 <= j < listed.len() && (#[trigger] listed[j]).0 == id;
                assert(entries[j].0 == id);
            }
        }
        records
    }

    /// Removes every record whose identifier is below `count`. Identifiers
    /// without a record are passed over.
    pub fn clear_up_to(&mut self, count: u64)
        ensures
            final(self)@ == without_below(old(self)@, count),
    {
        let mut id: u64 = 0;
        assert(self@ =~= without_below(old(self)@, 0));
        while id < count
            invariant
                id <= count,
                self@ == without_below(old(self)@, id),
            decreases count - id,
        {
            let ghost before = self@;
            let _ = self.remove(id);
            assert(before.remove(id) =~= without_below(old(self)@, (id + 1) as u64));
            id += 1;
        }
    }
}

/// An allocator of identifiers: a counter that only goes up.
pub struct IdAllocator {
    counter: Counter,
}

impl IdAllocator {
    /// The identifier that `next` hands out next.
    pub closed spec fn upcoming(&self) -> u64 {
        counter_value(self.counter)
    }

    /// The number of the region that the allocator was made in.
    pub closed spec fn region(&self) -> u8 {
        counter_region(self.counter)
    }

    /// The allocator over `counter`: it hands out the value of the counter
    /// next, in the region of the counter.
    pub fn from_counter(counter: Counter) -> (allocator: Self)
        ensures
            allocator.upcoming() == counter_value(counter),
            allocator.region() == counter_region(counter),
    {
        IdAllocator { counter }
    }

    /// A new allocator in `region`, which starts at 0. What the region held
    /// is overwritten.
    pub fn create(region: Region) -> (allocator: Self)
        ensures
            allocator.upcoming() == 0,
            allocator.region() == region_number(region),
    {
        IdAllocator::from_counter(Counter::create(region, 0))
    }

    /// The allocator that `region` holds, and one that starts at 0 where it
    /// holds none: an allocator in `region`. Where it stands depends on the
    /// memory alone.
    pub fn load(region: Region) -> (allocator: Self)
        ensures
            allocator.region() == region_number(region),
    {
        IdAllocator::from_counter(Counter::load(region, 0))
    }

    /// The identifier that `next` hands out next.
    pub fn current(&self) -> (id: u64)
        ensures
            id == self.upcoming(),
    {
        self.counter.get()
    }

    /// Hands out the next identifier and moves on by one.
    pub fn next(&mut self) -> (id: u64)
        requires
            old(self).upcoming() < u64::MAX,
        ensures
            id == old(self).upcoming(),
            final(self).upcoming() == id + 1,
    {
        let id = self.counter.get();
        let _ = self.counter.set(id + 1);
        id
    }
}

} // verus!

//! The boundary to the stable structures that keep the records.
//!
//! Every table is a `StableBTreeMap` from a 64-bit identifier to a row, and
//! every identifier counter a `Cell` holding one `u64`. Each lives in a region
//! of its own of the stable memory, handed out by one `MemoryManager`. Rows
//! have one shape for all tables: three text cells and three integer cells,
//! kept as tuples of types that the stable structures can store themselves.
//!
//! Nothing in this file is proved. The items below state what the stable
//! structures do, as their source shows it, and the rest of the library is
//! verified against these statements. A stable structure aborts when its
//! memory cannot grow or holds bytes it cannot read; like a failed
//! allocation, that is outside of what the contracts speak of.

use crate::listing::is_listing;
use ic_stable_structures::memory_manager::{MemoryId, MemoryManager, VirtualMemory};
use ic_stable_structures::{Cell, DefaultMemoryImpl, StableBTreeMap};
use vstd::prelude::*;

verus! {

/// A stored row: three text cells and three integer cells.
pub struct Row {
    pub t0: String,
    pub t1: String,
    pub t2: String,
    pub n0: u64,
    pub n1: u64,
    pub n2: u64,
}

/// What a row holds.
pub struct RowView {
    pub t0: Seq<char>,
    pub t1: Seq<char>,
    pub t2: Seq<char>,
    pub n0: u64,
    pub n1: u64,
    pub n2: u64,
}

impl View for Row {
    type V = RowView;

    open spec fn view(&self) -> RowView {
        RowView {
            t0: self.t0@,
            t1: self.t1@,
            t2: self.t2@,
            n0: self.n0,
            n1: self.n1,
            n2: self.n2,
        }
    }
}

/// The entries of a scan, each row by what it holds.
pub open spec fn entry_views(entries: Seq<(u64, Row)>) -> Seq<(u64, RowView)> {
    entries.map_values(|e: (u64, Row)| (e.0, e.1@))
}

/// A table without rows.
pub open spec fn no_rows() -> Map<u64, RowView> {
    Map::empty()
}

/// A row as the stable structures store it.
type Stored = ((String, String, String), u64, (u64, u64));

/// The memory manager that divides the stable memory into regions.
///
/// Holds a `MemoryManager<DefaultMemoryImpl>`.
#[verifier::external_body]
pub struct Memories {
    manager: MemoryManager<DefaultMemoryImpl>,
}

/// A region of the stable memory: room for one stable structure.
///
/// Holds a `VirtualMemory<DefaultMemoryImpl>`.
#[verifier::external_body]
pub struct Region {
    memory: VirtualMemory<DefaultMemoryImpl>,
}

/// A table of rows keyed by identifier.
///
/// Holds a `StableBTreeMap<u64, _, _>` whose values are rows as tuples.
/// `table_rows` names what it holds, `table_region` the region it was made
/// in.
#[verifier::external_body]
pub struct Table {
    map: StableBTreeMap<u64, Stored, VirtualMemory<DefaultMemoryImpl>>,
}

/// A persistent counter.
///
/// Holds a `Cell<u64, _>`. `counter_value` names the value in it,
/// `counter_region` the region it was made in.
#[verifier::external_body]
pub struct Counter {
    cell: Cell<u64, VirtualMemory<DefaultMemoryImpl>>,
}

/// The number of a region.
pub uninterp spec fn region_number(region: Region) -> u8;

/// The rows that a table holds, by key.
pub uninterp spec fn table_rows(table: Table) -> Map<u64, RowView>;

/// The number of the region that a table was made in.
pub uninterp spec fn table_region(table: Table) -> u8;

/// The value that a counter holds.
pub uninterp spec fn counter_value(counter: Counter) -> u64;

/// The number of the region that a counter was made in.
pub uninterp spec fn counter_region(counter: Counter) -> u8;

impl Memories {
    /// `MemoryManager::init` on `DefaultMemoryImpl::default()`: outside of a
    /// canister a manager over a fresh vector memory, inside of one a manager
    /// over the canister's one stable memory, which a canister opens once.
    /// Nothing is claimed of the manager; it is only handed on.
    #[verifier::external_body]
    pub(crate) fn open() -> (memories: Memories) {
        Memories { manager: MemoryManager::init(DefaultMemoryImpl::default()) }
    }

    /// `MemoryManager::get` with `MemoryId::new`: the region numbered `id`.
    /// `MemoryId::new` refuses 255. Regions with different numbers do not
    /// overlap; a number is asked for once, for one structure.
    #[verifier::external_body]
    pub(crate) fn region(&self, id: u8) -> (region: Region)
        requires
            id < 255,
        ensures
            region_number(region) == id,
    {
        Region { memory: self.manager.get(MemoryId::new(id)) }
    }
}

impl Table {
    /// `StableBTreeMap::new`: creates a map in the region, over whatever the
    /// region held before. The new map has no entries, and keeps the region
    /// as its memory.
    #[verifier::external_body]
    pub(crate) fn create(region: Region) -> (table: Table)
        ensures
            table_rows(table) == no_rows(),
            table_region(table) == region_number(region),
    {
        Table { map: StableBTreeMap::new(region.memory) }
    }

    /// `StableBTreeMap::init`: loads the map that the region holds, or
    /// creates one if it holds none. The map keeps the region as its memory.
    /// What the table holds depends on the memory, so nothing is claimed of
    /// it.
    #[verifier::external_body]
    pub(crate) fn load(region: Region) -> (table: Table)
        ensures
            table_region(table) == region_number(region),
    {
        Table { map: StableBTreeMap::init(region.memory) }
    }

    /// `StableBTreeMap::get`: the value stored under `key`, if there is one.
    #[verifier::external_body]
    pub(crate) fn get(&self, key: u64) -> (found: Option<Row>)
        ensures
            found is Some <==> table_rows(*self).contains_key(key),
            found is Some ==> found->0@ == table_rows(*self)[key],
    {
        self.map.get(&key).map(
            |((t0, t1, t2), n0, (n1, n2))| Row { t0, t1, t2, n0, n1, n2 },
        )
    }

    /// `StableBTreeMap::insert`: stores `row` under `key`, in place of what was
    /// there, and returns the value that was stored under `key` before, if
    /// there was one. Other entries stay as they are.
    #[verifier::external_body]
    pub(crate) fn insert(&mut self, key: u64, row: Row) -> (previous: Option<Row>)
        ensures
            table_rows(*final(self)) == table_rows(*old(self)).insert(key, row@),
            previous is Some <==> table_rows(*old(self)).contains_key(key),
            previous is Some ==> previous->0@ == table_rows(*old(self))[key],
    {
        let stored = ((row.t0, row.t1, row.t2), row.n0, (row.n1, row.n2));
        self.map.insert(key, stored).map(
            |((t0, t1, t2), n0, (n1, n2))| Row { t0, t1, t2, n0, n1, n2 },
        )
    }

    /// `StableBTreeMap::remove`: takes the entry under `key` out and returns
    /// its value, if there was one. Other entries stay as they are.
    #[verifier::external_body]
    pub(crate) fn remove(&mut self, key: u64) -> (removed: Option<Row>)
        ensures
            table_rows(*final(self)) == table_rows(*old(self)).remove(key),
            removed is Some <==> table_rows(*old(self)).contains_key(key),
            removed is Some ==> removed->0@ == table_rows(*old(self))[key],
    {
        self.map.remove(&key).map(
            |((t0, t1, t2), n0, (n1, n2))| Row { t0, t1, t2, n0, n1, n2 },
        )
    }

    /// `StableBTreeMap::iter`, collected: all entries of the map, sorted by
    /// key. Keys of a map are distinct, so they ascend strictly.
    #[verifier::external_body]
    pub(crate) fn entries(&self) -> (entries: Vec<(u64, Row)>)
        ensures
            is_listing(entry_views(entries@), table_rows(*self)),
    {
        self.map.iter().map(
            |entry| {
                let (key, ((t0, t1, t2), n0, (n1, n2))) = entry.into_pair();
                (key, Row { t0, t1, t2, n0, n1, n2 })
            },
        ).collect()
    }
}

impl Counter {
    /// `Cell::new`: creates a cell in the region that holds `value`, over
    /// whatever the region held before. The cell keeps the region as its
    /// memory.
    #[verifier::external_body]
    pub(crate) fn create(region: Region, value: u64) -> (counter: Counter)
        ensures
            counter_value(counter) == value,
            counter_region(counter) == region_number(region),
    {
        Counter { cell: Cell::new(region.memory, value) }
    }

    /// `Cell::init`: loads the cell that the region holds, or creates one
    /// that holds `value` if it holds none. The cell keeps the region as its
    /// memory. The value depends on the memory, so nothing is claimed of it.
    #[verifier::external_body]
    pub(crate) fn load(region: Region, value: u64) -> (counter: Counter)
        ensures
            counter_region(counter) == region_number(region),
    {
        Counter { cell: Cell::init(region.memory, value) }
    }

    /// `Cell::get`: the value in the cell.
    #[verifier::external_body]
    pub(crate) fn get(&self) -> (value: u64)
        ensures
            value == counter_value(*self),
    {
        *self.cell.get()
    }

    /// `Cell::set`: puts `value` into the cell and returns the value that was
    /// in it.
    #[verifier::external_body]
    pub(crate) fn set(&mut self, value: u64) -> (previous: u64)
        ensures
            previous == counter_value(*old(self)),
            counter_value(*final(self)) == value,
    {
        self.cell.set(value)
    }
}

} // verus!

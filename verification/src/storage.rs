//! The storage collaborator: a read-only view into one data column.
//!
//! The iteration engine never validates indices against the column itself;
//! it maintains a `[current, end)` range invariant and asks the view for the
//! item or the identity key at an index it has already proved in bounds.

use vstd::prelude::*;

verus! {

/// A stable identity token correlating a yielded item back to its logical
/// row, independent of the row's current position in the column.
#[derive(Clone, Copy, PartialEq, Eq, Structural, Debug)]
pub struct Key {
    pub value: u64,
}

/// A read-only view into one storage column.
///
/// The engine requires exactly two operations from its storage collaborator:
/// indexed access to an item and lookup of the row's stable identity key.
/// Both demand an in-bounds index from the caller; the engine's range
/// invariant discharges that demand. `dup` hands out a second handle onto the
/// same column, intended to be a cheap, shallow duplication, so that a split
/// cursor pair can share the column.
pub trait StorageView: Sized {
    /// The logical item handed out for a row.
    type Item;

    /// The column's contents, one item per row.
    spec fn items(&self) -> Seq<Self::Item>;

    /// The identity key of each row, in row order.
    spec fn ids(&self) -> Seq<Key>;

    /// Read the item at a row position.
    fn get_item(&self, index: usize) -> (item: Self::Item)
        requires
            index < self.items().len(),
        ensures
            item == self.items()[index as int],
    ;

    /// Read the stable identity key at a row position.
    fn get_identity(&self, index: usize) -> (key: Key)
        requires
            index < self.ids().len(),
        ensures
            key == self.ids()[index as int],
    ;

    /// Duplicate the handle; both handles see the same column.
    fn dup(&self) -> (other: Self)
        ensures
            other.items() == self.items(),
            other.ids() == self.ids(),
    ;
}

/// A non-owning lease over a densely packed column: the items and the rows'
/// identity keys, borrowed from the storage layer for the lease's lifetime.
///
/// Duplication copies two references and nothing else, so `dup` is cheap and
/// shallow, as `Tight1::split_at` expects from its view.
pub struct ColumnLease<'a, T> {
    pub data: &'a Vec<T>,
    pub keys: &'a Vec<Key>,
}

impl<'a, T: Copy> StorageView for ColumnLease<'a, T> {
    type Item = T;

    open spec fn items(&self) -> Seq<T> {
        self.data@
    }

    open spec fn ids(&self) -> Seq<Key> {
        self.keys@
    }

    fn get_item(&self, index: usize) -> T {
        self.data[index]
    }

    fn get_identity(&self, index: usize) -> Key {
        self.keys[index]
    }

    fn dup(&self) -> Self {
        ColumnLease { data: self.data, keys: self.keys }
    }
}

} // verus!

//! The table store: the regions of firmware memory in which tables were found.

use crate::sdt::{
    declared_length, holds_table, table_bytes, table_length, AcpiTable, Signature, SDT_HEADER_SIZE,
};
use vstd::prelude::*;

verus! {

/// The first region at or after `from` that holds a table of the given signature.
pub open spec fn first_table_from(regions: Seq<Seq<u8>>, signature: Signature, from: int) -> Option<
    int,
>
    decreases regions.len() - from,
{
    if from < 0 || from >= regions.len() {
        None
    } else if holds_table(regions[from], signature) {
        Some(from)
    } else {
        first_table_from(regions, signature, from + 1)
    }
}

/// The regions of memory that the platform handed over, in the order in
/// which they were discovered. A region may hold anything; it counts as a
/// table only once its header has been checked.
pub struct AcpiTables {
    regions: Vec<Vec<u8>>,
}

impl AcpiTables {
    /// The regions, as sequences of bytes.
    pub closed spec fn view(&self) -> Seq<Seq<u8>> {
        Seq::new(self.regions@.len(), |i: int| self.regions@[i]@)
    }

    /// A store without any region.
    pub fn new() -> (tables: Self)
        ensures
            tables@ == Seq::<Seq<u8>>::empty(),
    {
        let tables = AcpiTables { regions: Vec::new() };
        assert(tables@ =~= Seq::<Seq<u8>>::empty());
        tables
    }

    /// Adds a region behind those already in the store.
    pub fn add_region(&mut self, region: Vec<u8>)
        ensures
            final(self)@ == old(self)@.push(region@),
    {
        self.regions.push(region);
        assert(self@ =~= old(self)@.push(region@));
    }

    /// The number of regions in the store.
    pub fn len(&self) -> (n: usize)
        ensures
            n == self@.len(),
    {
        self.regions.len()
    }

    /// Looks up the first table with the given signature and returns its
    /// bytes, cut to the length that its header declares.
    pub fn find(&self, signature: Signature) -> (table: Option<&[u8]>)
        ensures
            match table {
                Some(bytes) => first_table_from(self@, signature, 0) matches Some(i) && bytes@
                    == table_bytes(self@[i]),
                None => first_table_from(self@, signature, 0) is None,
            },
    {
        let mut i: usize = 0;
        while i < self.regions.len()
            invariant
                i <= self.regions.len(),
                first_table_from(self@, signature, 0) == first_table_from(self@, signature, i as int),
            decreases self.regions.len() - i,
        {
            let region = self.regions[i].as_slice();
            assert(region@ == self@[i as int]);
            match table_length(region, signature, SDT_HEADER_SIZE) {
                Some(length) => {
                    return Some(vstd::slice::slice_subrange(region, 0, length));
                },
                None => {},
            }
            i = i + 1;
        }
        None
    }

    /// The region in which a lookup finds a table of the given signature
    /// and of at least the given size: the first region that holds a table
    /// with that signature, if that table declares enough bytes.
    pub open spec fn region_of(&self, signature: Signature, fixed_size: nat) -> Option<Seq<u8>> {
        match first_table_from(self@, signature, 0) {
            Some(i) => if declared_length(self@[i]) >= fixed_size {
                Some(self@[i])
            } else {
                None
            },
            None => None,
        }
    }

    /// Looks up the first table with the signature of `T` and decodes it.
    /// A table that is too short for the fixed fields of `T` is not a `T`,
    /// so the lookup then finds nothing.
    pub fn find_table<'a, T: AcpiTable<'a>>(&'a self) -> (table: Option<T>)
        ensures
            match table {
                Some(t) => self.region_of(T::table_signature(), T::fixed_size()) matches Some(
                    region,
                ) && t.decodes(region),
                None => self.region_of(T::table_signature(), T::fixed_size()) is None,
            },
    {
        let signature = T::signature();
        let mut i: usize = 0;
        while i < self.regions.len()
            invariant
                i <= self.regions.len(),
                signature == T::table_signature(),
                first_table_from(self@, signature, 0) == first_table_from(self@, signature, i as int),
            decreases self.regions.len() - i,
        {
            let region = self.regions[i].as_slice();
            assert(region@ == self@[i as int]);
            if table_length(region, signature, SDT_HEADER_SIZE).is_some() {
                return T::from_bytes(region);
            }
            i = i + 1;
        }
        None
    }
}

} // verus!

//! The funcref table: a growable list of optional resolved function
//! references within declared limits.

use vstd::prelude::*;
use crate::ast::{Limit, TableType};
use crate::object::FunctionItem;

verus! {

/// One table instance. A `None` element is a null funcref; an indirect
/// call through it traps.
pub struct VMTable {
    table_type: TableType,
    elements: Vec<Option<FunctionItem>>,
}

impl VMTable {
    /// The declared limits.
    pub closed spec fn spec_table_type(&self) -> TableType {
        self.table_type
    }

    /// The elements.
    pub closed spec fn view(&self) -> Seq<Option<FunctionItem>> {
        self.elements@
    }

    /// A fresh table of the declared minimum element count, null filled.
    pub fn new(table_type: TableType) -> (t: VMTable)
        ensures
            t.spec_table_type() == table_type,
            t@.len() == table_type.limit.minimum,
            forall|i: int| 0 <= i < t@.len() ==> t@[i] is None,
    {
        let element_count = table_type.limit.minimum as usize;
        let mut elements: Vec<Option<FunctionItem>> = Vec::new();
        let mut i: usize = 0;
        while i < element_count
            invariant
                0 <= i <= element_count,
                elements@.len() == i,
                forall|j: int| 0 <= j < i ==> elements@[j] is None,
            decreases element_count - i,
        {
            elements.push(None);
            i += 1;
        }
        VMTable { table_type, elements }
    }

    /// A fresh null-filled table with the given element limits.
    pub fn new_by_page_range(minimum: u32, maximum: u32) -> (t: VMTable)
        ensures
            t.spec_table_type() == (TableType { limit: Limit { minimum, maximum: Some(maximum) } }),
            t@.len() == minimum,
            forall|i: int| 0 <= i < t@.len() ==> t@[i] is None,
    {
        VMTable::new(TableType { limit: Limit { minimum, maximum: Some(maximum) } })
    }

    pub fn get_table_type(&self) -> (t: TableType)
        ensures
            t == self.spec_table_type(),
    {
        self.table_type
    }

    /// The current element count.
    pub fn element_count(&self) -> (n: usize)
        ensures
            n == self@.len(),
    {
        self.elements.len()
    }

    /// Borrows the element at the index.
    pub fn get_element(&self, index: usize) -> (r: Option<&Option<FunctionItem>>)
        ensures
            match r {
                Some(element) => index < self@.len() && *element == self@[index as int],
                None => index >= self@.len(),
            },
    {
        if index < self.elements.len() {
            Some(&self.elements[index])
        } else {
            None
        }
    }

    /// Installs a funcref; fails outside the table.
    pub fn set_element(&mut self, index: usize, item: FunctionItem) -> (r: bool)
        ensures
            final(self).spec_table_type() == old(self).spec_table_type(),
            r == (index < old(self)@.len()),
            r ==> final(self)@ == old(self)@.update(index as int, Some(item)),
            !r ==> final(self)@ == old(self)@,
    {
        if index < self.elements.len() {
            self.elements.set(index, Some(item));
            true
        } else {
            false
        }
    }
}

} // verus!

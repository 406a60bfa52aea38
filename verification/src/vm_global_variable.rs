//! A global-variable instance: a typed, possibly mutable cell.

use vstd::prelude::*;
use crate::ast::GlobalType;
use crate::values::Value;

verus! {

/// One global-variable cell. The stored value always has the declared
/// value type.
pub struct VMGlobalVariable {
    global_type: GlobalType,
    value: Value,
}

impl VMGlobalVariable {
    /// The declared type and mutability.
    pub closed spec fn spec_global_type(&self) -> GlobalType {
        self.global_type
    }

    /// The stored value.
    pub closed spec fn spec_value(&self) -> Value {
        self.value
    }

    /// The cell's invariant: the value carries the declared type.
    pub open spec fn wf(&self) -> bool {
        self.spec_value().spec_get_type() == self.spec_global_type().value_type
    }

    /// A fresh cell holding the given value.
    pub fn new(global_type: GlobalType, value: Value) -> (g: VMGlobalVariable)
        requires
            value.spec_get_type() == global_type.value_type,
        ensures
            g.spec_global_type() == global_type,
            g.spec_value() == value,
            g.wf(),
    {
        VMGlobalVariable { global_type, value }
    }

    pub fn get_global_type(&self) -> (t: GlobalType)
        ensures
            t == self.spec_global_type(),
    {
        self.global_type
    }

    /// Reads the value.
    pub fn get_value(&self) -> (v: Value)
        ensures
            v == self.spec_value(),
    {
        self.value
    }

    /// Writes the value; fails when the cell is immutable or the value's
    /// type differs from the declared one.
    pub fn set_value(&mut self, value: Value) -> (r: bool)
        ensures
            final(self).spec_global_type() == old(self).spec_global_type(),
            r == (old(self).spec_global_type().mutable && value.spec_get_type() == old(
                self,
            ).spec_global_type().value_type),
            r ==> final(self).spec_value() == value,
            !r ==> final(self).spec_value() == old(self).spec_value(),
            old(self).wf() ==> final(self).wf(),
    {
        if self.global_type.mutable && value.get_type() == self.global_type.value_type {
            self.value = value;
            true
        } else {
            false
        }
    }
}

} // verus!

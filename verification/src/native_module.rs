//! Native (host) modules: named collections of host functions with declared
//! types and export names.
//!
//! The core never calls a host function itself: when the interpreter reaches
//! one it suspends with a host request carrying these indices, and the
//! embedder computes the answer. A native module here therefore holds only
//! the metadata; the embedder keeps the callable code.

use vstd::prelude::*;
use crate::values::{FunctionType, ValueType, function_types_eq};

verus! {

/// One host function: its export name, its type (as an index into the
/// owning module's de-duplicated type list), and the names of its
/// parameters.
#[derive(Clone, Debug, PartialEq)]
pub struct NativeFunctionItem {
    pub name: String,
    pub type_index: usize,
    pub param_names: Vec<String>,
}

/// A named collection of host functions.
#[derive(Clone, Debug, PartialEq)]
pub struct NativeModule {
    pub name: String,
    pub function_types: Vec<FunctionType>,
    pub function_items: Vec<NativeFunctionItem>,
}

impl NativeModule {
    /// An empty native module of the given name.
    pub fn new(name: &String) -> (m: NativeModule)
        ensures
            m.name@ == name@,
            m.function_types@ == Seq::<FunctionType>::empty(),
            m.function_items@ == Seq::<NativeFunctionItem>::empty(),
    {
        NativeModule { name: name.clone(), function_types: Vec::new(), function_items: Vec::new() }
    }

    /// Adds a function type to the internal list, returning the index of an
    /// equal type that is already present, or the index of the freshly
    /// appended one.
    fn add_function_type(
        &mut self,
        params: Vec<ValueType>,
        results: Vec<ValueType>,
    ) -> (type_index: usize)
        ensures
            ({
                let ft = FunctionType { params, results };
                let n = old(self).function_types@.len();
                &&& final(self).name == old(self).name
                &&& final(self).function_items == old(self).function_items
                &&& type_index <= n
                &&& forall|k: int|
                    0 <= k < type_index ==> !old(self).function_types@[k].matches(ft)
                &&& if type_index < n {
                    &&& final(self).function_types == old(self).function_types
                    &&& final(self).function_types@[type_index as int].matches(ft)
                } else {
                    final(self).function_types@ == old(self).function_types@.push(ft)
                }
            }),
    {
        let ghost ft_g = FunctionType { params: params, results: results };
        let n = self.function_types.len();
        let mut i: usize = 0;
        while i < n
            invariant
                0 <= i <= n,
                n == self.function_types@.len(),
                forall|k: int| 0 <= k < i ==> !self.function_types@[k].matches(ft_g),
                ft_g.params == params && ft_g.results == results,
            decreases n - i,
        {
            let candidate = FunctionType {
                params: self.function_types[i].params.clone(),
                results: self.function_types[i].results.clone(),
            };
            let probe = FunctionType { params: params.clone(), results: results.clone() };
            if function_types_eq(&self.function_types[i], &probe) {
                assert(self.function_types@[i as int].matches(ft_g));
                return i;
            }
            i += 1;
        }
        let function_type = FunctionType { params, results };
        assert(function_type == ft_g);
        self.function_types.push(function_type);
        n
    }

    /// Registers a host function under an export name. The function's type
    /// is de-duplicated into the module's type list; the item records the
    /// resulting type index.
    pub fn add_function(
        &mut self,
        name: &String,
        params: Vec<ValueType>,
        param_names: Vec<String>,
        results: Vec<ValueType>,
    )
        ensures
            ({
                let ft = FunctionType { params, results };
                let items = final(self).function_items@;
                &&& final(self).name == old(self).name
                &&& items.len() == old(self).function_items@.len() + 1
                &&& items.take(items.len() - 1) == old(self).function_items@
                &&& items.last().name@ == name@
                &&& items.last().param_names == param_names
                &&& items.last().type_index < final(self).function_types@.len()
                &&& final(self).function_types@[items.last().type_index as int].matches(ft)
                // the first equal type is reused; the list grows exactly
                // when no equal type existed
                &&& forall|k: int|
                    0 <= k < items.last().type_index ==> !old(self).function_types@[k].matches(ft)
                &&& if items.last().type_index < old(self).function_types@.len() {
                    final(self).function_types == old(self).function_types
                } else {
                    final(self).function_types@ == old(self).function_types@.push(ft)
                }
            }),
    {
        let type_index = self.add_function_type(params, results);
        let function_item = NativeFunctionItem { name: name.clone(), type_index, param_names };
        self.function_items.push(function_item);
        proof {
            assert(final(self).function_items@.take(
                final(self).function_items@.len() - 1,
            ) =~= old(self).function_items@);
        }
    }

    /// The index of the first host function exported under the given name.
    pub fn find_function_index_by_name(&self, name: &String) -> (r: Option<usize>)
        ensures
            match r {
                Some(i) => {
                    &&& i < self.function_items@.len()
                    &&& self.function_items@[i as int].name@ == name@
                    &&& forall|k: int| 0 <= k < i ==> self.function_items@[k].name@ != name@
                },
                None => forall|k: int|
                    0 <= k < self.function_items@.len() ==> self.function_items@[k].name@ != name@,
            },
    {
        let n = self.function_items.len();
        let mut i: usize = 0;
        while i < n
            invariant
                0 <= i <= n,
                n == self.function_items@.len(),
                forall|k: int| 0 <= k < i ==> self.function_items@[k].name@ != name@,
            decreases n - i,
        {
            if self.function_items[i].name == *name {
                return Some(i);
            }
            i += 1;
        }
        None
    }
}

} // verus!

//! Runtime values and value types.
//!
//! A value is a tagged 32- or 64-bit quantity. Integers are stored in
//! unsigned form; each instruction gives them its own sign interpretation.
//! `F32` and `F64` values hold the raw IEEE-754 bit pattern: the core never
//! performs floating-point arithmetic itself.

use vstd::prelude::*;

verus! {

/// The four WebAssembly value types.
#[derive(Clone, Copy, PartialEq, Eq, Structural, Debug)]
pub enum ValueType {
    I32,
    I64,
    F32,
    F64,
}

/// A tagged runtime value. `F32`/`F64` carry the bit pattern of the number.
#[derive(Clone, Copy, PartialEq, Eq, Structural, Debug)]
pub enum Value {
    I32(u32),
    I64(u64),
    F32(u32),
    F64(u64),
}

impl Value {
    /// The type tag of this value.
    pub open spec fn spec_get_type(&self) -> ValueType {
        match self {
            Value::I32(_) => ValueType::I32,
            Value::I64(_) => ValueType::I64,
            Value::F32(_) => ValueType::F32,
            Value::F64(_) => ValueType::F64,
        }
    }

    #[verifier::when_used_as_spec(spec_get_type)]
    pub fn get_type(&self) -> (t: ValueType)
        ensures
            t == self.spec_get_type(),
    {
        match self {
            Value::I32(_) => ValueType::I32,
            Value::I64(_) => ValueType::I64,
            Value::F32(_) => ValueType::F32,
            Value::F64(_) => ValueType::F64,
        }
    }

    /// The zero value of the given type, used to initialise locals and
    /// global variables.
    pub fn zero_of(value_type: ValueType) -> (v: Value)
        ensures
            v.spec_get_type() == value_type,
            v == Value::spec_zero_of(value_type),
    {
        match value_type {
            ValueType::I32 => Value::I32(0),
            ValueType::I64 => Value::I64(0),
            ValueType::F32 => Value::F32(0),
            ValueType::F64 => Value::F64(0),
        }
    }

    pub open spec fn spec_zero_of(value_type: ValueType) -> Value {
        match value_type {
            ValueType::I32 => Value::I32(0),
            ValueType::I64 => Value::I64(0),
            ValueType::F32 => Value::F32(0),
            ValueType::F64 => Value::F64(0),
        }
    }
}

/// The type tags of a sequence of values.
pub open spec fn value_types_of(values: Seq<Value>) -> Seq<ValueType> {
    values.map_values(|v: Value| v.spec_get_type())
}

/// A function signature: parameter types and result types, in order.
/// Equality is structural.
#[derive(Clone, Debug, PartialEq)]
pub struct FunctionType {
    pub params: Vec<ValueType>,
    pub results: Vec<ValueType>,
}

impl FunctionType {
    /// Structural equality of two function types, as the linker's type
    /// checks use it.
    pub open spec fn matches(self, other: FunctionType) -> bool {
        self.params@ == other.params@ && self.results@ == other.results@
    }
}

/// Structural equality of two lists of value types.
pub fn value_type_vecs_eq(a: &Vec<ValueType>, b: &Vec<ValueType>) -> (r: bool)
    ensures
        r == (a@ == b@),
{
    if a.len() != b.len() {
        assert(a@ != b@);
        return false;
    }
    let n = a.len();
    let mut i: usize = 0;
    while i < n
        invariant
            0 <= i <= n,
            n == a@.len() == b@.len(),
            forall|j: int| 0 <= j < i ==> a@[j] == b@[j],
        decreases n - i,
    {
        if a[i] != b[i] {
            assert(a@ != b@);
            return false;
        }
        i += 1;
    }
    assert(a@ =~= b@);
    true
}

/// Structural equality of two function types.
pub fn function_types_eq(a: &FunctionType, b: &FunctionType) -> (r: bool)
    ensures
        r == a.matches(*b),
{
    value_type_vecs_eq(&a.params, &b.params) && value_type_vecs_eq(&a.results, &b.results)
}

/// Why a list of values fails to match a list of value types.
#[derive(Clone, Copy, PartialEq, Eq, Structural, Debug)]
pub enum ValueTypeCheckError {
    LengthMismatch,
    /// The index of the first value whose type differs from the expected one.
    DataTypeMismatch(usize),
}

/// The first position at or after `i` where a value's type differs from
/// the expected one.
pub open spec fn spec_first_type_mismatch_from(
    values: Seq<Value>,
    expected: Seq<ValueType>,
    i: int,
) -> Option<int>
    decreases expected.len() - i,
{
    if i < 0 || i >= expected.len() || i >= values.len() {
        Option::None
    } else if values[i].spec_get_type() != expected[i] {
        Some(i)
    } else {
        spec_first_type_mismatch_from(values, expected, i + 1)
    }
}

/// Whether each value has the matching expected type; on the first mismatch
/// the result names its index.
pub fn check_value_types(values: &Vec<Value>, expected: &Vec<ValueType>) -> (r: Result<
    (),
    ValueTypeCheckError,
>)
    ensures
        r is Ok <==> value_types_of(values@) == expected@,
        r == Err::<(), ValueTypeCheckError>(ValueTypeCheckError::LengthMismatch) <==> values@.len()
            != expected@.len(),
        ({
            match r {
                Ok(()) => spec_first_type_mismatch_from(values@, expected@, 0) is None,
                Err(ValueTypeCheckError::LengthMismatch) => true,
                Err(ValueTypeCheckError::DataTypeMismatch(k)) => values@.len() == expected@.len()
                    && k < expected@.len() && values@[k as int].spec_get_type()
                    != expected@[k as int] && spec_first_type_mismatch_from(values@, expected@, 0)
                    == Some(k as int),
            }
        }),
{
    if values.len() != expected.len() {
        assert(value_types_of(values@).len() == values@.len());
        return Err(ValueTypeCheckError::LengthMismatch);
    }
    let n = values.len();
    let mut i: usize = 0;
    while i < n
        invariant
            0 <= i <= n,
            n == values@.len() == expected@.len(),
            forall|j: int| 0 <= j < i ==> values@[j].spec_get_type() == expected@[j],
            spec_first_type_mismatch_from(values@, expected@, 0)
                == spec_first_type_mismatch_from(values@, expected@, i as int),
        decreases n - i,
    {
        if values[i].get_type() != expected[i] {
            assert(value_types_of(values@)[i as int] != expected@[i as int]);
            return Err(ValueTypeCheckError::DataTypeMismatch(i));
        }
        i += 1;
    }
    assert(value_types_of(values@) =~= expected@);
    Ok(())
}

} // verus!

//! The flat error taxonomy of the engine: link errors, runtime validation
//! errors, and host errors propagated with context.
//!
//! An error aborts the current instruction and is returned to the caller of
//! the engine; no frame is unwound and nothing is retried.

use vstd::prelude::*;
use crate::values::ValueType;

verus! {

/// A named object could not be found during linking.
#[derive(Clone, Debug, PartialEq)]
pub enum ObjectNotFound {
    /// No module of this name is registered.
    ModuleNotFound(String),
    /// The named module exports no function of the given name.
    FunctionNotFound(String, String),
    /// The named native module exports no function of the given name.
    NativeFunctionNotFound(String, String),
    /// The named module exports no table of the given name.
    TableNotFound(String, String),
    /// The named module exports no memory block of the given name.
    MemoryBlockNotFound(String, String),
    /// The named module exports no global variable of the given name.
    GlobalVariableNotFound(String, String),
}

/// Two types that had to agree do not.
#[derive(Clone, Debug, PartialEq)]
pub enum TypeMismatch {
    /// The imported function's actual type differs from the declared one.
    ImportedFunctionTypeMismatch(String, String),
    /// The imported table's actual type differs from the declared one.
    ImportedTableTypeMismatch(String, String),
    /// The imported memory block's actual type differs from the declared one.
    ImportedMemoryBlockTypeMismatch(String, String),
    /// The imported global variable's actual type differs from the declared
    /// one.
    ImportedGlobalVariableTypeMismatch(String, String),
    /// A global initialiser evaluated to a value of the wrong type:
    /// (declared, actual).
    ConstantExpressionValueTypeMismatch(ValueType, ValueType),
    /// A function returned an operand of the wrong type.
    FunctionResultTypeMismatch {
        vm_module_index: usize,
        function_index: usize,
        result_index: usize,
        result_type: ValueType,
        value_type: ValueType,
    },
    /// A structured block left an operand of the wrong type.
    BlockResultTypeMismatch {
        vm_module_index: usize,
        function_index: usize,
        block_index: usize,
        result_index: usize,
        result_type: ValueType,
        value_type: ValueType,
    },
    /// The table element's function type differs from the call-site type.
    IndirectCallFunctionTypeMismatch {
        vm_module_index: usize,
        type_index: usize,
    },
    /// An instruction found an operand of the wrong type on the stack:
    /// (expected, actual).
    OperandTypeMismatch(ValueType, ValueType),
    /// `invoke` got a different number of arguments than the export
    /// declares: (declared, handed).
    InvokeArgumentCountMismatch {
        expected: usize,
        actual: usize,
    },
    /// An argument handed to `invoke` has the wrong type.
    InvokeArgumentTypeMismatch {
        argument_index: usize,
        expected: ValueType,
        actual: ValueType,
    },
    /// The host handed back a different number of values than the function
    /// declares: (declared, handed).
    HostResultCountMismatch {
        expected: usize,
        actual: usize,
    },
    /// A value handed back by the host has the wrong type.
    HostResultTypeMismatch {
        result_index: usize,
        expected: ValueType,
        actual: ValueType,
    },
    /// A start function must take no parameters and return no results.
    StartFunctionTypeMismatch {
        vm_module_index: usize,
    },
}

/// A construct the engine recognises but does not support.
#[derive(Clone, Debug, PartialEq)]
pub enum Unsupported {
    /// The target module exports more than one table.
    UnsupportedMultipleTable,
    /// The target module exports more than one memory block.
    UnsupportedMultipleMemoryBlock,
    /// An opcode that is represented in the stream but not implemented
    /// (bulk memory/table operations, saturating truncation).
    UnsupportedInstruction,
    /// A declared memory does not fit the address space.
    UnsupportedMemorySize,
}

/// A runtime validation failure; the virtual machine is left in its trapped
/// state.
#[derive(Clone, Debug, PartialEq)]
pub enum InvalidOperation {
    /// An instruction needed more operands than the current frame holds.
    NotEnoughOperand,
    /// A function `end` found fewer operands than its result arity.
    NotEnoughOperandForFunctionResult {
        vm_module_index: usize,
        function_index: usize,
        results_count: usize,
        operands_count: usize,
    },
    /// A block `end` found fewer operands than its result arity.
    NotEnoughOperandForBlockResult {
        vm_module_index: usize,
        function_index: usize,
        block_index: usize,
        results_count: usize,
        operands_count: usize,
    },
    /// The `unreachable` instruction was executed.
    Unreachable,
    /// A memory access fell outside the memory block.
    OutOfBoundsMemoryAccess,
    /// A table access fell outside the table.
    OutOfBoundsTableAccess,
    /// An indirect call read a null table element.
    UndefinedElement,
    /// Signed integer division overflowed.
    IntegerOverflow,
    /// Integer division by zero.
    IntegerDivideByZero,
    /// A float-to-integer truncation had no representable result.
    InvalidConversionToInteger,
    /// The per-invocation step budget ran out.
    StepLimitReached,
    /// A global initialiser or segment offset is not a supported constant
    /// expression.
    InvalidConstantExpression,
    /// A raw instruction stream is not well structured.
    InvalidInstructionStream,
    /// Resolving an import ran into a cycle of re-exports.
    CyclicImport,
    /// A local-variable index fell outside the current frame.
    InvalidLocalVariableIndex,
    /// A global-variable index fell outside the module's globals.
    InvalidGlobalVariableIndex,
    /// A function index fell outside the module's function items.
    InvalidFunctionIndex,
    /// A type index fell outside the module's type table.
    InvalidTypeIndex,
    /// The program counter left the instruction stream.
    InvalidProgramCounter,
    /// A frame pointer or frame-info record is not where the frame
    /// discipline demands.
    InvalidStackFrame,
    /// `resume` was called while no host request is pending.
    NoPendingHostRequest,
    /// `invoke` or `load` was called while a host request is pending.
    PendingHostRequest,
}

/// An error reported by a host function, propagated verbatim.
#[derive(Clone, Debug, PartialEq)]
pub struct NativeError {
    pub message: String,
}

/// Any error the engine surfaces.
#[derive(Clone, Debug, PartialEq)]
pub enum EngineError {
    ObjectNotFound(ObjectNotFound),
    TypeMismatch(TypeMismatch),
    Unsupported(Unsupported),
    InvalidOperation(InvalidOperation),
    /// A host function failed; the indices name the native module and
    /// function for context.
    Native {
        native_module_index: usize,
        function_index: usize,
        error: NativeError,
    },
}

} // verus!

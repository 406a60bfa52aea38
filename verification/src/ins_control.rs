//! Structured-control instructions: the `end` of a frame, `unreachable`
//! and `nop`.

use vstd::prelude::*;
use crate::ast::BlockType;
use crate::error::{EngineError, InvalidOperation, TypeMismatch};
use crate::values::Value;
use crate::vm::{INITIAL_FRAME_POINTER, VM};

verus! {

/// What the dispatcher does to the program counter after a control
/// instruction.
pub enum ControlResult {
    /// Execute the next instruction.
    Sequence,
    /// A function or structured block was entered.
    PushStackFrame {
        is_call_frame: bool,
        vm_module_index: usize,
        function_index: usize,
        frame_type: BlockType,
        address: usize,
    },
    /// A function or structured block was left.
    PopStackFrame {
        is_call_frame: bool,
        vm_module_index: usize,
        function_index: usize,
        frame_type: BlockType,
        address: usize,
    },
    /// A jump between blocks of the same call frame.
    JumpWithinFunction { frame_type: BlockType, address: usize },
    /// A jump inside the current block.
    JumpWithinBlock(usize),
    /// The initial call frame was popped: the program is over.
    ProgramEnd,
    /// A host function must run before the engine can go on.
    HostCall { native_module_index: usize, function_index: usize, arguments: Vec<Value> },
}

/// Handles `end`: decides by the `frame_pointer == local_pointer` identity
/// whether a call frame or a block frame ends, checks that the operand
/// region holds at least the frame type's result arity and that the top
/// results carry the declared types, then pops the frame, carrying the
/// results to the enclosing frame.
///
/// When the popped frame stored the initial frame-pointer sentinel it was
/// the program's first frame: the stack then holds exactly the results,
/// and the program ends.
pub fn process_end(vm: &mut VM, option_block_index: &Option<usize>) -> (r: Result<
    ControlResult,
    EngineError,
>)
    ensures
        final(vm).resource == old(vm).resource,
        final(vm).pending == old(vm).pending,
        // a trap aborts the instruction and unwinds no frame
        r is Err ==> final(vm)@ == old(vm)@ && final(vm).status == old(vm).status,
        // the full behaviour: result arity from the frame type, the
        // operand-count check, the result-type check, and the pop that
        // carries the results to the enclosing frame; at the sentinel the
        // program ends with exactly the results on the stack
        ({
            let s = old(vm)@;
            let st = old(vm).status;
            let is_call = st.frame_pointer == st.local_pointer;
            let named_block_index = match *option_block_index {
                Some(index) => index,
                None => 0,
            };
            match crate::vm::spec_frame_result_types(*old(vm), st.frame_type) {
                None => r == Err::<ControlResult, EngineError>(
                    EngineError::InvalidOperation(InvalidOperation::InvalidTypeIndex),
                ),
                Some(result_types) => {
                    let n = result_types.len() as int;
                    let oc = crate::vm::spec_available_operands(s, st);
                    if oc < n {
                        r == Err::<ControlResult, EngineError>(
                            if is_call {
                                EngineError::InvalidOperation(
                                    InvalidOperation::NotEnoughOperandForFunctionResult {
                                        vm_module_index: st.vm_module_index,
                                        function_index: st.function_index,
                                        results_count: n as usize,
                                        operands_count: oc as usize,
                                    },
                                )
                            } else {
                                EngineError::InvalidOperation(
                                    InvalidOperation::NotEnoughOperandForBlockResult {
                                        vm_module_index: st.vm_module_index,
                                        function_index: st.function_index,
                                        block_index: named_block_index,
                                        results_count: n as usize,
                                        operands_count: oc as usize,
                                    },
                                )
                            },
                        )
                    } else if !crate::vm::spec_all_operands(s, s.len() - n, s.len() as int) {
                        r == Err::<ControlResult, EngineError>(
                            EngineError::InvalidOperation(InvalidOperation::NotEnoughOperand),
                        )
                    } else {
                        let values = crate::vm::spec_top_values(s, n);
                        match crate::values::spec_first_type_mismatch_from(
                            values,
                            result_types,
                            0,
                        ) {
                            Some(k) => r == Err::<ControlResult, EngineError>(
                                if is_call {
                                    EngineError::TypeMismatch(
                                        TypeMismatch::FunctionResultTypeMismatch {
                                            vm_module_index: st.vm_module_index,
                                            function_index: st.function_index,
                                            result_index: k as usize,
                                            result_type: result_types[k],
                                            value_type: values[k].spec_get_type(),
                                        },
                                    )
                                } else {
                                    EngineError::TypeMismatch(
                                        TypeMismatch::BlockResultTypeMismatch {
                                            vm_module_index: st.vm_module_index,
                                            function_index: st.function_index,
                                            block_index: named_block_index,
                                            result_index: k as usize,
                                            result_type: result_types[k],
                                            value_type: values[k].spec_get_type(),
                                        },
                                    )
                                },
                            ),
                            None => match crate::vm::spec_pop_frame(s, st, n) {
                                None => r is Err,
                                Some(after) => {
                                    &&& final(vm)@ == after.0
                                    &&& final(vm).status == after.1
                                    &&& if after.1.frame_pointer == INITIAL_FRAME_POINTER {
                                        &&& r == Ok::<ControlResult, EngineError>(
                                            ControlResult::ProgramEnd,
                                        )
                                        &&& (st.frame_pointer == 1 ==> final(vm)@.len() == n)
                                    } else {
                                        r == Ok::<ControlResult, EngineError>(
                                            ControlResult::PopStackFrame {
                                                is_call_frame: is_call,
                                                vm_module_index: after.1.vm_module_index,
                                                function_index: after.1.function_index,
                                                frame_type: after.1.frame_type,
                                                address: after.1.address,
                                            },
                                        )
                                    }
                                },
                            },
                        }
                    }
                },
            }
        }),
{
    let frame_type = vm.status.frame_type;
    let vm_module_index = vm.status.vm_module_index;
    let function_index = vm.status.function_index;

    // a call frame is exactly a frame whose frame pointer and local
    // pointer coincide
    let is_call_frame = vm.status.frame_pointer == vm.status.local_pointer;

    let result_types = vm.frame_result_types(&frame_type)?;
    let results_count = result_types.len();

    let operands_count = vm.operands_count();
    if operands_count < results_count {
        if is_call_frame {
            return Err(
                EngineError::InvalidOperation(
                    InvalidOperation::NotEnoughOperandForFunctionResult {
                        vm_module_index,
                        function_index,
                        results_count,
                        operands_count,
                    },
                ),
            );
        } else {
            let block_index = match option_block_index {
                Some(index) => *index,
                None => 0,
            };
            return Err(
                EngineError::InvalidOperation(
                    InvalidOperation::NotEnoughOperandForBlockResult {
                        vm_module_index,
                        function_index,
                        block_index,
                        results_count,
                        operands_count,
                    },
                ),
            );
        }
    }

    // the carried results must have the declared types
    let results = vm.stack.peek_values(results_count)?;
    match crate::values::check_value_types(&results, &result_types) {
        Ok(()) => {},
        Err(crate::values::ValueTypeCheckError::LengthMismatch) => {
            // the peeked values were sized to the declared arity
            proof {
                assert(false);
            }
            return Err(EngineError::InvalidOperation(InvalidOperation::NotEnoughOperand));
        },
        Err(crate::values::ValueTypeCheckError::DataTypeMismatch(result_index)) => {
            let result_type = result_types[result_index];
            let value_type = results[result_index].get_type();
            if is_call_frame {
                return Err(
                    EngineError::TypeMismatch(
                        TypeMismatch::FunctionResultTypeMismatch {
                            vm_module_index,
                            function_index,
                            result_index,
                            result_type,
                            value_type,
                        },
                    ),
                );
            } else {
                let block_index = match option_block_index {
                    Some(index) => *index,
                    None => 0,
                };
                return Err(
                    EngineError::TypeMismatch(
                        TypeMismatch::BlockResultTypeMismatch {
                            vm_module_index,
                            function_index,
                            block_index,
                            result_index,
                            result_type,
                            value_type,
                        },
                    ),
                );
            }
        },
    }

    let (return_module_index, return_function_index, return_frame_type, return_address) =
        vm.pop_frame(results_count)?;

    if vm.status.frame_pointer == INITIAL_FRAME_POINTER {
        Ok(ControlResult::ProgramEnd)
    } else {
        Ok(
            ControlResult::PopStackFrame {
                is_call_frame,
                vm_module_index: return_module_index,
                function_index: return_function_index,
                frame_type: return_frame_type,
                address: return_address,
            },
        )
    }
}

/// The `unreachable` instruction always traps.
pub fn process_unreachable(vm: &mut VM) -> (r: Result<ControlResult, EngineError>)
    ensures
        r == Err::<ControlResult, EngineError>(
            EngineError::InvalidOperation(InvalidOperation::Unreachable),
        ),
        final(vm)@ == old(vm)@,
        final(vm).status == old(vm).status,
        final(vm).resource == old(vm).resource,
        final(vm).pending == old(vm).pending,
{
    Err(EngineError::InvalidOperation(InvalidOperation::Unreachable))
}

/// `nop` does nothing.
pub fn process_nop(vm: &mut VM) -> (r: Result<ControlResult, EngineError>)
    ensures
        r matches Ok(c) && c is Sequence,
        final(vm)@ == old(vm)@,
        final(vm).status == old(vm).status,
        final(vm).resource == old(vm).resource,
        final(vm).pending == old(vm).pending,
{
    Ok(ControlResult::Sequence)
}

} // verus!

//! The instruction dispatcher: one step of the interpreter loop.
//!
//! Straight-line opcodes advance the program counter by one; structured
//! control updates it through `ControlResult`. Floating-point arithmetic,
//! comparison and conversion opcodes are recognised but refused: this core
//! computes no floating-point results.

use vstd::prelude::*;
use crate::ast;
use crate::ast::BlockType;
use crate::error::{EngineError, InvalidOperation, TypeMismatch, Unsupported};
use crate::ins_control::{self, ControlResult};
use crate::object::{self, BranchTarget, Control, FunctionItem};
use crate::values::{Value, ValueType};
use crate::vm::{INITIAL_FRAME_POINTER, VM};

verus! {

/// What one executed instruction means for the engine loop.
pub enum StepResult {
    /// Keep going with the instruction the program counter now names.
    Continue,
    /// The initial frame was popped: execution is complete.
    ProgramEnd,
    /// The named host function must run; its results resume the engine.
    HostCall { native_module_index: usize, function_index: usize, arguments: Vec<Value> },
}

/// The stack and status a forward branch leaves, on a machine whose stack
/// is `s` and whose status and module data are `vm`'s: the target frame
/// type `depth` levels up names the carried result arity, and `depth`
/// frames are popped, each pop carrying the top operands across. `None`
/// when a frame-discipline check fails and the branch traps instead.
pub open spec fn spec_break_step(vm: VM, s: Seq<crate::vm::StackCell>, depth: int) -> Option<
    (Seq<crate::vm::StackCell>, crate::vm::VMStatus),
> {
    match crate::vm::spec_frame_type_at_depth(s, vm.status.frame_pointer as int, depth) {
        Option::None => Option::None,
        Some(target_frame_type) => match crate::vm::spec_frame_result_types(
            vm,
            target_frame_type,
        ) {
            Option::None => Option::None,
            Some(carried_types) => crate::vm::spec_pop_frames(
                s,
                vm.status,
                carried_types.len() as int,
                depth,
            ),
        },
    }
}

/// The stack and status a backward branch to a loop leaves: the target
/// frame type names the carried parameter arity, and `depth + 1` frames
/// are popped. `None` when a check fails and the branch traps instead.
pub open spec fn spec_recur_step(vm: VM, s: Seq<crate::vm::StackCell>, depth: int) -> Option<
    (Seq<crate::vm::StackCell>, crate::vm::VMStatus),
> {
    match crate::vm::spec_frame_type_at_depth(s, vm.status.frame_pointer as int, depth) {
        Option::None => Option::None,
        Some(target_frame_type) => match crate::vm::spec_frame_param_count(
            vm,
            target_frame_type,
        ) {
            Option::None => Option::None,
            Some(carried_count) => crate::vm::spec_pop_frames(
                s,
                vm.status,
                carried_count,
                depth + 1,
            ),
        },
    }
}

/// What `end` owes: the exact error when a check of the frame discipline
/// or of the carried result types fails, and otherwise the popped stack,
/// the restored status, and `ProgramEnd` exactly at the sentinel.
pub open spec fn spec_end_post(
    pre: VM,
    option_block_index: Option<usize>,
    post_stack: Seq<crate::vm::StackCell>,
    post_status: crate::vm::VMStatus,
    r: Result<StepResult, EngineError>,
) -> bool {
    let s = pre@;
    let st = pre.status;
    let is_call = st.frame_pointer == st.local_pointer;
    let named_block_index = match option_block_index {
        Some(index) => index,
        None => 0,
    };
    match crate::vm::spec_frame_result_types(pre, st.frame_type) {
        Option::None => r == Err::<StepResult, EngineError>(
            EngineError::InvalidOperation(InvalidOperation::InvalidTypeIndex),
        ),
        Some(result_types) => {
            let n = result_types.len() as int;
            let oc = crate::vm::spec_available_operands(s, st);
            if oc < n {
                r == Err::<StepResult, EngineError>(
                    if is_call {
                        EngineError::InvalidOperation(
                            InvalidOperation::NotEnoughOperandForFunctionResult {
                                vm_module_index: st.vm_module_index,
                                function_index: st.function_index,
                                results_count: n as usize,
                                operands_count: oc as usize,
                            },
                        )
                    } else {
                        EngineError::InvalidOperation(
                            InvalidOperation::NotEnoughOperandForBlockResult {
                                vm_module_index: st.vm_module_index,
                                function_index: st.function_index,
                                block_index: named_block_index,
                                results_count: n as usize,
                                operands_count: oc as usize,
                            },
                        )
                    },
                )
            } else if !crate::vm::spec_all_operands(s, s.len() - n, s.len() as int) {
                r == Err::<StepResult, EngineError>(
                    EngineError::InvalidOperation(InvalidOperation::NotEnoughOperand),
                )
            } else {
                let values = crate::vm::spec_top_values(s, n);
                match crate::values::spec_first_type_mismatch_from(values, result_types, 0) {
                    Some(k) => r == Err::<StepResult, EngineError>(
                        if is_call {
                            EngineError::TypeMismatch(
                                TypeMismatch::FunctionResultTypeMismatch {
                                    vm_module_index: st.vm_module_index,
                                    function_index: st.function_index,
                                    result_index: k as usize,
                                    result_type: result_types[k],
                                    value_type: values[k].spec_get_type(),
                                },
                            )
                        } else {
                            EngineError::TypeMismatch(
                                TypeMismatch::BlockResultTypeMismatch {
                                    vm_module_index: st.vm_module_index,
                                    function_index: st.function_index,
                                    block_index: named_block_index,
                                    result_index: k as usize,
                                    result_type: result_types[k],
                                    value_type: values[k].spec_get_type(),
                                },
                            )
                        },
                    ),
                    Option::None => match crate::vm::spec_pop_frame(s, st, n) {
                        Option::None => r is Err,
                        Some(after) => {
                            &&& post_stack == after.0
                            &&& post_status == after.1
                            &&& r == Ok::<StepResult, EngineError>(
                                if after.1.frame_pointer == INITIAL_FRAME_POINTER {
                                    StepResult::ProgramEnd
                                } else {
                                    StepResult::Continue
                                },
                            )
                        },
                    },
                }
            }
        },
    }
}

/// What a call into a decoded module's function owes: the range checks on
/// the pre-resolved indices, then the call-frame entry: the arguments on
/// top of the stack become the first locals above a fresh frame-info
/// record, the declared extra locals are zero filled, and in the entered
/// frame the frame pointer and the local pointer are equal.
pub open spec fn spec_call_post(
    pre: VM,
    vm_module_index: usize,
    type_index: usize,
    function_index: usize,
    internal_function_index: usize,
    address: usize,
    post_stack: Seq<crate::vm::StackCell>,
    post_status: crate::vm::VMStatus,
    outcome: Result<(), EngineError>,
) -> bool {
    if vm_module_index >= pre.resource.vm_modules@.len() {
        outcome == Err::<(), EngineError>(
            EngineError::InvalidOperation(InvalidOperation::InvalidFunctionIndex),
        )
    } else {
        let target = pre.resource.vm_modules@[vm_module_index as int];
        if type_index >= target.function_types@.len() {
            outcome == Err::<(), EngineError>(
                EngineError::InvalidOperation(InvalidOperation::InvalidTypeIndex),
            )
        } else if internal_function_index >= target.internal_function_local_types@.len() {
            outcome == Err::<(), EngineError>(
                EngineError::InvalidOperation(InvalidOperation::InvalidFunctionIndex),
            )
        } else {
            let params = target.function_types@[type_index as int].params@.len() as int;
            let locals = target.internal_function_local_types@[internal_function_index as int]@;
            if params > crate::vm::spec_available_operands(pre@, pre.status) || pre.status.address
                == usize::MAX || type_index > u32::MAX {
                outcome is Err
            } else {
                &&& outcome == Ok::<(), EngineError>(())
                &&& post_status.vm_module_index == vm_module_index
                &&& post_status.function_index == function_index
                &&& post_status.frame_type == BlockType::TypeIndex(type_index as u32)
                &&& post_status.address == address
                &&& post_status.frame_pointer == post_status.local_pointer
                &&& post_status.frame_pointer == pre@.len() - params + 1
                &&& post_status.base_pointer == post_status.frame_pointer + params + locals.len()
                &&& post_stack == pre@.insert(
                    pre@.len() - params,
                    crate::vm::StackCell::Info(
                        crate::vm::FrameInfo {
                            previous_frame_pointer: pre.status.frame_pointer,
                            previous_local_pointer: pre.status.local_pointer,
                            previous_base_pointer: pre.status.base_pointer,
                            return_vm_module_index: pre.status.vm_module_index,
                            return_function_index: pre.status.function_index,
                            return_address: (pre.status.address + 1) as usize,
                            frame_type: BlockType::TypeIndex(type_index as u32),
                        },
                    ),
                ) + Seq::new(
                    locals.len(),
                    |i: int| crate::vm::StackCell::Operand(Value::spec_zero_of(locals[i])),
                )
            }
        }
    }
}

/// What entering a structured block owes, on a machine whose stack is `s`
/// and whose status and module data are `pre`'s: the block's parameters
/// are peeled off the operand region above a fresh frame-info record whose
/// return address points one past the block's `end`, the local pointer is
/// inherited, and execution continues at `entry_address`.
pub open spec fn spec_block_entry_post(
    pre: VM,
    s: Seq<crate::vm::StackCell>,
    frame_type: BlockType,
    entry_address: usize,
    end_address: usize,
    post_stack: Seq<crate::vm::StackCell>,
    post_status: crate::vm::VMStatus,
    outcome: Result<(), EngineError>,
) -> bool {
    match crate::vm::spec_frame_param_count(pre, frame_type) {
        Option::None => outcome == Err::<(), EngineError>(
            EngineError::InvalidOperation(InvalidOperation::InvalidTypeIndex),
        ),
        Some(params) => if params > crate::vm::spec_available_operands(s, pre.status)
            || end_address == usize::MAX {
            outcome is Err
        } else {
            &&& outcome == Ok::<(), EngineError>(())
            &&& post_status.vm_module_index == pre.status.vm_module_index
            &&& post_status.function_index == pre.status.function_index
            &&& post_status.local_pointer == pre.status.local_pointer
            &&& post_status.frame_type == frame_type
            &&& post_status.address == entry_address
            &&& post_status.frame_pointer == s.len() - params + 1
            &&& post_status.base_pointer == post_status.frame_pointer
            &&& post_stack == s.insert(
                s.len() - params,
                crate::vm::StackCell::Info(
                    crate::vm::FrameInfo {
                        previous_frame_pointer: pre.status.frame_pointer,
                        previous_local_pointer: pre.status.local_pointer,
                        previous_base_pointer: pre.status.base_pointer,
                        return_vm_module_index: pre.status.vm_module_index,
                        return_function_index: pre.status.function_index,
                        return_address: (end_address + 1) as usize,
                        frame_type,
                    },
                ),
            )
        },
    }
}

/// The sequential opcodes the stream represents but the engine refuses
/// outright: saturating truncation, the bulk memory and table operations,
/// and every floating-point computation.
pub open spec fn spec_refused_sequence(op: ast::Instruction) -> bool {
    match op {
        // saturating truncation
        ast::Instruction::I32TruncSatF32S => true,
        ast::Instruction::I32TruncSatF32U => true,
        ast::Instruction::I32TruncSatF64S => true,
        ast::Instruction::I32TruncSatF64U => true,
        ast::Instruction::I64TruncSatF32S => true,
        ast::Instruction::I64TruncSatF32U => true,
        ast::Instruction::I64TruncSatF64S => true,
        ast::Instruction::I64TruncSatF64U => true,
        // bulk memory
        ast::Instruction::MemoryInit(_, _) => true,
        ast::Instruction::DataDrop(_) => true,
        ast::Instruction::MemoryCopy(_, _) => true,
        ast::Instruction::MemoryFill(_) => true,
        // table operations
        ast::Instruction::TableGet(_) => true,
        ast::Instruction::TableSet(_) => true,
        ast::Instruction::TableInit(_, _) => true,
        ast::Instruction::ElementDrop(_) => true,
        ast::Instruction::TableCopy(_, _) => true,
        ast::Instruction::TableGrow(_) => true,
        ast::Instruction::TableSize(_) => true,
        ast::Instruction::TableFill(_) => true,
        // floating-point comparison
        ast::Instruction::F32Eq => true,
        ast::Instruction::F32Ne => true,
        ast::Instruction::F32Lt => true,
        ast::Instruction::F32Gt => true,
        ast::Instruction::F32Le => true,
        ast::Instruction::F32Ge => true,
        ast::Instruction::F64Eq => true,
        ast::Instruction::F64Ne => true,
        ast::Instruction::F64Lt => true,
        ast::Instruction::F64Gt => true,
        ast::Instruction::F64Le => true,
        ast::Instruction::F64Ge => true,
        // floating-point arithmetic
        ast::Instruction::F32Abs => true,
        ast::Instruction::F32Neg => true,
        ast::Instruction::F32Ceil => true,
        ast::Instruction::F32Floor => true,
        ast::Instruction::F32Trunc => true,
        ast::Instruction::F32Nearest => true,
        ast::Instruction::F32Sqrt => true,
        ast::Instruction::F32Add => true,
        ast::Instruction::F32Sub => true,
        ast::Instruction::F32Mul => true,
        ast::Instruction::F32Div => true,
        ast::Instruction::F32Min => true,
        ast::Instruction::F32Max => true,
        ast::Instruction::F32CopySign => true,
        ast::Instruction::F64Abs => true,
        ast::Instruction::F64Neg => true,
        ast::Instruction::F64Ceil => true,
        ast::Instruction::F64Floor => true,
        ast::Instruction::F64Trunc => true,
        ast::Instruction::F64Nearest => true,
        ast::Instruction::F64Sqrt => true,
        ast::Instruction::F64Add => true,
        ast::Instruction::F64Sub => true,
        ast::Instruction::F64Mul => true,
        ast::Instruction::F64Div => true,
        ast::Instruction::F64Min => true,
        ast::Instruction::F64Max => true,
        ast::Instruction::F64CopySign => true,
        // floating-point conversion
        ast::Instruction::I32TruncF32S => true,
        ast::Instruction::I32TruncF32U => true,
        ast::Instruction::I32TruncF64S => true,
        ast::Instruction::I32TruncF64U => true,
        ast::Instruction::I64TruncF32S => true,
        ast::Instruction::I64TruncF32U => true,
        ast::Instruction::I64TruncF64S => true,
        ast::Instruction::I64TruncF64U => true,
        ast::Instruction::F32ConvertI32S => true,
        ast::Instruction::F32ConvertI32U => true,
        ast::Instruction::F32ConvertI64S => true,
        ast::Instruction::F32ConvertI64U => true,
        ast::Instruction::F32DemoteF64 => true,
        ast::Instruction::F64ConvertI32S => true,
        ast::Instruction::F64ConvertI32U => true,
        ast::Instruction::F64ConvertI64S => true,
        ast::Instruction::F64ConvertI64U => true,
        ast::Instruction::F64PromoteF32 => true,
        _ => false,
    }
}

/// The `i32` binary numeric instructions.
pub open spec fn spec_is_i32_binary(op: ast::Instruction) -> bool {
    ||| op == ast::Instruction::I32Add
    ||| op == ast::Instruction::I32Sub
    ||| op == ast::Instruction::I32Mul
    ||| op == ast::Instruction::I32DivS
    ||| op == ast::Instruction::I32DivU
    ||| op == ast::Instruction::I32RemS
    ||| op == ast::Instruction::I32RemU
    ||| op == ast::Instruction::I32And
    ||| op == ast::Instruction::I32Or
    ||| op == ast::Instruction::I32Xor
    ||| op == ast::Instruction::I32Shl
    ||| op == ast::Instruction::I32ShrS
    ||| op == ast::Instruction::I32ShrU
    ||| op == ast::Instruction::I32Rotl
    ||| op == ast::Instruction::I32Rotr
}

/// The `i64` binary numeric instructions.
pub open spec fn spec_is_i64_binary(op: ast::Instruction) -> bool {
    ||| op == ast::Instruction::I64Add
    ||| op == ast::Instruction::I64Sub
    ||| op == ast::Instruction::I64Mul
    ||| op == ast::Instruction::I64DivS
    ||| op == ast::Instruction::I64DivU
    ||| op == ast::Instruction::I64RemS
    ||| op == ast::Instruction::I64RemU
    ||| op == ast::Instruction::I64And
    ||| op == ast::Instruction::I64Or
    ||| op == ast::Instruction::I64Xor
    ||| op == ast::Instruction::I64Shl
    ||| op == ast::Instruction::I64ShrS
    ||| op == ast::Instruction::I64ShrU
    ||| op == ast::Instruction::I64Rotl
    ||| op == ast::Instruction::I64Rotr
}

/// The `i32` comparison instructions.
pub open spec fn spec_is_i32_comparison(op: ast::Instruction) -> bool {
    ||| op == ast::Instruction::I32Eq
    ||| op == ast::Instruction::I32Ne
    ||| op == ast::Instruction::I32LtS
    ||| op == ast::Instruction::I32LtU
    ||| op == ast::Instruction::I32GtS
    ||| op == ast::Instruction::I32GtU
    ||| op == ast::Instruction::I32LeS
    ||| op == ast::Instruction::I32LeU
    ||| op == ast::Instruction::I32GeS
    ||| op == ast::Instruction::I32GeU
}

/// The `i64` comparison instructions.
pub open spec fn spec_is_i64_comparison(op: ast::Instruction) -> bool {
    ||| op == ast::Instruction::I64Eq
    ||| op == ast::Instruction::I64Ne
    ||| op == ast::Instruction::I64LtS
    ||| op == ast::Instruction::I64LtU
    ||| op == ast::Instruction::I64GtS
    ||| op == ast::Instruction::I64GtU
    ||| op == ast::Instruction::I64LeS
    ||| op == ast::Instruction::I64LeU
    ||| op == ast::Instruction::I64GeS
    ||| op == ast::Instruction::I64GeU
}

/// The signed reading of an unsigned 32-bit pattern.
pub open spec fn spec_signed32(x: u32) -> int {
    if x < 0x8000_0000 {
        x as int
    } else {
        x - 0x1_0000_0000
    }
}

/// The signed reading of an unsigned 64-bit pattern.
pub open spec fn spec_signed64(x: u64) -> int {
    if x < 0x8000_0000_0000_0000 {
        x as int
    } else {
        x - 0x1_0000_0000_0000_0000
    }
}

/// Reinterprets a 32-bit pattern as signed.
fn to_signed32(x: u32) -> (r: i32)
    ensures
        r as int == spec_signed32(x),
{
    if x < 0x8000_0000 {
        #[verifier::truncate] (x as i32)
    } else {
        let low = x - 0x8000_0000;
        proof {
            assert(low < 0x8000_0000);
        }
        (low as i32) + i32::MIN
    }
}

/// Reinterprets a signed 32-bit value as its unsigned pattern.
fn to_unsigned32(x: i32) -> (r: u32)
    ensures
        spec_signed32(r) == x as int,
        r == spec_unsigned32(x as int),
{
    if x >= 0 {
        x as u32
    } else {
        let above = x - i32::MIN;
        proof {
            assert(0 <= above < 0x8000_0000);
        }
        (above as u32) + 0x8000_0000
    }
}

/// Reinterprets a 64-bit pattern as signed.
fn to_signed64(x: u64) -> (r: i64)
    ensures
        r as int == spec_signed64(x),
{
    if x < 0x8000_0000_0000_0000 {
        #[verifier::truncate] (x as i64)
    } else {
        let low = x - 0x8000_0000_0000_0000;
        proof {
            assert(low < 0x8000_0000_0000_0000);
        }
        (low as i64) + i64::MIN
    }
}

/// Reinterprets a signed 64-bit value as its unsigned pattern.
fn to_unsigned64(x: i64) -> (r: u64)
    ensures
        spec_signed64(r) == x as int,
        r == spec_unsigned64(x as int),
{
    if x >= 0 {
        x as u64
    } else {
        let above = x - i64::MIN;
        proof {
            assert(0 <= above < 0x8000_0000_0000_0000);
        }
        (above as u64) + 0x8000_0000_0000_0000
    }
}

/// Reduction of an integer to 32 bits.
pub open spec fn spec_wrap32(x: int) -> u32 {
    (x % 0x1_0000_0000) as u32
}

/// Reduction of an integer to 64 bits.
pub open spec fn spec_wrap64(x: int) -> u64 {
    (x % 0x1_0000_0000_0000_0000) as u64
}

/// The unsigned 32-bit pattern of a signed value.
pub open spec fn spec_unsigned32(x: int) -> u32 {
    if x >= 0 {
        x as u32
    } else {
        (x + 0x1_0000_0000) as u32
    }
}

/// The unsigned 64-bit pattern of a signed value.
pub open spec fn spec_unsigned64(x: int) -> u64 {
    if x >= 0 {
        x as u64
    } else {
        (x + 0x1_0000_0000_0000_0000) as u64
    }
}

/// Signed division truncating toward zero, as the division instructions
/// define it.
pub open spec fn spec_trunc_div(x: int, y: int) -> int {
    if x == 0 {
        0
    } else if x > 0 && y > 0 {
        x / y
    } else if x < 0 && y < 0 {
        (x * -1) / (y * -1)
    } else if x < 0 {
        ((x * -1) / y) * -1
    } else {
        (x / (y * -1)) * -1
    }
}

/// The remainder of truncating division: it carries the dividend's sign.
pub open spec fn spec_trunc_rem(x: int, y: int) -> int {
    if x == 0 {
        0
    } else if x > 0 && y > 0 {
        x % y
    } else if x < 0 && y < 0 {
        ((x * -1) % (y * -1)) * -1
    } else if x < 0 {
        ((x * -1) % y) * -1
    } else {
        x % (y * -1)
    }
}

/// The value an `i32` binary numeric instruction computes from its two
/// operands (first pushed, last pushed), or the trap it raises.
pub open spec fn spec_i32_binary_result(instruction: ast::Instruction, a: u32, b: u32) -> Result<
    u32,
    EngineError,
> {
    match instruction {
        ast::Instruction::I32Add => Ok(spec_wrap32(a + b)),
        ast::Instruction::I32Sub => Ok(spec_wrap32(a - b)),
        ast::Instruction::I32Mul => Ok(spec_wrap32(a * b)),
        ast::Instruction::I32DivU => if b == 0 {
            Err(EngineError::InvalidOperation(InvalidOperation::IntegerDivideByZero))
        } else {
            Ok((a as int / b as int) as u32)
        },
        ast::Instruction::I32RemU => if b == 0 {
            Err(EngineError::InvalidOperation(InvalidOperation::IntegerDivideByZero))
        } else {
            Ok((a as int % b as int) as u32)
        },
        ast::Instruction::I32DivS => {
            let sa = spec_signed32(a);
            let sb = spec_signed32(b);
            if sb == 0 {
                Err(EngineError::InvalidOperation(InvalidOperation::IntegerDivideByZero))
            } else {
                let quotient = spec_trunc_div(sa, sb);
                if quotient < i32::MIN || quotient > i32::MAX {
                    Err(EngineError::InvalidOperation(InvalidOperation::IntegerOverflow))
                } else {
                    Ok(spec_unsigned32(quotient))
                }
            }
        },
        ast::Instruction::I32RemS => {
            let sa = spec_signed32(a);
            let sb = spec_signed32(b);
            if sb == 0 {
                Err(EngineError::InvalidOperation(InvalidOperation::IntegerDivideByZero))
            } else {
                Ok(spec_unsigned32(spec_trunc_rem(sa, sb)))
            }
        },
        ast::Instruction::I32And => Ok(a & b),
        ast::Instruction::I32Or => Ok(a | b),
        ast::Instruction::I32Xor => Ok(a ^ b),
        ast::Instruction::I32Shl => Ok(a << (b % 32)),
        ast::Instruction::I32ShrU => Ok(a >> (b % 32)),
        ast::Instruction::I32ShrS => Ok(
            spec_unsigned32((((spec_signed32(a) as i32) >> (b % 32)) as int)),
        ),
        ast::Instruction::I32Rotl => {
            let k = b % 32;
            if k == 0 {
                Ok(a)
            } else {
                Ok((a << k) | (a >> ((32 - k) as u32)))
            }
        },
        ast::Instruction::I32Rotr => {
            let k = b % 32;
            if k == 0 {
                Ok(a)
            } else {
                Ok((a >> k) | (a << ((32 - k) as u32)))
            }
        },
        _ => Err(EngineError::Unsupported(Unsupported::UnsupportedInstruction)),
    }
}

/// The value an `i64` binary numeric instruction computes, or its trap.
pub open spec fn spec_i64_binary_result(instruction: ast::Instruction, a: u64, b: u64) -> Result<
    u64,
    EngineError,
> {
    match instruction {
        ast::Instruction::I64Add => Ok(spec_wrap64(a + b)),
        ast::Instruction::I64Sub => Ok(spec_wrap64(a - b)),
        ast::Instruction::I64Mul => Ok(spec_wrap64(a * b)),
        ast::Instruction::I64DivU => if b == 0 {
            Err(EngineError::InvalidOperation(InvalidOperation::IntegerDivideByZero))
        } else {
            Ok((a as int / b as int) as u64)
        },
        ast::Instruction::I64RemU => if b == 0 {
            Err(EngineError::InvalidOperation(InvalidOperation::IntegerDivideByZero))
        } else {
            Ok((a as int % b as int) as u64)
        },
        ast::Instruction::I64DivS => {
            let sa = spec_signed64(a);
            let sb = spec_signed64(b);
            if sb == 0 {
                Err(EngineError::InvalidOperation(InvalidOperation::IntegerDivideByZero))
            } else {
                let quotient = spec_trunc_div(sa, sb);
                if quotient < i64::MIN || quotient > i64::MAX {
                    Err(EngineError::InvalidOperation(InvalidOperation::IntegerOverflow))
                } else {
                    Ok(spec_unsigned64(quotient))
                }
            }
        },
        ast::Instruction::I64RemS => {
            let sa = spec_signed64(a);
            let sb = spec_signed64(b);
            if sb == 0 {
                Err(EngineError::InvalidOperation(InvalidOperation::IntegerDivideByZero))
            } else {
                Ok(spec_unsigned64(spec_trunc_rem(sa, sb)))
            }
        },
        ast::Instruction::I64And => Ok(a & b),
        ast::Instruction::I64Or => Ok(a | b),
        ast::Instruction::I64Xor => Ok(a ^ b),
        ast::Instruction::I64Shl => Ok(a << (b % 64)),
        ast::Instruction::I64ShrU => Ok(a >> (b % 64)),
        ast::Instruction::I64ShrS => Ok(
            spec_unsigned64((((spec_signed64(a) as i64) >> (b % 64)) as int)),
        ),
        ast::Instruction::I64Rotl => {
            let k = b % 64;
            if k == 0 {
                Ok(a)
            } else {
                Ok((a << k) | (a >> ((64 - k) as u64)))
            }
        },
        ast::Instruction::I64Rotr => {
            let k = b % 64;
            if k == 0 {
                Ok(a)
            } else {
                Ok((a >> k) | (a << ((64 - k) as u64)))
            }
        },
        _ => Err(EngineError::Unsupported(Unsupported::UnsupportedInstruction)),
    }
}

/// The flag an `i32` comparison instruction computes from its two
/// operands.
pub open spec fn spec_i32_comparison_result(instruction: ast::Instruction, a: u32, b: u32) -> Result<
    bool,
    EngineError,
> {
    match instruction {
        ast::Instruction::I32Eq => Ok(a == b),
        ast::Instruction::I32Ne => Ok(a != b),
        ast::Instruction::I32LtU => Ok(a < b),
        ast::Instruction::I32GtU => Ok(a > b),
        ast::Instruction::I32LeU => Ok(a <= b),
        ast::Instruction::I32GeU => Ok(a >= b),
        ast::Instruction::I32LtS => Ok(spec_signed32(a) < spec_signed32(b)),
        ast::Instruction::I32GtS => Ok(spec_signed32(a) > spec_signed32(b)),
        ast::Instruction::I32LeS => Ok(spec_signed32(a) <= spec_signed32(b)),
        ast::Instruction::I32GeS => Ok(spec_signed32(a) >= spec_signed32(b)),
        _ => Err(EngineError::Unsupported(Unsupported::UnsupportedInstruction)),
    }
}

/// The flag an `i64` comparison instruction computes from its two
/// operands.
pub open spec fn spec_i64_comparison_result(instruction: ast::Instruction, a: u64, b: u64) -> Result<
    bool,
    EngineError,
> {
    match instruction {
        ast::Instruction::I64Eq => Ok(a == b),
        ast::Instruction::I64Ne => Ok(a != b),
        ast::Instruction::I64LtU => Ok(a < b),
        ast::Instruction::I64GtU => Ok(a > b),
        ast::Instruction::I64LeU => Ok(a <= b),
        ast::Instruction::I64GeU => Ok(a >= b),
        ast::Instruction::I64LtS => Ok(spec_signed64(a) < spec_signed64(b)),
        ast::Instruction::I64GtS => Ok(spec_signed64(a) > spec_signed64(b)),
        ast::Instruction::I64LeS => Ok(spec_signed64(a) <= spec_signed64(b)),
        ast::Instruction::I64GeS => Ok(spec_signed64(a) >= spec_signed64(b)),
        _ => Err(EngineError::Unsupported(Unsupported::UnsupportedInstruction)),
    }
}

/// Pops one operand of the current frame's operand region.
fn vm_pop(vm: &mut VM) -> (r: Result<Value, EngineError>)
    ensures
        match r {
            Ok(v) => old(vm)@.len() > 0 && old(vm)@.last() == crate::vm::StackCell::Operand(v)
                && final(vm)@ == old(vm)@.drop_last(),
            Err(_) => final(vm)@ == old(vm)@,
        },
        (old(vm).status.base_pointer < old(vm)@.len() && old(vm)@.len() > 0 && old(
            vm,
        )@.last() is Operand) ==> r is Ok,
        final(vm).status == old(vm).status,
        final(vm).resource == old(vm).resource,
        final(vm).pending == old(vm).pending,
{
    let size = vm.stack.get_size();
    if vm.status.base_pointer >= size {
        return Err(EngineError::InvalidOperation(InvalidOperation::NotEnoughOperand));
    }
    vm.stack.pop_value()
}

/// Pops an `i32` operand.
fn vm_pop_i32(vm: &mut VM) -> (r: Result<u32, EngineError>)
    ensures
        match r {
            Ok(v) => old(vm)@.len() > 0 && old(vm)@.last() == crate::vm::StackCell::Operand(
                Value::I32(v),
            ) && final(vm)@ == old(vm)@.drop_last(),
            Err(_) => true,
        },
        (old(vm).status.base_pointer < old(vm)@.len() && old(vm)@.len() > 0 && (old(
            vm,
        )@.last() matches crate::vm::StackCell::Operand(Value::I32(_)))) ==> r is Ok,
        final(vm).status == old(vm).status,
        final(vm).resource == old(vm).resource,
        final(vm).pending == old(vm).pending,
{
    let value = vm_pop(vm)?;
    match value {
        Value::I32(v) => Ok(v),
        _ => Err(
            EngineError::TypeMismatch(
                TypeMismatch::OperandTypeMismatch(ValueType::I32, value.get_type()),
            ),
        ),
    }
}

/// Pops an `i64` operand.
fn vm_pop_i64(vm: &mut VM) -> (r: Result<u64, EngineError>)
    ensures
        match r {
            Ok(v) => old(vm)@.len() > 0 && old(vm)@.last() == crate::vm::StackCell::Operand(
                Value::I64(v),
            ) && final(vm)@ == old(vm)@.drop_last(),
            Err(_) => true,
        },
        (old(vm).status.base_pointer < old(vm)@.len() && old(vm)@.len() > 0 && (old(
            vm,
        )@.last() matches crate::vm::StackCell::Operand(Value::I64(_)))) ==> r is Ok,
        final(vm).status == old(vm).status,
        final(vm).resource == old(vm).resource,
        final(vm).pending == old(vm).pending,
{
    let value = vm_pop(vm)?;
    match value {
        Value::I64(v) => Ok(v),
        _ => Err(
            EngineError::TypeMismatch(
                TypeMismatch::OperandTypeMismatch(ValueType::I64, value.get_type()),
            ),
        ),
    }
}

/// Pops two `i32` operands: the result pair is (first pushed, last pushed).
fn vm_pop_i32_pair(vm: &mut VM) -> (r: Result<(u32, u32), EngineError>)
    ensures
        final(vm).status == old(vm).status,
        final(vm).resource == old(vm).resource,
        final(vm).pending == old(vm).pending,
        ({
            let s = old(vm)@;
            &&& ((old(vm).status.base_pointer + 2 <= s.len() && (s[s.len() - 2] matches
                crate::vm::StackCell::Operand(Value::I32(_))) && (s[s.len() - 1] matches
                crate::vm::StackCell::Operand(Value::I32(_)))) ==> r is Ok)
            &&& (r matches Ok(pair) ==> s.len() >= 2 && s[s.len() - 2]
                == crate::vm::StackCell::Operand(Value::I32(pair.0)) && s[s.len() - 1]
                == crate::vm::StackCell::Operand(Value::I32(pair.1)) && final(vm)@ == s.take(
                s.len() - 2,
            ))
        }),
{
    let b = vm_pop_i32(vm)?;
    let a = vm_pop_i32(vm)?;
    proof {
        assert(vm@ =~= old(vm)@.take(old(vm)@.len() - 2));
    }
    Ok((a, b))
}

/// Pops two `i64` operands: the result pair is (first pushed, last pushed).
fn vm_pop_i64_pair(vm: &mut VM) -> (r: Result<(u64, u64), EngineError>)
    ensures
        final(vm).status == old(vm).status,
        final(vm).resource == old(vm).resource,
        final(vm).pending == old(vm).pending,
        ({
            let s = old(vm)@;
            &&& ((old(vm).status.base_pointer + 2 <= s.len() && (s[s.len() - 2] matches
                crate::vm::StackCell::Operand(Value::I64(_))) && (s[s.len() - 1] matches
                crate::vm::StackCell::Operand(Value::I64(_)))) ==> r is Ok)
            &&& (r matches Ok(pair) ==> s.len() >= 2 && s[s.len() - 2]
                == crate::vm::StackCell::Operand(Value::I64(pair.0)) && s[s.len() - 1]
                == crate::vm::StackCell::Operand(Value::I64(pair.1)) && final(vm)@ == s.take(
                s.len() - 2,
            ))
        }),
{
    let b = vm_pop_i64(vm)?;
    let a = vm_pop_i64(vm)?;
    proof {
        assert(vm@ =~= old(vm)@.take(old(vm)@.len() - 2));
    }
    Ok((a, b))
}

fn bool_i32(c: bool) -> (r: u32)
    ensures
        r == (if c {
            1u32
        } else {
            0u32
        }),
{
    if c {
        1
    } else {
        0
    }
}

/// Executes one `i32` binary numeric instruction.
fn exec_i32_binary(vm: &mut VM, instruction: &ast::Instruction) -> (r: Result<(), EngineError>)
    ensures
        final(vm).resource == old(vm).resource,
        final(vm).pending == old(vm).pending,
        final(vm).status == old(vm).status,
        // with two operands of the right type on top, the exact result
        ({
            let s = old(vm)@;
            (old(vm).status.base_pointer + 2 <= s.len()) ==> (s[s.len() - 2] matches
                crate::vm::StackCell::Operand(Value::I32(a)) ==> (s[s.len() - 1] matches
                crate::vm::StackCell::Operand(Value::I32(b)) ==> (match spec_i32_binary_result(
                *instruction,
                a,
                b,
            ) {
                Ok(v) => r is Ok && final(vm)@ == s.take(s.len() - 2).push(
                    crate::vm::StackCell::Operand(Value::I32(v)),
                ),
                Err(e) => r == Err::<(), EngineError>(e) && final(vm)@ == s.take(s.len() - 2),
            })))
        }),
{
    let (a, b) = vm_pop_i32_pair(vm)?;
    let result: u32 = match instruction {
        ast::Instruction::I32Add => a.wrapping_add(b),
        ast::Instruction::I32Sub => a.wrapping_sub(b),
        ast::Instruction::I32Mul => a.wrapping_mul(b),
        ast::Instruction::I32DivU => {
            if b == 0 {
                return Err(EngineError::InvalidOperation(InvalidOperation::IntegerDivideByZero));
            }
            a / b
        },
        ast::Instruction::I32RemU => {
            if b == 0 {
                return Err(EngineError::InvalidOperation(InvalidOperation::IntegerDivideByZero));
            }
            a % b
        },
        ast::Instruction::I32DivS => {
            let sa = to_signed32(a);
            let sb = to_signed32(b);
            if sb == 0 {
                return Err(EngineError::InvalidOperation(InvalidOperation::IntegerDivideByZero));
            }
            match sa.checked_div(sb) {
                Some(q) => to_unsigned32(q),
                None => {
                    return Err(
                        EngineError::InvalidOperation(InvalidOperation::IntegerOverflow),
                    );
                },
            }
        },
        ast::Instruction::I32RemS => {
            let sa = to_signed32(a);
            let sb = to_signed32(b);
            if sb == 0 {
                return Err(EngineError::InvalidOperation(InvalidOperation::IntegerDivideByZero));
            }
            if sa == i32::MIN && sb == -1 {
                // the quotient overflows but the remainder is zero
                0
            } else {
                match sa.checked_rem(sb) {
                    Some(q) => to_unsigned32(q),
                    None => {
                        return Err(
                            EngineError::InvalidOperation(InvalidOperation::IntegerOverflow),
                        );
                    },
                }
            }
        },
        ast::Instruction::I32And => a & b,
        ast::Instruction::I32Or => a | b,
        ast::Instruction::I32Xor => a ^ b,
        ast::Instruction::I32Shl => a << (b % 32),
        ast::Instruction::I32ShrU => a >> (b % 32),
        ast::Instruction::I32ShrS => {
            let sa = to_signed32(a);
            to_unsigned32(sa >> (b % 32))
        },
        ast::Instruction::I32Rotl => {
            let k = b % 32;
            if k == 0 {
                a
            } else {
                (a << k) | (a >> (32 - k))
            }
        },
        ast::Instruction::I32Rotr => {
            let k = b % 32;
            if k == 0 {
                a
            } else {
                (a >> k) | (a << (32 - k))
            }
        },
        _ => {
            return Err(EngineError::Unsupported(Unsupported::UnsupportedInstruction));
        },
    };
    vm.stack.push_value(Value::I32(result));
    Ok(())
}

/// Executes one `i64` binary numeric instruction.
fn exec_i64_binary(vm: &mut VM, instruction: &ast::Instruction) -> (r: Result<(), EngineError>)
    ensures
        final(vm).resource == old(vm).resource,
        final(vm).pending == old(vm).pending,
        final(vm).status == old(vm).status,
        // with two operands of the right type on top, the exact result
        ({
            let s = old(vm)@;
            (old(vm).status.base_pointer + 2 <= s.len()) ==> (s[s.len() - 2] matches
                crate::vm::StackCell::Operand(Value::I64(a)) ==> (s[s.len() - 1] matches
                crate::vm::StackCell::Operand(Value::I64(b)) ==> (match spec_i64_binary_result(
                *instruction,
                a,
                b,
            ) {
                Ok(v) => r is Ok && final(vm)@ == s.take(s.len() - 2).push(
                    crate::vm::StackCell::Operand(Value::I64(v)),
                ),
                Err(e) => r == Err::<(), EngineError>(e) && final(vm)@ == s.take(s.len() - 2),
            })))
        }),
{
    let (a, b) = vm_pop_i64_pair(vm)?;
    let result: u64 = match instruction {
        ast::Instruction::I64Add => a.wrapping_add(b),
        ast::Instruction::I64Sub => a.wrapping_sub(b),
        ast::Instruction::I64Mul => a.wrapping_mul(b),
        ast::Instruction::I64DivU => {
            if b == 0 {
                return Err(EngineError::InvalidOperation(InvalidOperation::IntegerDivideByZero));
            }
            a / b
        },
        ast::Instruction::I64RemU => {
            if b == 0 {
                return Err(EngineError::InvalidOperation(InvalidOperation::IntegerDivideByZero));
            }
            a % b
        },
        ast::Instruction::I64DivS => {
            let sa = to_signed64(a);
            let sb = to_signed64(b);
            if sb == 0 {
                return Err(EngineError::InvalidOperation(InvalidOperation::IntegerDivideByZero));
            }
            match sa.checked_div(sb) {
                Some(q) => to_unsigned64(q),
                None => {
                    return Err(
                        EngineError::InvalidOperation(InvalidOperation::IntegerOverflow),
                    );
                },
            }
        },
        ast::Instruction::I64RemS => {
            let sa = to_signed64(a);
            let sb = to_signed64(b);
            if sb == 0 {
                return Err(EngineError::InvalidOperation(InvalidOperation::IntegerDivideByZero));
            }
            if sa == i64::MIN && sb == -1 {
                0
            } else {
                match sa.checked_rem(sb) {
                    Some(q) => to_unsigned64(q),
                    None => {
                        return Err(
                            EngineError::InvalidOperation(InvalidOperation::IntegerOverflow),
                        );
                    },
                }
            }
        },
        ast::Instruction::I64And => a & b,
        ast::Instruction::I64Or => a | b,
        ast::Instruction::I64Xor => a ^ b,
        ast::Instruction::I64Shl => a << (b % 64),
        ast::Instruction::I64ShrU => a >> (b % 64),
        ast::Instruction::I64ShrS => {
            let sa = to_signed64(a);
            to_unsigned64(sa >> (b % 64))
        },
        ast::Instruction::I64Rotl => {
            let k = b % 64;
            if k == 0 {
                a
            } else {
                (a << k) | (a >> (64 - k))
            }
        },
        ast::Instruction::I64Rotr => {
            let k = b % 64;
            if k == 0 {
                a
            } else {
                (a >> k) | (a << (64 - k))
            }
        },
        _ => {
            return Err(EngineError::Unsupported(Unsupported::UnsupportedInstruction));
        },
    };
    vm.stack.push_value(Value::I64(result));
    Ok(())
}

/// Executes one `i32` comparison instruction, pushing 1 or 0.
fn exec_i32_comparison(vm: &mut VM, instruction: &ast::Instruction) -> (r: Result<
    (),
    EngineError,
>)
    ensures
        final(vm).resource == old(vm).resource,
        final(vm).pending == old(vm).pending,
        final(vm).status == old(vm).status,
        // with two operands of the right type on top, the exact result
        ({
            let s = old(vm)@;
            (old(vm).status.base_pointer + 2 <= s.len()) ==> (s[s.len() - 2] matches
                crate::vm::StackCell::Operand(Value::I32(a)) ==> (s[s.len() - 1] matches
                crate::vm::StackCell::Operand(Value::I32(b)) ==> (match spec_i32_comparison_result(
                *instruction,
                a,
                b,
            ) {
                Ok(v) => r is Ok && final(vm)@ == s.take(s.len() - 2).push(
                    crate::vm::StackCell::Operand(Value::I32(if v { 1u32 } else { 0u32 })),
                ),
                Err(e) => r == Err::<(), EngineError>(e) && final(vm)@ == s.take(s.len() - 2),
            })))
        }),
{
    let (a, b) = vm_pop_i32_pair(vm)?;
    let sa = to_signed32(a);
    let sb = to_signed32(b);
    let c: bool = match instruction {
        ast::Instruction::I32Eq => a == b,
        ast::Instruction::I32Ne => a != b,
        ast::Instruction::I32LtU => a < b,
        ast::Instruction::I32GtU => a > b,
        ast::Instruction::I32LeU => a <= b,
        ast::Instruction::I32GeU => a >= b,
        ast::Instruction::I32LtS => sa < sb,
        ast::Instruction::I32GtS => sa > sb,
        ast::Instruction::I32LeS => sa <= sb,
        ast::Instruction::I32GeS => sa >= sb,
        _ => {
            return Err(EngineError::Unsupported(Unsupported::UnsupportedInstruction));
        },
    };
    vm.stack.push_value(Value::I32(bool_i32(c)));
    Ok(())
}

/// Executes one `i64` comparison instruction, pushing an `i32` flag.
fn exec_i64_comparison(vm: &mut VM, instruction: &ast::Instruction) -> (r: Result<
    (),
    EngineError,
>)
    ensures
        final(vm).resource == old(vm).resource,
        final(vm).pending == old(vm).pending,
        final(vm).status == old(vm).status,
        // with two operands of the right type on top, the exact result
        ({
            let s = old(vm)@;
            (old(vm).status.base_pointer + 2 <= s.len()) ==> (s[s.len() - 2] matches
                crate::vm::StackCell::Operand(Value::I64(a)) ==> (s[s.len() - 1] matches
                crate::vm::StackCell::Operand(Value::I64(b)) ==> (match spec_i64_comparison_result(
                *instruction,
                a,
                b,
            ) {
                Ok(v) => r is Ok && final(vm)@ == s.take(s.len() - 2).push(
                    crate::vm::StackCell::Operand(Value::I32(if v { 1u32 } else { 0u32 })),
                ),
                Err(e) => r == Err::<(), EngineError>(e) && final(vm)@ == s.take(s.len() - 2),
            })))
        }),
{
    let (a, b) = vm_pop_i64_pair(vm)?;
    let sa = to_signed64(a);
    let sb = to_signed64(b);
    let c: bool = match instruction {
        ast::Instruction::I64Eq => a == b,
        ast::Instruction::I64Ne => a != b,
        ast::Instruction::I64LtU => a < b,
        ast::Instruction::I64GtU => a > b,
        ast::Instruction::I64LeU => a <= b,
        ast::Instruction::I64GeU => a >= b,
        ast::Instruction::I64LtS => sa < sb,
        ast::Instruction::I64GtS => sa > sb,
        ast::Instruction::I64LeS => sa <= sb,
        ast::Instruction::I64GeS => sa >= sb,
        _ => {
            return Err(EngineError::Unsupported(Unsupported::UnsupportedInstruction));
        },
    };
    vm.stack.push_value(Value::I32(bool_i32(c)));
    Ok(())
}

/// Count of set bits among the low `i` bits.
pub open spec fn spec_pop_low64(x: u64, i: int) -> int
    decreases i,
{
    if i <= 0 {
        0
    } else {
        spec_pop_low64(x, i - 1) + if x & (1u64 << ((i - 1) as u64)) != 0 {
            1int
        } else {
            0int
        }
    }
}

/// Counts the set bits of the low `width` bits of `x`.
fn popcnt64(x: u64, width: u64) -> (r: u64)
    requires
        width <= 64,
    ensures
        r == spec_pop_low64(x, width as int),
{
    let mut count: u64 = 0;
    let mut i: u64 = 0;
    while i < width
        invariant
            0 <= i <= width <= 64,
            count == spec_pop_low64(x, i as int),
            count <= i,
        decreases width - i,
    {
        if x & (1u64 << i) != 0 {
            count += 1;
        }
        i += 1;
    }
    count
}

/// Number of leading zero bits within the low `width` bits of `x`.
pub open spec fn spec_clz(x: u64, width: int) -> int
    decreases width,
{
    if width <= 0 {
        0
    } else if x & (1u64 << ((width - 1) as u64)) != 0 {
        0
    } else {
        1 + spec_clz(x, width - 1)
    }
}

/// Counts the leading zeros of the low `width` bits of `x`.
fn clz64(x: u64, width: u64) -> (r: u64)
    requires
        1 <= width <= 64,
    ensures
        r == spec_clz(x, width as int),
{
    let mut remaining: u64 = width;
    let mut count: u64 = 0;
    while remaining > 0
        invariant
            0 <= remaining <= width <= 64,
            count == width - remaining,
            spec_clz(x, width as int) == count + spec_clz(x, remaining as int),
        decreases remaining,
    {
        if x & (1u64 << (remaining - 1)) != 0 {
            proof {
                assert(spec_clz(x, remaining as int) == 0);
            }
            return count;
        }
        count += 1;
        remaining -= 1;
    }
    count
}

/// The position of the lowest set bit at or above position `i`, or `width`
/// when all remaining bits are clear: the trailing-zero count when started
/// at zero.
pub open spec fn spec_ctz_from(x: u64, i: int, width: int) -> int
    decreases width - i,
{
    if i < 0 || i >= width {
        width
    } else if x & (1u64 << (i as u64)) != 0 {
        i
    } else {
        spec_ctz_from(x, i + 1, width)
    }
}

/// Counts the trailing zeros of the low `width` bits of `x`.
fn ctz64(x: u64, width: u64) -> (r: u64)
    requires
        1 <= width <= 64,
    ensures
        r == spec_ctz_from(x, 0, width as int),
{
    let mut i: u64 = 0;
    while i < width
        invariant
            0 <= i <= width <= 64,
            spec_ctz_from(x, 0, width as int) == spec_ctz_from(x, i as int, width as int),
        decreases width - i,
    {
        if x & (1u64 << i) != 0 {
            return i;
        }
        i += 1;
    }
    width
}

/// The value an `i32` unary numeric instruction computes.
pub open spec fn spec_i32_unary_result(instruction: ast::Instruction, a: u32) -> Result<
    u32,
    EngineError,
> {
    match instruction {
        ast::Instruction::I32Clz => Ok(spec_clz(a as u64, 32) as u32),
        ast::Instruction::I32Ctz => Ok(spec_ctz_from(a as u64, 0, 32) as u32),
        ast::Instruction::I32PopCnt => Ok(spec_pop_low64(a as u64, 32) as u32),
        _ => Err(EngineError::Unsupported(Unsupported::UnsupportedInstruction)),
    }
}

/// The value an `i64` unary numeric instruction computes.
pub open spec fn spec_i64_unary_result(instruction: ast::Instruction, a: u64) -> Result<
    u64,
    EngineError,
> {
    match instruction {
        ast::Instruction::I64Clz => Ok(spec_clz(a, 64) as u64),
        ast::Instruction::I64Ctz => Ok(spec_ctz_from(a, 0, 64) as u64),
        ast::Instruction::I64PopCnt => Ok(spec_pop_low64(a, 64) as u64),
        _ => Err(EngineError::Unsupported(Unsupported::UnsupportedInstruction)),
    }
}

/// Executes one `i32` or `i64` unary numeric instruction.
fn exec_integer_unary(vm: &mut VM, instruction: &ast::Instruction) -> (r: Result<(), EngineError>)
    ensures
        final(vm).resource == old(vm).resource,
        final(vm).pending == old(vm).pending,
        final(vm).status == old(vm).status,
        ({
            let s = old(vm)@;
            ((*instruction == ast::Instruction::I32Clz || *instruction == ast::Instruction::I32Ctz
                || *instruction == ast::Instruction::I32PopCnt) && old(vm).status.base_pointer + 1
                <= s.len()) ==> (s[s.len() - 1] matches crate::vm::StackCell::Operand(
                Value::I32(a),
            ) ==> (match spec_i32_unary_result(*instruction, a) {
                Ok(v) => r is Ok && final(vm)@ == s.drop_last().push(
                    crate::vm::StackCell::Operand(Value::I32(v)),
                ),
                Err(_) => true,
            }))
        }),
        ({
            let s = old(vm)@;
            ((*instruction == ast::Instruction::I64Clz || *instruction == ast::Instruction::I64Ctz
                || *instruction == ast::Instruction::I64PopCnt) && old(vm).status.base_pointer + 1
                <= s.len()) ==> (s[s.len() - 1] matches crate::vm::StackCell::Operand(
                Value::I64(a),
            ) ==> (match spec_i64_unary_result(*instruction, a) {
                Ok(v) => r is Ok && final(vm)@ == s.drop_last().push(
                    crate::vm::StackCell::Operand(Value::I64(v)),
                ),
                Err(_) => true,
            }))
        }),
{
    match instruction {
        ast::Instruction::I32Clz => {
            let a = vm_pop_i32(vm)?;
            let r = clz64(a as u64, 32);
            vm.stack.push_value(Value::I32(r as u32));
        },
        ast::Instruction::I32Ctz => {
            let a = vm_pop_i32(vm)?;
            let r = ctz64(a as u64, 32);
            vm.stack.push_value(Value::I32(r as u32));
        },
        ast::Instruction::I32PopCnt => {
            let a = vm_pop_i32(vm)?;
            let r = popcnt64(a as u64, 32);
            vm.stack.push_value(Value::I32(r as u32));
        },
        ast::Instruction::I64Clz => {
            let a = vm_pop_i64(vm)?;
            let r = clz64(a, 64);
            vm.stack.push_value(Value::I64(r));
        },
        ast::Instruction::I64Ctz => {
            let a = vm_pop_i64(vm)?;
            let r = ctz64(a, 64);
            vm.stack.push_value(Value::I64(r));
        },
        ast::Instruction::I64PopCnt => {
            let a = vm_pop_i64(vm)?;
            let r = popcnt64(a, 64);
            vm.stack.push_value(Value::I64(r));
        },
        _ => {
            return Err(EngineError::Unsupported(Unsupported::UnsupportedInstruction));
        },
    }
    Ok(())
}

/// The mask of the low `bits` bits.
pub open spec fn spec_low_mask32(bits: u32) -> u32 {
    (((1u32 << bits) - 1) as u32)
}

/// The sign extension of the low `bits` of `x`: the low bits kept, and the
/// bits above them copied from the highest kept bit.
pub open spec fn spec_sign_extend32(x: u32, bits: u32) -> u32 {
    let low = (x & spec_low_mask32(bits)) as u32;
    if (low & (1u32 << ((bits - 1) as u32))) == 0 {
        low
    } else {
        (low | !spec_low_mask32(bits)) as u32
    }
}

/// Sign-extends the low `bits` of a 32-bit pattern.
fn sign_extend32(x: u32, bits: u32) -> (r: u32)
    requires
        bits == 8 || bits == 16,
    ensures
        r == spec_sign_extend32(x, bits),
{
    proof {
        assert((1u32 << bits) >= 1) by (bit_vector)
            requires
                bits == 8u32 || bits == 16u32,
        ;
    }
    let mask: u32 = (1u32 << bits) - 1;
    let low = x & mask;
    let sign_bit: u32 = 1u32 << (bits - 1);
    if low & sign_bit == 0 {
        low
    } else {
        low | (!mask)
    }
}

pub open spec fn spec_low_mask64(bits: u64) -> u64 {
    (((1u64 << bits) - 1) as u64)
}

/// The sign extension of the low `bits` of `x` in 64 bits.
pub open spec fn spec_sign_extend64(x: u64, bits: u64) -> u64 {
    let low = (x & spec_low_mask64(bits)) as u64;
    if (low & (1u64 << ((bits - 1) as u64))) == 0 {
        low
    } else {
        (low | !spec_low_mask64(bits)) as u64
    }
}

/// Sign-extends the low `bits` of a 64-bit pattern.
fn sign_extend64(x: u64, bits: u64) -> (r: u64)
    requires
        bits == 8 || bits == 16 || bits == 32,
    ensures
        r == spec_sign_extend64(x, bits),
{
    proof {
        assert((1u64 << bits) >= 1) by (bit_vector)
            requires
                bits == 8u64 || bits == 16u64 || bits == 32u64,
        ;
    }
    let mask: u64 = (1u64 << bits) - 1;
    let low = x & mask;
    let sign_bit: u64 = 1u64 << (bits - 1);
    if low & sign_bit == 0 {
        low
    } else {
        low | (!mask)
    }
}

/// Executes one conversion or sign-extension instruction. Conversions that
/// involve a floating-point computation are refused: the core holds float
/// values only as bit patterns.
fn exec_convert(vm: &mut VM, instruction: &ast::Instruction) -> (r: Result<(), EngineError>)
    ensures
        final(vm).resource == old(vm).resource,
        final(vm).pending == old(vm).pending,
        final(vm).status == old(vm).status,
{
    match instruction {
        ast::Instruction::I32WrapI64 => {
            let a = vm_pop_i64(vm)?;
            vm.stack.push_value(Value::I32((a & 0xFFFF_FFFF) as u32));
        },
        ast::Instruction::I64ExtendI32U => {
            let a = vm_pop_i32(vm)?;
            vm.stack.push_value(Value::I64(a as u64));
        },
        ast::Instruction::I64ExtendI32S => {
            let a = vm_pop_i32(vm)?;
            let wide = sign_extend64(a as u64, 32);
            vm.stack.push_value(Value::I64(wide));
        },
        ast::Instruction::I32Extend8S => {
            let a = vm_pop_i32(vm)?;
            vm.stack.push_value(Value::I32(sign_extend32(a, 8)));
        },
        ast::Instruction::I32Extend16S => {
            let a = vm_pop_i32(vm)?;
            vm.stack.push_value(Value::I32(sign_extend32(a, 16)));
        },
        ast::Instruction::I64Extend8S => {
            let a = vm_pop_i64(vm)?;
            vm.stack.push_value(Value::I64(sign_extend64(a, 8)));
        },
        ast::Instruction::I64Extend16S => {
            let a = vm_pop_i64(vm)?;
            vm.stack.push_value(Value::I64(sign_extend64(a, 16)));
        },
        ast::Instruction::I64Extend32S => {
            let a = vm_pop_i64(vm)?;
            vm.stack.push_value(Value::I64(sign_extend64(a, 32)));
        },
        ast::Instruction::I32ReinterpretF32 => {
            let value = vm_pop(vm)?;
            match value {
                Value::F32(bits) => vm.stack.push_value(Value::I32(bits)),
                _ => {
                    return Err(
                        EngineError::TypeMismatch(
                            TypeMismatch::OperandTypeMismatch(ValueType::F32, value.get_type()),
                        ),
                    );
                },
            }
        },
        ast::Instruction::I64ReinterpretF64 => {
            let value = vm_pop(vm)?;
            match value {
                Value::F64(bits) => vm.stack.push_value(Value::I64(bits)),
                _ => {
                    return Err(
                        EngineError::TypeMismatch(
                            TypeMismatch::OperandTypeMismatch(ValueType::F64, value.get_type()),
                        ),
                    );
                },
            }
        },
        ast::Instruction::F32ReinterpretI32 => {
            let a = vm_pop_i32(vm)?;
            vm.stack.push_value(Value::F32(a));
        },
        ast::Instruction::F64ReinterpretI64 => {
            let a = vm_pop_i64(vm)?;
            vm.stack.push_value(Value::F64(a));
        },
        _ => {
            return Err(EngineError::Unsupported(Unsupported::UnsupportedInstruction));
        },
    }
    Ok(())
}

/// Reads `count` little-endian bytes at `address` of the module's memory.
fn memory_read_le(vm: &VM, address: u64, count: usize) -> (r: Result<u64, EngineError>)
    requires
        1 <= count <= 8,
{
    let module_index = vm.status.vm_module_index;
    if module_index >= vm.resource.module_to_memory_index.len() {
        return Err(EngineError::InvalidOperation(InvalidOperation::OutOfBoundsMemoryAccess));
    }
    let memory_index = vm.resource.module_to_memory_index[module_index];
    if memory_index >= vm.resource.memories.len() {
        return Err(EngineError::InvalidOperation(InvalidOperation::OutOfBoundsMemoryAccess));
    }
    let memory = &vm.resource.memories[memory_index];
    let mut accumulator: u64 = 0;
    let mut i: usize = 0;
    while i < count
        invariant
            0 <= i <= count <= 8,
        decreases count - i,
    {
        let offset = match address.checked_add(i as u64) {
            Some(a) => a,
            None => {
                return Err(
                    EngineError::InvalidOperation(InvalidOperation::OutOfBoundsMemoryAccess),
                );
            },
        };
        if offset > usize::MAX as u64 {
            return Err(
                EngineError::InvalidOperation(InvalidOperation::OutOfBoundsMemoryAccess),
            );
        }
        let byte = match memory.read_byte(offset as usize) {
            Some(b) => b,
            None => {
                return Err(
                    EngineError::InvalidOperation(InvalidOperation::OutOfBoundsMemoryAccess),
                );
            },
        };
        proof {
            assert((i as u64) < 8);
            assert(8 * (i as u64) <= 56);
        }
        accumulator = accumulator | ((byte as u64) << ((8 * i) as u64));
        i += 1;
    }
    Ok(accumulator)
}

/// Writes `count` little-endian bytes at `address` of the module's memory.
fn memory_write_le(vm: &mut VM, address: u64, count: usize, value: u64) -> (r: Result<
    (),
    EngineError,
>)
    requires
        1 <= count <= 8,
    ensures
        final(vm).status == old(vm).status,
        final(vm)@ == old(vm)@,
        final(vm).pending == old(vm).pending,
{
    let module_index = vm.status.vm_module_index;
    if module_index >= vm.resource.module_to_memory_index.len() {
        return Err(EngineError::InvalidOperation(InvalidOperation::OutOfBoundsMemoryAccess));
    }
    let memory_index = vm.resource.module_to_memory_index[module_index];
    if memory_index >= vm.resource.memories.len() {
        return Err(EngineError::InvalidOperation(InvalidOperation::OutOfBoundsMemoryAccess));
    }
    // check the whole span first so a trap leaves memory unchanged
    let end = match address.checked_add(count as u64) {
        Some(e) => e,
        None => {
            return Err(
                EngineError::InvalidOperation(InvalidOperation::OutOfBoundsMemoryAccess),
            );
        },
    };
    if end > usize::MAX as u64 || (end as usize) > vm.resource.memories[memory_index].byte_count() {
        return Err(EngineError::InvalidOperation(InvalidOperation::OutOfBoundsMemoryAccess));
    }
    let mut i: usize = 0;
    while i < count
        invariant
            0 <= i <= count <= 8,
            memory_index < vm.resource.memories@.len(),
            address + count <= usize::MAX,
            vm.status == old(vm).status,
            vm.stack@ == old(vm)@,
            vm.pending == old(vm).pending,
        decreases count - i,
    {
        proof {
            assert((i as u64) < 8);
        }
        let byte = ((value >> ((8 * i) as u64)) & 0xFF) as u8;
        let target = (address as usize) + i;
        let memory = &mut vm.resource.memories[memory_index];
        let ok = memory.write_byte(target, byte);
        if !ok {
            return Err(
                EngineError::InvalidOperation(InvalidOperation::OutOfBoundsMemoryAccess),
            );
        }
        i += 1;
    }
    Ok(())
}

/// The effective address of a memory access: the popped base plus the
/// instruction's constant offset, computed without wrapping.
fn effective_address(base: u32, memory_arg: &ast::MemoryArg) -> (r: u64)
    ensures
        r == base + memory_arg.offset,
{
    (base as u64) + (memory_arg.offset as u64)
}

/// Executes one memory load or store instruction.
fn exec_memory(vm: &mut VM, instruction: &ast::Instruction) -> (r: Result<(), EngineError>)
    ensures
        final(vm).status == old(vm).status,
        final(vm).pending == old(vm).pending,
{
    match instruction {
        ast::Instruction::I32Load(memory_arg) => {
            let base = vm_pop_i32(vm)?;
            let raw = memory_read_le(vm, effective_address(base, memory_arg), 4)?;
            vm.stack.push_value(Value::I32(raw as u32));
        },
        ast::Instruction::I64Load(memory_arg) => {
            let base = vm_pop_i32(vm)?;
            let raw = memory_read_le(vm, effective_address(base, memory_arg), 8)?;
            vm.stack.push_value(Value::I64(raw));
        },
        ast::Instruction::F32Load(memory_arg) => {
            let base = vm_pop_i32(vm)?;
            let raw = memory_read_le(vm, effective_address(base, memory_arg), 4)?;
            vm.stack.push_value(Value::F32(raw as u32));
        },
        ast::Instruction::F64Load(memory_arg) => {
            let base = vm_pop_i32(vm)?;
            let raw = memory_read_le(vm, effective_address(base, memory_arg), 8)?;
            vm.stack.push_value(Value::F64(raw));
        },
        ast::Instruction::I32Load8U(memory_arg) => {
            let base = vm_pop_i32(vm)?;
            let raw = memory_read_le(vm, effective_address(base, memory_arg), 1)?;
            vm.stack.push_value(Value::I32(raw as u32));
        },
        ast::Instruction::I32Load8S(memory_arg) => {
            let base = vm_pop_i32(vm)?;
            let raw = memory_read_le(vm, effective_address(base, memory_arg), 1)?;
            vm.stack.push_value(Value::I32(sign_extend32(raw as u32, 8)));
        },
        ast::Instruction::I32Load16U(memory_arg) => {
            let base = vm_pop_i32(vm)?;
            let raw = memory_read_le(vm, effective_address(base, memory_arg), 2)?;
            vm.stack.push_value(Value::I32(raw as u32));
        },
        ast::Instruction::I32Load16S(memory_arg) => {
            let base = vm_pop_i32(vm)?;
            let raw = memory_read_le(vm, effective_address(base, memory_arg), 2)?;
            vm.stack.push_value(Value::I32(sign_extend32(raw as u32, 16)));
        },
        ast::Instruction::I64Load8U(memory_arg) => {
            let base = vm_pop_i32(vm)?;
            let raw = memory_read_le(vm, effective_address(base, memory_arg), 1)?;
            vm.stack.push_value(Value::I64(raw));
        },
        ast::Instruction::I64Load8S(memory_arg) => {
            let base = vm_pop_i32(vm)?;
            let raw = memory_read_le(vm, effective_address(base, memory_arg), 1)?;
            vm.stack.push_value(Value::I64(sign_extend64(raw, 8)));
        },
        ast::Instruction::I64Load16U(memory_arg) => {
            let base = vm_pop_i32(vm)?;
            let raw = memory_read_le(vm, effective_address(base, memory_arg), 2)?;
            vm.stack.push_value(Value::I64(raw));
        },
        ast::Instruction::I64Load16S(memory_arg) => {
            let base = vm_pop_i32(vm)?;
            let raw = memory_read_le(vm, effective_address(base, memory_arg), 2)?;
            vm.stack.push_value(Value::I64(sign_extend64(raw, 16)));
        },
        ast::Instruction::I64Load32U(memory_arg) => {
            let base = vm_pop_i32(vm)?;
            let raw = memory_read_le(vm, effective_address(base, memory_arg), 4)?;
            vm.stack.push_value(Value::I64(raw));
        },
        ast::Instruction::I64Load32S(memory_arg) => {
            let base = vm_pop_i32(vm)?;
            let raw = memory_read_le(vm, effective_address(base, memory_arg), 4)?;
            vm.stack.push_value(Value::I64(sign_extend64(raw, 32)));
        },
        ast::Instruction::I32Store(memory_arg) => {
            let value = vm_pop_i32(vm)?;
            let base = vm_pop_i32(vm)?;
            memory_write_le(vm, effective_address(base, memory_arg), 4, value as u64)?;
        },
        ast::Instruction::I32Store8(memory_arg) => {
            let value = vm_pop_i32(vm)?;
            let base = vm_pop_i32(vm)?;
            memory_write_le(vm, effective_address(base, memory_arg), 1, value as u64)?;
        },
        ast::Instruction::I32Store16(memory_arg) => {
            let value = vm_pop_i32(vm)?;
            let base = vm_pop_i32(vm)?;
            memory_write_le(vm, effective_address(base, memory_arg), 2, value as u64)?;
        },
        ast::Instruction::I64Store(memory_arg) => {
            let value = vm_pop_i64(vm)?;
            let base = vm_pop_i32(vm)?;
            memory_write_le(vm, effective_address(base, memory_arg), 8, value)?;
        },
        ast::Instruction::I64Store8(memory_arg) => {
            let value = vm_pop_i64(vm)?;
            let base = vm_pop_i32(vm)?;
            memory_write_le(vm, effective_address(base, memory_arg), 1, value)?;
        },
        ast::Instruction::I64Store16(memory_arg) => {
            let value = vm_pop_i64(vm)?;
            let base = vm_pop_i32(vm)?;
            memory_write_le(vm, effective_address(base, memory_arg), 2, value)?;
        },
        ast::Instruction::I64Store32(memory_arg) => {
            let value = vm_pop_i64(vm)?;
            let base = vm_pop_i32(vm)?;
            memory_write_le(vm, effective_address(base, memory_arg), 4, value)?;
        },
        ast::Instruction::F32Store(memory_arg) => {
            let value = vm_pop(vm)?;
            let bits = match value {
                Value::F32(bits) => bits,
                _ => {
                    return Err(
                        EngineError::TypeMismatch(
                            TypeMismatch::OperandTypeMismatch(ValueType::F32, value.get_type()),
                        ),
                    );
                },
            };
            let base = vm_pop_i32(vm)?;
            memory_write_le(vm, effective_address(base, memory_arg), 4, bits as u64)?;
        },
        ast::Instruction::F64Store(memory_arg) => {
            let value = vm_pop(vm)?;
            let bits = match value {
                Value::F64(bits) => bits,
                _ => {
                    return Err(
                        EngineError::TypeMismatch(
                            TypeMismatch::OperandTypeMismatch(ValueType::F64, value.get_type()),
                        ),
                    );
                },
            };
            let base = vm_pop_i32(vm)?;
            memory_write_le(vm, effective_address(base, memory_arg), 8, bits)?;
        },
        ast::Instruction::MemorySize(_) => {
            let module_index = vm.status.vm_module_index;
            if module_index >= vm.resource.module_to_memory_index.len() {
                return Err(
                    EngineError::InvalidOperation(InvalidOperation::OutOfBoundsMemoryAccess),
                );
            }
            let memory_index = vm.resource.module_to_memory_index[module_index];
            if memory_index >= vm.resource.memories.len() {
                return Err(
                    EngineError::InvalidOperation(InvalidOperation::OutOfBoundsMemoryAccess),
                );
            }
            let pages = vm.resource.memories[memory_index].page_count();
            if pages > u32::MAX as usize {
                return Err(
                    EngineError::InvalidOperation(InvalidOperation::OutOfBoundsMemoryAccess),
                );
            }
            vm.stack.push_value(Value::I32(pages as u32));
        },
        ast::Instruction::MemoryGrow(_) => {
            let additional = vm_pop_i32(vm)?;
            let module_index = vm.status.vm_module_index;
            if module_index >= vm.resource.module_to_memory_index.len() {
                return Err(
                    EngineError::InvalidOperation(InvalidOperation::OutOfBoundsMemoryAccess),
                );
            }
            let memory_index = vm.resource.module_to_memory_index[module_index];
            if memory_index >= vm.resource.memories.len() {
                return Err(
                    EngineError::InvalidOperation(InvalidOperation::OutOfBoundsMemoryAccess),
                );
            }
            let memory = &mut vm.resource.memories[memory_index];
            match memory.grow(additional as usize) {
                Some(previous) => {
                    if previous > u32::MAX as usize {
                        return Err(
                            EngineError::InvalidOperation(
                                InvalidOperation::OutOfBoundsMemoryAccess,
                            ),
                        );
                    }
                    vm.stack.push_value(Value::I32(previous as u32));
                },
                None => {
                    // growth failure reports the -1 sentinel
                    vm.stack.push_value(Value::I32(0xFFFF_FFFF));
                },
            }
        },
        _ => {
            return Err(EngineError::Unsupported(Unsupported::UnsupportedInstruction));
        },
    }
    Ok(())
}

/// Executes one variable instruction: local or global access.
fn exec_variable(vm: &mut VM, instruction: &ast::Instruction) -> (r: Result<(), EngineError>)
    ensures
        final(vm).status == old(vm).status,
        final(vm).pending == old(vm).pending,
{
    match instruction {
        ast::Instruction::LocalGet(index) => {
            let cell = match vm.status.local_pointer.checked_add(*index as usize) {
                Some(c) => c,
                None => {
                    return Err(
                        EngineError::InvalidOperation(
                            InvalidOperation::InvalidLocalVariableIndex,
                        ),
                    );
                },
            };
            let value = vm.stack.read_value(cell)?;
            vm.stack.push_value(value);
        },
        ast::Instruction::LocalSet(index) => {
            let value = vm_pop(vm)?;
            let cell = match vm.status.local_pointer.checked_add(*index as usize) {
                Some(c) => c,
                None => {
                    return Err(
                        EngineError::InvalidOperation(
                            InvalidOperation::InvalidLocalVariableIndex,
                        ),
                    );
                },
            };
            vm.stack.write_value(cell, value)?;
        },
        ast::Instruction::LocalTee(index) => {
            let value = vm_pop(vm)?;
            vm.stack.push_value(value);
            let cell = match vm.status.local_pointer.checked_add(*index as usize) {
                Some(c) => c,
                None => {
                    return Err(
                        EngineError::InvalidOperation(
                            InvalidOperation::InvalidLocalVariableIndex,
                        ),
                    );
                },
            };
            vm.stack.write_value(cell, value)?;
        },
        ast::Instruction::GlobalGet(index) => {
            let module_index = vm.status.vm_module_index;
            if module_index >= vm.resource.module_to_global_indices.len() {
                return Err(
                    EngineError::InvalidOperation(InvalidOperation::InvalidGlobalVariableIndex),
                );
            }
            let map = &vm.resource.module_to_global_indices[module_index];
            if *index as usize >= map.len() {
                return Err(
                    EngineError::InvalidOperation(InvalidOperation::InvalidGlobalVariableIndex),
                );
            }
            let instance_index = map[*index as usize];
            if instance_index >= vm.resource.global_variables.len() {
                return Err(
                    EngineError::InvalidOperation(InvalidOperation::InvalidGlobalVariableIndex),
                );
            }
            let value = vm.resource.global_variables[instance_index].get_value();
            vm.stack.push_value(value);
        },
        ast::Instruction::GlobalSet(index) => {
            let value = vm_pop(vm)?;
            let module_index = vm.status.vm_module_index;
            if module_index >= vm.resource.module_to_global_indices.len() {
                return Err(
                    EngineError::InvalidOperation(InvalidOperation::InvalidGlobalVariableIndex),
                );
            }
            let map = &vm.resource.module_to_global_indices[module_index];
            if *index as usize >= map.len() {
                return Err(
                    EngineError::InvalidOperation(InvalidOperation::InvalidGlobalVariableIndex),
                );
            }
            let instance_index = map[*index as usize];
            if instance_index >= vm.resource.global_variables.len() {
                return Err(
                    EngineError::InvalidOperation(InvalidOperation::InvalidGlobalVariableIndex),
                );
            }
            let declared = vm.resource.global_variables[instance_index].get_global_type();
            if value.get_type() != declared.value_type {
                return Err(
                    EngineError::TypeMismatch(
                        TypeMismatch::OperandTypeMismatch(declared.value_type, value.get_type()),
                    ),
                );
            }
            let accepted = vm.resource.global_variables[instance_index].set_value(value);
            if !accepted {
                return Err(
                    EngineError::InvalidOperation(InvalidOperation::InvalidGlobalVariableIndex),
                );
            }
        },
        _ => {
            return Err(EngineError::Unsupported(Unsupported::UnsupportedInstruction));
        },
    }
    Ok(())
}

/// A field-for-field copy of a list of value types.
pub(crate) fn copy_value_types(types: &Vec<ValueType>) -> (r: Vec<ValueType>)
    ensures
        r@ == types@,
{
    let mut r: Vec<ValueType> = Vec::new();
    let n = types.len();
    let mut i: usize = 0;
    while i < n
        invariant
            0 <= i <= n,
            n == types@.len(),
            r@ == types@.take(i as int),
        decreases n - i,
    {
        r.push(types[i]);
        proof {
            assert(r@ =~= types@.take(i + 1 as int));
        }
        i += 1;
    }
    proof {
        assert(types@.take(n as int) =~= types@);
    }
    r
}

/// The frame type of the frame `depth` levels above the current one,
/// found by following the chain of frame-info records.
fn frame_type_at_depth(vm: &VM, depth: usize) -> (r: Result<BlockType, EngineError>)
    ensures
        match crate::vm::spec_frame_type_at_depth(
            vm@,
            vm.status.frame_pointer as int,
            depth as int,
        ) {
            Some(frame_type) => r == Ok::<BlockType, EngineError>(frame_type),
            None => r == Err::<BlockType, EngineError>(
                EngineError::InvalidOperation(InvalidOperation::InvalidStackFrame),
            ),
        },
{
    let size = vm.stack.get_size();
    let mut current_fp = vm.status.frame_pointer;
    let mut remaining = depth;
    while remaining > 0
        invariant
            size == vm.stack@.len(),
            crate::vm::spec_frame_type_at_depth(
                vm@,
                vm.status.frame_pointer as int,
                depth as int,
            ) == crate::vm::spec_frame_type_at_depth(
                vm@,
                current_fp as int,
                remaining as int,
            ),
        decreases remaining,
    {
        if current_fp < 1 || current_fp > size {
            return Err(EngineError::InvalidOperation(InvalidOperation::InvalidStackFrame));
        }
        match vm.stack.cells[current_fp - 1] {
            crate::vm::StackCell::Info(info) => {
                if info.previous_frame_pointer >= current_fp {
                    return Err(
                        EngineError::InvalidOperation(InvalidOperation::InvalidStackFrame),
                    );
                }
                current_fp = info.previous_frame_pointer;
            },
            crate::vm::StackCell::Operand(_) => {
                return Err(EngineError::InvalidOperation(InvalidOperation::InvalidStackFrame));
            },
        }
        remaining -= 1;
    }
    if current_fp < 1 || current_fp > size {
        return Err(EngineError::InvalidOperation(InvalidOperation::InvalidStackFrame));
    }
    match vm.stack.cells[current_fp - 1] {
        crate::vm::StackCell::Info(info) => Ok(info.frame_type),
        crate::vm::StackCell::Operand(_) => Err(
            EngineError::InvalidOperation(InvalidOperation::InvalidStackFrame),
        ),
    }
}

/// A forward branch: pops `relative_depth` frames, each time carrying the
/// target's result arity across, and jumps to the target block's `end`,
/// whose handler pops the final frame and checks the carried results.
///
/// After all `relative_depth + 1` frames are gone the top of stack holds
/// exactly the carried operands.
fn process_break(vm: &mut VM, relative_depth: usize, address: usize) -> (r: Result<
    ControlResult,
    EngineError,
>)
    ensures
        final(vm).resource == old(vm).resource,
        final(vm).pending == old(vm).pending,
        // a trap aborts the instruction and unwinds no frame
        r is Err ==> final(vm)@ == old(vm)@ && final(vm).status == old(vm).status,
        r matches Ok(c) ==> c matches ControlResult::JumpWithinFunction {
            frame_type,
            address: jump_address,
        } && frame_type == final(vm).status.frame_type && jump_address == address,
        // the forward branch pops exactly `relative_depth` frames, each
        // carrying the target's result arity across; the jump then lands
        // on the target's `end`, which pops the final frame
        ({
            match crate::vm::spec_frame_type_at_depth(
                old(vm)@,
                old(vm).status.frame_pointer as int,
                relative_depth as int,
            ) {
                None => r is Err,
                Some(target_frame_type) => match crate::vm::spec_frame_result_types(
                    *old(vm),
                    target_frame_type,
                ) {
                    None => r is Err,
                    Some(carried_types) => match crate::vm::spec_pop_frames(
                        old(vm)@,
                        old(vm).status,
                        carried_types.len() as int,
                        relative_depth as int,
                    ) {
                        None => r is Err,
                        Some(after) => {
                            &&& final(vm)@ == after.0
                            &&& final(vm).status == after.1
                            &&& r == Ok::<ControlResult, EngineError>(
                                ControlResult::JumpWithinFunction {
                                    frame_type: after.1.frame_type,
                                    address,
                                },
                            )
                        },
                    },
                },
            }
        }),
{
    let target_frame_type = frame_type_at_depth(vm, relative_depth)?;
    let result_types = vm.frame_result_types(&target_frame_type)?;
    let carried_count = result_types.len();
    // check the whole chain first, so that a failing branch unwinds nothing
    if !vm.chain_pops_ok(carried_count, relative_depth) {
        return Err(EngineError::InvalidOperation(InvalidOperation::InvalidStackFrame));
    }
    let mut remaining = relative_depth;
    while remaining > 0
        invariant
            vm.resource == old(vm).resource,
            vm.pending == old(vm).pending,
            crate::vm::spec_pop_frames(
                old(vm)@,
                old(vm).status,
                carried_count as int,
                relative_depth as int,
            ) is Some,
            crate::vm::spec_frame_type_at_depth(
                old(vm)@,
                old(vm).status.frame_pointer as int,
                relative_depth as int,
            ) == Some(target_frame_type),
            crate::vm::spec_frame_result_types(*old(vm), target_frame_type) == Some(
                result_types@,
            ),
            carried_count == result_types@.len(),
            crate::vm::spec_pop_frames(
                old(vm)@,
                old(vm).status,
                carried_count as int,
                relative_depth as int,
            ) == crate::vm::spec_pop_frames(vm@, vm.status, carried_count as int, remaining as int),
        decreases remaining,
    {
        let ghost pre = (vm@, vm.status);
        match vm.pop_frame(carried_count) {
            Ok(_) => {},
            Err(e) => {
                proof {
                    assert(crate::vm::spec_pop_frame(pre.0, pre.1, carried_count as int) is None);
                    assert(crate::vm::spec_pop_frames(
                        pre.0,
                        pre.1,
                        carried_count as int,
                        remaining as int,
                    ) is None);
                }
                return Err(e);
            },
        }
        remaining -= 1;
    }
    Ok(ControlResult::JumpWithinFunction { frame_type: vm.status.frame_type, address })
}

/// A backward branch to a loop: pops `relative_depth + 1` frames carrying
/// the loop's parameter arity, and jumps back to the `loop` instruction,
/// which re-enters the frame consuming the carried parameters.
fn process_recur(vm: &mut VM, relative_depth: usize, address: usize) -> (r: Result<
    ControlResult,
    EngineError,
>)
    ensures
        final(vm).resource == old(vm).resource,
        final(vm).pending == old(vm).pending,
        // a trap aborts the instruction and unwinds no frame
        r is Err ==> final(vm)@ == old(vm)@ && final(vm).status == old(vm).status,
        r matches Ok(c) ==> c matches ControlResult::JumpWithinFunction {
            frame_type,
            address: jump_address,
        } && frame_type == final(vm).status.frame_type && jump_address == address,
        // the backward branch to a loop pops `relative_depth + 1` frames,
        // each carrying the loop's parameter arity; the jump then lands on
        // the `loop` instruction, which re-enters the frame consuming the
        // carried parameters
        ({
            match crate::vm::spec_frame_type_at_depth(
                old(vm)@,
                old(vm).status.frame_pointer as int,
                relative_depth as int,
            ) {
                None => r is Err,
                Some(target_frame_type) => match crate::vm::spec_frame_param_count(
                    *old(vm),
                    target_frame_type,
                ) {
                    None => r is Err,
                    Some(carried_count) => match crate::vm::spec_pop_frames(
                        old(vm)@,
                        old(vm).status,
                        carried_count,
                        relative_depth + 1,
                    ) {
                        None => r is Err,
                        Some(after) => {
                            &&& final(vm)@ == after.0
                            &&& final(vm).status == after.1
                            &&& r == Ok::<ControlResult, EngineError>(
                                ControlResult::JumpWithinFunction {
                                    frame_type: after.1.frame_type,
                                    address,
                                },
                            )
                        },
                    },
                },
            }
        }),
{
    let target_frame_type = frame_type_at_depth(vm, relative_depth)?;
    let carried_count = vm.frame_param_count(&target_frame_type)?;
    // check the whole chain first, so that a failing branch unwinds nothing
    let total_depth = match relative_depth.checked_add(1) {
        Some(d) => d,
        None => {
            proof {
                if crate::vm::spec_pop_frames(
                    vm@,
                    vm.status,
                    carried_count as int,
                    relative_depth + 1,
                ) is Some {
                    crate::vm::lemma_pop_frames_depth_bound(
                        vm@,
                        vm.status,
                        carried_count as int,
                        relative_depth + 1,
                    );
                }
            }
            return Err(EngineError::InvalidOperation(InvalidOperation::InvalidStackFrame));
        },
    };
    if !vm.chain_pops_ok(carried_count, total_depth) {
        return Err(EngineError::InvalidOperation(InvalidOperation::InvalidStackFrame));
    }
    let mut remaining = relative_depth;
    while remaining > 0
        invariant
            vm.resource == old(vm).resource,
            vm.pending == old(vm).pending,
            crate::vm::spec_pop_frames(
                old(vm)@,
                old(vm).status,
                carried_count as int,
                relative_depth + 1,
            ) is Some,
            crate::vm::spec_frame_type_at_depth(
                old(vm)@,
                old(vm).status.frame_pointer as int,
                relative_depth as int,
            ) == Some(target_frame_type),
            crate::vm::spec_frame_param_count(*old(vm), target_frame_type) == Some(
                carried_count as int,
            ),
            crate::vm::spec_pop_frames(
                old(vm)@,
                old(vm).status,
                carried_count as int,
                relative_depth + 1,
            ) == crate::vm::spec_pop_frames(
                vm@,
                vm.status,
                carried_count as int,
                remaining + 1,
            ),
        decreases remaining,
    {
        let ghost pre = (vm@, vm.status);
        match vm.pop_frame(carried_count) {
            Ok(_) => {},
            Err(e) => {
                proof {
                    assert(crate::vm::spec_pop_frame(pre.0, pre.1, carried_count as int) is None);
                    assert(crate::vm::spec_pop_frames(
                        pre.0,
                        pre.1,
                        carried_count as int,
                        remaining + 1,
                    ) is None);
                }
                return Err(e);
            },
        }
        remaining -= 1;
    }
    let ghost pre = (vm@, vm.status);
    match vm.pop_frame(carried_count) {
        Ok(_) => {},
        Err(e) => {
            proof {
                assert(crate::vm::spec_pop_frame(pre.0, pre.1, carried_count as int) is None);
                assert(crate::vm::spec_pop_frames(pre.0, pre.1, carried_count as int, 1) is None);
            }
            return Err(e);
        },
    }
    proof {
        assert(crate::vm::spec_pop_frames(vm@, vm.status, carried_count as int, 0) == Some(
            (vm@, vm.status),
        ));
        assert(crate::vm::spec_pop_frames(pre.0, pre.1, carried_count as int, 1) == Some(
            (vm@, vm.status),
        ));
    }
    Ok(ControlResult::JumpWithinFunction { frame_type: vm.status.frame_type, address })
}

/// Calls a function of a decoded module: enters its call frame with the
/// arguments on top of the stack as the first locals.
fn process_call(
    vm: &mut VM,
    vm_module_index: usize,
    type_index: usize,
    function_index: usize,
    internal_function_index: usize,
    address: usize,
) -> (r: Result<ControlResult, EngineError>)
    ensures
        final(vm).resource == old(vm).resource,
        final(vm).pending == old(vm).pending,
        // a trap aborts the instruction and enters no frame
        r is Err ==> final(vm)@ == old(vm)@ && final(vm).status == old(vm).status,
        r matches Ok(c) ==> c matches ControlResult::PushStackFrame { is_call_frame, .. }
            && is_call_frame && final(vm).status.frame_pointer == final(vm).status.local_pointer,
        spec_call_post(
            *old(vm),
            vm_module_index,
            type_index,
            function_index,
            internal_function_index,
            address,
            final(vm)@,
            final(vm).status,
            (match r {
                Ok(_) => Ok::<(), EngineError>(()),
                Err(e) => Err(e),
            }),
        ),
        r matches Ok(c) ==> c == (ControlResult::PushStackFrame {
            is_call_frame: true,
            vm_module_index,
            function_index,
            frame_type: final(vm).status.frame_type,
            address,
        }),
{
    if vm_module_index >= vm.resource.vm_modules.len() {
        return Err(EngineError::InvalidOperation(InvalidOperation::InvalidFunctionIndex));
    }
    let target_module = &vm.resource.vm_modules[vm_module_index];
    if type_index >= target_module.function_types.len() {
        return Err(EngineError::InvalidOperation(InvalidOperation::InvalidTypeIndex));
    }
    let param_count = target_module.function_types[type_index].params.len();
    if internal_function_index >= target_module.internal_function_local_types.len() {
        return Err(EngineError::InvalidOperation(InvalidOperation::InvalidFunctionIndex));
    }
    let local_types = copy_value_types(
        &target_module.internal_function_local_types[internal_function_index],
    );
    vm.push_call_frame(
        vm_module_index,
        function_index,
        type_index,
        param_count,
        &local_types,
        address,
    )?;
    Ok(
        ControlResult::PushStackFrame {
            is_call_frame: true,
            vm_module_index,
            function_index,
            frame_type: vm.status.frame_type,
            address,
        },
    )
}

/// Calls a host function: pops its declared parameters and suspends with a
/// host request. The engine validates the returned result types when it is
/// resumed.
fn process_call_native(
    vm: &mut VM,
    native_module_index: usize,
    type_index: usize,
    function_index: usize,
) -> (r: Result<ControlResult, EngineError>)
    ensures
        final(vm).resource == old(vm).resource,
        final(vm).status == old(vm).status,
        r is Err ==> final(vm).pending == old(vm).pending,
        r matches Ok(c) ==> c is HostCall && final(vm).pending is Some,
        // suspending pops the host function's declared parameters into the
        // request and records what it must hand back
        r matches Ok(c) ==> ({
            let native = old(vm).resource.native_modules@[native_module_index as int];
            let params = native.function_types@[type_index as int].params@.len() as int;
            &&& native_module_index < old(vm).resource.native_modules@.len()
            &&& type_index < native.function_types@.len()
            &&& params <= crate::vm::spec_available_operands(old(vm)@, old(vm).status)
            &&& (c matches ControlResult::HostCall {
                native_module_index: request_module,
                function_index: request_function,
                arguments,
            } && request_module == native_module_index && request_function == function_index
                && arguments@ == crate::vm::spec_top_values(old(vm)@, params))
            &&& final(vm)@ == old(vm)@.take(old(vm)@.len() - params)
            &&& (final(vm).pending matches Some(p) && p.native_module_index == native_module_index
                && p.function_index == function_index && p.expected_result_types@
                == native.function_types@[type_index as int].results@)
        }),
{
    if native_module_index >= vm.resource.native_modules.len() {
        return Err(EngineError::InvalidOperation(InvalidOperation::InvalidFunctionIndex));
    }
    let native_module = &vm.resource.native_modules[native_module_index];
    if type_index >= native_module.function_types.len() {
        return Err(EngineError::InvalidOperation(InvalidOperation::InvalidTypeIndex));
    }
    let param_count = native_module.function_types[type_index].params.len();
    let expected_result_types = copy_value_types(&native_module.function_types[type_index].results);
    let size = vm.stack.get_size();
    let available = if vm.status.base_pointer <= size {
        size - vm.status.base_pointer
    } else {
        0
    };
    if param_count > available {
        return Err(EngineError::InvalidOperation(InvalidOperation::NotEnoughOperand));
    }
    let arguments = vm.stack.peek_values(param_count)?;
    let mut remaining = param_count;
    while remaining > 0
        invariant
            vm.resource == old(vm).resource,
            vm.pending == old(vm).pending,
            vm.status == old(vm).status,
            remaining <= param_count <= old(vm)@.len(),
            crate::vm::spec_all_operands(
                old(vm)@,
                old(vm)@.len() - param_count,
                old(vm)@.len() as int,
            ),
            vm.stack@ == old(vm)@.take(old(vm)@.len() - (param_count - remaining)),
        decreases remaining,
    {
        let ghost before = vm.stack@;
        match vm.stack.pop_value() {
            Ok(_) => {},
            Err(_) => {
                proof {
                    assert(before.len() > 0);
                    assert(before.last() == old(vm)@[old(vm)@.len() - (param_count - remaining)
                        - 1]);
                    assert(false);
                }
                unreached()
            },
        }
        proof {
            assert(vm.stack@ =~= old(vm)@.take(
                old(vm)@.len() - (param_count - (remaining - 1)),
            ));
        }
        remaining -= 1;
    }
    vm.pending = Some(
        crate::vm::PendingHost {
            native_module_index,
            function_index,
            expected_result_types,
        },
    );
    Ok(ControlResult::HostCall { native_module_index, function_index, arguments })
}

/// An indirect call through the module's table: fetches the funcref the
/// popped index names, rejects a null element, checks the element's
/// function type against the call site's declared type, then calls it.
fn process_call_indirect(vm: &mut VM, type_index: usize, table_index: usize) -> (r: Result<
    ControlResult,
    EngineError,
>)
    ensures
        final(vm).resource == old(vm).resource,
        r is Err ==> final(vm).pending == old(vm).pending,
        (r matches Ok(c) && !(c is HostCall)) ==> final(vm).pending == old(vm).pending,
        (r matches Ok(c) && c is HostCall) ==> final(vm).pending is Some,
        r matches Ok(c) ==> c is HostCall || c is PushStackFrame,
        // a trap enters no frame, and a suspension leaves the status alone
        r is Err ==> final(vm).status == old(vm).status,
        (r matches Ok(c) && c is HostCall) ==> final(vm).status == old(vm).status,
        // entering the callee's frame makes a call frame: the frame pointer
        // and the local pointer coincide
        (r matches Ok(c) && c is PushStackFrame) ==> final(vm).status.frame_pointer
            == final(vm).status.local_pointer,
{
    let element_index = vm_pop_i32(vm)?;
    let module_index = vm.status.vm_module_index;
    if module_index >= vm.resource.module_to_table_index.len() {
        return Err(EngineError::InvalidOperation(InvalidOperation::OutOfBoundsTableAccess));
    }
    let instance_table_index = vm.resource.module_to_table_index[module_index];
    if instance_table_index >= vm.resource.tables.len() {
        return Err(EngineError::InvalidOperation(InvalidOperation::OutOfBoundsTableAccess));
    }
    if element_index as usize >= vm.resource.tables[instance_table_index].element_count() {
        return Err(EngineError::InvalidOperation(InvalidOperation::OutOfBoundsTableAccess));
    }
    // read the resolved callee out of the table
    let (
        callee_is_native,
        callee_module,
        callee_type,
        callee_function,
        callee_internal,
        callee_address,
    ): (bool, usize, usize, usize, usize, usize) = {
        let table = &vm.resource.tables[instance_table_index];
        match table.get_element(element_index as usize) {
            Some(element) => match element {
                Some(FunctionItem::Normal {
                    vm_module_index,
                    type_index,
                    function_index,
                    internal_function_index,
                    start_address,
                    ..
                }) => (
                    false,
                    *vm_module_index,
                    *type_index,
                    *function_index,
                    *internal_function_index,
                    *start_address,
                ),
                Some(FunctionItem::Native { native_module_index, type_index, function_index }) => (
                    true,
                    *native_module_index,
                    *type_index,
                    *function_index,
                    0,
                    0,
                ),
                None => {
                    return Err(
                        EngineError::InvalidOperation(InvalidOperation::UndefinedElement),
                    );
                },
            },
            None => {
                return Err(
                    EngineError::InvalidOperation(InvalidOperation::OutOfBoundsTableAccess),
                );
            },
        }
    };
    // the element's declared type must match the call site's
    if module_index >= vm.resource.vm_modules.len() {
        return Err(EngineError::InvalidOperation(InvalidOperation::InvalidTypeIndex));
    }
    if type_index >= vm.resource.vm_modules[module_index].function_types.len() {
        return Err(EngineError::InvalidOperation(InvalidOperation::InvalidTypeIndex));
    }
    let matches_site = if callee_is_native {
        if callee_module >= vm.resource.native_modules.len() {
            return Err(EngineError::InvalidOperation(InvalidOperation::InvalidTypeIndex));
        }
        if callee_type >= vm.resource.native_modules[callee_module].function_types.len() {
            return Err(EngineError::InvalidOperation(InvalidOperation::InvalidTypeIndex));
        }
        crate::values::function_types_eq(
            &vm.resource.vm_modules[module_index].function_types[type_index],
            &vm.resource.native_modules[callee_module].function_types[callee_type],
        )
    } else {
        if callee_module >= vm.resource.vm_modules.len() {
            return Err(EngineError::InvalidOperation(InvalidOperation::InvalidTypeIndex));
        }
        if callee_type >= vm.resource.vm_modules[callee_module].function_types.len() {
            return Err(EngineError::InvalidOperation(InvalidOperation::InvalidTypeIndex));
        }
        crate::values::function_types_eq(
            &vm.resource.vm_modules[module_index].function_types[type_index],
            &vm.resource.vm_modules[callee_module].function_types[callee_type],
        )
    };
    if !matches_site {
        return Err(
            EngineError::TypeMismatch(
                TypeMismatch::IndirectCallFunctionTypeMismatch {
                    vm_module_index: module_index,
                    type_index,
                },
            ),
        );
    }
    let _ = table_index;
    if callee_is_native {
        process_call_native(vm, callee_module, callee_type, callee_function)
    } else {
        process_call(vm, callee_module, callee_type, callee_function, callee_internal, callee_address)
    }
}

/// Executes one pre-processed instruction and reports how the engine loop
/// should continue. Straight-line opcodes advance the program counter here;
/// control opcodes update it through their `ControlResult`.
#[verifier::rlimit(100)]
pub fn exec_instruction(vm: &mut VM, instruction: &object::Instruction) -> (r: Result<
    StepResult,
    EngineError,
>)
    ensures
        // a straight-line opcode advances the program counter by one and
        // leaves the rest of the status alone
        (*instruction matches object::Instruction::Sequence(_) && r is Ok) ==> {
            &&& r == Ok::<StepResult, EngineError>(StepResult::Continue)
            &&& final(vm).status.address == old(vm).status.address + 1
            &&& final(vm).status.vm_module_index == old(vm).status.vm_module_index
            &&& final(vm).status.function_index == old(vm).status.function_index
            &&& final(vm).status.frame_type == old(vm).status.frame_type
            &&& final(vm).status.frame_pointer == old(vm).status.frame_pointer
            &&& final(vm).status.local_pointer == old(vm).status.local_pointer
            &&& final(vm).status.base_pointer == old(vm).status.base_pointer
        },
        // the program ends exactly when the `end` handler restored the
        // sentinel frame pointer
        (r matches Ok(c) && c is ProgramEnd) ==> (instruction matches
            object::Instruction::Control(_)) && final(vm).status.frame_pointer
            == INITIAL_FRAME_POINTER,
        // a host request leaves the pending record set; every other
        // outcome leaves it alone
        (r matches Ok(c) && c is HostCall) ==> final(vm).pending is Some,
        (r matches Ok(c) && !(c is HostCall)) ==> final(vm).pending == old(vm).pending,
        // a trap leaves the program counter and the frame cursor alone:
        // the machine stands where it trapped, no frame is unwound, and
        // the address is not advanced (operands an instruction consumed
        // before trapping stay consumed)
        r is Err ==> final(vm).status == old(vm).status,
        // suspending for a host call leaves the status alone too: `resume`
        // advances past the call site
        (r matches Ok(c) && c is HostCall) ==> final(vm).status == old(vm).status,
        // a represented-but-refused opcode traps and changes nothing
        *instruction matches object::Instruction::Sequence(op) ==> spec_refused_sequence(op) ==> r
            == Err::<StepResult, EngineError>(
            EngineError::Unsupported(Unsupported::UnsupportedInstruction),
        ) && final(vm)@ == old(vm)@,
        // constants push their value
        *instruction matches object::Instruction::Sequence(
            ast::Instruction::I32Const(v),
        ) ==> final(vm)@ == old(vm)@.push(crate::vm::StackCell::Operand(Value::I32(v))),
        *instruction matches object::Instruction::Sequence(
            ast::Instruction::I64Const(v),
        ) ==> final(vm)@ == old(vm)@.push(crate::vm::StackCell::Operand(Value::I64(v))),
        // `eqz` pops one operand and pushes the flag
        *instruction matches object::Instruction::Sequence(op) ==> (op
            == ast::Instruction::I32Eqz) ==> ({
            let s = old(vm)@;
            old(vm).status.base_pointer < s.len() ==> (s.last() matches
                crate::vm::StackCell::Operand(Value::I32(a)) ==> final(vm)@ == s.drop_last().push(
                crate::vm::StackCell::Operand(Value::I32(if a == 0 { 1u32 } else { 0u32 })),
            ))
        }),
        *instruction matches object::Instruction::Sequence(op) ==> (op
            == ast::Instruction::I64Eqz) ==> ({
            let s = old(vm)@;
            old(vm).status.base_pointer < s.len() ==> (s.last() matches
                crate::vm::StackCell::Operand(Value::I64(a)) ==> final(vm)@ == s.drop_last().push(
                crate::vm::StackCell::Operand(Value::I32(if a == 0 { 1u32 } else { 0u32 })),
            ))
        }),
        // the binary numeric instructions compute exactly their defined
        // value, or trap exactly on divide-by-zero and division overflow
        *instruction matches object::Instruction::Sequence(op) ==> spec_is_i32_binary(op) ==> ({
            let s = old(vm)@;
            (old(vm).status.base_pointer + 2 <= s.len()) ==> (s[s.len() - 2] matches
                crate::vm::StackCell::Operand(Value::I32(a)) ==> (s[s.len() - 1] matches
                crate::vm::StackCell::Operand(Value::I32(b)) ==> (match spec_i32_binary_result(
                op,
                a,
                b,
            ) {
                Ok(v) => final(vm)@ == s.take(s.len() - 2).push(
                    crate::vm::StackCell::Operand(Value::I32(v)),
                ) && (old(vm).status.address < usize::MAX ==> r == Ok::<StepResult, EngineError>(
                    StepResult::Continue,
                )),
                Err(e) => r == Err::<StepResult, EngineError>(e) && final(vm)@ == s.take(
                    s.len() - 2,
                ),
            })))
        }),
        *instruction matches object::Instruction::Sequence(op) ==> spec_is_i64_binary(op) ==> ({
            let s = old(vm)@;
            (old(vm).status.base_pointer + 2 <= s.len()) ==> (s[s.len() - 2] matches
                crate::vm::StackCell::Operand(Value::I64(a)) ==> (s[s.len() - 1] matches
                crate::vm::StackCell::Operand(Value::I64(b)) ==> (match spec_i64_binary_result(
                op,
                a,
                b,
            ) {
                Ok(v) => final(vm)@ == s.take(s.len() - 2).push(
                    crate::vm::StackCell::Operand(Value::I64(v)),
                ) && (old(vm).status.address < usize::MAX ==> r == Ok::<StepResult, EngineError>(
                    StepResult::Continue,
                )),
                Err(e) => r == Err::<StepResult, EngineError>(e) && final(vm)@ == s.take(
                    s.len() - 2,
                ),
            })))
        }),
        // the comparison instructions push exactly their defined flag
        *instruction matches object::Instruction::Sequence(op) ==> spec_is_i32_comparison(op)
            ==> ({
            let s = old(vm)@;
            (old(vm).status.base_pointer + 2 <= s.len()) ==> (s[s.len() - 2] matches
                crate::vm::StackCell::Operand(Value::I32(a)) ==> (s[s.len() - 1] matches
                crate::vm::StackCell::Operand(Value::I32(b)) ==> (match spec_i32_comparison_result(
                op,
                a,
                b,
            ) {
                Ok(v) => final(vm)@ == s.take(s.len() - 2).push(
                    crate::vm::StackCell::Operand(Value::I32(if v { 1u32 } else { 0u32 })),
                ),
                Err(_) => true,
            })))
        }),
        *instruction matches object::Instruction::Sequence(op) ==> spec_is_i64_comparison(op)
            ==> ({
            let s = old(vm)@;
            (old(vm).status.base_pointer + 2 <= s.len()) ==> (s[s.len() - 2] matches
                crate::vm::StackCell::Operand(Value::I64(a)) ==> (s[s.len() - 1] matches
                crate::vm::StackCell::Operand(Value::I64(b)) ==> (match spec_i64_comparison_result(
                op,
                a,
                b,
            ) {
                Ok(v) => final(vm)@ == s.take(s.len() - 2).push(
                    crate::vm::StackCell::Operand(Value::I32(if v { 1u32 } else { 0u32 })),
                ),
                Err(_) => true,
            })))
        }),
        // `end`: the full frame-discipline outcome
        *instruction matches object::Instruction::Control(
            Control::End(option_block_index),
        ) ==> spec_end_post(*old(vm), option_block_index, final(vm)@, final(vm).status, r),
        // `unreachable` always traps, `nop` only advances
        (*instruction matches object::Instruction::Control(c) && c is Unreachable) ==> r
            == Err::<StepResult, EngineError>(
            EngineError::InvalidOperation(InvalidOperation::Unreachable),
        ) && final(vm)@ == old(vm)@,
        (*instruction matches object::Instruction::Control(c) && c is Nop) ==> final(vm)@ == old(
            vm,
        )@ && (r is Ok ==> r == Ok::<StepResult, EngineError>(StepResult::Continue)
            && final(vm).status == (crate::vm::VMStatus {
            address: (old(vm).status.address + 1) as usize,
            ..old(vm).status
        })),
        // a call enters the callee's call frame
        *instruction matches object::Instruction::Control(Control::Call {
            vm_module_index,
            type_index,
            function_index,
            internal_function_index,
            address,
        }) ==> spec_call_post(
            *old(vm),
            vm_module_index,
            type_index,
            function_index,
            internal_function_index,
            address,
            final(vm)@,
            final(vm).status,
            (match r {
                Ok(_) => Ok::<(), EngineError>(()),
                Err(e) => Err(e),
            }),
        ) && (r is Ok ==> r == Ok::<StepResult, EngineError>(StepResult::Continue)),
        // a native call suspends with the host function's declared
        // parameters and records the result types it owes
        *instruction matches object::Instruction::Control(Control::CallNative {
            native_module_index,
            type_index,
            function_index,
        }) ==> r is Ok ==> ({
            let native = old(vm).resource.native_modules@[native_module_index as int];
            let params = native.function_types@[type_index as int].params@.len() as int;
            &&& native_module_index < old(vm).resource.native_modules@.len()
            &&& type_index < native.function_types@.len()
            &&& (r matches Ok(StepResult::HostCall {
                native_module_index: request_module,
                function_index: request_function,
                arguments,
            }) && request_module == native_module_index && request_function == function_index
                && arguments@ == crate::vm::spec_top_values(old(vm)@, params))
            &&& final(vm)@ == old(vm)@.take(old(vm)@.len() - params)
            &&& (final(vm).pending matches Some(p) && p.native_module_index == native_module_index
                && p.function_index == function_index && p.expected_result_types@
                == native.function_types@[type_index as int].results@)
        }),
        // an indirect call that entered a frame entered a call frame
        (*instruction matches object::Instruction::Control(c) && c is CallIndirect && r == Ok::<
            StepResult,
            EngineError,
        >(StepResult::Continue)) ==> final(vm).status.frame_pointer
            == final(vm).status.local_pointer,
        // a block entry pushes a block frame and enters it one past the
        // opener
        *instruction matches object::Instruction::Control(Control::Block {
            block_type,
            block_index,
            end_address,
        }) ==> (if old(vm).status.address == usize::MAX {
            r is Err
        } else {
            spec_block_entry_post(
                *old(vm),
                old(vm)@,
                block_type,
                (old(vm).status.address + 1) as usize,
                end_address,
                final(vm)@,
                final(vm).status,
                (match r {
                    Ok(_) => Ok::<(), EngineError>(()),
                    Err(e) => Err(e),
                }),
            ) && (r is Ok ==> r == Ok::<StepResult, EngineError>(StepResult::Continue))
        }),
        // `if`: enter the then branch on a non-zero condition, the else
        // branch when it exists, and otherwise skip past the `end`
        *instruction matches object::Instruction::Control(Control::BlockAndJumpWhenEqZero {
            block_type,
            block_index,
            option_alternate_address,
            end_address,
        }) ==> ({
            let s = old(vm)@;
            old(vm).status.base_pointer < s.len() ==> (s.last() matches
                crate::vm::StackCell::Operand(Value::I32(condition)) ==> (if condition != 0 {
                if old(vm).status.address == usize::MAX {
                    r is Err
                } else {
                    spec_block_entry_post(
                        *old(vm),
                        s.drop_last(),
                        block_type,
                        (old(vm).status.address + 1) as usize,
                        end_address,
                        final(vm)@,
                        final(vm).status,
                        (match r {
                            Ok(_) => Ok::<(), EngineError>(()),
                            Err(e) => Err(e),
                        }),
                    ) && (r is Ok ==> r == Ok::<StepResult, EngineError>(StepResult::Continue))
                }
            } else {
                match option_alternate_address {
                    Some(alternate_address) => spec_block_entry_post(
                        *old(vm),
                        s.drop_last(),
                        block_type,
                        alternate_address,
                        end_address,
                        final(vm)@,
                        final(vm).status,
                        (match r {
                            Ok(_) => Ok::<(), EngineError>(()),
                            Err(e) => Err(e),
                        }),
                    ) && (r is Ok ==> r == Ok::<StepResult, EngineError>(StepResult::Continue)),
                    Option::None => if end_address == usize::MAX {
                        r is Err
                    } else {
                        &&& r == Ok::<StepResult, EngineError>(StepResult::Continue)
                        &&& final(vm)@ == s.drop_last()
                        &&& final(vm).status == (crate::vm::VMStatus {
                            address: (end_address + 1) as usize,
                            ..old(vm).status
                        })
                    },
                }
            }))
        }),
        // an intra-block jump changes the address and nothing else
        *instruction matches object::Instruction::Control(
            Control::JumpWithinBlock(jump_address),
        ) ==> r == Ok::<StepResult, EngineError>(
            StepResult::Continue,
        ) && final(vm)@ == old(vm)@ && final(vm).status == (crate::vm::VMStatus {
            address: jump_address,
            ..old(vm).status
        }),
        // a forward branch pops its frames, carrying the target's result
        // arity, and jumps to the target's `end`
        *instruction matches object::Instruction::Control(Control::Break {
            option_block_index,
            relative_depth,
            address,
        }) ==> (match spec_break_step(*old(vm), old(vm)@, relative_depth as int) {
            Option::None => r is Err,
            Some(after) => {
                &&& r == Ok::<StepResult, EngineError>(StepResult::Continue)
                &&& final(vm)@ == after.0
                &&& final(vm).status == (crate::vm::VMStatus { address, ..after.1 })
            },
        }),
        *instruction matches object::Instruction::Control(Control::BreakWhenNotEqZero {
            option_block_index,
            relative_depth,
            address,
        }) ==> ({
            let s = old(vm)@;
            old(vm).status.base_pointer < s.len() ==> (s.last() matches
                crate::vm::StackCell::Operand(Value::I32(condition)) ==> (if condition != 0 {
                match spec_break_step(*old(vm), s.drop_last(), relative_depth as int) {
                    Option::None => r is Err,
                    Some(after) => {
                        &&& r == Ok::<StepResult, EngineError>(StepResult::Continue)
                        &&& final(vm)@ == after.0
                        &&& final(vm).status == (crate::vm::VMStatus { address, ..after.1 })
                    },
                }
            } else {
                &&& final(vm)@ == s.drop_last()
                &&& (old(vm).status.address < usize::MAX ==> r == Ok::<StepResult, EngineError>(
                    StepResult::Continue,
                ) && final(vm).status == (crate::vm::VMStatus {
                    address: (old(vm).status.address + 1) as usize,
                    ..old(vm).status
                }))
            }))
        }),
        // a backward branch to a loop pops one frame more, carrying the
        // loop's parameter arity, and jumps back to the `loop` opener
        *instruction matches object::Instruction::Control(Control::Recur {
            block_index,
            relative_depth,
            address,
        }) ==> (match spec_recur_step(*old(vm), old(vm)@, relative_depth as int) {
            Option::None => r is Err,
            Some(after) => {
                &&& r == Ok::<StepResult, EngineError>(StepResult::Continue)
                &&& final(vm)@ == after.0
                &&& final(vm).status == (crate::vm::VMStatus { address, ..after.1 })
            },
        }),
        *instruction matches object::Instruction::Control(Control::RecurWhenNotEqZero {
            block_index,
            relative_depth,
            address,
        }) ==> ({
            let s = old(vm)@;
            old(vm).status.base_pointer < s.len() ==> (s.last() matches
                crate::vm::StackCell::Operand(Value::I32(condition)) ==> (if condition != 0 {
                match spec_recur_step(*old(vm), s.drop_last(), relative_depth as int) {
                    Option::None => r is Err,
                    Some(after) => {
                        &&& r == Ok::<StepResult, EngineError>(StepResult::Continue)
                        &&& final(vm)@ == after.0
                        &&& final(vm).status == (crate::vm::VMStatus { address, ..after.1 })
                    },
                }
            } else {
                &&& final(vm)@ == s.drop_last()
                &&& (old(vm).status.address < usize::MAX ==> r == Ok::<StepResult, EngineError>(
                    StepResult::Continue,
                ) && final(vm).status == (crate::vm::VMStatus {
                    address: (old(vm).status.address + 1) as usize,
                    ..old(vm).status
                }))
            }))
        }),
        // `br_table`: the popped index picks the target, saturating to the
        // default, and the picked target branches as `br` does
        *instruction matches object::Instruction::Control(Control::Branch {
            option_block_index,
            branch_targets,
            default_branch_target,
        }) ==> ({
            let s = old(vm)@;
            old(vm).status.base_pointer < s.len() ==> (s.last() matches
                crate::vm::StackCell::Operand(Value::I32(picked)) ==> ({
                let target = if (picked as int) < branch_targets@.len() {
                    branch_targets@[picked as int]
                } else {
                    default_branch_target
                };
                match target {
                    BranchTarget::Break(target_depth, target_address) => match spec_break_step(
                        *old(vm),
                        s.drop_last(),
                        target_depth as int,
                    ) {
                        Option::None => r is Err,
                        Some(after) => {
                            &&& r == Ok::<StepResult, EngineError>(StepResult::Continue)
                            &&& final(vm)@ == after.0
                            &&& final(vm).status == (crate::vm::VMStatus {
                                address: target_address,
                                ..after.1
                            })
                        },
                    },
                    BranchTarget::Recur(target_depth, target_address) => match spec_recur_step(
                        *old(vm),
                        s.drop_last(),
                        target_depth as int,
                    ) {
                        Option::None => r is Err,
                        Some(after) => {
                            &&& r == Ok::<StepResult, EngineError>(StepResult::Continue)
                            &&& final(vm)@ == after.0
                            &&& final(vm).status == (crate::vm::VMStatus {
                                address: target_address,
                                ..after.1
                            })
                        },
                    },
                }
            }))
        }),
{
    match instruction {
        object::Instruction::Sequence(sequence_instruction) => {
            match sequence_instruction {
                // constants
                ast::Instruction::I32Const(value) => {
                    vm.stack.push_value(Value::I32(*value));
                },
                ast::Instruction::I64Const(value) => {
                    vm.stack.push_value(Value::I64(*value));
                },
                ast::Instruction::F32Const(bits) => {
                    vm.stack.push_value(Value::F32(*bits));
                },
                ast::Instruction::F64Const(bits) => {
                    vm.stack.push_value(Value::F64(*bits));
                },
                // parametric
                ast::Instruction::Drop => {
                    let _ = vm_pop(vm)?;
                },
                ast::Instruction::Select => {
                    let condition = vm_pop_i32(vm)?;
                    let second = vm_pop(vm)?;
                    let first = vm_pop(vm)?;
                    if first.get_type() != second.get_type() {
                        return Err(
                            EngineError::TypeMismatch(
                                TypeMismatch::OperandTypeMismatch(
                                    first.get_type(),
                                    second.get_type(),
                                ),
                            ),
                        );
                    }
                    if condition != 0 {
                        vm.stack.push_value(first);
                    } else {
                        vm.stack.push_value(second);
                    }
                },
                // tests
                ast::Instruction::I32Eqz => {
                    let a = vm_pop_i32(vm)?;
                    vm.stack.push_value(Value::I32(bool_i32(a == 0)));
                },
                ast::Instruction::I64Eqz => {
                    let a = vm_pop_i64(vm)?;
                    vm.stack.push_value(Value::I32(bool_i32(a == 0)));
                },
                // comparisons
                ast::Instruction::I32Eq
                | ast::Instruction::I32Ne
                | ast::Instruction::I32LtS
                | ast::Instruction::I32LtU
                | ast::Instruction::I32GtS
                | ast::Instruction::I32GtU
                | ast::Instruction::I32LeS
                | ast::Instruction::I32LeU
                | ast::Instruction::I32GeS
                | ast::Instruction::I32GeU => {
                    exec_i32_comparison(vm, sequence_instruction)?;
                },
                ast::Instruction::I64Eq
                | ast::Instruction::I64Ne
                | ast::Instruction::I64LtS
                | ast::Instruction::I64LtU
                | ast::Instruction::I64GtS
                | ast::Instruction::I64GtU
                | ast::Instruction::I64LeS
                | ast::Instruction::I64LeU
                | ast::Instruction::I64GeS
                | ast::Instruction::I64GeU => {
                    exec_i64_comparison(vm, sequence_instruction)?;
                },
                // unary
                ast::Instruction::I32Clz
                | ast::Instruction::I32Ctz
                | ast::Instruction::I32PopCnt
                | ast::Instruction::I64Clz
                | ast::Instruction::I64Ctz
                | ast::Instruction::I64PopCnt => {
                    exec_integer_unary(vm, sequence_instruction)?;
                },
                // binary
                ast::Instruction::I32Add
                | ast::Instruction::I32Sub
                | ast::Instruction::I32Mul
                | ast::Instruction::I32DivS
                | ast::Instruction::I32DivU
                | ast::Instruction::I32RemS
                | ast::Instruction::I32RemU
                | ast::Instruction::I32And
                | ast::Instruction::I32Or
                | ast::Instruction::I32Xor
                | ast::Instruction::I32Shl
                | ast::Instruction::I32ShrS
                | ast::Instruction::I32ShrU
                | ast::Instruction::I32Rotl
                | ast::Instruction::I32Rotr => {
                    exec_i32_binary(vm, sequence_instruction)?;
                },
                ast::Instruction::I64Add
                | ast::Instruction::I64Sub
                | ast::Instruction::I64Mul
                | ast::Instruction::I64DivS
                | ast::Instruction::I64DivU
                | ast::Instruction::I64RemS
                | ast::Instruction::I64RemU
                | ast::Instruction::I64And
                | ast::Instruction::I64Or
                | ast::Instruction::I64Xor
                | ast::Instruction::I64Shl
                | ast::Instruction::I64ShrS
                | ast::Instruction::I64ShrU
                | ast::Instruction::I64Rotl
                | ast::Instruction::I64Rotr => {
                    exec_i64_binary(vm, sequence_instruction)?;
                },
                // conversions and reinterpretations
                ast::Instruction::I32WrapI64
                | ast::Instruction::I64ExtendI32S
                | ast::Instruction::I64ExtendI32U
                | ast::Instruction::I32Extend8S
                | ast::Instruction::I32Extend16S
                | ast::Instruction::I64Extend8S
                | ast::Instruction::I64Extend16S
                | ast::Instruction::I64Extend32S
                | ast::Instruction::I32ReinterpretF32
                | ast::Instruction::I64ReinterpretF64
                | ast::Instruction::F32ReinterpretI32
                | ast::Instruction::F64ReinterpretI64 => {
                    exec_convert(vm, sequence_instruction)?;
                },
                // variables
                ast::Instruction::LocalGet(_)
                | ast::Instruction::LocalSet(_)
                | ast::Instruction::LocalTee(_)
                | ast::Instruction::GlobalGet(_)
                | ast::Instruction::GlobalSet(_) => {
                    exec_variable(vm, sequence_instruction)?;
                },
                // memory
                ast::Instruction::I32Load(_)
                | ast::Instruction::I64Load(_)
                | ast::Instruction::F32Load(_)
                | ast::Instruction::F64Load(_)
                | ast::Instruction::I32Load8S(_)
                | ast::Instruction::I32Load8U(_)
                | ast::Instruction::I32Load16S(_)
                | ast::Instruction::I32Load16U(_)
                | ast::Instruction::I64Load8S(_)
                | ast::Instruction::I64Load8U(_)
                | ast::Instruction::I64Load16S(_)
                | ast::Instruction::I64Load16U(_)
                | ast::Instruction::I64Load32S(_)
                | ast::Instruction::I64Load32U(_)
                | ast::Instruction::I32Store(_)
                | ast::Instruction::I32Store8(_)
                | ast::Instruction::I32Store16(_)
                | ast::Instruction::I64Store(_)
                | ast::Instruction::I64Store8(_)
                | ast::Instruction::I64Store16(_)
                | ast::Instruction::I64Store32(_)
                | ast::Instruction::F32Store(_)
                | ast::Instruction::F64Store(_)
                | ast::Instruction::MemorySize(_)
                | ast::Instruction::MemoryGrow(_) => {
                    exec_memory(vm, sequence_instruction)?;
                },
                // everything else is represented but refused: bulk
                // memory/table operations, saturating truncation, and all
                // floating-point computation
                _ => {
                    return Err(EngineError::Unsupported(Unsupported::UnsupportedInstruction));
                },
            }
            // a straight-line instruction advances the program counter
            let next_address = match vm.status.address.checked_add(1) {
                Some(a) => a,
                None => {
                    return Err(
                        EngineError::InvalidOperation(InvalidOperation::InvalidProgramCounter),
                    );
                },
            };
            vm.status.address = next_address;
            Ok(StepResult::Continue)
        },
        object::Instruction::Control(control) => {
            let control_result = match control {
                Control::Unreachable => ins_control::process_unreachable(vm)?,
                Control::Nop => ins_control::process_nop(vm)?,
                Control::End(option_block_index) => ins_control::process_end(
                    vm,
                    option_block_index,
                )?,
                Control::Call {
                    vm_module_index,
                    type_index,
                    function_index,
                    internal_function_index,
                    address,
                } => process_call(
                    vm,
                    *vm_module_index,
                    *type_index,
                    *function_index,
                    *internal_function_index,
                    *address,
                )?,
                Control::CallNative { native_module_index, type_index, function_index } =>
                    process_call_native(vm, *native_module_index, *type_index, *function_index)?,
                Control::CallIndirect { type_index, table_index } => process_call_indirect(
                    vm,
                    *type_index,
                    *table_index,
                )?,
                Control::Block { block_type, block_index: _, end_address } => {
                    let next_address = match vm.status.address.checked_add(1) {
                        Some(a) => a,
                        None => {
                            return Err(
                                EngineError::InvalidOperation(
                                    InvalidOperation::InvalidProgramCounter,
                                ),
                            );
                        },
                    };
                    let param_count = vm.frame_param_count(block_type)?;
                    vm.push_block_frame(*block_type, param_count, *end_address)?;
                    ControlResult::PushStackFrame {
                        is_call_frame: false,
                        vm_module_index: vm.status.vm_module_index,
                        function_index: vm.status.function_index,
                        frame_type: *block_type,
                        address: next_address,
                    }
                },
                Control::BlockAndJumpWhenEqZero {
                    block_type,
                    block_index: _,
                    option_alternate_address,
                    end_address,
                } => {
                    let condition = vm_pop_i32(vm)?;
                    if condition != 0 {
                        let next_address = match vm.status.address.checked_add(1) {
                            Some(a) => a,
                            None => {
                                return Err(
                                    EngineError::InvalidOperation(
                                        InvalidOperation::InvalidProgramCounter,
                                    ),
                                );
                            },
                        };
                        let param_count = vm.frame_param_count(block_type)?;
                        vm.push_block_frame(*block_type, param_count, *end_address)?;
                        ControlResult::PushStackFrame {
                            is_call_frame: false,
                            vm_module_index: vm.status.vm_module_index,
                            function_index: vm.status.function_index,
                            frame_type: *block_type,
                            address: next_address,
                        }
                    } else {
                        match option_alternate_address {
                            Some(alternate_address) => {
                                let param_count = vm.frame_param_count(block_type)?;
                                vm.push_block_frame(*block_type, param_count, *end_address)?;
                                ControlResult::PushStackFrame {
                                    is_call_frame: false,
                                    vm_module_index: vm.status.vm_module_index,
                                    function_index: vm.status.function_index,
                                    frame_type: *block_type,
                                    address: *alternate_address,
                                }
                            },
                            None => {
                                // no alternate branch: skip past the `end`,
                                // entering no frame
                                let past_end = match end_address.checked_add(1) {
                                    Some(a) => a,
                                    None => {
                                        return Err(
                                            EngineError::InvalidOperation(
                                                InvalidOperation::InvalidProgramCounter,
                                            ),
                                        );
                                    },
                                };
                                ControlResult::JumpWithinBlock(past_end)
                            },
                        }
                    }
                },
                Control::JumpWithinBlock(address) => ControlResult::JumpWithinBlock(*address),
                Control::Break { option_block_index: _, relative_depth, address } => process_break(
                    vm,
                    *relative_depth,
                    *address,
                )?,
                Control::BreakWhenNotEqZero { option_block_index: _, relative_depth, address } => {
                    let condition = vm_pop_i32(vm)?;
                    if condition != 0 {
                        process_break(vm, *relative_depth, *address)?
                    } else {
                        ControlResult::Sequence
                    }
                },
                Control::Recur { block_index: _, relative_depth, address } => process_recur(
                    vm,
                    *relative_depth,
                    *address,
                )?,
                Control::RecurWhenNotEqZero { block_index: _, relative_depth, address } => {
                    let condition = vm_pop_i32(vm)?;
                    if condition != 0 {
                        process_recur(vm, *relative_depth, *address)?
                    } else {
                        ControlResult::Sequence
                    }
                },
                Control::Branch { option_block_index: _, branch_targets, default_branch_target } => {
                    let picked = vm_pop_i32(vm)?;
                    let target = if (picked as usize) < branch_targets.len() {
                        branch_targets[picked as usize]
                    } else {
                        *default_branch_target
                    };
                    match target {
                        BranchTarget::Break(relative_depth, address) => process_break(
                            vm,
                            relative_depth,
                            address,
                        )?,
                        BranchTarget::Recur(relative_depth, address) => process_recur(
                            vm,
                            relative_depth,
                            address,
                        )?,
                    }
                },
            };
            match control_result {
                ControlResult::ProgramEnd => Ok(StepResult::ProgramEnd),
                ControlResult::Sequence => {
                    let next_address = match vm.status.address.checked_add(1) {
                        Some(a) => a,
                        None => {
                            return Err(
                                EngineError::InvalidOperation(
                                    InvalidOperation::InvalidProgramCounter,
                                ),
                            );
                        },
                    };
                    vm.status.address = next_address;
                    Ok(StepResult::Continue)
                },
                ControlResult::PushStackFrame {
                    is_call_frame: _,
                    vm_module_index,
                    function_index,
                    frame_type,
                    address,
                } => {
                    vm.status.vm_module_index = vm_module_index;
                    vm.status.function_index = function_index;
                    vm.status.frame_type = frame_type;
                    vm.status.address = address;
                    Ok(StepResult::Continue)
                },
                ControlResult::PopStackFrame {
                    is_call_frame: _,
                    vm_module_index,
                    function_index,
                    frame_type,
                    address,
                } => {
                    vm.status.vm_module_index = vm_module_index;
                    vm.status.function_index = function_index;
                    vm.status.frame_type = frame_type;
                    vm.status.address = address;
                    Ok(StepResult::Continue)
                },
                ControlResult::JumpWithinFunction { frame_type, address } => {
                    vm.status.frame_type = frame_type;
                    vm.status.address = address;
                    Ok(StepResult::Continue)
                },
                ControlResult::JumpWithinBlock(address) => {
                    vm.status.address = address;
                    Ok(StepResult::Continue)
                },
                ControlResult::HostCall { native_module_index, function_index, arguments } => {
                    Ok(StepResult::HostCall { native_module_index, function_index, arguments })
                },
            }
        },
    }
}

} // verus!

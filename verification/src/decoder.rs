//! Decoding of constant expressions, which initialise global variables and
//! give the offsets of data and element segments.

use vstd::prelude::*;
use crate::ast;
use crate::error::{EngineError, InvalidOperation, ObjectNotFound, TypeMismatch};
use crate::values::Value;
use crate::vm_global_variable::VMGlobalVariable;

verus! {

/// The restricted instruction subset a constant expression may use: one
/// constant, or a read of an already-resolved global variable.
#[derive(Clone, Copy, PartialEq, Eq, Structural, Debug)]
pub enum ConstantExpression {
    I32Const(u32),
    I64Const(u64),
    F32Const(u32),
    F64Const(u64),
    GlobalGet(u32),
}

/// What a well-formed constant expression reads: exactly one permitted
/// instruction followed by the `end` marker.
pub open spec fn spec_decode_constant_expression(items: Seq<ast::Instruction>) -> Option<
    ConstantExpression,
> {
    if items.len() != 2 || items[1] != ast::Instruction::End {
        Option::None
    } else {
        match items[0] {
            ast::Instruction::I32Const(v) => Some(ConstantExpression::I32Const(v)),
            ast::Instruction::I64Const(v) => Some(ConstantExpression::I64Const(v)),
            ast::Instruction::F32Const(v) => Some(ConstantExpression::F32Const(v)),
            ast::Instruction::F64Const(v) => Some(ConstantExpression::F64Const(v)),
            ast::Instruction::GlobalGet(index) => Some(ConstantExpression::GlobalGet(index)),
            _ => Option::None,
        }
    }
}

/// Decodes a constant expression: one `*.const` or `global.get`
/// instruction, closed by `end`. Anything else is rejected.
pub fn decode_constant_expression(instruction_items: &Vec<ast::Instruction>) -> (r: Result<
    ConstantExpression,
    EngineError,
>)
    ensures
        match r {
            Ok(expression) => spec_decode_constant_expression(instruction_items@) == Some(
                expression,
            ),
            Err(e) => spec_decode_constant_expression(instruction_items@) is None && e
                == EngineError::InvalidOperation(InvalidOperation::InvalidConstantExpression),
        },
{
    if instruction_items.len() != 2 {
        return Err(EngineError::InvalidOperation(InvalidOperation::InvalidConstantExpression));
    }
    match &instruction_items[1] {
        ast::Instruction::End => {},
        _ => {
            return Err(
                EngineError::InvalidOperation(InvalidOperation::InvalidConstantExpression),
            );
        },
    }
    match &instruction_items[0] {
        ast::Instruction::I32Const(v) => Ok(ConstantExpression::I32Const(*v)),
        ast::Instruction::I64Const(v) => Ok(ConstantExpression::I64Const(*v)),
        ast::Instruction::F32Const(v) => Ok(ConstantExpression::F32Const(*v)),
        ast::Instruction::F64Const(v) => Ok(ConstantExpression::F64Const(*v)),
        ast::Instruction::GlobalGet(index) => Ok(ConstantExpression::GlobalGet(*index)),
        _ => Err(EngineError::InvalidOperation(InvalidOperation::InvalidConstantExpression)),
    }
}

/// What evaluating a constant expression yields, given the module's
/// already-resolved global slots: a constant yields its value; a
/// `global.get` yields the value of the named slot when that slot is
/// resolved, and fails otherwise.
pub open spec fn spec_evaluate_constant_expression(
    expression: ConstantExpression,
    module_global_map: Seq<Option<usize>>,
    instance_globals: Seq<VMGlobalVariable>,
) -> Result<Value, EngineError> {
    match expression {
        ConstantExpression::I32Const(v) => Ok(Value::I32(v)),
        ConstantExpression::I64Const(v) => Ok(Value::I64(v)),
        ConstantExpression::F32Const(v) => Ok(Value::F32(v)),
        ConstantExpression::F64Const(v) => Ok(Value::F64(v)),
        ConstantExpression::GlobalGet(index) => {
            if index >= module_global_map.len() {
                Err(EngineError::InvalidOperation(InvalidOperation::InvalidGlobalVariableIndex))
            } else {
                match module_global_map[index as int] {
                    Some(instance_index) => {
                        if instance_index >= instance_globals.len() {
                            Err(
                                EngineError::InvalidOperation(
                                    InvalidOperation::InvalidGlobalVariableIndex,
                                ),
                            )
                        } else {
                            Ok(instance_globals[instance_index as int].spec_value())
                        }
                    },
                    Option::None => Err(
                        EngineError::InvalidOperation(
                            InvalidOperation::InvalidConstantExpression,
                        ),
                    ),
                }
            }
        },
    }
}

/// Evaluates a decoded constant expression against the module's resolved
/// global slots.
pub fn evaluate_constant_expression(
    expression: ConstantExpression,
    module_global_map: &Vec<Option<usize>>,
    instance_globals: &Vec<VMGlobalVariable>,
) -> (r: Result<Value, EngineError>)
    ensures
        r == spec_evaluate_constant_expression(
            expression,
            module_global_map@,
            instance_globals@,
        ),
{
    match expression {
        ConstantExpression::I32Const(v) => Ok(Value::I32(v)),
        ConstantExpression::I64Const(v) => Ok(Value::I64(v)),
        ConstantExpression::F32Const(v) => Ok(Value::F32(v)),
        ConstantExpression::F64Const(v) => Ok(Value::F64(v)),
        ConstantExpression::GlobalGet(index) => {
            if index as usize >= module_global_map.len() {
                return Err(
                    EngineError::InvalidOperation(InvalidOperation::InvalidGlobalVariableIndex),
                );
            }
            match module_global_map[index as usize] {
                Some(instance_index) => {
                    if instance_index >= instance_globals.len() {
                        return Err(
                            EngineError::InvalidOperation(
                                InvalidOperation::InvalidGlobalVariableIndex,
                            ),
                        );
                    }
                    Ok(instance_globals[instance_index].get_value())
                },
                None => Err(
                    EngineError::InvalidOperation(InvalidOperation::InvalidConstantExpression),
                ),
            }
        },
    }
}

} // verus!

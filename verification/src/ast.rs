//! The decoded-module data model.
//!
//! The engine consumes modules that a decoder has already turned into typed
//! instruction streams. `block`/`loop`/`if` carry their block type and a
//! block index assigned in depth-first pre-order at decode time; `else` and
//! `end` are explicit markers kept in the stream.

use vstd::prelude::*;
use crate::values::{FunctionType, ValueType};

verus! {

/// The declared parameter/result signature of a structured block or call
/// frame: empty, a single inline result type, or an index into the module's
/// type table.
#[derive(Clone, Copy, PartialEq, Eq, Structural, Debug)]
pub enum BlockType {
    ResultEmpty,
    ResultI32,
    ResultI64,
    ResultF32,
    ResultF64,
    TypeIndex(u32),
}

/// Alignment hint and constant offset of a memory access instruction.
#[derive(Clone, Copy, PartialEq, Eq, Structural, Debug)]
pub struct MemoryArg {
    pub align: u32,
    pub offset: u32,
}

/// A decoded instruction. Integer immediates of `*.const` are stored in
/// unsigned form; `F32Const`/`F64Const` hold the bit pattern.
#[derive(Clone, Debug, PartialEq)]
pub enum Instruction {
    // control
    Unreachable,
    Nop,
    Block(BlockType, u32),
    Loop(BlockType, u32),
    If(BlockType, u32),
    Else,
    End,
    Br(u32),
    BrIf(u32),
    BrTable(Vec<u32>, u32),
    Return,
    Call(u32),
    CallIndirect(u32, u32),
    // parametric
    Drop,
    Select,
    // variable
    LocalGet(u32),
    LocalSet(u32),
    LocalTee(u32),
    GlobalGet(u32),
    GlobalSet(u32),
    // table
    TableGet(u32),
    TableSet(u32),
    TableInit(u32, u32),
    ElementDrop(u32),
    TableCopy(u32, u32),
    TableGrow(u32),
    TableSize(u32),
    TableFill(u32),
    // memory
    I32Load(MemoryArg),
    I64Load(MemoryArg),
    F32Load(MemoryArg),
    F64Load(MemoryArg),
    I32Load8S(MemoryArg),
    I32Load8U(MemoryArg),
    I32Load16S(MemoryArg),
    I32Load16U(MemoryArg),
    I64Load8S(MemoryArg),
    I64Load8U(MemoryArg),
    I64Load16S(MemoryArg),
    I64Load16U(MemoryArg),
    I64Load32S(MemoryArg),
    I64Load32U(MemoryArg),
    I32Store(MemoryArg),
    I64Store(MemoryArg),
    F32Store(MemoryArg),
    F64Store(MemoryArg),
    I32Store8(MemoryArg),
    I32Store16(MemoryArg),
    I64Store8(MemoryArg),
    I64Store16(MemoryArg),
    I64Store32(MemoryArg),
    MemorySize(u32),
    MemoryGrow(u32),
    MemoryInit(u32, u32),
    DataDrop(u32),
    MemoryCopy(u32, u32),
    MemoryFill(u32),
    // constants
    I32Const(u32),
    I64Const(u64),
    F32Const(u32),
    F64Const(u64),
    // i32 test and comparison
    I32Eqz,
    I32Eq,
    I32Ne,
    I32LtS,
    I32LtU,
    I32GtS,
    I32GtU,
    I32LeS,
    I32LeU,
    I32GeS,
    I32GeU,
    // i64 test and comparison
    I64Eqz,
    I64Eq,
    I64Ne,
    I64LtS,
    I64LtU,
    I64GtS,
    I64GtU,
    I64LeS,
    I64LeU,
    I64GeS,
    I64GeU,
    // f32/f64 comparison
    F32Eq,
    F32Ne,
    F32Lt,
    F32Gt,
    F32Le,
    F32Ge,
    F64Eq,
    F64Ne,
    F64Lt,
    F64Gt,
    F64Le,
    F64Ge,
    // i32 arithmetic
    I32Clz,
    I32Ctz,
    I32PopCnt,
    I32Add,
    I32Sub,
    I32Mul,
    I32DivS,
    I32DivU,
    I32RemS,
    I32RemU,
    I32And,
    I32Or,
    I32Xor,
    I32Shl,
    I32ShrS,
    I32ShrU,
    I32Rotl,
    I32Rotr,
    // i64 arithmetic
    I64Clz,
    I64Ctz,
    I64PopCnt,
    I64Add,
    I64Sub,
    I64Mul,
    I64DivS,
    I64DivU,
    I64RemS,
    I64RemU,
    I64And,
    I64Or,
    I64Xor,
    I64Shl,
    I64ShrS,
    I64ShrU,
    I64Rotl,
    I64Rotr,
    // f32 arithmetic
    F32Abs,
    F32Neg,
    F32Ceil,
    F32Floor,
    F32Trunc,
    F32Nearest,
    F32Sqrt,
    F32Add,
    F32Sub,
    F32Mul,
    F32Div,
    F32Min,
    F32Max,
    F32CopySign,
    // f64 arithmetic
    F64Abs,
    F64Neg,
    F64Ceil,
    F64Floor,
    F64Trunc,
    F64Nearest,
    F64Sqrt,
    F64Add,
    F64Sub,
    F64Mul,
    F64Div,
    F64Min,
    F64Max,
    F64CopySign,
    // conversions
    I32WrapI64,
    I32TruncF32S,
    I32TruncF32U,
    I32TruncF64S,
    I32TruncF64U,
    I64ExtendI32S,
    I64ExtendI32U,
    I64TruncF32S,
    I64TruncF32U,
    I64TruncF64S,
    I64TruncF64U,
    F32ConvertI32S,
    F32ConvertI32U,
    F32ConvertI64S,
    F32ConvertI64U,
    F32DemoteF64,
    F64ConvertI32S,
    F64ConvertI32U,
    F64ConvertI64S,
    F64ConvertI64U,
    F64PromoteF32,
    I32ReinterpretF32,
    I64ReinterpretF64,
    F32ReinterpretI32,
    F64ReinterpretI64,
    // sign extension
    I32Extend8S,
    I32Extend16S,
    I64Extend8S,
    I64Extend16S,
    I64Extend32S,
    // saturating truncation (represented, but not executed)
    I32TruncSatF32S,
    I32TruncSatF32U,
    I32TruncSatF64S,
    I32TruncSatF64U,
    I64TruncSatF32S,
    I64TruncSatF32U,
    I64TruncSatF64S,
    I64TruncSatF64U,
}

/// An entry of the module's type table.
#[derive(Clone, Debug, PartialEq)]
pub enum TypeItem {
    FunctionType(FunctionType),
}

/// Size limits of a table or memory, in elements or pages.
#[derive(Clone, Copy, PartialEq, Eq, Structural, Debug)]
pub struct Limit {
    pub minimum: u32,
    pub maximum: Option<u32>,
}

/// A table definition: funcref elements within the given limits.
#[derive(Clone, Copy, PartialEq, Eq, Structural, Debug)]
pub struct TableType {
    pub limit: Limit,
}

/// A memory definition: page-sized byte buffer within the given limits.
#[derive(Clone, Copy, PartialEq, Eq, Structural, Debug)]
pub struct MemoryType {
    pub limit: Limit,
}

/// A global-variable type: value type and mutability.
#[derive(Clone, Copy, PartialEq, Eq, Structural, Debug)]
pub struct GlobalType {
    pub value_type: ValueType,
    pub mutable: bool,
}

/// What an import item brings in.
#[derive(Clone, Debug, PartialEq)]
pub enum ImportDescriptor {
    FunctionTypeIndex(u32),
    TableType(TableType),
    MemoryType(MemoryType),
    GlobalType(GlobalType),
}

/// One import: the exporting module's name, the item's name there, and what
/// kind of object is expected.
#[derive(Clone, Debug, PartialEq)]
pub struct ImportItem {
    pub module_name: String,
    pub item_name: String,
    pub import_descriptor: ImportDescriptor,
}

/// What an export item makes visible.
#[derive(Clone, Copy, PartialEq, Eq, Structural, Debug)]
pub enum ExportDescriptor {
    FunctionIndex(u32),
    TableIndex(u32),
    MemoryBlockIndex(u32),
    GlobalItemIndex(u32),
}

/// One export: a public name for a function, table, memory or global.
#[derive(Clone, Debug, PartialEq)]
pub struct ExportItem {
    pub name: String,
    pub export_descriptor: ExportDescriptor,
}

/// The body of one internal function: its extra local variables and its
/// instruction sequence (ending with the function's own `end` marker).
#[derive(Clone, Debug, PartialEq)]
pub struct CodeItem {
    pub local_variable_types: Vec<ValueType>,
    pub instruction_items: Vec<Instruction>,
}

/// A global-variable definition with its constant-expression initialiser.
#[derive(Clone, Debug, PartialEq)]
pub struct GlobalItem {
    pub global_type: GlobalType,
    pub initialize_instruction_items: Vec<Instruction>,
}

/// An element segment: function indices installed into the table at an
/// offset given by a constant expression.
#[derive(Clone, Debug, PartialEq)]
pub struct ElementItem {
    pub offset_instruction_items: Vec<Instruction>,
    pub function_indices: Vec<u32>,
}

/// A data segment: bytes copied into memory at an offset given by a
/// constant expression.
#[derive(Clone, Debug, PartialEq)]
pub struct DataItem {
    pub offset_instruction_items: Vec<Instruction>,
    pub data: Vec<u8>,
}

/// A decoded module. At most one table and one memory may be defined; the
/// linker rejects more.
#[derive(Clone, Debug, PartialEq)]
pub struct Module {
    pub type_items: Vec<TypeItem>,
    pub import_items: Vec<ImportItem>,
    pub export_items: Vec<ExportItem>,
    /// Type index of each internal function, in order. The function-index
    /// space puts imported functions first, then these.
    pub internal_function_to_type_index_list: Vec<u32>,
    pub code_items: Vec<CodeItem>,
    pub tables: Vec<TableType>,
    pub memory_blocks: Vec<MemoryType>,
    pub global_items: Vec<GlobalItem>,
    pub element_items: Vec<ElementItem>,
    pub data_items: Vec<DataItem>,
    pub start_function_index: Option<u32>,
}

/// A decoded module together with the name it is registered under.
#[derive(Clone, Debug, PartialEq)]
pub struct NamedAstModule {
    pub name: String,
    pub module: Module,
}

} // verus!

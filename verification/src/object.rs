//! Post-link runtime objects: resolved function items, block layout items,
//! and the pre-processed instruction stream the dispatcher runs on.
//!
//! Before execution the raw stream is rewritten into two variants:
//! `Sequence` for straight-line opcodes and `Control` for structured
//! control, whose targets carry pre-resolved absolute addresses so the hot
//! loop never searches for one.

use vstd::prelude::*;
use crate::ast;
use crate::ast::BlockType;

verus! {

/// Position information of one structured block inside a function, with
/// addresses relative to the function's first instruction.
#[derive(Clone, Copy, PartialEq, Eq, Debug)]
pub enum BlockItem {
    Block {
        block_type: BlockType,
        start_address: usize,
        end_address: usize,
    },
    Loop {
        block_type: BlockType,
        start_address: usize,
        end_address: usize,
    },
    If {
        block_type: BlockType,
        start_address: usize,
        end_address: usize,
        /// The address of the `else` marker, where the source had one.
        alternate_address: Option<usize>,
    },
}

impl BlockItem {
    /// The address of the first instruction of the block's span.
    pub open spec fn spec_start_address(self) -> usize {
        match self {
            BlockItem::Block { start_address, .. } => start_address,
            BlockItem::Loop { start_address, .. } => start_address,
            BlockItem::If { start_address, .. } => start_address,
        }
    }

    /// The address of the `end` marker of the block's span.
    pub open spec fn spec_end_address(self) -> usize {
        match self {
            BlockItem::Block { end_address, .. } => end_address,
            BlockItem::Loop { end_address, .. } => end_address,
            BlockItem::If { end_address, .. } => end_address,
        }
    }

    /// The declared block type.
    pub open spec fn spec_block_type(self) -> BlockType {
        match self {
            BlockItem::Block { block_type, .. } => block_type,
            BlockItem::Loop { block_type, .. } => block_type,
            BlockItem::If { block_type, .. } => block_type,
        }
    }
}

/// A function reference the dispatcher can use directly: either code of an
/// already-linked module, or a host function of a native module.
#[derive(Clone, Debug, PartialEq)]
pub enum FunctionItem {
    Normal {
        /// The module that owns the code, in the linker's module-index
        /// space restricted to decoded modules.
        vm_module_index: usize,
        type_index: usize,
        /// The function's index in the owning module's function-index
        /// space (imports first, then internals).
        function_index: usize,
        /// The function's index among the owning module's internal
        /// functions.
        internal_function_index: usize,
        /// First instruction, as an offset into the module's concatenated
        /// instruction stream.
        start_address: usize,
        /// The function's own trailing `end` instruction.
        end_address: usize,
        /// Pre-computed block layout of the function body.
        block_items: Vec<BlockItem>,
    },
    Native {
        native_module_index: usize,
        type_index: usize,
        function_index: usize,
    },
}

/// Field-for-field equality of two function items, with block layouts
/// compared by contents.
pub open spec fn function_item_same(a: FunctionItem, b: FunctionItem) -> bool {
    match (a, b) {
        (
            FunctionItem::Normal {
                vm_module_index: m1,
                type_index: t1,
                function_index: f1,
                internal_function_index: i1,
                start_address: s1,
                end_address: e1,
                block_items: b1,
            },
            FunctionItem::Normal {
                vm_module_index: m2,
                type_index: t2,
                function_index: f2,
                internal_function_index: i2,
                start_address: s2,
                end_address: e2,
                block_items: b2,
            },
        ) => m1 == m2 && t1 == t2 && f1 == f2 && i1 == i2 && s1 == s2 && e1 == e2 && b1@ == b2@,
        (
            FunctionItem::Native { native_module_index: n1, type_index: t1, function_index: f1 },
            FunctionItem::Native { native_module_index: n2, type_index: t2, function_index: f2 },
        ) => n1 == n2 && t1 == t2 && f1 == f2,
        _ => false,
    }
}

/// A field-for-field copy of a function item.
pub fn clone_function_item(item: &FunctionItem) -> (r: FunctionItem)
    ensures
        function_item_same(r, *item),
{
    match item {
        FunctionItem::Normal {
            vm_module_index,
            type_index,
            function_index,
            internal_function_index,
            start_address,
            end_address,
            block_items,
        } => {
            let mut copied_items: Vec<BlockItem> = Vec::new();
            let n = block_items.len();
            let mut i: usize = 0;
            while i < n
                invariant
                    0 <= i <= n,
                    n == block_items@.len(),
                    copied_items@ == block_items@.take(i as int),
                decreases n - i,
            {
                copied_items.push(block_items[i]);
                proof {
                    assert(copied_items@ =~= block_items@.take(i + 1 as int));
                }
                i += 1;
            }
            proof {
                assert(block_items@.take(n as int) =~= block_items@);
            }
            FunctionItem::Normal {
                vm_module_index: *vm_module_index,
                type_index: *type_index,
                function_index: *function_index,
                internal_function_index: *internal_function_index,
                start_address: *start_address,
                end_address: *end_address,
                block_items: copied_items,
            }
        },
        FunctionItem::Native { native_module_index, type_index, function_index } => {
            FunctionItem::Native {
                native_module_index: *native_module_index,
                type_index: *type_index,
                function_index: *function_index,
            }
        },
    }
}

/// One resolved target of a `br_table` label: a forward exit to a block's
/// `end`, or a backward re-entry at a loop's start. The fields are the
/// number of frames to pop before the jump, and the absolute jump target.
#[derive(Clone, Copy, PartialEq, Eq, Structural, Debug)]
pub enum BranchTarget {
    Break(usize, usize),
    Recur(usize, usize),
}

/// A structured-control opcode with pre-resolved targets.
#[derive(Clone, Debug, PartialEq)]
pub enum Control {
    Unreachable,
    Nop,
    /// `end` of a block (with its block index) or of a function body
    /// (`None`).
    End(Option<usize>),
    /// A direct call to code of a decoded module.
    Call {
        vm_module_index: usize,
        type_index: usize,
        function_index: usize,
        internal_function_index: usize,
        address: usize,
    },
    /// A direct call to a host function.
    CallNative {
        native_module_index: usize,
        type_index: usize,
        function_index: usize,
    },
    /// A call through the table; the element is fetched and checked at run
    /// time.
    CallIndirect {
        type_index: usize,
        table_index: usize,
    },
    /// Enter a `block` or `loop` frame.
    Block {
        block_type: BlockType,
        block_index: usize,
        end_address: usize,
    },
    /// Enter an `if` frame, or jump when the condition is zero: to the
    /// alternate address where the source had an `else`, else past the
    /// `end`.
    BlockAndJumpWhenEqZero {
        block_type: BlockType,
        block_index: usize,
        option_alternate_address: Option<usize>,
        end_address: usize,
    },
    /// An unconditional jump that stays inside the current frame.
    JumpWithinBlock(usize),
    /// Pop `relative_depth` frames, then jump to the target block's `end`
    /// (whose handler pops the final frame and checks the results).
    Break {
        option_block_index: Option<usize>,
        relative_depth: usize,
        address: usize,
    },
    BreakWhenNotEqZero {
        option_block_index: Option<usize>,
        relative_depth: usize,
        address: usize,
    },
    /// Pop `relative_depth + 1` frames carrying the loop's parameters,
    /// then jump to the `loop` instruction, which re-enters the frame.
    Recur {
        block_index: usize,
        relative_depth: usize,
        address: usize,
    },
    RecurWhenNotEqZero {
        block_index: usize,
        relative_depth: usize,
        address: usize,
    },
    /// `br_table`: the popped i32 picks a target, saturating to the
    /// default.
    Branch {
        option_block_index: Option<usize>,
        branch_targets: Vec<BranchTarget>,
        default_branch_target: BranchTarget,
    },
}

/// One slot of the pre-processed stream the interpreter executes.
#[derive(Clone, Debug, PartialEq)]
pub enum Instruction {
    /// A straight-line opcode; the program counter advances by one after
    /// it.
    Sequence(ast::Instruction),
    /// A structured-control opcode with resolved targets.
    Control(Control),
}

} // verus!

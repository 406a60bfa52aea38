//! The linker: block-layout analysis of function bodies, and resolution of
//! function, table, memory and global imports across modules, transitively
//! through re-exports, with type checking.

use vstd::prelude::*;
use crate::ast;
use crate::error::{EngineError, InvalidOperation, ObjectNotFound, TypeMismatch, Unsupported};
use crate::object::{BlockItem, FunctionItem};
use crate::values::{FunctionType, Value, ValueType, function_types_eq};

verus! {

/// A structured block's position information paired with the block index
/// the decoder assigned in depth-first pre-order.
#[derive(Clone, Copy, PartialEq, Eq, Debug)]
pub struct BlockLocation {
    pub block_index: usize,
    pub block_item: BlockItem,
}

impl BlockLocation {
    pub fn new(block_index: usize, block_item: BlockItem) -> (r: BlockLocation)
        ensures
            r.block_index == block_index,
            r.block_item == block_item,
    {
        BlockLocation { block_index, block_item }
    }
}

/// Two spans are strictly laminar: disjoint, or one strictly inside the
/// other.
pub open spec fn spans_laminar(a: BlockItem, b: BlockItem) -> bool {
    ||| a.spec_end_address() < b.spec_start_address()
    ||| b.spec_end_address() < a.spec_start_address()
    ||| (a.spec_start_address() < b.spec_start_address() && b.spec_end_address()
        < a.spec_end_address())
    ||| (b.spec_start_address() < a.spec_start_address() && a.spec_end_address()
        < b.spec_end_address())
}

/// The location's start address holds the opening instruction of the
/// recorded kind, block type and block index.
pub open spec fn opener_matches(ins: Seq<ast::Instruction>, loc: BlockLocation) -> bool {
    let s = loc.block_item.spec_start_address();
    &&& 0 <= s < ins.len()
    &&& loc.block_index <= u32::MAX
    &&& match loc.block_item {
        BlockItem::Block { block_type, .. } => ins[s as int] == ast::Instruction::Block(
            block_type,
            loc.block_index as u32,
        ),
        BlockItem::Loop { block_type, .. } => ins[s as int] == ast::Instruction::Loop(
            block_type,
            loc.block_index as u32,
        ),
        BlockItem::If { block_type, .. } => ins[s as int] == ast::Instruction::If(
            block_type,
            loc.block_index as u32,
        ),
    }
}

/// A completed layout entry: its span starts at its opening instruction,
/// ends at an `end` marker after it, and an `if` with an alternate address
/// points it at an `else` marker strictly inside the span.
pub open spec fn closed_item_ok(ins: Seq<ast::Instruction>, loc: BlockLocation) -> bool {
    let s = loc.block_item.spec_start_address();
    let e = loc.block_item.spec_end_address();
    &&& opener_matches(ins, loc)
    &&& s < e < ins.len()
    &&& ins[e as int] == ast::Instruction::End
    &&& match loc.block_item {
        BlockItem::If { alternate_address: Some(a), .. } => s < a < e && ins[a as int]
            == ast::Instruction::Else,
        _ => true,
    }
}

/// A still-open layout entry after scanning the first `i` instructions.
pub open spec fn open_item_ok(ins: Seq<ast::Instruction>, loc: BlockLocation, i: int) -> bool {
    let s = loc.block_item.spec_start_address();
    &&& opener_matches(ins, loc)
    &&& s < i
    &&& match loc.block_item {
        BlockItem::If { alternate_address: Some(a), .. } => s < a < i && ins[a as int]
            == ast::Instruction::Else,
        _ => true,
    }
}

pub open spec fn sorted_by_block_index(s: Seq<BlockLocation>) -> bool {
    forall|p: int, q: int|
        0 <= p < q < s.len() ==> #[trigger] s[p].block_index <= #[trigger] s[q].block_index
}

pub open spec fn pairwise_laminar(s: Seq<BlockLocation>) -> bool {
    forall|p: int, q: int|
        0 <= p < s.len() && 0 <= q < s.len() && p != q ==> spans_laminar(
            #[trigger] s[p].block_item,
            #[trigger] s[q].block_item,
        )
}

/// The position at which a new entry with the given block index enters a
/// list kept sorted by block index: after every entry whose index is not
/// larger, so that entries with equal indices keep their order of arrival.
pub open spec fn sorted_insert_pos(s: Seq<BlockLocation>, key: usize) -> int
    decreases s.len(),
{
    if s.len() == 0 {
        0
    } else if s.last().block_index <= key {
        s.len() as int
    } else {
        sorted_insert_pos(s.drop_last(), key)
    }
}

proof fn lemma_sorted_insert_pos_bounds(s: Seq<BlockLocation>, key: usize)
    ensures
        0 <= sorted_insert_pos(s, key) <= s.len(),
    decreases s.len(),
{
    if s.len() > 0 && !(s.last().block_index <= key) {
        lemma_sorted_insert_pos_bounds(s.drop_last(), key);
    }
}

/// The open-block record that a `block`/`loop`/`if` instruction at address
/// `a` pushes, or `None` for any other instruction.
pub open spec fn layout_opened(ins: ast::Instruction, a: usize) -> Option<BlockLocation> {
    match ins {
        ast::Instruction::Block(block_type, block_index) => Some(
            BlockLocation {
                block_index: block_index as usize,
                block_item: BlockItem::Block { block_type, start_address: a, end_address: 0 },
            },
        ),
        ast::Instruction::Loop(block_type, block_index) => Some(
            BlockLocation {
                block_index: block_index as usize,
                block_item: BlockItem::Loop { block_type, start_address: a, end_address: 0 },
            },
        ),
        ast::Instruction::If(block_type, block_index) => Some(
            BlockLocation {
                block_index: block_index as usize,
                block_item: BlockItem::If {
                    block_type,
                    start_address: a,
                    end_address: 0,
                    alternate_address: None,
                },
            },
        ),
        _ => None,
    }
}

/// The layout scan after the first `n` instructions: the stack of open
/// block records (innermost last) and the list of completed entries, kept
/// sorted by block index. `None` means the stream is not well structured:
/// an `else` appeared with no open block, or one whose innermost open block
/// is not an `if`.
///
/// On `end` with an empty stack nothing happens: the function body's own
/// trailing `end` belongs to no block. Blocks still open when the scan
/// stops are discarded.
pub open spec fn layout_scan(ins: Seq<ast::Instruction>, n: int) -> Option<
    (Seq<BlockLocation>, Seq<BlockLocation>),
>
    decreases n,
{
    if n <= 0 {
        Some((Seq::empty(), Seq::empty()))
    } else {
        match layout_scan(ins, n - 1) {
            Option::None => Option::None,
            Some((stack, out)) => {
                let a = (n - 1) as usize;
                match layout_opened(ins[n - 1], a) {
                    Some(opened) => Some((stack.push(opened), out)),
                    Option::None => {
                        if ins[n - 1] == ast::Instruction::Else {
                            if stack.len() == 0 {
                                Option::None
                            } else {
                                match stack.last().block_item {
                                    BlockItem::If {
                                        block_type,
                                        start_address,
                                        end_address,
                                        alternate_address: _,
                                    } => Some(
                                        (
                                            stack.update(
                                                stack.len() - 1,
                                                BlockLocation {
                                                    block_index: stack.last().block_index,
                                                    block_item: BlockItem::If {
                                                        block_type,
                                                        start_address,
                                                        end_address,
                                                        alternate_address: Some(a),
                                                    },
                                                },
                                            ),
                                            out,
                                        ),
                                    ),
                                    _ => Option::None,
                                }
                            }
                        } else if ins[n - 1] == ast::Instruction::End {
                            if stack.len() == 0 {
                                Some((stack, out))
                            } else {
                                let top = stack.last();
                                let closed = BlockLocation {
                                    block_index: top.block_index,
                                    block_item: match top.block_item {
                                        BlockItem::Block { block_type, start_address, .. } => {
                                            BlockItem::Block {
                                                block_type,
                                                start_address,
                                                end_address: a,
                                            }
                                        },
                                        BlockItem::Loop { block_type, start_address, .. } => {
                                            BlockItem::Loop {
                                                block_type,
                                                start_address,
                                                end_address: a,
                                            }
                                        },
                                        BlockItem::If {
                                            block_type,
                                            start_address,
                                            alternate_address,
                                            ..
                                        } => BlockItem::If {
                                            block_type,
                                            start_address,
                                            end_address: a,
                                            alternate_address,
                                        },
                                    },
                                };
                                Some(
                                    (
                                        stack.drop_last(),
                                        out.insert(sorted_insert_pos(out, closed.block_index), closed),
                                    ),
                                )
                            }
                        } else {
                            Some((stack, out))
                        }
                    },
                }
            },
        }
    }
}

proof fn lemma_layout_scan_none_persists(ins: Seq<ast::Instruction>, m: int, n: int)
    requires
        0 <= m <= n,
        layout_scan(ins, m) is None,
    ensures
        layout_scan(ins, n) is None,
    decreases n - m,
{
    if n > m {
        lemma_layout_scan_none_persists(ins, m, n - 1);
    }
}

/// Scans a function body and produces its completed block entries, sorted
/// by block index, each paired with that index.
///
/// The list is strictly laminar: any two recorded spans are disjoint or one
/// lies strictly inside the other. Every entry's span runs from its opening
/// instruction to its `end` marker, and an `if` entry's alternate address,
/// where present, names the `else` marker strictly inside the span.
#[verifier::rlimit(100)]
pub fn get_function_block_locations(instruction_items: &Vec<ast::Instruction>) -> (r: Result<
    Vec<BlockLocation>,
    EngineError,
>)
    ensures
        r is Ok <==> layout_scan(instruction_items@, instruction_items@.len() as int) is Some,
        r is Err ==> r == Err::<Vec<BlockLocation>, EngineError>(
            EngineError::InvalidOperation(InvalidOperation::InvalidInstructionStream),
        ),
        r matches Ok(out) ==> {
            &&& Some(out@) == match layout_scan(
                instruction_items@,
                instruction_items@.len() as int,
            ) {
                Some((_, o)) => Some(o),
                Option::None => Option::None::<Seq<BlockLocation>>,
            }
            &&& sorted_by_block_index(out@)
            &&& pairwise_laminar(out@)
            &&& forall|p: int|
                0 <= p < out@.len() ==> closed_item_ok(instruction_items@, #[trigger] out@[p])
        },
{
    let ghost ins = instruction_items@;
    let n = instruction_items.len();
    let mut stack: Vec<BlockLocation> = Vec::new();
    let mut out: Vec<BlockLocation> = Vec::new();
    let mut i: usize = 0;

    while i < n
        invariant
            0 <= i <= n,
            n == ins.len(),
            instruction_items@ == ins,
            layout_scan(ins, i as int) == Some((stack@, out@)),
            sorted_by_block_index(out@),
            pairwise_laminar(out@),
            forall|p: int| 0 <= p < out@.len() ==> closed_item_ok(ins, #[trigger] out@[p]),
            forall|p: int|
                0 <= p < out@.len() ==> #[trigger] out@[p].block_item.spec_end_address() < i,
            forall|p: int| 0 <= p < stack@.len() ==> open_item_ok(ins, #[trigger] stack@[p], i as int),
            forall|p: int, q: int|
                0 <= p < q < stack@.len() ==> #[trigger] stack@[p].block_item.spec_start_address()
                    < #[trigger] stack@[q].block_item.spec_start_address(),
            forall|p: int, q: int|
                0 <= p < out@.len() && 0 <= q < stack@.len() ==> (
                #[trigger] out@[p].block_item.spec_end_address()
                    < #[trigger] stack@[q].block_item.spec_start_address()
                    || out@[p].block_item.spec_start_address()
                    > stack@[q].block_item.spec_start_address()),
        decreases n - i,
    {
        let instruction = &instruction_items[i];
        match instruction {
            ast::Instruction::Block(block_type, block_index) => {
                stack.push(
                    BlockLocation::new(
                        *block_index as usize,
                        BlockItem::Block {
                            block_type: *block_type,
                            start_address: i,
                            end_address: 0,
                        },
                    ),
                );
            },
            ast::Instruction::Loop(block_type, block_index) => {
                stack.push(
                    BlockLocation::new(
                        *block_index as usize,
                        BlockItem::Loop {
                            block_type: *block_type,
                            start_address: i,
                            end_address: 0,
                        },
                    ),
                );
            },
            ast::Instruction::If(block_type, block_index) => {
                stack.push(
                    BlockLocation::new(
                        *block_index as usize,
                        BlockItem::If {
                            block_type: *block_type,
                            start_address: i,
                            end_address: 0,
                            alternate_address: None,
                        },
                    ),
                );
            },
            ast::Instruction::Else => {
                let ghost old_stack = stack@;
                match stack.pop() {
                    Some(top) => {
                        match top.block_item {
                            BlockItem::If {
                                block_type,
                                start_address,
                                end_address,
                                alternate_address: _,
                            } => {
                                stack.push(
                                    BlockLocation::new(
                                        top.block_index,
                                        BlockItem::If {
                                            block_type,
                                            start_address,
                                            end_address,
                                            alternate_address: Some(i),
                                        },
                                    ),
                                );
                                proof {
                                    assert(stack@ =~= old_stack.update(
                                        old_stack.len() - 1,
                                        stack@.last(),
                                    ));
                                }
                            },
                            _ => {
                                proof {
                                    assert(layout_scan(ins, i + 1) is None);
                                    lemma_layout_scan_none_persists(ins, i + 1, n as int);
                                }
                                return Err(
                                    EngineError::InvalidOperation(
                                        InvalidOperation::InvalidInstructionStream,
                                    ),
                                );
                            },
                        }
                    },
                    None => {
                        proof {
                            assert(layout_scan(ins, i + 1) is None);
                            lemma_layout_scan_none_persists(ins, i + 1, n as int);
                        }
                        return Err(
                            EngineError::InvalidOperation(
                                InvalidOperation::InvalidInstructionStream,
                            ),
                        );
                    },
                }
            },
            ast::Instruction::End => {
                let ghost old_stack = stack@;
                let ghost old_out = out@;
                match stack.pop() {
                    Some(top) => {
                        let closed_item = match top.block_item {
                            BlockItem::Block { block_type, start_address, end_address: _ } => {
                                BlockItem::Block { block_type, start_address, end_address: i }
                            },
                            BlockItem::Loop { block_type, start_address, end_address: _ } => {
                                BlockItem::Loop { block_type, start_address, end_address: i }
                            },
                            BlockItem::If {
                                block_type,
                                start_address,
                                end_address: _,
                                alternate_address,
                            } => {
                                BlockItem::If {
                                    block_type,
                                    start_address,
                                    end_address: i,
                                    alternate_address,
                                }
                            },
                        };
                        let closed = BlockLocation::new(top.block_index, closed_item);

                        // find the sorted insertion position from the right
                        let mut pos: usize = out.len();
                        proof {
                            assert(out@.take(pos as int) =~= out@);
                        }
                        while pos > 0 && out[pos - 1].block_index > closed.block_index
                            invariant
                                0 <= pos <= out@.len(),
                                sorted_by_block_index(out@),
                                closed.block_index == top.block_index,
                                forall|j: int|
                                    pos <= j < out@.len() ==> #[trigger] out@[j].block_index
                                        > closed.block_index,
                                sorted_insert_pos(out@, closed.block_index) == sorted_insert_pos(
                                    out@.take(pos as int),
                                    closed.block_index,
                                ),
                            decreases pos,
                        {
                            proof {
                                assert(out@.take(pos as int).last() == out@[pos - 1]);
                                assert(out@.take(pos as int).drop_last() =~= out@.take(
                                    pos as int - 1,
                                ));
                            }
                            pos -= 1;
                        }
                        proof {
                            if pos > 0 {
                                assert(out@.take(pos as int).last() == out@[pos as int - 1]);
                                assert(sorted_insert_pos(out@, closed.block_index) == pos as int);
                            } else {
                                assert(out@.take(0).len() == 0);
                                assert(sorted_insert_pos(out@, closed.block_index) == 0);
                            }
                            // entries before the position have index <= key
                            assert forall|j: int| 0 <= j < pos implies #[trigger] out@[j].block_index
                                <= closed.block_index by {
                                assert(out@[pos as int - 1].block_index <= closed.block_index);
                            }
                        }
                        out.insert(pos, closed);
                        proof {
                            let new_out = old_out.insert(pos as int, closed);
                            assert(out@ == new_out);
                            assert forall|p: int, q: int|
                                0 <= p < new_out.len() && 0 <= q < new_out.len() && p != q implies
                                spans_laminar(
                                    #[trigger] new_out[p].block_item,
                                    #[trigger] new_out[q].block_item,
                                ) by {
                                let top_loc = old_stack.last();
                                assert(closed.block_item.spec_start_address()
                                    == top_loc.block_item.spec_start_address());
                                if p != pos as int && q != pos as int {
                                    let p0 = if p < pos as int {
                                        p
                                    } else {
                                        p - 1
                                    };
                                    let q0 = if q < pos as int {
                                        q
                                    } else {
                                        q - 1
                                    };
                                    assert(new_out[p] == old_out[p0]);
                                    assert(new_out[q] == old_out[q0]);
                                } else {
                                    let q0 = if p == pos as int {
                                        if q < pos as int {
                                            q
                                        } else {
                                            q - 1
                                        }
                                    } else {
                                        if p < pos as int {
                                            p
                                        } else {
                                            p - 1
                                        }
                                    };
                                    let x = old_out[q0].block_item;
                                    let t = top_loc.block_item;
                                    // the out-versus-open-blocks invariant, for the
                                    // popped innermost block
                                    assert(x.spec_end_address() < t.spec_start_address()
                                        || x.spec_start_address() > t.spec_start_address());
                                    assert(x.spec_end_address() < i);
                                    assert(closed.block_item.spec_end_address() == i);
                                    assert(spans_laminar(closed.block_item, x));
                                    assert(spans_laminar(x, closed.block_item));
                                }
                            }
                        }
                    },
                    None => {
                        // the function body's own trailing `end`
                    },
                }
            },
            _ => {},
        }
        i += 1;
        proof {
            assert(layout_scan(ins, i as int) == Some((stack@, out@)));
        }
    }
    Ok(out)
}

/// Scans a function body and produces the ordered block-item list the
/// dispatcher uses, indexed by the module's depth-first block numbering.
pub fn get_function_block_items(instruction_items: &Vec<ast::Instruction>) -> (r: Result<
    Vec<BlockItem>,
    EngineError,
>)
    ensures
        r is Ok <==> layout_scan(instruction_items@, instruction_items@.len() as int) is Some,
        r is Err ==> r == Err::<Vec<BlockItem>, EngineError>(
            EngineError::InvalidOperation(InvalidOperation::InvalidInstructionStream),
        ),
        r matches Ok(out) ==> {
            &&& Some(out@) == match layout_scan(
                instruction_items@,
                instruction_items@.len() as int,
            ) {
                Some((_, o)) => Some(o.map_values(|l: BlockLocation| l.block_item)),
                Option::None => Option::None::<Seq<BlockItem>>,
            }
            &&& forall|p: int, q: int|
                0 <= p < out@.len() && 0 <= q < out@.len() && p != q ==> spans_laminar(
                    #[trigger] out@[p],
                    #[trigger] out@[q],
                )
            &&& forall|p: int|
                0 <= p < out@.len() ==> #[trigger] out@[p].spec_start_address()
                    < out@[p].spec_end_address() < instruction_items@.len()
        },
{
    let locations = get_function_block_locations(instruction_items)?;
    let mut items: Vec<BlockItem> = Vec::new();
    let count = locations.len();
    let mut i: usize = 0;
    while i < count
        invariant
            0 <= i <= count,
            count == locations@.len(),
            items@ == locations@.take(i as int).map_values(|l: BlockLocation| l.block_item),
        decreases count - i,
    {
        items.push(locations[i].block_item);
        proof {
            assert(locations@.take(i + 1 as int).drop_last() =~= locations@.take(i as int));
            assert(items@ =~= locations@.take(i + 1 as int).map_values(
                |l: BlockLocation| l.block_item,
            ));
        }
        i += 1;
    }
    proof {
        assert(locations@.take(count as int) =~= locations@);
        let mapped = locations@.map_values(|l: BlockLocation| l.block_item);
        assert forall|p: int| 0 <= p < mapped.len() implies #[trigger] mapped[p]
            == locations@[p].block_item by {}
    }
    Ok(items)
}

/// Where a decoded module's function lives: an import to be resolved, or an
/// internal function's place in the module's concatenated instruction
/// stream.
#[derive(Clone, Debug, PartialEq)]
pub enum FunctionLocation {
    Import {
        /// The function type the import declares, as an index into the
        /// importing module's type table.
        type_index: usize,
        module_name: String,
        function_name: String,
    },
    Internal {
        internal_function_index: usize,
        type_index: usize,
        start_address: usize,
        /// The address of the function's own trailing `end` instruction.
        end_address: usize,
        block_items: Vec<BlockItem>,
    },
}

/// The function locations that a module's imports contribute, in import
/// order: one `Import` entry per function import.
pub open spec fn spec_import_function_locations(items: Seq<ast::ImportItem>) -> Seq<
    FunctionLocation,
>
    decreases items.len(),
{
    if items.len() == 0 {
        Seq::empty()
    } else {
        let rest = spec_import_function_locations(items.drop_last());
        match items.last().import_descriptor {
            ast::ImportDescriptor::FunctionTypeIndex(type_index) => rest.push(
                FunctionLocation::Import {
                    type_index: type_index as usize,
                    module_name: items.last().module_name,
                    function_name: items.last().item_name,
                },
            ),
            _ => rest,
        }
    }
}

/// Enumerates the module's function imports, which occupy the low function
/// indices, in declaration order.
pub fn get_ast_module_import_function_locations(ast_module: &ast::Module) -> (r: Vec<
    FunctionLocation,
>)
    ensures
        r@ == spec_import_function_locations(ast_module.import_items@),
{
    let items = &ast_module.import_items;
    let n = items.len();
    let mut r: Vec<FunctionLocation> = Vec::new();
    let mut i: usize = 0;
    while i < n
        invariant
            0 <= i <= n,
            n == items@.len(),
            r@ == spec_import_function_locations(items@.take(i as int)),
        decreases n - i,
    {
        let item = &items[i];
        match &item.import_descriptor {
            ast::ImportDescriptor::FunctionTypeIndex(type_index) => {
                r.push(
                    FunctionLocation::Import {
                        type_index: *type_index as usize,
                        module_name: item.module_name.clone(),
                        function_name: item.item_name.clone(),
                    },
                );
            },
            _ => {},
        }
        proof {
            assert(items@.take(i + 1 as int).drop_last() =~= items@.take(i as int));
            assert(items@.take(i + 1 as int).last() == items@[i as int]);
        }
        i += 1;
    }
    proof {
        assert(items@.take(n as int) =~= items@);
    }
    r
}

/// The offset of internal function `k`'s first instruction in the module's
/// concatenated instruction stream: the total length of the bodies before
/// it.
pub open spec fn spec_code_offset(code_items: Seq<ast::CodeItem>, k: int) -> int
    decreases k,
{
    if k <= 0 {
        0
    } else {
        spec_code_offset(code_items, k - 1) + code_items[k - 1].instruction_items.len()
    }
}

/// What the internal-function location of internal function `k` must hold.
pub open spec fn spec_internal_location_ok(module: ast::Module, k: int, loc: FunctionLocation) -> bool {
    let code = module.code_items@;
    let body = code[k].instruction_items@;
    &&& loc matches FunctionLocation::Internal {
        internal_function_index,
        type_index,
        start_address,
        end_address,
        block_items,
    }
    &&& loc matches FunctionLocation::Internal {
        internal_function_index,
        type_index,
        start_address,
        end_address,
        block_items,
    } ==> {
        &&& internal_function_index == k
        &&& type_index == module.internal_function_to_type_index_list@[k] as usize
        &&& start_address == spec_code_offset(code, k)
        &&& end_address == spec_code_offset(code, k) + body.len() - 1
        &&& layout_scan(body, body.len() as int) matches Some((_, locs)) && block_items@
            == locs.map_values(|l: BlockLocation| l.block_item)
    }
}

/// Whether every internal function of the module has a body with a
/// well-structured block layout and an addressable span in the
/// concatenated stream.
pub open spec fn spec_internal_locations_ok(module: ast::Module) -> bool {
    let list = module.internal_function_to_type_index_list@;
    let code = module.code_items@;
    &&& code.len() >= list.len()
    &&& forall|k: int|
        0 <= k < list.len() ==> {
            let body = (#[trigger] code[k]).instruction_items@;
            &&& body.len() >= 1
            &&& layout_scan(body, body.len() as int) is Some
            &&& spec_code_offset(code, k) + body.len() - 1 <= usize::MAX
        }
}

/// Enumerates the module's internal functions: for each, its span in the
/// concatenated instruction stream and its pre-computed block layout.
///
/// Fails when the module declares more internal functions than it has code
/// items, when a body is empty or too large to address, or when a body's
/// block structure is malformed.
pub fn get_ast_module_internal_function_locations(ast_module: &ast::Module) -> (r: Result<
    Vec<FunctionLocation>,
    EngineError,
>)
    ensures
        r is Ok <==> spec_internal_locations_ok(*ast_module),
        r matches Ok(locs) ==> {
            &&& locs@.len() == ast_module.internal_function_to_type_index_list@.len()
            &&& forall|k: int|
                0 <= k < locs@.len() ==> spec_internal_location_ok(
                    *ast_module,
                    k,
                    #[trigger] locs@[k],
                )
        },
{
    let count = ast_module.internal_function_to_type_index_list.len();
    if ast_module.code_items.len() < count {
        return Err(EngineError::InvalidOperation(InvalidOperation::InvalidFunctionIndex));
    }
    let mut r: Vec<FunctionLocation> = Vec::new();
    let mut offset: usize = 0;
    let mut k: usize = 0;
    while k < count
        invariant
            0 <= k <= count,
            count == ast_module.internal_function_to_type_index_list@.len(),
            ast_module.code_items@.len() >= count,
            k < count ==> offset == spec_code_offset(ast_module.code_items@, k as int),
            r@.len() == k,
            forall|j: int|
                0 <= j < k ==> spec_internal_location_ok(*ast_module, j, #[trigger] r@[j]),
            forall|j: int|
                0 <= j < k ==> {
                    let body = (#[trigger] ast_module.code_items@[j]).instruction_items@;
                    &&& body.len() >= 1
                    &&& layout_scan(body, body.len() as int) is Some
                    &&& spec_code_offset(ast_module.code_items@, j) + body.len() - 1 <= usize::MAX
                },
        decreases count - k,
    {
        let code_item = &ast_module.code_items[k];
        let instruction_count = code_item.instruction_items.len();
        if instruction_count == 0 {
            return Err(EngineError::InvalidOperation(InvalidOperation::InvalidInstructionStream));
        }
        let block_items = match get_function_block_items(&code_item.instruction_items) {
            Ok(items) => items,
            Err(e) => {
                return Err(e);
            },
        };
        let end_address = match offset.checked_add(instruction_count - 1) {
            Some(e) => e,
            None => {
                return Err(
                    EngineError::InvalidOperation(InvalidOperation::InvalidProgramCounter),
                );
            },
        };
        r.push(
            FunctionLocation::Internal {
                internal_function_index: k,
                type_index: ast_module.internal_function_to_type_index_list[k] as usize,
                start_address: offset,
                end_address,
                block_items,
            },
        );
        if k + 1 < count {
            offset = match end_address.checked_add(1) {
                Some(o) => o,
                None => {
                    // the next function would start past the addressable
                    // range, so its own span cannot fit either
                    proof {
                        let code = ast_module.code_items@;
                        let nb = code[k + 1].instruction_items@;
                        assert(spec_code_offset(code, k + 1 as int) == offset
                            + instruction_count);
                        assert(nb.len() >= 1 ==> spec_code_offset(code, k + 1 as int) + nb.len()
                            - 1 > usize::MAX);
                    }
                    return Err(
                        EngineError::InvalidOperation(InvalidOperation::InvalidProgramCounter),
                    );
                },
            };
        }
        k += 1;
    }
    Ok(r)
}

/// All module names, native modules first, then decoded modules: the
/// module-index space of the linker.
pub fn get_module_names(
    native_modules: &Vec<crate::native_module::NativeModule>,
    named_ast_modules: &Vec<ast::NamedAstModule>,
) -> (r: Vec<String>)
    ensures
        r@.len() == native_modules@.len() + named_ast_modules@.len(),
        forall|i: int|
            0 <= i < native_modules@.len() ==> #[trigger] r@[i] == native_modules@[i].name,
        forall|j: int|
            0 <= j < named_ast_modules@.len() ==> #[trigger] r@[native_modules@.len() + j]
                == named_ast_modules@[j].name,
{
    let mut r: Vec<String> = Vec::new();
    let n = native_modules.len();
    let mut i: usize = 0;
    while i < n
        invariant
            0 <= i <= n,
            n == native_modules@.len(),
            r@.len() == i,
            forall|p: int| 0 <= p < i ==> #[trigger] r@[p] == native_modules@[p].name,
        decreases n - i,
    {
        r.push(native_modules[i].name.clone());
        i += 1;
    }
    let m = named_ast_modules.len();
    let mut j: usize = 0;
    while j < m
        invariant
            0 <= j <= m,
            m == named_ast_modules@.len(),
            n == native_modules@.len(),
            r@.len() == n + j,
            forall|p: int| 0 <= p < n ==> #[trigger] r@[p] == native_modules@[p].name,
            forall|p: int| 0 <= p < j ==> #[trigger] r@[n + p] == named_ast_modules@[p].name,
        decreases m - j,
    {
        r.push(named_ast_modules[j].name.clone());
        j += 1;
    }
    r
}

/// The first index at or after `i` whose name reads the same as `name`.
pub open spec fn spec_find_name_from(names: Seq<String>, name: Seq<char>, i: int) -> Option<int>
    decreases names.len() - i,
{
    if i < 0 || i >= names.len() {
        Option::None
    } else if names[i]@ == name {
        Some(i)
    } else {
        spec_find_name_from(names, name, i + 1)
    }
}

/// The index of the first module of the given name, in the combined
/// module-index space.
pub fn get_module_index_by_name(module_names: &Vec<String>, name: &String) -> (r: Option<usize>)
    ensures
        match r {
            Some(i) => spec_find_name_from(module_names@, name@, 0) == Some(i as int),
            None => spec_find_name_from(module_names@, name@, 0) is None,
        },
{
    let n = module_names.len();
    let mut i: usize = 0;
    while i < n
        invariant
            0 <= i <= n,
            n == module_names@.len(),
            spec_find_name_from(module_names@, name@, 0) == spec_find_name_from(
                module_names@,
                name@,
                i as int,
            ),
        decreases n - i,
    {
        if module_names[i] == *name {
            return Some(i);
        }
        i += 1;
    }
    None
}

/// The first position at or after `i` of a native-module function item of
/// the given name.
pub open spec fn spec_find_native_function_from(
    items: Seq<crate::native_module::NativeFunctionItem>,
    name: Seq<char>,
    i: int,
) -> Option<int>
    decreases items.len() - i,
{
    if i < 0 || i >= items.len() {
        Option::None
    } else if items[i].name@ == name {
        Some(i)
    } else {
        spec_find_native_function_from(items, name, i + 1)
    }
}

proof fn lemma_find_native_function_skip(
    items: Seq<crate::native_module::NativeFunctionItem>,
    name: Seq<char>,
    i: int,
)
    requires
        0 <= i <= items.len(),
        forall|k: int| 0 <= k < i ==> #[trigger] items[k].name@ != name,
    ensures
        spec_find_native_function_from(items, name, 0) == spec_find_native_function_from(
            items,
            name,
            i,
        ),
    decreases i,
{
    if i > 0 {
        lemma_find_native_function_skip(items, name, i - 1);
    }
}

/// Looks a host function up by its export name.
pub fn get_native_module_function_index_by_export_name(
    native_module: &crate::native_module::NativeModule,
    name: &String,
) -> (r: Option<usize>)
    ensures
        match r {
            Some(i) => spec_find_native_function_from(native_module.function_items@, name@, 0)
                == Some(i as int),
            None => spec_find_native_function_from(
                native_module.function_items@,
                name@,
                0,
            ) is None,
        },
{
    let r = native_module.find_function_index_by_name(name);
    proof {
        let items = native_module.function_items@;
        match r {
            Some(i) => {
                lemma_find_native_function_skip(items, name@, i as int);
            },
            None => {
                lemma_find_native_function_skip(items, name@, items.len() as int);
            },
        }
    }
    r
}

/// The function index that the first export item of the given name with a
/// function descriptor names, looking at or after position `i`.
pub open spec fn spec_find_function_export_from(
    items: Seq<ast::ExportItem>,
    name: Seq<char>,
    i: int,
) -> Option<u32>
    decreases items.len() - i,
{
    if i < 0 || i >= items.len() {
        Option::None
    } else if items[i].name@ == name && items[i].export_descriptor matches
        ast::ExportDescriptor::FunctionIndex(_) {
        match items[i].export_descriptor {
            ast::ExportDescriptor::FunctionIndex(function_index) => Some(function_index),
            _ => Option::None,
        }
    } else {
        spec_find_function_export_from(items, name, i + 1)
    }
}

/// A resolved function item at the specification level, with the block
/// layout as a sequence.
pub enum FunctionItemModel {
    Normal {
        vm_module_index: int,
        type_index: int,
        function_index: int,
        internal_function_index: int,
        start_address: int,
        end_address: int,
        block_items: Seq<BlockItem>,
    },
    Native { native_module_index: int, type_index: int, function_index: int },
}

/// The executable function item agrees with the model field by field.
pub open spec fn function_item_models(item: FunctionItem, model: FunctionItemModel) -> bool {
    match item {
        FunctionItem::Normal {
            vm_module_index,
            type_index,
            function_index,
            internal_function_index,
            start_address,
            end_address,
            block_items,
        } => model == (FunctionItemModel::Normal {
            vm_module_index: vm_module_index as int,
            type_index: type_index as int,
            function_index: function_index as int,
            internal_function_index: internal_function_index as int,
            start_address: start_address as int,
            end_address: end_address as int,
            block_items: block_items@,
        }),
        FunctionItem::Native { native_module_index, type_index, function_index } => model == (
        FunctionItemModel::Native {
            native_module_index: native_module_index as int,
            type_index: type_index as int,
            function_index: function_index as int,
        }),
    }
}

/// The module names of the combined module-index space: native modules
/// first, then decoded modules.
pub open spec fn spec_module_names(
    native: Seq<crate::native_module::NativeModule>,
    asts: Seq<ast::NamedAstModule>,
) -> Seq<String> {
    Seq::new(
        native.len() + asts.len(),
        |i: int|
            if i < native.len() {
                native[i].name
            } else {
                asts[i - native.len()].name
            },
    )
}

/// The size of a module's function-index space: its function imports
/// followed by its internal functions.
pub open spec fn spec_function_count(module: ast::Module) -> int {
    spec_import_function_locations(module.import_items@).len()
        + module.internal_function_to_type_index_list@.len() as int
}

/// The function type a type-table entry declares.
pub open spec fn spec_type_item_function_type(item: ast::TypeItem) -> FunctionType {
    match item {
        ast::TypeItem::FunctionType(function_type) => function_type,
    }
}

pub open spec fn import_loc_type_index(loc: FunctionLocation) -> int {
    match loc {
        FunctionLocation::Import { type_index, .. } => type_index as int,
        _ => 0,
    }
}

pub open spec fn import_loc_module_name(loc: FunctionLocation) -> String {
    match loc {
        FunctionLocation::Import { module_name, .. } => module_name,
        _ => arbitrary(),
    }
}

pub open spec fn import_loc_function_name(loc: FunctionLocation) -> String {
    match loc {
        FunctionLocation::Import { function_name, .. } => function_name,
        _ => arbitrary(),
    }
}

/// The model of internal function `f` (in the function-index space) of
/// decoded module `ai`.
pub open spec fn spec_internal_model(ai: int, module: ast::Module, f: int) -> FunctionItemModel {
    let ic = spec_import_function_locations(module.import_items@).len() as int;
    let k = f - ic;
    let body = module.code_items@[k].instruction_items@;
    FunctionItemModel::Normal {
        vm_module_index: ai,
        type_index: module.internal_function_to_type_index_list@[k] as int,
        function_index: f,
        internal_function_index: k,
        start_address: spec_code_offset(module.code_items@, k),
        end_address: spec_code_offset(module.code_items@, k) + body.len() - 1,
        block_items: layout_scan(body, body.len() as int).unwrap().1.map_values(
            |l: BlockLocation| l.block_item,
        ),
    }
}

/// Chain-following resolution of one function import, against the
/// importer's expected function type.
///
/// Starting from the named module and export: a native target binds to a
/// `Native` item after a type check; a decoded target's export is looked
/// up, and if it is itself an import the chain continues with the new
/// names, while an internal function binds to a `Normal` item after a type
/// check. The chain is bounded by `fuel`; when it runs out the function
/// counts as not found.
pub open spec fn spec_resolve_import(
    native: Seq<crate::native_module::NativeModule>,
    asts: Seq<ast::NamedAstModule>,
    expected: FunctionType,
    module_name: String,
    function_name: String,
    fuel: nat,
) -> Result<FunctionItemModel, EngineError>
    decreases fuel,
{
    if fuel == 0 {
        Err(
            EngineError::ObjectNotFound(
                ObjectNotFound::FunctionNotFound(module_name, function_name),
            ),
        )
    } else {
        match spec_find_name_from(spec_module_names(native, asts), module_name@, 0) {
            Option::None => Err(
                EngineError::ObjectNotFound(ObjectNotFound::ModuleNotFound(module_name)),
            ),
            Some(mi) => if mi < native.len() {
                let native_module = native[mi];
                match spec_find_native_function_from(native_module.function_items@, function_name@, 0) {
                    Option::None => Err(
                        EngineError::ObjectNotFound(
                            ObjectNotFound::NativeFunctionNotFound(module_name, function_name),
                        ),
                    ),
                    Some(fi) => {
                        let ti = native_module.function_items@[fi].type_index as int;
                        if ti >= native_module.function_types@.len() {
                            Err(
                                EngineError::InvalidOperation(InvalidOperation::InvalidTypeIndex),
                            )
                        } else if !expected.matches(native_module.function_types@[ti]) {
                            Err(
                                EngineError::TypeMismatch(
                                    TypeMismatch::ImportedFunctionTypeMismatch(
                                        module_name,
                                        function_name,
                                    ),
                                ),
                            )
                        } else {
                            Ok(
                                FunctionItemModel::Native {
                                    native_module_index: mi,
                                    type_index: ti,
                                    function_index: fi,
                                },
                            )
                        }
                    },
                }
            } else {
                let ai = mi - native.len();
                let target = asts[ai].module;
                match spec_find_function_export_from(target.export_items@, function_name@, 0) {
                    Option::None => Err(
                        EngineError::ObjectNotFound(
                            ObjectNotFound::FunctionNotFound(module_name, function_name),
                        ),
                    ),
                    Some(fidx) => {
                        let f = fidx as int;
                        let imports = spec_import_function_locations(target.import_items@);
                        if f >= spec_function_count(target) {
                            Err(
                                EngineError::InvalidOperation(
                                    InvalidOperation::InvalidFunctionIndex,
                                ),
                            )
                        } else if f < imports.len() {
                            spec_resolve_import(
                                native,
                                asts,
                                expected,
                                import_loc_module_name(imports[f]),
                                import_loc_function_name(imports[f]),
                                (fuel - 1) as nat,
                            )
                        } else {
                            let k = f - imports.len();
                            let ti = target.internal_function_to_type_index_list@[k] as int;
                            if ti >= target.type_items@.len() {
                                Err(
                                    EngineError::InvalidOperation(
                                        InvalidOperation::InvalidTypeIndex,
                                    ),
                                )
                            } else if !expected.matches(
                                spec_type_item_function_type(target.type_items@[ti]),
                            ) {
                                Err(
                                    EngineError::TypeMismatch(
                                        TypeMismatch::ImportedFunctionTypeMismatch(
                                            module_name,
                                            function_name,
                                        ),
                                    ),
                                )
                            } else {
                                Ok(spec_internal_model(ai, target, f))
                            }
                        }
                    },
                }
            },
        }
    }
}

/// Looks a function up among a decoded module's exports by name, yielding
/// its index in the module's function-index space.
pub fn get_ast_module_function_index_by_export_name(
    ast_module: &ast::Module,
    name: &String,
) -> (r: Option<usize>)
    ensures
        match r {
            Some(i) => i <= u32::MAX as usize && spec_find_function_export_from(
                ast_module.export_items@,
                name@,
                0,
            ) == Some(i as u32),
            None => spec_find_function_export_from(ast_module.export_items@, name@, 0) is None,
        },
{
    let items = &ast_module.export_items;
    let n = items.len();
    let mut i: usize = 0;
    while i < n
        invariant
            0 <= i <= n,
            n == items@.len(),
            items@ == ast_module.export_items@,
            spec_find_function_export_from(items@, name@, 0) == spec_find_function_export_from(
                items@,
                name@,
                i as int,
            ),
        decreases n - i,
    {
        let item = &items[i];
        if item.name == *name {
            match &item.export_descriptor {
                ast::ExportDescriptor::FunctionIndex(function_index) => {
                    proof {
                        assert(spec_find_function_export_from(items@, name@, i as int) == Some(
                            *function_index,
                        ));
                    }
                    return Some(*function_index as usize);
                },
                _ => {},
            }
        }
        i += 1;
    }
    None
}

proof fn lemma_find_name_in_range(names: Seq<String>, name: Seq<char>, i: int, j: int)
    requires
        spec_find_name_from(names, name, i) == Some(j),
    ensures
        i <= j < names.len(),
        names[j]@ == name,
    decreases names.len() - i,
{
    if 0 <= i < names.len() && names[i]@ != name {
        lemma_find_name_in_range(names, name, i + 1, j);
    }
}

proof fn lemma_find_native_function_in_range(
    items: Seq<crate::native_module::NativeFunctionItem>,
    name: Seq<char>,
    i: int,
    j: int,
)
    requires
        spec_find_native_function_from(items, name, i) == Some(j),
    ensures
        i <= j < items.len(),
    decreases items.len() - i,
{
    if 0 <= i < items.len() && items[i].name@ != name {
        lemma_find_native_function_in_range(items, name, i + 1, j);
    }
}

proof fn lemma_import_locations_are_imports(items: Seq<ast::ImportItem>)
    ensures
        forall|f: int|
            0 <= f < spec_import_function_locations(items).len()
                ==> #[trigger] spec_import_function_locations(
                items,
            )[f] matches FunctionLocation::Import { .. },
    decreases items.len(),
{
    if items.len() > 0 {
        lemma_import_locations_are_imports(items.drop_last());
    }
}

/// A field-for-field copy of a block-item list.
fn copy_block_items(items: &Vec<BlockItem>) -> (r: Vec<BlockItem>)
    ensures
        r@ == items@,
{
    let mut r: Vec<BlockItem> = Vec::new();
    let n = items.len();
    let mut i: usize = 0;
    while i < n
        invariant
            0 <= i <= n,
            n == items@.len(),
            r@ == items@.take(i as int),
        decreases n - i,
    {
        r.push(items[i]);
        proof {
            assert(r@ =~= items@.take(i + 1 as int));
        }
        i += 1;
    }
    proof {
        assert(items@.take(n as int) =~= items@);
    }
    r
}

/// The per-module function locations that the resolver consults: the
/// import locations exactly, then characterised internal locations.
pub open spec fn spec_locations_list_ok(
    locs: Seq<Vec<FunctionLocation>>,
    asts: Seq<ast::NamedAstModule>,
) -> bool {
    &&& locs.len() == asts.len()
    &&& forall|m: int|
        0 <= m < asts.len() ==> {
            let module = asts[m].module;
            let imports = spec_import_function_locations(module.import_items@);
            &&& (#[trigger] locs[m])@.len() == spec_function_count(module)
            &&& forall|f: int| 0 <= f < imports.len() ==> #[trigger] locs[m]@[f] == imports[f]
            &&& forall|f: int|
                imports.len() <= f < locs[m]@.len() ==> spec_internal_location_ok(
                    module,
                    f - imports.len(),
                    #[trigger] locs[m]@[f],
                )
        }
}

/// Follows one import's chain of re-exports to the function item it
/// finally names, exactly as `spec_resolve_import` describes.
#[verifier::loop_isolation(false)]
#[verifier::rlimit(60)]
fn resolve_import_location(
    native_modules: &Vec<crate::native_module::NativeModule>,
    named_ast_modules: &Vec<ast::NamedAstModule>,
    module_names: &Vec<String>,
    locations_list: &Vec<Vec<FunctionLocation>>,
    expected_function_type: &FunctionType,
    module_name: &String,
    function_name: &String,
    fuel: usize,
) -> (r: Result<FunctionItem, EngineError>)
    requires
        module_names@ == spec_module_names(native_modules@, named_ast_modules@),
        spec_locations_list_ok(locations_list@, named_ast_modules@),
        fuel >= 1,
    ensures
        ({
            let s = spec_resolve_import(
                native_modules@,
                named_ast_modules@,
                *expected_function_type,
                *module_name,
                *function_name,
                fuel as nat,
            );
            match r {
                Ok(item) => s matches Ok(model) && function_item_models(item, model),
                Err(e) => s == Err::<FunctionItemModel, EngineError>(e),
            }
        }),
{
    let mut target_module_name = module_name.clone();
    let mut target_function_name = function_name.clone();
    let mut target_fuel = fuel;
    loop
        invariant
            1 <= target_fuel <= fuel,
            spec_resolve_import(
                native_modules@,
                named_ast_modules@,
                *expected_function_type,
                *module_name,
                *function_name,
                fuel as nat,
            ) == spec_resolve_import(
                native_modules@,
                named_ast_modules@,
                *expected_function_type,
                target_module_name,
                target_function_name,
                target_fuel as nat,
            ),
        decreases target_fuel,
    {
        let ghost names_seq = spec_module_names(native_modules@, named_ast_modules@);
        let target_module_index = match get_module_index_by_name(module_names, &target_module_name) {
            Some(index) => index,
            None => {
                return Err(
                    EngineError::ObjectNotFound(
                        ObjectNotFound::ModuleNotFound(target_module_name),
                    ),
                );
            },
        };
        proof {
            lemma_find_name_in_range(
                names_seq,
                target_module_name@,
                0,
                target_module_index as int,
            );
        }
        if target_module_index < native_modules.len() {
            // the chain ends at a host function
            let target_native_module = &native_modules[target_module_index];
            let target_function_index = match get_native_module_function_index_by_export_name(
                target_native_module,
                &target_function_name,
            ) {
                Some(index) => index,
                None => {
                    return Err(
                        EngineError::ObjectNotFound(
                            ObjectNotFound::NativeFunctionNotFound(
                                target_module_name,
                                target_function_name,
                            ),
                        ),
                    );
                },
            };
            proof {
                lemma_find_native_function_in_range(
                    target_native_module.function_items@,
                    target_function_name@,
                    0,
                    target_function_index as int,
                );
            }
            let target_type_index =
                target_native_module.function_items[target_function_index].type_index;
            if target_type_index >= target_native_module.function_types.len() {
                return Err(EngineError::InvalidOperation(InvalidOperation::InvalidTypeIndex));
            }
            if !function_types_eq(
                expected_function_type,
                &target_native_module.function_types[target_type_index],
            ) {
                return Err(
                    EngineError::TypeMismatch(
                        TypeMismatch::ImportedFunctionTypeMismatch(
                            target_module_name,
                            target_function_name,
                        ),
                    ),
                );
            }
            return Ok(
                FunctionItem::Native {
                    native_module_index: target_module_index,
                    type_index: target_type_index,
                    function_index: target_function_index,
                },
            );
        } else {
            // the chain continues into a decoded module
            let target_ast_module_index = target_module_index - native_modules.len();
            let target_ast_module = &named_ast_modules[target_ast_module_index].module;
            let target_function_index = match get_ast_module_function_index_by_export_name(
                target_ast_module,
                &target_function_name,
            ) {
                Some(index) => index,
                None => {
                    return Err(
                        EngineError::ObjectNotFound(
                            ObjectNotFound::FunctionNotFound(
                                target_module_name,
                                target_function_name,
                            ),
                        ),
                    );
                },
            };
            proof {
                lemma_import_locations_are_imports(target_ast_module.import_items@);
            }
            if target_function_index >= locations_list[target_ast_module_index].len() {
                return Err(EngineError::InvalidOperation(InvalidOperation::InvalidFunctionIndex));
            }
            match &locations_list[target_ast_module_index][target_function_index] {
                FunctionLocation::Import { type_index: _, module_name, function_name } => {
                    // the export is itself an import: follow the chain
                    proof {
                        let ai = target_ast_module_index as int;
                        let f = target_function_index as int;
                        let module = named_ast_modules@[ai].module;
                        let imports = spec_import_function_locations(module.import_items@);
                        if f >= imports.len() {
                            assert(spec_internal_location_ok(
                                module,
                                f - imports.len(),
                                locations_list@[ai]@[f],
                            ));
                            assert(false);
                        }
                        assert(locations_list@[ai]@[f] == imports[f]);
                        assert(import_loc_module_name(imports[f]) == *module_name);
                        assert(import_loc_function_name(imports[f]) == *function_name);
                    }
                    if target_fuel == 1 {
                        proof {
                            let m2 = *module_name;
                            let f2 = *function_name;
                            assert(spec_resolve_import(
                                native_modules@,
                                named_ast_modules@,
                                *expected_function_type,
                                m2,
                                f2,
                                0nat,
                            ) == Err::<FunctionItemModel, EngineError>(
                                EngineError::ObjectNotFound(
                                    ObjectNotFound::FunctionNotFound(m2, f2),
                                ),
                            ));
                        }
                        return Err(
                            EngineError::ObjectNotFound(
                                ObjectNotFound::FunctionNotFound(
                                    module_name.clone(),
                                    function_name.clone(),
                                ),
                            ),
                        );
                    }
                    target_module_name = module_name.clone();
                    target_function_name = function_name.clone();
                    target_fuel = target_fuel - 1;
                },
                FunctionLocation::Internal {
                    internal_function_index,
                    type_index,
                    start_address,
                    end_address,
                    block_items,
                } => {
                    if *type_index >= target_ast_module.type_items.len() {
                        return Err(
                            EngineError::InvalidOperation(InvalidOperation::InvalidTypeIndex),
                        );
                    }
                    let actual_function_type = match &target_ast_module.type_items[*type_index] {
                        ast::TypeItem::FunctionType(function_type) => function_type,
                    };
                    if !function_types_eq(expected_function_type, actual_function_type) {
                        return Err(
                            EngineError::TypeMismatch(
                                TypeMismatch::ImportedFunctionTypeMismatch(
                                    target_module_name,
                                    target_function_name,
                                ),
                            ),
                        );
                    }
                    return Ok(
                        FunctionItem::Normal {
                            vm_module_index: target_ast_module_index,
                            type_index: *type_index,
                            function_index: target_function_index,
                            internal_function_index: *internal_function_index,
                            start_address: *start_address,
                            end_address: *end_address,
                            block_items: copy_block_items(block_items),
                        },
                    );
                },
            }
        }
    }
}

/// The chain bound handed to import resolution: one more than the total
/// function count of the first `k` modules, clamped to the machine limit.
pub open spec fn spec_link_fuel(asts: Seq<ast::NamedAstModule>, k: int) -> int
    decreases k,
{
    if k <= 0 {
        1
    } else {
        let prev = spec_link_fuel(asts, k - 1);
        let add = spec_function_count(asts[k - 1].module);
        if prev + add > usize::MAX {
            usize::MAX as int
        } else {
            prev + add
        }
    }
}

/// Import `f` of module `m` declares a type inside the module's type table
/// and its chain of re-exports resolves to a function of that type.
pub open spec fn spec_import_ok(
    native: Seq<crate::native_module::NativeModule>,
    asts: Seq<ast::NamedAstModule>,
    m: int,
    f: int,
) -> bool {
    let module = asts[m].module;
    let loc = spec_import_function_locations(module.import_items@)[f];
    &&& import_loc_type_index(loc) < module.type_items@.len()
    &&& spec_resolve_import(
        native,
        asts,
        spec_type_item_function_type(module.type_items@[import_loc_type_index(loc)]),
        import_loc_module_name(loc),
        import_loc_function_name(loc),
        spec_link_fuel(asts, asts.len() as int) as nat,
    ) is Ok
}

/// Linking the functions of all modules succeeds: every module's internal
/// functions are addressable and well structured, and every function
/// import resolves with a matching type.
pub open spec fn spec_link_functions_ok(
    native: Seq<crate::native_module::NativeModule>,
    asts: Seq<ast::NamedAstModule>,
) -> bool {
    &&& forall|m: int|
        0 <= m < asts.len() ==> spec_internal_locations_ok((#[trigger] asts[m]).module)
    &&& forall|m: int, f: int|
        0 <= m < asts.len() && 0 <= f < spec_import_function_locations(
            asts[m].module.import_items@,
        ).len() ==> #[trigger] spec_import_ok(native, asts, m, f)
}

/// What the function item at (module `m`, function index `f`) must be: for
/// an import, the item its chain resolves to; for an internal function,
/// the module's own code.
pub open spec fn spec_function_item_ok(
    native: Seq<crate::native_module::NativeModule>,
    asts: Seq<ast::NamedAstModule>,
    m: int,
    f: int,
    item: FunctionItem,
) -> bool {
    let module = asts[m].module;
    let imports = spec_import_function_locations(module.import_items@);
    if f < imports.len() {
        let loc = imports[f];
        spec_resolve_import(
            native,
            asts,
            spec_type_item_function_type(module.type_items@[import_loc_type_index(loc)]),
            import_loc_module_name(loc),
            import_loc_function_name(loc),
            spec_link_fuel(asts, asts.len() as int) as nat,
        ) matches Ok(model) && function_item_models(item, model)
    } else {
        function_item_models(item, spec_internal_model(m, module, f))
    }
}

/// Resolves the cross-module function imports and exports: for each
/// decoded module, the list of function items its function-index space
/// maps to, imports resolved transitively through re-exports with type
/// checking.
#[verifier::loop_isolation(false)]
#[verifier::rlimit(80)]
pub fn link_functions(
    native_modules: &Vec<crate::native_module::NativeModule>,
    named_ast_modules: &Vec<ast::NamedAstModule>,
) -> (r: Result<Vec<Vec<FunctionItem>>, EngineError>)
    ensures
        r is Ok <==> spec_link_functions_ok(native_modules@, named_ast_modules@),
        // each error comes from a concrete cause: a module whose internal
        // functions cannot be laid out, an import whose declared type index
        // is out of range, or an import whose chain of re-exports resolves
        // to exactly that error (a missing module or function, a type
        // mismatch, or a chain past the fuel bound, which a cycle forces)
        r matches Err(e) ==> {
            ||| exists|m: int|
                0 <= m < named_ast_modules@.len() && !spec_internal_locations_ok(
                    (#[trigger] named_ast_modules@[m]).module,
                )
            ||| exists|m: int, f: int|
                {
                    &&& 0 <= m < named_ast_modules@.len()
                    &&& 0 <= f < spec_import_function_locations(
                        named_ast_modules@[m].module.import_items@,
                    ).len()
                    &&& import_loc_type_index(
                        #[trigger] spec_import_function_locations(
                            named_ast_modules@[m].module.import_items@,
                        )[f],
                    ) >= named_ast_modules@[m].module.type_items@.len()
                    &&& e == EngineError::InvalidOperation(InvalidOperation::InvalidTypeIndex)
                }
            ||| exists|m: int, f: int|
                {
                    &&& 0 <= m < named_ast_modules@.len()
                    &&& 0 <= f < spec_import_function_locations(
                        named_ast_modules@[m].module.import_items@,
                    ).len()
                    &&& import_loc_type_index(
                        #[trigger] spec_import_function_locations(
                            named_ast_modules@[m].module.import_items@,
                        )[f],
                    ) < named_ast_modules@[m].module.type_items@.len()
                    &&& spec_resolve_import(
                        native_modules@,
                        named_ast_modules@,
                        spec_type_item_function_type(
                            named_ast_modules@[m].module.type_items@[import_loc_type_index(
                                spec_import_function_locations(
                                    named_ast_modules@[m].module.import_items@,
                                )[f],
                            )],
                        ),
                        import_loc_module_name(
                            spec_import_function_locations(
                                named_ast_modules@[m].module.import_items@,
                            )[f],
                        ),
                        import_loc_function_name(
                            spec_import_function_locations(
                                named_ast_modules@[m].module.import_items@,
                            )[f],
                        ),
                        spec_link_fuel(named_ast_modules@, named_ast_modules@.len() as int) as nat,
                    ) == Err::<FunctionItemModel, EngineError>(e)
                }
        },
        r matches Ok(list) ==> {
            &&& list@.len() == named_ast_modules@.len()
            &&& forall|m: int|
                0 <= m < list@.len() ==> (#[trigger] list@[m])@.len() == spec_function_count(
                    named_ast_modules@[m].module,
                )
            &&& forall|m: int, f: int|
                0 <= m < list@.len() && 0 <= f < list@[m]@.len() ==> spec_function_item_ok(
                    native_modules@,
                    named_ast_modules@,
                    m,
                    f,
                    #[trigger] list@[m]@[f],
                )
        },
{
    let module_count = named_ast_modules.len();

    // first step: the location of every function of every module, imports
    // at the low indices, internal functions after them
    let mut locations_list: Vec<Vec<FunctionLocation>> = Vec::new();
    let mut m: usize = 0;
    while m < module_count
        invariant
            0 <= m <= module_count,
            locations_list@.len() == m,
            forall|j: int|
                0 <= j < m ==> spec_internal_locations_ok(
                    (#[trigger] named_ast_modules@[j]).module,
                ),
            forall|j: int|
                0 <= j < m ==> {
                    let module = named_ast_modules@[j].module;
                    let imports = spec_import_function_locations(module.import_items@);
                    &&& (#[trigger] locations_list@[j])@.len() == spec_function_count(module)
                    &&& forall|f: int|
                        0 <= f < imports.len() ==> #[trigger] locations_list@[j]@[f] == imports[f]
                    &&& forall|f: int|
                        imports.len() <= f < locations_list@[j]@.len()
                            ==> spec_internal_location_ok(
                            module,
                            f - imports.len(),
                            #[trigger] locations_list@[j]@[f],
                        )
                },
        decreases module_count - m,
    {
        let ast_module = &named_ast_modules[m].module;
        let function_locations = get_ast_module_import_function_locations(ast_module);
        let mut function_locations = function_locations;
        let mut internal_locations = match get_ast_module_internal_function_locations(ast_module) {
            Ok(locations) => locations,
            Err(e) => {
                proof {
                    assert(!spec_internal_locations_ok(named_ast_modules@[m as int].module));
                    assert(exists|j: int|
                        0 <= j < named_ast_modules@.len() && !spec_internal_locations_ok(
                            (#[trigger] named_ast_modules@[j]).module,
                        ));
                }
                return Err(e);
            },
        };
        let ghost imports_seq = function_locations@;
        let ghost internals_seq = internal_locations@;
        function_locations.append(&mut internal_locations);
        locations_list.push(function_locations);
        proof {
            let module = named_ast_modules@[m as int].module;
            let imports = spec_import_function_locations(module.import_items@);
            assert(locations_list@[m as int]@ == imports_seq + internals_seq);
            assert forall|f: int|
                0 <= f < imports.len() implies #[trigger] locations_list@[m as int]@[f]
                == imports[f] by {}
            assert forall|f: int|
                imports.len() <= f < locations_list@[m as int]@.len() implies
                spec_internal_location_ok(
                    module,
                    f - imports.len(),
                    #[trigger] locations_list@[m as int]@[f],
                ) by {
                assert(locations_list@[m as int]@[f] == internals_seq[f - imports.len()]);
            }
        }
        m += 1;
    }
    proof {
        assert(spec_locations_list_ok(locations_list@, named_ast_modules@));
    }

    // the bound on chains of re-exports: the total function count
    let mut chain_fuel: usize = 1;
    let mut k: usize = 0;
    while k < module_count
        invariant
            0 <= k <= module_count,
            chain_fuel == spec_link_fuel(named_ast_modules@, k as int),
            chain_fuel >= 1,
        decreases module_count - k,
    {
        chain_fuel = chain_fuel.saturating_add(locations_list[k].len());
        k += 1;
    }

    let module_names = get_module_names(native_modules, named_ast_modules);
    proof {
        let names = spec_module_names(native_modules@, named_ast_modules@);
        let n = native_modules@.len() as int;
        assert forall|i: int| 0 <= i < module_names@.len() implies module_names@[i]
            == names[i] by {
            if i >= n {
                assert(module_names@[n + (i - n)] == named_ast_modules@[i - n].name);
            }
        }
        assert(module_names@ =~= names);
    }

    // second step: turn every location into a resolved function item
    let mut function_items_list: Vec<Vec<FunctionItem>> = Vec::new();
    let mut m: usize = 0;
    while m < module_count
        invariant
            0 <= m <= module_count,
            function_items_list@.len() == m,
            forall|j: int|
                0 <= j < m ==> (#[trigger] function_items_list@[j])@.len() == spec_function_count(
                    named_ast_modules@[j].module,
                ),
            forall|j: int, f: int|
                0 <= j < m && 0 <= f < function_items_list@[j]@.len() ==> spec_function_item_ok(
                    native_modules@,
                    named_ast_modules@,
                    j,
                    f,
                    #[trigger] function_items_list@[j]@[f],
                ),
            forall|j: int, f: int|
                0 <= j < m && 0 <= f < spec_import_function_locations(
                    named_ast_modules@[j].module.import_items@,
                ).len() ==> #[trigger] spec_import_ok(native_modules@, named_ast_modules@, j, f),
        decreases module_count - m,
    {
        let mut function_items: Vec<FunctionItem> = Vec::new();
        let location_count = locations_list[m].len();
        let mut f: usize = 0;
        while f < location_count
            invariant
                0 <= f <= location_count,
                function_items@.len() == f,
                forall|g: int|
                    0 <= g < f ==> spec_function_item_ok(
                        native_modules@,
                        named_ast_modules@,
                        m as int,
                        g,
                        #[trigger] function_items@[g],
                    ),
                forall|g: int|
                    0 <= g < f && g < spec_import_function_locations(
                        named_ast_modules@[m as int].module.import_items@,
                    ).len() ==> #[trigger] spec_import_ok(
                        native_modules@,
                        named_ast_modules@,
                        m as int,
                        g,
                    ),
            decreases location_count - f,
        {
            let ghost module = named_ast_modules@[m as int].module;
            let ghost imports = spec_import_function_locations(module.import_items@);
            proof {
                lemma_import_locations_are_imports(module.import_items@);
            }
            match &locations_list[m][f] {
                FunctionLocation::Import { type_index, module_name, function_name } => {
                    proof {
                        if f as int >= imports.len() {
                            assert(spec_internal_location_ok(
                                module,
                                f - imports.len(),
                                locations_list@[m as int]@[f as int],
                            ));
                            assert(false);
                        }
                        assert(locations_list@[m as int]@[f as int] == imports[f as int]);
                    }
                    if *type_index >= named_ast_modules[m].module.type_items.len() {
                        proof {
                            assert(!spec_import_ok(
                                native_modules@,
                                named_ast_modules@,
                                m as int,
                                f as int,
                            ));
                            assert(import_loc_type_index(imports[f as int]) == *type_index as int);
                            assert(exists|j: int, g: int|
                                {
                                    &&& 0 <= j < named_ast_modules@.len()
                                    &&& 0 <= g < spec_import_function_locations(
                                        named_ast_modules@[j].module.import_items@,
                                    ).len()
                                    &&& import_loc_type_index(
                                        #[trigger] spec_import_function_locations(
                                            named_ast_modules@[j].module.import_items@,
                                        )[g],
                                    ) >= named_ast_modules@[j].module.type_items@.len()
                                });
                        }
                        return Err(
                            EngineError::InvalidOperation(InvalidOperation::InvalidTypeIndex),
                        );
                    }
                    let expected_function_type = match &named_ast_modules[m].module.type_items[*type_index] {
                        ast::TypeItem::FunctionType(function_type) => function_type,
                    };
                    match resolve_import_location(
                        native_modules,
                        named_ast_modules,
                        &module_names,
                        &locations_list,
                        expected_function_type,
                        module_name,
                        function_name,
                        chain_fuel,
                    ) {
                        Ok(function_item) => {
                            function_items.push(function_item);
                        },
                        Err(e) => {
                            proof {
                                assert(!spec_import_ok(
                                    native_modules@,
                                    named_ast_modules@,
                                    m as int,
                                    f as int,
                                ));
                                assert(import_loc_type_index(imports[f as int]) == *type_index as int);
                                assert(*expected_function_type == spec_type_item_function_type(
                                    module.type_items@[import_loc_type_index(imports[f as int])],
                                ));
                                assert(spec_resolve_import(
                                    native_modules@,
                                    named_ast_modules@,
                                    spec_type_item_function_type(
                                        module.type_items@[import_loc_type_index(
                                            imports[f as int],
                                        )],
                                    ),
                                    import_loc_module_name(imports[f as int]),
                                    import_loc_function_name(imports[f as int]),
                                    spec_link_fuel(
                                        named_ast_modules@,
                                        named_ast_modules@.len() as int,
                                    ) as nat,
                                ) == Err::<FunctionItemModel, EngineError>(e));
                                assert(exists|j: int, g: int|
                                    {
                                        &&& 0 <= j < named_ast_modules@.len()
                                        &&& 0 <= g < spec_import_function_locations(
                                            named_ast_modules@[j].module.import_items@,
                                        ).len()
                                        &&& import_loc_type_index(
                                            #[trigger] spec_import_function_locations(
                                                named_ast_modules@[j].module.import_items@,
                                            )[g],
                                        ) < named_ast_modules@[j].module.type_items@.len()
                                        &&& spec_resolve_import(
                                            native_modules@,
                                            named_ast_modules@,
                                            spec_type_item_function_type(
                                                named_ast_modules@[j].module.type_items@[import_loc_type_index(
                                                    spec_import_function_locations(
                                                        named_ast_modules@[j].module.import_items@,
                                                    )[g],
                                                )],
                                            ),
                                            import_loc_module_name(
                                                spec_import_function_locations(
                                                    named_ast_modules@[j].module.import_items@,
                                                )[g],
                                            ),
                                            import_loc_function_name(
                                                spec_import_function_locations(
                                                    named_ast_modules@[j].module.import_items@,
                                                )[g],
                                            ),
                                            spec_link_fuel(
                                                named_ast_modules@,
                                                named_ast_modules@.len() as int,
                                            ) as nat,
                                        ) == Err::<FunctionItemModel, EngineError>(e)
                                    });
                            }
                            return Err(e);
                        },
                    }
                },
                FunctionLocation::Internal {
                    internal_function_index,
                    type_index,
                    start_address,
                    end_address,
                    block_items,
                } => {
                    proof {
                        if (f as int) < imports.len() {
                            assert(locations_list@[m as int]@[f as int] == imports[f as int]);
                            assert(false);
                        }
                        assert(spec_internal_location_ok(
                            module,
                            f - imports.len(),
                            locations_list@[m as int]@[f as int],
                        ));
                    }
                    let function_item = FunctionItem::Normal {
                        vm_module_index: m,
                        type_index: *type_index,
                        function_index: f,
                        internal_function_index: *internal_function_index,
                        start_address: *start_address,
                        end_address: *end_address,
                        block_items: copy_block_items(block_items),
                    };
                    function_items.push(function_item);
                },
            }
            f += 1;
        }
        function_items_list.push(function_items);
        m += 1;
    }
    Ok(function_items_list)
}

/// Re-export transitivity: when a module declares an import of `x` from
/// `B` with expected type `expected`, `B`'s export `x` is itself `B`'s
/// import from `C`, and following `B`'s import names leads to `C`, whose
/// export is an internal function of a type equal to `expected`, then the
/// import resolves to exactly `C`'s own definition: the function item the
/// importer receives is `C`'s internal item, and its type index names the
/// type the importer declared.
pub proof fn lemma_reexport_transitivity(
    native: Seq<crate::native_module::NativeModule>,
    asts: Seq<ast::NamedAstModule>,
    expected: FunctionType,
    b: int,
    c: int,
    b_name: String,
    x_name: String,
    fb: u32,
    fc: u32,
    fuel: nat,
)
    requires
        fuel >= 2,
        0 <= b < asts.len(),
        0 <= c < asts.len(),
        spec_find_name_from(spec_module_names(native, asts), b_name@, 0) == Some(
            native.len() + b,
        ),
        spec_find_function_export_from(asts[b].module.export_items@, x_name@, 0) == Some(fb),
        fb < spec_import_function_locations(asts[b].module.import_items@).len(),
        ({
            let loc_b = spec_import_function_locations(asts[b].module.import_items@)[fb as int];
            &&& spec_find_name_from(
                spec_module_names(native, asts),
                import_loc_module_name(loc_b)@,
                0,
            ) == Some(native.len() + c)
            &&& spec_find_function_export_from(
                asts[c].module.export_items@,
                import_loc_function_name(loc_b)@,
                0,
            ) == Some(fc)
        }),
        spec_import_function_locations(asts[c].module.import_items@).len() <= fc
            < spec_function_count(asts[c].module),
        ({
            let k = fc - spec_import_function_locations(asts[c].module.import_items@).len();
            let ti = asts[c].module.internal_function_to_type_index_list@[k] as int;
            &&& ti < asts[c].module.type_items@.len()
            &&& expected.matches(spec_type_item_function_type(asts[c].module.type_items@[ti]))
        }),
    ensures
        spec_resolve_import(native, asts, expected, b_name, x_name, fuel) == Ok::<
            FunctionItemModel,
            EngineError,
        >(spec_internal_model(c, asts[c].module, fc as int)),
        ({
            let model = spec_internal_model(c, asts[c].module, fc as int);
            let ti = match model {
                FunctionItemModel::Normal { type_index, .. } => type_index,
                _ => 0,
            };
            expected.matches(spec_type_item_function_type(asts[c].module.type_items@[ti]))
        }),
{
    let loc_b = spec_import_function_locations(asts[b].module.import_items@)[fb as int];
    let step_b = spec_resolve_import(native, asts, expected, b_name, x_name, fuel);
    let step_c = spec_resolve_import(
        native,
        asts,
        expected,
        import_loc_module_name(loc_b),
        import_loc_function_name(loc_b),
        (fuel - 1) as nat,
    );
    assert(step_b == step_c);
    assert(step_c == Ok::<FunctionItemModel, EngineError>(
        spec_internal_model(c, asts[c].module, fc as int),
    ));
}

/// The position at or after `i` of the module's first table import.
pub open spec fn spec_find_table_import_from(items: Seq<ast::ImportItem>, i: int) -> Option<int>
    decreases items.len() - i,
{
    if i < 0 || i >= items.len() {
        Option::None
    } else if items[i].import_descriptor matches ast::ImportDescriptor::TableType(_) {
        Some(i)
    } else {
        spec_find_table_import_from(items, i + 1)
    }
}

pub open spec fn spec_module_has_table_import(module: ast::Module) -> bool {
    spec_find_table_import_from(module.import_items@, 0) is Some
}

/// The module's first table import item.
pub open spec fn spec_table_import_item(module: ast::Module) -> ast::ImportItem {
    module.import_items@[spec_find_table_import_from(module.import_items@, 0).unwrap()]
}

/// The table type the module's table import declares.
pub open spec fn spec_table_import_type(module: ast::Module) -> ast::TableType {
    match spec_table_import_item(module).import_descriptor {
        ast::ImportDescriptor::TableType(table_type) => table_type,
        _ => arbitrary(),
    }
}

/// The table a non-importing module gets: its own definition, or a
/// zero-capacity placeholder.
pub open spec fn spec_own_table_type(module: ast::Module) -> ast::TableType {
    if module.tables@.len() > 0 {
        module.tables@[0]
    } else {
        ast::TableType { limit: ast::Limit { minimum: 0, maximum: Some(0) } }
    }
}

/// How many of the first `m` modules define their own table instance.
pub open spec fn spec_table_rank(asts: Seq<ast::NamedAstModule>, m: int) -> int
    decreases m,
{
    if m <= 0 {
        0
    } else {
        spec_table_rank(asts, m - 1) + if spec_module_has_table_import(asts[m - 1].module) {
            0int
        } else {
            1int
        }
    }
}

/// The first index at or after `i` of a decoded module of the given name.
pub open spec fn spec_find_ast_module_from(
    asts: Seq<ast::NamedAstModule>,
    name: Seq<char>,
    i: int,
) -> Option<int>
    decreases asts.len() - i,
{
    if i < 0 || i >= asts.len() {
        Option::None
    } else if asts[i].name@ == name {
        Some(i)
    } else {
        spec_find_ast_module_from(asts, name, i + 1)
    }
}

/// The table index named by the first export item of the given name with a
/// table descriptor, at or after `i`.
pub open spec fn spec_find_table_export_from(
    items: Seq<ast::ExportItem>,
    name: Seq<char>,
    i: int,
) -> Option<u32>
    decreases items.len() - i,
{
    if i < 0 || i >= items.len() {
        Option::None
    } else if items[i].name@ == name && items[i].export_descriptor matches
        ast::ExportDescriptor::TableIndex(_) {
        match items[i].export_descriptor {
            ast::ExportDescriptor::TableIndex(table_index) => Some(table_index),
            _ => Option::None,
        }
    } else {
        spec_find_table_export_from(items, name, i + 1)
    }
}

proof fn lemma_find_table_import_in_range(items: Seq<ast::ImportItem>, i: int, j: int)
    requires
        spec_find_table_import_from(items, i) == Some(j),
    ensures
        i <= j < items.len(),
        items[j].import_descriptor matches ast::ImportDescriptor::TableType(_),
    decreases items.len() - i,
{
    if 0 <= i < items.len() && !(items[i].import_descriptor matches
        ast::ImportDescriptor::TableType(_)) {
        lemma_find_table_import_in_range(items, i + 1, j);
    }
}

/// The position of the module's first table import.
fn find_table_import(module: &ast::Module) -> (r: Option<usize>)
    ensures
        match r {
            Some(i) => spec_find_table_import_from(module.import_items@, 0) == Some(i as int),
            None => spec_find_table_import_from(module.import_items@, 0) is None,
        },
{
    let items = &module.import_items;
    let n = items.len();
    let mut i: usize = 0;
    while i < n
        invariant
            0 <= i <= n,
            n == items@.len(),
            items@ == module.import_items@,
            spec_find_table_import_from(items@, 0) == spec_find_table_import_from(
                items@,
                i as int,
            ),
        decreases n - i,
    {
        match &items[i].import_descriptor {
            ast::ImportDescriptor::TableType(_) => {
                return Some(i);
            },
            _ => {},
        }
        i += 1;
    }
    None
}

/// The index of the first decoded module of the given name.
fn find_ast_module_index_by_name(
    named_ast_modules: &Vec<ast::NamedAstModule>,
    name: &String,
) -> (r: Option<usize>)
    ensures
        match r {
            Some(i) => spec_find_ast_module_from(named_ast_modules@, name@, 0) == Some(i as int),
            None => spec_find_ast_module_from(named_ast_modules@, name@, 0) is None,
        },
{
    let n = named_ast_modules.len();
    let mut i: usize = 0;
    while i < n
        invariant
            0 <= i <= n,
            n == named_ast_modules@.len(),
            spec_find_ast_module_from(named_ast_modules@, name@, 0) == spec_find_ast_module_from(
                named_ast_modules@,
                name@,
                i as int,
            ),
        decreases n - i,
    {
        if named_ast_modules[i].name == *name {
            return Some(i);
        }
        i += 1;
    }
    None
}

/// Looks a table up among a decoded module's exports by name.
fn find_table_export(module: &ast::Module, name: &String) -> (r: Option<u32>)
    ensures
        r == spec_find_table_export_from(module.export_items@, name@, 0),
{
    let items = &module.export_items;
    let n = items.len();
    let mut i: usize = 0;
    while i < n
        invariant
            0 <= i <= n,
            n == items@.len(),
            items@ == module.export_items@,
            spec_find_table_export_from(items@, name@, 0) == spec_find_table_export_from(
                items@,
                name@,
                i as int,
            ),
        decreases n - i,
    {
        let item = &items[i];
        if item.name == *name {
            match &item.export_descriptor {
                ast::ExportDescriptor::TableIndex(table_index) => {
                    return Some(*table_index);
                },
                _ => {},
            }
        }
        i += 1;
    }
    None
}

proof fn lemma_find_ast_module_in_range(
    asts: Seq<ast::NamedAstModule>,
    name: Seq<char>,
    i: int,
    j: int,
)
    requires
        spec_find_ast_module_from(asts, name, i) == Some(j),
    ensures
        i <= j < asts.len(),
    decreases asts.len() - i,
{
    if 0 <= i < asts.len() && asts[i].name@ != name {
        lemma_find_ast_module_in_range(asts, name, i + 1, j);
    }
}

/// Every table import points directly at a module that keeps its own
/// table, exporting it at index zero under the imported name, with the
/// very type the importer declares: the one-step case of resolution, in
/// which linking the tables cannot fail.
pub open spec fn spec_table_imports_one_step_ok(asts: Seq<ast::NamedAstModule>) -> bool {
    forall|m: int|
        0 <= m < asts.len() && spec_module_has_table_import((#[trigger] asts[m]).module) ==> {
            let item = spec_table_import_item(asts[m].module);
            spec_find_ast_module_from(asts, item.module_name@, 0) matches Some(t) && {
                &&& !spec_module_has_table_import(asts[t].module)
                &&& spec_find_table_export_from(
                    asts[t].module.export_items@,
                    item.item_name@,
                    0,
                ) == Some(0u32)
                &&& spec_table_import_type(asts[m].module) == spec_own_table_type(asts[t].module)
            }
        }
}

/// A chain of `n` table-import steps from module `m` down to module
/// `origin`, which keeps its own table: each step follows the importer's
/// named target module, whose matching table export must have index zero.
/// That such a chain exists rules out a cycle of table imports through `m`.
pub open spec fn spec_table_chain(
    asts: Seq<ast::NamedAstModule>,
    m: int,
    origin: int,
    n: nat,
) -> bool
    decreases n,
{
    if n == 0 {
        m == origin && 0 <= m < asts.len() && !spec_module_has_table_import(asts[m].module)
    } else {
        &&& 0 <= m < asts.len()
        &&& spec_module_has_table_import(asts[m].module)
        &&& {
            let item = spec_table_import_item(asts[m].module);
            spec_find_ast_module_from(asts, item.module_name@, 0) matches Some(target) && {
                &&& spec_find_table_export_from(
                    asts[target].module.export_items@,
                    item.item_name@,
                    0,
                ) == Some(0u32)
                &&& spec_table_chain(asts, target, origin, (n - 1) as nat)
            }
        }
    }
}

/// Every resolved slot is justified by a finite chain of table imports
/// ending at the module that defines the shared instance, whose type the
/// instance carries.
pub open spec fn spec_table_slots_chained(
    asts: Seq<ast::NamedAstModule>,
    tables: Seq<crate::vm_table::VMTable>,
    map: Seq<Option<usize>>,
) -> bool {
    forall|j: int|
        0 <= j < map.len() ==> match #[trigger] map[j] {
            Option::None => true,
            Some(index) => exists|origin: int, n: nat|
                spec_table_chain(asts, j, origin, n) && 0 <= origin < map.len() && map[origin]
                    == Some(index) && index < tables.len() && tables[index as int].spec_table_type()
                    == spec_own_table_type(asts[origin].module),
        }
}

/// A module slot either still unresolved, or pointing at its table
/// instance with the right type.
pub open spec fn spec_table_slot_ok(
    asts: Seq<ast::NamedAstModule>,
    tables: Seq<crate::vm_table::VMTable>,
    map: Seq<Option<usize>>,
    m: int,
) -> bool {
    match map[m] {
        Option::None => spec_module_has_table_import(asts[m].module),
        Some(index) => {
            &&& index < tables.len()
            &&& if spec_module_has_table_import(asts[m].module) {
                let item = spec_table_import_item(asts[m].module);
                &&& spec_find_ast_module_from(asts, item.module_name@, 0) matches Some(t)
                    && 0 <= t < map.len() && map[t] == Some(index)
                &&& spec_find_table_export_from(
                    asts[spec_find_ast_module_from(asts, item.module_name@, 0).unwrap()].module.export_items@,
                    item.item_name@,
                    0,
                ) == Some(0u32)
                &&& tables[index as int].spec_table_type() == spec_table_import_type(
                    asts[m].module,
                )
            } else {
                &&& index == spec_table_rank(asts, m)
                &&& tables[index as int].spec_table_type() == spec_own_table_type(asts[m].module)
            }
        },
    }
}

/// Links the modules' tables: creates one instance per module that defines
/// or defaults its own table, then points every table-importing module at
/// the instance its import chain reaches, checking the declared type at
/// every step.
///
/// The returned pair is the list of table instances and, for each module,
/// the index of its instance. A module that imports its table shares the
/// very instance of the module it imports from; writes through one are
/// seen by all importers.
#[verifier::rlimit(100)]
pub fn link_tables(named_ast_modules: &Vec<ast::NamedAstModule>) -> (r: Result<
    (Vec<crate::vm_table::VMTable>, Vec<usize>),
    EngineError,
>)
    ensures
        spec_table_imports_one_step_ok(named_ast_modules@) ==> r is Ok,
        // each error kind comes only from its cause: a named module that
        // does not exist, a missing or multiple table export, an instance
        // whose type differs from the importer's declaration, or a cycle
        r matches Err(e) ==> {
            ||| (e matches EngineError::ObjectNotFound(ObjectNotFound::ModuleNotFound(name))
                && exists|m: int|
                {
                    let module = (#[trigger] named_ast_modules@[m]).module;
                    &&& 0 <= m < named_ast_modules@.len()
                    &&& spec_module_has_table_import(module)
                    &&& spec_table_import_item(module).module_name == name
                    &&& spec_find_ast_module_from(named_ast_modules@, name@, 0) is None
                })
            ||| (e matches EngineError::ObjectNotFound(ObjectNotFound::TableNotFound(
                target_name,
                item_name,
            )) && exists|m: int|
                {
                    let module = (#[trigger] named_ast_modules@[m]).module;
                    &&& 0 <= m < named_ast_modules@.len()
                    &&& spec_module_has_table_import(module)
                    &&& spec_table_import_item(module).module_name == target_name
                    &&& spec_table_import_item(module).item_name == item_name
                    &&& spec_find_ast_module_from(named_ast_modules@, target_name@, 0) matches Some(
                        target,
                    ) && spec_find_table_export_from(
                        named_ast_modules@[target].module.export_items@,
                        item_name@,
                        0,
                    ) is None
                })
            ||| (e == EngineError::Unsupported(Unsupported::UnsupportedMultipleTable) && exists|
                m: int,
            |
                {
                    let module = (#[trigger] named_ast_modules@[m]).module;
                    let item = spec_table_import_item(module);
                    &&& 0 <= m < named_ast_modules@.len()
                    &&& spec_module_has_table_import(module)
                    &&& spec_find_ast_module_from(named_ast_modules@, item.module_name@, 0)
                        matches Some(target) && spec_find_table_export_from(
                        named_ast_modules@[target].module.export_items@,
                        item.item_name@,
                        0,
                    ) matches Some(exported_index) && exported_index != 0
                })
            ||| (e matches EngineError::TypeMismatch(TypeMismatch::ImportedTableTypeMismatch(
                target_name,
                item_name,
            )) && exists|m: int|
                {
                    let module = (#[trigger] named_ast_modules@[m]).module;
                    &&& 0 <= m < named_ast_modules@.len()
                    &&& spec_module_has_table_import(module)
                    &&& spec_table_import_item(module).module_name == target_name
                    &&& spec_table_import_item(module).item_name == item_name
                    &&& spec_find_ast_module_from(named_ast_modules@, target_name@, 0)
                        matches Some(target) && exists|origin: int, n: nat|
                        spec_table_chain(named_ast_modules@, target, origin, n)
                            && spec_table_import_type(module) != spec_own_table_type(
                            named_ast_modules@[origin].module,
                        )
                })
            ||| (e == EngineError::InvalidOperation(InvalidOperation::CyclicImport)
                && !spec_table_imports_one_step_ok(named_ast_modules@))
        },
        // every resolved slot follows a finite chain of imports to the
        // module that defines its shared instance: a cycle of imports can
        // never be assigned
        r matches Ok(result) ==> spec_table_slots_chained(
            named_ast_modules@,
            result.0@,
            result.1@.map_values(|x: usize| Some(x)),
        ),
        r matches Ok(result) ==> {
            &&& result.1@.len() == named_ast_modules@.len()
            &&& result.0@.len() == spec_table_rank(named_ast_modules@, named_ast_modules@.len() as int)
            &&& forall|i: int|
                0 <= i < result.0@.len() ==> (#[trigger] result.0@[i])@.len() == result.0@[i].spec_table_type().limit.minimum
                    && forall|e: int| 0 <= e < result.0@[i]@.len() ==> result.0@[i]@[e] is None
            &&& forall|m: int|
                0 <= m < named_ast_modules@.len() ==> spec_table_slot_ok(
                    named_ast_modules@,
                    result.0@,
                    result.1@.map_values(|x: usize| Some(x)),
                    m,
                ) && (#[trigger] result.1@[m]) < result.0@.len()
        },
{
    let module_count = named_ast_modules.len();
    let mut module_to_table_index_list: Vec<Option<usize>> = Vec::new();
    let mut instance_tables: Vec<crate::vm_table::VMTable> = Vec::new();

    // create the table of every module that does not import one
    let mut m: usize = 0;
    while m < module_count
        invariant
            module_count == named_ast_modules@.len(),
            0 <= m <= module_count,
            module_to_table_index_list@.len() == m,
            instance_tables@.len() == spec_table_rank(named_ast_modules@, m as int),
            spec_table_slots_chained(
                named_ast_modules@,
                instance_tables@,
                module_to_table_index_list@,
            ),
            forall|j: int|
                0 <= j < m ==> spec_table_slot_ok(
                    named_ast_modules@,
                    instance_tables@,
                    module_to_table_index_list@,
                    j,
                ),
            forall|i: int|
                0 <= i < instance_tables@.len() ==> (#[trigger] instance_tables@[i])@.len()
                    == instance_tables@[i].spec_table_type().limit.minimum && forall|e: int|
                    0 <= e < instance_tables@[i]@.len() ==> instance_tables@[i]@[e] is None,
        decreases module_count - m,
    {
        let ast_module = &named_ast_modules[m].module;
        let ghost old_map = module_to_table_index_list@;
        let ghost old_tables = instance_tables@;
        match find_table_import(ast_module) {
            Some(_) => {
                module_to_table_index_list.push(None);
            },
            None => {
                let instance_table = if ast_module.tables.len() > 0 {
                    crate::vm_table::VMTable::new(ast_module.tables[0])
                } else {
                    crate::vm_table::VMTable::new_by_page_range(0, 0)
                };
                let instance_table_index = instance_tables.len();
                instance_tables.push(instance_table);
                module_to_table_index_list.push(Some(instance_table_index));
            },
        }
        proof {
            assert forall|j: int| 0 <= j <= m implies spec_table_slot_ok(
                named_ast_modules@,
                instance_tables@,
                module_to_table_index_list@,
                j,
            ) by {
                if j < m {
                    assert(spec_table_slot_ok(named_ast_modules@, old_tables, old_map, j));
                }
            }
            assert forall|j: int|
                0 <= j < module_to_table_index_list@.len() implies match #[trigger] module_to_table_index_list@[j] {
                Option::None => true,
                Some(index) => exists|origin: int, n: nat|
                    spec_table_chain(named_ast_modules@, j, origin, n) && 0 <= origin
                        < module_to_table_index_list@.len() && module_to_table_index_list@[origin]
                        == Some(index) && index < instance_tables@.len()
                        && instance_tables@[index as int].spec_table_type() == spec_own_table_type(
                        named_ast_modules@[origin].module,
                    ),
            } by {
                if j < m {
                    match old_map[j] {
                        Option::None => {},
                        Some(index) => {
                            let (origin, n) = choose|origin: int, n: nat|
                                spec_table_chain(named_ast_modules@, j, origin, n) && 0 <= origin
                                    < old_map.len() && old_map[origin] == Some(index) && index
                                    < old_tables.len() && old_tables[index as int].spec_table_type()
                                    == spec_own_table_type(named_ast_modules@[origin].module);
                            assert(spec_table_chain(named_ast_modules@, j, origin, n)
                                && 0 <= origin < module_to_table_index_list@.len()
                                && module_to_table_index_list@[origin] == Some(index) && index
                                < instance_tables@.len()
                                && instance_tables@[index as int].spec_table_type()
                                == spec_own_table_type(named_ast_modules@[origin].module));
                        },
                    }
                } else {
                    match module_to_table_index_list@[j] {
                        Option::None => {},
                        Some(index) => {
                            assert(spec_table_chain(named_ast_modules@, j, j, 0));
                            assert(spec_table_chain(named_ast_modules@, j, j, 0)
                                && 0 <= j < module_to_table_index_list@.len()
                                && module_to_table_index_list@[j] == Some(index) && index
                                < instance_tables@.len()
                                && instance_tables@[index as int].spec_table_type()
                                == spec_own_table_type(named_ast_modules@[j].module));
                        },
                    }
                }
            }
        }
        m += 1;
    }

    // resolve the table imports: each sweep resolves every module whose
    // import target is already resolved, so any chain of re-exports is
    // finished after at most one sweep per module; what is left then is a
    // cycle
    let mut round: usize = 0;
    while round < module_count
        invariant
            module_count == named_ast_modules@.len(),
            0 <= round <= module_count,
            (spec_table_imports_one_step_ok(named_ast_modules@) && round >= 1) ==> forall|j: int|
                0 <= j < module_count ==> (#[trigger] module_to_table_index_list@[j]) is Some,
            module_to_table_index_list@.len() == module_count,
            instance_tables@.len() == spec_table_rank(named_ast_modules@, module_count as int),
            spec_table_slots_chained(
                named_ast_modules@,
                instance_tables@,
                module_to_table_index_list@,
            ),
            forall|j: int|
                0 <= j < module_count ==> spec_table_slot_ok(
                    named_ast_modules@,
                    instance_tables@,
                    module_to_table_index_list@,
                    j,
                ),
            forall|i: int|
                0 <= i < instance_tables@.len() ==> (#[trigger] instance_tables@[i])@.len()
                    == instance_tables@[i].spec_table_type().limit.minimum && forall|e: int|
                    0 <= e < instance_tables@[i]@.len() ==> instance_tables@[i]@[e] is None,
        decreases module_count - round,
    {
        let mut m: usize = 0;
        while m < module_count
            invariant
                module_count == named_ast_modules@.len(),
                0 <= m <= module_count,
                spec_table_imports_one_step_ok(named_ast_modules@) ==> forall|j: int|
                    0 <= j < m ==> (#[trigger] module_to_table_index_list@[j]) is Some,
                module_to_table_index_list@.len() == module_count,
                instance_tables@.len() == spec_table_rank(named_ast_modules@, module_count as int),
                spec_table_slots_chained(
                    named_ast_modules@,
                    instance_tables@,
                    module_to_table_index_list@,
                ),
                forall|j: int|
                    0 <= j < module_count ==> spec_table_slot_ok(
                        named_ast_modules@,
                        instance_tables@,
                        module_to_table_index_list@,
                        j,
                    ),
                forall|i: int|
                    0 <= i < instance_tables@.len() ==> (#[trigger] instance_tables@[i])@.len()
                        == instance_tables@[i].spec_table_type().limit.minimum && forall|e: int|
                        0 <= e < instance_tables@[i]@.len() ==> instance_tables@[i]@[e] is None,
            decreases module_count - m,
        {
            if module_to_table_index_list[m].is_none() {
                proof {
                    assert(spec_table_slot_ok(
                        named_ast_modules@,
                        instance_tables@,
                        module_to_table_index_list@,
                        m as int,
                    ));
                }
                let importer_module = &named_ast_modules[m].module;
                let import_position = match find_table_import(importer_module) {
                    Some(position) => position,
                    None => {
                        proof {
                            assert(false);
                        }
                        unreached()
                    },
                };
                proof {
                    lemma_find_table_import_in_range(
                        importer_module.import_items@,
                        0,
                        import_position as int,
                    );
                }
                let import_item = &importer_module.import_items[import_position];
                proof {
                    assert(*import_item == spec_table_import_item(
                        named_ast_modules@[m as int].module,
                    ));
                }
                let target_module_index = match find_ast_module_index_by_name(
                    named_ast_modules,
                    &import_item.module_name,
                ) {
                    Some(index) => index,
                    None => {
                        proof {
                            assert(!spec_table_imports_one_step_ok(named_ast_modules@));
                            assert(exists|j: int|
                                {
                                    let module = (#[trigger] named_ast_modules@[j]).module;
                                    &&& 0 <= j < named_ast_modules@.len()
                                    &&& spec_module_has_table_import(module)
                                    &&& spec_table_import_item(module).module_name
                                        == import_item.module_name
                                    &&& spec_find_ast_module_from(
                                        named_ast_modules@,
                                        import_item.module_name@,
                                        0,
                                    ) is None
                                });
                        }
                        return Err(
                            EngineError::ObjectNotFound(
                                ObjectNotFound::ModuleNotFound(import_item.module_name.clone()),
                            ),
                        );
                    },
                };
                proof {
                    lemma_find_ast_module_in_range(
                        named_ast_modules@,
                        import_item.module_name@,
                        0,
                        target_module_index as int,
                    );
                }
                let target_module = &named_ast_modules[target_module_index].module;
                let target_table_index = match find_table_export(
                    target_module,
                    &import_item.item_name,
                ) {
                    Some(index) => index,
                    None => {
                        proof {
                            assert(!spec_table_imports_one_step_ok(named_ast_modules@));
                            assert(exists|j: int|
                                {
                                    let module = (#[trigger] named_ast_modules@[j]).module;
                                    &&& 0 <= j < named_ast_modules@.len()
                                    &&& spec_module_has_table_import(module)
                                    &&& spec_table_import_item(module).module_name
                                        == import_item.module_name
                                    &&& spec_table_import_item(module).item_name
                                        == import_item.item_name
                                    &&& spec_find_ast_module_from(
                                        named_ast_modules@,
                                        import_item.module_name@,
                                        0,
                                    ) matches Some(target) && spec_find_table_export_from(
                                        named_ast_modules@[target].module.export_items@,
                                        import_item.item_name@,
                                        0,
                                    ) is None
                                });
                        }
                        return Err(
                            EngineError::ObjectNotFound(
                                ObjectNotFound::TableNotFound(
                                    import_item.module_name.clone(),
                                    import_item.item_name.clone(),
                                ),
                            ),
                        );
                    },
                };
                if target_table_index != 0 {
                    proof {
                        assert(!spec_table_imports_one_step_ok(named_ast_modules@));
                        assert(exists|j: int|
                            {
                                let module = (#[trigger] named_ast_modules@[j]).module;
                                let item = spec_table_import_item(module);
                                &&& 0 <= j < named_ast_modules@.len()
                                &&& spec_module_has_table_import(module)
                                &&& spec_find_ast_module_from(named_ast_modules@, item.module_name@, 0)
                                    matches Some(target) && spec_find_table_export_from(
                                    named_ast_modules@[target].module.export_items@,
                                    item.item_name@,
                                    0,
                                ) matches Some(exported_index) && exported_index != 0
                            });
                    }
                    return Err(EngineError::Unsupported(Unsupported::UnsupportedMultipleTable));
                }
                match module_to_table_index_list[target_module_index] {
                    Some(resolved_index) => {
                        proof {
                            assert(spec_table_slot_ok(
                                named_ast_modules@,
                                instance_tables@,
                                module_to_table_index_list@,
                                target_module_index as int,
                            ));
                        }
                        let declared_table_type = match &import_item.import_descriptor {
                            ast::ImportDescriptor::TableType(table_type) => *table_type,
                            _ => {
                                proof {
                                    assert(false);
                                }
                                unreached()
                            },
                        };
                        if instance_tables[resolved_index].get_table_type()
                            != declared_table_type {
                            proof {
                                if spec_table_imports_one_step_ok(named_ast_modules@) {
                                    assert(spec_table_slot_ok(
                                        named_ast_modules@,
                                        instance_tables@,
                                        module_to_table_index_list@,
                                        target_module_index as int,
                                    ));
                                    assert(declared_table_type == spec_own_table_type(
                                        named_ast_modules@[target_module_index as int].module,
                                    ));
                                    assert(false);
                                }
                            }
                            proof {
                                let map = module_to_table_index_list@;
                                assert(map[target_module_index as int] == Some(resolved_index));
                                let (origin, n) = choose|origin: int, n: nat|
                                    spec_table_chain(
                                        named_ast_modules@,
                                        target_module_index as int,
                                        origin,
                                        n,
                                    ) && 0 <= origin < map.len() && map[origin] == Some(
                                        resolved_index,
                                    ) && resolved_index < instance_tables@.len()
                                        && instance_tables@[resolved_index as int].spec_table_type()
                                        == spec_own_table_type(named_ast_modules@[origin].module);
                                assert(spec_table_import_type(
                                    named_ast_modules@[m as int].module,
                                ) != spec_own_table_type(named_ast_modules@[origin].module));
                                assert(exists|j: int|
                                    {
                                        let module = (#[trigger] named_ast_modules@[j]).module;
                                        &&& 0 <= j < named_ast_modules@.len()
                                        &&& spec_module_has_table_import(module)
                                        &&& spec_table_import_item(module).module_name
                                            == import_item.module_name
                                        &&& spec_table_import_item(module).item_name
                                            == import_item.item_name
                                        &&& spec_find_ast_module_from(
                                            named_ast_modules@,
                                            import_item.module_name@,
                                            0,
                                        ) matches Some(target) && exists|o: int, c: nat|
                                            spec_table_chain(named_ast_modules@, target, o, c)
                                                && spec_table_import_type(module)
                                                != spec_own_table_type(
                                                named_ast_modules@[o].module,
                                            )
                                    });
                            }
                            return Err(
                                EngineError::TypeMismatch(
                                    TypeMismatch::ImportedTableTypeMismatch(
                                        import_item.module_name.clone(),
                                        import_item.item_name.clone(),
                                    ),
                                ),
                            );
                        }
                        let ghost old_map = module_to_table_index_list@;
                        module_to_table_index_list.set(m, Some(resolved_index));
                        proof {
                            assert forall|j: int|
                                0 <= j < module_count implies spec_table_slot_ok(
                                named_ast_modules@,
                                instance_tables@,
                                module_to_table_index_list@,
                                j,
                            ) by {
                                assert(spec_table_slot_ok(
                                    named_ast_modules@,
                                    instance_tables@,
                                    old_map,
                                    j,
                                ));
                            }
                            assert forall|j: int|
                                0 <= j < module_to_table_index_list@.len() implies match #[trigger] module_to_table_index_list@[j] {
                                Option::None => true,
                                Some(index) => exists|origin: int, n: nat|
                                    spec_table_chain(named_ast_modules@, j, origin, n) && 0
                                        <= origin < module_to_table_index_list@.len()
                                        && module_to_table_index_list@[origin] == Some(index)
                                        && index < instance_tables@.len()
                                        && instance_tables@[index as int].spec_table_type()
                                        == spec_own_table_type(named_ast_modules@[origin].module),
                            } by {
                                match module_to_table_index_list@[j] {
                                    Option::None => {},
                                    Some(index) => {
                                        if j != m {
                                            let (origin, n) = choose|origin: int, n: nat|
                                                spec_table_chain(named_ast_modules@, j, origin, n)
                                                    && 0 <= origin < old_map.len()
                                                    && old_map[origin] == Some(index) && index
                                                    < instance_tables@.len()
                                                    && instance_tables@[index as int].spec_table_type()
                                                    == spec_own_table_type(
                                                    named_ast_modules@[origin].module,
                                                );
                                            assert(old_map[m as int] is None);
                                            assert(module_to_table_index_list@[origin] == Some(
                                                index,
                                            ));
                                            assert(spec_table_chain(
                                                named_ast_modules@,
                                                j,
                                                origin,
                                                n,
                                            ));
                                        } else {
                                            // the freshly resolved module: one
                                            // chain step to its target
                                            let (origin, n) = choose|origin: int, n: nat|
                                                spec_table_chain(
                                                    named_ast_modules@,
                                                    target_module_index as int,
                                                    origin,
                                                    n,
                                                ) && 0 <= origin < old_map.len()
                                                    && old_map[origin] == Some(resolved_index)
                                                    && resolved_index < instance_tables@.len()
                                                    && instance_tables@[resolved_index as int].spec_table_type()
                                                    == spec_own_table_type(
                                                    named_ast_modules@[origin].module,
                                                );
                                            assert(old_map[m as int] is None);
                                            assert(origin != m);
                                            assert(spec_table_chain(
                                                named_ast_modules@,
                                                m as int,
                                                origin,
                                                n + 1,
                                            ));
                                            assert(module_to_table_index_list@[origin] == Some(
                                                resolved_index,
                                            ));
                                        }
                                    },
                                }
                            }
                        }
                    },
                    None => {
                        // the target is itself unresolved; a later sweep
                        // will reach it
                        proof {
                            if spec_table_imports_one_step_ok(named_ast_modules@) {
                                assert(spec_table_slot_ok(
                                    named_ast_modules@,
                                    instance_tables@,
                                    module_to_table_index_list@,
                                    target_module_index as int,
                                ));
                                assert(false);
                            }
                        }
                    },
                }
            }
            m += 1;
        }
        round += 1;
    }
    // what is still unresolved now lies on a cycle of imports
    let mut m: usize = 0;
    while m < module_count
        invariant
            module_count == named_ast_modules@.len(),
            0 <= m <= module_count,
            module_to_table_index_list@.len() == module_count,
            spec_table_imports_one_step_ok(named_ast_modules@) ==> forall|j: int|
                0 <= j < module_count ==> (#[trigger] module_to_table_index_list@[j]) is Some,
            forall|j: int| 0 <= j < m ==> (#[trigger] module_to_table_index_list@[j]) is Some,
            spec_table_slots_chained(
                named_ast_modules@,
                instance_tables@,
                module_to_table_index_list@,
            ),
        decreases module_count - m,
    {
        if module_to_table_index_list[m].is_none() {
            proof {
                assert(!spec_table_imports_one_step_ok(named_ast_modules@));
            }
            return Err(EngineError::InvalidOperation(InvalidOperation::CyclicImport));
        }
        m += 1;
    }

    // every slot is now resolved
    let mut final_list: Vec<usize> = Vec::new();
    let mut j: usize = 0;
    while j < module_count
        invariant
            module_count == named_ast_modules@.len(),
            0 <= j <= module_count,
            final_list@.len() == j,
            module_to_table_index_list@.len() == module_count,
            forall|p: int|
                0 <= p < module_count ==> (#[trigger] module_to_table_index_list@[p]) is Some,
            forall|p: int|
                0 <= p < j ==> Some(#[trigger] final_list@[p]) == module_to_table_index_list@[p],
            spec_table_slots_chained(
                named_ast_modules@,
                instance_tables@,
                module_to_table_index_list@,
            ),
        decreases module_count - j,
    {
        match module_to_table_index_list[j] {
            Some(index) => {
                final_list.push(index);
            },
            None => {
                proof {
                    assert(false);
                }
                unreached()
            },
        }
        j += 1;
    }
    proof {
        assert(final_list@.map_values(|x: usize| Some(x)) =~= module_to_table_index_list@);
        assert forall|mm: int| 0 <= mm < module_count implies spec_table_slot_ok(
            named_ast_modules@,
            instance_tables@,
            final_list@.map_values(|x: usize| Some(x)),
            mm,
        ) && final_list@[mm] < instance_tables@.len() by {
            assert(spec_table_slot_ok(
                named_ast_modules@,
                instance_tables@,
                module_to_table_index_list@,
                mm,
            ));
        }
    }
    Ok((instance_tables, final_list))
}

/// The position at or after `i` of the module's first memory import.
pub open spec fn spec_find_memory_import_from(items: Seq<ast::ImportItem>, i: int) -> Option<int>
    decreases items.len() - i,
{
    if i < 0 || i >= items.len() {
        Option::None
    } else if items[i].import_descriptor matches ast::ImportDescriptor::MemoryType(_) {
        Some(i)
    } else {
        spec_find_memory_import_from(items, i + 1)
    }
}

pub open spec fn spec_module_has_memory_import(module: ast::Module) -> bool {
    spec_find_memory_import_from(module.import_items@, 0) is Some
}

/// The module's first memory import item.
pub open spec fn spec_memory_import_item(module: ast::Module) -> ast::ImportItem {
    module.import_items@[spec_find_memory_import_from(module.import_items@, 0).unwrap()]
}

/// The table type the module's memory import declares.
pub open spec fn spec_memory_import_type(module: ast::Module) -> ast::MemoryType {
    match spec_memory_import_item(module).import_descriptor {
        ast::ImportDescriptor::MemoryType(table_type) => table_type,
        _ => arbitrary(),
    }
}

/// The table a non-importing module gets: its own definition, or a
/// zero-capacity placeholder.
pub open spec fn spec_own_memory_type(module: ast::Module) -> ast::MemoryType {
    if module.memory_blocks@.len() > 0 {
        module.memory_blocks@[0]
    } else {
        ast::MemoryType { limit: ast::Limit { minimum: 0, maximum: Some(0) } }
    }
}

/// How many of the first `m` modules define their own memory instance.
pub open spec fn spec_memory_rank(asts: Seq<ast::NamedAstModule>, m: int) -> int
    decreases m,
{
    if m <= 0 {
        0
    } else {
        spec_memory_rank(asts, m - 1) + if spec_module_has_memory_import(asts[m - 1].module) {
            0int
        } else {
            1int
        }
    }
}

/// The table index named by the first export item of the given name with a
/// table descriptor, at or after `i`.
pub open spec fn spec_find_memory_export_from(
    items: Seq<ast::ExportItem>,
    name: Seq<char>,
    i: int,
) -> Option<u32>
    decreases items.len() - i,
{
    if i < 0 || i >= items.len() {
        Option::None
    } else if items[i].name@ == name && items[i].export_descriptor matches
        ast::ExportDescriptor::MemoryBlockIndex(_) {
        match items[i].export_descriptor {
            ast::ExportDescriptor::MemoryBlockIndex(memory_block_index) => Some(memory_block_index),
            _ => Option::None,
        }
    } else {
        spec_find_memory_export_from(items, name, i + 1)
    }
}

proof fn lemma_find_memory_import_in_range(items: Seq<ast::ImportItem>, i: int, j: int)
    requires
        spec_find_memory_import_from(items, i) == Some(j),
    ensures
        i <= j < items.len(),
        items[j].import_descriptor matches ast::ImportDescriptor::MemoryType(_),
    decreases items.len() - i,
{
    if 0 <= i < items.len() && !(items[i].import_descriptor matches
        ast::ImportDescriptor::MemoryType(_)) {
        lemma_find_memory_import_in_range(items, i + 1, j);
    }
}

/// The position of the module's first memory import.
fn find_memory_import(module: &ast::Module) -> (r: Option<usize>)
    ensures
        match r {
            Some(i) => spec_find_memory_import_from(module.import_items@, 0) == Some(i as int),
            None => spec_find_memory_import_from(module.import_items@, 0) is None,
        },
{
    let items = &module.import_items;
    let n = items.len();
    let mut i: usize = 0;
    while i < n
        invariant
            0 <= i <= n,
            n == items@.len(),
            items@ == module.import_items@,
            spec_find_memory_import_from(items@, 0) == spec_find_memory_import_from(
                items@,
                i as int,
            ),
        decreases n - i,
    {
        match &items[i].import_descriptor {
            ast::ImportDescriptor::MemoryType(_) => {
                return Some(i);
            },
            _ => {},
        }
        i += 1;
    }
    None
}

/// Looks a memory block up among a decoded module's exports by name.
fn find_memory_export(module: &ast::Module, name: &String) -> (r: Option<u32>)
    ensures
        r == spec_find_memory_export_from(module.export_items@, name@, 0),
{
    let items = &module.export_items;
    let n = items.len();
    let mut i: usize = 0;
    while i < n
        invariant
            0 <= i <= n,
            n == items@.len(),
            items@ == module.export_items@,
            spec_find_memory_export_from(items@, name@, 0) == spec_find_memory_export_from(
                items@,
                name@,
                i as int,
            ),
        decreases n - i,
    {
        let item = &items[i];
        if item.name == *name {
            match &item.export_descriptor {
                ast::ExportDescriptor::MemoryBlockIndex(memory_block_index) => {
                    return Some(*memory_block_index);
                },
                _ => {},
            }
        }
        i += 1;
    }
    None
}

/// Every memory import points directly at a module that keeps its own
/// memory, exporting it at index zero under the imported name, with the
/// very type the importer declares: the one-step case of resolution, in
/// which linking the memory blocks cannot fail when every declared size
/// fits the address space.
pub open spec fn spec_memory_imports_one_step_ok(asts: Seq<ast::NamedAstModule>) -> bool {
    forall|m: int|
        0 <= m < asts.len() && spec_module_has_memory_import((#[trigger] asts[m]).module) ==> {
            let item = spec_memory_import_item(asts[m].module);
            spec_find_ast_module_from(asts, item.module_name@, 0) matches Some(t) && {
                &&& !spec_module_has_memory_import(asts[t].module)
                &&& spec_find_memory_export_from(
                    asts[t].module.export_items@,
                    item.item_name@,
                    0,
                ) == Some(0u32)
                &&& spec_memory_import_type(asts[m].module) == spec_own_memory_type(
                    asts[t].module,
                )
            }
        }
}

/// Every declared memory fits the address space.
pub open spec fn spec_memory_sizes_ok(asts: Seq<ast::NamedAstModule>) -> bool {
    forall|m: int|
        0 <= m < asts.len() ==> ((#[trigger] asts[m]).module.memory_blocks@.len() > 0
            ==> asts[m].module.memory_blocks@[0].limit.minimum
            * crate::vm_memory::MEMORY_PAGE_SIZE <= usize::MAX)
}

/// A chain of `n` memory-import steps from module `m` down to module
/// `origin`, which keeps its own memory: each step follows the importer's
/// named target module, whose matching memory export must have index zero.
/// That such a chain exists rules out a cycle of memory imports through `m`.
pub open spec fn spec_memory_chain(
    asts: Seq<ast::NamedAstModule>,
    m: int,
    origin: int,
    n: nat,
) -> bool
    decreases n,
{
    if n == 0 {
        m == origin && 0 <= m < asts.len() && !spec_module_has_memory_import(asts[m].module)
    } else {
        &&& 0 <= m < asts.len()
        &&& spec_module_has_memory_import(asts[m].module)
        &&& {
            let item = spec_memory_import_item(asts[m].module);
            spec_find_ast_module_from(asts, item.module_name@, 0) matches Some(target) && {
                &&& spec_find_memory_export_from(
                    asts[target].module.export_items@,
                    item.item_name@,
                    0,
                ) == Some(0u32)
                &&& spec_memory_chain(asts, target, origin, (n - 1) as nat)
            }
        }
    }
}

/// Every resolved slot is justified by a finite chain of memory imports
/// ending at the module that defines the shared instance, whose type the
/// instance carries.
pub open spec fn spec_memory_slots_chained(
    asts: Seq<ast::NamedAstModule>,
    memories: Seq<crate::vm_memory::VMMemory>,
    map: Seq<Option<usize>>,
) -> bool {
    forall|j: int|
        0 <= j < map.len() ==> match #[trigger] map[j] {
            Option::None => true,
            Some(index) => exists|origin: int, n: nat|
                spec_memory_chain(asts, j, origin, n) && 0 <= origin < map.len() && map[origin]
                    == Some(index) && index < memories.len()
                    && memories[index as int].spec_memory_type() == spec_own_memory_type(
                    asts[origin].module,
                ),
        }
}

/// A module slot either still unresolved, or pointing at its memory
/// instance with the right type.
pub open spec fn spec_memory_slot_ok(
    asts: Seq<ast::NamedAstModule>,
    tables: Seq<crate::vm_memory::VMMemory>,
    map: Seq<Option<usize>>,
    m: int,
) -> bool {
    match map[m] {
        Option::None => spec_module_has_memory_import(asts[m].module),
        Some(index) => {
            &&& index < tables.len()
            &&& if spec_module_has_memory_import(asts[m].module) {
                let item = spec_memory_import_item(asts[m].module);
                &&& spec_find_ast_module_from(asts, item.module_name@, 0) matches Some(t)
                    && 0 <= t < map.len() && map[t] == Some(index)
                &&& spec_find_memory_export_from(
                    asts[spec_find_ast_module_from(asts, item.module_name@, 0).unwrap()].module.export_items@,
                    item.item_name@,
                    0,
                ) == Some(0u32)
                &&& tables[index as int].spec_memory_type() == spec_memory_import_type(
                    asts[m].module,
                )
            } else {
                &&& index == spec_memory_rank(asts, m)
                &&& tables[index as int].spec_memory_type() == spec_own_memory_type(asts[m].module)
            }
        },
    }
}

/// Links the modules' memory blocks: creates one instance per module that
/// defines or defaults its own memory, then points every memory-importing
/// module at the instance its import chain reaches, checking the declared
/// type at every step.
///
/// The returned pair is the list of memory instances and, for each module,
/// the index of its instance. A module that imports its memory shares the
/// very instance of the module it imports from; writes through one are
/// seen by all importers.
#[verifier::rlimit(100)]
pub fn link_memorys(named_ast_modules: &Vec<ast::NamedAstModule>) -> (r: Result<
    (Vec<crate::vm_memory::VMMemory>, Vec<usize>),
    EngineError,
>)
    ensures
        (spec_memory_imports_one_step_ok(named_ast_modules@) && spec_memory_sizes_ok(
            named_ast_modules@,
        )) ==> r is Ok,
        // each error kind comes only from its cause: a named module that
        // does not exist, a missing or multiple memory export, a size past
        // the address space, an instance whose type differs from the
        // importer's declaration, or a cycle
        r matches Err(e) ==> {
            ||| (e matches EngineError::ObjectNotFound(ObjectNotFound::ModuleNotFound(name))
                && exists|m: int|
                {
                    let module = (#[trigger] named_ast_modules@[m]).module;
                    &&& 0 <= m < named_ast_modules@.len()
                    &&& spec_module_has_memory_import(module)
                    &&& spec_memory_import_item(module).module_name == name
                    &&& spec_find_ast_module_from(named_ast_modules@, name@, 0) is None
                })
            ||| (e matches EngineError::ObjectNotFound(ObjectNotFound::MemoryBlockNotFound(
                target_name,
                item_name,
            )) && exists|m: int|
                {
                    let module = (#[trigger] named_ast_modules@[m]).module;
                    &&& 0 <= m < named_ast_modules@.len()
                    &&& spec_module_has_memory_import(module)
                    &&& spec_memory_import_item(module).module_name == target_name
                    &&& spec_memory_import_item(module).item_name == item_name
                    &&& spec_find_ast_module_from(named_ast_modules@, target_name@, 0)
                        matches Some(target) && spec_find_memory_export_from(
                        named_ast_modules@[target].module.export_items@,
                        item_name@,
                        0,
                    ) is None
                })
            ||| (e == EngineError::Unsupported(Unsupported::UnsupportedMultipleMemoryBlock)
                && exists|m: int|
                {
                    let module = (#[trigger] named_ast_modules@[m]).module;
                    let item = spec_memory_import_item(module);
                    &&& 0 <= m < named_ast_modules@.len()
                    &&& spec_module_has_memory_import(module)
                    &&& spec_find_ast_module_from(named_ast_modules@, item.module_name@, 0)
                        matches Some(target) && spec_find_memory_export_from(
                        named_ast_modules@[target].module.export_items@,
                        item.item_name@,
                        0,
                    ) matches Some(exported_index) && exported_index != 0
                })
            ||| (e == EngineError::Unsupported(Unsupported::UnsupportedMemorySize)
                && !spec_memory_sizes_ok(named_ast_modules@))
            ||| (e matches EngineError::TypeMismatch(TypeMismatch::ImportedMemoryBlockTypeMismatch(
                target_name,
                item_name,
            )) && exists|m: int|
                {
                    let module = (#[trigger] named_ast_modules@[m]).module;
                    &&& 0 <= m < named_ast_modules@.len()
                    &&& spec_module_has_memory_import(module)
                    &&& spec_memory_import_item(module).module_name == target_name
                    &&& spec_memory_import_item(module).item_name == item_name
                    &&& spec_find_ast_module_from(named_ast_modules@, target_name@, 0)
                        matches Some(target) && exists|origin: int, n: nat|
                        spec_memory_chain(named_ast_modules@, target, origin, n)
                            && spec_memory_import_type(module) != spec_own_memory_type(
                            named_ast_modules@[origin].module,
                        )
                })
            ||| (e == EngineError::InvalidOperation(InvalidOperation::CyclicImport)
                && !(spec_memory_imports_one_step_ok(named_ast_modules@) && spec_memory_sizes_ok(
                    named_ast_modules@,
                )))
        },
        // every resolved slot follows a finite chain of imports to the
        // module that defines its shared instance: a cycle of imports can
        // never be assigned
        r matches Ok(result) ==> spec_memory_slots_chained(
            named_ast_modules@,
            result.0@,
            result.1@.map_values(|x: usize| Some(x)),
        ),
        r matches Ok(result) ==> {
            &&& result.1@.len() == named_ast_modules@.len()
            &&& result.0@.len() == spec_memory_rank(named_ast_modules@, named_ast_modules@.len() as int)
            &&& forall|i: int|
                0 <= i < result.0@.len() ==> (#[trigger] result.0@[i])@.len()
                    == result.0@[i].spec_memory_type().limit.minimum
                    * crate::vm_memory::MEMORY_PAGE_SIZE && forall|e: int|
                    0 <= e < result.0@[i]@.len() ==> result.0@[i]@[e] == 0u8
            &&& forall|m: int|
                0 <= m < named_ast_modules@.len() ==> spec_memory_slot_ok(
                    named_ast_modules@,
                    result.0@,
                    result.1@.map_values(|x: usize| Some(x)),
                    m,
                ) && (#[trigger] result.1@[m]) < result.0@.len()
        },
{
    let module_count = named_ast_modules.len();
    let mut module_to_memory_block_index_list: Vec<Option<usize>> = Vec::new();
    let mut instance_memory_blocks: Vec<crate::vm_memory::VMMemory> = Vec::new();

    // create the table of every module that does not import one
    let mut m: usize = 0;
    while m < module_count
        invariant
            module_count == named_ast_modules@.len(),
            0 <= m <= module_count,
            module_to_memory_block_index_list@.len() == m,
            instance_memory_blocks@.len() == spec_memory_rank(named_ast_modules@, m as int),
            spec_memory_slots_chained(
                named_ast_modules@,
                instance_memory_blocks@,
                module_to_memory_block_index_list@,
            ),
            forall|j: int|
                0 <= j < m ==> spec_memory_slot_ok(
                    named_ast_modules@,
                    instance_memory_blocks@,
                    module_to_memory_block_index_list@,
                    j,
                ),
            forall|i: int|
                0 <= i < instance_memory_blocks@.len() ==> (#[trigger] instance_memory_blocks@[i])@.len()
                    == instance_memory_blocks@[i].spec_memory_type().limit.minimum
                    * crate::vm_memory::MEMORY_PAGE_SIZE && forall|e: int|
                    0 <= e < instance_memory_blocks@[i]@.len()
                        ==> instance_memory_blocks@[i]@[e] == 0u8,
        decreases module_count - m,
    {
        let ast_module = &named_ast_modules[m].module;
        let ghost old_map = module_to_memory_block_index_list@;
        let ghost old_tables = instance_memory_blocks@;
        match find_memory_import(ast_module) {
            Some(_) => {
                module_to_memory_block_index_list.push(None);
            },
            None => {
                let instance_memory = if ast_module.memory_blocks.len() > 0 {
                    let declared = ast_module.memory_blocks[0];
                    if (declared.limit.minimum as usize).checked_mul(
                        crate::vm_memory::MEMORY_PAGE_SIZE,
                    ).is_none() {
                        proof {
                            assert(!spec_memory_sizes_ok(named_ast_modules@));
                        }
                        return Err(
                            EngineError::Unsupported(Unsupported::UnsupportedMemorySize),
                        );
                    }
                    crate::vm_memory::VMMemory::new(declared)
                } else {
                    crate::vm_memory::VMMemory::new_by_page_range(0, 0)
                };
                let instance_memory_block_index = instance_memory_blocks.len();
                instance_memory_blocks.push(instance_memory);
                module_to_memory_block_index_list.push(Some(instance_memory_block_index));
            },
        }
        proof {
            assert forall|j: int| 0 <= j <= m implies spec_memory_slot_ok(
                named_ast_modules@,
                instance_memory_blocks@,
                module_to_memory_block_index_list@,
                j,
            ) by {
                if j < m {
                    assert(spec_memory_slot_ok(named_ast_modules@, old_tables, old_map, j));
                }
            }
            assert forall|j: int|
                0 <= j < module_to_memory_block_index_list@.len() implies match #[trigger] module_to_memory_block_index_list@[j] {
                Option::None => true,
                Some(index) => exists|origin: int, n: nat|
                    spec_memory_chain(named_ast_modules@, j, origin, n) && 0 <= origin
                        < module_to_memory_block_index_list@.len()
                        && module_to_memory_block_index_list@[origin] == Some(index) && index
                        < instance_memory_blocks@.len()
                        && instance_memory_blocks@[index as int].spec_memory_type()
                        == spec_own_memory_type(named_ast_modules@[origin].module),
            } by {
                if j < m {
                    match old_map[j] {
                        Option::None => {},
                        Some(index) => {
                            let (origin, n) = choose|origin: int, n: nat|
                                spec_memory_chain(named_ast_modules@, j, origin, n) && 0 <= origin
                                    < old_map.len() && old_map[origin] == Some(index) && index
                                    < old_tables.len()
                                    && old_tables[index as int].spec_memory_type()
                                    == spec_own_memory_type(named_ast_modules@[origin].module);
                            assert(spec_memory_chain(named_ast_modules@, j, origin, n)
                                && 0 <= origin < module_to_memory_block_index_list@.len()
                                && module_to_memory_block_index_list@[origin] == Some(index)
                                && index < instance_memory_blocks@.len()
                                && instance_memory_blocks@[index as int].spec_memory_type()
                                == spec_own_memory_type(named_ast_modules@[origin].module));
                        },
                    }
                } else {
                    match module_to_memory_block_index_list@[j] {
                        Option::None => {},
                        Some(index) => {
                            assert(spec_memory_chain(named_ast_modules@, j, j, 0));
                            assert(spec_memory_chain(named_ast_modules@, j, j, 0)
                                && 0 <= j < module_to_memory_block_index_list@.len()
                                && module_to_memory_block_index_list@[j] == Some(index)
                                && index < instance_memory_blocks@.len()
                                && instance_memory_blocks@[index as int].spec_memory_type()
                                == spec_own_memory_type(named_ast_modules@[j].module));
                        },
                    }
                }
            }
        }
        m += 1;
    }

    // resolve the memory imports: each sweep resolves every module whose
    // import target is already resolved, so any chain of re-exports is
    // finished after at most one sweep per module; what is left then is a
    // cycle
    let mut round: usize = 0;
    while round < module_count
        invariant
            module_count == named_ast_modules@.len(),
            0 <= round <= module_count,
            (spec_memory_imports_one_step_ok(named_ast_modules@) && spec_memory_sizes_ok(named_ast_modules@) && round >= 1) ==> forall|j: int|
                0 <= j < module_count ==> (#[trigger] module_to_memory_block_index_list@[j]) is Some,
            module_to_memory_block_index_list@.len() == module_count,
            instance_memory_blocks@.len() == spec_memory_rank(named_ast_modules@, module_count as int),
            spec_memory_slots_chained(
                named_ast_modules@,
                instance_memory_blocks@,
                module_to_memory_block_index_list@,
            ),
            forall|j: int|
                0 <= j < module_count ==> spec_memory_slot_ok(
                    named_ast_modules@,
                    instance_memory_blocks@,
                    module_to_memory_block_index_list@,
                    j,
                ),
            forall|i: int|
                0 <= i < instance_memory_blocks@.len() ==> (#[trigger] instance_memory_blocks@[i])@.len()
                    == instance_memory_blocks@[i].spec_memory_type().limit.minimum
                    * crate::vm_memory::MEMORY_PAGE_SIZE && forall|e: int|
                    0 <= e < instance_memory_blocks@[i]@.len()
                        ==> instance_memory_blocks@[i]@[e] == 0u8,
        decreases module_count - round,
    {
        let mut m: usize = 0;
        while m < module_count
            invariant
                module_count == named_ast_modules@.len(),
                0 <= m <= module_count,
                (spec_memory_imports_one_step_ok(named_ast_modules@) && spec_memory_sizes_ok(named_ast_modules@)) ==> forall|j: int|
                    0 <= j < m ==> (#[trigger] module_to_memory_block_index_list@[j]) is Some,
                module_to_memory_block_index_list@.len() == module_count,
                instance_memory_blocks@.len() == spec_memory_rank(named_ast_modules@, module_count as int),
                spec_memory_slots_chained(
                    named_ast_modules@,
                    instance_memory_blocks@,
                    module_to_memory_block_index_list@,
                ),
                forall|j: int|
                    0 <= j < module_count ==> spec_memory_slot_ok(
                        named_ast_modules@,
                        instance_memory_blocks@,
                        module_to_memory_block_index_list@,
                        j,
                    ),
                forall|i: int|
                    0 <= i < instance_memory_blocks@.len() ==> (#[trigger] instance_memory_blocks@[i])@.len()
                        == instance_memory_blocks@[i].spec_memory_type().limit.minimum
                        * crate::vm_memory::MEMORY_PAGE_SIZE && forall|e: int|
                        0 <= e < instance_memory_blocks@[i]@.len()
                            ==> instance_memory_blocks@[i]@[e] == 0u8,
            decreases module_count - m,
        {
            if module_to_memory_block_index_list[m].is_none() {
                proof {
                    assert(spec_memory_slot_ok(
                        named_ast_modules@,
                        instance_memory_blocks@,
                        module_to_memory_block_index_list@,
                        m as int,
                    ));
                }
                let importer_module = &named_ast_modules[m].module;
                let import_position = match find_memory_import(importer_module) {
                    Some(position) => position,
                    None => {
                        proof {
                            assert(false);
                        }
                        unreached()
                    },
                };
                proof {
                    lemma_find_memory_import_in_range(
                        importer_module.import_items@,
                        0,
                        import_position as int,
                    );
                }
                let import_item = &importer_module.import_items[import_position];
                proof {
                    assert(*import_item == spec_memory_import_item(
                        named_ast_modules@[m as int].module,
                    ));
                }
                let target_module_index = match find_ast_module_index_by_name(
                    named_ast_modules,
                    &import_item.module_name,
                ) {
                    Some(index) => index,
                    None => {
                        proof {
                            assert(!spec_memory_imports_one_step_ok(named_ast_modules@));
                            assert(exists|j: int|
                                {
                                    let module = (#[trigger] named_ast_modules@[j]).module;
                                    &&& 0 <= j < named_ast_modules@.len()
                                    &&& spec_module_has_memory_import(module)
                                    &&& spec_memory_import_item(module).module_name
                                        == import_item.module_name
                                    &&& spec_find_ast_module_from(
                                        named_ast_modules@,
                                        import_item.module_name@,
                                        0,
                                    ) is None
                                });
                        }
                        return Err(
                            EngineError::ObjectNotFound(
                                ObjectNotFound::ModuleNotFound(import_item.module_name.clone()),
                            ),
                        );
                    },
                };
                proof {
                    lemma_find_ast_module_in_range(
                        named_ast_modules@,
                        import_item.module_name@,
                        0,
                        target_module_index as int,
                    );
                }
                let target_module = &named_ast_modules[target_module_index].module;
                let target_memory_block_index = match find_memory_export(
                    target_module,
                    &import_item.item_name,
                ) {
                    Some(index) => index,
                    None => {
                        proof {
                            assert(!spec_memory_imports_one_step_ok(named_ast_modules@));
                            assert(exists|j: int|
                                {
                                    let module = (#[trigger] named_ast_modules@[j]).module;
                                    &&& 0 <= j < named_ast_modules@.len()
                                    &&& spec_module_has_memory_import(module)
                                    &&& spec_memory_import_item(module).module_name
                                        == import_item.module_name
                                    &&& spec_memory_import_item(module).item_name
                                        == import_item.item_name
                                    &&& spec_find_ast_module_from(
                                        named_ast_modules@,
                                        import_item.module_name@,
                                        0,
                                    ) matches Some(target) && spec_find_memory_export_from(
                                        named_ast_modules@[target].module.export_items@,
                                        import_item.item_name@,
                                        0,
                                    ) is None
                                });
                        }
                        return Err(
                            EngineError::ObjectNotFound(
                                ObjectNotFound::MemoryBlockNotFound(
                                    import_item.module_name.clone(),
                                    import_item.item_name.clone(),
                                ),
                            ),
                        );
                    },
                };
                if target_memory_block_index != 0 {
                    proof {
                        assert(!spec_memory_imports_one_step_ok(named_ast_modules@));
                        assert(exists|j: int|
                            {
                                let module = (#[trigger] named_ast_modules@[j]).module;
                                let item = spec_memory_import_item(module);
                                &&& 0 <= j < named_ast_modules@.len()
                                &&& spec_module_has_memory_import(module)
                                &&& spec_find_ast_module_from(named_ast_modules@, item.module_name@, 0)
                                    matches Some(target) && spec_find_memory_export_from(
                                    named_ast_modules@[target].module.export_items@,
                                    item.item_name@,
                                    0,
                                ) matches Some(exported_index) && exported_index != 0
                            });
                    }
                    return Err(EngineError::Unsupported(Unsupported::UnsupportedMultipleMemoryBlock));
                }
                match module_to_memory_block_index_list[target_module_index] {
                    Some(resolved_index) => {
                        proof {
                            assert(spec_memory_slot_ok(
                                named_ast_modules@,
                                instance_memory_blocks@,
                                module_to_memory_block_index_list@,
                                target_module_index as int,
                            ));
                        }
                        let declared_memory_type = match &import_item.import_descriptor {
                            ast::ImportDescriptor::MemoryType(table_type) => *table_type,
                            _ => {
                                proof {
                                    assert(false);
                                }
                                unreached()
                            },
                        };
                        if instance_memory_blocks[resolved_index].get_memory_type()
                            != declared_memory_type {
                            proof {
                                if spec_memory_imports_one_step_ok(named_ast_modules@) {
                                    assert(spec_memory_slot_ok(
                                        named_ast_modules@,
                                        instance_memory_blocks@,
                                        module_to_memory_block_index_list@,
                                        target_module_index as int,
                                    ));
                                    assert(declared_memory_type == spec_own_memory_type(
                                        named_ast_modules@[target_module_index as int].module,
                                    ));
                                    assert(false);
                                }
                            }
                            proof {
                                let map = module_to_memory_block_index_list@;
                                assert(map[target_module_index as int] == Some(resolved_index));
                                let (origin, n) = choose|origin: int, n: nat|
                                    spec_memory_chain(
                                        named_ast_modules@,
                                        target_module_index as int,
                                        origin,
                                        n,
                                    ) && 0 <= origin < map.len() && map[origin] == Some(
                                        resolved_index,
                                    ) && resolved_index < instance_memory_blocks@.len()
                                        && instance_memory_blocks@[resolved_index as int].spec_memory_type()
                                        == spec_own_memory_type(named_ast_modules@[origin].module);
                                assert(spec_memory_import_type(
                                    named_ast_modules@[m as int].module,
                                ) != spec_own_memory_type(named_ast_modules@[origin].module));
                                assert(exists|j: int|
                                    {
                                        let module = (#[trigger] named_ast_modules@[j]).module;
                                        &&& 0 <= j < named_ast_modules@.len()
                                        &&& spec_module_has_memory_import(module)
                                        &&& spec_memory_import_item(module).module_name
                                            == import_item.module_name
                                        &&& spec_memory_import_item(module).item_name
                                            == import_item.item_name
                                        &&& spec_find_ast_module_from(
                                            named_ast_modules@,
                                            import_item.module_name@,
                                            0,
                                        ) matches Some(target) && exists|o: int, c: nat|
                                            spec_memory_chain(named_ast_modules@, target, o, c)
                                                && spec_memory_import_type(module)
                                                != spec_own_memory_type(
                                                named_ast_modules@[o].module,
                                            )
                                    });
                            }
                            return Err(
                                EngineError::TypeMismatch(
                                    TypeMismatch::ImportedMemoryBlockTypeMismatch(
                                        import_item.module_name.clone(),
                                        import_item.item_name.clone(),
                                    ),
                                ),
                            );
                        }
                        let ghost old_map = module_to_memory_block_index_list@;
                        module_to_memory_block_index_list.set(m, Some(resolved_index));
                        proof {
                            assert forall|j: int|
                                0 <= j < module_count implies spec_memory_slot_ok(
                                named_ast_modules@,
                                instance_memory_blocks@,
                                module_to_memory_block_index_list@,
                                j,
                            ) by {
                                assert(spec_memory_slot_ok(
                                    named_ast_modules@,
                                    instance_memory_blocks@,
                                    old_map,
                                    j,
                                ));
                            }
                            assert forall|j: int|
                                0 <= j < module_to_memory_block_index_list@.len() implies match #[trigger] module_to_memory_block_index_list@[j] {
                                Option::None => true,
                                Some(index) => exists|origin: int, n: nat|
                                    spec_memory_chain(named_ast_modules@, j, origin, n) && 0
                                        <= origin < module_to_memory_block_index_list@.len()
                                        && module_to_memory_block_index_list@[origin] == Some(index)
                                        && index < instance_memory_blocks@.len()
                                        && instance_memory_blocks@[index as int].spec_memory_type()
                                        == spec_own_memory_type(named_ast_modules@[origin].module),
                            } by {
                                match module_to_memory_block_index_list@[j] {
                                    Option::None => {},
                                    Some(index) => {
                                        if j != m {
                                            let (origin, n) = choose|origin: int, n: nat|
                                                spec_memory_chain(named_ast_modules@, j, origin, n)
                                                    && 0 <= origin < old_map.len()
                                                    && old_map[origin] == Some(index) && index
                                                    < instance_memory_blocks@.len()
                                                    && instance_memory_blocks@[index as int].spec_memory_type()
                                                    == spec_own_memory_type(
                                                    named_ast_modules@[origin].module,
                                                );
                                            assert(old_map[m as int] is None);
                                            assert(module_to_memory_block_index_list@[origin]
                                                == Some(index));
                                            assert(spec_memory_chain(
                                                named_ast_modules@,
                                                j,
                                                origin,
                                                n,
                                            ));
                                        } else {
                                            // the freshly resolved module: one
                                            // chain step to its target
                                            let (origin, n) = choose|origin: int, n: nat|
                                                spec_memory_chain(
                                                    named_ast_modules@,
                                                    target_module_index as int,
                                                    origin,
                                                    n,
                                                ) && 0 <= origin < old_map.len()
                                                    && old_map[origin] == Some(resolved_index)
                                                    && resolved_index
                                                    < instance_memory_blocks@.len()
                                                    && instance_memory_blocks@[resolved_index as int].spec_memory_type()
                                                    == spec_own_memory_type(
                                                    named_ast_modules@[origin].module,
                                                );
                                            assert(old_map[m as int] is None);
                                            assert(origin != m);
                                            assert(spec_memory_chain(
                                                named_ast_modules@,
                                                m as int,
                                                origin,
                                                n + 1,
                                            ));
                                            assert(module_to_memory_block_index_list@[origin]
                                                == Some(resolved_index));
                                        }
                                    },
                                }
                            }
                        }
                    },
                    None => {
                        // the target is itself unresolved; a later sweep
                        // will reach it
                        proof {
                            if spec_memory_imports_one_step_ok(named_ast_modules@) {
                                assert(spec_memory_slot_ok(
                                    named_ast_modules@,
                                    instance_memory_blocks@,
                                    module_to_memory_block_index_list@,
                                    target_module_index as int,
                                ));
                                assert(false);
                            }
                        }
                    },
                }
            }
            m += 1;
        }
        round += 1;
    }
    // what is still unresolved now lies on a cycle of imports
    let mut m: usize = 0;
    while m < module_count
        invariant
            module_count == named_ast_modules@.len(),
            0 <= m <= module_count,
            module_to_memory_block_index_list@.len() == module_count,
            (spec_memory_imports_one_step_ok(named_ast_modules@) && spec_memory_sizes_ok(named_ast_modules@)) ==> forall|j: int|
                0 <= j < module_count ==> (#[trigger] module_to_memory_block_index_list@[j]) is Some,
            forall|j: int| 0 <= j < m ==> (#[trigger] module_to_memory_block_index_list@[j]) is Some,
            spec_memory_slots_chained(
                named_ast_modules@,
                instance_memory_blocks@,
                module_to_memory_block_index_list@,
            ),
        decreases module_count - m,
    {
        if module_to_memory_block_index_list[m].is_none() {
            proof {
                assert(!(spec_memory_imports_one_step_ok(named_ast_modules@) && spec_memory_sizes_ok(named_ast_modules@)));
            }
            return Err(EngineError::InvalidOperation(InvalidOperation::CyclicImport));
        }
        m += 1;
    }

    // every slot is now resolved
    let mut final_list: Vec<usize> = Vec::new();
    let mut j: usize = 0;
    while j < module_count
        invariant
            module_count == named_ast_modules@.len(),
            0 <= j <= module_count,
            final_list@.len() == j,
            module_to_memory_block_index_list@.len() == module_count,
            forall|p: int|
                0 <= p < module_count ==> (#[trigger] module_to_memory_block_index_list@[p]) is Some,
            forall|p: int|
                0 <= p < j ==> Some(#[trigger] final_list@[p]) == module_to_memory_block_index_list@[p],
            spec_memory_slots_chained(
                named_ast_modules@,
                instance_memory_blocks@,
                module_to_memory_block_index_list@,
            ),
        decreases module_count - j,
    {
        match module_to_memory_block_index_list[j] {
            Some(index) => {
                final_list.push(index);
            },
            None => {
                proof {
                    assert(false);
                }
                unreached()
            },
        }
        j += 1;
    }
    proof {
        assert(final_list@.map_values(|x: usize| Some(x))
            =~= module_to_memory_block_index_list@);
        assert forall|mm: int| 0 <= mm < module_count implies spec_memory_slot_ok(
            named_ast_modules@,
            instance_memory_blocks@,
            final_list@.map_values(|x: usize| Some(x)),
            mm,
        ) && final_list@[mm] < instance_memory_blocks@.len() by {
            assert(spec_memory_slot_ok(
                named_ast_modules@,
                instance_memory_blocks@,
                module_to_memory_block_index_list@,
                mm,
            ));
            assert(final_list@.map_values(|x: usize| Some(x)) =~= module_to_memory_block_index_list@);
        }
    }
    Ok((instance_memory_blocks, final_list))
}


/// The position at or after `i` of the `n`-th import item with a global
/// descriptor.
pub open spec fn spec_find_nth_global_import_from(
    items: Seq<ast::ImportItem>,
    n: int,
    i: int,
) -> Option<int>
    decreases items.len() - i,
{
    if i < 0 || i >= items.len() {
        Option::None
    } else if items[i].import_descriptor matches ast::ImportDescriptor::GlobalType(_) {
        if n == 0 {
            Some(i)
        } else {
            spec_find_nth_global_import_from(items, n - 1, i + 1)
        }
    } else {
        spec_find_nth_global_import_from(items, n, i + 1)
    }
}

/// How many import items with a global descriptor lie before position `i`.
pub open spec fn spec_global_import_count(items: Seq<ast::ImportItem>, i: int) -> int
    decreases i,
{
    if i <= 0 {
        0
    } else {
        spec_global_import_count(items, i - 1) + if items[i - 1].import_descriptor matches
            ast::ImportDescriptor::GlobalType(_) {
            1int
        } else {
            0int
        }
    }
}

/// The global-item index named by the first export item of the given name
/// with a global descriptor, at or after `i`.
pub open spec fn spec_find_global_export_from(
    items: Seq<ast::ExportItem>,
    name: Seq<char>,
    i: int,
) -> Option<u32>
    decreases items.len() - i,
{
    if i < 0 || i >= items.len() {
        Option::None
    } else if items[i].name@ == name && items[i].export_descriptor matches
        ast::ExportDescriptor::GlobalItemIndex(_) {
        match items[i].export_descriptor {
            ast::ExportDescriptor::GlobalItemIndex(global_index) => Some(global_index),
            _ => Option::None,
        }
    } else {
        spec_find_global_export_from(items, name, i + 1)
    }
}

/// The declared type of a global import item.
pub open spec fn spec_global_import_type(item: ast::ImportItem) -> ast::GlobalType {
    match item.import_descriptor {
        ast::ImportDescriptor::GlobalType(global_type) => global_type,
        _ => arbitrary(),
    }
}

/// One global slot of a module: unresolved only while it is an import;
/// once resolved it points at a well-formed instance of the right type.
pub open spec fn spec_global_slot_ok(
    asts: Seq<ast::NamedAstModule>,
    globals: Seq<crate::vm_global_variable::VMGlobalVariable>,
    maps: Seq<Vec<Option<usize>>>,
    m: int,
    f: int,
) -> bool {
    let module = asts[m].module;
    let ic = spec_global_import_count(module.import_items@, module.import_items@.len() as int);
    match maps[m]@[f] {
        Option::None => f < ic,
        Some(index) => {
            &&& index < globals.len()
            &&& globals[index as int].wf()
            &&& if f < ic {
                let item = module.import_items@[spec_find_nth_global_import_from(
                    module.import_items@,
                    f,
                    0,
                ).unwrap()];
                &&& spec_find_nth_global_import_from(module.import_items@, f, 0) is Some
                &&& spec_find_ast_module_from(asts, item.module_name@, 0) matches Some(t) && {
                    &&& (spec_find_global_export_from(
                        asts[t].module.export_items@,
                        item.item_name@,
                        0,
                    ) matches Some(g) && 0 <= t < maps.len() && g < maps[t]@.len()
                        && maps[t]@[g as int] == Some(index))
                }
                &&& globals[index as int].spec_global_type() == spec_global_import_type(item)
            } else {
                let k = f - ic;
                let global_item = module.global_items@[k];
                &&& k < module.global_items@.len()
                &&& globals[index as int].spec_global_type() == global_item.global_type
                &&& match crate::decoder::spec_decode_constant_expression(
                    global_item.initialize_instruction_items@,
                ) {
                    Some(crate::decoder::ConstantExpression::I32Const(v)) => globals[index as int].spec_value() == Value::I32(v),
                    Some(crate::decoder::ConstantExpression::I64Const(v)) => globals[index as int].spec_value() == Value::I64(v),
                    Some(crate::decoder::ConstantExpression::F32Const(v)) => globals[index as int].spec_value() == Value::F32(v),
                    Some(crate::decoder::ConstantExpression::F64Const(v)) => globals[index as int].spec_value() == Value::F64(v),
                    _ => true,
                }
            }
        },
    }
}

/// Every internal global of the first `m` modules has an initialiser
/// inside the decodable constant-expression subset.
pub open spec fn spec_global_initialisers_decodable(asts: Seq<ast::NamedAstModule>, m: int) -> bool {
    forall|j: int, k: int|
        #![trigger asts[j].module.global_items@[k]]
        0 <= j < m && 0 <= k < asts[j].module.global_items@.len()
            ==> crate::decoder::spec_decode_constant_expression(
            asts[j].module.global_items@[k].initialize_instruction_items@,
        ) is Some
}

/// No module imports a global variable.
pub open spec fn spec_no_global_imports(asts: Seq<ast::NamedAstModule>) -> bool {
    forall|m: int|
        0 <= m < asts.len() ==> spec_global_import_count(
            (#[trigger] asts[m]).module.import_items@,
            asts[m].module.import_items@.len() as int,
        ) == 0
}

/// Every global initialiser is a plain constant of its declared type: the
/// case in which evaluating the initialisers cannot fail.
pub open spec fn spec_global_initialisers_const_ok(asts: Seq<ast::NamedAstModule>) -> bool {
    forall|m: int, k: int|
        #![trigger asts[m].module.global_items@[k]]
        0 <= m < asts.len() && 0 <= k < asts[m].module.global_items@.len() ==> {
            let item = asts[m].module.global_items@[k];
            match crate::decoder::spec_decode_constant_expression(
                item.initialize_instruction_items@,
            ) {
                Some(crate::decoder::ConstantExpression::I32Const(_)) => item.global_type.value_type
                    == ValueType::I32,
                Some(crate::decoder::ConstantExpression::I64Const(_)) => item.global_type.value_type
                    == ValueType::I64,
                Some(crate::decoder::ConstantExpression::F32Const(_)) => item.global_type.value_type
                    == ValueType::F32,
                Some(crate::decoder::ConstantExpression::F64Const(_)) => item.global_type.value_type
                    == ValueType::F64,
                _ => false,
            }
        }
}

/// A fully resolved global slot: the instance index is in range, the
/// instance is well formed, an internal slot carries the declared type and
/// (for a plain constant initialiser) the constant's value, and an
/// imported slot shares the very instance of the export it names, with an
/// equal declared type.
pub open spec fn spec_resolved_global_slot_ok(
    asts: Seq<ast::NamedAstModule>,
    globals: Seq<crate::vm_global_variable::VMGlobalVariable>,
    rows: Seq<Vec<usize>>,
    m: int,
    f: int,
) -> bool {
    let module = asts[m].module;
    let ic = spec_global_import_count(module.import_items@, module.import_items@.len() as int);
    let index = rows[m]@[f];
    &&& index < globals.len()
    &&& globals[index as int].wf()
    &&& if f < ic {
        let item = module.import_items@[spec_find_nth_global_import_from(
            module.import_items@,
            f,
            0,
        ).unwrap()];
        &&& spec_find_nth_global_import_from(module.import_items@, f, 0) is Some
        &&& spec_find_ast_module_from(asts, item.module_name@, 0) matches Some(t) && {
            &&& (spec_find_global_export_from(
                asts[t].module.export_items@,
                item.item_name@,
                0,
            ) matches Some(g) && 0 <= t < rows.len() && g < rows[t]@.len() && rows[t]@[g as int]
                == index)
        }
        &&& globals[index as int].spec_global_type() == spec_global_import_type(item)
    } else {
        let k = f - ic;
        let global_item = module.global_items@[k];
        &&& k < module.global_items@.len()
        &&& globals[index as int].spec_global_type() == global_item.global_type
        &&& match crate::decoder::spec_decode_constant_expression(
            global_item.initialize_instruction_items@,
        ) {
            Some(crate::decoder::ConstantExpression::I32Const(v)) => globals[index as int].spec_value() == Value::I32(v),
            Some(crate::decoder::ConstantExpression::I64Const(v)) => globals[index as int].spec_value() == Value::I64(v),
            Some(crate::decoder::ConstantExpression::F32Const(v)) => globals[index as int].spec_value() == Value::F32(v),
            Some(crate::decoder::ConstantExpression::F64Const(v)) => globals[index as int].spec_value() == Value::F64(v),
            _ => true,
        }
    }
}

proof fn lemma_nth_global_import_exists(items: Seq<ast::ImportItem>, n: int, i: int)
    requires
        0 <= i <= items.len(),
        0 <= n,
    ensures
        spec_find_nth_global_import_from(items, n, i) is Some <==> n < spec_global_import_count(
            items,
            items.len() as int,
        ) - spec_global_import_count(items, i),
    decreases items.len() - i,
{
    if i < items.len() {
        lemma_count_global_imports_step(items, i + 1, items.len() as int);
        if items[i].import_descriptor matches ast::ImportDescriptor::GlobalType(_) {
            if n > 0 {
                lemma_nth_global_import_exists(items, n - 1, i + 1);
            } else {
                lemma_nth_global_import_exists(items, n, i + 1);
            }
        } else {
            lemma_nth_global_import_exists(items, n, i + 1);
        }
    }
}

proof fn lemma_count_global_imports_step(items: Seq<ast::ImportItem>, i: int, j: int)
    requires
        0 <= i <= j <= items.len(),
    ensures
        spec_global_import_count(items, i) <= spec_global_import_count(items, j),
    decreases j - i,
{
    if i < j {
        lemma_count_global_imports_step(items, i, j - 1);
    }
}

/// The position of the `n`-th global import of a module.
fn find_nth_global_import(module: &ast::Module, n: usize) -> (r: Option<usize>)
    ensures
        match r {
            Some(i) => spec_find_nth_global_import_from(module.import_items@, n as int, 0)
                == Some(i as int) && i < module.import_items@.len()
                && module.import_items@[i as int].import_descriptor matches
                ast::ImportDescriptor::GlobalType(_),
            None => spec_find_nth_global_import_from(module.import_items@, n as int, 0) is None,
        },
{
    let items = &module.import_items;
    let count = items.len();
    let mut remaining = n;
    let mut i: usize = 0;
    while i < count
        invariant
            0 <= i <= count,
            count == items@.len(),
            items@ == module.import_items@,
            remaining <= n,
            spec_find_nth_global_import_from(items@, n as int, 0)
                == spec_find_nth_global_import_from(items@, remaining as int, i as int),
        decreases count - i,
    {
        match &items[i].import_descriptor {
            ast::ImportDescriptor::GlobalType(_) => {
                if remaining == 0 {
                    return Some(i);
                }
                remaining -= 1;
            },
            _ => {},
        }
        i += 1;
    }
    None
}

/// How many global imports a module declares.
fn count_global_imports(module: &ast::Module) -> (r: usize)
    ensures
        r == spec_global_import_count(module.import_items@, module.import_items@.len() as int),
{
    let items = &module.import_items;
    let count = items.len();
    let mut total: usize = 0;
    let mut i: usize = 0;
    while i < count
        invariant
            0 <= i <= count,
            count == items@.len(),
            items@ == module.import_items@,
            total == spec_global_import_count(items@, i as int),
            total <= i,
        decreases count - i,
    {
        match &items[i].import_descriptor {
            ast::ImportDescriptor::GlobalType(_) => {
                total += 1;
            },
            _ => {},
        }
        i += 1;
    }
    total
}

/// Looks a global variable up among a decoded module's exports by name.
fn find_global_export(module: &ast::Module, name: &String) -> (r: Option<u32>)
    ensures
        r == spec_find_global_export_from(module.export_items@, name@, 0),
{
    let items = &module.export_items;
    let n = items.len();
    let mut i: usize = 0;
    while i < n
        invariant
            0 <= i <= n,
            n == items@.len(),
            items@ == module.export_items@,
            spec_find_global_export_from(items@, name@, 0) == spec_find_global_export_from(
                items@,
                name@,
                i as int,
            ),
        decreases n - i,
    {
        let item = &items[i];
        if item.name == *name {
            match &item.export_descriptor {
                ast::ExportDescriptor::GlobalItemIndex(global_index) => {
                    return Some(*global_index);
                },
                _ => {},
            }
        }
        i += 1;
    }
    None
}

/// Links the modules' global variables: evaluates every internally-defined
/// global's constant-expression initialiser and checks its type, then
/// points every global-importing slot at the instance its chain of
/// re-exports reaches, checking the declared type and mutability.
///
/// The returned pair is the list of global instances and, for each module,
/// the instance index of each of its globals (imports first, then its own,
/// in declaration order). An imported global is aliased, not copied.
#[verifier::rlimit(100)]
pub fn link_global_variables(named_ast_modules: &Vec<ast::NamedAstModule>) -> (r: Result<
    (Vec<crate::vm_global_variable::VMGlobalVariable>, Vec<Vec<usize>>),
    EngineError,
>)
    ensures
        (spec_no_global_imports(named_ast_modules@) && spec_global_initialisers_const_ok(
            named_ast_modules@,
        )) ==> r is Ok,
        r matches Err(e) ==> {
            ||| e matches EngineError::ObjectNotFound(ObjectNotFound::ModuleNotFound(_))
            ||| e matches EngineError::ObjectNotFound(
                ObjectNotFound::GlobalVariableNotFound(_, _),
            )
            ||| e matches EngineError::TypeMismatch(
                TypeMismatch::ImportedGlobalVariableTypeMismatch(_, _),
            )
            ||| e matches EngineError::TypeMismatch(
                TypeMismatch::ConstantExpressionValueTypeMismatch(_, _),
            )
            ||| e == EngineError::InvalidOperation(InvalidOperation::InvalidConstantExpression)
            ||| e == EngineError::InvalidOperation(InvalidOperation::InvalidGlobalVariableIndex)
            ||| e == EngineError::InvalidOperation(InvalidOperation::CyclicImport)
        },
        // an initialiser outside the constant-expression subset forces an
        // error: a loaded engine holds only globals whose initialisers
        // decode
        r is Ok ==> spec_global_initialisers_decodable(
            named_ast_modules@,
            named_ast_modules@.len() as int,
        ),
        r matches Ok(result) ==> {
            &&& result.1@.len() == named_ast_modules@.len()
            &&& forall|m: int|
                0 <= m < named_ast_modules@.len() ==> {
                    let module = named_ast_modules@[m].module;
                    (#[trigger] result.1@[m])@.len() == spec_global_import_count(
                        module.import_items@,
                        module.import_items@.len() as int,
                    ) + module.global_items@.len()
                }
            &&& forall|m: int, f: int|
                0 <= m < named_ast_modules@.len() && 0 <= f < result.1@[m]@.len()
                    ==> #[trigger] spec_resolved_global_slot_ok(
                    named_ast_modules@,
                    result.0@,
                    result.1@,
                    m,
                    f,
                )
        },
{
    let module_count = named_ast_modules.len();
    let mut module_to_global_variables_list: Vec<Vec<Option<usize>>> = Vec::new();
    let mut instance_global_variables: Vec<crate::vm_global_variable::VMGlobalVariable> =
        Vec::new();
    let mut total_slots: usize = 0;

    let mut m: usize = 0;
    while m < module_count
        invariant
            module_count == named_ast_modules@.len(),
            0 <= m <= module_count,
            module_to_global_variables_list@.len() == m,
            spec_global_initialisers_decodable(named_ast_modules@, m as int),
            forall|j: int|
                0 <= j < m ==> {
                    let module = named_ast_modules@[j].module;
                    (#[trigger] module_to_global_variables_list@[j])@.len()
                        == spec_global_import_count(
                        module.import_items@,
                        module.import_items@.len() as int,
                    ) + module.global_items@.len()
                },
            forall|j: int, f: int|
                0 <= j < m && 0 <= f < module_to_global_variables_list@[j]@.len()
                    ==> #[trigger] spec_global_slot_ok(
                    named_ast_modules@,
                    instance_global_variables@,
                    module_to_global_variables_list@,
                    j,
                    f,
                ),
        decreases module_count - m,
    {
        let ast_module = &named_ast_modules[m].module;
        let import_count = count_global_imports(ast_module);
        let mut slots: Vec<Option<usize>> = Vec::new();
        let mut i: usize = 0;
        while i < import_count
            invariant
                0 <= i <= import_count,
                slots@.len() == i,
                forall|p: int| 0 <= p < i ==> (#[trigger] slots@[p]) is None,
            decreases import_count - i,
        {
            slots.push(None);
            i += 1;
        }
        let own_count = ast_module.global_items.len();
        let ghost old_instances_len = instance_global_variables@.len();
        let mut k: usize = 0;
        while k < own_count
            invariant
                module_count == named_ast_modules@.len(),
                m < module_count,
                ast_module == &named_ast_modules@[m as int].module,
                0 <= k <= own_count,
                own_count == ast_module.global_items@.len(),
                import_count == spec_global_import_count(
                    ast_module.import_items@,
                    ast_module.import_items@.len() as int,
                ),
                slots@.len() == import_count + k,
                spec_global_initialisers_decodable(named_ast_modules@, m as int),
                forall|q: int|
                    0 <= q < k ==> crate::decoder::spec_decode_constant_expression(
                        (#[trigger] ast_module.global_items@[q]).initialize_instruction_items@,
                    ) is Some,
                forall|p: int| 0 <= p < import_count ==> (#[trigger] slots@[p]) is None,
                forall|p: int|
                    import_count <= p < slots@.len() ==> ((#[trigger] slots@[p]) matches Some(idx)
                        && idx < instance_global_variables@.len()
                        && instance_global_variables@[idx as int].wf()
                        && instance_global_variables@[idx as int].spec_global_type()
                        == ast_module.global_items@[p - import_count].global_type
                        && match crate::decoder::spec_decode_constant_expression(
                        ast_module.global_items@[p - import_count].initialize_instruction_items@,
                    ) {
                        Some(crate::decoder::ConstantExpression::I32Const(v)) =>
                            instance_global_variables@[idx as int].spec_value() == Value::I32(v),
                        Some(crate::decoder::ConstantExpression::I64Const(v)) =>
                            instance_global_variables@[idx as int].spec_value() == Value::I64(v),
                        Some(crate::decoder::ConstantExpression::F32Const(v)) =>
                            instance_global_variables@[idx as int].spec_value() == Value::F32(v),
                        Some(crate::decoder::ConstantExpression::F64Const(v)) =>
                            instance_global_variables@[idx as int].spec_value() == Value::F64(v),
                        _ => true,
                    }),
                module_to_global_variables_list@.len() == m,
                forall|j: int|
                    0 <= j < m ==> {
                        let module = named_ast_modules@[j].module;
                        (#[trigger] module_to_global_variables_list@[j])@.len()
                            == spec_global_import_count(
                            module.import_items@,
                            module.import_items@.len() as int,
                        ) + module.global_items@.len()
                    },
                forall|j: int, f: int|
                    0 <= j < m && 0 <= f < module_to_global_variables_list@[j]@.len()
                        ==> #[trigger] spec_global_slot_ok(
                        named_ast_modules@,
                        instance_global_variables@,
                        module_to_global_variables_list@,
                        j,
                        f,
                    ),
            decreases own_count - k,
        {
            let global_item = &ast_module.global_items[k];
            proof {
                assert(*global_item == named_ast_modules@[m as int].module.global_items@[k as int]);
            }
            let expression = match crate::decoder::decode_constant_expression(
                &global_item.initialize_instruction_items,
            ) {
                Ok(expression) => expression,
                Err(e) => {
                    proof {
                        assert(!spec_global_initialisers_const_ok(named_ast_modules@));
                    }
                    return Err(e);
                },
            };
            let value = match crate::decoder::evaluate_constant_expression(
                expression,
                &slots,
                &instance_global_variables,
            ) {
                Ok(value) => value,
                Err(e) => {
                    proof {
                        assert(!spec_global_initialisers_const_ok(named_ast_modules@));
                    }
                    return Err(e);
                },
            };
            if value.get_type() != global_item.global_type.value_type {
                proof {
                    assert(!spec_global_initialisers_const_ok(named_ast_modules@));
                }
                return Err(
                    EngineError::TypeMismatch(
                        TypeMismatch::ConstantExpressionValueTypeMismatch(
                            global_item.global_type.value_type,
                            value.get_type(),
                        ),
                    ),
                );
            }
            let ghost old_instances = instance_global_variables@;
            let ghost old_maps = module_to_global_variables_list@;
            let instance_index = instance_global_variables.len();
            instance_global_variables.push(
                crate::vm_global_variable::VMGlobalVariable::new(global_item.global_type, value),
            );
            slots.push(Some(instance_index));
            proof {
                assert forall|j: int, f: int|
                    0 <= j < m && 0 <= f < module_to_global_variables_list@[j]@.len()
                        implies #[trigger] spec_global_slot_ok(
                    named_ast_modules@,
                    instance_global_variables@,
                    module_to_global_variables_list@,
                    j,
                    f,
                ) by {
                    assert(spec_global_slot_ok(named_ast_modules@, old_instances, old_maps, j, f));
                }
            }
            k += 1;
        }
        let ghost old_maps = module_to_global_variables_list@;
        module_to_global_variables_list.push(slots);
        proof {
            assert forall|j: int, f: int|
                0 <= j <= m && 0 <= f < module_to_global_variables_list@[j]@.len()
                    implies #[trigger] spec_global_slot_ok(
                named_ast_modules@,
                instance_global_variables@,
                module_to_global_variables_list@,
                j,
                f,
            ) by {
                if j < m {
                    assert(spec_global_slot_ok(
                        named_ast_modules@,
                        instance_global_variables@,
                        old_maps,
                        j,
                        f,
                    ));
                }
            }
        }
        total_slots = total_slots.saturating_add(import_count).saturating_add(own_count);
        m += 1;
    }

    // resolve the imported slots by bounded sweeps; what never resolves
    // lies on a cycle
    let sweep_bound = total_slots.saturating_add(1);
    let mut round: usize = 0;
    while round < sweep_bound
        invariant
            module_count == named_ast_modules@.len(),
            0 <= round <= sweep_bound,
            module_to_global_variables_list@.len() == module_count,
            spec_global_initialisers_decodable(named_ast_modules@, module_count as int),
            forall|j: int|
                0 <= j < module_count ==> {
                    let module = named_ast_modules@[j].module;
                    (#[trigger] module_to_global_variables_list@[j])@.len()
                        == spec_global_import_count(
                        module.import_items@,
                        module.import_items@.len() as int,
                    ) + module.global_items@.len()
                },
            forall|j: int, f: int|
                0 <= j < module_count && 0 <= f < module_to_global_variables_list@[j]@.len()
                    ==> #[trigger] spec_global_slot_ok(
                    named_ast_modules@,
                    instance_global_variables@,
                    module_to_global_variables_list@,
                    j,
                    f,
                ),
        decreases sweep_bound - round,
    {
        let mut m: usize = 0;
        while m < module_count
            invariant
                module_count == named_ast_modules@.len(),
                0 <= m <= module_count,
                module_to_global_variables_list@.len() == module_count,
                spec_global_initialisers_decodable(named_ast_modules@, module_count as int),
                forall|j: int|
                    0 <= j < module_count ==> {
                        let module = named_ast_modules@[j].module;
                        (#[trigger] module_to_global_variables_list@[j])@.len()
                            == spec_global_import_count(
                            module.import_items@,
                            module.import_items@.len() as int,
                        ) + module.global_items@.len()
                    },
                forall|j: int, f: int|
                    0 <= j < module_count && 0 <= f < module_to_global_variables_list@[j]@.len()
                        ==> #[trigger] spec_global_slot_ok(
                        named_ast_modules@,
                        instance_global_variables@,
                        module_to_global_variables_list@,
                        j,
                        f,
                    ),
            decreases module_count - m,
        {
            let slot_count = module_to_global_variables_list[m].len();
            let mut f: usize = 0;
            while f < slot_count
                invariant
                    module_count == named_ast_modules@.len(),
                    m < module_count,
                    0 <= f <= slot_count,
                    module_to_global_variables_list@.len() == module_count,
                    slot_count == module_to_global_variables_list@[m as int]@.len(),
                    forall|j: int|
                        0 <= j < module_count ==> {
                            let module = named_ast_modules@[j].module;
                            (#[trigger] module_to_global_variables_list@[j])@.len()
                                == spec_global_import_count(
                                module.import_items@,
                                module.import_items@.len() as int,
                            ) + module.global_items@.len()
                        },
                    forall|j: int, g: int|
                        0 <= j < module_count && 0 <= g
                            < module_to_global_variables_list@[j]@.len()
                            ==> #[trigger] spec_global_slot_ok(
                            named_ast_modules@,
                            instance_global_variables@,
                            module_to_global_variables_list@,
                            j,
                            g,
                        ),
                decreases slot_count - f,
            {
                if module_to_global_variables_list[m][f].is_none() {
                    proof {
                        assert(spec_global_slot_ok(
                            named_ast_modules@,
                            instance_global_variables@,
                            module_to_global_variables_list@,
                            m as int,
                            f as int,
                        ));
                    }
                    let importer_module = &named_ast_modules[m].module;
                    let import_position = match find_nth_global_import(importer_module, f) {
                        Some(position) => position,
                        None => {
                            proof {
                                lemma_nth_global_import_exists(
                                    importer_module.import_items@,
                                    f as int,
                                    0,
                                );
                                assert(false);
                            }
                            unreached()
                        },
                    };
                    let import_item = &importer_module.import_items[import_position];
                    let declared_global_type = match &import_item.import_descriptor {
                        ast::ImportDescriptor::GlobalType(global_type) => *global_type,
                        _ => {
                            proof {
                                assert(false);
                            }
                            unreached()
                        },
                    };
                    let target_module_index = match find_ast_module_index_by_name(
                        named_ast_modules,
                        &import_item.module_name,
                    ) {
                        Some(index) => index,
                        None => {
                            return Err(
                                EngineError::ObjectNotFound(
                                    ObjectNotFound::ModuleNotFound(
                                        import_item.module_name.clone(),
                                    ),
                                ),
                            );
                        },
                    };
                    proof {
                        lemma_find_ast_module_in_range(
                            named_ast_modules@,
                            import_item.module_name@,
                            0,
                            target_module_index as int,
                        );
                    }
                    let target_module = &named_ast_modules[target_module_index].module;
                    let target_global_index = match find_global_export(
                        target_module,
                        &import_item.item_name,
                    ) {
                        Some(index) => index as usize,
                        None => {
                            return Err(
                                EngineError::ObjectNotFound(
                                    ObjectNotFound::GlobalVariableNotFound(
                                        import_item.module_name.clone(),
                                        import_item.item_name.clone(),
                                    ),
                                ),
                            );
                        },
                    };
                    if target_global_index
                        >= module_to_global_variables_list[target_module_index].len() {
                        return Err(
                            EngineError::InvalidOperation(
                                InvalidOperation::InvalidGlobalVariableIndex,
                            ),
                        );
                    }
                    match module_to_global_variables_list[target_module_index][target_global_index] {
                        Some(resolved_index) => {
                            proof {
                                assert(spec_global_slot_ok(
                                    named_ast_modules@,
                                    instance_global_variables@,
                                    module_to_global_variables_list@,
                                    target_module_index as int,
                                    target_global_index as int,
                                ));
                            }
                            if instance_global_variables[resolved_index].get_global_type()
                                != declared_global_type {
                                return Err(
                                    EngineError::TypeMismatch(
                                        TypeMismatch::ImportedGlobalVariableTypeMismatch(
                                            import_item.module_name.clone(),
                                            import_item.item_name.clone(),
                                        ),
                                    ),
                                );
                            }
                            let ghost old_maps = module_to_global_variables_list@;
                            let mut row = module_to_global_variables_list.remove(m);
                            row.set(f, Some(resolved_index));
                            module_to_global_variables_list.insert(m, row);
                            proof {
                                assert(module_to_global_variables_list@[m as int]@
                                    =~= old_maps[m as int]@.update(
                                    f as int,
                                    Some(resolved_index),
                                ));
                                assert forall|j: int, g: int|
                                    0 <= j < module_count && 0 <= g
                                        < module_to_global_variables_list@[j]@.len()
                                        implies #[trigger] spec_global_slot_ok(
                                    named_ast_modules@,
                                    instance_global_variables@,
                                    module_to_global_variables_list@,
                                    j,
                                    g,
                                ) by {
                                    assert(spec_global_slot_ok(
                                        named_ast_modules@,
                                        instance_global_variables@,
                                        old_maps,
                                        j,
                                        g,
                                    ));
                                    assert(spec_global_slot_ok(
                                        named_ast_modules@,
                                        instance_global_variables@,
                                        old_maps,
                                        m as int,
                                        f as int,
                                    ));
                                    assert(spec_global_slot_ok(
                                        named_ast_modules@,
                                        instance_global_variables@,
                                        old_maps,
                                        target_module_index as int,
                                        target_global_index as int,
                                    ));
                                }
                            }
                        },
                        None => {},
                    }
                }
                f += 1;
            }
            m += 1;
        }
        round += 1;
    }

    // flatten: every slot must be resolved now
    let mut final_list: Vec<Vec<usize>> = Vec::new();
    let mut m: usize = 0;
    while m < module_count
        invariant
            module_count == named_ast_modules@.len(),
            0 <= m <= module_count,
            module_to_global_variables_list@.len() == module_count,
            final_list@.len() == m,
            spec_global_initialisers_decodable(named_ast_modules@, module_count as int),
            forall|j: int|
                0 <= j < module_count ==> {
                    let module = named_ast_modules@[j].module;
                    (#[trigger] module_to_global_variables_list@[j])@.len()
                        == spec_global_import_count(
                        module.import_items@,
                        module.import_items@.len() as int,
                    ) + module.global_items@.len()
                },
            forall|j: int, f: int|
                0 <= j < module_count && 0 <= f < module_to_global_variables_list@[j]@.len()
                    ==> #[trigger] spec_global_slot_ok(
                    named_ast_modules@,
                    instance_global_variables@,
                    module_to_global_variables_list@,
                    j,
                    f,
                ),
            forall|j: int|
                0 <= j < m ==> (#[trigger] final_list@[j])@.len()
                    == module_to_global_variables_list@[j]@.len(),
            forall|j: int, f: int|
                0 <= j < m && 0 <= f < final_list@[j]@.len() ==> Some(
                    #[trigger] final_list@[j]@[f],
                ) == module_to_global_variables_list@[j]@[f] && final_list@[j]@[f]
                    < instance_global_variables@.len(),
        decreases module_count - m,
    {
        let row_len = module_to_global_variables_list[m].len();
        let mut row: Vec<usize> = Vec::new();
        let mut f: usize = 0;
        while f < row_len
            invariant
                module_count == named_ast_modules@.len(),
                m < module_count,
                0 <= f <= row_len,
                module_to_global_variables_list@.len() == module_count,
                row_len == module_to_global_variables_list@[m as int]@.len(),
                row@.len() == f,
                forall|j: int, g: int|
                    0 <= j < module_count && 0 <= g < module_to_global_variables_list@[j]@.len()
                        ==> #[trigger] spec_global_slot_ok(
                        named_ast_modules@,
                        instance_global_variables@,
                        module_to_global_variables_list@,
                        j,
                        g,
                    ),
                forall|g: int|
                    0 <= g < f ==> Some(#[trigger] row@[g])
                        == module_to_global_variables_list@[m as int]@[g] && row@[g]
                        < instance_global_variables@.len(),
            decreases row_len - f,
        {
            match module_to_global_variables_list[m][f] {
                Some(index) => {
                    proof {
                        assert(spec_global_slot_ok(
                            named_ast_modules@,
                            instance_global_variables@,
                            module_to_global_variables_list@,
                            m as int,
                            f as int,
                        ));
                    }
                    row.push(index);
                },
                None => {
                    proof {
                        assert(spec_global_slot_ok(
                            named_ast_modules@,
                            instance_global_variables@,
                            module_to_global_variables_list@,
                            m as int,
                            f as int,
                        ));
                    }
                    return Err(EngineError::InvalidOperation(InvalidOperation::CyclicImport));
                },
            }
            f += 1;
        }
        final_list.push(row);
        m += 1;
    }
    proof {
        assert forall|mm: int, ff: int|
            0 <= mm < module_count && 0 <= ff < final_list@[mm]@.len()
                implies #[trigger] spec_resolved_global_slot_ok(
            named_ast_modules@,
            instance_global_variables@,
            final_list@,
            mm,
            ff,
        ) by {
            assert(spec_global_slot_ok(
                named_ast_modules@,
                instance_global_variables@,
                module_to_global_variables_list@,
                mm,
                ff,
            ));
            let module = named_ast_modules@[mm].module;
            let ic = spec_global_import_count(
                module.import_items@,
                module.import_items@.len() as int,
            );
            if ff < ic {
                let item = module.import_items@[spec_find_nth_global_import_from(
                    module.import_items@,
                    ff,
                    0,
                ).unwrap()];
                assert(module_to_global_variables_list@[mm]@[ff] == Some(final_list@[mm]@[ff]));
                assert(spec_find_nth_global_import_from(module.import_items@, ff, 0) is Some);
                assert(spec_find_ast_module_from(named_ast_modules@, item.module_name@, 0) is Some);
                let t = spec_find_ast_module_from(named_ast_modules@, item.module_name@, 0).unwrap();
                let g = spec_find_global_export_from(
                    named_ast_modules@[t].module.export_items@,
                    item.item_name@,
                    0,
                ).unwrap();
                assert(module_to_global_variables_list@.len() == module_count);
                assert(0 <= t < module_count);
                assert(g < module_to_global_variables_list@[t]@.len());
                assert(final_list@[t]@.len() == module_to_global_variables_list@[t]@.len());
                assert(Some(final_list@[t]@[g as int])
                    == module_to_global_variables_list@[t]@[g as int]);
            }
        }
    }
    Ok((instance_global_variables, final_list))
}

} // verus!

//! The engine facade: module registration, linking, decoding of the raw
//! instruction streams into pre-resolved control, segment initialisation,
//! start-function execution and external invocation.
//!
//! The engine never calls host code itself: `load`, `invoke` and `resume`
//! all return either final results or a host request the embedder answers
//! through `resume`.

use vstd::prelude::*;
use crate::ast;
use crate::ast::BlockType;
use crate::decoder;
use crate::error::{EngineError, InvalidOperation, ObjectNotFound, TypeMismatch};
use crate::interpreter::{self, StepResult};
use crate::linker;
use crate::linker::FunctionLocation;
use crate::native_module::NativeModule;
use crate::object::{self, BlockItem, BranchTarget, Control, FunctionItem, clone_function_item};
use crate::values::{Value, ValueType, check_value_types};
use crate::vm::{VM, VMModule, VMResource, VMStack, VMStatus};

verus! {

/// What a call into the engine produced: final results, or a pending host
/// request that `resume` answers.
#[derive(Debug, PartialEq)]
pub enum RunOutcome {
    Done(Vec<Value>),
    HostCall { native_module_index: usize, function_index: usize, arguments: Vec<Value> },
}

/// How one run of the interpreter loop stopped.
enum InnerOutcome {
    Ended,
    HostCall { native_module_index: usize, function_index: usize, arguments: Vec<Value> },
}

/// What the engine is in the middle of when a host request is pending.
enum Phase {
    Idle,
    /// Running start functions; the index is the next module whose start
    /// has not run yet.
    Starting(usize),
    /// Running an exported function: the module and function being run,
    /// and the declared result types the run owes.
    Invoking { vm_module_index: usize, function_index: usize, result_types: Vec<ValueType> },
}

/// One open structured block during decoding.
struct OpenBlock {
    block_index: usize,
    is_loop: bool,
    start_address: usize,
    end_address: usize,
}

fn decode_error() -> EngineError {
    EngineError::InvalidOperation(InvalidOperation::InvalidInstructionStream)
}

/// The function index named by the first export pair of the given name, at
/// or after `i`.
pub open spec fn spec_find_export_from(
    items: Seq<(String, usize)>,
    name: Seq<char>,
    i: int,
) -> Option<int>
    decreases items.len() - i,
{
    if i < 0 || i >= items.len() {
        Option::None
    } else if items[i].0@ == name {
        Some(items[i].1 as int)
    } else {
        spec_find_export_from(items, name, i + 1)
    }
}

/// The function exports of a decoded module, in order: each export item
/// with a function descriptor yields its name and function index.
pub open spec fn spec_function_exports(items: Seq<ast::ExportItem>) -> Seq<(String, usize)>
    decreases items.len(),
{
    if items.len() == 0 {
        Seq::empty()
    } else {
        let rest = spec_function_exports(items.drop_last());
        match items.last().export_descriptor {
            ast::ExportDescriptor::FunctionIndex(function_index) => rest.push(
                (items.last().name, function_index as usize),
            ),
            _ => rest,
        }
    }
}

/// The checks `invoke` makes before it runs the named function, and the
/// declared result types it then owes: the function index must name an
/// internal function with a declared type, and the arguments must carry
/// exactly the declared parameter types; each failure names its error.
pub open spec fn spec_invoke_checks(
    machine: VM,
    vm_module_index: int,
    function_index: int,
    arguments: Seq<Value>,
) -> Result<Seq<ValueType>, EngineError> {
    let modules = machine.resource.vm_modules@;
    if vm_module_index >= modules.len() {
        Err(EngineError::InvalidOperation(InvalidOperation::InvalidFunctionIndex))
    } else if function_index >= modules[vm_module_index].function_items@.len() {
        Err(EngineError::InvalidOperation(InvalidOperation::InvalidFunctionIndex))
    } else {
        match modules[vm_module_index].function_items@[function_index] {
            FunctionItem::Native { .. } => Err(
                EngineError::InvalidOperation(InvalidOperation::InvalidFunctionIndex),
            ),
            FunctionItem::Normal { type_index, .. } => {
                if type_index >= modules[vm_module_index].function_types@.len() {
                    Err(EngineError::InvalidOperation(InvalidOperation::InvalidTypeIndex))
                } else {
                    let function_type = modules[vm_module_index].function_types@[type_index as int];
                    if arguments.len() != function_type.params@.len() {
                        Err(
                            EngineError::TypeMismatch(
                                TypeMismatch::InvokeArgumentCountMismatch {
                                    expected: function_type.params@.len() as usize,
                                    actual: arguments.len() as usize,
                                },
                            ),
                        )
                    } else {
                        match crate::values::spec_first_type_mismatch_from(
                            arguments,
                            function_type.params@,
                            0,
                        ) {
                            Some(k) => Err(
                                EngineError::TypeMismatch(
                                    TypeMismatch::InvokeArgumentTypeMismatch {
                                        argument_index: k as usize,
                                        expected: function_type.params@[k],
                                        actual: arguments[k].spec_get_type(),
                                    },
                                ),
                            ),
                            Option::None => Ok(function_type.results@),
                        }
                    }
                }
            },
        }
    }
}

/// Rewrites one function body into the two-variant stream, resolving every
/// branch target to an absolute address and every call to its linked
/// function item.
fn decode_function(
    body: &Vec<ast::Instruction>,
    start_offset: usize,
    block_items: &Vec<BlockItem>,
    function_items: &Vec<FunctionItem>,
    out: &mut Vec<object::Instruction>,
) -> (r: Result<(), EngineError>) {
    let count = body.len();
    if count == 0 {
        return Err(decode_error());
    }
    let function_end = match start_offset.checked_add(count - 1) {
        Some(e) => e,
        None => {
            return Err(decode_error());
        },
    };
    let mut open_blocks: Vec<OpenBlock> = Vec::new();
    let mut i: usize = 0;
    while i < count
        invariant
            0 <= i <= count,
            count == body@.len(),
        decreases count - i,
    {
        match &body[i] {
            ast::Instruction::Block(block_type, block_index)
            | ast::Instruction::Loop(block_type, block_index) => {
                let item_index = *block_index as usize;
                if item_index >= block_items.len() {
                    return Err(decode_error());
                }
                let (relative_start, relative_end, is_loop) = match block_items[item_index] {
                    BlockItem::Block { start_address, end_address, .. } => (
                        start_address,
                        end_address,
                        false,
                    ),
                    BlockItem::Loop { start_address, end_address, .. } => (
                        start_address,
                        end_address,
                        true,
                    ),
                    BlockItem::If { start_address, end_address, .. } => (
                        start_address,
                        end_address,
                        false,
                    ),
                };
                let absolute_start = match start_offset.checked_add(relative_start) {
                    Some(a) => a,
                    None => {
                        return Err(decode_error());
                    },
                };
                let absolute_end = match start_offset.checked_add(relative_end) {
                    Some(a) => a,
                    None => {
                        return Err(decode_error());
                    },
                };
                open_blocks.push(
                    OpenBlock {
                        block_index: item_index,
                        is_loop,
                        start_address: absolute_start,
                        end_address: absolute_end,
                    },
                );
                out.push(
                    object::Instruction::Control(
                        Control::Block {
                            block_type: *block_type,
                            block_index: item_index,
                            end_address: absolute_end,
                        },
                    ),
                );
            },
            ast::Instruction::If(block_type, block_index) => {
                let item_index = *block_index as usize;
                if item_index >= block_items.len() {
                    return Err(decode_error());
                }
                let (relative_start, relative_end, relative_alternate) = match block_items[item_index] {
                    BlockItem::If { start_address, end_address, alternate_address, .. } => (
                        start_address,
                        end_address,
                        alternate_address,
                    ),
                    _ => {
                        return Err(decode_error());
                    },
                };
                let absolute_start = match start_offset.checked_add(relative_start) {
                    Some(a) => a,
                    None => {
                        return Err(decode_error());
                    },
                };
                let absolute_end = match start_offset.checked_add(relative_end) {
                    Some(a) => a,
                    None => {
                        return Err(decode_error());
                    },
                };
                let option_alternate_address = match relative_alternate {
                    Some(relative) => {
                        // enter the alternate branch one past the `else`
                        let marker = match start_offset.checked_add(relative) {
                            Some(a) => a,
                            None => {
                                return Err(decode_error());
                            },
                        };
                        match marker.checked_add(1) {
                            Some(a) => Some(a),
                            None => {
                                return Err(decode_error());
                            },
                        }
                    },
                    None => None,
                };
                open_blocks.push(
                    OpenBlock {
                        block_index: item_index,
                        is_loop: false,
                        start_address: absolute_start,
                        end_address: absolute_end,
                    },
                );
                out.push(
                    object::Instruction::Control(
                        Control::BlockAndJumpWhenEqZero {
                            block_type: *block_type,
                            block_index: item_index,
                            option_alternate_address,
                            end_address: absolute_end,
                        },
                    ),
                );
            },
            ast::Instruction::Else => {
                // the then branch is over: jump to the `end`, which pops
                // the frame
                if open_blocks.len() == 0 {
                    return Err(decode_error());
                }
                let innermost = &open_blocks[open_blocks.len() - 1];
                out.push(
                    object::Instruction::Control(
                        Control::JumpWithinBlock(innermost.end_address),
                    ),
                );
            },
            ast::Instruction::End => {
                if open_blocks.len() > 0 {
                    let closed = match open_blocks.pop() {
                        Some(b) => b,
                        None => {
                            return Err(decode_error());
                        },
                    };
                    out.push(
                        object::Instruction::Control(Control::End(Some(closed.block_index))),
                    );
                } else {
                    out.push(object::Instruction::Control(Control::End(None)));
                }
            },
            ast::Instruction::Br(depth) => {
                let control = resolve_branch(&open_blocks, *depth as usize, function_end, false)?;
                out.push(object::Instruction::Control(control));
            },
            ast::Instruction::BrIf(depth) => {
                let control = resolve_branch(&open_blocks, *depth as usize, function_end, true)?;
                out.push(object::Instruction::Control(control));
            },
            ast::Instruction::Return => {
                let control = resolve_branch(
                    &open_blocks,
                    open_blocks.len(),
                    function_end,
                    false,
                )?;
                out.push(object::Instruction::Control(control));
            },
            ast::Instruction::BrTable(depths, default_depth) => {
                let mut branch_targets: Vec<BranchTarget> = Vec::new();
                let label_count = depths.len();
                let mut k: usize = 0;
                while k < label_count
                    invariant
                        0 <= k <= label_count,
                        label_count == depths@.len(),
                    decreases label_count - k,
                {
                    let target = resolve_branch_target(
                        &open_blocks,
                        depths[k] as usize,
                        function_end,
                    )?;
                    branch_targets.push(target);
                    k += 1;
                }
                let default_branch_target = resolve_branch_target(
                    &open_blocks,
                    *default_depth as usize,
                    function_end,
                )?;
                let option_block_index = if open_blocks.len() > 0 {
                    Some(open_blocks[open_blocks.len() - 1].block_index)
                } else {
                    None
                };
                out.push(
                    object::Instruction::Control(
                        Control::Branch {
                            option_block_index,
                            branch_targets,
                            default_branch_target,
                        },
                    ),
                );
            },
            ast::Instruction::Call(function_index) => {
                if *function_index as usize >= function_items.len() {
                    return Err(
                        EngineError::InvalidOperation(InvalidOperation::InvalidFunctionIndex),
                    );
                }
                let control = match &function_items[*function_index as usize] {
                    FunctionItem::Normal {
                        vm_module_index,
                        type_index,
                        function_index,
                        internal_function_index,
                        start_address,
                        ..
                    } => Control::Call {
                        vm_module_index: *vm_module_index,
                        type_index: *type_index,
                        function_index: *function_index,
                        internal_function_index: *internal_function_index,
                        address: *start_address,
                    },
                    FunctionItem::Native { native_module_index, type_index, function_index } =>
                        Control::CallNative {
                        native_module_index: *native_module_index,
                        type_index: *type_index,
                        function_index: *function_index,
                    },
                };
                out.push(object::Instruction::Control(control));
            },
            ast::Instruction::CallIndirect(type_index, table_index) => {
                out.push(
                    object::Instruction::Control(
                        Control::CallIndirect {
                            type_index: *type_index as usize,
                            table_index: *table_index as usize,
                        },
                    ),
                );
            },
            ast::Instruction::Unreachable => {
                out.push(object::Instruction::Control(Control::Unreachable));
            },
            ast::Instruction::Nop => {
                out.push(object::Instruction::Control(Control::Nop));
            },
            other => {
                out.push(object::Instruction::Sequence(other.clone()));
            },
        }
        i += 1;
    }
    Ok(())
}

/// Resolves one branch label: to the enclosing block `depth` levels out,
/// or to the function frame itself when the label leaves every block.
fn resolve_branch_target(
    open_blocks: &Vec<OpenBlock>,
    depth: usize,
    function_end: usize,
) -> (r: Result<BranchTarget, EngineError>) {
    if depth < open_blocks.len() {
        let target = &open_blocks[open_blocks.len() - 1 - depth];
        if target.is_loop {
            Ok(BranchTarget::Recur(depth, target.start_address))
        } else {
            Ok(BranchTarget::Break(depth, target.end_address))
        }
    } else if depth == open_blocks.len() {
        // the function frame: its own trailing `end` pops it
        Ok(BranchTarget::Break(depth, function_end))
    } else {
        Err(decode_error())
    }
}

fn resolve_branch(
    open_blocks: &Vec<OpenBlock>,
    depth: usize,
    function_end: usize,
    conditional: bool,
) -> (r: Result<Control, EngineError>) {
    let target = resolve_branch_target(open_blocks, depth, function_end)?;
    let option_block_index = if depth < open_blocks.len() {
        Some(open_blocks[open_blocks.len() - 1 - depth].block_index)
    } else {
        None
    };
    match target {
        BranchTarget::Break(relative_depth, address) => {
            if conditional {
                Ok(Control::BreakWhenNotEqZero { option_block_index, relative_depth, address })
            } else {
                Ok(Control::Break { option_block_index, relative_depth, address })
            }
        },
        BranchTarget::Recur(relative_depth, address) => {
            let block_index = match option_block_index {
                Some(index) => index,
                None => {
                    return Err(decode_error());
                },
            };
            if conditional {
                Ok(Control::RecurWhenNotEqZero { block_index, relative_depth, address })
            } else {
                Ok(Control::Recur { block_index, relative_depth, address })
            }
        },
    }
}

/// Copies each module's data segments into its memory and installs each
/// module's element segments into its table, at offsets given by constant
/// expressions.
fn init_segments(vm: &mut VM, named_ast_modules: &Vec<ast::NamedAstModule>) -> (r: Result<
    (),
    EngineError,
>) {
    let module_count = named_ast_modules.len();
    let mut m: usize = 0;
    while m < module_count
        invariant
            module_count == named_ast_modules@.len(),
            0 <= m <= module_count,
        decreases module_count - m,
    {
        let ast_module = &named_ast_modules[m].module;
        // data segments
        let data_count = ast_module.data_items.len();
        let mut d: usize = 0;
        while d < data_count
            invariant
                0 <= d <= data_count,
                data_count == ast_module.data_items@.len(),
                m < module_count == named_ast_modules@.len(),
                ast_module == &named_ast_modules@[m as int].module,
            decreases data_count - d,
        {
            let data_item = &ast_module.data_items[d];
            let offset_value = evaluate_offset(vm, m, &data_item.offset_instruction_items)?;
            if m >= vm.resource.module_to_memory_index.len() {
                return Err(
                    EngineError::InvalidOperation(InvalidOperation::OutOfBoundsMemoryAccess),
                );
            }
            let memory_index = vm.resource.module_to_memory_index[m];
            if memory_index >= vm.resource.memories.len() {
                return Err(
                    EngineError::InvalidOperation(InvalidOperation::OutOfBoundsMemoryAccess),
                );
            }
            let byte_count = data_item.data.len();
            let mut b: usize = 0;
            while b < byte_count
                invariant
                    0 <= b <= byte_count,
                    byte_count == data_item.data@.len(),
                    memory_index < vm.resource.memories@.len(),
                decreases byte_count - b,
            {
                let target = match offset_value.checked_add(b) {
                    Some(t) => t,
                    None => {
                        return Err(
                            EngineError::InvalidOperation(
                                InvalidOperation::OutOfBoundsMemoryAccess,
                            ),
                        );
                    },
                };
                let accepted = vm.resource.memories[memory_index].write_byte(
                    target,
                    data_item.data[b],
                );
                if !accepted {
                    return Err(
                        EngineError::InvalidOperation(InvalidOperation::OutOfBoundsMemoryAccess),
                    );
                }
                b += 1;
            }
            d += 1;
        }
        // element segments
        let element_count = ast_module.element_items.len();
        let mut e: usize = 0;
        while e < element_count
            invariant
                0 <= e <= element_count,
                element_count == ast_module.element_items@.len(),
                m < module_count == named_ast_modules@.len(),
                ast_module == &named_ast_modules@[m as int].module,
            decreases element_count - e,
        {
            let element_item = &ast_module.element_items[e];
            let offset_value = evaluate_offset(vm, m, &element_item.offset_instruction_items)?;
            if m >= vm.resource.module_to_table_index.len() {
                return Err(
                    EngineError::InvalidOperation(InvalidOperation::OutOfBoundsTableAccess),
                );
            }
            let table_index = vm.resource.module_to_table_index[m];
            if table_index >= vm.resource.tables.len() {
                return Err(
                    EngineError::InvalidOperation(InvalidOperation::OutOfBoundsTableAccess),
                );
            }
            let entry_count = element_item.function_indices.len();
            let mut k: usize = 0;
            while k < entry_count
                invariant
                    0 <= k <= entry_count,
                    entry_count == element_item.function_indices@.len(),
                    table_index < vm.resource.tables@.len(),
                decreases entry_count - k,
            {
                let function_index = element_item.function_indices[k] as usize;
                if m >= vm.resource.vm_modules.len() {
                    return Err(
                        EngineError::InvalidOperation(InvalidOperation::InvalidFunctionIndex),
                    );
                }
                if function_index >= vm.resource.vm_modules[m].function_items.len() {
                    return Err(
                        EngineError::InvalidOperation(InvalidOperation::InvalidFunctionIndex),
                    );
                }
                let item = clone_function_item(
                    &vm.resource.vm_modules[m].function_items[function_index],
                );
                let target = match offset_value.checked_add(k) {
                    Some(t) => t,
                    None => {
                        return Err(
                            EngineError::InvalidOperation(
                                InvalidOperation::OutOfBoundsTableAccess,
                            ),
                        );
                    },
                };
                let accepted = vm.resource.tables[table_index].set_element(target, item);
                if !accepted {
                    return Err(
                        EngineError::InvalidOperation(InvalidOperation::OutOfBoundsTableAccess),
                    );
                }
                k += 1;
            }
            e += 1;
        }
        m += 1;
    }
    Ok(())
}

/// Evaluates a segment's offset constant expression to an `i32` address.
fn evaluate_offset(
    vm: &VM,
    module_index: usize,
    offset_instruction_items: &Vec<ast::Instruction>,
) -> (r: Result<usize, EngineError>) {
    let expression = decoder::decode_constant_expression(offset_instruction_items)?;
    if module_index >= vm.resource.module_to_global_indices.len() {
        return Err(EngineError::InvalidOperation(InvalidOperation::InvalidConstantExpression));
    }
    // present the module's resolved slots in the evaluator's shape
    let map = &vm.resource.module_to_global_indices[module_index];
    let mut optional_map: Vec<Option<usize>> = Vec::new();
    let map_count = map.len();
    let mut i: usize = 0;
    while i < map_count
        invariant
            0 <= i <= map_count,
            map_count == map@.len(),
        decreases map_count - i,
    {
        optional_map.push(Some(map[i]));
        i += 1;
    }
    let value = decoder::evaluate_constant_expression(
        expression,
        &optional_map,
        &vm.resource.global_variables,
    )?;
    match value {
        Value::I32(offset) => Ok(offset as usize),
        _ => Err(EngineError::InvalidOperation(InvalidOperation::InvalidConstantExpression)),
    }
}

/// The engine: registered native modules, and after `load` the running
/// virtual machine together with the loaded modules' names, exports and
/// start functions.
pub struct Engine {
    native_modules: Vec<NativeModule>,
    vm: Option<VM>,
    phase: Phase,
    max_steps: u64,
    module_names: Vec<String>,
    /// Per module, the exported function names with their function index.
    exports: Vec<Vec<(String, usize)>>,
    /// Per module, its optional start-function index.
    start_functions: Vec<(usize, Option<usize>)>,
}

impl Engine {
    /// The host modules registered so far.
    pub closed spec fn spec_native_modules(&self) -> Seq<NativeModule> {
        self.native_modules@
    }

    /// A machine is loaded.
    pub closed spec fn spec_loaded(&self) -> bool {
        self.vm is Some
    }

    /// A host request is outstanding: the engine waits for `resume`.
    pub closed spec fn spec_suspended(&self) -> bool {
        match self.vm {
            Some(vm) => vm.pending is Some,
            None => false,
        }
    }

    /// The loaded machine, for contracts.
    pub closed spec fn spec_machine(&self) -> VM
        recommends
            self.spec_loaded(),
    {
        self.vm->Some_0
    }

    /// No invocation or start run is in flight.
    pub closed spec fn spec_idle(&self) -> bool {
        self.phase is Idle
    }

    /// The loaded modules' names, by module index.
    pub closed spec fn spec_module_names(&self) -> Seq<String> {
        self.module_names@
    }

    /// Per loaded module, its exported function names with their function
    /// index.
    pub closed spec fn spec_exports(&self) -> Seq<Seq<(String, usize)>> {
        self.exports@.map_values(|v: Vec<(String, usize)>| v@)
    }

    /// The result types an outstanding host request owes.
    pub closed spec fn spec_pending_result_types(&self) -> Seq<ValueType> {
        match self.vm {
            Some(vm) => match vm.pending {
                Some(pending) => pending.expected_result_types@,
                None => Seq::empty(),
            },
            None => Seq::empty(),
        }
    }

    /// A fresh engine with no modules and a large default step budget.
    pub fn new() -> (e: Engine) {
        Engine {
            native_modules: Vec::new(),
            vm: None,
            phase: Phase::Idle,
            max_steps: 100000000,
            module_names: Vec::new(),
            exports: Vec::new(),
            start_functions: Vec::new(),
        }
    }

    /// Caps how many instructions one `invoke` (or one start function) may
    /// execute before it traps with a step-limit error.
    pub fn set_max_steps(&mut self, max_steps: u64) {
        self.max_steps = max_steps;
    }

    /// Registers a host module; its functions become callable by loaded
    /// modules under the module's name.
    pub fn register_native_module(&mut self, native_module: NativeModule)
        ensures
            final(self).spec_native_modules() == old(self).spec_native_modules().push(
                native_module,
            ),
            final(self).spec_loaded() == old(self).spec_loaded(),
            final(self).spec_suspended() == old(self).spec_suspended(),
    {
        self.native_modules.push(native_module);
    }

    /// Links the given decoded modules against each other and the
    /// registered native modules, builds the runtime instances, copies the
    /// data and element segments, and runs each module's start function.
    ///
    /// `Done` carries no values; a `HostCall` outcome means a start
    /// function called a host function, and `resume` continues loading.
    pub fn load(&mut self, named_ast_modules: Vec<ast::NamedAstModule>) -> (r: Result<
        RunOutcome,
        EngineError,
    >)
        ensures
            r is Ok ==> final(self).spec_loaded(),
            (r matches Ok(c) && c is Done) ==> !final(self).spec_suspended(),
            (r matches Ok(c) && c is HostCall) ==> final(self).spec_suspended(),
            // loading fails whenever the function-link phase must fail, and
            // succeeds only when that phase succeeded
            !linker::spec_link_functions_ok(old(self).spec_native_modules(), named_ast_modules@)
                ==> r is Err,
            r is Ok ==> linker::spec_link_functions_ok(
                old(self).spec_native_modules(),
                named_ast_modules@,
            ),
            // a loaded engine knows the given modules by name and their
            // function exports, in the given order
            r is Ok ==> final(self).spec_module_names() == named_ast_modules@.map_values(
                |named: ast::NamedAstModule| named.name,
            ),
            r is Ok ==> final(self).spec_exports().len() == named_ast_modules@.len() && (forall|
                m: int,
            |
                0 <= m < named_ast_modules@.len() ==> #[trigger] final(self).spec_exports()[m]
                    == spec_function_exports(named_ast_modules@[m].module.export_items@)),
    {
        let function_items_list = linker::link_functions(&self.native_modules, &named_ast_modules)?;
        let (tables, module_to_table_index) = linker::link_tables(&named_ast_modules)?;
        let (memories, module_to_memory_index) = linker::link_memorys(&named_ast_modules)?;
        let (global_variables, module_to_global_indices) = linker::link_global_variables(
            &named_ast_modules,
        )?;

        // build the per-module runtime data
        let module_count = named_ast_modules.len();
        let mut vm_modules: Vec<VMModule> = Vec::new();
        let mut m: usize = 0;
        while m < module_count
            invariant
                module_count == named_ast_modules@.len(),
                function_items_list@.len() == module_count,
                0 <= m <= module_count,
            decreases module_count - m,
        {
            let ast_module = &named_ast_modules[m].module;
            // the declared function types
            let mut function_types: Vec<crate::values::FunctionType> = Vec::new();
            let type_count = ast_module.type_items.len();
            let mut t: usize = 0;
            while t < type_count
                invariant
                    0 <= t <= type_count,
                    type_count == ast_module.type_items@.len(),
                decreases type_count - t,
            {
                match &ast_module.type_items[t] {
                    ast::TypeItem::FunctionType(function_type) => {
                        function_types.push(function_type.clone());
                    },
                }
                t += 1;
            }
            // decode each internal function into the concatenated stream
            let locations = linker::get_ast_module_internal_function_locations(ast_module)?;
            let mut instructions: Vec<object::Instruction> = Vec::new();
            let mut internal_function_local_types: Vec<Vec<ValueType>> = Vec::new();
            let internal_count = locations.len();
            let mut k: usize = 0;
            while k < internal_count
                invariant
                    0 <= k <= internal_count,
                    internal_count == locations@.len(),
                    m < module_count == named_ast_modules@.len(),
                    function_items_list@.len() == module_count,
                decreases internal_count - k,
            {
                let (start_address, block_items_ref): (usize, &Vec<BlockItem>) = match &locations[k] {
                    FunctionLocation::Internal { start_address, block_items, .. } => (
                        *start_address,
                        block_items,
                    ),
                    FunctionLocation::Import { .. } => {
                        return Err(decode_error());
                    },
                };
                if k >= named_ast_modules[m].module.code_items.len() {
                    return Err(decode_error());
                }
                let code_item = &named_ast_modules[m].module.code_items[k];
                decode_function(
                    &code_item.instruction_items,
                    start_address,
                    block_items_ref,
                    &function_items_list[m],
                    &mut instructions,
                )?;
                internal_function_local_types.push(
                    crate::interpreter::copy_value_types(&code_item.local_variable_types),
                );
                k += 1;
            }
            let mut function_items: Vec<FunctionItem> = Vec::new();
            let item_count = function_items_list[m].len();
            let mut f: usize = 0;
            while f < item_count
                invariant
                    0 <= f <= item_count,
                    m < function_items_list@.len(),
                    item_count == function_items_list@[m as int]@.len(),
                decreases item_count - f,
            {
                function_items.push(clone_function_item(&function_items_list[m][f]));
                f += 1;
            }
            vm_modules.push(
                VMModule {
                    function_types,
                    function_items,
                    instructions,
                    internal_function_local_types,
                },
            );
            m += 1;
        }

        let mut registered_native_modules: Vec<NativeModule> = Vec::new();
        core::mem::swap(&mut registered_native_modules, &mut self.native_modules);
        let resource = VMResource {
            vm_modules,
            native_modules: registered_native_modules,
            memories,
            module_to_memory_index,
            tables,
            module_to_table_index,
            global_variables,
            module_to_global_indices,
        };
        let mut vm = VM {
            stack: VMStack::new(),
            status: VMStatus {
                vm_module_index: 0,
                function_index: 0,
                frame_type: BlockType::ResultEmpty,
                address: 0,
                frame_pointer: crate::vm::INITIAL_FRAME_POINTER,
                local_pointer: 0,
                base_pointer: 0,
            },
            resource,
            pending: None,
        };

        // copy the data and element segments
        init_segments(&mut vm, &named_ast_modules)?;
        // a freshly loaded machine has no outstanding host request
        vm.pending = None;
        self.vm = Some(vm);

        // remember the names, exports and start functions
        self.module_names = Vec::new();
        self.exports = Vec::new();
        self.start_functions = Vec::new();
        let mut m: usize = 0;
        while m < module_count
            invariant
                module_count == named_ast_modules@.len(),
                0 <= m <= module_count,
                self.spec_loaded(),
                !self.spec_suspended(),
                self.spec_module_names() == named_ast_modules@.map_values(
                    |named: ast::NamedAstModule| named.name,
                ).take(m as int),
                self.spec_exports().len() == m,
                forall|j: int|
                    0 <= j < m ==> #[trigger] self.spec_exports()[j] == spec_function_exports(
                        named_ast_modules@[j].module.export_items@,
                    ),
            decreases module_count - m,
        {
            self.module_names.push(named_ast_modules[m].name.clone());
            proof {
                assert(self.spec_module_names() =~= named_ast_modules@.map_values(
                    |named: ast::NamedAstModule| named.name,
                ).take(m + 1 as int));
            }
            let ast_module = &named_ast_modules[m].module;
            let mut function_exports: Vec<(String, usize)> = Vec::new();
            let export_count = ast_module.export_items.len();
            let mut e: usize = 0;
            while e < export_count
                invariant
                    0 <= e <= export_count,
                    export_count == ast_module.export_items@.len(),
                    ast_module == &named_ast_modules@[m as int].module,
                    function_exports@ == spec_function_exports(
                        ast_module.export_items@.take(e as int),
                    ),
                decreases export_count - e,

            {
                let item = &ast_module.export_items[e];
                let ghost previous_exports = function_exports@;
                match &item.export_descriptor {
                    ast::ExportDescriptor::FunctionIndex(function_index) => {
                        function_exports.push((item.name.clone(), *function_index as usize));
                    },
                    _ => {},
                }
                proof {
                    let taken = ast_module.export_items@.take(e + 1 as int);
                    assert(taken.drop_last() =~= ast_module.export_items@.take(e as int));
                    assert(taken.last() == ast_module.export_items@[e as int]);
                    assert(function_exports@ =~= spec_function_exports(taken));
                }
                e += 1;
            }
            proof {
                assert(ast_module.export_items@.take(export_count as int)
                    =~= ast_module.export_items@);
            }
            let ghost exports_before = self.spec_exports();
            self.exports.push(function_exports);
            proof {
                assert(self.spec_exports() =~= exports_before.push(function_exports@));
            }
            let start = match ast_module.start_function_index {
                Some(index) => Some(index as usize),
                None => None,
            };
            self.start_functions.push((m, start));
            m += 1;
        }
        self.phase = Phase::Starting(0);
        self.run_starts()
    }

    /// Runs the start functions that have not run yet.
    fn run_starts(&mut self) -> (r: Result<RunOutcome, EngineError>)
        requires
            old(self).spec_loaded(),
            !old(self).spec_suspended(),
        ensures
            r is Ok ==> final(self).spec_loaded(),
            (r matches Ok(c) && c is Done) ==> !final(self).spec_suspended(),
            (r matches Ok(c) && c is HostCall) ==> final(self).spec_suspended(),
            final(self).spec_module_names() == old(self).spec_module_names(),
            final(self).spec_exports() == old(self).spec_exports(),
    {
        let total = self.start_functions.len();
        let mut budget = total;
        loop
            invariant
                self.spec_loaded(),
                !self.spec_suspended(),
                self.spec_module_names() == old(self).spec_module_names(),
                self.spec_exports() == old(self).spec_exports(),
            decreases budget,
        {
            let next = match &self.phase {
                Phase::Starting(next) => *next,
                _ => {
                    return Err(
                        EngineError::InvalidOperation(InvalidOperation::NoPendingHostRequest),
                    );
                },
            };
            if next >= self.start_functions.len() || budget == 0 {
                self.phase = Phase::Idle;
                return Ok(RunOutcome::Done(Vec::new()));
            }
            budget = budget - 1;
            let entry = self.start_functions[next];
            self.phase = Phase::Starting(next + 1);
            match entry {
                (module_index, Some(start_function_index)) => {
                    // a start function must take no parameters and return no
                    // results
                    if !self.start_function_is_nullary(module_index, start_function_index) {
                        return Err(
                            EngineError::TypeMismatch(
                                TypeMismatch::StartFunctionTypeMismatch {
                                    vm_module_index: module_index,
                                },
                            ),
                        );
                    }
                    let _ = self.seed_call(module_index, start_function_index, Vec::new())?;
                    match self.run_vm()? {
                        InnerOutcome::Ended => {
                            // fall through to the next module's start
                        },
                        InnerOutcome::HostCall {
                            native_module_index,
                            function_index,
                            arguments,
                        } => {
                            return Ok(
                                RunOutcome::HostCall {
                                    native_module_index,
                                    function_index,
                                    arguments,
                                },
                            );
                        },
                    }
                },
                (_, None) => {},
            }
        }
    }

    /// The named function exists, and its declared type takes no
    /// parameters and returns no results.
    fn start_function_is_nullary(&self, vm_module_index: usize, function_index: usize) -> (r:
        bool)
    {
        let vm = match &self.vm {
            Some(vm) => vm,
            None => {
                return false;
            },
        };
        if vm_module_index >= vm.resource.vm_modules.len() {
            return false;
        }
        if function_index >= vm.resource.vm_modules[vm_module_index].function_items.len() {
            return false;
        }
        let type_index: usize = match &vm.resource.vm_modules[vm_module_index].function_items[function_index] {
            FunctionItem::Normal { type_index, .. } => *type_index,
            FunctionItem::Native { .. } => {
                return false;
            },
        };
        if type_index >= vm.resource.vm_modules[vm_module_index].function_types.len() {
            return false;
        }
        let function_type = &vm.resource.vm_modules[vm_module_index].function_types[type_index];
        function_type.params.len() == 0 && function_type.results.len() == 0
    }

    /// Seeds a fresh stack with the arguments and enters the named
    /// internal function's call frame; returns the function's declared
    /// result types. `run_vm` then executes it.
    fn seed_call(
        &mut self,
        vm_module_index: usize,
        function_index: usize,
        arguments: Vec<Value>,
    ) -> (r: Result<Vec<ValueType>, EngineError>)
        ensures
            r is Ok ==> final(self).spec_loaded() && !final(self).spec_suspended(),
            final(self).spec_module_names() == old(self).spec_module_names(),
            final(self).spec_exports() == old(self).spec_exports(),
            !old(self).spec_loaded() ==> r == Err::<Vec<ValueType>, EngineError>(
                EngineError::InvalidOperation(InvalidOperation::NoPendingHostRequest),
            ),
            old(self).spec_loaded() ==> match spec_invoke_checks(
                old(self).spec_machine(),
                vm_module_index as int,
                function_index as int,
                arguments@,
            ) {
                Err(e) => r == Err::<Vec<ValueType>, EngineError>(e),
                Ok(declared_results) => (r matches Ok(types) ==> types@ == declared_results),
            },
    {
        let vm = match &mut self.vm {
            Some(vm) => vm,
            None => {
                return Err(
                    EngineError::InvalidOperation(InvalidOperation::NoPendingHostRequest),
                );
            },
        };
        if vm_module_index >= vm.resource.vm_modules.len() {
            return Err(EngineError::InvalidOperation(InvalidOperation::InvalidFunctionIndex));
        }
        if function_index >= vm.resource.vm_modules[vm_module_index].function_items.len() {
            return Err(EngineError::InvalidOperation(InvalidOperation::InvalidFunctionIndex));
        }
        let (type_index, internal_function_index, start_address): (usize, usize, usize) = {
            match &vm.resource.vm_modules[vm_module_index].function_items[function_index] {
                FunctionItem::Normal {
                    type_index,
                    internal_function_index,
                    start_address,
                    ..
                } => (*type_index, *internal_function_index, *start_address),
                FunctionItem::Native { .. } => {
                    return Err(
                        EngineError::InvalidOperation(InvalidOperation::InvalidFunctionIndex),
                    );
                },
            }
        };
        if type_index >= vm.resource.vm_modules[vm_module_index].function_types.len() {
            return Err(EngineError::InvalidOperation(InvalidOperation::InvalidTypeIndex));
        }
        // check the arguments against the declared parameters
        let declared = crate::interpreter::copy_value_types(
            &vm.resource.vm_modules[vm_module_index].function_types[type_index].params,
        );
        match check_value_types(&arguments, &declared) {
            Ok(()) => {},
            Err(crate::values::ValueTypeCheckError::LengthMismatch) => {
                return Err(
                    EngineError::TypeMismatch(
                        TypeMismatch::InvokeArgumentCountMismatch {
                            expected: declared.len(),
                            actual: arguments.len(),
                        },
                    ),
                );
            },
            Err(crate::values::ValueTypeCheckError::DataTypeMismatch(argument_index)) => {
                return Err(
                    EngineError::TypeMismatch(
                        TypeMismatch::InvokeArgumentTypeMismatch {
                            argument_index,
                            expected: declared[argument_index],
                            actual: arguments[argument_index].get_type(),
                        },
                    ),
                );
            },
        }
        let result_types = crate::interpreter::copy_value_types(
            &vm.resource.vm_modules[vm_module_index].function_types[type_index].results,
        );
        // a fresh program: empty stack, sentinel frame pointer, no
        // outstanding host request
        vm.pending = None;
        vm.stack = VMStack::new();
        vm.status = VMStatus {
            vm_module_index,
            function_index,
            frame_type: BlockType::ResultEmpty,
            address: 0,
            frame_pointer: crate::vm::INITIAL_FRAME_POINTER,
            local_pointer: 0,
            base_pointer: 0,
        };
        let argument_count = arguments.len();
        let mut a: usize = 0;
        while a < argument_count
            invariant
                0 <= a <= argument_count,
                argument_count == arguments@.len(),
                vm.pending is None,
            decreases argument_count - a,
        {
            vm.stack.push_value(arguments[a]);
            a += 1;
        }
        if vm_module_index >= vm.resource.vm_modules.len() {
            return Err(EngineError::InvalidOperation(InvalidOperation::InvalidFunctionIndex));
        }
        if internal_function_index
            >= vm.resource.vm_modules[vm_module_index].internal_function_local_types.len() {
            return Err(EngineError::InvalidOperation(InvalidOperation::InvalidFunctionIndex));
        }
        let local_types = crate::interpreter::copy_value_types(
            &vm.resource.vm_modules[vm_module_index].internal_function_local_types[internal_function_index],
        );
        vm.push_call_frame(
            vm_module_index,
            function_index,
            type_index,
            argument_count,
            &local_types,
            start_address,
        )?;
        Ok(result_types)
    }

    /// The interpreter loop: executes instructions until the program ends,
    /// a host call suspends it, the step budget runs out, or a trap aborts
    /// it.
    fn run_vm(&mut self) -> (r: Result<InnerOutcome, EngineError>)
        requires
            old(self).spec_loaded(),
            !old(self).spec_suspended(),
        ensures
            (r matches Ok(c) && c is Ended) ==> final(self).spec_loaded()
                && !final(self).spec_suspended(),
            (r matches Ok(c) && c is HostCall) ==> final(self).spec_loaded()
                && final(self).spec_suspended(),
            final(self).spec_module_names() == old(self).spec_module_names(),
            final(self).spec_exports() == old(self).spec_exports(),
    {
        let mut steps = self.max_steps;
        loop
            invariant
                self.spec_loaded(),
                !self.spec_suspended(),
                self.spec_module_names() == old(self).spec_module_names(),
                self.spec_exports() == old(self).spec_exports(),
            decreases steps,
        {
            if steps == 0 {
                return Err(EngineError::InvalidOperation(InvalidOperation::StepLimitReached));
            }
            steps = steps - 1;
            let vm = match &mut self.vm {
                Some(vm) => vm,
                None => {
                    return Err(
                        EngineError::InvalidOperation(InvalidOperation::NoPendingHostRequest),
                    );
                },
            };
            let module_index = vm.status.vm_module_index;
            if module_index >= vm.resource.vm_modules.len() {
                return Err(
                    EngineError::InvalidOperation(InvalidOperation::InvalidProgramCounter),
                );
            }
            let address = vm.status.address;
            if address >= vm.resource.vm_modules[module_index].instructions.len() {
                return Err(
                    EngineError::InvalidOperation(InvalidOperation::InvalidProgramCounter),
                );
            }
            let instruction = vm.resource.vm_modules[module_index].instructions[address].clone();
            match interpreter::exec_instruction(vm, &instruction)? {
                StepResult::Continue => {},
                StepResult::HostCall { native_module_index, function_index, arguments } => {
                    return Ok(
                        InnerOutcome::HostCall { native_module_index, function_index, arguments },
                    );
                },
                StepResult::ProgramEnd => {
                    return Ok(InnerOutcome::Ended);
                },
            }
        }
    }

    /// An invocation's program ended: collect its results and check that
    /// they carry the declared result types.
    fn finish_invoke(
        &mut self,
        vm_module_index: usize,
        function_index: usize,
        result_types: &Vec<ValueType>,
    ) -> (r: Result<RunOutcome, EngineError>)
        ensures
            final(self).spec_loaded() == old(self).spec_loaded(),
            final(self).spec_suspended() == old(self).spec_suspended(),
            r matches Ok(c) ==> c matches RunOutcome::Done(values)
                && crate::values::value_types_of(values@) == result_types@,
    {
        let vm = match &mut self.vm {
            Some(vm) => vm,
            None => {
                return Err(
                    EngineError::InvalidOperation(InvalidOperation::NoPendingHostRequest),
                );
            },
        };
        let results = vm.stack.peek_values(result_types.len())?;
        match check_value_types(&results, result_types) {
            Ok(()) => {},
            Err(crate::values::ValueTypeCheckError::LengthMismatch) => {
                // the peeked values were sized to the declared arity
                proof {
                    assert(false);
                }
                return Err(EngineError::InvalidOperation(InvalidOperation::NotEnoughOperand));
            },
            Err(crate::values::ValueTypeCheckError::DataTypeMismatch(result_index)) => {
                return Err(
                    EngineError::TypeMismatch(
                        TypeMismatch::FunctionResultTypeMismatch {
                            vm_module_index,
                            function_index,
                            result_index,
                            result_type: result_types[result_index],
                            value_type: results[result_index].get_type(),
                        },
                    ),
                );
            },
        }
        self.phase = Phase::Idle;
        Ok(RunOutcome::Done(results))
    }

    /// Calls an exported function of a loaded module with the given
    /// arguments, after checking them against the export's declared type.
    /// `Done` carries the results; a `HostCall` outcome suspends the call
    /// until `resume`.
    pub fn invoke(
        &mut self,
        module_name: &String,
        function_name: &String,
        arguments: Vec<Value>,
    ) -> (r: Result<RunOutcome, EngineError>)
        ensures
            (r matches Ok(c) && c is Done) ==> !final(self).spec_suspended(),
            (r matches Ok(c) && c is HostCall) ==> final(self).spec_suspended(),
            // a run in flight refuses the call
            !old(self).spec_idle() ==> r == Err::<RunOutcome, EngineError>(
                EngineError::InvalidOperation(InvalidOperation::PendingHostRequest),
            ),
            // the module and function lookups, the argument checks with
            // their errors, and the promise that the results of a finished
            // run carry exactly the export's declared result types
            old(self).spec_idle() ==> match crate::linker::spec_find_name_from(
                old(self).spec_module_names(),
                module_name@,
                0,
            ) {
                Option::None => (r matches Err(e) && e matches EngineError::ObjectNotFound(
                    ObjectNotFound::ModuleNotFound(missing),
                ) && missing@ == module_name@),
                Some(module_index) => if module_index >= old(self).spec_exports().len()
                    || spec_find_export_from(
                    old(self).spec_exports()[module_index],
                    function_name@,
                    0,
                ) is None {
                    (r matches Err(e) && e matches EngineError::ObjectNotFound(
                        ObjectNotFound::FunctionNotFound(missing_module, missing_function),
                    ) && missing_module@ == module_name@ && missing_function@ == function_name@)
                } else if !old(self).spec_loaded() {
                    r == Err::<RunOutcome, EngineError>(
                        EngineError::InvalidOperation(InvalidOperation::NoPendingHostRequest),
                    )
                } else {
                    match spec_invoke_checks(
                        old(self).spec_machine(),
                        module_index,
                        spec_find_export_from(
                            old(self).spec_exports()[module_index],
                            function_name@,
                            0,
                        )->Some_0,
                        arguments@,
                    ) {
                        Err(e) => r == Err::<RunOutcome, EngineError>(e),
                        Ok(declared_results) => (r matches Ok(RunOutcome::Done(values))
                            ==> crate::values::value_types_of(values@) == declared_results),
                    }
                },
            },
    {
        match &self.phase {
            Phase::Idle => {},
            _ => {
                return Err(EngineError::InvalidOperation(InvalidOperation::PendingHostRequest));
            },
        }
        let module_index = match self.find_module_index(module_name) {
            Some(index) => index,
            None => {
                return Err(
                    EngineError::ObjectNotFound(ObjectNotFound::ModuleNotFound(module_name.clone())),
                );
            },
        };
        let function_index = match self.find_export_function(module_index, function_name) {
            Some(index) => index,
            None => {
                return Err(
                    EngineError::ObjectNotFound(
                        ObjectNotFound::FunctionNotFound(
                            module_name.clone(),
                            function_name.clone(),
                        ),
                    ),
                );
            },
        };
        let result_types = self.seed_call(module_index, function_index, arguments)?;
        let stored_types = crate::interpreter::copy_value_types(&result_types);
        self.phase = Phase::Invoking {
            vm_module_index: module_index,
            function_index,
            result_types: stored_types,
        };
        match self.run_vm()? {
            InnerOutcome::Ended => self.finish_invoke(module_index, function_index, &result_types),
            InnerOutcome::HostCall { native_module_index, function_index, arguments } => Ok(
                RunOutcome::HostCall { native_module_index, function_index, arguments },
            ),
        }
    }

    /// Answers a pending host request: on success the returned values are
    /// checked against the host function's declared result types, pushed,
    /// and execution continues; an error aborts the run and is surfaced.
    pub fn resume(&mut self, host_result: Result<Vec<Value>, EngineError>) -> (r: Result<
        RunOutcome,
        EngineError,
    >)
        ensures
            !old(self).spec_suspended() ==> r == Err::<RunOutcome, EngineError>(
                EngineError::InvalidOperation(InvalidOperation::NoPendingHostRequest),
            ),
            (r matches Ok(c) && c is Done) ==> !final(self).spec_suspended(),
            (r matches Ok(c) && c is HostCall) ==> final(self).spec_suspended(),
            // a host failure is surfaced verbatim
            old(self).spec_suspended() ==> (host_result matches Err(host_error) ==> r
                == Err::<RunOutcome, EngineError>(host_error)),
            // the handed values are checked against the result types the
            // request owes: a count or type mismatch names its error, and
            // only matching values resume execution
            old(self).spec_suspended() ==> (host_result matches Ok(values) ==> ({
                let expected = old(self).spec_pending_result_types();
                if values@.len() != expected.len() {
                    r == Err::<RunOutcome, EngineError>(
                        EngineError::TypeMismatch(
                            TypeMismatch::HostResultCountMismatch {
                                expected: expected.len() as usize,
                                actual: values@.len() as usize,
                            },
                        ),
                    )
                } else {
                    match crate::values::spec_first_type_mismatch_from(values@, expected, 0) {
                        Some(k) => r == Err::<RunOutcome, EngineError>(
                            EngineError::TypeMismatch(
                                TypeMismatch::HostResultTypeMismatch {
                                    result_index: k as usize,
                                    expected: expected[k],
                                    actual: values@[k].spec_get_type(),
                                },
                            ),
                        ),
                        Option::None => true,
                    }
                }
            })),
    {
        let vm = match &mut self.vm {
            Some(vm) => vm,
            None => {
                return Err(
                    EngineError::InvalidOperation(InvalidOperation::NoPendingHostRequest),
                );
            },
        };
        let mut taken_pending: Option<crate::vm::PendingHost> = None;
        core::mem::swap(&mut taken_pending, &mut vm.pending);
        let pending = match taken_pending {
            Some(pending) => pending,
            None => {
                return Err(
                    EngineError::InvalidOperation(InvalidOperation::NoPendingHostRequest),
                );
            },
        };
        let values = match host_result {
            Ok(values) => values,
            Err(e) => {
                return Err(e);
            },
        };
        match check_value_types(&values, &pending.expected_result_types) {
            Ok(()) => {},
            Err(crate::values::ValueTypeCheckError::LengthMismatch) => {
                return Err(
                    EngineError::TypeMismatch(
                        TypeMismatch::HostResultCountMismatch {
                            expected: pending.expected_result_types.len(),
                            actual: values.len(),
                        },
                    ),
                );
            },
            Err(crate::values::ValueTypeCheckError::DataTypeMismatch(result_index)) => {
                return Err(
                    EngineError::TypeMismatch(
                        TypeMismatch::HostResultTypeMismatch {
                            result_index,
                            expected: pending.expected_result_types[result_index],
                            actual: values[result_index].get_type(),
                        },
                    ),
                );
            },
        }
        let value_count = values.len();
        let mut v: usize = 0;
        while v < value_count
            invariant
                0 <= v <= value_count,
                value_count == values@.len(),
                vm.pending is None,
            decreases value_count - v,
        {
            vm.stack.push_value(values[v]);
            v += 1;
        }
        // the call site advances past the call instruction
        let next_address = match vm.status.address.checked_add(1) {
            Some(a) => a,
            None => {
                return Err(
                    EngineError::InvalidOperation(InvalidOperation::InvalidProgramCounter),
                );
            },
        };
        vm.status.address = next_address;
        match self.run_vm()? {
            InnerOutcome::Ended => {
                let mut finished_phase = Phase::Idle;
                core::mem::swap(&mut finished_phase, &mut self.phase);
                match finished_phase {
                    Phase::Invoking { vm_module_index, function_index, result_types } => self
                        .finish_invoke(vm_module_index, function_index, &result_types),
                    Phase::Starting(next) => {
                        self.phase = Phase::Starting(next);
                        self.run_starts()
                    },
                    Phase::Idle => Ok(RunOutcome::Done(Vec::new())),
                }
            },
            InnerOutcome::HostCall { native_module_index, function_index, arguments } => Ok(
                RunOutcome::HostCall { native_module_index, function_index, arguments },
            ),
        }
    }

    fn find_module_index(&self, module_name: &String) -> (r: Option<usize>)
        ensures
            match r {
                Some(i) => crate::linker::spec_find_name_from(
                    self.spec_module_names(),
                    module_name@,
                    0,
                ) == Some(i as int),
                None => crate::linker::spec_find_name_from(
                    self.spec_module_names(),
                    module_name@,
                    0,
                ) is None,
            },
    {
        let count = self.module_names.len();
        let mut i: usize = 0;
        while i < count
            invariant
                0 <= i <= count,
                count == self.module_names@.len(),
                crate::linker::spec_find_name_from(self.spec_module_names(), module_name@, 0)
                    == crate::linker::spec_find_name_from(
                    self.spec_module_names(),
                    module_name@,
                    i as int,
                ),
            decreases count - i,
        {
            if self.module_names[i] == *module_name {
                return Some(i);
            }
            i += 1;
        }
        None
    }

    fn find_export_function(&self, module_index: usize, function_name: &String) -> (r: Option<
        usize,
    >)
        ensures
            match r {
                Some(function_index) => module_index < self.spec_exports().len()
                    && spec_find_export_from(
                    self.spec_exports()[module_index as int],
                    function_name@,
                    0,
                ) == Some(function_index as int),
                None => module_index >= self.spec_exports().len() || spec_find_export_from(
                    self.spec_exports()[module_index as int],
                    function_name@,
                    0,
                ) is None,
            },
    {
        if module_index >= self.exports.len() {
            return None;
        }
        let items = &self.exports[module_index];
        let count = items.len();
        let mut i: usize = 0;
        while i < count
            invariant
                0 <= i <= count,
                count == items@.len(),
                module_index < self.exports@.len(),
                items@ == self.exports@[module_index as int]@,
                spec_find_export_from(self.spec_exports()[module_index as int], function_name@, 0)
                    == spec_find_export_from(
                    self.spec_exports()[module_index as int],
                    function_name@,
                    i as int,
                ),
            decreases count - i,
        {
            let item = &items[i];
            if item.0 == *function_name {
                return Some(item.1);
            }
            i += 1;
        }
        None
    }

    /// Reads a loaded module's global variable, for hosts and tests: the
    /// value of the instance the named module's resolved slot points at.
    pub fn read_global(&self, module_name: &String, global_index: usize) -> (r: Option<Value>)
        ensures
            match crate::linker::spec_find_name_from(self.spec_module_names(), module_name@, 0) {
                Option::None => r is None,
                Some(module_index) => if !self.spec_loaded() {
                    r is None
                } else {
                    let resource = self.spec_machine().resource;
                    if module_index >= resource.module_to_global_indices@.len() || global_index
                        >= resource.module_to_global_indices@[module_index]@.len() {
                        r is None
                    } else {
                        let instance_index =
                            resource.module_to_global_indices@[module_index]@[global_index as int];
                        if instance_index >= resource.global_variables@.len() {
                            r is None
                        } else {
                            r == Some(
                                resource.global_variables@[instance_index as int].spec_value(),
                            )
                        }
                    }
                },
            },
    {
        let module_index = self.find_module_index(module_name)?;
        let vm = match &self.vm {
            Some(vm) => vm,
            None => {
                return None;
            },
        };
        if module_index >= vm.resource.module_to_global_indices.len() {
            return None;
        }
        let map = &vm.resource.module_to_global_indices[module_index];
        if global_index >= map.len() {
            return None;
        }
        let instance_index = map[global_index];
        if instance_index >= vm.resource.global_variables.len() {
            return None;
        }
        Some(vm.resource.global_variables[instance_index].get_value())
    }

    /// Reads an element of a loaded module's table, for hosts and tests:
    /// `Some(Some(item))` for an installed funcref, `Some(None)` for a
    /// null element, `None` when the module or the index does not exist.
    pub fn read_table(&self, module_name: &String, element_index: usize) -> (r: Option<
        Option<FunctionItem>,
    >)
        ensures
            match crate::linker::spec_find_name_from(self.spec_module_names(), module_name@, 0) {
                Option::None => r is None,
                Some(module_index) => if !self.spec_loaded() {
                    r is None
                } else {
                    let resource = self.spec_machine().resource;
                    if module_index >= resource.module_to_table_index@.len() {
                        r is None
                    } else {
                        let table_index = resource.module_to_table_index@[module_index];
                        if table_index >= resource.tables@.len() || element_index
                            >= resource.tables@[table_index as int]@.len() {
                            r is None
                        } else {
                            match resource.tables@[table_index as int]@[element_index as int] {
                                Some(item) => (r matches Some(element) && element matches Some(
                                    returned,
                                ) && object::function_item_same(returned, item)),
                                Option::None => r == Some(Option::<FunctionItem>::None),
                            }
                        }
                    }
                },
            },
    {
        let module_index = self.find_module_index(module_name)?;
        let vm = match &self.vm {
            Some(vm) => vm,
            None => {
                return None;
            },
        };
        if module_index >= vm.resource.module_to_table_index.len() {
            return None;
        }
        let table_index = vm.resource.module_to_table_index[module_index];
        if table_index >= vm.resource.tables.len() {
            return None;
        }
        match vm.resource.tables[table_index].get_element(element_index) {
            Some(element) => match element {
                Some(item) => Some(Some(clone_function_item(item))),
                None => Some(None),
            },
            None => None,
        }
    }

    /// Reads bytes of a loaded module's memory, for hosts and tests: the
    /// `count` bytes at `address` of the named module's memory instance.
    pub fn read_memory(&self, module_name: &String, address: usize, count: usize) -> (r: Option<
        Vec<u8>,
    >)
        ensures
            r matches Some(bytes) ==> bytes@.len() == count,
            match crate::linker::spec_find_name_from(self.spec_module_names(), module_name@, 0) {
                Option::None => r is None,
                Some(module_index) => if !self.spec_loaded() {
                    r is None
                } else {
                    let resource = self.spec_machine().resource;
                    if module_index >= resource.module_to_memory_index@.len() {
                        r is None
                    } else {
                        let memory_index = resource.module_to_memory_index@[module_index];
                        if memory_index >= resource.memories@.len() {
                            r is None
                        } else {
                            let contents = resource.memories@[memory_index as int]@;
                            if address + count > contents.len() {
                                if count == 0 {
                                    r matches Some(bytes) && bytes@.len() == 0
                                } else {
                                    r is None
                                }
                            } else {
                                r matches Some(bytes) && bytes@.len() == count && (forall|i: int|
                                    0 <= i < count ==> bytes@[i] == contents[address + i])
                            }
                        }
                    }
                },
            },
    {
        let module_index = self.find_module_index(module_name)?;
        let vm = match &self.vm {
            Some(vm) => vm,
            None => {
                return None;
            },
        };
        if module_index >= vm.resource.module_to_memory_index.len() {
            return None;
        }
        let memory_index = vm.resource.module_to_memory_index[module_index];
        if memory_index >= vm.resource.memories.len() {
            return None;
        }
        let memory = &vm.resource.memories[memory_index];
        let memory_len = memory.byte_count();
        let mut bytes: Vec<u8> = Vec::new();
        let mut i: usize = 0;
        while i < count
            invariant
                0 <= i <= count,
                bytes@.len() == i,
                memory@ == self.spec_machine().resource.memories@[memory_index as int]@,
                memory_index < self.spec_machine().resource.memories@.len(),
                self.spec_loaded(),
                crate::linker::spec_find_name_from(self.spec_module_names(), module_name@, 0)
                    == Some(module_index as int),
                module_index < self.spec_machine().resource.module_to_memory_index@.len(),
                memory_index == self.spec_machine().resource.module_to_memory_index@[module_index as int],
                memory_len == memory@.len(),
                i > 0 ==> address + i <= memory@.len(),
                forall|j: int| 0 <= j < i ==> bytes@[j] == memory@[address + j],
            decreases count - i,
        {
            let offset = match address.checked_add(i) {
                Some(o) => o,
                None => {
                    return None;
                },
            };
            match memory.read_byte(offset) {
                Some(b) => {
                    bytes.push(b);
                },
                None => {
                    return None;
                },
            }
            i += 1;
        }
        Some(bytes)
    }
}

} // verus!

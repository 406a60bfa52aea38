//! The virtual machine: the typed operand stack with its frame-info
//! segments, the program status, and the frame discipline.
//!
//! The stack is a flat sequence of cells. Each frame reads, from the
//! bottom up: one frame-info record, the frame's arguments and locals
//! (call frames only), and its operands. A frame is a call frame exactly
//! when `frame_pointer == local_pointer`; that identity is the only
//! discriminator.

use vstd::prelude::*;
use crate::ast::BlockType;
use crate::error::{EngineError, InvalidOperation};
use crate::object::FunctionItem;
use crate::values::{Value, ValueType};
use crate::native_module::NativeModule;
use crate::vm_global_variable::VMGlobalVariable;
use crate::vm_memory::VMMemory;
use crate::vm_table::VMTable;

verus! {

/// Width of the frame-info segment, in stack cells: the whole record
/// occupies one cell.
pub const INFO_SEGMENT_ITEM_COUNT: usize = 1;

/// The `frame_pointer` value that marks "no active frame": popping the
/// frame whose record stores it ends the program.
pub const INITIAL_FRAME_POINTER: usize = 0;

/// The fixed-width record at the bottom of each frame: the status tuple to
/// restore when the frame is popped, and the type of the frame itself.
#[derive(Clone, Copy, PartialEq, Eq, Structural, Debug)]
pub struct FrameInfo {
    pub previous_frame_pointer: usize,
    pub previous_local_pointer: usize,
    pub previous_base_pointer: usize,
    pub return_vm_module_index: usize,
    pub return_function_index: usize,
    pub return_address: usize,
    pub frame_type: BlockType,
}

/// One stack cell: an operand value, or a frame-info record.
#[derive(Clone, Copy, PartialEq, Eq, Structural, Debug)]
pub enum StackCell {
    Operand(Value),
    Info(FrameInfo),
}

/// The operand stack.
pub struct VMStack {
    pub cells: Vec<StackCell>,
}

impl VMStack {
    pub open spec fn view(&self) -> Seq<StackCell> {
        self.cells@
    }

    pub fn new() -> (s: VMStack)
        ensures
            s@ == Seq::<StackCell>::empty(),
    {
        VMStack { cells: Vec::new() }
    }

    pub fn get_size(&self) -> (n: usize)
        ensures
            n == self@.len(),
    {
        self.cells.len()
    }

    /// Pushes one operand.
    pub fn push_value(&mut self, value: Value)
        ensures
            final(self)@ == old(self)@.push(StackCell::Operand(value)),
    {
        self.cells.push(StackCell::Operand(value));
    }

    /// Pops the top cell when it is an operand; popping into a frame-info
    /// record or an empty stack is an operand underflow.
    pub fn pop_value(&mut self) -> (r: Result<Value, EngineError>)
        ensures
            match r {
                Ok(v) => old(self)@.len() > 0 && old(self)@.last() == StackCell::Operand(v)
                    && final(self)@ == old(self)@.drop_last(),
                Err(e) => final(self)@ == old(self)@ && e == EngineError::InvalidOperation(
                    InvalidOperation::NotEnoughOperand,
                ) && (old(self)@.len() == 0 || !(old(self)@.last() is Operand)),
            },
    {
        let n = self.cells.len();
        if n == 0 {
            return Err(EngineError::InvalidOperation(InvalidOperation::NotEnoughOperand));
        }
        match self.cells[n - 1] {
            StackCell::Operand(value) => {
                self.cells.pop();
                proof {
                    assert(self@ =~= old(self)@.drop_last());
                }
                Ok(value)
            },
            StackCell::Info(_) => Err(
                EngineError::InvalidOperation(InvalidOperation::NotEnoughOperand),
            ),
        }
    }

    /// Reads the top `count` operands without removing them, bottom first.
    /// Fails exactly when the stack is shorter than `count` or one of the
    /// top `count` cells is a frame-info record.
    pub fn peek_values(&self, count: usize) -> (r: Result<Vec<Value>, EngineError>)
        ensures
            r is Ok <==> count <= self@.len() && spec_all_operands(
                self@,
                self@.len() - count,
                self@.len() as int,
            ),
            match r {
                Ok(values) => {
                    &&& count <= self@.len()
                    &&& values@.len() == count
                    &&& values@ == spec_top_values(self@, count as int)
                    &&& forall|i: int|
                        0 <= i < count ==> self@[self@.len() - count + i] == StackCell::Operand(
                            #[trigger] values@[i],
                        )
                },
                Err(e) => e == EngineError::InvalidOperation(InvalidOperation::NotEnoughOperand),
            },
    {
        let n = self.cells.len();
        if count > n {
            return Err(EngineError::InvalidOperation(InvalidOperation::NotEnoughOperand));
        }
        let mut values: Vec<Value> = Vec::new();
        let mut i: usize = 0;
        while i < count
            invariant
                0 <= i <= count,
                count <= n,
                n == self@.len(),
                values@.len() == i,
                forall|j: int|
                    0 <= j < i ==> self@[n - count + j] == StackCell::Operand(
                        #[trigger] values@[j],
                    ),
            decreases count - i,
        {
            match self.cells[n - count + i] {
                StackCell::Operand(value) => {
                    values.push(value);
                },
                StackCell::Info(_) => {
                    return Err(
                        EngineError::InvalidOperation(InvalidOperation::NotEnoughOperand),
                    );
                },
            }
            i += 1;
        }
        proof {
            assert forall|j: int|
                self@.len() - count <= j < self@.len() implies (#[trigger] self@[j]) is Operand by {
                assert(self@[self@.len() - count + (j - (self@.len() - count))]
                    == StackCell::Operand(values@[j - (self@.len() - count)]));
            }
            assert(values@ =~= spec_top_values(self@, count as int));
        }
        Ok(values)
    }

    /// Reads the operand cell at an absolute index. Fails exactly when the
    /// index is outside the stack or the cell holds a frame-info record.
    pub fn read_value(&self, index: usize) -> (r: Result<Value, EngineError>)
        ensures
            r is Ok <==> index < self@.len() && self@[index as int] is Operand,
            match r {
                Ok(v) => index < self@.len() && self@[index as int] == StackCell::Operand(v),
                Err(e) => e == EngineError::InvalidOperation(
                    InvalidOperation::InvalidLocalVariableIndex,
                ),
            },
    {
        if index >= self.cells.len() {
            return Err(EngineError::InvalidOperation(InvalidOperation::InvalidLocalVariableIndex));
        }
        match self.cells[index] {
            StackCell::Operand(value) => Ok(value),
            StackCell::Info(_) => Err(
                EngineError::InvalidOperation(InvalidOperation::InvalidLocalVariableIndex),
            ),
        }
    }

    /// Overwrites the operand cell at an absolute index; a cell holding a
    /// frame-info record is never overwritten. Fails exactly when the
    /// index is outside the stack or the cell holds a frame-info record.
    pub fn write_value(&mut self, index: usize, value: Value) -> (r: Result<(), EngineError>)
        ensures
            r is Ok <==> index < old(self)@.len() && old(self)@[index as int] is Operand,
            match r {
                Ok(()) => index < old(self)@.len() && old(self)@[index as int] is Operand
                    && final(self)@ == old(self)@.update(
                    index as int,
                    StackCell::Operand(value),
                ),
                Err(e) => final(self)@ == old(self)@ && e == EngineError::InvalidOperation(
                    InvalidOperation::InvalidLocalVariableIndex,
                ),
            },
    {
        if index >= self.cells.len() {
            return Err(EngineError::InvalidOperation(InvalidOperation::InvalidLocalVariableIndex));
        }
        match self.cells[index] {
            StackCell::Operand(_) => {
                self.cells.set(index, StackCell::Operand(value));
                Ok(())
            },
            StackCell::Info(_) => Err(
                EngineError::InvalidOperation(InvalidOperation::InvalidLocalVariableIndex),
            ),
        }
    }
}

/// The program counter and frame cursor.
#[derive(Clone, Copy, PartialEq, Eq, Structural, Debug)]
pub struct VMStatus {
    pub vm_module_index: usize,
    pub function_index: usize,
    pub frame_type: BlockType,
    pub address: usize,
    /// Index of the first content cell of the current frame; the frame's
    /// info record sits one cell below.
    pub frame_pointer: usize,
    /// Index of the current call frame's first argument/local cell.
    pub local_pointer: usize,
    /// Index of the first operand cell of the current frame.
    pub base_pointer: usize,
}

/// The per-module runtime data the dispatcher reads.
pub struct VMModule {
    pub function_types: Vec<crate::values::FunctionType>,
    pub function_items: Vec<FunctionItem>,
    /// The module's concatenated, pre-processed instruction stream.
    pub instructions: Vec<crate::object::Instruction>,
    /// The declared extra local types of each internal function.
    pub internal_function_local_types: Vec<Vec<ValueType>>,
}

/// Everything the running machine owns besides the stack and the status.
pub struct VMResource {
    pub vm_modules: Vec<VMModule>,
    pub native_modules: Vec<NativeModule>,
    pub memories: Vec<VMMemory>,
    pub module_to_memory_index: Vec<usize>,
    pub tables: Vec<VMTable>,
    pub module_to_table_index: Vec<usize>,
    pub global_variables: Vec<VMGlobalVariable>,
    pub module_to_global_indices: Vec<Vec<usize>>,
}

/// An outstanding host request: what the engine expects back before it can
/// carry on.
pub struct PendingHost {
    pub native_module_index: usize,
    pub function_index: usize,
    pub expected_result_types: Vec<ValueType>,
}

/// The virtual machine.
pub struct VM {
    pub stack: VMStack,
    pub status: VMStatus,
    pub resource: VMResource,
    pub pending: Option<PendingHost>,
}

/// The value an operand cell holds.
pub open spec fn spec_cell_value(cell: StackCell) -> Value {
    match cell {
        StackCell::Operand(value) => value,
        StackCell::Info(_) => arbitrary(),
    }
}

/// Every cell of `s` in `[from, to)` is an operand.
pub open spec fn spec_all_operands(s: Seq<StackCell>, from: int, to: int) -> bool {
    forall|i: int| from <= i < to ==> (#[trigger] s[i]) is Operand
}

/// The values of the top `count` cells, bottom first.
pub open spec fn spec_top_values(s: Seq<StackCell>, count: int) -> Seq<Value> {
    Seq::new(count as nat, |i: int| spec_cell_value(s[s.len() - count + i]))
}

/// What popping the current frame with `count` carried results does, when
/// every runtime check of the frame discipline passes: the stack cells and
/// the status afterwards. `None` means a check fails: the frame pointer or
/// its record is not where the discipline demands, or fewer than `count`
/// operands sit above the record.
pub open spec fn spec_pop_frame(s: Seq<StackCell>, status: VMStatus, count: int) -> Option<
    (Seq<StackCell>, VMStatus),
> {
    let fp = status.frame_pointer as int;
    if fp < 1 || fp > s.len() {
        Option::None
    } else {
        match s[fp - 1] {
            StackCell::Operand(_) => Option::None,
            StackCell::Info(info) => {
                if info.previous_frame_pointer as int >= fp {
                    Option::None
                } else if count > s.len() - fp {
                    Option::None
                } else if !spec_all_operands(s, s.len() - count, s.len() as int) {
                    Option::None
                } else {
                    let restored_frame_type_option = if info.previous_frame_pointer
                        == INITIAL_FRAME_POINTER {
                        Some(info.frame_type)
                    } else {
                        match s[info.previous_frame_pointer - 1] {
                            StackCell::Info(previous_info) => Some(previous_info.frame_type),
                            StackCell::Operand(_) => Option::None,
                        }
                    };
                    match restored_frame_type_option {
                        Option::None => Option::None,
                        Some(restored_frame_type) => Some(
                            (
                                s.take(fp - 1) + s.skip(s.len() - count),
                                VMStatus {
                                    vm_module_index: info.return_vm_module_index,
                                    function_index: info.return_function_index,
                                    frame_type: restored_frame_type,
                                    address: info.return_address,
                                    frame_pointer: info.previous_frame_pointer,
                                    local_pointer: info.previous_local_pointer,
                                    base_pointer: info.previous_base_pointer,
                                },
                            ),
                        ),
                    }
                }
            },
        }
    }
}

/// Popping `depth` frames in a row, each carrying the top `count`
/// operands across.
pub open spec fn spec_pop_frames(
    s: Seq<StackCell>,
    status: VMStatus,
    count: int,
    depth: int,
) -> Option<(Seq<StackCell>, VMStatus)>
    decreases depth,
{
    if depth <= 0 {
        Some((s, status))
    } else {
        match spec_pop_frame(s, status, count) {
            Option::None => Option::None,
            Some(after) => spec_pop_frames(after.0, after.1, count, depth - 1),
        }
    }
}

/// Popping one more frame after `k` pops is popping `k + 1` frames.
proof fn lemma_pop_frames_snoc(s: Seq<StackCell>, status: VMStatus, count: int, k: int)
    requires
        k >= 0,
    ensures
        spec_pop_frames(s, status, count, k + 1) == (match spec_pop_frames(s, status, count, k) {
            Option::None => Option::<(Seq<StackCell>, VMStatus)>::None,
            Some(after) => spec_pop_frame(after.0, after.1, count),
        }),
    decreases k,
{
    reveal_with_fuel(spec_pop_frames, 2);
    if k > 0 {
        match spec_pop_frame(s, status, count) {
            Option::None => {},
            Some(after) => {
                lemma_pop_frames_snoc(after.0, after.1, count, k - 1);
                assert(spec_pop_frames(s, status, count, k + 1) == spec_pop_frames(
                    after.0,
                    after.1,
                    count,
                    k,
                ));
                assert(spec_pop_frames(s, status, count, k) == spec_pop_frames(
                    after.0,
                    after.1,
                    count,
                    k - 1,
                ));
            },
        }
    }
}

/// A chain of `d` pops that passes every check needs `d` frame records
/// below the frame pointer: each pop moves the frame pointer strictly down
/// and never below one before the last.
pub proof fn lemma_pop_frames_depth_bound(s: Seq<StackCell>, status: VMStatus, count: int, d: int)
    requires
        d >= 0,
        spec_pop_frames(s, status, count, d) is Some,
    ensures
        d <= status.frame_pointer,
    decreases d,
{
    if d > 0 {
        match spec_pop_frame(s, status, count) {
            Option::None => {},
            Some(after) => {
                lemma_pop_frames_depth_bound(after.0, after.1, count, d - 1);
            },
        }
    }
}

/// A chain of pops that fails at `k` pops also fails at any greater depth.
proof fn lemma_pop_frames_none_mono(s: Seq<StackCell>, status: VMStatus, count: int, k: int, d: int)
    requires
        0 <= k <= d,
        spec_pop_frames(s, status, count, k) is None,
    ensures
        spec_pop_frames(s, status, count, d) is None,
    decreases k,
{
    if k > 0 {
        match spec_pop_frame(s, status, count) {
            Option::None => {},
            Some(after) => {
                lemma_pop_frames_none_mono(after.0, after.1, count, k - 1, d - 1);
            },
        }
    }
}

/// The frame type of the frame `depth` levels above the one whose content
/// starts at `fp`, following the chain of frame-info records; `None` when
/// the chain is not where the frame discipline demands.
pub open spec fn spec_frame_type_at_depth(
    s: Seq<StackCell>,
    fp: int,
    depth: int,
) -> Option<BlockType>
    decreases depth,
{
    if fp < 1 || fp > s.len() {
        Option::None
    } else {
        match s[fp - 1] {
            StackCell::Operand(_) => Option::None,
            StackCell::Info(info) => if depth <= 0 {
                Some(info.frame_type)
            } else if info.previous_frame_pointer as int >= fp {
                Option::None
            } else {
                spec_frame_type_at_depth(s, info.previous_frame_pointer as int, depth - 1)
            },
        }
    }
}

/// The operands available in the current frame: none when the base pointer
/// lies past the stack top.
pub open spec fn spec_available_operands(s: Seq<StackCell>, status: VMStatus) -> int {
    if status.base_pointer <= s.len() {
        s.len() - status.base_pointer
    } else {
        0
    }
}

/// The result types a frame of the given type leaves, read from the
/// current module's type table for a type-indexed frame; `None` when the
/// module or type index is out of range.
pub open spec fn spec_frame_result_types(vm: VM, frame_type: BlockType) -> Option<Seq<ValueType>> {
    match frame_type {
        BlockType::ResultEmpty => Some(Seq::<ValueType>::empty()),
        BlockType::ResultI32 => Some(seq![ValueType::I32]),
        BlockType::ResultI64 => Some(seq![ValueType::I64]),
        BlockType::ResultF32 => Some(seq![ValueType::F32]),
        BlockType::ResultF64 => Some(seq![ValueType::F64]),
        BlockType::TypeIndex(type_index) => {
            let m = vm.status.vm_module_index as int;
            if m < vm.resource.vm_modules@.len() && type_index
                < vm.resource.vm_modules@[m].function_types@.len() {
                Some(vm.resource.vm_modules@[m].function_types@[type_index as int].results@)
            } else {
                Option::None
            }
        },
    }
}

/// The parameter arity a frame of the given type expects; `None` when the
/// module or type index is out of range.
pub open spec fn spec_frame_param_count(vm: VM, frame_type: BlockType) -> Option<int> {
    match frame_type {
        BlockType::TypeIndex(type_index) => {
            let m = vm.status.vm_module_index as int;
            if m < vm.resource.vm_modules@.len() && type_index
                < vm.resource.vm_modules@[m].function_types@.len() {
                Some(vm.resource.vm_modules@[m].function_types@[type_index as int].params@.len() as int)
            } else {
                Option::None
            }
        },
        _ => Some(0),
    }
}

impl VM {
    /// Number of operands of the current frame.
    pub open spec fn spec_operands_count(&self) -> int {
        self.stack@.len() - self.status.base_pointer
    }

    pub fn operands_count(&self) -> (n: usize)
        ensures
            self.status.base_pointer <= self.stack@.len() ==> n == self.spec_operands_count(),
            self.status.base_pointer > self.stack@.len() ==> n == 0,
    {
        let size = self.stack.get_size();
        if self.status.base_pointer <= size {
            size - self.status.base_pointer
        } else {
            0
        }
    }

    /// Enters a call frame: the `param_count` operands on top become the
    /// first locals, the declared extra locals are zero filled above them,
    /// and the info record below them captures the caller's status with a
    /// return address one past the call site.
    ///
    /// In the new frame the frame pointer and the local pointer are equal:
    /// that identity marks call frames, and only `call`-style entries
    /// establish it.
    pub fn push_call_frame(
        &mut self,
        target_module_index: usize,
        target_function_index: usize,
        type_index: usize,
        param_count: usize,
        local_types: &Vec<ValueType>,
        start_address: usize,
    ) -> (r: Result<(), EngineError>)
        ensures
            r is Err <==> param_count > spec_available_operands(old(self)@, old(self).status)
                || old(self).status.address == usize::MAX || type_index > u32::MAX,
            match r {
                Ok(()) => {
                    &&& final(self).status.frame_pointer == final(self).status.local_pointer
                    &&& final(self).status.frame_pointer == old(self)@.len() - param_count + 1
                    &&& final(self).status.vm_module_index == target_module_index
                    &&& final(self).status.function_index == target_function_index
                    &&& final(self).status.frame_type == BlockType::TypeIndex(type_index as u32)
                    &&& final(self).status.address == start_address
                    &&& final(self).status.base_pointer == final(self).status.frame_pointer
                        + param_count + local_types@.len()
                    &&& final(self)@.len() == old(self)@.len() + 1 + local_types@.len()
                    &&& final(self)@ == old(self)@.insert(
                        old(self)@.len() - param_count,
                        StackCell::Info(
                            FrameInfo {
                                previous_frame_pointer: old(self).status.frame_pointer,
                                previous_local_pointer: old(self).status.local_pointer,
                                previous_base_pointer: old(self).status.base_pointer,
                                return_vm_module_index: old(self).status.vm_module_index,
                                return_function_index: old(self).status.function_index,
                                return_address: (old(self).status.address + 1) as usize,
                                frame_type: BlockType::TypeIndex(type_index as u32),
                            },
                        ),
                    ) + Seq::new(
                        local_types@.len(),
                        |i: int| StackCell::Operand(Value::spec_zero_of(local_types@[i])),
                    )
                    &&& ((old(self).status.local_pointer <= old(self).status.base_pointer
                        && old(self).status.base_pointer <= old(self)@.len())
                        ==> final(self).status.frame_pointer > old(self).status.local_pointer)
                },
                Err(_) => final(self)@ == old(self)@ && final(self).status == old(self).status,
            },
            final(self).resource == old(self).resource,
            final(self).pending == old(self).pending,
    {
        let size = self.stack.get_size();
        let available = if self.status.base_pointer <= size {
            size - self.status.base_pointer
        } else {
            0
        };
        if param_count > available {
            return Err(EngineError::InvalidOperation(InvalidOperation::NotEnoughOperand));
        }
        let return_address = match self.status.address.checked_add(1) {
            Some(a) => a,
            None => {
                return Err(
                    EngineError::InvalidOperation(InvalidOperation::InvalidProgramCounter),
                );
            },
        };
        if type_index > u32::MAX as usize {
            return Err(EngineError::InvalidOperation(InvalidOperation::InvalidTypeIndex));
        }
        let args_start = size - param_count;
        let info = FrameInfo {
            previous_frame_pointer: self.status.frame_pointer,
            previous_local_pointer: self.status.local_pointer,
            previous_base_pointer: self.status.base_pointer,
            return_vm_module_index: self.status.vm_module_index,
            return_function_index: self.status.function_index,
            return_address,
            frame_type: BlockType::TypeIndex(type_index as u32),
        };
        self.stack.cells.insert(args_start, StackCell::Info(info));
        let ghost inserted = self.stack@;
        let local_count = local_types.len();
        let mut k: usize = 0;
        while k < local_count
            invariant
                0 <= k <= local_count,
                local_count == local_types@.len(),
                self.stack@.len() == old(self)@.len() + 1 + k,
                self.stack@ == inserted + Seq::new(
                    k as nat,
                    |i: int| StackCell::Operand(Value::spec_zero_of(local_types@[i])),
                ),
                inserted.len() == old(self)@.len() + 1,
                self.status == old(self).status,
                self.resource == old(self).resource,
                self.pending == old(self).pending,
            decreases local_count - k,
        {
            let zero = Value::zero_of(local_types[k]);
            self.stack.cells.push(StackCell::Operand(zero));
            proof {
                assert(self.stack@ =~= inserted + Seq::new(
                    (k + 1) as nat,
                    |i: int| StackCell::Operand(Value::spec_zero_of(local_types@[i])),
                ));
            }
            k += 1;
        }
        let total_size = self.stack.get_size();
        proof {
            assert(args_start < total_size);
        }
        let frame_pointer = args_start + 1;
        self.status = VMStatus {
            vm_module_index: target_module_index,
            function_index: target_function_index,
            frame_type: BlockType::TypeIndex(type_index as u32),
            address: start_address,
            frame_pointer,
            local_pointer: frame_pointer,
            base_pointer: frame_pointer + param_count + local_count,
        };
        proof {
            assert(self.stack@ =~= old(self)@.insert(
                old(self)@.len() - param_count,
                StackCell::Info(
                    FrameInfo {
                        previous_frame_pointer: old(self).status.frame_pointer,
                        previous_local_pointer: old(self).status.local_pointer,
                        previous_base_pointer: old(self).status.base_pointer,
                        return_vm_module_index: old(self).status.vm_module_index,
                        return_function_index: old(self).status.function_index,
                        return_address: (old(self).status.address + 1) as usize,
                        frame_type: BlockType::TypeIndex(type_index as u32),
                    },
                ),
            ) + Seq::new(
                local_types@.len(),
                |i: int| StackCell::Operand(Value::spec_zero_of(local_types@[i])),
            ));
        }
        Ok(())
    }

    /// Enters a structured-block frame: the block's `param_count`
    /// parameters are peeled off the current operand region and stay
    /// addressable as the new frame's first operands, above the fresh info
    /// record. The local pointer is inherited, so in the new frame
    /// `frame_pointer != local_pointer` whenever the pointers were ordered
    /// before the call: a block entry never looks like a call frame.
    pub fn push_block_frame(&mut self, frame_type: BlockType, param_count: usize, end_address: usize) -> (r: Result<
        (),
        EngineError,
    >)
        ensures
            r is Err <==> param_count > spec_available_operands(old(self)@, old(self).status)
                || end_address == usize::MAX,
            match r {
                Ok(()) => {
                    &&& final(self).status.local_pointer == old(self).status.local_pointer
                    &&& final(self).status.frame_type == frame_type
                    &&& final(self).status.address == old(self).status.address
                    &&& final(self).status.base_pointer == final(self).status.frame_pointer
                    &&& final(self).status.frame_pointer == old(self)@.len() - param_count + 1
                    &&& final(self).status.vm_module_index == old(self).status.vm_module_index
                    &&& final(self).status.function_index == old(self).status.function_index
                    &&& final(self)@.len() == old(self)@.len() + 1
                    &&& final(self)@ == old(self)@.insert(
                        old(self)@.len() - param_count,
                        StackCell::Info(
                            FrameInfo {
                                previous_frame_pointer: old(self).status.frame_pointer,
                                previous_local_pointer: old(self).status.local_pointer,
                                previous_base_pointer: old(self).status.base_pointer,
                                return_vm_module_index: old(self).status.vm_module_index,
                                return_function_index: old(self).status.function_index,
                                return_address: (end_address + 1) as usize,
                                frame_type,
                            },
                        ),
                    )
                    &&& ((old(self).status.local_pointer <= old(self).status.frame_pointer
                        && old(self).status.frame_pointer <= old(self).status.base_pointer
                        && old(self).status.base_pointer <= old(self)@.len())
                        ==> final(self).status.frame_pointer > final(self).status.local_pointer)
                },
                Err(_) => final(self)@ == old(self)@ && final(self).status == old(self).status,
            },
            final(self).resource == old(self).resource,
            final(self).pending == old(self).pending,
    {
        let size = self.stack.get_size();
        let available = if self.status.base_pointer <= size {
            size - self.status.base_pointer
        } else {
            0
        };
        if param_count > available {
            return Err(EngineError::InvalidOperation(InvalidOperation::NotEnoughOperand));
        }
        let return_address = match end_address.checked_add(1) {
            Some(a) => a,
            None => {
                return Err(
                    EngineError::InvalidOperation(InvalidOperation::InvalidProgramCounter),
                );
            },
        };
        let args_start = size - param_count;
        let info = FrameInfo {
            previous_frame_pointer: self.status.frame_pointer,
            previous_local_pointer: self.status.local_pointer,
            previous_base_pointer: self.status.base_pointer,
            return_vm_module_index: self.status.vm_module_index,
            return_function_index: self.status.function_index,
            return_address,
            frame_type,
        };
        self.stack.cells.insert(args_start, StackCell::Info(info));
        let total_size = self.stack.get_size();
        proof {
            assert(args_start < total_size);
        }
        let frame_pointer = args_start + 1;
        self.status = VMStatus {
            vm_module_index: self.status.vm_module_index,
            function_index: self.status.function_index,
            frame_type,
            address: self.status.address,
            frame_pointer,
            local_pointer: self.status.local_pointer,
            base_pointer: frame_pointer,
        };
        Ok(())
    }

    /// Pops the current frame, carrying the top `results_count` operands
    /// across: the frame's cells and its info record are discarded, the
    /// previous status is restored from the record, and the carried
    /// results are pushed back for the enclosing frame.
    ///
    /// Returns the restored program counter: module, function, frame type
    /// and address. When the record stores the initial frame-pointer
    /// sentinel, the popped frame was the first one: the stack then holds
    /// exactly the carried results, and the caller reports program end.
    pub fn pop_frame(&mut self, results_count: usize) -> (r: Result<
        (usize, usize, BlockType, usize),
        EngineError,
    >)
        ensures
            ({
                match spec_pop_frame(old(self)@, old(self).status, results_count as int) {
                    Some(after) => {
                        &&& r matches Ok(popped) && popped == (
                            after.1.vm_module_index,
                            after.1.function_index,
                            after.1.frame_type,
                            after.1.address,
                        )
                        &&& final(self)@ == after.0
                        &&& final(self).status == after.1
                    },
                    Option::None => {
                        &&& r is Err
                        &&& final(self)@ == old(self)@ && final(self).status == old(self).status
                    },
                }
            }),
            match r {
                Ok(popped) => {
                    &&& old(self).status.frame_pointer >= 1
                    &&& final(self)@.len() == old(self).status.frame_pointer - 1 + results_count
                    &&& final(self).status.frame_pointer < old(self).status.frame_pointer
                    &&& ((final(self).status.frame_pointer == INITIAL_FRAME_POINTER
                        && old(self).status.frame_pointer == 1)
                        ==> final(self)@.len() == results_count)
                },
                Err(e) => final(self)@ == old(self)@ && final(self).status == old(self).status
                    && (e == EngineError::InvalidOperation(InvalidOperation::NotEnoughOperand)
                    || e == EngineError::InvalidOperation(InvalidOperation::InvalidStackFrame)),
            },
            final(self).resource == old(self).resource,
            final(self).pending == old(self).pending,
    {
        let size = self.stack.get_size();
        let fp = self.status.frame_pointer;
        if fp < 1 || fp > size {
            return Err(EngineError::InvalidOperation(InvalidOperation::InvalidStackFrame));
        }
        let info = match self.stack.cells[fp - 1] {
            StackCell::Info(info) => info,
            StackCell::Operand(_) => {
                return Err(EngineError::InvalidOperation(InvalidOperation::InvalidStackFrame));
            },
        };
        if info.previous_frame_pointer >= fp {
            return Err(EngineError::InvalidOperation(InvalidOperation::InvalidStackFrame));
        }
        // the carried results must be operands above the info record
        if results_count > size - fp {
            return Err(EngineError::InvalidOperation(InvalidOperation::NotEnoughOperand));
        }
        let results = match self.stack.peek_values(results_count) {
            Ok(values) => values,
            Err(e) => {
                return Err(e);
            },
        };
        // the restored frame type: the record of the enclosing frame
        let restored_frame_type = if info.previous_frame_pointer == INITIAL_FRAME_POINTER {
            info.frame_type
        } else {
            let prev_fp = info.previous_frame_pointer;
            match self.stack.cells[prev_fp - 1] {
                StackCell::Info(previous_info) => previous_info.frame_type,
                StackCell::Operand(_) => {
                    return Err(
                        EngineError::InvalidOperation(InvalidOperation::InvalidStackFrame),
                    );
                },
            }
        };
        self.stack.cells.truncate(fp - 1);
        let mut i: usize = 0;
        while i < results_count
            invariant
                0 <= i <= results_count,
                results@.len() == results_count,
                self.stack@.len() == fp - 1 + i,
                self.stack@.take(fp - 1) == old(self)@.take(fp - 1),
                self.status == old(self).status,
                self.resource == old(self).resource,
                self.pending == old(self).pending,
                fp >= 1,
                forall|j: int|
                    fp - 1 <= j < self.stack@.len() ==> #[trigger] self.stack@[j]
                        == StackCell::Operand(results@[j - (fp - 1)]),
            decreases results_count - i,
        {
            let ghost old_cells = self.stack@;
            self.stack.cells.push(StackCell::Operand(results[i]));
            proof {
                assert forall|j: int| fp - 1 <= j < self.stack@.len() implies #[trigger] self
                    .stack@[j] == StackCell::Operand(results@[j - (fp - 1)]) by {
                    if j < self.stack@.len() - 1 {
                        assert(self.stack@[j] == old_cells[j]);
                    } else {
                        assert(self.stack@[j] == StackCell::Operand(results@[i as int]));
                    }
                }
                assert(self.stack@.take(fp - 1) =~= old_cells.take(fp - 1));
            }
            i += 1;
        }
        self.status = VMStatus {
            vm_module_index: info.return_vm_module_index,
            function_index: info.return_function_index,
            frame_type: restored_frame_type,
            address: info.return_address,
            frame_pointer: info.previous_frame_pointer,
            local_pointer: info.previous_local_pointer,
            base_pointer: info.previous_base_pointer,
        };
        proof {
            assert(self.stack@ =~= old(self)@.take(fp - 1) + old(self)@.skip(
                old(self)@.len() - results_count,
            ));
        }
        Ok(
            (
                info.return_vm_module_index,
                info.return_function_index,
                restored_frame_type,
                info.return_address,
            ),
        )
    }

    /// Every runtime check of popping `depth` frames in a row, each pop
    /// carrying the top `count` operands, passes. The walk is read only, so
    /// a branch whose checks fail can trap before any frame is unwound.
    pub fn chain_pops_ok(&self, count: usize, depth: usize) -> (r: bool)
        ensures
            r == (spec_pop_frames(self@, self.status, count as int, depth as int) is Some),
    {
        if depth == 0 {
            return true;
        }
        let s_len = self.stack.get_size();
        let fp0 = self.status.frame_pointer;
        // the checks of the first pop, on the stack as it stands
        if fp0 < 1 || fp0 > s_len {
            return false;
        }
        let info0 = match self.stack.cells[fp0 - 1] {
            StackCell::Info(info) => info,
            StackCell::Operand(_) => {
                return false;
            },
        };
        if info0.previous_frame_pointer >= fp0 {
            return false;
        }
        if count > s_len - fp0 {
            return false;
        }
        // the carried cells must all be operands
        let mut j: usize = s_len - count;
        while j < s_len
            invariant
                depth >= 1,
                s_len == self@.len(),
                s_len - count <= j <= s_len,
                spec_all_operands(self@, s_len - count, j as int),
            decreases s_len - j,
        {
            match self.stack.cells[j] {
                StackCell::Operand(_) => {},
                StackCell::Info(_) => {
                    proof {
                        assert(!spec_all_operands(self@, s_len - count, s_len as int));
                        assert(spec_pop_frame(self@, self.status, count as int) is None);
                        assert(spec_pop_frames(
                            self@,
                            self.status,
                            count as int,
                            depth as int,
                        ) is None);
                    }
                    return false;
                },
            }
            j += 1;
        }
        if info0.previous_frame_pointer != INITIAL_FRAME_POINTER {
            match self.stack.cells[info0.previous_frame_pointer - 1] {
                StackCell::Info(_) => {},
                StackCell::Operand(_) => {
                    proof {
                        assert(spec_pop_frame(self@, self.status, count as int) is None);
                        assert(spec_pop_frames(
                            self@,
                            self.status,
                            count as int,
                            depth as int,
                        ) is None);
                    }
                    return false;
                },
            }
        }
        proof {
            reveal_with_fuel(spec_pop_frames, 2);
            assert(spec_pop_frame(self@, self.status, count as int) is Some);
        }
        let ghost mut cur: (Seq<StackCell>, VMStatus) = spec_pop_frame(
            self@,
            self.status,
            count as int,
        )->Some_0;
        proof {
            assert(spec_pop_frames(self@, self.status, count as int, 1) == Some(cur));
            assert(cur.0 =~= self@.take(fp0 - 1) + self@.skip(s_len - count));
        }
        // walk the remaining records read-only: after the first pop the
        // carried cells sit on top, so only the records can still fail
        let mut k: usize = 1;
        let mut last_fp: usize = fp0;
        let mut cur_fp: usize = info0.previous_frame_pointer;
        while k < depth
            invariant
                1 <= k <= depth,
                s_len == self@.len(),
                1 <= last_fp <= s_len,
                count <= s_len - last_fp,
                cur_fp < last_fp,
                spec_all_operands(self@, s_len - count, s_len as int),
                spec_pop_frames(self@, self.status, count as int, k as int) == Some(cur),
                cur.1.frame_pointer == cur_fp,
                cur.0 == self@.take(last_fp - 1) + self@.skip(s_len - count),
            decreases depth - k,
        {
            let ghost pre = cur;
            if cur_fp < 1 {
                proof {
                    assert(spec_pop_frame(cur.0, cur.1, count as int) is None);
                    lemma_pop_frames_snoc(self@, self.status, count as int, k as int);
                    lemma_pop_frames_none_mono(
                        self@,
                        self.status,
                        count as int,
                        k + 1,
                        depth as int,
                    );
                }
                return false;
            }
            proof {
                assert(cur.0.len() == last_fp - 1 + count);
                assert(cur_fp - 1 < last_fp - 1);
                assert(cur.0[cur_fp - 1] == self@[cur_fp - 1]);
            }
            let info = match self.stack.cells[cur_fp - 1] {
                StackCell::Info(info) => info,
                StackCell::Operand(_) => {
                    proof {
                        assert(spec_pop_frame(cur.0, cur.1, count as int) is None);
                        lemma_pop_frames_snoc(self@, self.status, count as int, k as int);
                        lemma_pop_frames_none_mono(
                            self@,
                            self.status,
                            count as int,
                            k + 1,
                            depth as int,
                        );
                    }
                    return false;
                },
            };
            if info.previous_frame_pointer >= cur_fp {
                proof {
                    assert(spec_pop_frame(cur.0, cur.1, count as int) is None);
                    lemma_pop_frames_snoc(self@, self.status, count as int, k as int);
                    lemma_pop_frames_none_mono(
                        self@,
                        self.status,
                        count as int,
                        k + 1,
                        depth as int,
                    );
                }
                return false;
            }
            if info.previous_frame_pointer != INITIAL_FRAME_POINTER {
                proof {
                    assert(info.previous_frame_pointer - 1 < cur_fp - 1);
                    assert(cur.0[info.previous_frame_pointer - 1] == self@[info.previous_frame_pointer
                        - 1]);
                }
                match self.stack.cells[info.previous_frame_pointer - 1] {
                    StackCell::Info(_) => {},
                    StackCell::Operand(_) => {
                        proof {
                            assert(spec_pop_frame(cur.0, cur.1, count as int) is None);
                            lemma_pop_frames_snoc(self@, self.status, count as int, k as int);
                            lemma_pop_frames_none_mono(
                                self@,
                                self.status,
                                count as int,
                                k + 1,
                                depth as int,
                            );
                        }
                        return false;
                    },
                }
            }
            proof {
                // the carried operands top the current stack, so the
                // operand checks of this pop pass
                assert forall|i: int|
                    cur.0.len() - count <= i < cur.0.len() implies (#[trigger] cur.0[i])
                        is Operand by {
                    assert(cur.0[i] == self@[s_len - count + (i - (cur.0.len() - count))]);
                }
                assert(count <= cur.0.len() - cur_fp);
                assert(spec_pop_frame(cur.0, cur.1, count as int) is Some);
                lemma_pop_frames_snoc(self@, self.status, count as int, k as int);
                let next = spec_pop_frame(cur.0, cur.1, count as int)->Some_0;
                assert(next.0 =~= self@.take(cur_fp - 1) + self@.skip(s_len - count));
                cur = next;
            }
            last_fp = cur_fp;
            cur_fp = info.previous_frame_pointer;
            k += 1;
        }
        true
    }

    /// The result types a frame of the given type must leave behind: from
    /// the frame type itself, or the current module's type table for a
    /// type-indexed frame. Fails exactly when that table lookup is out of
    /// range.
    pub fn frame_result_types(&self, frame_type: &BlockType) -> (r: Result<
        Vec<ValueType>,
        EngineError,
    >)
        ensures
            match r {
                Ok(types) => spec_frame_result_types(*self, *frame_type) == Some(types@),
                Err(e) => spec_frame_result_types(*self, *frame_type) is None && e
                    == EngineError::InvalidOperation(InvalidOperation::InvalidTypeIndex),
            },
    {
        match frame_type {
            BlockType::ResultEmpty => Ok(Vec::new()),
            BlockType::ResultI32 => {
                let mut types: Vec<ValueType> = Vec::new();
                types.push(ValueType::I32);
                proof {
                    assert(types@ =~= seq![ValueType::I32]);
                }
                Ok(types)
            },
            BlockType::ResultI64 => {
                let mut types: Vec<ValueType> = Vec::new();
                types.push(ValueType::I64);
                proof {
                    assert(types@ =~= seq![ValueType::I64]);
                }
                Ok(types)
            },
            BlockType::ResultF32 => {
                let mut types: Vec<ValueType> = Vec::new();
                types.push(ValueType::F32);
                proof {
                    assert(types@ =~= seq![ValueType::F32]);
                }
                Ok(types)
            },
            BlockType::ResultF64 => {
                let mut types: Vec<ValueType> = Vec::new();
                types.push(ValueType::F64);
                proof {
                    assert(types@ =~= seq![ValueType::F64]);
                }
                Ok(types)
            },
            BlockType::TypeIndex(type_index) => {
                let module_index = self.status.vm_module_index;
                if module_index >= self.resource.vm_modules.len() {
                    return Err(
                        EngineError::InvalidOperation(InvalidOperation::InvalidTypeIndex),
                    );
                }
                let vm_module = &self.resource.vm_modules[module_index];
                if *type_index as usize >= vm_module.function_types.len() {
                    return Err(
                        EngineError::InvalidOperation(InvalidOperation::InvalidTypeIndex),
                    );
                }
                let function_type = &vm_module.function_types[*type_index as usize];
                let mut types: Vec<ValueType> = Vec::new();
                let count = function_type.results.len();
                let mut i: usize = 0;
                while i < count
                    invariant
                        0 <= i <= count,
                        count == function_type.results@.len(),
                        types@ == function_type.results@.take(i as int),
                    decreases count - i,
                {
                    types.push(function_type.results[i]);
                    proof {
                        assert(types@ =~= function_type.results@.take(i + 1 as int));
                    }
                    i += 1;
                }
                proof {
                    assert(function_type.results@.take(count as int) =~= function_type.results@);
                }
                Ok(types)
            },
        }
    }

    /// The parameter arity a frame of the given type expects. Fails
    /// exactly when the type-table lookup is out of range.
    pub fn frame_param_count(&self, frame_type: &BlockType) -> (r: Result<usize, EngineError>)
        ensures
            match r {
                Ok(n) => spec_frame_param_count(*self, *frame_type) == Some(n as int),
                Err(e) => spec_frame_param_count(*self, *frame_type) is None && e
                    == EngineError::InvalidOperation(InvalidOperation::InvalidTypeIndex),
            },
    {
        match frame_type {
            BlockType::TypeIndex(type_index) => {
                let module_index = self.status.vm_module_index;
                if module_index >= self.resource.vm_modules.len() {
                    return Err(
                        EngineError::InvalidOperation(InvalidOperation::InvalidTypeIndex),
                    );
                }
                let vm_module = &self.resource.vm_modules[module_index];
                if *type_index as usize >= vm_module.function_types.len() {
                    return Err(
                        EngineError::InvalidOperation(InvalidOperation::InvalidTypeIndex),
                    );
                }
                Ok(vm_module.function_types[*type_index as usize].params.len())
            },
            _ => Ok(0),
        }
    }
}

impl VM {
    /// The stack cells, for contracts.
    pub open spec fn view(&self) -> Seq<StackCell> {
        self.stack@
    }
}

} // verus!

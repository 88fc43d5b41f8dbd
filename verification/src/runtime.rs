//! The interpreter state that generated code runs against: frames, registers and
//! the heap's cell table, with the register-access rules the interpreter applies.
use vstd::prelude::*;
use crate::bytecode::{
    BytecodeIndex, CodeBlock, ConstantEntry, CoreOpcode, Opcode, RegisterClass, VirtualRegister,
    spec_register_class,
};
use crate::value::RuntimeValue;

verus! {

#[derive(Clone, Copy, Debug, PartialEq, Eq, Structural)]
pub struct CodeBlockId(pub u64);

#[derive(Clone, Copy, Debug, PartialEq, Eq, Structural)]
pub struct CallFrameId(pub u64);

#[derive(Clone, Copy, Debug, PartialEq, Eq, Structural)]
pub struct ObjectId(pub u64);

#[derive(Clone, Copy, Debug, PartialEq, Eq, Structural)]
pub struct ExecutableId(pub u64);

/// Errors of the interpreter that generated code can run into.
#[derive(Clone, Copy, Debug, PartialEq, Eq, Structural)]
pub enum ExecutionError {
    NoActiveFrame,
    FrameMismatch { expected: CallFrameId, actual: Option<CallFrameId> },
    CodeBlockMismatch { expected: CodeBlockId, actual: Option<CodeBlockId> },
    RegisterWindowMismatch,
    InvalidArgumentCount,
    InvalidRegister,
    CannotWriteConstant,
    CannotAddressHeaderAsValue,
    MissingConstantPool,
    DeferredConstant,
    RegisterOutOfBounds,
    InvalidBytecodeIndex(BytecodeIndex),
    UnsupportedOpcode(Opcode),
    BaselineGeneratedExecutionRejected,
    ExecutionBudgetExhausted,
}

/// The slots of one frame in the register file: `this` and the arguments first,
/// then the locals.
#[derive(Clone, Copy, Debug, PartialEq, Eq, Structural)]
pub struct RegisterWindow {
    pub base: u64,
    pub num_arguments: u32,
    pub num_locals: u32,
}

/// One activation on the execution context stack.
#[derive(Clone, Copy, Debug, PartialEq, Eq, Structural)]
pub struct Frame {
    pub id: CallFrameId,
    pub code_block: Option<CodeBlockId>,
    pub register_window: RegisterWindow,
    pub bytecode_index: Option<BytecodeIndex>,
    pub callee_value: Option<RuntimeValue>,
}

#[derive(Clone, Debug, PartialEq, Eq)]
pub struct ExecutionContextStack {
    pub frames: Vec<Frame>,
    pub next_frame_id: u64,
    /// The global object's `this` value of the realm the frames run in, once it is known.
    pub global_this_value: Option<RuntimeValue>,
}

/// The global `this` value seen from the active frame: there must be one, and an unknown
/// global reads as `undefined`.
pub open spec fn spec_active_global_this_value(stack: ExecutionContextStack) -> Result<RuntimeValue, ExecutionError> {
    if stack.frames@.len() == 0 {
        Err(ExecutionError::NoActiveFrame)
    } else {
        match stack.global_this_value {
            Some(value) => Ok(value),
            None => Ok(RuntimeValue::Undefined),
        }
    }
}

#[derive(Clone, Debug, PartialEq, Eq)]
pub struct RegisterFile {
    pub slots: Vec<RuntimeValue>,
}

/// The heap's table of cells: cell `i` has the pointer payload `cells[i]`.
#[derive(Clone, Debug, PartialEq, Eq)]
pub struct Heap {
    pub cells: Vec<u64>,
}

/// Everything generated code may read or change while it runs.
#[derive(Clone, Debug, PartialEq, Eq)]
pub struct InterpreterExecutionState {
    pub stack: ExecutionContextStack,
    pub registers: RegisterFile,
    pub heap: Heap,
}

/// What a frame asks for when it is pushed.
#[derive(Clone, Copy, Debug, PartialEq, Eq, Structural)]
pub struct FramePushRequest {
    pub code_block: Option<CodeBlockId>,
    pub callee_value: Option<RuntimeValue>,
    pub num_arguments_including_this: u32,
    pub num_locals: u32,
    pub start_bytecode_index: Option<BytecodeIndex>,
}

/// Where the interpreter resumes when generated code gives up.
#[derive(Clone, Copy, Debug, PartialEq, Eq, Structural)]
pub struct BaselineFallbackRequest {
    pub code_block: CodeBlockId,
    pub frame: CallFrameId,
    pub bytecode_index: BytecodeIndex,
}

impl BaselineFallbackRequest {
    pub fn new(code_block: CodeBlockId, frame: CallFrameId, bytecode_index: BytecodeIndex) -> (r:
        BaselineFallbackRequest)
        ensures
            r == (BaselineFallbackRequest { code_block, frame, bytecode_index }),
    {
        BaselineFallbackRequest { code_block, frame, bytecode_index }
    }
}

#[derive(Clone, Copy, Debug, PartialEq, Eq, Structural)]
pub enum ExecutionCompletion {
    Returned(RuntimeValue),
}

#[derive(Clone, Copy, Debug, PartialEq, Eq, Structural)]
pub enum CallReturnKind {
    Call,
    CallWithThis,
}

impl CallReturnKind {
    pub fn from_opcode(opcode: CoreOpcode) -> (r: Option<CallReturnKind>)
        ensures
            r == spec_call_return_kind(opcode),
    {
        match opcode {
            CoreOpcode::Call => Some(CallReturnKind::Call),
            CoreOpcode::CallWithThis => Some(CallReturnKind::CallWithThis),
            _ => None,
        }
    }
}

pub open spec fn spec_call_return_kind(opcode: CoreOpcode) -> Option<CallReturnKind> {
    match opcode {
        CoreOpcode::Call => Some(CallReturnKind::Call),
        CoreOpcode::CallWithThis => Some(CallReturnKind::CallWithThis),
        _ => None,
    }
}

/// How the caller resumes after a JavaScript call returns.
#[derive(Clone, Copy, Debug, PartialEq, Eq, Structural)]
pub struct CallReturnContinuation {
    pub caller_frame: CallFrameId,
    pub callee_frame: Option<CallFrameId>,
    pub owner: CodeBlockId,
    pub call_bytecode_index: BytecodeIndex,
    pub resume_bytecode_index: Option<BytecodeIndex>,
    pub destination: VirtualRegister,
    pub argument_count_including_this: u32,
    pub callee_value: Option<RuntimeValue>,
    pub callee_object: Option<ObjectId>,
    pub kind: CallReturnKind,
}

/// The request from which a call-return continuation is made.
#[derive(Clone, Copy, Debug, PartialEq, Eq, Structural)]
pub struct CallReturnContinuationRequest {
    pub caller_frame: CallFrameId,
    pub caller_window: RegisterWindow,
    pub owner: CodeBlockId,
    pub call_bytecode_index: BytecodeIndex,
    pub resume_bytecode_index: Option<BytecodeIndex>,
    pub destination: VirtualRegister,
    pub argument_count_including_this: u32,
    pub callee_value: Option<RuntimeValue>,
    pub kind: CallReturnKind,
}

/// The abstract state generated code reads: register slots, frames (the last is the
/// active one) and the pointer payloads of the heap's cells.
pub struct ExecutionView {
    pub slots: Seq<RuntimeValue>,
    pub frames: Seq<Frame>,
    pub cells: Seq<u64>,
}

pub open spec fn spec_execution_view(execution: InterpreterExecutionState) -> ExecutionView {
    ExecutionView {
        slots: execution.registers.slots@,
        frames: execution.stack.frames@,
        cells: execution.heap.cells@,
    }
}

pub open spec fn spec_last_frame(frames: Seq<Frame>) -> Option<Frame> {
    if frames.len() == 0 {
        None
    } else {
        Some(frames.last())
    }
}

pub open spec fn spec_top_frame(stack: ExecutionContextStack) -> Option<Frame> {
    spec_last_frame(stack.frames@)
}

/// The slot of a register that can hold a value (an argument or a local) in a window.
pub open spec fn spec_value_slot(
    slots: Seq<RuntimeValue>,
    window: RegisterWindow,
    register: VirtualRegister,
) -> Result<int, ExecutionError> {
    let slot: Result<int, ExecutionError> = match spec_register_class(register) {
        RegisterClass::Invalid => Err(ExecutionError::InvalidRegister),
        RegisterClass::Header(_) => Err(ExecutionError::CannotAddressHeaderAsValue),
        RegisterClass::Constant(_) => Err(ExecutionError::CannotWriteConstant),
        RegisterClass::Argument(index) => if index < window.num_arguments {
            Ok(window.base + index)
        } else {
            Err(ExecutionError::RegisterOutOfBounds)
        },
        RegisterClass::Local(index) => if index < window.num_locals {
            Ok(window.base + window.num_arguments + index)
        } else {
            Err(ExecutionError::RegisterOutOfBounds)
        },
    };
    match slot {
        Ok(index) => if index < slots.len() {
            Ok(index)
        } else {
            Err(ExecutionError::RegisterOutOfBounds)
        },
        Err(error) => Err(error),
    }
}

/// Reading a register: constants come from the code block's pool, other registers
/// from the window's slots.
pub open spec fn spec_read_register(
    slots: Seq<RuntimeValue>,
    code_block: CodeBlock,
    window: RegisterWindow,
    register: VirtualRegister,
) -> Result<RuntimeValue, ExecutionError> {
    match spec_register_class(register) {
        RegisterClass::Constant(index) => match code_block.constants {
            None => Err(ExecutionError::MissingConstantPool),
            Some(constants) => if index < constants@.len() {
                match constants@[index as int] {
                    ConstantEntry::Value(value) => Ok(value),
                    ConstantEntry::Deferred => Err(ExecutionError::DeferredConstant),
                }
            } else {
                Err(ExecutionError::RegisterOutOfBounds)
            },
        },
        _ => match spec_value_slot(slots, window, register) {
            Ok(index) => Ok(slots[index]),
            Err(error) => Err(error),
        },
    }
}

/// Writing a register: only arguments and locals inside the window can be written.
pub open spec fn spec_write_register(
    slots: Seq<RuntimeValue>,
    window: RegisterWindow,
    register: VirtualRegister,
    value: RuntimeValue,
) -> Result<Seq<RuntimeValue>, ExecutionError> {
    match spec_value_slot(slots, window, register) {
        Ok(index) => Ok(slots.update(index, value)),
        Err(error) => Err(error),
    }
}

pub open spec fn spec_active_frame(
    stack: ExecutionContextStack,
    expected_frame: CallFrameId,
    owner: CodeBlockId,
) -> Result<(Frame, RegisterWindow), ExecutionError> {
    match spec_top_frame(stack) {
        None => Err(ExecutionError::NoActiveFrame),
        Some(frame) => if frame.id != expected_frame {
            Err(ExecutionError::FrameMismatch { expected: expected_frame, actual: Some(frame.id) })
        } else if frame.code_block != Some(owner) {
            Err(ExecutionError::CodeBlockMismatch { expected: owner, actual: frame.code_block })
        } else {
            Ok((frame, frame.register_window))
        },
    }
}

/// The first cell whose pointer payload is `payload`.
pub open spec fn spec_cell_for_payload(cells: Seq<u64>, payload: u64) -> Option<u64> {
    if exists|i: int| 0 <= i < cells.len() && cells[i] == payload {
        Some((choose|i: int| 0 <= i < cells.len() && cells[i] == payload
            && forall|j: int| 0 <= j < i ==> cells[j] != payload) as u64)
    } else {
        None
    }
}

impl RegisterFile {
    pub fn new() -> (r: RegisterFile)
        ensures
            r.slots@.len() == 0,
    {
        RegisterFile { slots: Vec::new() }
    }

    fn value_slot(&self, window: RegisterWindow, register: VirtualRegister) -> (r: Result<
        usize,
        ExecutionError,
    >)
        ensures
            match spec_value_slot(self.slots@, window, register) {
                Ok(index) => r is Ok && r->Ok_0 as int == index,
                Err(error) => r == Err::<usize, ExecutionError>(error),
            },
    {
        let len = self.slots.len();
        let slot: Result<u128, ExecutionError> = match register.class() {
            RegisterClass::Invalid => Err(ExecutionError::InvalidRegister),
            RegisterClass::Header(_) => Err(ExecutionError::CannotAddressHeaderAsValue),
            RegisterClass::Constant(_) => Err(ExecutionError::CannotWriteConstant),
            RegisterClass::Argument(index) => if index < window.num_arguments {
                Ok(window.base as u128 + index as u128)
            } else {
                Err(ExecutionError::RegisterOutOfBounds)
            },
            RegisterClass::Local(index) => if index < window.num_locals {
                Ok(window.base as u128 + window.num_arguments as u128 + index as u128)
            } else {
                Err(ExecutionError::RegisterOutOfBounds)
            },
        };
        match slot {
            Ok(index) => if index < len as u128 {
                Ok(index as usize)
            } else {
                Err(ExecutionError::RegisterOutOfBounds)
            },
            Err(error) => Err(error),
        }
    }

    /// Reads a register of `window`; constants come from `code_block`.
    pub fn read(&self, window: RegisterWindow, register: VirtualRegister, code_block: &CodeBlock) -> (r:
        Result<RuntimeValue, ExecutionError>)
        ensures
            r == spec_read_register(self.slots@, *code_block, window, register),
    {
        match register.class() {
            RegisterClass::Constant(index) => match &code_block.constants {
                None => Err(ExecutionError::MissingConstantPool),
                Some(constants) => if (index as usize) < constants.len() {
                    match constants[index as usize] {
                        ConstantEntry::Value(value) => Ok(value),
                        ConstantEntry::Deferred => Err(ExecutionError::DeferredConstant),
                    }
                } else {
                    Err(ExecutionError::RegisterOutOfBounds)
                },
            },
            _ => match self.value_slot(window, register) {
                Ok(index) => Ok(self.slots[index]),
                Err(error) => Err(error),
            },
        }
    }

    /// Writes a register of `window`; on an error nothing changes.
    pub fn write(&mut self, window: RegisterWindow, register: VirtualRegister, value: RuntimeValue) -> (r:
        Result<(), ExecutionError>)
        ensures
            match spec_write_register(old(self).slots@, window, register, value) {
                Ok(slots) => r is Ok && final(self).slots@ == slots,
                Err(error) => r == Err::<(), ExecutionError>(error) && final(self).slots@ == old(
                    self,
                ).slots@,
            },
    {
        match self.value_slot(window, register) {
            Ok(index) => {
                self.slots.set(index, value);
                Ok(())
            },
            Err(error) => Err(error),
        }
    }

    /// Checks that `register` can be written in `window`.
    pub fn validate_writable_register(&self, window: RegisterWindow, register: VirtualRegister) -> (r:
        Result<(), ExecutionError>)
        ensures
            match spec_value_slot(self.slots@, window, register) {
                Ok(_) => r == Ok::<(), ExecutionError>(()),
                Err(error) => r == Err::<(), ExecutionError>(error),
            },
    {
        match self.value_slot(window, register) {
            Ok(_) => Ok(()),
            Err(error) => Err(error),
        }
    }
}

impl Heap {
    pub fn new() -> (r: Heap)
        ensures
            r.cells@.len() == 0,
    {
        Heap { cells: Vec::new() }
    }

    /// Records a cell with the given pointer payload and returns its id.
    pub fn allocate(&mut self, payload: u64) -> (r: u64)
        requires
            old(self).cells@.len() < u64::MAX,
        ensures
            final(self).cells@ == old(self).cells@.push(payload),
            r == old(self).cells@.len(),
    {
        let id = self.cells.len() as u64;
        self.cells.push(payload);
        id
    }

    /// The first cell whose pointer payload is `payload`.
    pub fn cell_for_payload(&self, payload: u64) -> (r: Option<u64>)
        ensures
            r == spec_cell_for_payload(self.cells@, payload),
    {
        let mut i: usize = 0;
        while i < self.cells.len()
            invariant
                i <= self.cells@.len(),
                forall|j: int| 0 <= j < i ==> self.cells@[j] != payload,
            decreases self.cells@.len() - i,
        {
            if self.cells[i] == payload {
                assert(forall|j: int| 0 <= j < i ==> self.cells@[j] != payload);
                let ghost chosen = choose|k: int| 0 <= k < self.cells@.len() && self.cells@[k]
                    == payload && forall|j: int| 0 <= j < k ==> self.cells@[j] != payload;
                assert(chosen == i as int) by {
                    if chosen < i as int {
                        assert(self.cells@[chosen] != payload);
                    } else if chosen > i as int {
                        assert(self.cells@[i as int] != payload);
                    }
                }
                return Some(i as u64);
            }
            i = i + 1;
        }
        None
    }
}

impl ExecutionContextStack {
    pub fn new() -> (r: ExecutionContextStack)
        ensures
            r.frames@.len() == 0,
            r.next_frame_id == 0,
            r.global_this_value is None,
    {
        ExecutionContextStack { frames: Vec::new(), next_frame_id: 0, global_this_value: None }
    }

    /// Sets the global `this` value of the realm the frames run in.
    pub fn set_global_this_value(&mut self, value: RuntimeValue)
        ensures
            final(self).frames == old(self).frames,
            final(self).next_frame_id == old(self).next_frame_id,
            final(self).global_this_value == Some(value),
    {
        self.global_this_value = Some(value);
    }

    pub fn active_global_this_value(&self) -> (r: Result<RuntimeValue, ExecutionError>)
        ensures
            r == spec_active_global_this_value(*self),
    {
        if self.frames.len() == 0 {
            return Err(ExecutionError::NoActiveFrame);
        }
        match self.global_this_value {
            Some(value) => Ok(value),
            None => Ok(RuntimeValue::Undefined),
        }
    }

    pub fn top_frame(&self) -> (r: Option<&Frame>)
        ensures
            match spec_top_frame(*self) {
                Some(frame) => r == Some(&frame),
                None => r is None,
            },
    {
        if self.frames.len() == 0 {
            None
        } else {
            Some(&self.frames[self.frames.len() - 1])
        }
    }

    /// Records the bytecode index that the top frame is executing.
    pub fn mark_top_bytecode_index(&mut self, bytecode_index: BytecodeIndex)
        ensures
            final(self).next_frame_id == old(self).next_frame_id,
            final(self).global_this_value == old(self).global_this_value,
            final(self).frames@.len() == old(self).frames@.len(),
            old(self).frames@.len() == 0 ==> final(self).frames@ == old(self).frames@,
            old(self).frames@.len() > 0 ==> final(self).frames@ == old(self).frames@.update(
                old(self).frames@.len() - 1,
                Frame { bytecode_index: Some(bytecode_index), ..old(self).frames@.last() },
            ),
    {
        let len = self.frames.len();
        if len > 0 {
            let mut frame = self.frames[len - 1];
            frame.bytecode_index = Some(bytecode_index);
            self.frames.set(len - 1, frame);
        }
    }

    /// Sets the callee value that the top frame reports.
    pub fn set_top_callee_value(&mut self, callee_value: Option<RuntimeValue>)
        ensures
            final(self).next_frame_id == old(self).next_frame_id,
            old(self).frames@.len() == 0 ==> final(self).frames@ == old(self).frames@,
            old(self).frames@.len() > 0 ==> final(self).frames@ == old(self).frames@.update(
                old(self).frames@.len() - 1,
                Frame { callee_value, ..old(self).frames@.last() },
            ),
    {
        let len = self.frames.len();
        if len > 0 {
            let mut frame = self.frames[len - 1];
            frame.callee_value = callee_value;
            self.frames.set(len - 1, frame);
        }
    }

    /// Pushes a frame whose window is a fresh run of `undefined` slots at the end
    /// of the register file.
    pub fn push_frame(&mut self, registers: &mut RegisterFile, request: FramePushRequest) -> (r:
        Result<CallFrameId, ExecutionError>)
        ensures
            r is Ok ==> {
                &&& final(self).frames@.len() == old(self).frames@.len() + 1
                &&& final(self).frames@.drop_last() == old(self).frames@
                &&& final(self).frames@.last().id == r->Ok_0
                &&& final(self).frames@.last().code_block == request.code_block
                &&& final(self).frames@.last().callee_value == request.callee_value
                &&& final(self).frames@.last().bytecode_index == request.start_bytecode_index
                &&& final(self).frames@.last().register_window == (RegisterWindow {
                    base: old(registers).slots@.len() as u64,
                    num_arguments: request.num_arguments_including_this,
                    num_locals: request.num_locals,
                })
                &&& final(registers).slots@.len() == old(registers).slots@.len()
                    + request.num_arguments_including_this + request.num_locals
                &&& final(registers).slots@.subrange(0, old(registers).slots@.len() as int)
                    == old(registers).slots@
            },
            r is Err ==> *final(self) == *old(self) && *final(registers) == *old(registers),
            r == Err::<CallFrameId, ExecutionError>(ExecutionError::InvalidArgumentCount) <==> (
            request.num_arguments_including_this == 0),
            r == Err::<CallFrameId, ExecutionError>(ExecutionError::RegisterOutOfBounds) <==> (
            request.num_arguments_including_this != 0 && (old(self).next_frame_id == u64::MAX
                || old(registers).slots@.len() + request.num_arguments_including_this
                + request.num_locals > 0x1_0000_0000_0000)),
    {
        if request.num_arguments_including_this == 0 {
            return Err(ExecutionError::InvalidArgumentCount);
        }
        let total = request.num_arguments_including_this as u64 + request.num_locals as u64;
        if self.next_frame_id == u64::MAX || registers.slots.len() as u64 > 0x1_0000_0000_0000
            - total {
            return Err(ExecutionError::RegisterOutOfBounds);
        }
        let base = registers.slots.len() as u64;
        let mut added: u64 = 0;
        while added < total
            invariant
                added <= total,
                total == request.num_arguments_including_this as u64 + request.num_locals as u64,
                registers.slots@.len() == base + added,
                registers.slots@.subrange(0, base as int) == old(registers).slots@,
                base == old(registers).slots@.len(),
                base + total <= 0x1_0000_0000_0000,
            decreases total - added,
        {
            registers.slots.push(RuntimeValue::Undefined);
            added = added + 1;
            assert(registers.slots@.subrange(0, base as int) == old(registers).slots@);
        }
        self.next_frame_id = self.next_frame_id + 1;
        let id = CallFrameId(self.next_frame_id);
        self.frames.push(
            Frame {
                id,
                code_block: request.code_block,
                register_window: RegisterWindow {
                    base,
                    num_arguments: request.num_arguments_including_this,
                    num_locals: request.num_locals,
                },
                bytecode_index: request.start_bytecode_index,
                callee_value: request.callee_value,
            },
        );
        assert(self.frames@.drop_last() == old(self).frames@);
        Ok(id)
    }
}

impl InterpreterExecutionState {
    pub fn new() -> (r: InterpreterExecutionState)
        ensures
            r.stack.frames@.len() == 0,
            r.stack.next_frame_id == 0,
            r.stack.global_this_value is None,
            r.registers.slots@.len() == 0,
            r.heap.cells@.len() == 0,
    {
        InterpreterExecutionState {
            stack: ExecutionContextStack::new(),
            registers: RegisterFile::new(),
            heap: Heap::new(),
        }
    }
}

/// The frame that generated code for `owner` runs in: the top frame, which must be
/// `expected_frame` and belong to `owner`.
pub fn baseline_active_frame(
    stack: &ExecutionContextStack,
    expected_frame: CallFrameId,
    owner: CodeBlockId,
) -> (r: Result<(Frame, RegisterWindow), ExecutionError>)
    ensures
        r == spec_active_frame(*stack, expected_frame, owner),
{
    match stack.top_frame() {
        None => Err(ExecutionError::NoActiveFrame),
        Some(frame) => if frame.id != expected_frame {
            Err(ExecutionError::FrameMismatch { expected: expected_frame, actual: Some(frame.id) })
        } else if frame.code_block != Some(owner) {
            Err(ExecutionError::CodeBlockMismatch { expected: owner, actual: frame.code_block })
        } else {
            Ok((*frame, frame.register_window))
        },
    }
}

pub fn baseline_read_register(
    registers: &RegisterFile,
    code_block: &CodeBlock,
    window: RegisterWindow,
    register: VirtualRegister,
) -> (r: Result<RuntimeValue, ExecutionError>)
    ensures
        r == spec_read_register(registers.slots@, *code_block, window, register),
{
    registers.read(window, register, code_block)
}

/// Reads the register that a `return` names; the same rules as any read.
pub fn baseline_return_register(
    registers: &RegisterFile,
    code_block: &CodeBlock,
    window: RegisterWindow,
    register: VirtualRegister,
) -> (r: Result<RuntimeValue, ExecutionError>)
    ensures
        r == spec_read_register(registers.slots@, *code_block, window, register),
{
    registers.read(window, register, code_block)
}

pub fn baseline_write_register(
    registers: &mut RegisterFile,
    window: RegisterWindow,
    register: VirtualRegister,
    value: RuntimeValue,
) -> (r: Result<(), ExecutionError>)
    ensures
        match spec_write_register(old(registers).slots@, window, register, value) {
            Ok(slots) => r is Ok && final(registers).slots@ == slots,
            Err(error) => r == Err::<(), ExecutionError>(error) && final(registers).slots@ == old(
                registers,
            ).slots@,
        },
{
    registers.write(window, register, value)
}

/// The object id of a cell value that the heap knows.
pub fn object_id_for_runtime_value(execution: &InterpreterExecutionState, value: RuntimeValue) -> (r:
    Option<ObjectId>)
    ensures
        r == spec_object_id_for_runtime_value(spec_execution_view(*execution), value),
{
    match value.as_cell_payload() {
        None => None,
        Some(payload) => match execution.heap.cell_for_payload(payload) {
            Some(cell) => Some(ObjectId(cell)),
            None => None,
        },
    }
}

pub open spec fn spec_object_id_for_runtime_value(
    execution: ExecutionView,
    value: RuntimeValue,
) -> Option<ObjectId> {
    match value {
        RuntimeValue::Cell(payload) => match spec_cell_for_payload(execution.cells, payload) {
            Some(cell) => Some(ObjectId(cell)),
            None => None,
        },
        _ => None,
    }
}

/// The checks shared by every continuation that resumes the caller frame.
pub open spec fn spec_caller_continuation_check(
    execution: ExecutionView,
    frame: CallFrameId,
    owner: CodeBlockId,
    window: RegisterWindow,
    argument_count_including_this: u32,
    destination: VirtualRegister,
) -> Result<(), ExecutionError> {
    match spec_last_frame(execution.frames) {
        None => Err(ExecutionError::NoActiveFrame),
        Some(active) => if active.id != frame {
            Err(ExecutionError::FrameMismatch { expected: frame, actual: Some(active.id) })
        } else if active.code_block != Some(owner) {
            Err(ExecutionError::CodeBlockMismatch { expected: owner, actual: active.code_block })
        } else if active.register_window != window {
            Err(ExecutionError::RegisterWindowMismatch)
        } else if argument_count_including_this == 0 {
            Err(ExecutionError::InvalidArgumentCount)
        } else {
            match spec_value_slot(execution.slots, window, destination) {
                Ok(_) => Ok(()),
                Err(error) => Err(error),
            }
        },
    }
}

pub fn caller_continuation_check(
    execution: &InterpreterExecutionState,
    frame: CallFrameId,
    owner: CodeBlockId,
    window: RegisterWindow,
    argument_count_including_this: u32,
    destination: VirtualRegister,
) -> (r: Result<(), ExecutionError>)
    ensures
        r == spec_caller_continuation_check(
            spec_execution_view(*execution),
            frame,
            owner,
            window,
            argument_count_including_this,
            destination,
        ),
{
    let Some(active) = execution.stack.top_frame() else {
        return Err(ExecutionError::NoActiveFrame);
    };
    if active.id != frame {
        return Err(ExecutionError::FrameMismatch { expected: frame, actual: Some(active.id) });
    }
    if active.code_block != Some(owner) {
        return Err(ExecutionError::CodeBlockMismatch { expected: owner, actual: active.code_block });
    }
    if active.register_window != window {
        return Err(ExecutionError::RegisterWindowMismatch);
    }
    if argument_count_including_this == 0 {
        return Err(ExecutionError::InvalidArgumentCount);
    }
    execution.registers.validate_writable_register(window, destination)
}

pub open spec fn spec_create_call_return_continuation(
    execution: ExecutionView,
    request: CallReturnContinuationRequest,
) -> Result<CallReturnContinuation, ExecutionError> {
    match spec_caller_continuation_check(
        execution,
        request.caller_frame,
        request.owner,
        request.caller_window,
        request.argument_count_including_this,
        request.destination,
    ) {
        Err(error) => Err(error),
        Ok(()) => Ok(
            CallReturnContinuation {
                caller_frame: request.caller_frame,
                callee_frame: None,
                owner: request.owner,
                call_bytecode_index: request.call_bytecode_index,
                resume_bytecode_index: request.resume_bytecode_index,
                destination: request.destination,
                argument_count_including_this: request.argument_count_including_this,
                callee_value: request.callee_value,
                callee_object: match request.callee_value {
                    Some(value) => spec_object_id_for_runtime_value(execution, value),
                    None => None,
                },
                kind: request.kind,
            },
        ),
    }
}

/// Makes the continuation through which a call returns to the active caller frame.
pub fn create_call_return_continuation(
    execution: &InterpreterExecutionState,
    request: CallReturnContinuationRequest,
) -> (r: Result<CallReturnContinuation, ExecutionError>)
    ensures
        r == spec_create_call_return_continuation(spec_execution_view(*execution), request),
{
    caller_continuation_check(
        execution,
        request.caller_frame,
        request.owner,
        request.caller_window,
        request.argument_count_including_this,
        request.destination,
    )?;
    let callee_object = match request.callee_value {
        Some(value) => object_id_for_runtime_value(execution, value),
        None => None,
    };
    Ok(
        CallReturnContinuation {
            caller_frame: request.caller_frame,
            callee_frame: None,
            owner: request.owner,
            call_bytecode_index: request.call_bytecode_index,
            resume_bytecode_index: request.resume_bytecode_index,
            destination: request.destination,
            argument_count_including_this: request.argument_count_including_this,
            callee_value: request.callee_value,
            callee_object,
            kind: request.kind,
        },
    )
}

} // verus!

//! Bytecode as the baseline executor reads it: indices, registers, opcodes,
//! operands, instructions and code blocks.
use vstd::prelude::*;
use crate::value::RuntimeValue;

verus! {

/// Offset of an instruction in its code block; `u32::MAX` marks an invalid index.
#[derive(Clone, Copy, Debug, PartialEq, Eq, Structural)]
pub struct BytecodeIndex {
    pub offset: u32,
}

pub open spec fn spec_bytecode_index_is_valid(index: BytecodeIndex) -> bool {
    index.offset != u32::MAX
}

impl BytecodeIndex {
    pub fn from_offset(offset: u32) -> (r: BytecodeIndex)
        ensures
            r.offset == offset,
    {
        BytecodeIndex { offset }
    }

    pub fn invalid() -> (r: BytecodeIndex)
        ensures
            r.offset == u32::MAX,
    {
        BytecodeIndex { offset: u32::MAX }
    }

    pub fn offset(&self) -> (r: u32)
        ensures
            r == self.offset,
    {
        self.offset
    }

    pub fn is_valid(&self) -> (r: bool)
        ensures
            r == spec_bytecode_index_is_valid(*self),
    {
        self.offset != u32::MAX
    }
}

/// Number of call-frame header slots that precede `this` and the arguments.
pub const CALL_FRAME_HEADER_SLOTS: i32 = 5;

/// Register offsets at or above this one name constants of the code block.
pub const FIRST_CONSTANT_REGISTER_OFFSET: i32 = 0x4000_0000;

/// The one offset that names no register.
pub const INVALID_REGISTER_OFFSET: i32 = 0x3fff_ffff;

/// A virtual register: locals have negative offsets, the call-frame header and
/// the arguments small non-negative ones, and constants large ones.
#[derive(Clone, Copy, Debug, PartialEq, Eq, Structural)]
pub struct VirtualRegister {
    pub offset: i32,
}

/// What a virtual register names.
#[derive(Clone, Copy, Debug, PartialEq, Eq, Structural)]
pub enum RegisterClass {
    Invalid,
    Local(u32),
    Header(u32),
    Argument(u32),
    Constant(u32),
}

pub open spec fn spec_register_class(register: VirtualRegister) -> RegisterClass {
    let offset = register.offset;
    if offset == INVALID_REGISTER_OFFSET {
        RegisterClass::Invalid
    } else if offset < 0 {
        RegisterClass::Local((-1 - offset) as u32)
    } else if offset < CALL_FRAME_HEADER_SLOTS {
        RegisterClass::Header(offset as u32)
    } else if offset < FIRST_CONSTANT_REGISTER_OFFSET {
        RegisterClass::Argument((offset - CALL_FRAME_HEADER_SLOTS) as u32)
    } else {
        RegisterClass::Constant((offset - FIRST_CONSTANT_REGISTER_OFFSET) as u32)
    }
}

impl VirtualRegister {
    pub fn local(index: u32) -> (r: VirtualRegister)
        requires
            index < 0x4000_0000,
        ensures
            spec_register_class(r) == RegisterClass::Local(index),
            r.offset == -1 - index,
    {
        VirtualRegister { offset: -1 - index as i32 }
    }

    /// A header slot (below 5) or, from 5 on, `this` and the arguments.
    pub fn argument_or_header(index: u32) -> (r: VirtualRegister)
        requires
            index < 0x3fff_ffff,
        ensures
            r.offset == index,
    {
        VirtualRegister { offset: index as i32 }
    }

    pub fn constant(index: u32) -> (r: VirtualRegister)
        requires
            index < 0x3fff_ffff,
        ensures
            spec_register_class(r) == RegisterClass::Constant(index),
    {
        VirtualRegister { offset: FIRST_CONSTANT_REGISTER_OFFSET + index as i32 }
    }

    pub fn invalid() -> (r: VirtualRegister)
        ensures
            spec_register_class(r) == RegisterClass::Invalid,
    {
        VirtualRegister { offset: INVALID_REGISTER_OFFSET }
    }

    pub fn class(&self) -> (r: RegisterClass)
        ensures
            r == spec_register_class(*self),
    {
        let offset = self.offset;
        if offset == INVALID_REGISTER_OFFSET {
            RegisterClass::Invalid
        } else if offset < 0 {
            RegisterClass::Local((-1 - offset) as u32)
        } else if offset < CALL_FRAME_HEADER_SLOTS {
            RegisterClass::Header(offset as u32)
        } else if offset < FIRST_CONSTANT_REGISTER_OFFSET {
            RegisterClass::Argument((offset - CALL_FRAME_HEADER_SLOTS) as u32)
        } else {
            RegisterClass::Constant((offset - FIRST_CONSTANT_REGISTER_OFFSET) as u32)
        }
    }
}

/// The opcodes of the core bytecode set that the baseline tier knows about.
#[derive(Clone, Copy, Debug, PartialEq, Eq, Structural)]
pub enum CoreOpcode {
    LoadUndefined,
    LoadNull,
    LoadBool,
    LoadInt32,
    LoadDouble,
    LoadString,
    LoadBigInt,
    Move,
    LoadCallee,
    ToNumber,
    Void,
    Return,
    AddInt32,
    SubInt32,
    MulInt32,
    NegateNumber,
    DivNumber,
    ModNumber,
    PowNumber,
    BitNotInt32,
    BitOrInt32,
    BitXorInt32,
    BitAndInt32,
    LeftShiftInt32,
    RightShiftInt32,
    UnsignedRightShiftInt32,
    LessThanInt32,
    LessEqualInt32,
    GreaterThanInt32,
    GreaterEqualInt32,
    Jump,
    JumpIfFalse,
    JumpIfNotNullish,
    LoopHint,
    LogicalNot,
    StrictEqual,
    StrictNotEqual,
    Equal,
    NotEqual,
    Call,
    CallWithThis,
    CallDirect,
    Construct,
    ConstructSuper,
    GetByName,
    GetGlobalObjectProperty,
    GetLength,
    PutByName,
    PutGlobalObjectProperty,
    GetByValue,
    PutByValue,
    InById,
    InByVal,
    DeleteByName,
    DeleteByValue,
    ArrayLength,
    NewObject,
    NewArray,
    TypeOf,
}

/// Identifier of an opcode outside the core set.
#[derive(Clone, Copy, Debug, PartialEq, Eq, Structural)]
pub struct OpcodeId {
    pub index: u32,
}

impl OpcodeId {
    pub fn from_generated_index(index: u32) -> (r: OpcodeId)
        ensures
            r.index == index,
    {
        OpcodeId { index }
    }
}

/// Any opcode: a core one or one generated outside the core set.
#[derive(Clone, Copy, Debug, PartialEq, Eq, Structural)]
pub enum Opcode {
    Core(CoreOpcode),
    Generated(OpcodeId),
}

pub open spec fn spec_core_opcode(opcode: Opcode) -> Option<CoreOpcode> {
    match opcode {
        Opcode::Core(core) => Some(core),
        Opcode::Generated(_) => None,
    }
}

/// A stable number for each core opcode.
pub open spec fn spec_core_opcode_code(opcode: CoreOpcode) -> u32 {
    match opcode {
        CoreOpcode::LoadUndefined => 0,
        CoreOpcode::LoadNull => 1,
        CoreOpcode::LoadBool => 2,
        CoreOpcode::LoadInt32 => 3,
        CoreOpcode::LoadDouble => 4,
        CoreOpcode::LoadString => 5,
        CoreOpcode::LoadBigInt => 6,
        CoreOpcode::Move => 7,
        CoreOpcode::LoadCallee => 8,
        CoreOpcode::ToNumber => 9,
        CoreOpcode::Void => 10,
        CoreOpcode::Return => 11,
        CoreOpcode::AddInt32 => 12,
        CoreOpcode::SubInt32 => 13,
        CoreOpcode::MulInt32 => 14,
        CoreOpcode::NegateNumber => 15,
        CoreOpcode::DivNumber => 16,
        CoreOpcode::ModNumber => 17,
        CoreOpcode::PowNumber => 18,
        CoreOpcode::BitNotInt32 => 19,
        CoreOpcode::BitOrInt32 => 20,
        CoreOpcode::BitXorInt32 => 21,
        CoreOpcode::BitAndInt32 => 22,
        CoreOpcode::LeftShiftInt32 => 23,
        CoreOpcode::RightShiftInt32 => 24,
        CoreOpcode::UnsignedRightShiftInt32 => 25,
        CoreOpcode::LessThanInt32 => 26,
        CoreOpcode::LessEqualInt32 => 27,
        CoreOpcode::GreaterThanInt32 => 28,
        CoreOpcode::GreaterEqualInt32 => 29,
        CoreOpcode::Jump => 30,
        CoreOpcode::JumpIfFalse => 31,
        CoreOpcode::JumpIfNotNullish => 32,
        CoreOpcode::LoopHint => 33,
        CoreOpcode::LogicalNot => 34,
        CoreOpcode::StrictEqual => 35,
        CoreOpcode::StrictNotEqual => 36,
        CoreOpcode::Equal => 37,
        CoreOpcode::NotEqual => 38,
        CoreOpcode::Call => 39,
        CoreOpcode::CallWithThis => 40,
        CoreOpcode::CallDirect => 41,
        CoreOpcode::Construct => 42,
        CoreOpcode::ConstructSuper => 43,
        CoreOpcode::GetByName => 44,
        CoreOpcode::GetGlobalObjectProperty => 45,
        CoreOpcode::GetLength => 46,
        CoreOpcode::PutByName => 47,
        CoreOpcode::PutGlobalObjectProperty => 48,
        CoreOpcode::GetByValue => 49,
        CoreOpcode::PutByValue => 50,
        CoreOpcode::InById => 51,
        CoreOpcode::InByVal => 52,
        CoreOpcode::DeleteByName => 53,
        CoreOpcode::DeleteByValue => 54,
        CoreOpcode::ArrayLength => 55,
        CoreOpcode::NewObject => 56,
        CoreOpcode::NewArray => 57,
        CoreOpcode::TypeOf => 58,
    }
}

impl CoreOpcode {
    pub fn opcode(self) -> (r: Opcode)
        ensures
            r == Opcode::Core(self),
    {
        Opcode::Core(self)
    }

    pub fn from_opcode(opcode: Opcode) -> (r: Option<CoreOpcode>)
        ensures
            r == spec_core_opcode(opcode),
    {
        match opcode {
            Opcode::Core(core) => Some(core),
            Opcode::Generated(_) => None,
        }
    }

    pub fn code(self) -> (r: u32)
        ensures
            r == spec_core_opcode_code(self),
    {
        match self {
            CoreOpcode::LoadUndefined => 0,
            CoreOpcode::LoadNull => 1,
            CoreOpcode::LoadBool => 2,
            CoreOpcode::LoadInt32 => 3,
            CoreOpcode::LoadDouble => 4,
            CoreOpcode::LoadString => 5,
            CoreOpcode::LoadBigInt => 6,
            CoreOpcode::Move => 7,
            CoreOpcode::LoadCallee => 8,
            CoreOpcode::ToNumber => 9,
            CoreOpcode::Void => 10,
            CoreOpcode::Return => 11,
            CoreOpcode::AddInt32 => 12,
            CoreOpcode::SubInt32 => 13,
            CoreOpcode::MulInt32 => 14,
            CoreOpcode::NegateNumber => 15,
            CoreOpcode::DivNumber => 16,
            CoreOpcode::ModNumber => 17,
            CoreOpcode::PowNumber => 18,
            CoreOpcode::BitNotInt32 => 19,
            CoreOpcode::BitOrInt32 => 20,
            CoreOpcode::BitXorInt32 => 21,
            CoreOpcode::BitAndInt32 => 22,
            CoreOpcode::LeftShiftInt32 => 23,
            CoreOpcode::RightShiftInt32 => 24,
            CoreOpcode::UnsignedRightShiftInt32 => 25,
            CoreOpcode::LessThanInt32 => 26,
            CoreOpcode::LessEqualInt32 => 27,
            CoreOpcode::GreaterThanInt32 => 28,
            CoreOpcode::GreaterEqualInt32 => 29,
            CoreOpcode::Jump => 30,
            CoreOpcode::JumpIfFalse => 31,
            CoreOpcode::JumpIfNotNullish => 32,
            CoreOpcode::LoopHint => 33,
            CoreOpcode::LogicalNot => 34,
            CoreOpcode::StrictEqual => 35,
            CoreOpcode::StrictNotEqual => 36,
            CoreOpcode::Equal => 37,
            CoreOpcode::NotEqual => 38,
            CoreOpcode::Call => 39,
            CoreOpcode::CallWithThis => 40,
            CoreOpcode::CallDirect => 41,
            CoreOpcode::Construct => 42,
            CoreOpcode::ConstructSuper => 43,
            CoreOpcode::GetByName => 44,
            CoreOpcode::GetGlobalObjectProperty => 45,
            CoreOpcode::GetLength => 46,
            CoreOpcode::PutByName => 47,
            CoreOpcode::PutGlobalObjectProperty => 48,
            CoreOpcode::GetByValue => 49,
            CoreOpcode::PutByValue => 50,
            CoreOpcode::InById => 51,
            CoreOpcode::InByVal => 52,
            CoreOpcode::DeleteByName => 53,
            CoreOpcode::DeleteByValue => 54,
            CoreOpcode::ArrayLength => 55,
            CoreOpcode::NewObject => 56,
            CoreOpcode::NewArray => 57,
            CoreOpcode::TypeOf => 58,
        }
    }
}

/// The kind of an instruction operand.
#[derive(Clone, Copy, Debug, PartialEq, Eq, Structural)]
pub enum OperandKind {
    Register,
    SignedImmediate,
    UnsignedImmediate,
    BytecodeIndex,
    IdentifierIndex,
}

#[derive(Clone, Copy, Debug, PartialEq, Eq, Structural)]
pub enum Operand {
    Register(VirtualRegister),
    SignedImmediate(i32),
    UnsignedImmediate(u32),
    BytecodeIndex(BytecodeIndex),
    IdentifierIndex(u32),
}

pub open spec fn spec_operand_kind(operand: Operand) -> OperandKind {
    match operand {
        Operand::Register(_) => OperandKind::Register,
        Operand::SignedImmediate(_) => OperandKind::SignedImmediate,
        Operand::UnsignedImmediate(_) => OperandKind::UnsignedImmediate,
        Operand::BytecodeIndex(_) => OperandKind::BytecodeIndex,
        Operand::IdentifierIndex(_) => OperandKind::IdentifierIndex,
    }
}

impl Operand {
    pub fn kind(&self) -> (r: OperandKind)
        ensures
            r == spec_operand_kind(*self),
    {
        match self {
            Operand::Register(_) => OperandKind::Register,
            Operand::SignedImmediate(_) => OperandKind::SignedImmediate,
            Operand::UnsignedImmediate(_) => OperandKind::UnsignedImmediate,
            Operand::BytecodeIndex(_) => OperandKind::BytecodeIndex,
            Operand::IdentifierIndex(_) => OperandKind::IdentifierIndex,
        }
    }
}

/// Why an operand could not be read as the kind asked for.
#[derive(Clone, Copy, Debug, PartialEq, Eq, Structural)]
pub enum OperandAccessError {
    MissingOperand { opcode: Opcode, index: u32 },
    UnexpectedOperandKind {
        opcode: Opcode,
        index: u32,
        expected: OperandKind,
        actual: OperandKind,
    },
}

/// An instruction with its operands, as decoded from a code block.
#[derive(Clone, Debug, PartialEq, Eq)]
pub struct TypedInstruction {
    pub opcode: Opcode,
    pub bytecode_index: BytecodeIndex,
    pub operands: Vec<Operand>,
}

/// The operand at `index` if it has the `expected` kind.
pub open spec fn spec_operand_of_kind(
    instruction: TypedInstruction,
    index: int,
    expected: OperandKind,
) -> Result<Operand, OperandAccessError> {
    if index < 0 || index >= instruction.operands@.len() {
        Err(OperandAccessError::MissingOperand { opcode: instruction.opcode, index: index as u32 })
    } else if spec_operand_kind(instruction.operands@[index]) != expected {
        Err(
            OperandAccessError::UnexpectedOperandKind {
                opcode: instruction.opcode,
                index: index as u32,
                expected,
                actual: spec_operand_kind(instruction.operands@[index]),
            },
        )
    } else {
        Ok(instruction.operands@[index])
    }
}

pub open spec fn spec_register_operand(instruction: TypedInstruction, index: int) -> Result<
    VirtualRegister,
    OperandAccessError,
> {
    match spec_operand_of_kind(instruction, index, OperandKind::Register) {
        Ok(Operand::Register(register)) => Ok(register),
        Ok(_) => Err(OperandAccessError::MissingOperand { opcode: instruction.opcode, index: index as u32 }),
        Err(error) => Err(error),
    }
}

pub open spec fn spec_signed_immediate_operand(instruction: TypedInstruction, index: int) -> Result<
    i32,
    OperandAccessError,
> {
    match spec_operand_of_kind(instruction, index, OperandKind::SignedImmediate) {
        Ok(Operand::SignedImmediate(value)) => Ok(value),
        Ok(_) => Err(OperandAccessError::MissingOperand { opcode: instruction.opcode, index: index as u32 }),
        Err(error) => Err(error),
    }
}

pub open spec fn spec_unsigned_immediate_operand(instruction: TypedInstruction, index: int) -> Result<
    u32,
    OperandAccessError,
> {
    match spec_operand_of_kind(instruction, index, OperandKind::UnsignedImmediate) {
        Ok(Operand::UnsignedImmediate(value)) => Ok(value),
        Ok(_) => Err(OperandAccessError::MissingOperand { opcode: instruction.opcode, index: index as u32 }),
        Err(error) => Err(error),
    }
}

pub open spec fn spec_bytecode_index_operand(instruction: TypedInstruction, index: int) -> Result<
    BytecodeIndex,
    OperandAccessError,
> {
    match spec_operand_of_kind(instruction, index, OperandKind::BytecodeIndex) {
        Ok(Operand::BytecodeIndex(value)) => Ok(value),
        Ok(_) => Err(OperandAccessError::MissingOperand { opcode: instruction.opcode, index: index as u32 }),
        Err(error) => Err(error),
    }
}

pub open spec fn spec_identifier_index_operand(instruction: TypedInstruction, index: int) -> Result<
    u32,
    OperandAccessError,
> {
    match spec_operand_of_kind(instruction, index, OperandKind::IdentifierIndex) {
        Ok(Operand::IdentifierIndex(value)) => Ok(value),
        Ok(_) => Err(OperandAccessError::MissingOperand { opcode: instruction.opcode, index: index as u32 }),
        Err(error) => Err(error),
    }
}

impl TypedInstruction {
    pub fn new(opcode: Opcode, bytecode_index: BytecodeIndex, operands: Vec<Operand>) -> (r:
        TypedInstruction)
        ensures
            r.opcode == opcode,
            r.bytecode_index == bytecode_index,
            r.operands@ == operands@,
    {
        TypedInstruction { opcode, bytecode_index, operands }
    }

    fn operand_of_kind(&self, index: usize, expected: OperandKind) -> (r: Result<
        Operand,
        OperandAccessError,
    >)
        ensures
            r == spec_operand_of_kind(*self, index as int, expected),
    {
        if index >= self.operands.len() {
            return Err(OperandAccessError::MissingOperand { opcode: self.opcode, index: index as u32 });
        }
        let operand = self.operands[index];
        let actual = operand.kind();
        if actual != expected {
            return Err(
                OperandAccessError::UnexpectedOperandKind {
                    opcode: self.opcode,
                    index: index as u32,
                    expected,
                    actual,
                },
            );
        }
        Ok(operand)
    }

    pub fn register_operand(&self, index: usize) -> (r: Result<VirtualRegister, OperandAccessError>)
        ensures
            r == spec_register_operand(*self, index as int),
    {
        match self.operand_of_kind(index, OperandKind::Register) {
            Ok(Operand::Register(register)) => Ok(register),
            Ok(_) => Err(OperandAccessError::MissingOperand { opcode: self.opcode, index: index as u32 }),
            Err(error) => Err(error),
        }
    }

    pub fn signed_immediate_operand(&self, index: usize) -> (r: Result<i32, OperandAccessError>)
        ensures
            r == spec_signed_immediate_operand(*self, index as int),
    {
        match self.operand_of_kind(index, OperandKind::SignedImmediate) {
            Ok(Operand::SignedImmediate(value)) => Ok(value),
            Ok(_) => Err(OperandAccessError::MissingOperand { opcode: self.opcode, index: index as u32 }),
            Err(error) => Err(error),
        }
    }

    pub fn unsigned_immediate_operand(&self, index: usize) -> (r: Result<u32, OperandAccessError>)
        ensures
            r == spec_unsigned_immediate_operand(*self, index as int),
    {
        match self.operand_of_kind(index, OperandKind::UnsignedImmediate) {
            Ok(Operand::UnsignedImmediate(value)) => Ok(value),
            Ok(_) => Err(OperandAccessError::MissingOperand { opcode: self.opcode, index: index as u32 }),
            Err(error) => Err(error),
        }
    }

    pub fn bytecode_index_operand(&self, index: usize) -> (r: Result<BytecodeIndex, OperandAccessError>)
        ensures
            r == spec_bytecode_index_operand(*self, index as int),
    {
        match self.operand_of_kind(index, OperandKind::BytecodeIndex) {
            Ok(Operand::BytecodeIndex(value)) => Ok(value),
            Ok(_) => Err(OperandAccessError::MissingOperand { opcode: self.opcode, index: index as u32 }),
            Err(error) => Err(error),
        }
    }

    pub fn identifier_index_operand(&self, index: usize) -> (r: Result<u32, OperandAccessError>)
        ensures
            r == spec_identifier_index_operand(*self, index as int),
    {
        match self.operand_of_kind(index, OperandKind::IdentifierIndex) {
            Ok(Operand::IdentifierIndex(value)) => Ok(value),
            Ok(_) => Err(OperandAccessError::MissingOperand { opcode: self.opcode, index: index as u32 }),
            Err(error) => Err(error),
        }
    }
}

/// The register frame a code block needs.
#[derive(Clone, Copy, Debug, PartialEq, Eq, Structural)]
pub struct RegisterFrameShape {
    pub num_parameters_including_this: u32,
    pub num_vars: u32,
}

/// An entry of a code block's constant pool.
#[derive(Clone, Copy, Debug, PartialEq, Eq, Structural)]
pub enum ConstantEntry {
    Value(RuntimeValue),
    Deferred,
}

#[derive(Clone, Copy, Debug, PartialEq, Eq, Structural)]
pub enum InstructionDecodeError {
    MissingInstruction { bytecode_index: BytecodeIndex },
    InvalidBytecodeIndex { bytecode_index: BytecodeIndex },
}

/// A linked code block: its instructions (the one at ordinal `i` is executed for
/// bytecode index `i`), its frame shape and its constant pool, if it has one.
#[derive(Clone, Debug, PartialEq, Eq)]
pub struct CodeBlock {
    pub instructions: Vec<TypedInstruction>,
    pub frame: RegisterFrameShape,
    pub constants: Option<Vec<ConstantEntry>>,
}

pub open spec fn spec_decoded_instruction_at(code_block: CodeBlock, index: BytecodeIndex) -> Result<
    TypedInstruction,
    InstructionDecodeError,
> {
    if !spec_bytecode_index_is_valid(index) {
        Err(InstructionDecodeError::InvalidBytecodeIndex { bytecode_index: index })
    } else if index.offset >= code_block.instructions@.len() {
        Err(InstructionDecodeError::MissingInstruction { bytecode_index: index })
    } else {
        Ok(code_block.instructions@[index.offset as int])
    }
}

impl CodeBlock {
    pub fn new(instructions: Vec<TypedInstruction>, frame: RegisterFrameShape) -> (r: CodeBlock)
        ensures
            r.instructions@ == instructions@,
            r.frame == frame,
            r.constants is None,
    {
        CodeBlock { instructions, frame, constants: None }
    }

    pub fn instruction_count(&self) -> (r: usize)
        ensures
            r == self.instructions@.len(),
    {
        self.instructions.len()
    }

    pub fn decoded_instruction_at(&self, index: BytecodeIndex) -> (r: Result<
        &TypedInstruction,
        InstructionDecodeError,
    >)
        ensures
            match spec_decoded_instruction_at(*self, index) {
                Ok(instruction) => r == Ok::<&TypedInstruction, InstructionDecodeError>(&instruction),
                Err(error) => r == Err::<&TypedInstruction, InstructionDecodeError>(error),
            },
    {
        if !index.is_valid() {
            return Err(InstructionDecodeError::InvalidBytecodeIndex { bytecode_index: index });
        }
        if index.offset as usize >= self.instructions.len() {
            return Err(InstructionDecodeError::MissingInstruction { bytecode_index: index });
        }
        Ok(&self.instructions[index.offset as usize])
    }
}

} // verus!

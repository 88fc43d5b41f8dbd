//! What the baseline planner hands to generated code: the opcode subset it was
//! compiled for, the bytecode snapshot it was compiled against, and the artifact.
use vstd::prelude::*;
use crate::bytecode::{
    CodeBlock, CoreOpcode, Opcode, Operand, TypedInstruction, spec_bytecode_index_is_valid,
    spec_core_opcode_code,
};
use crate::runtime::CodeBlockId;
use crate::sites::{
    BaselineGeneratedOwnerContinuationMapMetadata, BaselineGeneratedPropertyHandoffPlanMetadata,
    BaselineGeneratedRuntimeHelperPlan, BaselineGeneratedRuntimeHelperPlanMetadata,
};

verus! {

/// The opcode subsets that a baseline generated body can be compiled for.
#[derive(Clone, Copy, Debug, PartialEq, Eq, Structural)]
pub enum BaselineSupportedOpcodeSubset {
    P5ConstantsMovesReturn,
    P6ConstantsMovesReturnInt32Arithmetic,
    P8aConstantsMovesReturnInt32ArithmeticBranchNullish,
    P8bConstantsMovesReturnInt32ArithmeticBranchNullishFalse,
    P6ConstantsMovesReturnInt32ArithmeticBitAndOr,
    P8aConstantsMovesReturnInt32ArithmeticBitAndOrBranchNullish,
    P8bConstantsMovesReturnInt32ArithmeticBitAndOrBranchNullishFalse,
    P6ConstantsMovesReturnInt32ArithmeticBitwise,
    P6ConstantsMovesReturnInt32ArithmeticBitwiseRelational,
    P6ConstantsMovesReturnInt32ArithmeticBitwiseRelationalJumps,
    P6ConstantsMovesReturnInt32ArithmeticBitwiseRelationalJumpsPrimitiveTruthiness,
    P6ConstantsMovesReturnInt32ArithmeticBitwiseRelationalJumpsPrimitiveTruthinessPrimitiveBoolean,
    P6ConstantsMovesReturnInt32ArithmeticBitwiseRelationalJumpsPrimitiveTruthinessPrimitiveBooleanPrimitiveNumber,
    P6ConstantsMovesReturnInt32ArithmeticBitwiseRelationalJumpsPrimitiveTruthinessPrimitiveBooleanPrimitiveNumberPrimitiveToNumberVoid,
    P6ConstantsMovesReturnInt32ArithmeticBitwiseRelationalJumpsPrimitiveTruthinessPrimitiveBooleanPrimitiveNumberPrimitiveToNumberVoidPureNumberBinary,
}

/// How far along the main line of subsets a subset is (0 for the branch-first ones).
pub open spec fn spec_subset_level(subset: BaselineSupportedOpcodeSubset) -> int {
    match subset {
        BaselineSupportedOpcodeSubset::P5ConstantsMovesReturn => 0,
        BaselineSupportedOpcodeSubset::P6ConstantsMovesReturnInt32Arithmetic => 1,
        BaselineSupportedOpcodeSubset::P8aConstantsMovesReturnInt32ArithmeticBranchNullish => 1,
        BaselineSupportedOpcodeSubset::P8bConstantsMovesReturnInt32ArithmeticBranchNullishFalse => 1,
        BaselineSupportedOpcodeSubset::P6ConstantsMovesReturnInt32ArithmeticBitAndOr => 2,
        BaselineSupportedOpcodeSubset::P8aConstantsMovesReturnInt32ArithmeticBitAndOrBranchNullish => 2,
        BaselineSupportedOpcodeSubset::P8bConstantsMovesReturnInt32ArithmeticBitAndOrBranchNullishFalse => 2,
        BaselineSupportedOpcodeSubset::P6ConstantsMovesReturnInt32ArithmeticBitwise => 3,
        BaselineSupportedOpcodeSubset::P6ConstantsMovesReturnInt32ArithmeticBitwiseRelational => 4,
        BaselineSupportedOpcodeSubset::P6ConstantsMovesReturnInt32ArithmeticBitwiseRelationalJumps => 5,
        BaselineSupportedOpcodeSubset::P6ConstantsMovesReturnInt32ArithmeticBitwiseRelationalJumpsPrimitiveTruthiness => 6,
        BaselineSupportedOpcodeSubset::P6ConstantsMovesReturnInt32ArithmeticBitwiseRelationalJumpsPrimitiveTruthinessPrimitiveBoolean => 7,
        BaselineSupportedOpcodeSubset::P6ConstantsMovesReturnInt32ArithmeticBitwiseRelationalJumpsPrimitiveTruthinessPrimitiveBooleanPrimitiveNumber => 8,
        BaselineSupportedOpcodeSubset::P6ConstantsMovesReturnInt32ArithmeticBitwiseRelationalJumpsPrimitiveTruthinessPrimitiveBooleanPrimitiveNumberPrimitiveToNumberVoid => 9,
        BaselineSupportedOpcodeSubset::P6ConstantsMovesReturnInt32ArithmeticBitwiseRelationalJumpsPrimitiveTruthinessPrimitiveBooleanPrimitiveNumberPrimitiveToNumberVoidPureNumberBinary => 10,
    }
}

/// The branch-first subsets take the nullish branch (and, for P8b, the false branch)
/// without the rest of the jump set.
pub open spec fn spec_subset_branch_nullish(subset: BaselineSupportedOpcodeSubset) -> bool {
    match subset {
        BaselineSupportedOpcodeSubset::P8aConstantsMovesReturnInt32ArithmeticBranchNullish => true,
        BaselineSupportedOpcodeSubset::P8bConstantsMovesReturnInt32ArithmeticBranchNullishFalse => true,
        BaselineSupportedOpcodeSubset::P8aConstantsMovesReturnInt32ArithmeticBitAndOrBranchNullish => true,
        BaselineSupportedOpcodeSubset::P8bConstantsMovesReturnInt32ArithmeticBitAndOrBranchNullishFalse => true,
        _ => false,
    }
}

pub open spec fn spec_subset_branch_false(subset: BaselineSupportedOpcodeSubset) -> bool {
    match subset {
        BaselineSupportedOpcodeSubset::P8bConstantsMovesReturnInt32ArithmeticBranchNullishFalse => true,
        BaselineSupportedOpcodeSubset::P8bConstantsMovesReturnInt32ArithmeticBitAndOrBranchNullishFalse => true,
        _ => false,
    }
}

/// Whether generated code compiled for `subset` executes `opcode` itself.
pub open spec fn spec_subset_supports(subset: BaselineSupportedOpcodeSubset, opcode: CoreOpcode) -> bool {
    let level = spec_subset_level(subset);
    match opcode {
        CoreOpcode::LoadUndefined | CoreOpcode::LoadNull | CoreOpcode::LoadBool
        | CoreOpcode::LoadInt32 | CoreOpcode::Move | CoreOpcode::Return => true,
        CoreOpcode::AddInt32 | CoreOpcode::SubInt32 | CoreOpcode::MulInt32 => level >= 1,
        CoreOpcode::BitAndInt32 | CoreOpcode::BitOrInt32 => level >= 2,
        CoreOpcode::BitXorInt32 | CoreOpcode::LeftShiftInt32 | CoreOpcode::RightShiftInt32
        | CoreOpcode::UnsignedRightShiftInt32 | CoreOpcode::BitNotInt32 => level >= 3,
        CoreOpcode::LessThanInt32 | CoreOpcode::LessEqualInt32 | CoreOpcode::GreaterThanInt32
        | CoreOpcode::GreaterEqualInt32 => level >= 4,
        CoreOpcode::Jump | CoreOpcode::JumpIfNotNullish => level >= 5
            || spec_subset_branch_nullish(subset),
        CoreOpcode::LoopHint | CoreOpcode::LoadCallee => level >= 5,
        CoreOpcode::JumpIfFalse => level >= 6 || spec_subset_branch_false(subset),
        CoreOpcode::LogicalNot | CoreOpcode::StrictEqual | CoreOpcode::StrictNotEqual
        | CoreOpcode::Equal | CoreOpcode::NotEqual => level >= 7,
        CoreOpcode::LoadDouble | CoreOpcode::NegateNumber | CoreOpcode::DivNumber
        | CoreOpcode::ModNumber => level >= 8,
        CoreOpcode::ToNumber | CoreOpcode::Void => level >= 9,
        _ => false,
    }
}

impl BaselineSupportedOpcodeSubset {
    pub fn level(self) -> (r: u32)
        ensures
            r == spec_subset_level(self),
    {
        match self {
            BaselineSupportedOpcodeSubset::P5ConstantsMovesReturn => 0,
            BaselineSupportedOpcodeSubset::P6ConstantsMovesReturnInt32Arithmetic => 1,
            BaselineSupportedOpcodeSubset::P8aConstantsMovesReturnInt32ArithmeticBranchNullish => 1,
            BaselineSupportedOpcodeSubset::P8bConstantsMovesReturnInt32ArithmeticBranchNullishFalse => 1,
            BaselineSupportedOpcodeSubset::P6ConstantsMovesReturnInt32ArithmeticBitAndOr => 2,
            BaselineSupportedOpcodeSubset::P8aConstantsMovesReturnInt32ArithmeticBitAndOrBranchNullish => 2,
            BaselineSupportedOpcodeSubset::P8bConstantsMovesReturnInt32ArithmeticBitAndOrBranchNullishFalse => 2,
            BaselineSupportedOpcodeSubset::P6ConstantsMovesReturnInt32ArithmeticBitwise => 3,
            BaselineSupportedOpcodeSubset::P6ConstantsMovesReturnInt32ArithmeticBitwiseRelational => 4,
            BaselineSupportedOpcodeSubset::P6ConstantsMovesReturnInt32ArithmeticBitwiseRelationalJumps => 5,
            BaselineSupportedOpcodeSubset::P6ConstantsMovesReturnInt32ArithmeticBitwiseRelationalJumpsPrimitiveTruthiness => 6,
            BaselineSupportedOpcodeSubset::P6ConstantsMovesReturnInt32ArithmeticBitwiseRelationalJumpsPrimitiveTruthinessPrimitiveBoolean => 7,
            BaselineSupportedOpcodeSubset::P6ConstantsMovesReturnInt32ArithmeticBitwiseRelationalJumpsPrimitiveTruthinessPrimitiveBooleanPrimitiveNumber => 8,
            BaselineSupportedOpcodeSubset::P6ConstantsMovesReturnInt32ArithmeticBitwiseRelationalJumpsPrimitiveTruthinessPrimitiveBooleanPrimitiveNumberPrimitiveToNumberVoid => 9,
            BaselineSupportedOpcodeSubset::P6ConstantsMovesReturnInt32ArithmeticBitwiseRelationalJumpsPrimitiveTruthinessPrimitiveBooleanPrimitiveNumberPrimitiveToNumberVoidPureNumberBinary => 10,
        }
    }

    fn branch_nullish(self) -> (r: bool)
        ensures
            r == spec_subset_branch_nullish(self),
    {
        match self {
            BaselineSupportedOpcodeSubset::P8aConstantsMovesReturnInt32ArithmeticBranchNullish => true,
            BaselineSupportedOpcodeSubset::P8bConstantsMovesReturnInt32ArithmeticBranchNullishFalse => true,
            BaselineSupportedOpcodeSubset::P8aConstantsMovesReturnInt32ArithmeticBitAndOrBranchNullish => true,
            BaselineSupportedOpcodeSubset::P8bConstantsMovesReturnInt32ArithmeticBitAndOrBranchNullishFalse => true,
            _ => false,
        }
    }

    fn branch_false(self) -> (r: bool)
        ensures
            r == spec_subset_branch_false(self),
    {
        match self {
            BaselineSupportedOpcodeSubset::P8bConstantsMovesReturnInt32ArithmeticBranchNullishFalse => true,
            BaselineSupportedOpcodeSubset::P8bConstantsMovesReturnInt32ArithmeticBitAndOrBranchNullishFalse => true,
            _ => false,
        }
    }

    pub fn supports(self, opcode: CoreOpcode) -> (r: bool)
        ensures
            r == spec_subset_supports(self, opcode),
    {
        let level = self.level();
        match opcode {
            CoreOpcode::LoadUndefined | CoreOpcode::LoadNull | CoreOpcode::LoadBool
            | CoreOpcode::LoadInt32 | CoreOpcode::Move | CoreOpcode::Return => true,
            CoreOpcode::AddInt32 | CoreOpcode::SubInt32 | CoreOpcode::MulInt32 => level >= 1,
            CoreOpcode::BitAndInt32 | CoreOpcode::BitOrInt32 => level >= 2,
            CoreOpcode::BitXorInt32 | CoreOpcode::LeftShiftInt32 | CoreOpcode::RightShiftInt32
            | CoreOpcode::UnsignedRightShiftInt32 | CoreOpcode::BitNotInt32 => level >= 3,
            CoreOpcode::LessThanInt32 | CoreOpcode::LessEqualInt32 | CoreOpcode::GreaterThanInt32
            | CoreOpcode::GreaterEqualInt32 => level >= 4,
            CoreOpcode::Jump | CoreOpcode::JumpIfNotNullish => level >= 5 || self.branch_nullish(),
            CoreOpcode::LoopHint | CoreOpcode::LoadCallee => level >= 5,
            CoreOpcode::JumpIfFalse => level >= 6 || self.branch_false(),
            CoreOpcode::LogicalNot | CoreOpcode::StrictEqual | CoreOpcode::StrictNotEqual
            | CoreOpcode::Equal | CoreOpcode::NotEqual => level >= 7,
            CoreOpcode::LoadDouble | CoreOpcode::NegateNumber | CoreOpcode::DivNumber
            | CoreOpcode::ModNumber => level >= 8,
            CoreOpcode::ToNumber | CoreOpcode::Void => level >= 9,
            _ => false,
        }
    }
}

/// Errors found while checking planner metadata against a code block.
#[derive(Clone, Copy, Debug, PartialEq, Eq, Structural)]
pub enum JitPlanValidationError {
    SnapshotInvalidBytecodeIndex { ordinal: u64 },
    BaselineGeneratedRuntimeHelperPlanDuplicateProof { bytecode_index: crate::bytecode::BytecodeIndex },
    PropertyHandoffSiteOwnerMismatch,
    PropertyHandoffSiteMissingInstruction,
    PropertyHandoffSiteOpcodeMismatch,
    PropertyHandoffSiteOperandMismatch,
    PropertyHandoffSiteCacheKindMismatch,
    PropertyHandoffSiteKeyMismatch,
    PropertyHandoffSiteBoundaryMismatch,
    RuntimeBoundaryUnsupportedOpcode { opcode: CoreOpcode },
    RuntimeBoundaryMissingRootMap,
    RuntimeBoundaryIncompleteRootMap,
}

/// Errors of a generated-code artifact that make it unusable.
#[derive(Clone, Copy, Debug, PartialEq, Eq, Structural)]
pub enum JitCodeValidationError {
    BaselineGeneratedCodeNotLive,
    BaselineGeneratedCodeOwnerMismatch,
    BaselineGeneratedCodeSubsetMismatch,
    BaselineGeneratedCodeEffectContractMismatch,
}

pub open spec fn spec_opcode_word(opcode: Opcode) -> u64 {
    match opcode {
        Opcode::Core(core) => spec_core_opcode_code(core) as u64,
        Opcode::Generated(id) => (0x1_0000_0000u64 + id.index as u64) as u64,
    }
}

pub open spec fn spec_operand_words(operand: Operand) -> Seq<u64> {
    match operand {
        Operand::Register(register) => seq![0u64, register.offset as u32 as u64],
        Operand::SignedImmediate(value) => seq![1u64, value as u32 as u64],
        Operand::UnsignedImmediate(value) => seq![2u64, value as u64],
        Operand::BytecodeIndex(index) => seq![3u64, index.offset as u64],
        Operand::IdentifierIndex(value) => seq![4u64, value as u64],
    }
}

pub open spec fn spec_operands_words(operands: Seq<Operand>) -> Seq<u64>
    decreases operands.len(),
{
    if operands.len() == 0 {
        seq![]
    } else {
        spec_operands_words(operands.drop_last()) + spec_operand_words(operands.last())
    }
}

pub open spec fn spec_instruction_words(instruction: TypedInstruction) -> Seq<u64> {
    seq![
        spec_opcode_word(instruction.opcode),
        instruction.bytecode_index.offset as u64,
        instruction.operands@.len() as u64,
    ] + spec_operands_words(instruction.operands@)
}

/// The canonical word encoding of a sequence of instructions.
pub open spec fn spec_block_words(instructions: Seq<TypedInstruction>) -> Seq<u64>
    decreases instructions.len(),
{
    if instructions.len() == 0 {
        seq![]
    } else {
        spec_block_words(instructions.drop_last()) + spec_instruction_words(instructions.last())
    }
}

/// FNV-1a offset basis and prime, applied here to 64-bit words.
pub const SNAPSHOT_DIGEST_OFFSET: u64 = 0xcbf2_9ce4_8422_2325;

pub const SNAPSHOT_DIGEST_PRIME: u64 = 0x0000_0100_0000_01b3;

/// The digest of a word sequence: each word is xored in and the state multiplied by
/// the prime, wrapping.
pub open spec fn spec_words_digest(words: Seq<u64>) -> u64
    decreases words.len(),
{
    if words.len() == 0 {
        SNAPSHOT_DIGEST_OFFSET
    } else {
        (spec_words_digest(words.drop_last()) ^ words.last()).wrapping_mul(SNAPSHOT_DIGEST_PRIME)
    }
}

/// The bytecode that generated code was compiled against, as a fingerprint of its
/// canonical word encoding (opcodes, bytecode indices and operands): the number of
/// words and their digest.
#[derive(Clone, Copy, Debug, PartialEq, Eq, Structural)]
pub struct BaselineBytecodeSnapshotFingerprint {
    pub word_count: u64,
    pub digest: u64,
}

pub open spec fn spec_fingerprint_of_words(words: Seq<u64>) -> BaselineBytecodeSnapshotFingerprint {
    BaselineBytecodeSnapshotFingerprint { word_count: words.len() as u64, digest: spec_words_digest(words) }
}

pub open spec fn spec_fingerprint_code_block_snapshot(code_block: CodeBlock) -> Result<
    BaselineBytecodeSnapshotFingerprint,
    JitPlanValidationError,
> {
    if exists|i: int|
        0 <= i < code_block.instructions@.len() && !spec_bytecode_index_is_valid(
            #[trigger] code_block.instructions@[i].bytecode_index,
        ) {
        let i = choose|i: int|
            0 <= i < code_block.instructions@.len() && !spec_bytecode_index_is_valid(
                #[trigger] code_block.instructions@[i].bytecode_index,
            ) && forall|j: int|
                0 <= j < i ==> spec_bytecode_index_is_valid(
                    #[trigger] code_block.instructions@[j].bytecode_index,
                );
        Err(JitPlanValidationError::SnapshotInvalidBytecodeIndex { ordinal: i as u64 })
    } else {
        Ok(spec_fingerprint_of_words(spec_block_words(code_block.instructions@)))
    }
}

fn words_digest(words: &Vec<u64>) -> (r: u64)
    ensures
        r == spec_words_digest(words@),
{
    let mut digest = SNAPSHOT_DIGEST_OFFSET;
    let mut i: usize = 0;
    while i < words.len()
        invariant
            i <= words@.len(),
            digest == spec_words_digest(words@.take(i as int)),
        decreases words@.len() - i,
    {
        assert(words@.take(i + 1).drop_last() == words@.take(i as int));
        digest = (digest ^ words[i]).wrapping_mul(SNAPSHOT_DIGEST_PRIME);
        i = i + 1;
    }
    assert(words@.take(i as int) == words@);
    digest
}

fn opcode_word(opcode: Opcode) -> (r: u64)
    ensures
        r == spec_opcode_word(opcode),
{
    match opcode {
        Opcode::Core(core) => core.code() as u64,
        Opcode::Generated(id) => 0x1_0000_0000u64 + id.index as u64,
    }
}

fn push_operand_words(words: &mut Vec<u64>, operand: Operand)
    ensures
        final(words)@ == old(words)@ + spec_operand_words(operand),
{
    match operand {
        Operand::Register(register) => {
            words.push(0);
            words.push(register.offset as u32 as u64);
        },
        Operand::SignedImmediate(value) => {
            words.push(1);
            words.push(value as u32 as u64);
        },
        Operand::UnsignedImmediate(value) => {
            words.push(2);
            words.push(value as u64);
        },
        Operand::BytecodeIndex(index) => {
            words.push(3);
            words.push(index.offset as u64);
        },
        Operand::IdentifierIndex(value) => {
            words.push(4);
            words.push(value as u64);
        },
    }
    assert(final(words)@ =~= old(words)@ + spec_operand_words(operand));
}

fn push_instruction_words(words: &mut Vec<u64>, instruction: &TypedInstruction)
    ensures
        final(words)@ == old(words)@ + spec_instruction_words(*instruction),
{
    let ghost start = words@;
    words.push(opcode_word(instruction.opcode));
    words.push(instruction.bytecode_index.offset as u64);
    words.push(instruction.operands.len() as u64);
    let ghost header = words@;
    let mut i: usize = 0;
    while i < instruction.operands.len()
        invariant
            i <= instruction.operands@.len(),
            words@ == header + spec_operands_words(instruction.operands@.take(i as int)),
        decreases instruction.operands@.len() - i,
    {
        push_operand_words(words, instruction.operands[i]);
        assert(instruction.operands@.take(i + 1).drop_last() == instruction.operands@.take(
            i as int,
        ));
        i = i + 1;
    }
    assert(instruction.operands@.take(i as int) == instruction.operands@);
    assert(words@ =~= start + spec_instruction_words(*instruction));
}

pub fn fingerprint_code_block_snapshot(code_block: &CodeBlock) -> (r: Result<
    BaselineBytecodeSnapshotFingerprint,
    JitPlanValidationError,
>)
    ensures
        r == spec_fingerprint_code_block_snapshot(*code_block),
{
    let mut words: Vec<u64> = Vec::new();
    let mut i: usize = 0;
    while i < code_block.instructions.len()
        invariant
            i <= code_block.instructions@.len(),
            words@ == spec_block_words(code_block.instructions@.take(i as int)),
            forall|j: int|
                0 <= j < i ==> spec_bytecode_index_is_valid(
                    #[trigger] code_block.instructions@[j].bytecode_index,
                ),
        decreases code_block.instructions@.len() - i,
    {
        let instruction = &code_block.instructions[i];
        if !instruction.bytecode_index.is_valid() {
            let ghost chosen = choose|k: int|
                0 <= k < code_block.instructions@.len() && !spec_bytecode_index_is_valid(
                    #[trigger] code_block.instructions@[k].bytecode_index,
                ) && forall|j: int|
                    0 <= j < k ==> spec_bytecode_index_is_valid(
                        #[trigger] code_block.instructions@[j].bytecode_index,
                    );
            assert(chosen == i as int) by {
                if chosen < i as int {
                } else if chosen > i as int {
                    assert(!spec_bytecode_index_is_valid(code_block.instructions@[i as int].bytecode_index));
                }
            }
            return Err(JitPlanValidationError::SnapshotInvalidBytecodeIndex { ordinal: i as u64 });
        }
        push_instruction_words(&mut words, instruction);
        assert(code_block.instructions@.take(i + 1).drop_last() == code_block.instructions@.take(
            i as int,
        ));
        i = i + 1;
    }
    assert(code_block.instructions@.take(i as int) == code_block.instructions@);
    let word_count = words.len() as u64;
    Ok(BaselineBytecodeSnapshotFingerprint { word_count, digest: words_digest(&words) })
}

/// Whether two snapshots record the same bytecode.
pub fn fingerprints_match(
    left: &BaselineBytecodeSnapshotFingerprint,
    right: &BaselineBytecodeSnapshotFingerprint,
) -> (r: bool)
    ensures
        r == (*left == *right),
{
    left.word_count == right.word_count && left.digest == right.digest
}

/// The planner's statement that a code block, as snapshotted, is eligible for a
/// generated body of some opcode subset.
#[derive(Clone, Copy, Debug, PartialEq, Eq, Structural)]
pub struct BaselineBytecodeEligibilityProof {
    pub owner: CodeBlockId,
    pub opcode_subset: BaselineSupportedOpcodeSubset,
    pub bytecode_snapshot: BaselineBytecodeSnapshotFingerprint,
}

impl BaselineBytecodeEligibilityProof {
    pub fn from_code_block_snapshot(
        code_block: &CodeBlock,
        owner: CodeBlockId,
        opcode_subset: BaselineSupportedOpcodeSubset,
    ) -> (r: Result<BaselineBytecodeEligibilityProof, JitPlanValidationError>)
        ensures
            match spec_fingerprint_code_block_snapshot(*code_block) {
                Ok(fingerprint) => r is Ok && r->Ok_0.owner == owner && r->Ok_0.opcode_subset
                    == opcode_subset && r->Ok_0.bytecode_snapshot == fingerprint,
                Err(error) => r == Err::<BaselineBytecodeEligibilityProof, JitPlanValidationError>(
                    error,
                ),
            },
    {
        let bytecode_snapshot = fingerprint_code_block_snapshot(code_block)?;
        Ok(BaselineBytecodeEligibilityProof { owner, opcode_subset, bytecode_snapshot })
    }

    pub fn opcode_subset(&self) -> (r: BaselineSupportedOpcodeSubset)
        ensures
            r == self.opcode_subset,
    {
        self.opcode_subset
    }

    pub fn bytecode_snapshot_fingerprint(&self) -> (r: &BaselineBytecodeSnapshotFingerprint)
        ensures
            *r == self.bytecode_snapshot,
    {
        &self.bytecode_snapshot
    }
}

/// What a generated body promises about its effects: it runs only opcodes of one subset.
#[derive(Clone, Copy, Debug, PartialEq, Eq, Structural)]
pub struct BaselineGeneratedCodeEffectContract {
    pub opcode_subset: BaselineSupportedOpcodeSubset,
}

#[derive(Clone, Copy, Debug, PartialEq, Eq, Structural)]
pub struct BaselineGeneratedCodeBody {
    pub id: u64,
    pub opcode_subset: BaselineSupportedOpcodeSubset,
    pub effect_contract: Option<BaselineGeneratedCodeEffectContract>,
}

impl BaselineGeneratedCodeBody {
    pub fn new(id: u64, opcode_subset: BaselineSupportedOpcodeSubset) -> (r: BaselineGeneratedCodeBody)
        ensures
            r == (BaselineGeneratedCodeBody {
                id,
                opcode_subset,
                effect_contract: Some(BaselineGeneratedCodeEffectContract { opcode_subset }),
            }),
    {
        BaselineGeneratedCodeBody {
            id,
            opcode_subset,
            effect_contract: Some(BaselineGeneratedCodeEffectContract { opcode_subset }),
        }
    }
}

#[derive(Clone, Copy, Debug, PartialEq, Eq, Structural)]
pub enum CodeLiveness {
    Live,
    Unallocated,
    Retired,
}

/// A finalized baseline generated body with the planner metadata it was built from.
#[derive(Clone, Debug, PartialEq, Eq)]
pub struct BaselineGeneratedCodeArtifact {
    pub id: u64,
    pub owner: CodeBlockId,
    pub eligibility_proof: BaselineBytecodeEligibilityProof,
    pub body: BaselineGeneratedCodeBody,
    pub liveness: CodeLiveness,
    pub runtime_helper_plan: Option<BaselineGeneratedRuntimeHelperPlanMetadata>,
    pub property_handoff_plan: Option<BaselineGeneratedPropertyHandoffPlanMetadata>,
    pub owner_continuation_map: Option<BaselineGeneratedOwnerContinuationMapMetadata>,
}

pub open spec fn spec_artifact_validation(artifact: BaselineGeneratedCodeArtifact) -> Result<
    (),
    JitCodeValidationError,
> {
    if artifact.liveness != CodeLiveness::Live {
        Err(JitCodeValidationError::BaselineGeneratedCodeNotLive)
    } else if artifact.eligibility_proof.owner != artifact.owner {
        Err(JitCodeValidationError::BaselineGeneratedCodeOwnerMismatch)
    } else if artifact.body.opcode_subset != artifact.eligibility_proof.opcode_subset {
        Err(JitCodeValidationError::BaselineGeneratedCodeSubsetMismatch)
    } else if artifact.body.effect_contract != Some(
        BaselineGeneratedCodeEffectContract { opcode_subset: artifact.body.opcode_subset },
    ) {
        Err(JitCodeValidationError::BaselineGeneratedCodeEffectContractMismatch)
    } else {
        Ok(())
    }
}

impl BaselineGeneratedCodeArtifact {
    /// Builds an artifact with no planner side tables and checks it.
    pub fn new(
        id: u64,
        owner: CodeBlockId,
        eligibility_proof: BaselineBytecodeEligibilityProof,
        body: BaselineGeneratedCodeBody,
        liveness: CodeLiveness,
    ) -> (r: Result<BaselineGeneratedCodeArtifact, JitCodeValidationError>)
        ensures
            ({
                let artifact = BaselineGeneratedCodeArtifact {
                    id,
                    owner,
                    eligibility_proof,
                    body,
                    liveness,
                    runtime_helper_plan: None,
                    property_handoff_plan: None,
                    owner_continuation_map: None,
                };
                match spec_artifact_validation(artifact) {
                    Ok(()) => r == Ok::<BaselineGeneratedCodeArtifact, JitCodeValidationError>(
                        artifact,
                    ),
                    Err(error) => r == Err::<BaselineGeneratedCodeArtifact, JitCodeValidationError>(
                        error,
                    ),
                }
            }),
    {
        let artifact = BaselineGeneratedCodeArtifact {
            id,
            owner,
            eligibility_proof,
            body,
            liveness,
            runtime_helper_plan: None,
            property_handoff_plan: None,
            owner_continuation_map: None,
        };
        artifact.validate()?;
        Ok(artifact)
    }

    /// Builds an artifact that carries a runtime-helper plan and checks it.
    pub fn new_with_runtime_helper_plan(
        id: u64,
        owner: CodeBlockId,
        eligibility_proof: BaselineBytecodeEligibilityProof,
        body: BaselineGeneratedCodeBody,
        runtime_helper_plan: BaselineGeneratedRuntimeHelperPlanMetadata,
        liveness: CodeLiveness,
    ) -> (r: Result<BaselineGeneratedCodeArtifact, JitCodeValidationError>)
        ensures
            ({
                let artifact = BaselineGeneratedCodeArtifact {
                    id,
                    owner,
                    eligibility_proof,
                    body,
                    liveness,
                    runtime_helper_plan: Some(runtime_helper_plan),
                    property_handoff_plan: None,
                    owner_continuation_map: None,
                };
                match spec_artifact_validation(artifact) {
                    Ok(()) => r == Ok::<BaselineGeneratedCodeArtifact, JitCodeValidationError>(
                        artifact,
                    ),
                    Err(error) => r == Err::<BaselineGeneratedCodeArtifact, JitCodeValidationError>(
                        error,
                    ),
                }
            }),
    {
        let artifact = BaselineGeneratedCodeArtifact {
            id,
            owner,
            eligibility_proof,
            body,
            liveness,
            runtime_helper_plan: Some(runtime_helper_plan),
            property_handoff_plan: None,
            owner_continuation_map: None,
        };
        artifact.validate()?;
        Ok(artifact)
    }

    /// The same artifact, carrying the given property handoff plan.
    pub fn with_property_handoff_plan(
        self,
        plan: Option<BaselineGeneratedPropertyHandoffPlanMetadata>,
    ) -> (r: BaselineGeneratedCodeArtifact)
        ensures
            r == (BaselineGeneratedCodeArtifact { property_handoff_plan: plan, ..self }),
    {
        BaselineGeneratedCodeArtifact { property_handoff_plan: plan, ..self }
    }

    /// The same artifact, carrying the given owner continuation map.
    pub fn with_owner_continuation_map(
        self,
        map: Option<BaselineGeneratedOwnerContinuationMapMetadata>,
    ) -> (r: BaselineGeneratedCodeArtifact)
        ensures
            r == (BaselineGeneratedCodeArtifact { owner_continuation_map: map, ..self }),
    {
        BaselineGeneratedCodeArtifact { owner_continuation_map: map, ..self }
    }

    pub fn validate(&self) -> (r: Result<(), JitCodeValidationError>)
        ensures
            r == spec_artifact_validation(*self),
    {
        if self.liveness != CodeLiveness::Live {
            return Err(JitCodeValidationError::BaselineGeneratedCodeNotLive);
        }
        if self.eligibility_proof.owner != self.owner {
            return Err(JitCodeValidationError::BaselineGeneratedCodeOwnerMismatch);
        }
        if self.body.opcode_subset != self.eligibility_proof.opcode_subset {
            return Err(JitCodeValidationError::BaselineGeneratedCodeSubsetMismatch);
        }
        if self.body.effect_contract != Some(
            BaselineGeneratedCodeEffectContract { opcode_subset: self.body.opcode_subset },
        ) {
            return Err(JitCodeValidationError::BaselineGeneratedCodeEffectContractMismatch);
        }
        Ok(())
    }

    /// The runtime-helper plan the artifact was built with.
    pub fn runtime_helper_plan(&self) -> (r: Option<&BaselineGeneratedRuntimeHelperPlan>)
        ensures
            match self.runtime_helper_plan {
                Some(metadata) => r == Some(&metadata.plan),
                None => r is None,
            },
    {
        match &self.runtime_helper_plan {
            Some(metadata) => Some(&metadata.plan),
            None => None,
        }
    }

    pub fn property_handoff_plan(&self) -> (r: Option<&BaselineGeneratedPropertyHandoffPlanMetadata>)
        ensures
            match self.property_handoff_plan {
                Some(plan) => r == Some(&plan),
                None => r is None,
            },
    {
        match &self.property_handoff_plan {
            Some(plan) => Some(plan),
            None => None,
        }
    }

    pub fn owner_continuation_map(&self) -> (r: Option<&BaselineGeneratedOwnerContinuationMapMetadata>)
        ensures
            match self.owner_continuation_map {
                Some(map) => r == Some(&map),
                None => r is None,
            },
    {
        match &self.owner_continuation_map {
            Some(map) => Some(map),
            None => None,
        }
    }
}

} // verus!

use vstd::prelude::*;

use crate::code::{spec_max_code_len, RawInstr};
use crate::opcodes::{
    is_cache, is_extended_arg, opcode_name, spec_is_cache, spec_is_extended_arg, spec_opcode_name,
};
use crate::schema::SchemaGeneration;

verus! {

/// The extended-argument accumulator in force at slot `i`: the value
/// contributed by the unbroken run of extended-argument slots immediately
/// before `i`, already shifted into the high bytes.
pub open spec fn spec_ext_before(g: SchemaGeneration, code: Seq<RawInstr>, i: int) -> u32
    decreases i,
{
    if i <= 0 || i > code.len() {
        0
    } else if spec_is_extended_arg(g, code[i - 1].opcode) {
        ((spec_ext_before(g, code, i - 1) | code[i - 1].arg as u32) << 8) as u32
    } else {
        0
    }
}

/// The true operand of slot `i`: its raw byte combined with every byte of
/// the immediately preceding extended-argument run, most significant first.
/// This is well defined on an extended-argument slot itself, where it gives
/// that slot's own contribution combined with the earlier chain members.
pub open spec fn spec_full_arg(g: SchemaGeneration, code: Seq<RawInstr>, i: int) -> u32
    recommends
        0 <= i < code.len(),
{
    (code[i].arg as u32 | spec_ext_before(g, code, i)) as u32
}

/// Computes the true operand of slot `i`.
pub fn full_arg(g: SchemaGeneration, code: &Vec<RawInstr>, i: usize) -> (r: u32)
    requires
        i < code@.len(),
    ensures
        r == spec_full_arg(g, code@, i as int),
{
    let mut k: usize = i;
    while k > 0 && is_extended_arg(g, code[k - 1].opcode)
        invariant
            k <= i,
            i < code@.len(),
            forall|j: int| k <= j < i ==> spec_is_extended_arg(g, code@[j].opcode),
        decreases k,
    {
        k = k - 1;
    }
    proof {
        assert(spec_ext_before(g, code@, k as int) == 0);
    }
    let mut ext: u32 = 0;
    let mut j: usize = k;
    while j < i
        invariant
            k <= j <= i,
            i < code@.len(),
            forall|m: int| k <= m < i ==> spec_is_extended_arg(g, code@[m].opcode),
            ext == spec_ext_before(g, code@, j as int),
        decreases i - j,
    {
        ext = (ext | code[j].arg as u32) << 8u32;
        j = j + 1;
    }
    code[i].arg as u32 | ext
}

/// One decoded instruction: the raw slot, its stream position, and what the
/// generation's table says about its opcode byte.
#[derive(Clone, Copy, PartialEq, Eq, Structural, Debug)]
pub struct Instruction {
    /// Position in the instruction stream.
    pub index: usize,
    /// Byte offset in the raw stream; always twice the index.
    pub offset: u64,
    pub opcode: u8,
    /// The slot's own operand byte.
    pub raw_arg: u8,
    /// The operand with the extended-argument chain applied.
    pub arg: u32,
    /// Whether this slot extends the operand of a later instruction.
    pub is_ext: bool,
    /// Whether this slot is cache padding without meaning of its own.
    pub is_cache: bool,
    /// Whether the opcode byte exists in the generation's table.
    pub known: bool,
}

/// The decoded form of slot `i`.
pub open spec fn spec_instruction(g: SchemaGeneration, code: Seq<RawInstr>, i: int) -> Instruction
    recommends
        0 <= i < code.len(),
{
    Instruction {
        index: i as usize,
        offset: (2 * i) as u64,
        opcode: code[i].opcode,
        raw_arg: code[i].arg,
        arg: spec_full_arg(g, code, i),
        is_ext: spec_is_extended_arg(g, code[i].opcode),
        is_cache: spec_is_cache(g, code[i].opcode),
        known: spec_opcode_name(g, code[i].opcode) is Some,
    }
}

/// A stream ends mid-chain when its final slot still asks to extend the
/// operand of a successor that does not exist.
pub open spec fn spec_truncated_chain(g: SchemaGeneration, code: Seq<RawInstr>) -> bool {
    code.len() > 0 && spec_is_extended_arg(g, code[code.len() - 1].opcode)
}

/// Errors that abort the decoding of a whole object.
#[derive(Clone, Copy, PartialEq, Eq, Structural, Debug)]
pub enum DecodeError {
    /// The stream's last slot is an extended-argument slot.
    TruncatedExtendedArgChain,
}

/// Splits a raw slot sequence into decoded instructions.  Unknown opcode
/// bytes decode to instructions marked not `known` rather than failing; only
/// a truncated extended-argument chain rejects the stream as a whole.
pub fn decode_instructions(g: SchemaGeneration, code: &Vec<RawInstr>) -> (r: Result<
    Vec<Instruction>,
    DecodeError,
>)
    requires
        code@.len() <= spec_max_code_len(),
    ensures
        r is Ok <==> !spec_truncated_chain(g, code@),
        r matches Ok(v) ==> v@.len() == code@.len() && forall|i: int|
            0 <= i < code@.len() ==> v@[i] == spec_instruction(g, code@, i),
        r is Err ==> spec_truncated_chain(g, code@),
{
    let n = code.len();
    if n > 0 && is_extended_arg(g, code[n - 1].opcode) {
        return Err(DecodeError::TruncatedExtendedArgChain);
    }
    let mut out: Vec<Instruction> = Vec::new();
    let mut i: usize = 0;
    while i < n
        invariant
            i <= n,
            n == code@.len(),
            n <= spec_max_code_len(),
            out@.len() == i,
            forall|j: int| 0 <= j < i ==> out@[j] == spec_instruction(g, code@, j),
        decreases n - i,
    {
        let op = code[i].opcode;
        let ins = Instruction {
            index: i,
            offset: 2 * (i as u64),
            opcode: op,
            raw_arg: code[i].arg,
            arg: full_arg(g, code, i),
            is_ext: is_extended_arg(g, op),
            is_cache: is_cache(g, op),
            known: opcode_name(g, op).is_some(),
        };
        out.push(ins);
        i = i + 1;
    }
    Ok(out)
}

/// The byte offset of the instruction at stream index `i` is exactly twice
/// the index, whatever the stream holds.
pub proof fn lemma_offset_is_twice_index(g: SchemaGeneration, code: Seq<RawInstr>, i: int)
    requires
        0 <= i < code.len(),
        code.len() <= spec_max_code_len(),
    ensures
        spec_instruction(g, code, i).offset == 2 * i,
{
}

/// Extended-argument chains compose: on a slot whose immediate predecessor
/// is an extended-argument slot, the true operand is the predecessor's true
/// operand shifted up one byte, combined with the slot's own raw byte.
/// Unfolding this law along a chain of k extension slots with raw bytes
/// e1..ek (oldest first) followed by a real instruction with raw byte a
/// gives e1 shifted by 8k bits, or-ed with e2 shifted by 8(k-1) bits, and so
/// on down to a.
pub proof fn lemma_full_arg_composition(g: SchemaGeneration, code: Seq<RawInstr>, i: int)
    requires
        0 < i < code.len(),
        spec_is_extended_arg(g, code[i - 1].opcode),
    ensures
        spec_full_arg(g, code, i) == ((spec_full_arg(g, code, i - 1) << 8) | code[i].arg as u32),
{
    let x = spec_ext_before(g, code, i - 1);
    let e = code[i - 1].arg as u32;
    let a = code[i].arg as u32;
    assert((a | (((x | e) << 8) as u32)) == ((((e | x) as u32) << 8) | a)) by (bit_vector);
}

/// The fold of the raw bytes of slots `j..=i`, oldest byte most
/// significant: byte `j` shifted left by eight bits for every later slot,
/// or-ed down to slot `i`'s own byte.
pub open spec fn spec_chain_fold(code: Seq<RawInstr>, j: int, i: int) -> u32
    recommends
        0 <= j <= i < code.len(),
    decreases i - j,
{
    if j >= i {
        code[i].arg as u32
    } else {
        ((spec_chain_fold(code, j, i - 1) << 8) | code[i].arg as u32) as u32
    }
}

/// The whole-chain form of argument extension: across an unbroken run of
/// extended-argument slots `j..i` followed by slot `i`, the true operand of
/// slot `i` is the fold of all their raw bytes, oldest chain member most
/// significant.
pub proof fn lemma_full_arg_chain(g: SchemaGeneration, code: Seq<RawInstr>, j: int, i: int)
    requires
        0 <= j <= i < code.len(),
        forall|m: int| j <= m < i ==> spec_is_extended_arg(g, #[trigger] code[m].opcode),
        j == 0 || !spec_is_extended_arg(g, code[j - 1].opcode),
    ensures
        spec_full_arg(g, code, i) == spec_chain_fold(code, j, i),
    decreases i - j,
{
    if j == i {
        lemma_full_arg_plain(g, code, i);
    } else {
        lemma_full_arg_chain(g, code, j, i - 1);
        lemma_full_arg_composition(g, code, i);
    }
}

/// A slot with no extension run before it carries its raw byte unchanged.
pub proof fn lemma_full_arg_plain(g: SchemaGeneration, code: Seq<RawInstr>, i: int)
    requires
        0 <= i < code.len(),
        i == 0 || !spec_is_extended_arg(g, code[i - 1].opcode),
    ensures
        spec_full_arg(g, code, i) == code[i].arg as u32,
{
    let a = code[i].arg as u32;
    assert((a | 0u32) == a) by (bit_vector);
}

} // verus!

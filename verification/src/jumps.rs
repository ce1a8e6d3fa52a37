use vstd::prelude::*;

use crate::code::{spec_max_code_len, RawInstr};
use crate::opcodes::{cache_count, operand_shape, spec_cache_count, spec_operand_shape, OperandShape};
use crate::schema::SchemaGeneration;
use crate::stream::{full_arg, spec_full_arg};

verus! {

/// The stream index a jump is measured from.  Generation 3 encodes jump
/// magnitudes relative to the end of the origin's own cache block, so the
/// origin index is advanced past those slots; the other generations measure
/// from the origin itself.
pub open spec fn spec_jump_base(g: SchemaGeneration, code: Seq<RawInstr>, i: int) -> int
    recommends
        0 <= i < code.len(),
{
    i + spec_cache_count(g, code[i].opcode)
}

/// The destination index computed for the jump at `i`, as an unbounded
/// integer: the argument itself for an absolute jump, base plus magnitude
/// plus one forward, base minus magnitude plus one backward.  `None` when
/// slot `i` is not jump-shaped.  A destination below zero or beyond the
/// stream is representable here and is rendered as invalid, never wrapped.
pub open spec fn spec_jump_target(g: SchemaGeneration, code: Seq<RawInstr>, i: int) -> Option<
    int,
>
    recommends
        0 <= i < code.len(),
{
    let arg = spec_full_arg(g, code, i) as int;
    match spec_operand_shape(g, code[i].opcode) {
        OperandShape::JumpAbsolute => Some(arg),
        OperandShape::JumpForwardRel => Some(spec_jump_base(g, code, i) + arg + 1),
        OperandShape::JumpBackwardRel => Some(spec_jump_base(g, code, i) - arg + 1),
        _ => None,
    }
}

/// Whether some jump in the stream computes `t` as its destination.
pub open spec fn spec_is_jump_target(g: SchemaGeneration, code: Seq<RawInstr>, t: int) -> bool {
    exists|o: int| 0 <= o < code.len() && spec_jump_target(g, code, o) == Some(t)
}

/// Computes the destination of the jump at `i`, or `None` if slot `i` is
/// not jump-shaped.  The result may lie outside the stream, negative
/// included; the caller decides how to mark it.
pub fn jump_target(g: SchemaGeneration, code: &Vec<RawInstr>, i: usize) -> (r: Option<i64>)
    requires
        i < code@.len(),
        code@.len() <= spec_max_code_len(),
    ensures
        r is Some <==> spec_jump_target(g, code@, i as int) is Some,
        r matches Some(t) ==> spec_jump_target(g, code@, i as int) == Some(t as int),
{
    let arg = full_arg(g, code, i) as i64;
    let base = (i as i64) + (cache_count(g, code[i].opcode) as i64);
    match operand_shape(g, code[i].opcode) {
        OperandShape::JumpAbsolute => Some(arg),
        OperandShape::JumpForwardRel => Some(base + arg + 1),
        OperandShape::JumpBackwardRel => Some(base - arg + 1),
        _ => None,
    }
}

/// Builds the inverse jump map as a marker table: entry `t` says whether
/// any jump in the stream resolves to index `t`.
pub fn jump_target_markers(g: SchemaGeneration, code: &Vec<RawInstr>) -> (r: Vec<bool>)
    requires
        code@.len() <= spec_max_code_len(),
    ensures
        r@.len() == code@.len(),
        forall|t: int|
            0 <= t < code@.len() ==> r@[t] == spec_is_jump_target(g, code@, t),
{
    let n = code.len();
    let mut marks: Vec<bool> = Vec::new();
    let mut i: usize = 0;
    while i < n
        invariant
            i <= n,
            marks@.len() == i,
            forall|t: int| 0 <= t < i ==> !marks@[t],
        decreases n - i,
    {
        marks.push(false);
        i = i + 1;
    }
    let mut o: usize = 0;
    while o < n
        invariant
            o <= n,
            n == code@.len(),
            n <= spec_max_code_len(),
            marks@.len() == n,
            forall|t: int|
                0 <= t < n ==> marks@[t] == exists|p: int|
                    0 <= p < o && spec_jump_target(g, code@, p) == Some(t),
        decreases n - o,
    {
        let target = jump_target(g, code, o);
        match target {
            Some(t) => {
                if 0 <= t && t < n as i64 {
                    let ti = t as usize;
                    marks.set(ti, true);
                    proof {
                        assert forall|u: int| 0 <= u < n implies marks@[u] == exists|p: int|
                            0 <= p < o + 1 && spec_jump_target(g, code@, p) == Some(u) by {
                            if u == ti as int {
                                assert(0 <= o < o + 1 && spec_jump_target(g, code@, o as int)
                                    == Some(u));
                            } else {
                                if exists|p: int|
                                    0 <= p < o + 1 && spec_jump_target(g, code@, p) == Some(u) {
                                    let p = choose|p: int|
                                        0 <= p < o + 1 && spec_jump_target(g, code@, p) == Some(
                                            u,
                                        );
                                    assert(p != o);
                                    assert(0 <= p < o && spec_jump_target(g, code@, p) == Some(
                                        u,
                                    ));
                                }
                            }
                        }
                    }
                } else {
                    proof {
                        assert forall|u: int| 0 <= u < n implies marks@[u] == exists|p: int|
                            0 <= p < o + 1 && spec_jump_target(g, code@, p) == Some(u) by {
                            if exists|p: int|
                                0 <= p < o + 1 && spec_jump_target(g, code@, p) == Some(u) {
                                let p = choose|p: int|
                                    0 <= p < o + 1 && spec_jump_target(g, code@, p) == Some(u);
                                assert(p != o);
                            }
                        }
                    }
                }
            },
            None => {
                proof {
                    assert forall|u: int| 0 <= u < n implies marks@[u] == exists|p: int|
                        0 <= p < o + 1 && spec_jump_target(g, code@, p) == Some(u) by {
                        if exists|p: int|
                            0 <= p < o + 1 && spec_jump_target(g, code@, p) == Some(u) {
                            let p = choose|p: int|
                                0 <= p < o + 1 && spec_jump_target(g, code@, p) == Some(u);
                            assert(p != o);
                        }
                    }
                }
            },
        }
        o = o + 1;
    }
    marks
}

/// Whatever destination the resolver computes for an origin, in range or
/// not, that origin stands in the inverse jump map under its destination.
pub proof fn lemma_computed_target_is_mapped(
    g: SchemaGeneration,
    code: Seq<RawInstr>,
    o: int,
    t: int,
)
    requires
        0 <= o < code.len(),
        spec_jump_target(g, code, o) == Some(t),
    ensures
        spec_is_jump_target(g, code, t),
{
    assert(0 <= o < code.len() && spec_jump_target(g, code, o) == Some(t));
}

/// A backward jump whose magnitude exceeds its measured origin index plus
/// one computes a destination below zero.  The resolver keeps that value as
/// an explicitly invalid target; nothing wraps around and nothing panics.
pub proof fn lemma_backward_underflow(g: SchemaGeneration, code: Seq<RawInstr>, i: int)
    requires
        0 <= i < code.len(),
        spec_operand_shape(g, code[i].opcode) is JumpBackwardRel,
        spec_full_arg(g, code, i) > spec_jump_base(g, code, i) + 1,
    ensures
        spec_jump_target(g, code, i) matches Some(t) && t < 0,
{
}

} // verus!

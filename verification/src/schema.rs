use vstd::prelude::*;

verus! {

/// One of the three mutually incompatible bytecode layouts this library
/// understands.  The generation selects the opcode table, the operand
/// resolution rules, the jump geometry and the cache-padding rules.
#[derive(Clone, Copy, PartialEq, Eq, Structural, Debug)]
pub enum SchemaGeneration {
    Gen1,
    Gen2,
    Gen3,
}

} // verus!

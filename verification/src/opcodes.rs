use vstd::prelude::*;

use crate::schema::SchemaGeneration;

verus! {

/// The operand shape of an opcode: which side table its argument addresses,
/// or which fixed bitfield decoding applies to it.  Grouping opcodes by shape
/// lets one resolver serve every generation.
#[derive(Clone, Copy, PartialEq, Eq, Structural, Debug)]
pub enum OperandShape {
    /// The argument carries no rendered meaning.
    NoArg,
    /// An index into the name table.
    NameRef,
    /// An index into the separate fast-local name table.
    VarRef,
    /// An index into the unified locals-plus table.
    LocalsPlusRef,
    /// Two locals-plus indices packed as (argument >> 4, argument & 15).
    LocalsPlusPair,
    /// An index into the constant pool.
    ConstRef,
    /// A cell-or-free reference split over two tables by the raw index.
    ClosureSplitRef,
    /// A comparison operator given directly by the argument.
    CompareDirect,
    /// A comparison operator in the high bits plus a boolean-coercion bit.
    CompareShifted,
    /// A binary or in-place operator selected by the argument.
    BinaryOperator,
    /// Function-attribute flag bits, rendered as flag names.
    FunctionFlags,
    /// An f-string conversion flag plus a format-spec bit.
    FormatFlag,
    /// An f-string conversion selector alone.
    ConvertFlag,
    /// A name-table index in the high bits; bit 0 prepends "NULL".
    CompositeNameNull,
    /// A name-table index shifted by one; bit 0 prepends "NULL + ".
    CompositeNameSpaced1,
    /// A name-table index shifted by two; bit 0 prepends "NULL + ".
    CompositeNameSpaced2,
    /// A jump to an absolute instruction index.
    JumpAbsolute,
    /// A forward relative jump.
    JumpForwardRel,
    /// A backward relative jump.
    JumpBackwardRel,
}

/// Whether `op` is the extended-argument opcode of its generation.
pub open spec fn spec_is_extended_arg(g: SchemaGeneration, op: u8) -> bool {
    match g {
        SchemaGeneration::Gen1 => op == 144,
        SchemaGeneration::Gen2 => op == 144 || op == 34,
        SchemaGeneration::Gen3 => op == 71,
    }
}

/// Executable form of `spec_is_extended_arg`.
pub fn is_extended_arg(g: SchemaGeneration, op: u8) -> (r: bool)
    ensures
        r == spec_is_extended_arg(g, op),
{
    match g {
        SchemaGeneration::Gen1 => op == 144,
        SchemaGeneration::Gen2 => op == 144 || op == 34,
        SchemaGeneration::Gen3 => op == 71,
    }
}

/// Whether `op` is a cache-padding slot of its generation.  Generation 1 has
/// no cache padding.
pub open spec fn spec_is_cache(g: SchemaGeneration, op: u8) -> bool {
    match g {
        SchemaGeneration::Gen1 => false,
        SchemaGeneration::Gen2 => op == 0,
        SchemaGeneration::Gen3 => op == 0,
    }
}

/// Executable form of `spec_is_cache`.
pub fn is_cache(g: SchemaGeneration, op: u8) -> (r: bool)
    ensures
        r == spec_is_cache(g, op),
{
    match g {
        SchemaGeneration::Gen1 => false,
        SchemaGeneration::Gen2 => op == 0,
        SchemaGeneration::Gen3 => op == 0,
    }
}

/// The mnemonic of `op` under generation `g`, if the generation defines it.
pub open spec fn spec_opcode_name(g: SchemaGeneration, op: u8) -> Option<Seq<char>> {
    match g {
        SchemaGeneration::Gen1 => spec_name_gen1(op),
        SchemaGeneration::Gen2 => spec_name_gen2(op),
        SchemaGeneration::Gen3 => spec_name_gen3(op),
    }
}

/// The mnemonic of `op` under `g` together with its character count, or
/// `None` for a byte the generation's table does not define.
pub fn opcode_name(g: SchemaGeneration, op: u8) -> (r: Option<(&'static str, usize)>)
    ensures
        r is Some <==> spec_opcode_name(g, op) is Some,
        r matches Some(p) ==> p.0@ == spec_opcode_name(g, op)->0 && p.1 == spec_opcode_name(g, op)->0.len(),
{
    match g {
        SchemaGeneration::Gen1 => name_gen1(op),
        SchemaGeneration::Gen2 => name_gen2(op),
        SchemaGeneration::Gen3 => name_gen3(op),
    }
}

/// The operand shape of `op` under generation `g`.  Bytes outside the table
/// have no shape worth resolving.
pub open spec fn spec_operand_shape(g: SchemaGeneration, op: u8) -> OperandShape {
    match g {
        SchemaGeneration::Gen1 => spec_shape_gen1(op),
        SchemaGeneration::Gen2 => spec_shape_gen2(op),
        SchemaGeneration::Gen3 => spec_shape_gen3(op),
    }
}

/// Executable form of `spec_operand_shape`.
pub fn operand_shape(g: SchemaGeneration, op: u8) -> (r: OperandShape)
    ensures
        r == spec_operand_shape(g, op),
{
    match g {
        SchemaGeneration::Gen1 => shape_gen1(op),
        SchemaGeneration::Gen2 => shape_gen2(op),
        SchemaGeneration::Gen3 => shape_gen3(op),
    }
}

/// How many cache-padding slots follow `op`.  Only generation 3 encodes its
/// jump arguments relative to the end of the origin's own cache block.
pub open spec fn spec_cache_count(g: SchemaGeneration, op: u8) -> u8 {
    match g {
        SchemaGeneration::Gen1 => 0,
        SchemaGeneration::Gen2 => 0,
        SchemaGeneration::Gen3 => spec_cache_count_gen3(op),
    }
}

/// Executable form of `spec_cache_count`.
pub fn cache_count(g: SchemaGeneration, op: u8) -> (r: u8)
    ensures
        r == spec_cache_count(g, op),
{
    match g {
        SchemaGeneration::Gen1 => 0,
        SchemaGeneration::Gen2 => 0,
        SchemaGeneration::Gen3 => cache_count_gen3(op),
    }
}

/// The mnemonic of each opcode byte that generation 1 defines.
pub open spec fn spec_name_gen1(op: u8) -> Option<Seq<char>> {
    match op {
        1u8 => Some("POP_TOP"@),
        2u8 => Some("ROT_TWO"@),
        3u8 => Some("ROT_THREE"@),
        4u8 => Some("DUP_TOP"@),
        5u8 => Some("DUP_TOP_TWO"@),
        6u8 => Some("ROT_FOUR"@),
        9u8 => Some("NOP"@),
        10u8 => Some("UNARY_POSITIVE"@),
        11u8 => Some("UNARY_NEGATIVE"@),
        12u8 => Some("UNARY_NOT"@),
        15u8 => Some("UNARY_INVERT"@),
        16u8 => Some("BINARY_MATRIX_MULTIPLY"@),
        17u8 => Some("INPLACE_MATRIX_MULTIPLY"@),
        19u8 => Some("BINARY_POWER"@),
        20u8 => Some("BINARY_MULTIPLY"@),
        22u8 => Some("BINARY_MODULO"@),
        23u8 => Some("BINARY_ADD"@),
        24u8 => Some("BINARY_SUBTRACT"@),
        25u8 => Some("BINARY_SUBSCR"@),
        26u8 => Some("BINARY_FLOOR_DIVIDE"@),
        27u8 => Some("BINARY_TRUE_DIVIDE"@),
        28u8 => Some("INPLACE_FLOOR_DIVIDE"@),
        29u8 => Some("INPLACE_TRUE_DIVIDE"@),
        30u8 => Some("GET_LEN"@),
        31u8 => Some("MATCH_MAPPING"@),
        32u8 => Some("MATCH_SEQUENCE"@),
        33u8 => Some("MATCH_KEYS"@),
        34u8 => Some("COPY_DICT_WITHOUT_KEYS"@),
        49u8 => Some("WITH_EXCEPT_START"@),
        50u8 => Some("GET_AITER"@),
        51u8 => Some("GET_ANEXT"@),
        52u8 => Some("BEFORE_ASYNC_WITH"@),
        54u8 => Some("END_ASYNC_FOR"@),
        55u8 => Some("INPLACE_ADD"@),
        56u8 => Some("INPLACE_SUBTRACT"@),
        57u8 => Some("INPLACE_MULTIPLY"@),
        59u8 => Some("INPLACE_MODULO"@),
        60u8 => Some("STORE_SUBSCR"@),
        61u8 => Some("DELETE_SUBSCR"@),
        62u8 => Some("BINARY_LSHIFT"@),
        63u8 => Some("BINARY_RSHIFT"@),
        64u8 => Some("BINARY_AND"@),
        65u8 => Some("BINARY_XOR"@),
        66u8 => Some("BINARY_OR"@),
        67u8 => Some("INPLACE_POWER"@),
        68u8 => Some("GET_ITER"@),
        69u8 => Some("GET_YIELD_FROM_ITER"@),
        70u8 => Some("PRINT_EXPR"@),
        71u8 => Some("LOAD_BUILD_CLASS"@),
        72u8 => Some("YIELD_FROM"@),
        73u8 => Some("GET_AWAITABLE"@),
        74u8 => Some("LOAD_ASSERTION_ERROR"@),
        75u8 => Some("INPLACE_LSHIFT"@),
        76u8 => Some("INPLACE_RSHIFT"@),
        77u8 => Some("INPLACE_AND"@),
        78u8 => Some("INPLACE_XOR"@),
        79u8 => Some("INPLACE_OR"@),
        82u8 => Some("LIST_TO_TUPLE"@),
        83u8 => Some("RETURN_VALUE"@),
        84u8 => Some("IMPORT_STAR"@),
        85u8 => Some("SETUP_ANNOTATIONS"@),
        86u8 => Some("YIELD_VALUE"@),
        87u8 => Some("POP_BLOCK"@),
        89u8 => Some("POP_EXCEPT"@),
        90u8 => Some("STORE_NAME"@),
        91u8 => Some("DELETE_NAME"@),
        92u8 => Some("UNPACK_SEQUENCE"@),
        93u8 => Some("FOR_ITER"@),
        94u8 => Some("UNPACK_EX"@),
        95u8 => Some("STORE_ATTR"@),
        96u8 => Some("DELETE_ATTR"@),
        97u8 => Some("STORE_GLOBAL"@),
        98u8 => Some("DELETE_GLOBAL"@),
        99u8 => Some("ROT_N"@),
        100u8 => Some("LOAD_CONST"@),
        101u8 => Some("LOAD_NAME"@),
        102u8 => Some("BUILD_TUPLE"@),
        103u8 => Some("BUILD_LIST"@),
        104u8 => Some("BUILD_SET"@),
        105u8 => Some("BUILD_MAP"@),
        106u8 => Some("LOAD_ATTR"@),
        107u8 => Some("COMPARE_OP"@),
        108u8 => Some("IMPORT_NAME"@),
        109u8 => Some("IMPORT_FROM"@),
        110u8 => Some("JUMP_FORWARD"@),
        111u8 => Some("JUMP_IF_FALSE_OR_POP"@),
        112u8 => Some("JUMP_IF_TRUE_OR_POP"@),
        113u8 => Some("JUMP_ABSOLUTE"@),
        114u8 => Some("POP_JUMP_IF_FALSE"@),
        115u8 => Some("POP_JUMP_IF_TRUE"@),
        116u8 => Some("LOAD_GLOBAL"@),
        117u8 => Some("IS_OP"@),
        118u8 => Some("CONTAINS_OP"@),
        119u8 => Some("RERAISE"@),
        121u8 => Some("JUMP_IF_NOT_EXC_MATCH"@),
        122u8 => Some("SETUP_FINALLY"@),
        124u8 => Some("LOAD_FAST"@),
        125u8 => Some("STORE_FAST"@),
        126u8 => Some("DELETE_FAST"@),
        129u8 => Some("GEN_START"@),
        130u8 => Some("RAISE_VARARGS"@),
        131u8 => Some("CALL_FUNCTION"@),
        132u8 => Some("MAKE_FUNCTION"@),
        133u8 => Some("BUILD_SLICE"@),
        135u8 => Some("LOAD_CLOSURE"@),
        136u8 => Some("LOAD_DEREF"@),
        137u8 => Some("STORE_DEREF"@),
        138u8 => Some("DELETE_DEREF"@),
        141u8 => Some("CALL_FUNCTION_KW"@),
        142u8 => Some("CALL_FUNCTION_EX"@),
        143u8 => Some("SETUP_WITH"@),
        144u8 => Some("EXTENDED_ARG"@),
        145u8 => Some("LIST_APPEND"@),
        146u8 => Some("SET_ADD"@),
        147u8 => Some("MAP_ADD"@),
        148u8 => Some("LOAD_CLASSDEREF"@),
        152u8 => Some("MATCH_CLASS"@),
        154u8 => Some("SETUP_ASYNC_WITH"@),
        155u8 => Some("FORMAT_VALUE"@),
        156u8 => Some("BUILD_CONST_KEY_MAP"@),
        157u8 => Some("BUILD_STRING"@),
        160u8 => Some("LOAD_METHOD"@),
        161u8 => Some("CALL_METHOD"@),
        162u8 => Some("LIST_EXTEND"@),
        163u8 => Some("SET_UPDATE"@),
        164u8 => Some("DICT_MERGE"@),
        165u8 => Some("DICT_UPDATE"@),
        _ => None,
    }
}

/// The mnemonic and its character count for an opcode byte of
/// generation 1, or `None` if the byte is unknown there.
#[verifier::rlimit(60)]
pub fn name_gen1(op: u8) -> (r: Option<(&'static str, usize)>)
    ensures
        r is Some <==> spec_name_gen1(op) is Some,
        r matches Some(p) ==> p.0@ == spec_name_gen1(op)->0 && p.1 == spec_name_gen1(op)->0.len(),
{
    proof {
        reveal_strlit("POP_TOP");
        reveal_strlit("ROT_TWO");
        reveal_strlit("ROT_THREE");
        reveal_strlit("DUP_TOP");
        reveal_strlit("DUP_TOP_TWO");
        reveal_strlit("ROT_FOUR");
        reveal_strlit("NOP");
        reveal_strlit("UNARY_POSITIVE");
        reveal_strlit("UNARY_NEGATIVE");
        reveal_strlit("UNARY_NOT");
        reveal_strlit("UNARY_INVERT");
        reveal_strlit("BINARY_MATRIX_MULTIPLY");
        reveal_strlit("INPLACE_MATRIX_MULTIPLY");
        reveal_strlit("BINARY_POWER");
        reveal_strlit("BINARY_MULTIPLY");
        reveal_strlit("BINARY_MODULO");
        reveal_strlit("BINARY_ADD");
        reveal_strlit("BINARY_SUBTRACT");
        reveal_strlit("BINARY_SUBSCR");
        reveal_strlit("BINARY_FLOOR_DIVIDE");
        reveal_strlit("BINARY_TRUE_DIVIDE");
        reveal_strlit("INPLACE_FLOOR_DIVIDE");
        reveal_strlit("INPLACE_TRUE_DIVIDE");
        reveal_strlit("GET_LEN");
        reveal_strlit("MATCH_MAPPING");
        reveal_strlit("MATCH_SEQUENCE");
        reveal_strlit("MATCH_KEYS");
        reveal_strlit("COPY_DICT_WITHOUT_KEYS");
        reveal_strlit("WITH_EXCEPT_START");
        reveal_strlit("GET_AITER");
        reveal_strlit("GET_ANEXT");
        reveal_strlit("BEFORE_ASYNC_WITH");
        reveal_strlit("END_ASYNC_FOR");
        reveal_strlit("INPLACE_ADD");
        reveal_strlit("INPLACE_SUBTRACT");
        reveal_strlit("INPLACE_MULTIPLY");
        reveal_strlit("INPLACE_MODULO");
        reveal_strlit("STORE_SUBSCR");
        reveal_strlit("DELETE_SUBSCR");
        reveal_strlit("BINARY_LSHIFT");
        reveal_strlit("BINARY_RSHIFT");
        reveal_strlit("BINARY_AND");
        reveal_strlit("BINARY_XOR");
        reveal_strlit("BINARY_OR");
        reveal_strlit("INPLACE_POWER");
        reveal_strlit("GET_ITER");
        reveal_strlit("GET_YIELD_FROM_ITER");
        reveal_strlit("PRINT_EXPR");
        reveal_strlit("LOAD_BUILD_CLASS");
        reveal_strlit("YIELD_FROM");
        reveal_strlit("GET_AWAITABLE");
        reveal_strlit("LOAD_ASSERTION_ERROR");
        reveal_strlit("INPLACE_LSHIFT");
        reveal_strlit("INPLACE_RSHIFT");
        reveal_strlit("INPLACE_AND");
        reveal_strlit("INPLACE_XOR");
        reveal_strlit("INPLACE_OR");
        reveal_strlit("LIST_TO_TUPLE");
        reveal_strlit("RETURN_VALUE");
        reveal_strlit("IMPORT_STAR");
        reveal_strlit("SETUP_ANNOTATIONS");
        reveal_strlit("YIELD_VALUE");
        reveal_strlit("POP_BLOCK");
        reveal_strlit("POP_EXCEPT");
        reveal_strlit("STORE_NAME");
        reveal_strlit("DELETE_NAME");
        reveal_strlit("UNPACK_SEQUENCE");
        reveal_strlit("FOR_ITER");
        reveal_strlit("UNPACK_EX");
        reveal_strlit("STORE_ATTR");
        reveal_strlit("DELETE_ATTR");
        reveal_strlit("STORE_GLOBAL");
        reveal_strlit("DELETE_GLOBAL");
        reveal_strlit("ROT_N");
        reveal_strlit("LOAD_CONST");
        reveal_strlit("LOAD_NAME");
        reveal_strlit("BUILD_TUPLE");
        reveal_strlit("BUILD_LIST");
        reveal_strlit("BUILD_SET");
        reveal_strlit("BUILD_MAP");
        reveal_strlit("LOAD_ATTR");
        reveal_strlit("COMPARE_OP");
        reveal_strlit("IMPORT_NAME");
        reveal_strlit("IMPORT_FROM");
        reveal_strlit("JUMP_FORWARD");
        reveal_strlit("JUMP_IF_FALSE_OR_POP");
        reveal_strlit("JUMP_IF_TRUE_OR_POP");
        reveal_strlit("JUMP_ABSOLUTE");
        reveal_strlit("POP_JUMP_IF_FALSE");
        reveal_strlit("POP_JUMP_IF_TRUE");
        reveal_strlit("LOAD_GLOBAL");
        reveal_strlit("IS_OP");
        reveal_strlit("CONTAINS_OP");
        reveal_strlit("RERAISE");
        reveal_strlit("JUMP_IF_NOT_EXC_MATCH");
        reveal_strlit("SETUP_FINALLY");
        reveal_strlit("LOAD_FAST");
        reveal_strlit("STORE_FAST");
        reveal_strlit("DELETE_FAST");
        reveal_strlit("GEN_START");
        reveal_strlit("RAISE_VARARGS");
        reveal_strlit("CALL_FUNCTION");
        reveal_strlit("MAKE_FUNCTION");
        reveal_strlit("BUILD_SLICE");
        reveal_strlit("LOAD_CLOSURE");
        reveal_strlit("LOAD_DEREF");
        reveal_strlit("STORE_DEREF");
        reveal_strlit("DELETE_DEREF");
        reveal_strlit("CALL_FUNCTION_KW");
        reveal_strlit("CALL_FUNCTION_EX");
        reveal_strlit("SETUP_WITH");
        reveal_strlit("EXTENDED_ARG");
        reveal_strlit("LIST_APPEND");
        reveal_strlit("SET_ADD");
        reveal_strlit("MAP_ADD");
        reveal_strlit("LOAD_CLASSDEREF");
        reveal_strlit("MATCH_CLASS");
        reveal_strlit("SETUP_ASYNC_WITH");
        reveal_strlit("FORMAT_VALUE");
        reveal_strlit("BUILD_CONST_KEY_MAP");
        reveal_strlit("BUILD_STRING");
        reveal_strlit("LOAD_METHOD");
        reveal_strlit("CALL_METHOD");
        reveal_strlit("LIST_EXTEND");
        reveal_strlit("SET_UPDATE");
        reveal_strlit("DICT_MERGE");
        reveal_strlit("DICT_UPDATE");
    }
    match op {
        1u8 => Some(("POP_TOP", 7)),
        2u8 => Some(("ROT_TWO", 7)),
        3u8 => Some(("ROT_THREE", 9)),
        4u8 => Some(("DUP_TOP", 7)),
        5u8 => Some(("DUP_TOP_TWO", 11)),
        6u8 => Some(("ROT_FOUR", 8)),
        9u8 => Some(("NOP", 3)),
        10u8 => Some(("UNARY_POSITIVE", 14)),
        11u8 => Some(("UNARY_NEGATIVE", 14)),
        12u8 => Some(("UNARY_NOT", 9)),
        15u8 => Some(("UNARY_INVERT", 12)),
        16u8 => Some(("BINARY_MATRIX_MULTIPLY", 22)),
        17u8 => Some(("INPLACE_MATRIX_MULTIPLY", 23)),
        19u8 => Some(("BINARY_POWER", 12)),
        20u8 => Some(("BINARY_MULTIPLY", 15)),
        22u8 => Some(("BINARY_MODULO", 13)),
        23u8 => Some(("BINARY_ADD", 10)),
        24u8 => Some(("BINARY_SUBTRACT", 15)),
        25u8 => Some(("BINARY_SUBSCR", 13)),
        26u8 => Some(("BINARY_FLOOR_DIVIDE", 19)),
        27u8 => Some(("BINARY_TRUE_DIVIDE", 18)),
        28u8 => Some(("INPLACE_FLOOR_DIVIDE", 20)),
        29u8 => Some(("INPLACE_TRUE_DIVIDE", 19)),
        30u8 => Some(("GET_LEN", 7)),
        31u8 => Some(("MATCH_MAPPING", 13)),
        32u8 => Some(("MATCH_SEQUENCE", 14)),
        33u8 => Some(("MATCH_KEYS", 10)),
        34u8 => Some(("COPY_DICT_WITHOUT_KEYS", 22)),
        49u8 => Some(("WITH_EXCEPT_START", 17)),
        50u8 => Some(("GET_AITER", 9)),
        51u8 => Some(("GET_ANEXT", 9)),
        52u8 => Some(("BEFORE_ASYNC_WITH", 17)),
        54u8 => Some(("END_ASYNC_FOR", 13)),
        55u8 => Some(("INPLACE_ADD", 11)),
        56u8 => Some(("INPLACE_SUBTRACT", 16)),
        57u8 => Some(("INPLACE_MULTIPLY", 16)),
        59u8 => Some(("INPLACE_MODULO", 14)),
        60u8 => Some(("STORE_SUBSCR", 12)),
        61u8 => Some(("DELETE_SUBSCR", 13)),
        62u8 => Some(("BINARY_LSHIFT", 13)),
        63u8 => Some(("BINARY_RSHIFT", 13)),
        64u8 => Some(("BINARY_AND", 10)),
        65u8 => Some(("BINARY_XOR", 10)),
        66u8 => Some(("BINARY_OR", 9)),
        67u8 => Some(("INPLACE_POWER", 13)),
        68u8 => Some(("GET_ITER", 8)),
        69u8 => Some(("GET_YIELD_FROM_ITER", 19)),
        70u8 => Some(("PRINT_EXPR", 10)),
        71u8 => Some(("LOAD_BUILD_CLASS", 16)),
        72u8 => Some(("YIELD_FROM", 10)),
        73u8 => Some(("GET_AWAITABLE", 13)),
        74u8 => Some(("LOAD_ASSERTION_ERROR", 20)),
        75u8 => Some(("INPLACE_LSHIFT", 14)),
        76u8 => Some(("INPLACE_RSHIFT", 14)),
        77u8 => Some(("INPLACE_AND", 11)),
        78u8 => Some(("INPLACE_XOR", 11)),
        79u8 => Some(("INPLACE_OR", 10)),
        82u8 => Some(("LIST_TO_TUPLE", 13)),
        83u8 => Some(("RETURN_VALUE", 12)),
        84u8 => Some(("IMPORT_STAR", 11)),
        85u8 => Some(("SETUP_ANNOTATIONS", 17)),
        86u8 => Some(("YIELD_VALUE", 11)),
        87u8 => Some(("POP_BLOCK", 9)),
        89u8 => Some(("POP_EXCEPT", 10)),
        90u8 => Some(("STORE_NAME", 10)),
        91u8 => Some(("DELETE_NAME", 11)),
        92u8 => Some(("UNPACK_SEQUENCE", 15)),
        93u8 => Some(("FOR_ITER", 8)),
        94u8 => Some(("UNPACK_EX", 9)),
        95u8 => Some(("STORE_ATTR", 10)),
        96u8 => Some(("DELETE_ATTR", 11)),
        97u8 => Some(("STORE_GLOBAL", 12)),
        98u8 => Some(("DELETE_GLOBAL", 13)),
        99u8 => Some(("ROT_N", 5)),
        100u8 => Some(("LOAD_CONST", 10)),
        101u8 => Some(("LOAD_NAME", 9)),
        102u8 => Some(("BUILD_TUPLE", 11)),
        103u8 => Some(("BUILD_LIST", 10)),
        104u8 => Some(("BUILD_SET", 9)),
        105u8 => Some(("BUILD_MAP", 9)),
        106u8 => Some(("LOAD_ATTR", 9)),
        107u8 => Some(("COMPARE_OP", 10)),
        108u8 => Some(("IMPORT_NAME", 11)),
        109u8 => Some(("IMPORT_FROM", 11)),
        110u8 => Some(("JUMP_FORWARD", 12)),
        111u8 => Some(("JUMP_IF_FALSE_OR_POP", 20)),
        112u8 => Some(("JUMP_IF_TRUE_OR_POP", 19)),
        113u8 => Some(("JUMP_ABSOLUTE", 13)),
        114u8 => Some(("POP_JUMP_IF_FALSE", 17)),
        115u8 => Some(("POP_JUMP_IF_TRUE", 16)),
        116u8 => Some(("LOAD_GLOBAL", 11)),
        117u8 => Some(("IS_OP", 5)),
        118u8 => Some(("CONTAINS_OP", 11)),
        119u8 => Some(("RERAISE", 7)),
        121u8 => Some(("JUMP_IF_NOT_EXC_MATCH", 21)),
        122u8 => Some(("SETUP_FINALLY", 13)),
        124u8 => Some(("LOAD_FAST", 9)),
        125u8 => Some(("STORE_FAST", 10)),
        126u8 => Some(("DELETE_FAST", 11)),
        129u8 => Some(("GEN_START", 9)),
        130u8 => Some(("RAISE_VARARGS", 13)),
        131u8 => Some(("CALL_FUNCTION", 13)),
        132u8 => Some(("MAKE_FUNCTION", 13)),
        133u8 => Some(("BUILD_SLICE", 11)),
        135u8 => Some(("LOAD_CLOSURE", 12)),
        136u8 => Some(("LOAD_DEREF", 10)),
        137u8 => Some(("STORE_DEREF", 11)),
        138u8 => Some(("DELETE_DEREF", 12)),
        141u8 => Some(("CALL_FUNCTION_KW", 16)),
        142u8 => Some(("CALL_FUNCTION_EX", 16)),
        143u8 => Some(("SETUP_WITH", 10)),
        144u8 => Some(("EXTENDED_ARG", 12)),
        145u8 => Some(("LIST_APPEND", 11)),
        146u8 => Some(("SET_ADD", 7)),
        147u8 => Some(("MAP_ADD", 7)),
        148u8 => Some(("LOAD_CLASSDEREF", 15)),
        152u8 => Some(("MATCH_CLASS", 11)),
        154u8 => Some(("SETUP_ASYNC_WITH", 16)),
        155u8 => Some(("FORMAT_VALUE", 12)),
        156u8 => Some(("BUILD_CONST_KEY_MAP", 19)),
        157u8 => Some(("BUILD_STRING", 12)),
        160u8 => Some(("LOAD_METHOD", 11)),
        161u8 => Some(("CALL_METHOD", 11)),
        162u8 => Some(("LIST_EXTEND", 11)),
        163u8 => Some(("SET_UPDATE", 10)),
        164u8 => Some(("DICT_MERGE", 10)),
        165u8 => Some(("DICT_UPDATE", 11)),
        _ => None,
    }
}

/// The operand shape of each opcode byte of generation 1.
pub open spec fn spec_shape_gen1(op: u8) -> OperandShape {
    match op {
        90u8 | 91u8 | 95u8 | 96u8 | 97u8 | 98u8 | 101u8 | 106u8 | 108u8 | 109u8 | 116u8 | 160u8 => OperandShape::NameRef,
        93u8 | 110u8 | 122u8 | 143u8 | 154u8 => OperandShape::JumpForwardRel,
        100u8 => OperandShape::ConstRef,
        107u8 => OperandShape::CompareDirect,
        111u8 | 112u8 | 113u8 | 114u8 | 115u8 | 121u8 => OperandShape::JumpAbsolute,
        124u8 | 125u8 | 126u8 => OperandShape::VarRef,
        132u8 => OperandShape::FunctionFlags,
        135u8 | 136u8 | 137u8 | 138u8 | 148u8 => OperandShape::ClosureSplitRef,
        155u8 => OperandShape::FormatFlag,
        _ => OperandShape::NoArg,
    }
}

/// Executable form of `spec_shape_gen1`.
pub fn shape_gen1(op: u8) -> (r: OperandShape)
    ensures
        r == spec_shape_gen1(op),
{
    match op {
        90u8 | 91u8 | 95u8 | 96u8 | 97u8 | 98u8 | 101u8 | 106u8 | 108u8 | 109u8 | 116u8 | 160u8 => OperandShape::NameRef,
        93u8 | 110u8 | 122u8 | 143u8 | 154u8 => OperandShape::JumpForwardRel,
        100u8 => OperandShape::ConstRef,
        107u8 => OperandShape::CompareDirect,
        111u8 | 112u8 | 113u8 | 114u8 | 115u8 | 121u8 => OperandShape::JumpAbsolute,
        124u8 | 125u8 | 126u8 => OperandShape::VarRef,
        132u8 => OperandShape::FunctionFlags,
        135u8 | 136u8 | 137u8 | 138u8 | 148u8 => OperandShape::ClosureSplitRef,
        155u8 => OperandShape::FormatFlag,
        _ => OperandShape::NoArg,
    }
}

/// The mnemonic of each opcode byte that generation 2 defines.
pub open spec fn spec_name_gen2(op: u8) -> Option<Seq<char>> {
    match op {
        0u8 => Some("CACHE"@),
        1u8 => Some("POP_TOP"@),
        2u8 => Some("PUSH_NULL"@),
        3u8 => Some("BINARY_OP_ADAPTIVE"@),
        4u8 => Some("BINARY_OP_ADD_FLOAT"@),
        5u8 => Some("BINARY_OP_ADD_INT"@),
        6u8 => Some("BINARY_OP_ADD_UNICODE"@),
        7u8 => Some("BINARY_OP_INPLACE_ADD_UNICODE"@),
        8u8 => Some("BINARY_OP_MULTIPLY_FLOAT"@),
        9u8 => Some("NOP"@),
        10u8 => Some("UNARY_POSITIVE"@),
        11u8 => Some("UNARY_NEGATIVE"@),
        12u8 => Some("UNARY_NOT"@),
        13u8 => Some("BINARY_OP_MULTIPLY_INT"@),
        14u8 => Some("BINARY_OP_SUBTRACT_FLOAT"@),
        15u8 => Some("UNARY_INVERT"@),
        16u8 => Some("BINARY_OP_SUBTRACT_INT"@),
        17u8 => Some("BINARY_SUBSCR_ADAPTIVE"@),
        18u8 => Some("BINARY_SUBSCR_DICT"@),
        19u8 => Some("BINARY_SUBSCR_GETITEM"@),
        20u8 => Some("BINARY_SUBSCR_LIST_INT"@),
        21u8 => Some("BINARY_SUBSCR_TUPLE_INT"@),
        22u8 => Some("CALL_ADAPTIVE"@),
        23u8 => Some("CALL_PY_EXACT_ARGS"@),
        24u8 => Some("CALL_PY_WITH_DEFAULTS"@),
        25u8 => Some("BINARY_SUBSCR"@),
        26u8 => Some("COMPARE_OP_ADAPTIVE"@),
        27u8 => Some("COMPARE_OP_FLOAT_JUMP"@),
        28u8 => Some("COMPARE_OP_INT_JUMP"@),
        29u8 => Some("COMPARE_OP_STR_JUMP"@),
        30u8 => Some("GET_LEN"@),
        31u8 => Some("MATCH_MAPPING"@),
        32u8 => Some("MATCH_SEQUENCE"@),
        33u8 => Some("MATCH_KEYS"@),
        34u8 => Some("EXTENDED_ARG_QUICK"@),
        35u8 => Some("PUSH_EXC_INFO"@),
        36u8 => Some("CHECK_EXC_MATCH"@),
        37u8 => Some("CHECK_EG_MATCH"@),
        38u8 => Some("JUMP_BACKWARD_QUICK"@),
        39u8 => Some("LOAD_ATTR_ADAPTIVE"@),
        40u8 => Some("LOAD_ATTR_INSTANCE_VALUE"@),
        41u8 => Some("LOAD_ATTR_MODULE"@),
        42u8 => Some("LOAD_ATTR_SLOT"@),
        43u8 => Some("LOAD_ATTR_WITH_HINT"@),
        44u8 => Some("LOAD_CONST__LOAD_FAST"@),
        45u8 => Some("LOAD_FAST__LOAD_CONST"@),
        46u8 => Some("LOAD_FAST__LOAD_FAST"@),
        47u8 => Some("LOAD_GLOBAL_ADAPTIVE"@),
        48u8 => Some("LOAD_GLOBAL_BUILTIN"@),
        49u8 => Some("WITH_EXCEPT_START"@),
        50u8 => Some("GET_AITER"@),
        51u8 => Some("GET_ANEXT"@),
        52u8 => Some("BEFORE_ASYNC_WITH"@),
        53u8 => Some("BEFORE_WITH"@),
        54u8 => Some("END_ASYNC_FOR"@),
        55u8 => Some("LOAD_GLOBAL_MODULE"@),
        56u8 => Some("LOAD_METHOD_ADAPTIVE"@),
        57u8 => Some("LOAD_METHOD_CLASS"@),
        58u8 => Some("LOAD_METHOD_MODULE"@),
        59u8 => Some("LOAD_METHOD_NO_DICT"@),
        60u8 => Some("STORE_SUBSCR"@),
        61u8 => Some("DELETE_SUBSCR"@),
        62u8 => Some("LOAD_METHOD_WITH_DICT"@),
        63u8 => Some("LOAD_METHOD_WITH_VALUES"@),
        64u8 => Some("PRECALL_ADAPTIVE"@),
        65u8 => Some("PRECALL_BOUND_METHOD"@),
        66u8 => Some("PRECALL_BUILTIN_CLASS"@),
        67u8 => Some("PRECALL_BUILTIN_FAST_WITH_KEYWORDS"@),
        68u8 => Some("GET_ITER"@),
        69u8 => Some("GET_YIELD_FROM_ITER"@),
        70u8 => Some("PRINT_EXPR"@),
        71u8 => Some("LOAD_BUILD_CLASS"@),
        72u8 => Some("PRECALL_METHOD_DESCRIPTOR_FAST_WITH_KEYWORDS"@),
        73u8 => Some("PRECALL_NO_KW_BUILTIN_FAST"@),
        74u8 => Some("LOAD_ASSERTION_ERROR"@),
        75u8 => Some("RETURN_GENERATOR"@),
        76u8 => Some("PRECALL_NO_KW_BUILTIN_O"@),
        77u8 => Some("PRECALL_NO_KW_ISINSTANCE"@),
        78u8 => Some("PRECALL_NO_KW_LEN"@),
        79u8 => Some("PRECALL_NO_KW_LIST_APPEND"@),
        80u8 => Some("PRECALL_NO_KW_METHOD_DESCRIPTOR_FAST"@),
        81u8 => Some("PRECALL_NO_KW_METHOD_DESCRIPTOR_NOARGS"@),
        82u8 => Some("LIST_TO_TUPLE"@),
        83u8 => Some("RETURN_VALUE"@),
        84u8 => Some("IMPORT_STAR"@),
        85u8 => Some("SETUP_ANNOTATIONS"@),
        86u8 => Some("YIELD_VALUE"@),
        87u8 => Some("ASYNC_GEN_WRAP"@),
        88u8 => Some("PREP_RERAISE_STAR"@),
        89u8 => Some("POP_EXCEPT"@),
        90u8 => Some("STORE_NAME"@),
        91u8 => Some("DELETE_NAME"@),
        92u8 => Some("UNPACK_SEQUENCE"@),
        93u8 => Some("FOR_ITER"@),
        94u8 => Some("UNPACK_EX"@),
        95u8 => Some("STORE_ATTR"@),
        96u8 => Some("DELETE_ATTR"@),
        97u8 => Some("STORE_GLOBAL"@),
        98u8 => Some("DELETE_GLOBAL"@),
        99u8 => Some("SWAP"@),
        100u8 => Some("LOAD_CONST"@),
        101u8 => Some("LOAD_NAME"@),
        102u8 => Some("BUILD_TUPLE"@),
        103u8 => Some("BUILD_LIST"@),
        104u8 => Some("BUILD_SET"@),
        105u8 => Some("BUILD_MAP"@),
        106u8 => Some("LOAD_ATTR"@),
        107u8 => Some("COMPARE_OP"@),
        108u8 => Some("IMPORT_NAME"@),
        109u8 => Some("IMPORT_FROM"@),
        110u8 => Some("JUMP_FORWARD"@),
        111u8 => Some("JUMP_IF_FALSE_OR_POP"@),
        112u8 => Some("JUMP_IF_TRUE_OR_POP"@),
        113u8 => Some("PRECALL_NO_KW_METHOD_DESCRIPTOR_O"@),
        114u8 => Some("POP_JUMP_FORWARD_IF_FALSE"@),
        115u8 => Some("POP_JUMP_FORWARD_IF_TRUE"@),
        116u8 => Some("LOAD_GLOBAL"@),
        117u8 => Some("IS_OP"@),
        118u8 => Some("CONTAINS_OP"@),
        119u8 => Some("RERAISE"@),
        120u8 => Some("COPY"@),
        121u8 => Some("PRECALL_NO_KW_STR_1"@),
        122u8 => Some("BINARY_OP"@),
        123u8 => Some("SEND"@),
        124u8 => Some("LOAD_FAST"@),
        125u8 => Some("STORE_FAST"@),
        126u8 => Some("DELETE_FAST"@),
        127u8 => Some("PRECALL_NO_KW_TUPLE_1"@),
        128u8 => Some("POP_JUMP_FORWARD_IF_NOT_NONE"@),
        129u8 => Some("POP_JUMP_FORWARD_IF_NONE"@),
        130u8 => Some("RAISE_VARARGS"@),
        131u8 => Some("GET_AWAITABLE"@),
        132u8 => Some("MAKE_FUNCTION"@),
        133u8 => Some("BUILD_SLICE"@),
        134u8 => Some("JUMP_BACKWARD_NO_INTERRUPT"@),
        135u8 => Some("MAKE_CELL"@),
        136u8 => Some("LOAD_CLOSURE"@),
        137u8 => Some("LOAD_DEREF"@),
        138u8 => Some("STORE_DEREF"@),
        139u8 => Some("DELETE_DEREF"@),
        140u8 => Some("JUMP_BACKWARD"@),
        141u8 => Some("PRECALL_NO_KW_TYPE_1"@),
        142u8 => Some("CALL_FUNCTION_EX"@),
        143u8 => Some("PRECALL_PYFUNC"@),
        144u8 => Some("EXTENDED_ARG"@),
        145u8 => Some("LIST_APPEND"@),
        146u8 => Some("SET_ADD"@),
        147u8 => Some("MAP_ADD"@),
        148u8 => Some("LOAD_CLASSDEREF"@),
        149u8 => Some("COPY_FREE_VARS"@),
        150u8 => Some("RESUME_QUICK"@),
        151u8 => Some("RESUME"@),
        152u8 => Some("MATCH_CLASS"@),
        153u8 => Some("STORE_ATTR_ADAPTIVE"@),
        154u8 => Some("STORE_ATTR_INSTANCE_VALUE"@),
        155u8 => Some("FORMAT_VALUE"@),
        156u8 => Some("BUILD_CONST_KEY_MAP"@),
        157u8 => Some("BUILD_STRING"@),
        158u8 => Some("STORE_ATTR_SLOT"@),
        159u8 => Some("STORE_ATTR_WITH_HINT"@),
        160u8 => Some("LOAD_METHOD"@),
        161u8 => Some("STORE_FAST__LOAD_FAST"@),
        162u8 => Some("LIST_EXTEND"@),
        163u8 => Some("SET_UPDATE"@),
        164u8 => Some("DICT_MERGE"@),
        165u8 => Some("DICT_UPDATE"@),
        166u8 => Some("PRECALL"@),
        167u8 => Some("STORE_FAST__STORE_FAST"@),
        168u8 => Some("STORE_SUBSCR_ADAPTIVE"@),
        169u8 => Some("STORE_SUBSCR_DICT"@),
        170u8 => Some("STORE_SUBSCR_LIST_INT"@),
        171u8 => Some("CALL"@),
        172u8 => Some("KW_NAMES"@),
        173u8 => Some("POP_JUMP_BACKWARD_IF_NOT_NONE"@),
        174u8 => Some("POP_JUMP_BACKWARD_IF_NONE"@),
        175u8 => Some("POP_JUMP_BACKWARD_IF_FALSE"@),
        176u8 => Some("POP_JUMP_BACKWARD_IF_TRUE"@),
        177u8 => Some("UNPACK_SEQUENCE_ADAPTIVE"@),
        178u8 => Some("UNPACK_SEQUENCE_LIST"@),
        179u8 => Some("UNPACK_SEQUENCE_TUPLE"@),
        180u8 => Some("UNPACK_SEQUENCE_TWO_TUPLE"@),
        255u8 => Some("DO_TRACING"@),
        _ => None,
    }
}

/// The mnemonic and its character count for an opcode byte of
/// generation 2, or `None` if the byte is unknown there.
#[verifier::rlimit(60)]
pub fn name_gen2(op: u8) -> (r: Option<(&'static str, usize)>)
    ensures
        r is Some <==> spec_name_gen2(op) is Some,
        r matches Some(p) ==> p.0@ == spec_name_gen2(op)->0 && p.1 == spec_name_gen2(op)->0.len(),
{
    proof {
        reveal_strlit("CACHE");
        reveal_strlit("POP_TOP");
        reveal_strlit("PUSH_NULL");
        reveal_strlit("BINARY_OP_ADAPTIVE");
        reveal_strlit("BINARY_OP_ADD_FLOAT");
        reveal_strlit("BINARY_OP_ADD_INT");
        reveal_strlit("BINARY_OP_ADD_UNICODE");
        reveal_strlit("BINARY_OP_INPLACE_ADD_UNICODE");
        reveal_strlit("BINARY_OP_MULTIPLY_FLOAT");
        reveal_strlit("NOP");
        reveal_strlit("UNARY_POSITIVE");
        reveal_strlit("UNARY_NEGATIVE");
        reveal_strlit("UNARY_NOT");
        reveal_strlit("BINARY_OP_MULTIPLY_INT");
        reveal_strlit("BINARY_OP_SUBTRACT_FLOAT");
        reveal_strlit("UNARY_INVERT");
        reveal_strlit("BINARY_OP_SUBTRACT_INT");
        reveal_strlit("BINARY_SUBSCR_ADAPTIVE");
        reveal_strlit("BINARY_SUBSCR_DICT");
        reveal_strlit("BINARY_SUBSCR_GETITEM");
        reveal_strlit("BINARY_SUBSCR_LIST_INT");
        reveal_strlit("BINARY_SUBSCR_TUPLE_INT");
        reveal_strlit("CALL_ADAPTIVE");
        reveal_strlit("CALL_PY_EXACT_ARGS");
        reveal_strlit("CALL_PY_WITH_DEFAULTS");
        reveal_strlit("BINARY_SUBSCR");
        reveal_strlit("COMPARE_OP_ADAPTIVE");
        reveal_strlit("COMPARE_OP_FLOAT_JUMP");
        reveal_strlit("COMPARE_OP_INT_JUMP");
        reveal_strlit("COMPARE_OP_STR_JUMP");
        reveal_strlit("GET_LEN");
        reveal_strlit("MATCH_MAPPING");
        reveal_strlit("MATCH_SEQUENCE");
        reveal_strlit("MATCH_KEYS");
        reveal_strlit("EXTENDED_ARG_QUICK");
        reveal_strlit("PUSH_EXC_INFO");
        reveal_strlit("CHECK_EXC_MATCH");
        reveal_strlit("CHECK_EG_MATCH");
        reveal_strlit("JUMP_BACKWARD_QUICK");
        reveal_strlit("LOAD_ATTR_ADAPTIVE");
        reveal_strlit("LOAD_ATTR_INSTANCE_VALUE");
        reveal_strlit("LOAD_ATTR_MODULE");
        reveal_strlit("LOAD_ATTR_SLOT");
        reveal_strlit("LOAD_ATTR_WITH_HINT");
        reveal_strlit("LOAD_CONST__LOAD_FAST");
        reveal_strlit("LOAD_FAST__LOAD_CONST");
        reveal_strlit("LOAD_FAST__LOAD_FAST");
        reveal_strlit("LOAD_GLOBAL_ADAPTIVE");
        reveal_strlit("LOAD_GLOBAL_BUILTIN");
        reveal_strlit("WITH_EXCEPT_START");
        reveal_strlit("GET_AITER");
        reveal_strlit("GET_ANEXT");
        reveal_strlit("BEFORE_ASYNC_WITH");
        reveal_strlit("BEFORE_WITH");
        reveal_strlit("END_ASYNC_FOR");
        reveal_strlit("LOAD_GLOBAL_MODULE");
        reveal_strlit("LOAD_METHOD_ADAPTIVE");
        reveal_strlit("LOAD_METHOD_CLASS");
        reveal_strlit("LOAD_METHOD_MODULE");
        reveal_strlit("LOAD_METHOD_NO_DICT");
        reveal_strlit("STORE_SUBSCR");
        reveal_strlit("DELETE_SUBSCR");
        reveal_strlit("LOAD_METHOD_WITH_DICT");
        reveal_strlit("LOAD_METHOD_WITH_VALUES");
        reveal_strlit("PRECALL_ADAPTIVE");
        reveal_strlit("PRECALL_BOUND_METHOD");
        reveal_strlit("PRECALL_BUILTIN_CLASS");
        reveal_strlit("PRECALL_BUILTIN_FAST_WITH_KEYWORDS");
        reveal_strlit("GET_ITER");
        reveal_strlit("GET_YIELD_FROM_ITER");
        reveal_strlit("PRINT_EXPR");
        reveal_strlit("LOAD_BUILD_CLASS");
        reveal_strlit("PRECALL_METHOD_DESCRIPTOR_FAST_WITH_KEYWORDS");
        reveal_strlit("PRECALL_NO_KW_BUILTIN_FAST");
        reveal_strlit("LOAD_ASSERTION_ERROR");
        reveal_strlit("RETURN_GENERATOR");
        reveal_strlit("PRECALL_NO_KW_BUILTIN_O");
        reveal_strlit("PRECALL_NO_KW_ISINSTANCE");
        reveal_strlit("PRECALL_NO_KW_LEN");
        reveal_strlit("PRECALL_NO_KW_LIST_APPEND");
        reveal_strlit("PRECALL_NO_KW_METHOD_DESCRIPTOR_FAST");
        reveal_strlit("PRECALL_NO_KW_METHOD_DESCRIPTOR_NOARGS");
        reveal_strlit("LIST_TO_TUPLE");
        reveal_strlit("RETURN_VALUE");
        reveal_strlit("IMPORT_STAR");
        reveal_strlit("SETUP_ANNOTATIONS");
        reveal_strlit("YIELD_VALUE");
        reveal_strlit("ASYNC_GEN_WRAP");
        reveal_strlit("PREP_RERAISE_STAR");
        reveal_strlit("POP_EXCEPT");
        reveal_strlit("STORE_NAME");
        reveal_strlit("DELETE_NAME");
        reveal_strlit("UNPACK_SEQUENCE");
        reveal_strlit("FOR_ITER");
        reveal_strlit("UNPACK_EX");
        reveal_strlit("STORE_ATTR");
        reveal_strlit("DELETE_ATTR");
        reveal_strlit("STORE_GLOBAL");
        reveal_strlit("DELETE_GLOBAL");
        reveal_strlit("SWAP");
        reveal_strlit("LOAD_CONST");
        reveal_strlit("LOAD_NAME");
        reveal_strlit("BUILD_TUPLE");
        reveal_strlit("BUILD_LIST");
        reveal_strlit("BUILD_SET");
        reveal_strlit("BUILD_MAP");
        reveal_strlit("LOAD_ATTR");
        reveal_strlit("COMPARE_OP");
        reveal_strlit("IMPORT_NAME");
        reveal_strlit("IMPORT_FROM");
        reveal_strlit("JUMP_FORWARD");
        reveal_strlit("JUMP_IF_FALSE_OR_POP");
        reveal_strlit("JUMP_IF_TRUE_OR_POP");
        reveal_strlit("PRECALL_NO_KW_METHOD_DESCRIPTOR_O");
        reveal_strlit("POP_JUMP_FORWARD_IF_FALSE");
        reveal_strlit("POP_JUMP_FORWARD_IF_TRUE");
        reveal_strlit("LOAD_GLOBAL");
        reveal_strlit("IS_OP");
        reveal_strlit("CONTAINS_OP");
        reveal_strlit("RERAISE");
        reveal_strlit("COPY");
        reveal_strlit("PRECALL_NO_KW_STR_1");
        reveal_strlit("BINARY_OP");
        reveal_strlit("SEND");
        reveal_strlit("LOAD_FAST");
        reveal_strlit("STORE_FAST");
        reveal_strlit("DELETE_FAST");
        reveal_strlit("PRECALL_NO_KW_TUPLE_1");
        reveal_strlit("POP_JUMP_FORWARD_IF_NOT_NONE");
        reveal_strlit("POP_JUMP_FORWARD_IF_NONE");
        reveal_strlit("RAISE_VARARGS");
        reveal_strlit("GET_AWAITABLE");
        reveal_strlit("MAKE_FUNCTION");
        reveal_strlit("BUILD_SLICE");
        reveal_strlit("JUMP_BACKWARD_NO_INTERRUPT");
        reveal_strlit("MAKE_CELL");
        reveal_strlit("LOAD_CLOSURE");
        reveal_strlit("LOAD_DEREF");
        reveal_strlit("STORE_DEREF");
        reveal_strlit("DELETE_DEREF");
        reveal_strlit("JUMP_BACKWARD");
        reveal_strlit("PRECALL_NO_KW_TYPE_1");
        reveal_strlit("CALL_FUNCTION_EX");
        reveal_strlit("PRECALL_PYFUNC");
        reveal_strlit("EXTENDED_ARG");
        reveal_strlit("LIST_APPEND");
        reveal_strlit("SET_ADD");
        reveal_strlit("MAP_ADD");
        reveal_strlit("LOAD_CLASSDEREF");
        reveal_strlit("COPY_FREE_VARS");
        reveal_strlit("RESUME_QUICK");
        reveal_strlit("RESUME");
        reveal_strlit("MATCH_CLASS");
        reveal_strlit("STORE_ATTR_ADAPTIVE");
        reveal_strlit("STORE_ATTR_INSTANCE_VALUE");
        reveal_strlit("FORMAT_VALUE");
        reveal_strlit("BUILD_CONST_KEY_MAP");
        reveal_strlit("BUILD_STRING");
        reveal_strlit("STORE_ATTR_SLOT");
        reveal_strlit("STORE_ATTR_WITH_HINT");
        reveal_strlit("LOAD_METHOD");
        reveal_strlit("STORE_FAST__LOAD_FAST");
        reveal_strlit("LIST_EXTEND");
        reveal_strlit("SET_UPDATE");
        reveal_strlit("DICT_MERGE");
        reveal_strlit("DICT_UPDATE");
        reveal_strlit("PRECALL");
        reveal_strlit("STORE_FAST__STORE_FAST");
        reveal_strlit("STORE_SUBSCR_ADAPTIVE");
        reveal_strlit("STORE_SUBSCR_DICT");
        reveal_strlit("STORE_SUBSCR_LIST_INT");
        reveal_strlit("CALL");
        reveal_strlit("KW_NAMES");
        reveal_strlit("POP_JUMP_BACKWARD_IF_NOT_NONE");
        reveal_strlit("POP_JUMP_BACKWARD_IF_NONE");
        reveal_strlit("POP_JUMP_BACKWARD_IF_FALSE");
        reveal_strlit("POP_JUMP_BACKWARD_IF_TRUE");
        reveal_strlit("UNPACK_SEQUENCE_ADAPTIVE");
        reveal_strlit("UNPACK_SEQUENCE_LIST");
        reveal_strlit("UNPACK_SEQUENCE_TUPLE");
        reveal_strlit("UNPACK_SEQUENCE_TWO_TUPLE");
        reveal_strlit("DO_TRACING");
    }
    match op {
        0u8 => Some(("CACHE", 5)),
        1u8 => Some(("POP_TOP", 7)),
        2u8 => Some(("PUSH_NULL", 9)),
        3u8 => Some(("BINARY_OP_ADAPTIVE", 18)),
        4u8 => Some(("BINARY_OP_ADD_FLOAT", 19)),
        5u8 => Some(("BINARY_OP_ADD_INT", 17)),
        6u8 => Some(("BINARY_OP_ADD_UNICODE", 21)),
        7u8 => Some(("BINARY_OP_INPLACE_ADD_UNICODE", 29)),
        8u8 => Some(("BINARY_OP_MULTIPLY_FLOAT", 24)),
        9u8 => Some(("NOP", 3)),
        10u8 => Some(("UNARY_POSITIVE", 14)),
        11u8 => Some(("UNARY_NEGATIVE", 14)),
        12u8 => Some(("UNARY_NOT", 9)),
        13u8 => Some(("BINARY_OP_MULTIPLY_INT", 22)),
        14u8 => Some(("BINARY_OP_SUBTRACT_FLOAT", 24)),
        15u8 => Some(("UNARY_INVERT", 12)),
        16u8 => Some(("BINARY_OP_SUBTRACT_INT", 22)),
        17u8 => Some(("BINARY_SUBSCR_ADAPTIVE", 22)),
        18u8 => Some(("BINARY_SUBSCR_DICT", 18)),
        19u8 => Some(("BINARY_SUBSCR_GETITEM", 21)),
        20u8 => Some(("BINARY_SUBSCR_LIST_INT", 22)),
        21u8 => Some(("BINARY_SUBSCR_TUPLE_INT", 23)),
        22u8 => Some(("CALL_ADAPTIVE", 13)),
        23u8 => Some(("CALL_PY_EXACT_ARGS", 18)),
        24u8 => Some(("CALL_PY_WITH_DEFAULTS", 21)),
        25u8 => Some(("BINARY_SUBSCR", 13)),
        26u8 => Some(("COMPARE_OP_ADAPTIVE", 19)),
        27u8 => Some(("COMPARE_OP_FLOAT_JUMP", 21)),
        28u8 => Some(("COMPARE_OP_INT_JUMP", 19)),
        29u8 => Some(("COMPARE_OP_STR_JUMP", 19)),
        30u8 => Some(("GET_LEN", 7)),
        31u8 => Some(("MATCH_MAPPING", 13)),
        32u8 => Some(("MATCH_SEQUENCE", 14)),
        33u8 => Some(("MATCH_KEYS", 10)),
        34u8 => Some(("EXTENDED_ARG_QUICK", 18)),
        35u8 => Some(("PUSH_EXC_INFO", 13)),
        36u8 => Some(("CHECK_EXC_MATCH", 15)),
        37u8 => Some(("CHECK_EG_MATCH", 14)),
        38u8 => Some(("JUMP_BACKWARD_QUICK", 19)),
        39u8 => Some(("LOAD_ATTR_ADAPTIVE", 18)),
        40u8 => Some(("LOAD_ATTR_INSTANCE_VALUE", 24)),
        41u8 => Some(("LOAD_ATTR_MODULE", 16)),
        42u8 => Some(("LOAD_ATTR_SLOT", 14)),
        43u8 => Some(("LOAD_ATTR_WITH_HINT", 19)),
        44u8 => Some(("LOAD_CONST__LOAD_FAST", 21)),
        45u8 => Some(("LOAD_FAST__LOAD_CONST", 21)),
        46u8 => Some(("LOAD_FAST__LOAD_FAST", 20)),
        47u8 => Some(("LOAD_GLOBAL_ADAPTIVE", 20)),
        48u8 => Some(("LOAD_GLOBAL_BUILTIN", 19)),
        49u8 => Some(("WITH_EXCEPT_START", 17)),
        50u8 => Some(("GET_AITER", 9)),
        51u8 => Some(("GET_ANEXT", 9)),
        52u8 => Some(("BEFORE_ASYNC_WITH", 17)),
        53u8 => Some(("BEFORE_WITH", 11)),
        54u8 => Some(("END_ASYNC_FOR", 13)),
        55u8 => Some(("LOAD_GLOBAL_MODULE", 18)),
        56u8 => Some(("LOAD_METHOD_ADAPTIVE", 20)),
        57u8 => Some(("LOAD_METHOD_CLASS", 17)),
        58u8 => Some(("LOAD_METHOD_MODULE", 18)),
        59u8 => Some(("LOAD_METHOD_NO_DICT", 19)),
        60u8 => Some(("STORE_SUBSCR", 12)),
        61u8 => Some(("DELETE_SUBSCR", 13)),
        62u8 => Some(("LOAD_METHOD_WITH_DICT", 21)),
        63u8 => Some(("LOAD_METHOD_WITH_VALUES", 23)),
        64u8 => Some(("PRECALL_ADAPTIVE", 16)),
        65u8 => Some(("PRECALL_BOUND_METHOD", 20)),
        66u8 => Some(("PRECALL_BUILTIN_CLASS", 21)),
        67u8 => Some(("PRECALL_BUILTIN_FAST_WITH_KEYWORDS", 34)),
        68u8 => Some(("GET_ITER", 8)),
        69u8 => Some(("GET_YIELD_FROM_ITER", 19)),
        70u8 => Some(("PRINT_EXPR", 10)),
        71u8 => Some(("LOAD_BUILD_CLASS", 16)),
        72u8 => Some(("PRECALL_METHOD_DESCRIPTOR_FAST_WITH_KEYWORDS", 44)),
        73u8 => Some(("PRECALL_NO_KW_BUILTIN_FAST", 26)),
        74u8 => Some(("LOAD_ASSERTION_ERROR", 20)),
        75u8 => Some(("RETURN_GENERATOR", 16)),
        76u8 => Some(("PRECALL_NO_KW_BUILTIN_O", 23)),
        77u8 => Some(("PRECALL_NO_KW_ISINSTANCE", 24)),
        78u8 => Some(("PRECALL_NO_KW_LEN", 17)),
        79u8 => Some(("PRECALL_NO_KW_LIST_APPEND", 25)),
        80u8 => Some(("PRECALL_NO_KW_METHOD_DESCRIPTOR_FAST", 36)),
        81u8 => Some(("PRECALL_NO_KW_METHOD_DESCRIPTOR_NOARGS", 38)),
        82u8 => Some(("LIST_TO_TUPLE", 13)),
        83u8 => Some(("RETURN_VALUE", 12)),
        84u8 => Some(("IMPORT_STAR", 11)),
        85u8 => Some(("SETUP_ANNOTATIONS", 17)),
        86u8 => Some(("YIELD_VALUE", 11)),
        87u8 => Some(("ASYNC_GEN_WRAP", 14)),
        88u8 => Some(("PREP_RERAISE_STAR", 17)),
        89u8 => Some(("POP_EXCEPT", 10)),
        90u8 => Some(("STORE_NAME", 10)),
        91u8 => Some(("DELETE_NAME", 11)),
        92u8 => Some(("UNPACK_SEQUENCE", 15)),
        93u8 => Some(("FOR_ITER", 8)),
        94u8 => Some(("UNPACK_EX", 9)),
        95u8 => Some(("STORE_ATTR", 10)),
        96u8 => Some(("DELETE_ATTR", 11)),
        97u8 => Some(("STORE_GLOBAL", 12)),
        98u8 => Some(("DELETE_GLOBAL", 13)),
        99u8 => Some(("SWAP", 4)),
        100u8 => Some(("LOAD_CONST", 10)),
        101u8 => Some(("LOAD_NAME", 9)),
        102u8 => Some(("BUILD_TUPLE", 11)),
        103u8 => Some(("BUILD_LIST", 10)),
        104u8 => Some(("BUILD_SET", 9)),
        105u8 => Some(("BUILD_MAP", 9)),
        106u8 => Some(("LOAD_ATTR", 9)),
        107u8 => Some(("COMPARE_OP", 10)),
        108u8 => Some(("IMPORT_NAME", 11)),
        109u8 => Some(("IMPORT_FROM", 11)),
        110u8 => Some(("JUMP_FORWARD", 12)),
        111u8 => Some(("JUMP_IF_FALSE_OR_POP", 20)),
        112u8 => Some(("JUMP_IF_TRUE_OR_POP", 19)),
        113u8 => Some(("PRECALL_NO_KW_METHOD_DESCRIPTOR_O", 33)),
        114u8 => Some(("POP_JUMP_FORWARD_IF_FALSE", 25)),
        115u8 => Some(("POP_JUMP_FORWARD_IF_TRUE", 24)),
        116u8 => Some(("LOAD_GLOBAL", 11)),
        117u8 => Some(("IS_OP", 5)),
        118u8 => Some(("CONTAINS_OP", 11)),
        119u8 => Some(("RERAISE", 7)),
        120u8 => Some(("COPY", 4)),
        121u8 => Some(("PRECALL_NO_KW_STR_1", 19)),
        122u8 => Some(("BINARY_OP", 9)),
        123u8 => Some(("SEND", 4)),
        124u8 => Some(("LOAD_FAST", 9)),
        125u8 => Some(("STORE_FAST", 10)),
        126u8 => Some(("DELETE_FAST", 11)),
        127u8 => Some(("PRECALL_NO_KW_TUPLE_1", 21)),
        128u8 => Some(("POP_JUMP_FORWARD_IF_NOT_NONE", 28)),
        129u8 => Some(("POP_JUMP_FORWARD_IF_NONE", 24)),
        130u8 => Some(("RAISE_VARARGS", 13)),
        131u8 => Some(("GET_AWAITABLE", 13)),
        132u8 => Some(("MAKE_FUNCTION", 13)),
        133u8 => Some(("BUILD_SLICE", 11)),
        134u8 => Some(("JUMP_BACKWARD_NO_INTERRUPT", 26)),
        135u8 => Some(("MAKE_CELL", 9)),
        136u8 => Some(("LOAD_CLOSURE", 12)),
        137u8 => Some(("LOAD_DEREF", 10)),
        138u8 => Some(("STORE_DEREF", 11)),
        139u8 => Some(("DELETE_DEREF", 12)),
        140u8 => Some(("JUMP_BACKWARD", 13)),
        141u8 => Some(("PRECALL_NO_KW_TYPE_1", 20)),
        142u8 => Some(("CALL_FUNCTION_EX", 16)),
        143u8 => Some(("PRECALL_PYFUNC", 14)),
        144u8 => Some(("EXTENDED_ARG", 12)),
        145u8 => Some(("LIST_APPEND", 11)),
        146u8 => Some(("SET_ADD", 7)),
        147u8 => Some(("MAP_ADD", 7)),
        148u8 => Some(("LOAD_CLASSDEREF", 15)),
        149u8 => Some(("COPY_FREE_VARS", 14)),
        150u8 => Some(("RESUME_QUICK", 12)),
        151u8 => Some(("RESUME", 6)),
        152u8 => Some(("MATCH_CLASS", 11)),
        153u8 => Some(("STORE_ATTR_ADAPTIVE", 19)),
        154u8 => Some(("STORE_ATTR_INSTANCE_VALUE", 25)),
        155u8 => Some(("FORMAT_VALUE", 12)),
        156u8 => Some(("BUILD_CONST_KEY_MAP", 19)),
        157u8 => Some(("BUILD_STRING", 12)),
        158u8 => Some(("STORE_ATTR_SLOT", 15)),
        159u8 => Some(("STORE_ATTR_WITH_HINT", 20)),
        160u8 => Some(("LOAD_METHOD", 11)),
        161u8 => Some(("STORE_FAST__LOAD_FAST", 21)),
        162u8 => Some(("LIST_EXTEND", 11)),
        163u8 => Some(("SET_UPDATE", 10)),
        164u8 => Some(("DICT_MERGE", 10)),
        165u8 => Some(("DICT_UPDATE", 11)),
        166u8 => Some(("PRECALL", 7)),
        167u8 => Some(("STORE_FAST__STORE_FAST", 22)),
        168u8 => Some(("STORE_SUBSCR_ADAPTIVE", 21)),
        169u8 => Some(("STORE_SUBSCR_DICT", 17)),
        170u8 => Some(("STORE_SUBSCR_LIST_INT", 21)),
        171u8 => Some(("CALL", 4)),
        172u8 => Some(("KW_NAMES", 8)),
        173u8 => Some(("POP_JUMP_BACKWARD_IF_NOT_NONE", 29)),
        174u8 => Some(("POP_JUMP_BACKWARD_IF_NONE", 25)),
        175u8 => Some(("POP_JUMP_BACKWARD_IF_FALSE", 26)),
        176u8 => Some(("POP_JUMP_BACKWARD_IF_TRUE", 25)),
        177u8 => Some(("UNPACK_SEQUENCE_ADAPTIVE", 24)),
        178u8 => Some(("UNPACK_SEQUENCE_LIST", 20)),
        179u8 => Some(("UNPACK_SEQUENCE_TUPLE", 21)),
        180u8 => Some(("UNPACK_SEQUENCE_TWO_TUPLE", 25)),
        255u8 => Some(("DO_TRACING", 10)),
        _ => None,
    }
}

/// The operand shape of each opcode byte of generation 2.
pub open spec fn spec_shape_gen2(op: u8) -> OperandShape {
    match op {
        38u8 | 134u8 | 140u8 | 173u8 | 174u8 | 175u8 | 176u8 => OperandShape::JumpBackwardRel,
        90u8 | 91u8 | 95u8 | 96u8 | 97u8 | 98u8 | 101u8 | 106u8 | 108u8 | 109u8 | 160u8 => OperandShape::NameRef,
        93u8 | 110u8 | 111u8 | 112u8 | 114u8 | 115u8 | 123u8 | 128u8 | 129u8 => OperandShape::JumpForwardRel,
        100u8 | 172u8 => OperandShape::ConstRef,
        107u8 => OperandShape::CompareDirect,
        116u8 => OperandShape::CompositeNameNull,
        122u8 => OperandShape::BinaryOperator,
        124u8 | 125u8 | 126u8 | 135u8 | 136u8 | 137u8 | 138u8 | 139u8 | 148u8 => OperandShape::LocalsPlusRef,
        132u8 => OperandShape::FunctionFlags,
        155u8 => OperandShape::FormatFlag,
        _ => OperandShape::NoArg,
    }
}

/// Executable form of `spec_shape_gen2`.
pub fn shape_gen2(op: u8) -> (r: OperandShape)
    ensures
        r == spec_shape_gen2(op),
{
    match op {
        38u8 | 134u8 | 140u8 | 173u8 | 174u8 | 175u8 | 176u8 => OperandShape::JumpBackwardRel,
        90u8 | 91u8 | 95u8 | 96u8 | 97u8 | 98u8 | 101u8 | 106u8 | 108u8 | 109u8 | 160u8 => OperandShape::NameRef,
        93u8 | 110u8 | 111u8 | 112u8 | 114u8 | 115u8 | 123u8 | 128u8 | 129u8 => OperandShape::JumpForwardRel,
        100u8 | 172u8 => OperandShape::ConstRef,
        107u8 => OperandShape::CompareDirect,
        116u8 => OperandShape::CompositeNameNull,
        122u8 => OperandShape::BinaryOperator,
        124u8 | 125u8 | 126u8 | 135u8 | 136u8 | 137u8 | 138u8 | 139u8 | 148u8 => OperandShape::LocalsPlusRef,
        132u8 => OperandShape::FunctionFlags,
        155u8 => OperandShape::FormatFlag,
        _ => OperandShape::NoArg,
    }
}

/// The mnemonic of each opcode byte that generation 3 defines.
pub open spec fn spec_name_gen3(op: u8) -> Option<Seq<char>> {
    match op {
        0u8 => Some("CACHE"@),
        1u8 => Some("BEFORE_ASYNC_WITH"@),
        2u8 => Some("BEFORE_WITH"@),
        3u8 => Some("BINARY_OP_INPLACE_ADD_UNICODE"@),
        4u8 => Some("BINARY_SLICE"@),
        5u8 => Some("BINARY_SUBSCR"@),
        6u8 => Some("CHECK_EG_MATCH"@),
        7u8 => Some("CHECK_EXC_MATCH"@),
        8u8 => Some("CLEANUP_THROW"@),
        9u8 => Some("DELETE_SUBSCR"@),
        10u8 => Some("END_ASYNC_FOR"@),
        11u8 => Some("END_FOR"@),
        12u8 => Some("END_SEND"@),
        13u8 => Some("EXIT_INIT_CHECK"@),
        14u8 => Some("FORMAT_SIMPLE"@),
        15u8 => Some("FORMAT_WITH_SPEC"@),
        16u8 => Some("GET_AITER"@),
        17u8 => Some("RESERVED"@),
        18u8 => Some("GET_ANEXT"@),
        19u8 => Some("GET_ITER"@),
        20u8 => Some("GET_LEN"@),
        21u8 => Some("GET_YIELD_FROM_ITER"@),
        22u8 => Some("INTERPRETER_EXIT"@),
        23u8 => Some("LOAD_ASSERTION_ERROR"@),
        24u8 => Some("LOAD_BUILD_CLASS"@),
        25u8 => Some("LOAD_LOCALS"@),
        26u8 => Some("MAKE_FUNCTION"@),
        27u8 => Some("MATCH_KEYS"@),
        28u8 => Some("MATCH_MAPPING"@),
        29u8 => Some("MATCH_SEQUENCE"@),
        30u8 => Some("NOP"@),
        31u8 => Some("POP_EXCEPT"@),
        32u8 => Some("POP_TOP"@),
        33u8 => Some("PUSH_EXC_INFO"@),
        34u8 => Some("PUSH_NULL"@),
        35u8 => Some("RETURN_GENERATOR"@),
        36u8 => Some("RETURN_VALUE"@),
        37u8 => Some("SETUP_ANNOTATIONS"@),
        38u8 => Some("STORE_SLICE"@),
        39u8 => Some("STORE_SUBSCR"@),
        40u8 => Some("TO_BOOL"@),
        41u8 => Some("UNARY_INVERT"@),
        42u8 => Some("UNARY_NEGATIVE"@),
        43u8 => Some("UNARY_NOT"@),
        44u8 => Some("WITH_EXCEPT_START"@),
        45u8 => Some("BINARY_OP"@),
        46u8 => Some("BUILD_CONST_KEY_MAP"@),
        47u8 => Some("BUILD_LIST"@),
        48u8 => Some("BUILD_MAP"@),
        49u8 => Some("BUILD_SET"@),
        50u8 => Some("BUILD_SLICE"@),
        51u8 => Some("BUILD_STRING"@),
        52u8 => Some("BUILD_TUPLE"@),
        53u8 => Some("CALL"@),
        54u8 => Some("CALL_FUNCTION_EX"@),
        55u8 => Some("CALL_INTRINSIC_1"@),
        56u8 => Some("CALL_INTRINSIC_2"@),
        57u8 => Some("CALL_KW"@),
        58u8 => Some("COMPARE_OP"@),
        59u8 => Some("CONTAINS_OP"@),
        60u8 => Some("CONVERT_VALUE"@),
        61u8 => Some("COPY"@),
        62u8 => Some("COPY_FREE_VARS"@),
        63u8 => Some("DELETE_ATTR"@),
        64u8 => Some("DELETE_DEREF"@),
        65u8 => Some("DELETE_FAST"@),
        66u8 => Some("DELETE_GLOBAL"@),
        67u8 => Some("DELETE_NAME"@),
        68u8 => Some("DICT_MERGE"@),
        69u8 => Some("DICT_UPDATE"@),
        70u8 => Some("ENTER_EXECUTOR"@),
        71u8 => Some("EXTENDED_ARG"@),
        72u8 => Some("FOR_ITER"@),
        73u8 => Some("GET_AWAITABLE"@),
        74u8 => Some("IMPORT_FROM"@),
        75u8 => Some("IMPORT_NAME"@),
        76u8 => Some("IS_OP"@),
        77u8 => Some("JUMP_BACKWARD"@),
        78u8 => Some("JUMP_BACKWARD_NO_INTERRUPT"@),
        79u8 => Some("JUMP_FORWARD"@),
        80u8 => Some("LIST_APPEND"@),
        81u8 => Some("LIST_EXTEND"@),
        82u8 => Some("LOAD_ATTR"@),
        83u8 => Some("LOAD_CONST"@),
        84u8 => Some("LOAD_DEREF"@),
        85u8 => Some("LOAD_FAST"@),
        86u8 => Some("LOAD_FAST_AND_CLEAR"@),
        87u8 => Some("LOAD_FAST_CHECK"@),
        88u8 => Some("LOAD_FAST_LOAD_FAST"@),
        89u8 => Some("LOAD_FROM_DICT_OR_DEREF"@),
        90u8 => Some("LOAD_FROM_DICT_OR_GLOBALS"@),
        91u8 => Some("LOAD_GLOBAL"@),
        92u8 => Some("LOAD_NAME"@),
        93u8 => Some("LOAD_SUPER_ATTR"@),
        94u8 => Some("MAKE_CELL"@),
        95u8 => Some("MAP_ADD"@),
        96u8 => Some("MATCH_CLASS"@),
        97u8 => Some("POP_JUMP_IF_FALSE"@),
        98u8 => Some("POP_JUMP_IF_NONE"@),
        99u8 => Some("POP_JUMP_IF_NOT_NONE"@),
        100u8 => Some("POP_JUMP_IF_TRUE"@),
        101u8 => Some("RAISE_VARARGS"@),
        102u8 => Some("RERAISE"@),
        103u8 => Some("RETURN_CONST"@),
        104u8 => Some("SEND"@),
        105u8 => Some("SET_ADD"@),
        106u8 => Some("SET_FUNCTION_ATTRIBUTE"@),
        107u8 => Some("SET_UPDATE"@),
        108u8 => Some("STORE_ATTR"@),
        109u8 => Some("STORE_DEREF"@),
        110u8 => Some("STORE_FAST"@),
        111u8 => Some("STORE_FAST_LOAD_FAST"@),
        112u8 => Some("STORE_FAST_STORE_FAST"@),
        113u8 => Some("STORE_GLOBAL"@),
        114u8 => Some("STORE_NAME"@),
        115u8 => Some("SWAP"@),
        116u8 => Some("UNPACK_EX"@),
        117u8 => Some("UNPACK_SEQUENCE"@),
        118u8 => Some("YIELD_VALUE"@),
        149u8 => Some("RESUME"@),
        150u8 => Some("BINARY_OP_ADD_FLOAT"@),
        151u8 => Some("BINARY_OP_ADD_INT"@),
        152u8 => Some("BINARY_OP_ADD_UNICODE"@),
        153u8 => Some("BINARY_OP_MULTIPLY_FLOAT"@),
        154u8 => Some("BINARY_OP_MULTIPLY_INT"@),
        155u8 => Some("BINARY_OP_SUBTRACT_FLOAT"@),
        156u8 => Some("BINARY_OP_SUBTRACT_INT"@),
        157u8 => Some("BINARY_SUBSCR_DICT"@),
        158u8 => Some("BINARY_SUBSCR_GETITEM"@),
        159u8 => Some("BINARY_SUBSCR_LIST_INT"@),
        160u8 => Some("BINARY_SUBSCR_STR_INT"@),
        161u8 => Some("BINARY_SUBSCR_TUPLE_INT"@),
        162u8 => Some("CALL_ALLOC_AND_ENTER_INIT"@),
        163u8 => Some("CALL_BOUND_METHOD_EXACT_ARGS"@),
        164u8 => Some("CALL_BOUND_METHOD_GENERAL"@),
        165u8 => Some("CALL_BUILTIN_CLASS"@),
        166u8 => Some("CALL_BUILTIN_FAST"@),
        167u8 => Some("CALL_BUILTIN_FAST_WITH_KEYWORDS"@),
        168u8 => Some("CALL_BUILTIN_O"@),
        169u8 => Some("CALL_ISINSTANCE"@),
        170u8 => Some("CALL_LEN"@),
        171u8 => Some("CALL_LIST_APPEND"@),
        172u8 => Some("CALL_METHOD_DESCRIPTOR_FAST"@),
        173u8 => Some("CALL_METHOD_DESCRIPTOR_FAST_WITH_KEYWORDS"@),
        174u8 => Some("CALL_METHOD_DESCRIPTOR_NOARGS"@),
        175u8 => Some("CALL_METHOD_DESCRIPTOR_O"@),
        176u8 => Some("CALL_NON_PY_GENERAL"@),
        177u8 => Some("CALL_PY_EXACT_ARGS"@),
        178u8 => Some("CALL_PY_GENERAL"@),
        179u8 => Some("CALL_STR_1"@),
        180u8 => Some("CALL_TUPLE_1"@),
        181u8 => Some("CALL_TYPE_1"@),
        182u8 => Some("COMPARE_OP_FLOAT"@),
        183u8 => Some("COMPARE_OP_INT"@),
        184u8 => Some("COMPARE_OP_STR"@),
        185u8 => Some("CONTAINS_OP_DICT"@),
        186u8 => Some("CONTAINS_OP_SET"@),
        187u8 => Some("FOR_ITER_GEN"@),
        188u8 => Some("FOR_ITER_LIST"@),
        189u8 => Some("FOR_ITER_RANGE"@),
        190u8 => Some("FOR_ITER_TUPLE"@),
        191u8 => Some("LOAD_ATTR_CLASS"@),
        192u8 => Some("LOAD_ATTR_GETATTRIBUTE_OVERRIDDEN"@),
        193u8 => Some("LOAD_ATTR_INSTANCE_VALUE"@),
        194u8 => Some("LOAD_ATTR_METHOD_LAZY_DICT"@),
        195u8 => Some("LOAD_ATTR_METHOD_NO_DICT"@),
        196u8 => Some("LOAD_ATTR_METHOD_WITH_VALUES"@),
        197u8 => Some("LOAD_ATTR_MODULE"@),
        198u8 => Some("LOAD_ATTR_NONDESCRIPTOR_NO_DICT"@),
        199u8 => Some("LOAD_ATTR_NONDESCRIPTOR_WITH_VALUES"@),
        200u8 => Some("LOAD_ATTR_PROPERTY"@),
        201u8 => Some("LOAD_ATTR_SLOT"@),
        202u8 => Some("LOAD_ATTR_WITH_HINT"@),
        203u8 => Some("LOAD_GLOBAL_BUILTIN"@),
        204u8 => Some("LOAD_GLOBAL_MODULE"@),
        205u8 => Some("LOAD_SUPER_ATTR_ATTR"@),
        206u8 => Some("LOAD_SUPER_ATTR_METHOD"@),
        207u8 => Some("RESUME_CHECK"@),
        208u8 => Some("SEND_GEN"@),
        209u8 => Some("STORE_ATTR_INSTANCE_VALUE"@),
        210u8 => Some("STORE_ATTR_SLOT"@),
        211u8 => Some("STORE_ATTR_WITH_HINT"@),
        212u8 => Some("STORE_SUBSCR_DICT"@),
        213u8 => Some("STORE_SUBSCR_LIST_INT"@),
        214u8 => Some("TO_BOOL_ALWAYS_TRUE"@),
        215u8 => Some("TO_BOOL_BOOL"@),
        216u8 => Some("TO_BOOL_INT"@),
        217u8 => Some("TO_BOOL_LIST"@),
        218u8 => Some("TO_BOOL_NONE"@),
        219u8 => Some("TO_BOOL_STR"@),
        220u8 => Some("UNPACK_SEQUENCE_LIST"@),
        221u8 => Some("UNPACK_SEQUENCE_TUPLE"@),
        222u8 => Some("UNPACK_SEQUENCE_TWO_TUPLE"@),
        236u8 => Some("INSTRUMENTED_RESUME"@),
        237u8 => Some("INSTRUMENTED_END_FOR"@),
        238u8 => Some("INSTRUMENTED_END_SEND"@),
        239u8 => Some("INSTRUMENTED_RETURN_VALUE"@),
        240u8 => Some("INSTRUMENTED_RETURN_CONST"@),
        241u8 => Some("INSTRUMENTED_YIELD_VALUE"@),
        242u8 => Some("INSTRUMENTED_LOAD_SUPER_ATTR"@),
        243u8 => Some("INSTRUMENTED_FOR_ITER"@),
        244u8 => Some("INSTRUMENTED_CALL"@),
        245u8 => Some("INSTRUMENTED_CALL_KW"@),
        246u8 => Some("INSTRUMENTED_CALL_FUNCTION_EX"@),
        247u8 => Some("INSTRUMENTED_INSTRUCTION"@),
        248u8 => Some("INSTRUMENTED_JUMP_FORWARD"@),
        249u8 => Some("INSTRUMENTED_JUMP_BACKWARD"@),
        250u8 => Some("INSTRUMENTED_POP_JUMP_IF_TRUE"@),
        251u8 => Some("INSTRUMENTED_POP_JUMP_IF_FALSE"@),
        252u8 => Some("INSTRUMENTED_POP_JUMP_IF_NONE"@),
        253u8 => Some("INSTRUMENTED_POP_JUMP_IF_NOT_NONE"@),
        254u8 => Some("INSTRUMENTED_LINE"@),
        _ => None,
    }
}

/// The mnemonic and its character count for an opcode byte of
/// generation 3, or `None` if the byte is unknown there.
#[verifier::rlimit(60)]
pub fn name_gen3(op: u8) -> (r: Option<(&'static str, usize)>)
    ensures
        r is Some <==> spec_name_gen3(op) is Some,
        r matches Some(p) ==> p.0@ == spec_name_gen3(op)->0 && p.1 == spec_name_gen3(op)->0.len(),
{
    proof {
        reveal_strlit("CACHE");
        reveal_strlit("BEFORE_ASYNC_WITH");
        reveal_strlit("BEFORE_WITH");
        reveal_strlit("BINARY_OP_INPLACE_ADD_UNICODE");
        reveal_strlit("BINARY_SLICE");
        reveal_strlit("BINARY_SUBSCR");
        reveal_strlit("CHECK_EG_MATCH");
        reveal_strlit("CHECK_EXC_MATCH");
        reveal_strlit("CLEANUP_THROW");
        reveal_strlit("DELETE_SUBSCR");
        reveal_strlit("END_ASYNC_FOR");
        reveal_strlit("END_FOR");
        reveal_strlit("END_SEND");
        reveal_strlit("EXIT_INIT_CHECK");
        reveal_strlit("FORMAT_SIMPLE");
        reveal_strlit("FORMAT_WITH_SPEC");
        reveal_strlit("GET_AITER");
        reveal_strlit("RESERVED");
        reveal_strlit("GET_ANEXT");
        reveal_strlit("GET_ITER");
        reveal_strlit("GET_LEN");
        reveal_strlit("GET_YIELD_FROM_ITER");
        reveal_strlit("INTERPRETER_EXIT");
        reveal_strlit("LOAD_ASSERTION_ERROR");
        reveal_strlit("LOAD_BUILD_CLASS");
        reveal_strlit("LOAD_LOCALS");
        reveal_strlit("MAKE_FUNCTION");
        reveal_strlit("MATCH_KEYS");
        reveal_strlit("MATCH_MAPPING");
        reveal_strlit("MATCH_SEQUENCE");
        reveal_strlit("NOP");
        reveal_strlit("POP_EXCEPT");
        reveal_strlit("POP_TOP");
        reveal_strlit("PUSH_EXC_INFO");
        reveal_strlit("PUSH_NULL");
        reveal_strlit("RETURN_GENERATOR");
        reveal_strlit("RETURN_VALUE");
        reveal_strlit("SETUP_ANNOTATIONS");
        reveal_strlit("STORE_SLICE");
        reveal_strlit("STORE_SUBSCR");
        reveal_strlit("TO_BOOL");
        reveal_strlit("UNARY_INVERT");
        reveal_strlit("UNARY_NEGATIVE");
        reveal_strlit("UNARY_NOT");
        reveal_strlit("WITH_EXCEPT_START");
        reveal_strlit("BINARY_OP");
        reveal_strlit("BUILD_CONST_KEY_MAP");
        reveal_strlit("BUILD_LIST");
        reveal_strlit("BUILD_MAP");
        reveal_strlit("BUILD_SET");
        reveal_strlit("BUILD_SLICE");
        reveal_strlit("BUILD_STRING");
        reveal_strlit("BUILD_TUPLE");
        reveal_strlit("CALL");
        reveal_strlit("CALL_FUNCTION_EX");
        reveal_strlit("CALL_INTRINSIC_1");
        reveal_strlit("CALL_INTRINSIC_2");
        reveal_strlit("CALL_KW");
        reveal_strlit("COMPARE_OP");
        reveal_strlit("CONTAINS_OP");
        reveal_strlit("CONVERT_VALUE");
        reveal_strlit("COPY");
        reveal_strlit("COPY_FREE_VARS");
        reveal_strlit("DELETE_ATTR");
        reveal_strlit("DELETE_DEREF");
        reveal_strlit("DELETE_FAST");
        reveal_strlit("DELETE_GLOBAL");
        reveal_strlit("DELETE_NAME");
        reveal_strlit("DICT_MERGE");
        reveal_strlit("DICT_UPDATE");
        reveal_strlit("ENTER_EXECUTOR");
        reveal_strlit("EXTENDED_ARG");
        reveal_strlit("FOR_ITER");
        reveal_strlit("GET_AWAITABLE");
        reveal_strlit("IMPORT_FROM");
        reveal_strlit("IMPORT_NAME");
        reveal_strlit("IS_OP");
        reveal_strlit("JUMP_BACKWARD");
        reveal_strlit("JUMP_BACKWARD_NO_INTERRUPT");
        reveal_strlit("JUMP_FORWARD");
        reveal_strlit("LIST_APPEND");
        reveal_strlit("LIST_EXTEND");
        reveal_strlit("LOAD_ATTR");
        reveal_strlit("LOAD_CONST");
        reveal_strlit("LOAD_DEREF");
        reveal_strlit("LOAD_FAST");
        reveal_strlit("LOAD_FAST_AND_CLEAR");
        reveal_strlit("LOAD_FAST_CHECK");
        reveal_strlit("LOAD_FAST_LOAD_FAST");
        reveal_strlit("LOAD_FROM_DICT_OR_DEREF");
        reveal_strlit("LOAD_FROM_DICT_OR_GLOBALS");
        reveal_strlit("LOAD_GLOBAL");
        reveal_strlit("LOAD_NAME");
        reveal_strlit("LOAD_SUPER_ATTR");
        reveal_strlit("MAKE_CELL");
        reveal_strlit("MAP_ADD");
        reveal_strlit("MATCH_CLASS");
        reveal_strlit("POP_JUMP_IF_FALSE");
        reveal_strlit("POP_JUMP_IF_NONE");
        reveal_strlit("POP_JUMP_IF_NOT_NONE");
        reveal_strlit("POP_JUMP_IF_TRUE");
        reveal_strlit("RAISE_VARARGS");
        reveal_strlit("RERAISE");
        reveal_strlit("RETURN_CONST");
        reveal_strlit("SEND");
        reveal_strlit("SET_ADD");
        reveal_strlit("SET_FUNCTION_ATTRIBUTE");
        reveal_strlit("SET_UPDATE");
        reveal_strlit("STORE_ATTR");
        reveal_strlit("STORE_DEREF");
        reveal_strlit("STORE_FAST");
        reveal_strlit("STORE_FAST_LOAD_FAST");
        reveal_strlit("STORE_FAST_STORE_FAST");
        reveal_strlit("STORE_GLOBAL");
        reveal_strlit("STORE_NAME");
        reveal_strlit("SWAP");
        reveal_strlit("UNPACK_EX");
        reveal_strlit("UNPACK_SEQUENCE");
        reveal_strlit("YIELD_VALUE");
        reveal_strlit("RESUME");
        reveal_strlit("BINARY_OP_ADD_FLOAT");
        reveal_strlit("BINARY_OP_ADD_INT");
        reveal_strlit("BINARY_OP_ADD_UNICODE");
        reveal_strlit("BINARY_OP_MULTIPLY_FLOAT");
        reveal_strlit("BINARY_OP_MULTIPLY_INT");
        reveal_strlit("BINARY_OP_SUBTRACT_FLOAT");
        reveal_strlit("BINARY_OP_SUBTRACT_INT");
        reveal_strlit("BINARY_SUBSCR_DICT");
        reveal_strlit("BINARY_SUBSCR_GETITEM");
        reveal_strlit("BINARY_SUBSCR_LIST_INT");
        reveal_strlit("BINARY_SUBSCR_STR_INT");
        reveal_strlit("BINARY_SUBSCR_TUPLE_INT");
        reveal_strlit("CALL_ALLOC_AND_ENTER_INIT");
        reveal_strlit("CALL_BOUND_METHOD_EXACT_ARGS");
        reveal_strlit("CALL_BOUND_METHOD_GENERAL");
        reveal_strlit("CALL_BUILTIN_CLASS");
        reveal_strlit("CALL_BUILTIN_FAST");
        reveal_strlit("CALL_BUILTIN_FAST_WITH_KEYWORDS");
        reveal_strlit("CALL_BUILTIN_O");
        reveal_strlit("CALL_ISINSTANCE");
        reveal_strlit("CALL_LEN");
        reveal_strlit("CALL_LIST_APPEND");
        reveal_strlit("CALL_METHOD_DESCRIPTOR_FAST");
        reveal_strlit("CALL_METHOD_DESCRIPTOR_FAST_WITH_KEYWORDS");
        reveal_strlit("CALL_METHOD_DESCRIPTOR_NOARGS");
        reveal_strlit("CALL_METHOD_DESCRIPTOR_O");
        reveal_strlit("CALL_NON_PY_GENERAL");
        reveal_strlit("CALL_PY_EXACT_ARGS");
        reveal_strlit("CALL_PY_GENERAL");
        reveal_strlit("CALL_STR_1");
        reveal_strlit("CALL_TUPLE_1");
        reveal_strlit("CALL_TYPE_1");
        reveal_strlit("COMPARE_OP_FLOAT");
        reveal_strlit("COMPARE_OP_INT");
        reveal_strlit("COMPARE_OP_STR");
        reveal_strlit("CONTAINS_OP_DICT");
        reveal_strlit("CONTAINS_OP_SET");
        reveal_strlit("FOR_ITER_GEN");
        reveal_strlit("FOR_ITER_LIST");
        reveal_strlit("FOR_ITER_RANGE");
        reveal_strlit("FOR_ITER_TUPLE");
        reveal_strlit("LOAD_ATTR_CLASS");
        reveal_strlit("LOAD_ATTR_GETATTRIBUTE_OVERRIDDEN");
        reveal_strlit("LOAD_ATTR_INSTANCE_VALUE");
        reveal_strlit("LOAD_ATTR_METHOD_LAZY_DICT");
        reveal_strlit("LOAD_ATTR_METHOD_NO_DICT");
        reveal_strlit("LOAD_ATTR_METHOD_WITH_VALUES");
        reveal_strlit("LOAD_ATTR_MODULE");
        reveal_strlit("LOAD_ATTR_NONDESCRIPTOR_NO_DICT");
        reveal_strlit("LOAD_ATTR_NONDESCRIPTOR_WITH_VALUES");
        reveal_strlit("LOAD_ATTR_PROPERTY");
        reveal_strlit("LOAD_ATTR_SLOT");
        reveal_strlit("LOAD_ATTR_WITH_HINT");
        reveal_strlit("LOAD_GLOBAL_BUILTIN");
        reveal_strlit("LOAD_GLOBAL_MODULE");
        reveal_strlit("LOAD_SUPER_ATTR_ATTR");
        reveal_strlit("LOAD_SUPER_ATTR_METHOD");
        reveal_strlit("RESUME_CHECK");
        reveal_strlit("SEND_GEN");
        reveal_strlit("STORE_ATTR_INSTANCE_VALUE");
        reveal_strlit("STORE_ATTR_SLOT");
        reveal_strlit("STORE_ATTR_WITH_HINT");
        reveal_strlit("STORE_SUBSCR_DICT");
        reveal_strlit("STORE_SUBSCR_LIST_INT");
        reveal_strlit("TO_BOOL_ALWAYS_TRUE");
        reveal_strlit("TO_BOOL_BOOL");
        reveal_strlit("TO_BOOL_INT");
        reveal_strlit("TO_BOOL_LIST");
        reveal_strlit("TO_BOOL_NONE");
        reveal_strlit("TO_BOOL_STR");
        reveal_strlit("UNPACK_SEQUENCE_LIST");
        reveal_strlit("UNPACK_SEQUENCE_TUPLE");
        reveal_strlit("UNPACK_SEQUENCE_TWO_TUPLE");
        reveal_strlit("INSTRUMENTED_RESUME");
        reveal_strlit("INSTRUMENTED_END_FOR");
        reveal_strlit("INSTRUMENTED_END_SEND");
        reveal_strlit("INSTRUMENTED_RETURN_VALUE");
        reveal_strlit("INSTRUMENTED_RETURN_CONST");
        reveal_strlit("INSTRUMENTED_YIELD_VALUE");
        reveal_strlit("INSTRUMENTED_LOAD_SUPER_ATTR");
        reveal_strlit("INSTRUMENTED_FOR_ITER");
        reveal_strlit("INSTRUMENTED_CALL");
        reveal_strlit("INSTRUMENTED_CALL_KW");
        reveal_strlit("INSTRUMENTED_CALL_FUNCTION_EX");
        reveal_strlit("INSTRUMENTED_INSTRUCTION");
        reveal_strlit("INSTRUMENTED_JUMP_FORWARD");
        reveal_strlit("INSTRUMENTED_JUMP_BACKWARD");
        reveal_strlit("INSTRUMENTED_POP_JUMP_IF_TRUE");
        reveal_strlit("INSTRUMENTED_POP_JUMP_IF_FALSE");
        reveal_strlit("INSTRUMENTED_POP_JUMP_IF_NONE");
        reveal_strlit("INSTRUMENTED_POP_JUMP_IF_NOT_NONE");
        reveal_strlit("INSTRUMENTED_LINE");
    }
    match op {
        0u8 => Some(("CACHE", 5)),
        1u8 => Some(("BEFORE_ASYNC_WITH", 17)),
        2u8 => Some(("BEFORE_WITH", 11)),
        3u8 => Some(("BINARY_OP_INPLACE_ADD_UNICODE", 29)),
        4u8 => Some(("BINARY_SLICE", 12)),
        5u8 => Some(("BINARY_SUBSCR", 13)),
        6u8 => Some(("CHECK_EG_MATCH", 14)),
        7u8 => Some(("CHECK_EXC_MATCH", 15)),
        8u8 => Some(("CLEANUP_THROW", 13)),
        9u8 => Some(("DELETE_SUBSCR", 13)),
        10u8 => Some(("END_ASYNC_FOR", 13)),
        11u8 => Some(("END_FOR", 7)),
        12u8 => Some(("END_SEND", 8)),
        13u8 => Some(("EXIT_INIT_CHECK", 15)),
        14u8 => Some(("FORMAT_SIMPLE", 13)),
        15u8 => Some(("FORMAT_WITH_SPEC", 16)),
        16u8 => Some(("GET_AITER", 9)),
        17u8 => Some(("RESERVED", 8)),
        18u8 => Some(("GET_ANEXT", 9)),
        19u8 => Some(("GET_ITER", 8)),
        20u8 => Some(("GET_LEN", 7)),
        21u8 => Some(("GET_YIELD_FROM_ITER", 19)),
        22u8 => Some(("INTERPRETER_EXIT", 16)),
        23u8 => Some(("LOAD_ASSERTION_ERROR", 20)),
        24u8 => Some(("LOAD_BUILD_CLASS", 16)),
        25u8 => Some(("LOAD_LOCALS", 11)),
        26u8 => Some(("MAKE_FUNCTION", 13)),
        27u8 => Some(("MATCH_KEYS", 10)),
        28u8 => Some(("MATCH_MAPPING", 13)),
        29u8 => Some(("MATCH_SEQUENCE", 14)),
        30u8 => Some(("NOP", 3)),
        31u8 => Some(("POP_EXCEPT", 10)),
        32u8 => Some(("POP_TOP", 7)),
        33u8 => Some(("PUSH_EXC_INFO", 13)),
        34u8 => Some(("PUSH_NULL", 9)),
        35u8 => Some(("RETURN_GENERATOR", 16)),
        36u8 => Some(("RETURN_VALUE", 12)),
        37u8 => Some(("SETUP_ANNOTATIONS", 17)),
        38u8 => Some(("STORE_SLICE", 11)),
        39u8 => Some(("STORE_SUBSCR", 12)),
        40u8 => Some(("TO_BOOL", 7)),
        41u8 => Some(("UNARY_INVERT", 12)),
        42u8 => Some(("UNARY_NEGATIVE", 14)),
        43u8 => Some(("UNARY_NOT", 9)),
        44u8 => Some(("WITH_EXCEPT_START", 17)),
        45u8 => Some(("BINARY_OP", 9)),
        46u8 => Some(("BUILD_CONST_KEY_MAP", 19)),
        47u8 => Some(("BUILD_LIST", 10)),
        48u8 => Some(("BUILD_MAP", 9)),
        49u8 => Some(("BUILD_SET", 9)),
        50u8 => Some(("BUILD_SLICE", 11)),
        51u8 => Some(("BUILD_STRING", 12)),
        52u8 => Some(("BUILD_TUPLE", 11)),
        53u8 => Some(("CALL", 4)),
        54u8 => Some(("CALL_FUNCTION_EX", 16)),
        55u8 => Some(("CALL_INTRINSIC_1", 16)),
        56u8 => Some(("CALL_INTRINSIC_2", 16)),
        57u8 => Some(("CALL_KW", 7)),
        58u8 => Some(("COMPARE_OP", 10)),
        59u8 => Some(("CONTAINS_OP", 11)),
        60u8 => Some(("CONVERT_VALUE", 13)),
        61u8 => Some(("COPY", 4)),
        62u8 => Some(("COPY_FREE_VARS", 14)),
        63u8 => Some(("DELETE_ATTR", 11)),
        64u8 => Some(("DELETE_DEREF", 12)),
        65u8 => Some(("DELETE_FAST", 11)),
        66u8 => Some(("DELETE_GLOBAL", 13)),
        67u8 => Some(("DELETE_NAME", 11)),
        68u8 => Some(("DICT_MERGE", 10)),
        69u8 => Some(("DICT_UPDATE", 11)),
        70u8 => Some(("ENTER_EXECUTOR", 14)),
        71u8 => Some(("EXTENDED_ARG", 12)),
        72u8 => Some(("FOR_ITER", 8)),
        73u8 => Some(("GET_AWAITABLE", 13)),
        74u8 => Some(("IMPORT_FROM", 11)),
        75u8 => Some(("IMPORT_NAME", 11)),
        76u8 => Some(("IS_OP", 5)),
        77u8 => Some(("JUMP_BACKWARD", 13)),
        78u8 => Some(("JUMP_BACKWARD_NO_INTERRUPT", 26)),
        79u8 => Some(("JUMP_FORWARD", 12)),
        80u8 => Some(("LIST_APPEND", 11)),
        81u8 => Some(("LIST_EXTEND", 11)),
        82u8 => Some(("LOAD_ATTR", 9)),
        83u8 => Some(("LOAD_CONST", 10)),
        84u8 => Some(("LOAD_DEREF", 10)),
        85u8 => Some(("LOAD_FAST", 9)),
        86u8 => Some(("LOAD_FAST_AND_CLEAR", 19)),
        87u8 => Some(("LOAD_FAST_CHECK", 15)),
        88u8 => Some(("LOAD_FAST_LOAD_FAST", 19)),
        89u8 => Some(("LOAD_FROM_DICT_OR_DEREF", 23)),
        90u8 => Some(("LOAD_FROM_DICT_OR_GLOBALS", 25)),
        91u8 => Some(("LOAD_GLOBAL", 11)),
        92u8 => Some(("LOAD_NAME", 9)),
        93u8 => Some(("LOAD_SUPER_ATTR", 15)),
        94u8 => Some(("MAKE_CELL", 9)),
        95u8 => Some(("MAP_ADD", 7)),
        96u8 => Some(("MATCH_CLASS", 11)),
        97u8 => Some(("POP_JUMP_IF_FALSE", 17)),
        98u8 => Some(("POP_JUMP_IF_NONE", 16)),
        99u8 => Some(("POP_JUMP_IF_NOT_NONE", 20)),
        100u8 => Some(("POP_JUMP_IF_TRUE", 16)),
        101u8 => Some(("RAISE_VARARGS", 13)),
        102u8 => Some(("RERAISE", 7)),
        103u8 => Some(("RETURN_CONST", 12)),
        104u8 => Some(("SEND", 4)),
        105u8 => Some(("SET_ADD", 7)),
        106u8 => Some(("SET_FUNCTION_ATTRIBUTE", 22)),
        107u8 => Some(("SET_UPDATE", 10)),
        108u8 => Some(("STORE_ATTR", 10)),
        109u8 => Some(("STORE_DEREF", 11)),
        110u8 => Some(("STORE_FAST", 10)),
        111u8 => Some(("STORE_FAST_LOAD_FAST", 20)),
        112u8 => Some(("STORE_FAST_STORE_FAST", 21)),
        113u8 => Some(("STORE_GLOBAL", 12)),
        114u8 => Some(("STORE_NAME", 10)),
        115u8 => Some(("SWAP", 4)),
        116u8 => Some(("UNPACK_EX", 9)),
        117u8 => Some(("UNPACK_SEQUENCE", 15)),
        118u8 => Some(("YIELD_VALUE", 11)),
        149u8 => Some(("RESUME", 6)),
        150u8 => Some(("BINARY_OP_ADD_FLOAT", 19)),
        151u8 => Some(("BINARY_OP_ADD_INT", 17)),
        152u8 => Some(("BINARY_OP_ADD_UNICODE", 21)),
        153u8 => Some(("BINARY_OP_MULTIPLY_FLOAT", 24)),
        154u8 => Some(("BINARY_OP_MULTIPLY_INT", 22)),
        155u8 => Some(("BINARY_OP_SUBTRACT_FLOAT", 24)),
        156u8 => Some(("BINARY_OP_SUBTRACT_INT", 22)),
        157u8 => Some(("BINARY_SUBSCR_DICT", 18)),
        158u8 => Some(("BINARY_SUBSCR_GETITEM", 21)),
        159u8 => Some(("BINARY_SUBSCR_LIST_INT", 22)),
        160u8 => Some(("BINARY_SUBSCR_STR_INT", 21)),
        161u8 => Some(("BINARY_SUBSCR_TUPLE_INT", 23)),
        162u8 => Some(("CALL_ALLOC_AND_ENTER_INIT", 25)),
        163u8 => Some(("CALL_BOUND_METHOD_EXACT_ARGS", 28)),
        164u8 => Some(("CALL_BOUND_METHOD_GENERAL", 25)),
        165u8 => Some(("CALL_BUILTIN_CLASS", 18)),
        166u8 => Some(("CALL_BUILTIN_FAST", 17)),
        167u8 => Some(("CALL_BUILTIN_FAST_WITH_KEYWORDS", 31)),
        168u8 => Some(("CALL_BUILTIN_O", 14)),
        169u8 => Some(("CALL_ISINSTANCE", 15)),
        170u8 => Some(("CALL_LEN", 8)),
        171u8 => Some(("CALL_LIST_APPEND", 16)),
        172u8 => Some(("CALL_METHOD_DESCRIPTOR_FAST", 27)),
        173u8 => Some(("CALL_METHOD_DESCRIPTOR_FAST_WITH_KEYWORDS", 41)),
        174u8 => Some(("CALL_METHOD_DESCRIPTOR_NOARGS", 29)),
        175u8 => Some(("CALL_METHOD_DESCRIPTOR_O", 24)),
        176u8 => Some(("CALL_NON_PY_GENERAL", 19)),
        177u8 => Some(("CALL_PY_EXACT_ARGS", 18)),
        178u8 => Some(("CALL_PY_GENERAL", 15)),
        179u8 => Some(("CALL_STR_1", 10)),
        180u8 => Some(("CALL_TUPLE_1", 12)),
        181u8 => Some(("CALL_TYPE_1", 11)),
        182u8 => Some(("COMPARE_OP_FLOAT", 16)),
        183u8 => Some(("COMPARE_OP_INT", 14)),
        184u8 => Some(("COMPARE_OP_STR", 14)),
        185u8 => Some(("CONTAINS_OP_DICT", 16)),
        186u8 => Some(("CONTAINS_OP_SET", 15)),
        187u8 => Some(("FOR_ITER_GEN", 12)),
        188u8 => Some(("FOR_ITER_LIST", 13)),
        189u8 => Some(("FOR_ITER_RANGE", 14)),
        190u8 => Some(("FOR_ITER_TUPLE", 14)),
        191u8 => Some(("LOAD_ATTR_CLASS", 15)),
        192u8 => Some(("LOAD_ATTR_GETATTRIBUTE_OVERRIDDEN", 33)),
        193u8 => Some(("LOAD_ATTR_INSTANCE_VALUE", 24)),
        194u8 => Some(("LOAD_ATTR_METHOD_LAZY_DICT", 26)),
        195u8 => Some(("LOAD_ATTR_METHOD_NO_DICT", 24)),
        196u8 => Some(("LOAD_ATTR_METHOD_WITH_VALUES", 28)),
        197u8 => Some(("LOAD_ATTR_MODULE", 16)),
        198u8 => Some(("LOAD_ATTR_NONDESCRIPTOR_NO_DICT", 31)),
        199u8 => Some(("LOAD_ATTR_NONDESCRIPTOR_WITH_VALUES", 35)),
        200u8 => Some(("LOAD_ATTR_PROPERTY", 18)),
        201u8 => Some(("LOAD_ATTR_SLOT", 14)),
        202u8 => Some(("LOAD_ATTR_WITH_HINT", 19)),
        203u8 => Some(("LOAD_GLOBAL_BUILTIN", 19)),
        204u8 => Some(("LOAD_GLOBAL_MODULE", 18)),
        205u8 => Some(("LOAD_SUPER_ATTR_ATTR", 20)),
        206u8 => Some(("LOAD_SUPER_ATTR_METHOD", 22)),
        207u8 => Some(("RESUME_CHECK", 12)),
        208u8 => Some(("SEND_GEN", 8)),
        209u8 => Some(("STORE_ATTR_INSTANCE_VALUE", 25)),
        210u8 => Some(("STORE_ATTR_SLOT", 15)),
        211u8 => Some(("STORE_ATTR_WITH_HINT", 20)),
        212u8 => Some(("STORE_SUBSCR_DICT", 17)),
        213u8 => Some(("STORE_SUBSCR_LIST_INT", 21)),
        214u8 => Some(("TO_BOOL_ALWAYS_TRUE", 19)),
        215u8 => Some(("TO_BOOL_BOOL", 12)),
        216u8 => Some(("TO_BOOL_INT", 11)),
        217u8 => Some(("TO_BOOL_LIST", 12)),
        218u8 => Some(("TO_BOOL_NONE", 12)),
        219u8 => Some(("TO_BOOL_STR", 11)),
        220u8 => Some(("UNPACK_SEQUENCE_LIST", 20)),
        221u8 => Some(("UNPACK_SEQUENCE_TUPLE", 21)),
        222u8 => Some(("UNPACK_SEQUENCE_TWO_TUPLE", 25)),
        236u8 => Some(("INSTRUMENTED_RESUME", 19)),
        237u8 => Some(("INSTRUMENTED_END_FOR", 20)),
        238u8 => Some(("INSTRUMENTED_END_SEND", 21)),
        239u8 => Some(("INSTRUMENTED_RETURN_VALUE", 25)),
        240u8 => Some(("INSTRUMENTED_RETURN_CONST", 25)),
        241u8 => Some(("INSTRUMENTED_YIELD_VALUE", 24)),
        242u8 => Some(("INSTRUMENTED_LOAD_SUPER_ATTR", 28)),
        243u8 => Some(("INSTRUMENTED_FOR_ITER", 21)),
        244u8 => Some(("INSTRUMENTED_CALL", 17)),
        245u8 => Some(("INSTRUMENTED_CALL_KW", 20)),
        246u8 => Some(("INSTRUMENTED_CALL_FUNCTION_EX", 29)),
        247u8 => Some(("INSTRUMENTED_INSTRUCTION", 24)),
        248u8 => Some(("INSTRUMENTED_JUMP_FORWARD", 25)),
        249u8 => Some(("INSTRUMENTED_JUMP_BACKWARD", 26)),
        250u8 => Some(("INSTRUMENTED_POP_JUMP_IF_TRUE", 29)),
        251u8 => Some(("INSTRUMENTED_POP_JUMP_IF_FALSE", 30)),
        252u8 => Some(("INSTRUMENTED_POP_JUMP_IF_NONE", 29)),
        253u8 => Some(("INSTRUMENTED_POP_JUMP_IF_NOT_NONE", 33)),
        254u8 => Some(("INSTRUMENTED_LINE", 17)),
        _ => None,
    }
}

/// The operand shape of each opcode byte of generation 3.
pub open spec fn spec_shape_gen3(op: u8) -> OperandShape {
    match op {
        45u8 => OperandShape::BinaryOperator,
        58u8 => OperandShape::CompareShifted,
        60u8 => OperandShape::ConvertFlag,
        63u8 | 66u8 | 67u8 | 74u8 | 75u8 | 90u8 | 92u8 | 108u8 | 113u8 | 114u8 => OperandShape::NameRef,
        64u8 | 65u8 | 84u8 | 85u8 | 86u8 | 87u8 | 94u8 | 109u8 | 110u8 => OperandShape::LocalsPlusRef,
        72u8 | 79u8 | 97u8 | 98u8 | 99u8 | 100u8 | 104u8 | 187u8 | 188u8 | 189u8 | 190u8 | 243u8 | 248u8 | 250u8 | 251u8 | 252u8 | 253u8 => OperandShape::JumpForwardRel,
        77u8 | 78u8 | 249u8 => OperandShape::JumpBackwardRel,
        82u8 | 91u8 => OperandShape::CompositeNameSpaced1,
        83u8 | 103u8 => OperandShape::ConstRef,
        88u8 | 111u8 | 112u8 => OperandShape::LocalsPlusPair,
        93u8 => OperandShape::CompositeNameSpaced2,
        106u8 => OperandShape::FunctionFlags,
        _ => OperandShape::NoArg,
    }
}

/// Executable form of `spec_shape_gen3`.
pub fn shape_gen3(op: u8) -> (r: OperandShape)
    ensures
        r == spec_shape_gen3(op),
{
    match op {
        45u8 => OperandShape::BinaryOperator,
        58u8 => OperandShape::CompareShifted,
        60u8 => OperandShape::ConvertFlag,
        63u8 | 66u8 | 67u8 | 74u8 | 75u8 | 90u8 | 92u8 | 108u8 | 113u8 | 114u8 => OperandShape::NameRef,
        64u8 | 65u8 | 84u8 | 85u8 | 86u8 | 87u8 | 94u8 | 109u8 | 110u8 => OperandShape::LocalsPlusRef,
        72u8 | 79u8 | 97u8 | 98u8 | 99u8 | 100u8 | 104u8 | 187u8 | 188u8 | 189u8 | 190u8 | 243u8 | 248u8 | 250u8 | 251u8 | 252u8 | 253u8 => OperandShape::JumpForwardRel,
        77u8 | 78u8 | 249u8 => OperandShape::JumpBackwardRel,
        82u8 | 91u8 => OperandShape::CompositeNameSpaced1,
        83u8 | 103u8 => OperandShape::ConstRef,
        88u8 | 111u8 | 112u8 => OperandShape::LocalsPlusPair,
        93u8 => OperandShape::CompositeNameSpaced2,
        106u8 => OperandShape::FunctionFlags,
        _ => OperandShape::NoArg,
    }
}

/// How many trailing cache slots each generation 3 opcode carries.
pub open spec fn spec_cache_count_gen3(op: u8) -> u8 {
    match op {
        5u8 | 39u8 | 45u8 | 58u8 | 59u8 | 72u8 | 77u8 | 93u8 | 97u8 | 98u8 | 99u8 | 100u8 | 104u8 | 117u8 => 1,
        40u8 => 3,
        53u8 | 91u8 | 108u8 => 4,
        82u8 => 9,
        _ => 0,
    }
}

/// Executable form of `spec_cache_count_gen3`.
pub fn cache_count_gen3(op: u8) -> (r: u8)
    ensures
        r == spec_cache_count_gen3(op),
{
    match op {
        5u8 | 39u8 | 45u8 | 58u8 | 59u8 | 72u8 | 77u8 | 93u8 | 97u8 | 98u8 | 99u8 | 100u8 | 104u8 | 117u8 => 1,
        40u8 => 3,
        53u8 | 91u8 | 108u8 => 4,
        82u8 => 9,
        _ => 0,
    }
}

} // verus!

use vstd::prelude::*;

use crate::code::{const_text, spec_const_text, spec_max_code_len, CodeObject};
use crate::jumps::{jump_target, spec_jump_target};
use crate::stream::spec_full_arg;
use crate::opcodes::{operand_shape, spec_operand_shape, OperandShape};
use crate::text::{i64_dec, spec_dec, spec_dec_signed, u64_dec, span_view, spans_view, Span, Tag};

verus! {

/// The marker shown for a side-table lookup whose index is out of range.
pub open spec fn spec_invalid_index(n: int) -> (Tag, Seq<char>) {
    (Tag::InvalidIndex, "Invalid index "@ + spec_dec(n))
}

/// One name-table lookup: the entry itself, or the invalid-index marker.
pub open spec fn spec_lookup(t: Vec<String>, idx: int) -> (Tag, Seq<char>) {
    if 0 <= idx < t.len() {
        (Tag::Plain, t[idx]@)
    } else {
        spec_invalid_index(idx)
    }
}

/// The comparison-operator symbols shared by every generation.
pub open spec fn spec_cmp_sym(v: int) -> Seq<char> {
    if v == 0 {
        "<"@
    } else if v == 1 {
        "<="@
    } else if v == 2 {
        "=="@
    } else if v == 3 {
        "!="@
    } else if v == 4 {
        ">"@
    } else {
        ">="@
    }
}

/// The comparison text when the argument carries the operator directly.
pub open spec fn spec_cmp_direct(arg: u32) -> Seq<char> {
    if arg <= 5 {
        spec_cmp_sym(arg as int)
    } else {
        "Invalid("@ + spec_dec(arg as int) + ")"@
    }
}

/// The comparison text when the operator sits in the high bits and bit 4
/// asks for coercion to a boolean.
pub open spec fn spec_cmp_shifted(arg: u32) -> Seq<char> {
    let sym = if (arg >> 5) <= 5 {
        spec_cmp_sym((arg >> 5) as int)
    } else {
        "Invalid("@ + spec_dec(arg as int) + ")"@
    };
    if arg & 16 != 0 {
        "bool("@ + sym + ")"@
    } else {
        sym
    }
}

/// The binary and in-place operator symbols.
pub open spec fn spec_binop_sym(v: u32) -> Seq<char> {
    if v == 0 {
        "+"@
    } else if v == 1 {
        "&"@
    } else if v == 2 {
        "//"@
    } else if v == 3 {
        "<<"@
    } else if v == 4 {
        "@"@
    } else if v == 5 {
        "*"@
    } else if v == 6 {
        "%"@
    } else if v == 7 {
        "|"@
    } else if v == 8 {
        "**"@
    } else if v == 9 {
        ">>"@
    } else if v == 10 {
        "-"@
    } else if v == 11 {
        "/"@
    } else if v == 12 {
        "^"@
    } else if v == 13 {
        "+="@
    } else if v == 14 {
        "&="@
    } else if v == 15 {
        "//="@
    } else if v == 16 {
        "<<="@
    } else if v == 17 {
        "@="@
    } else if v == 18 {
        "*="@
    } else if v == 19 {
        "%="@
    } else if v == 20 {
        "|="@
    } else if v == 21 {
        "**="@
    } else if v == 22 {
        ">>="@
    } else if v == 23 {
        "-="@
    } else if v == 24 {
        "/="@
    } else if v == 25 {
        "^="@
    } else {
        "Invalid("@ + spec_dec(v as int) + ")"@
    }
}

/// The rendered names of the function-attribute flag bits that are set,
/// joined by a comma and a blank.
pub open spec fn spec_flags_text(arg: u32) -> Seq<char> {
    let b = arg & 15;
    if b == 0 {
        ""@
    } else if b == 1 {
        "POS_DEFAULTS"@
    } else if b == 2 {
        "KW_DEFAULTS"@
    } else if b == 3 {
        "POS_DEFAULTS, KW_DEFAULTS"@
    } else if b == 4 {
        "ANNOTATIONS"@
    } else if b == 5 {
        "POS_DEFAULTS, ANNOTATIONS"@
    } else if b == 6 {
        "KW_DEFAULTS, ANNOTATIONS"@
    } else if b == 7 {
        "POS_DEFAULTS, KW_DEFAULTS, ANNOTATIONS"@
    } else if b == 8 {
        "CLOSURE"@
    } else if b == 9 {
        "POS_DEFAULTS, CLOSURE"@
    } else if b == 10 {
        "KW_DEFAULTS, CLOSURE"@
    } else if b == 11 {
        "POS_DEFAULTS, KW_DEFAULTS, CLOSURE"@
    } else if b == 12 {
        "ANNOTATIONS, CLOSURE"@
    } else if b == 13 {
        "POS_DEFAULTS, ANNOTATIONS, CLOSURE"@
    } else if b == 14 {
        "KW_DEFAULTS, ANNOTATIONS, CLOSURE"@
    } else {
        "POS_DEFAULTS, KW_DEFAULTS, ANNOTATIONS, CLOSURE"@
    }
}

/// The f-string conversion text: a conversion name from the low two bits,
/// with a note when a format spec follows.
pub open spec fn spec_format_flag_text(arg: u32) -> Seq<char> {
    let conv = arg & 3;
    if arg & 4 != 0 {
        if conv == 0 {
            " with format"@
        } else if conv == 1 {
            "str with format"@
        } else if conv == 2 {
            "repr with format"@
        } else {
            "ascii with format"@
        }
    } else {
        if conv == 0 {
            ""@
        } else if conv == 1 {
            "str"@
        } else if conv == 2 {
            "repr"@
        } else {
            "ascii"@
        }
    }
}

/// The conversion selector used by generation 3.
pub open spec fn spec_convert_text(arg: u32) -> Seq<char> {
    if arg == 1 {
        "str"@
    } else if arg == 2 {
        "repr"@
    } else if arg == 3 {
        "ascii"@
    } else {
        "Invalid("@ + spec_dec(arg as int) + ")"@
    }
}

/// A composite name reference: the true table index sits above the flag
/// bit, and a set flag prepends a null-push marker to the rendered name.
pub open spec fn spec_composite(
    names: Vec<String>,
    arg: u32,
    shift: u32,
    prefix: Seq<char>,
) -> Seq<(Tag, Seq<char>)> {
    let idx = (arg >> shift) as int;
    if 0 <= idx < names.len() {
        if arg & 1 != 0 {
            seq![(Tag::Plain, prefix + names[idx]@)]
        } else {
            seq![(Tag::Plain, names[idx]@)]
        }
    } else {
        seq![spec_invalid_index(idx)]
    }
}

/// The resolved operand of the jump at `i`: the destination byte offset,
/// tagged invalid when the destination lies outside the stream.
pub open spec fn spec_jump_annotation(code: CodeObject, i: int) -> Seq<(Tag, Seq<char>)>
    recommends
        spec_jump_target(code.generation, code.code@, i) is Some,
{
    let t = spec_jump_target(code.generation, code.code@, i)->0;
    let tag = if 0 <= t < code.code@.len() {
        Tag::Plain
    } else {
        Tag::InvalidTarget
    };
    seq![(Tag::Plain, "to "@), (tag, spec_dec_signed(2 * t))]
}

/// The resolved operand of instruction `i`, as tagged text, or `None` for
/// an instruction that renders no annotation.  Every side-table lookup is
/// bounds checked; an out-of-range index yields the invalid-index marker
/// and never a failure.
pub open spec fn spec_resolve(code: CodeObject, i: int, arg: u32) -> Option<
    Seq<(Tag, Seq<char>)>,
>
    recommends
        0 <= i < code.code@.len(),
{
    let g = code.generation;
    let op = code.code@[i].opcode;
    match spec_operand_shape(g, op) {
        OperandShape::NoArg => None,
        OperandShape::NameRef => Some(seq![spec_lookup(code.names, arg as int)]),
        OperandShape::VarRef => Some(seq![spec_lookup(code.varnames, arg as int)]),
        OperandShape::LocalsPlusRef => Some(seq![spec_lookup(code.localsplus, arg as int)]),
        OperandShape::LocalsPlusPair => Some(
            seq![
                spec_lookup(code.localsplus, (arg >> 4) as int),
                (Tag::Plain, ", "@),
                spec_lookup(code.localsplus, (arg & 15) as int),
            ],
        ),
        OperandShape::ConstRef => {
            if 0 <= arg < code.consts.len() {
                Some(seq![(Tag::Plain, spec_const_text(code.consts[arg as int]))])
            } else {
                Some(seq![spec_invalid_index(arg as int)])
            }
        },
        OperandShape::ClosureSplitRef => {
            let cell_len = code.cellvars.len() as int;
            if (arg as int) < cell_len {
                Some(seq![(Tag::Plain, code.cellvars[arg as int]@)])
            } else if (arg as int) - cell_len < code.freevars.len() {
                Some(seq![(Tag::Plain, code.freevars[arg as int - cell_len]@)])
            } else {
                Some(seq![spec_invalid_index(arg as int)])
            }
        },
        OperandShape::CompareDirect => Some(seq![(Tag::Plain, spec_cmp_direct(arg))]),
        OperandShape::CompareShifted => Some(seq![(Tag::Plain, spec_cmp_shifted(arg))]),
        OperandShape::BinaryOperator => Some(seq![(Tag::Plain, spec_binop_sym(arg))]),
        OperandShape::FunctionFlags => Some(seq![(Tag::Plain, spec_flags_text(arg))]),
        OperandShape::FormatFlag => Some(seq![(Tag::Plain, spec_format_flag_text(arg))]),
        OperandShape::ConvertFlag => Some(seq![(Tag::Plain, spec_convert_text(arg))]),
        OperandShape::CompositeNameNull => Some(spec_composite(code.names, arg, 1, "NULL"@)),
        OperandShape::CompositeNameSpaced1 => Some(
            spec_composite(code.names, arg, 1, "NULL + "@),
        ),
        OperandShape::CompositeNameSpaced2 => Some(
            spec_composite(code.names, arg, 2, "NULL + "@),
        ),
        OperandShape::JumpAbsolute => Some(spec_jump_annotation(code, i)),
        OperandShape::JumpForwardRel => Some(spec_jump_annotation(code, i)),
        OperandShape::JumpBackwardRel => Some(spec_jump_annotation(code, i)),
    }
}

/// An out-of-range index in a name, fast-local, constant or closure
/// operand always resolves to the literal invalid-index marker carrying
/// that index, never to a failure.  Each instruction's annotation is a
/// function of its own slot and the side tables alone, so the surrounding
/// instructions resolve as if the malformed one were absent.
pub proof fn lemma_out_of_range_index_marked(code: CodeObject, i: int, arg: u32)
    requires
        0 <= i < code.code@.len(),
        ({
            let shape = spec_operand_shape(code.generation, code.code@[i].opcode);
            ||| (shape is NameRef && arg >= code.names.len())
            ||| (shape is VarRef && arg >= code.varnames.len())
            ||| (shape is LocalsPlusRef && arg >= code.localsplus.len())
            ||| (shape is ConstRef && arg >= code.consts.len())
            ||| (shape is ClosureSplitRef && arg >= code.cellvars.len() + code.freevars.len())
        }),
    ensures
        spec_resolve(code, i, arg) == Some(seq![spec_invalid_index(arg as int)]),
{
}

/// Builds the invalid-index marker span.
fn invalid_index_span(n: u64) -> (r: Span)
    ensures
        span_view(r) == spec_invalid_index(n as int),
{
    let mut t = "Invalid index ".to_owned();
    t.append(u64_dec(n).as_str());
    Span { tag: Tag::InvalidIndex, text: t }
}

/// Looks one index up in a name table.
fn lookup_span(t: &Vec<String>, idx: u32) -> (r: Span)
    ensures
        span_view(r) == spec_lookup(*t, idx as int),
{
    if (idx as usize) < t.len() {
        Span { tag: Tag::Plain, text: t[idx as usize].clone() }
    } else {
        invalid_index_span(idx as u64)
    }
}

/// The text `"Invalid("` + the decimal of `v` + `")"`.
fn invalid_paren_text(v: u32) -> (r: String)
    ensures
        r@ == "Invalid("@ + spec_dec(v as int) + ")"@,
{
    let mut t = "Invalid(".to_owned();
    t.append(u64_dec(v as u64).as_str());
    t.append(")");
    proof {
        assert(t@ =~= "Invalid("@ + spec_dec(v as int) + ")"@);
    }
    t
}

/// Renders a direct comparison operator.
fn cmp_direct_text(arg: u32) -> (r: String)
    ensures
        r@ == spec_cmp_direct(arg),
{
    if arg == 0 {
        "<".to_owned()
    } else if arg == 1 {
        "<=".to_owned()
    } else if arg == 2 {
        "==".to_owned()
    } else if arg == 3 {
        "!=".to_owned()
    } else if arg == 4 {
        ">".to_owned()
    } else if arg == 5 {
        ">=".to_owned()
    } else {
        invalid_paren_text(arg)
    }
}

/// Renders a high-bits comparison operator with its coercion bit.
fn cmp_shifted_text(arg: u32) -> (r: String)
    ensures
        r@ == spec_cmp_shifted(arg),
{
    let v = arg >> 5u32;
    let sym: String = if v == 0 {
        "<".to_owned()
    } else if v == 1 {
        "<=".to_owned()
    } else if v == 2 {
        "==".to_owned()
    } else if v == 3 {
        "!=".to_owned()
    } else if v == 4 {
        ">".to_owned()
    } else if v == 5 {
        ">=".to_owned()
    } else {
        invalid_paren_text(arg)
    };
    if arg & 16 != 0 {
        let mut t = "bool(".to_owned();
        t.append(sym.as_str());
        t.append(")");
        proof {
            assert(t@ =~= spec_cmp_shifted(arg));
        }
        t
    } else {
        sym
    }
}

/// Renders a binary or in-place operator.
fn binop_text(v: u32) -> (r: String)
    ensures
        r@ == spec_binop_sym(v),
{
    if v == 0 {
        "+".to_owned()
    } else if v == 1 {
        "&".to_owned()
    } else if v == 2 {
        "//".to_owned()
    } else if v == 3 {
        "<<".to_owned()
    } else if v == 4 {
        "@".to_owned()
    } else if v == 5 {
        "*".to_owned()
    } else if v == 6 {
        "%".to_owned()
    } else if v == 7 {
        "|".to_owned()
    } else if v == 8 {
        "**".to_owned()
    } else if v == 9 {
        ">>".to_owned()
    } else if v == 10 {
        "-".to_owned()
    } else if v == 11 {
        "/".to_owned()
    } else if v == 12 {
        "^".to_owned()
    } else if v == 13 {
        "+=".to_owned()
    } else if v == 14 {
        "&=".to_owned()
    } else if v == 15 {
        "//=".to_owned()
    } else if v == 16 {
        "<<=".to_owned()
    } else if v == 17 {
        "@=".to_owned()
    } else if v == 18 {
        "*=".to_owned()
    } else if v == 19 {
        "%=".to_owned()
    } else if v == 20 {
        "|=".to_owned()
    } else if v == 21 {
        "**=".to_owned()
    } else if v == 22 {
        ">>=".to_owned()
    } else if v == 23 {
        "-=".to_owned()
    } else if v == 24 {
        "/=".to_owned()
    } else if v == 25 {
        "^=".to_owned()
    } else {
        invalid_paren_text(v)
    }
}

/// Renders the set function-attribute flag names.
fn flags_text(arg: u32) -> (r: String)
    ensures
        r@ == spec_flags_text(arg),
{
    let b = arg & 15;
    if b == 0 {
        "".to_owned()
    } else if b == 1 {
        "POS_DEFAULTS".to_owned()
    } else if b == 2 {
        "KW_DEFAULTS".to_owned()
    } else if b == 3 {
        "POS_DEFAULTS, KW_DEFAULTS".to_owned()
    } else if b == 4 {
        "ANNOTATIONS".to_owned()
    } else if b == 5 {
        "POS_DEFAULTS, ANNOTATIONS".to_owned()
    } else if b == 6 {
        "KW_DEFAULTS, ANNOTATIONS".to_owned()
    } else if b == 7 {
        "POS_DEFAULTS, KW_DEFAULTS, ANNOTATIONS".to_owned()
    } else if b == 8 {
        "CLOSURE".to_owned()
    } else if b == 9 {
        "POS_DEFAULTS, CLOSURE".to_owned()
    } else if b == 10 {
        "KW_DEFAULTS, CLOSURE".to_owned()
    } else if b == 11 {
        "POS_DEFAULTS, KW_DEFAULTS, CLOSURE".to_owned()
    } else if b == 12 {
        "ANNOTATIONS, CLOSURE".to_owned()
    } else if b == 13 {
        "POS_DEFAULTS, ANNOTATIONS, CLOSURE".to_owned()
    } else if b == 14 {
        "KW_DEFAULTS, ANNOTATIONS, CLOSURE".to_owned()
    } else {
        "POS_DEFAULTS, KW_DEFAULTS, ANNOTATIONS, CLOSURE".to_owned()
    }
}

/// Renders the f-string conversion flag.
fn format_flag_text(arg: u32) -> (r: String)
    ensures
        r@ == spec_format_flag_text(arg),
{
    let conv = arg & 3;
    if arg & 4 != 0 {
        if conv == 0 {
            " with format".to_owned()
        } else if conv == 1 {
            "str with format".to_owned()
        } else if conv == 2 {
            "repr with format".to_owned()
        } else {
            "ascii with format".to_owned()
        }
    } else {
        if conv == 0 {
            "".to_owned()
        } else if conv == 1 {
            "str".to_owned()
        } else if conv == 2 {
            "repr".to_owned()
        } else {
            "ascii".to_owned()
        }
    }
}

/// Renders the generation 3 conversion selector.
fn convert_text(arg: u32) -> (r: String)
    ensures
        r@ == spec_convert_text(arg),
{
    if arg == 1 {
        "str".to_owned()
    } else if arg == 2 {
        "repr".to_owned()
    } else if arg == 3 {
        "ascii".to_owned()
    } else {
        invalid_paren_text(arg)
    }
}

/// Resolves a composite name reference.
fn composite_span(names: &Vec<String>, arg: u32, shift: u32, prefix: &str) -> (r: Span)
    requires
        shift == 1 || shift == 2,
    ensures
        seq![span_view(r)] == spec_composite(*names, arg, shift, prefix@),
{
    let idx = arg >> shift;
    if (idx as usize) < names.len() {
        if arg & 1 != 0 {
            let mut t = prefix.to_owned();
            t.append(names[idx as usize].as_str());
            Span { tag: Tag::Plain, text: t }
        } else {
            Span { tag: Tag::Plain, text: names[idx as usize].clone() }
        }
    } else {
        invalid_index_span(idx as u64)
    }
}

/// Resolves the operand of instruction `index` against the owning object's
/// side tables and returns it as tagged text, or `None` when the
/// instruction renders no annotation.  `arg` must be the instruction's true
/// operand with its extended-argument chain applied.
pub fn get_instruction_arg_repr(code: &CodeObject, index: usize, arg: u32) -> (r: Option<
    Vec<Span>,
>)
    requires
        index < code.code@.len(),
        code.code@.len() <= spec_max_code_len(),
        arg == spec_full_arg(code.generation, code.code@, index as int),
    ensures
        r is Some <==> spec_resolve(*code, index as int, arg) is Some,
        r matches Some(v) ==> spans_view(v@) == spec_resolve(*code, index as int, arg)->0,
{
    let g = code.generation;
    let op = code.code[index].opcode;
    match operand_shape(g, op) {
        OperandShape::NoArg => None,
        OperandShape::NameRef => Some(vec![lookup_span(&code.names, arg)]),
        OperandShape::VarRef => Some(vec![lookup_span(&code.varnames, arg)]),
        OperandShape::LocalsPlusRef => Some(vec![lookup_span(&code.localsplus, arg)]),
        OperandShape::LocalsPlusPair => {
            let a = lookup_span(&code.localsplus, arg >> 4u32);
            let b = lookup_span(&code.localsplus, arg & 15);
            Some(vec![a, Span { tag: Tag::Plain, text: ", ".to_owned() }, b])
        },
        OperandShape::ConstRef => {
            if (arg as usize) < code.consts.len() {
                let t = const_text(&code.consts[arg as usize]);
                Some(vec![Span { tag: Tag::Plain, text: t }])
            } else {
                Some(vec![invalid_index_span(arg as u64)])
            }
        },
        OperandShape::ClosureSplitRef => {
            let cell_len = code.cellvars.len();
            if (arg as usize) < cell_len {
                Some(
                    vec![
                        Span { tag: Tag::Plain, text: code.cellvars[arg as usize].clone() },
                    ],
                )
            } else if (arg as usize) - cell_len < code.freevars.len() {
                let free_index = (arg as usize) - cell_len;
                let name = code.freevars[free_index].clone();
                Some(vec![Span { tag: Tag::Plain, text: name }])
            } else {
                Some(vec![invalid_index_span(arg as u64)])
            }
        },
        OperandShape::CompareDirect => Some(
            vec![Span { tag: Tag::Plain, text: cmp_direct_text(arg) }],
        ),
        OperandShape::CompareShifted => Some(
            vec![Span { tag: Tag::Plain, text: cmp_shifted_text(arg) }],
        ),
        OperandShape::BinaryOperator => Some(
            vec![Span { tag: Tag::Plain, text: binop_text(arg) }],
        ),
        OperandShape::FunctionFlags => Some(
            vec![Span { tag: Tag::Plain, text: flags_text(arg) }],
        ),
        OperandShape::FormatFlag => Some(
            vec![Span { tag: Tag::Plain, text: format_flag_text(arg) }],
        ),
        OperandShape::ConvertFlag => Some(
            vec![Span { tag: Tag::Plain, text: convert_text(arg) }],
        ),
        OperandShape::CompositeNameNull => Some(
            vec![composite_span(&code.names, arg, 1, "NULL")],
        ),
        OperandShape::CompositeNameSpaced1 => Some(
            vec![composite_span(&code.names, arg, 1, "NULL + ")],
        ),
        OperandShape::CompositeNameSpaced2 => Some(
            vec![composite_span(&code.names, arg, 2, "NULL + ")],
        ),
        OperandShape::JumpAbsolute | OperandShape::JumpForwardRel
        | OperandShape::JumpBackwardRel => {
            let t = match jump_target(g, &code.code, index) {
                Option::Some(t) => t,
                Option::None => {
                    proof {
                        assert(false);
                    }
                    0
                },
            };
            let tag = if 0 <= t && t < code.code.len() as i64 {
                Tag::Plain
            } else {
                Tag::InvalidTarget
            };
            let num = i64_dec(2 * t);
            Some(
                vec![
                    Span { tag: Tag::Plain, text: "to ".to_owned() },
                    Span { tag, text: num },
                ],
            )
        },
    }
}

} // verus!

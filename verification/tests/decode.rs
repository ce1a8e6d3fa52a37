use pyfalcon::code::{CodeObject, Constant, RawInstr};
use pyfalcon::linetable::{co_lines, starts_line_number};
use pyfalcon::operands::get_instruction_arg_repr;
use pyfalcon::schema::SchemaGeneration;
use pyfalcon::stream::{decode_instructions, full_arg, DecodeError};
use pyfalcon::text::Tag;

fn slots(raw: &[(u8, u8)]) -> Vec<RawInstr> {
    raw.iter().map(|&(opcode, arg)| RawInstr { opcode, arg }).collect()
}

fn gen1_with(code: Vec<RawInstr>, consts: Vec<Constant>, names: Vec<&str>) -> CodeObject {
    CodeObject {
        generation: SchemaGeneration::Gen1,
        code,
        consts,
        names: names.iter().map(|s| s.to_string()).collect(),
        varnames: vec!["v0".to_string()],
        cellvars: vec!["c0".to_string()],
        freevars: vec!["f0".to_string()],
        localsplus: vec![],
        name: "<module>".to_string(),
        qualname: "<module>".to_string(),
        filename: "test.py".to_string(),
        firstlineno: 1,
        linetable: vec![],
        exceptiontable: vec![],
    }
}

#[test]
fn extended_argument_chain_composes() {
    let code = slots(&[(144, 1), (144, 2), (100, 3)]);
    assert_eq!(full_arg(SchemaGeneration::Gen1, &code, 0), 1);
    assert_eq!(full_arg(SchemaGeneration::Gen1, &code, 1), (1 << 8) | 2);
    assert_eq!(full_arg(SchemaGeneration::Gen1, &code, 2), (1 << 16) | (2 << 8) | 3);
}

#[test]
fn decoded_offsets_are_twice_the_index() {
    let code = slots(&[(100, 0), (144, 1), (100, 2), (83, 0)]);
    let decoded = decode_instructions(SchemaGeneration::Gen1, &code).unwrap();
    assert_eq!(decoded.len(), 4);
    for (i, ins) in decoded.iter().enumerate() {
        assert_eq!(ins.index, i);
        assert_eq!(ins.offset, 2 * i as u64);
    }
    assert!(decoded[1].is_ext);
    assert_eq!(decoded[2].arg, (1 << 8) | 2);
    assert!(decoded.iter().all(|i| i.known));
}

#[test]
fn truncated_extension_chain_is_reported() {
    let code = slots(&[(100, 0), (144, 1)]);
    let r = decode_instructions(SchemaGeneration::Gen1, &code);
    assert_eq!(r, Err(DecodeError::TruncatedExtendedArgChain));
    // The quickened extension opcode of generation 2 counts as well.
    let code = slots(&[(100, 0), (34, 1)]);
    assert!(decode_instructions(SchemaGeneration::Gen2, &code).is_err());
    assert!(decode_instructions(SchemaGeneration::Gen1, &code).is_ok());
}

#[test]
fn unknown_opcodes_decode_without_failing() {
    let code = slots(&[(0, 0), (100, 1)]);
    let decoded = decode_instructions(SchemaGeneration::Gen1, &code).unwrap();
    assert!(!decoded[0].known);
    assert!(decoded[1].known);
}

#[test]
fn gen1_line_table_decodes() {
    let entries = co_lines(SchemaGeneration::Gen1, &vec![8, 0, 4, 1, 18, 2], 1).unwrap();
    assert_eq!(entries.len(), 3);
    assert_eq!((entries[0].start, entries[0].end, entries[0].line), (0, 8, Some(1)));
    assert_eq!((entries[1].start, entries[1].end, entries[1].line), (8, 12, Some(2)));
    assert_eq!((entries[2].start, entries[2].end, entries[2].line), (12, 30, Some(4)));
    assert_eq!(starts_line_number(&entries, 0), Some(1));
    assert_eq!(starts_line_number(&entries, 1), None);
    assert_eq!(starts_line_number(&entries, 4), Some(2));
    assert_eq!(starts_line_number(&entries, 6), Some(4));
}

#[test]
fn gen1_line_table_no_line_marker() {
    // A -128 delta marks a range without a line; it never starts a group.
    let entries = co_lines(SchemaGeneration::Gen1, &vec![4, 128, 4, 1], 5).unwrap();
    assert_eq!(entries[0].line, None);
    assert_eq!(entries[1].line, Some(6));
    assert_eq!(starts_line_number(&entries, 0), None);
    assert_eq!(starts_line_number(&entries, 2), Some(6));
}

#[test]
fn gen2_line_table_decodes() {
    // One no-column entry (kind 13) of two slots with line delta +1, then a
    // no-location entry (kind 15) of one slot.
    let bytes = vec![0x80 | (13 << 3) | 1, 2, 0x80 | (15 << 3) | 0];
    let entries = co_lines(SchemaGeneration::Gen2, &bytes, 10).unwrap();
    assert_eq!(entries.len(), 2);
    assert_eq!((entries[0].start, entries[0].end, entries[0].line), (0, 4, Some(11)));
    assert_eq!((entries[1].start, entries[1].end, entries[1].line), (4, 6, None));
    assert_eq!(starts_line_number(&entries, 0), Some(11));
    assert_eq!(starts_line_number(&entries, 2), None);
}

#[test]
fn gen2_line_table_rejects_clear_high_bit() {
    assert!(co_lines(SchemaGeneration::Gen2, &vec![0x01], 1).is_none());
    assert!(co_lines(SchemaGeneration::Gen1, &vec![1, 2, 3], 1).is_none());
}

fn only_text(r: Option<Vec<pyfalcon::text::Span>>) -> String {
    r.unwrap().iter().map(|s| s.text.clone()).collect::<Vec<_>>().join("")
}

#[test]
fn gen1_operand_shapes_resolve() {
    let code = gen1_with(
        slots(&[(101, 0), (100, 0), (124, 0), (107, 2), (155, 6), (132, 3), (135, 0), (135, 1), (83, 0)]),
        vec![Constant::Int(-5)],
        vec!["print"],
    );
    assert_eq!(only_text(get_instruction_arg_repr(&code, 0, 0)), "print");
    assert_eq!(only_text(get_instruction_arg_repr(&code, 1, 0)), "-5");
    assert_eq!(only_text(get_instruction_arg_repr(&code, 2, 0)), "v0");
    assert_eq!(only_text(get_instruction_arg_repr(&code, 3, 2)), "==");
    assert_eq!(only_text(get_instruction_arg_repr(&code, 4, 6)), "repr with format");
    assert_eq!(only_text(get_instruction_arg_repr(&code, 5, 3)), "POS_DEFAULTS, KW_DEFAULTS");
    // Closure references split between cell and free variables.
    assert_eq!(only_text(get_instruction_arg_repr(&code, 6, 0)), "c0");
    assert_eq!(only_text(get_instruction_arg_repr(&code, 7, 1)), "f0");
    // No-operand instructions carry no annotation.
    assert!(get_instruction_arg_repr(&code, 8, 0).is_none());
}

#[test]
fn constant_values_render_literally() {
    let consts = vec![
        Constant::NoneValue,
        Constant::Bool(true),
        Constant::Tuple(vec![Constant::Int(1), Constant::Str("x".to_string())]),
        Constant::Bytes(vec![104, 105]),
        Constant::Other("3.25".to_string()),
    ];
    let code = gen1_with(slots(&[(100, 0), (100, 1), (100, 2), (100, 3), (100, 4)]), consts, vec![]);
    assert_eq!(only_text(get_instruction_arg_repr(&code, 0, 0)), "None");
    assert_eq!(only_text(get_instruction_arg_repr(&code, 1, 1)), "true");
    assert_eq!(only_text(get_instruction_arg_repr(&code, 2, 2)), "(1, 'x')");
    assert_eq!(only_text(get_instruction_arg_repr(&code, 3, 3)), "b[104, 105]");
    assert_eq!(only_text(get_instruction_arg_repr(&code, 4, 4)), "3.25");
}

fn gen_code(generation: SchemaGeneration, code: Vec<RawInstr>, names: Vec<&str>) -> CodeObject {
    CodeObject {
        generation,
        code,
        consts: vec![],
        names: names.iter().map(|s| s.to_string()).collect(),
        varnames: vec![],
        cellvars: vec![],
        freevars: vec![],
        localsplus: vec!["a".to_string(), "b".to_string()],
        name: "<module>".to_string(),
        qualname: "<module>".to_string(),
        filename: "test.py".to_string(),
        firstlineno: 1,
        linetable: vec![],
        exceptiontable: vec![],
    }
}

#[test]
fn gen2_composite_global_prepends_null() {
    let code = gen_code(SchemaGeneration::Gen2, slots(&[(116, 3), (116, 2), (116, 9)]), vec![
        "g0", "g1",
    ]);
    assert_eq!(only_text(get_instruction_arg_repr(&code, 0, 3)), "NULLg1");
    assert_eq!(only_text(get_instruction_arg_repr(&code, 1, 2)), "g1");
    let bad = get_instruction_arg_repr(&code, 2, 9).unwrap();
    assert_eq!(bad[0].tag, Tag::InvalidIndex);
    assert_eq!(bad[0].text, "Invalid index 4");
}

#[test]
fn gen3_composite_and_bitfields_resolve() {
    let code = gen_code(
        SchemaGeneration::Gen3,
        slots(&[(82, 3), (93, 5), (58, 80), (58, 32), (45, 0), (88, 0x10), (60, 2)]),
        vec!["n0", "n1"],
    );
    // LOAD_ATTR with the low flag bit set.
    assert_eq!(only_text(get_instruction_arg_repr(&code, 0, 3)), "NULL + n1");
    // LOAD_SUPER_ATTR shifts by two.
    assert_eq!(only_text(get_instruction_arg_repr(&code, 1, 5)), "NULL + n1");
    // COMPARE_OP keeps its operator in the high bits, bit 4 coerces.
    assert_eq!(only_text(get_instruction_arg_repr(&code, 2, 80)), "bool(==)");
    assert_eq!(only_text(get_instruction_arg_repr(&code, 3, 32)), "<=");
    assert_eq!(only_text(get_instruction_arg_repr(&code, 4, 0)), "+");
    // Paired fast locals unpack from the argument's two nibbles.
    assert_eq!(only_text(get_instruction_arg_repr(&code, 5, 0x10)), "b, a");
    assert_eq!(only_text(get_instruction_arg_repr(&code, 6, 2)), "repr");
}

#[test]
fn gen3_jump_measures_past_own_caches() {
    // JUMP_BACKWARD carries one cache slot, so a jump at index 2 with
    // magnitude 2 resolves to (2 + 1) - 2 + 1 = 2.
    let code = gen_code(
        SchemaGeneration::Gen3,
        slots(&[(30, 0), (30, 0), (77, 2), (0, 0)]),
        vec![],
    );
    assert_eq!(only_text(get_instruction_arg_repr(&code, 2, 2)), "to 4");
}

#[test]
fn gen3_dict_or_globals_lookup_is_bounds_checked() {
    // LOAD_FROM_DICT_OR_GLOBALS resolves against the name table under the
    // same invalid-index policy as every other lookup.
    let code = gen_code(SchemaGeneration::Gen3, slots(&[(90, 0), (90, 7)]), vec!["n0"]);
    assert_eq!(only_text(get_instruction_arg_repr(&code, 0, 0)), "n0");
    let bad = get_instruction_arg_repr(&code, 1, 7).unwrap();
    assert_eq!(bad[0].tag, Tag::InvalidIndex);
    assert_eq!(bad[0].text, "Invalid index 7");
}

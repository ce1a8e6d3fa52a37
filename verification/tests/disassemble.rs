use pyfalcon::code::{CodeObject, Constant, RawInstr};
use pyfalcon::render::{disassemble_code, disassemble_code_spans};
use pyfalcon::schema::SchemaGeneration;
use pyfalcon::text::Tag;

fn slots(raw: &[(u8, u8)]) -> Vec<RawInstr> {
    raw.iter().map(|&(opcode, arg)| RawInstr { opcode, arg }).collect()
}

fn bare_code(
    generation: SchemaGeneration,
    code: Vec<RawInstr>,
    consts: Vec<Constant>,
    names: Vec<&str>,
    linetable: Vec<u8>,
) -> CodeObject {
    CodeObject {
        generation,
        code,
        consts,
        names: names.iter().map(|s| s.to_string()).collect(),
        varnames: vec![],
        cellvars: vec![],
        freevars: vec![],
        localsplus: vec![],
        name: "<module>".to_string(),
        qualname: "<module>".to_string(),
        filename: "test.py".to_string(),
        firstlineno: 1,
        linetable,
        exceptiontable: vec![],
    }
}

#[test]
fn test_invalid_opcode() {
    // A first-generation module with an unknown opcode byte in the middle.
    let code = bare_code(
        SchemaGeneration::Gen1,
        slots(&[
            (101, 0), // LOAD_NAME print
            (100, 0), // LOAD_CONST 'line 1'
            (131, 1), // CALL_FUNCTION
            (1, 0),   // POP_TOP
            (100, 1), // LOAD_CONST 2
            (90, 1),  // STORE_NAME a
            (101, 0), // LOAD_NAME print
            (100, 2), // LOAD_CONST 'line 4, a='
            (101, 1), // LOAD_NAME a
            (155, 2), // FORMAT_VALUE repr
            (157, 2), // BUILD_STRING
            (131, 1), // CALL_FUNCTION
            (0, 0),   // unknown in this generation
            (100, 3), // LOAD_CONST None
            (83, 0),  // RETURN_VALUE
        ]),
        vec![
            Constant::Str("line 1".to_string()),
            Constant::Int(2),
            Constant::Str("line 4, a=".to_string()),
            Constant::NoneValue,
        ],
        vec!["print", "a"],
        vec![8, 0, 4, 1, 18, 2],
    );
    let text = disassemble_code(&code, true);
    println!("{}", text);
    assert!(text.contains("INVALID_OPCODE <0>"));
    assert!(text.contains("LOAD_NAME"));
    assert!(text.contains("('line 1')"));
}

#[test]
fn disassemble_test_invalid_opcode() {
    // A second-generation module, cache slots included, with an
    // out-of-table byte among the instructions.
    let code = CodeObject {
        generation: SchemaGeneration::Gen2,
        code: slots(&[
            (151, 0), // RESUME
            (2, 0),   // PUSH_NULL
            (101, 0), // LOAD_NAME print
            (100, 0), // LOAD_CONST 'line 1'
            (166, 1), // PRECALL
            (0, 0),   // CACHE
            (171, 1), // CALL
            (0, 0),
            (0, 0),
            (0, 0),
            (0, 0),
            (1, 0),   // POP_TOP
            (100, 1), // LOAD_CONST 2
            (90, 1),  // STORE_NAME a
            (2, 0),   // PUSH_NULL
            (101, 0), // LOAD_NAME print
            (100, 2), // LOAD_CONST 'line 4, a='
            (101, 1), // LOAD_NAME a
            (155, 2), // FORMAT_VALUE repr
            (200, 5), // unknown in this generation
            (166, 1), // PRECALL
            (0, 0),
            (171, 1), // CALL
            (0, 0),
            (0, 0),
            (0, 0),
            (0, 0),
            (1, 0),   // POP_TOP
            (100, 3), // LOAD_CONST None
            (83, 0),  // RETURN_VALUE
        ]),
        consts: vec![
            Constant::Str("line 1".to_string()),
            Constant::Int(2),
            Constant::Str("line 4, a=".to_string()),
            Constant::NoneValue,
        ],
        names: vec!["print".to_string(), "a".to_string()],
        varnames: vec![],
        cellvars: vec![],
        freevars: vec![],
        localsplus: vec![],
        name: "<module>".to_string(),
        qualname: "<module>".to_string(),
        filename: "test.py".to_string(),
        firstlineno: 1,
        exceptiontable: vec![],
        linetable: vec![
            240, 3, 1, 1, 1, 224, 0, 5, 128, 5, 128, 104, 129, 15, 132, 15, 128, 15, 216, 4, 5,
            128, 1, 224, 0, 5, 128, 5, 128, 111, 144, 17, 128, 111, 128, 111, 209, 0, 22, 212, 0,
            22, 208, 0, 22, 208, 0, 22, 208, 0, 22,
        ],
    };
    let text = disassemble_code(&code, true);
    println!("{}", text);
    assert!(text.contains("INVALID_OPCODE <200>"));
    // Cache padding renders no line of its own.
    assert!(!text.contains("CACHE"));
}

#[test]
fn scenario_two_instructions_with_string_constant() {
    let code = bare_code(
        SchemaGeneration::Gen1,
        slots(&[(100, 0), (83, 0)]),
        vec![Constant::Str("hello".to_string())],
        vec![],
        vec![],
    );
    let text = disassemble_code(&code, true);
    let expected = "              0 LOAD_CONST               0 ('hello')\n              2 RETURN_VALUE             0\n\n";
    assert_eq!(text, expected);
}

#[test]
fn scenario_invalid_opcode_keeps_neighbours() {
    let code = bare_code(
        SchemaGeneration::Gen1,
        slots(&[(100, 0), (0, 7), (83, 0)]),
        vec![Constant::NoneValue],
        vec![],
        vec![],
    );
    let spans = disassemble_code_spans(&code, false);
    let tagged: Vec<_> = spans.iter().filter(|s| s.tag == Tag::InvalidOpcode).collect();
    assert_eq!(tagged.len(), 1);
    assert!(tagged[0].text.contains("INVALID_OPCODE <0>"));
    assert!(tagged[0].text.contains("    7"));
    let text = disassemble_code(&code, false);
    let lines: Vec<&str> = text.lines().collect();
    assert!(lines[0].contains("LOAD_CONST"));
    assert!(lines[0].contains("(None)"));
    assert!(lines[2].contains("RETURN_VALUE"));
}

#[test]
fn scenario_forward_jump_valid_and_invalid() {
    // A forward jump at index 5 of magnitude 2 resolves to index 8 and
    // renders its byte offset 16; the same jump in a six-slot stream lands
    // past the end and is tagged invalid instead.
    let mut long_slots = vec![(9u8, 0u8); 10];
    long_slots[5] = (110, 2);
    let long = bare_code(SchemaGeneration::Gen1, slots(&long_slots), vec![], vec![], vec![]);
    let text = disassemble_code(&long, false);
    assert!(text.contains("(to 16)"));
    let spans = disassemble_code_spans(&long, false);
    assert!(spans.iter().all(|s| s.tag != Tag::InvalidTarget));
    // The destination's own line is marked as a jump target.
    let target_line: Vec<&str> = text.lines().filter(|l| l.contains(">>")).collect();
    assert_eq!(target_line.len(), 1);
    assert!(target_line[0].contains("16 NOP"));

    let mut short_slots = vec![(9u8, 0u8); 6];
    short_slots[5] = (110, 2);
    let short = bare_code(SchemaGeneration::Gen1, slots(&short_slots), vec![], vec![], vec![]);
    let spans = disassemble_code_spans(&short, false);
    let bad: Vec<_> = spans.iter().filter(|s| s.tag == Tag::InvalidTarget).collect();
    assert_eq!(bad.len(), 1);
    assert_eq!(bad[0].text, "16");
    assert!(!disassemble_code(&short, false).contains(">>"));
}

#[test]
fn scenario_backward_jump_underflow_is_invalid() {
    // A backward jump whose magnitude exceeds its origin index renders an
    // explicitly invalid, negative destination instead of wrapping.
    let code = bare_code(
        SchemaGeneration::Gen2,
        slots(&[(140, 5), (9, 0)]),
        vec![],
        vec![],
        vec![],
    );
    let spans = disassemble_code_spans(&code, false);
    let bad: Vec<_> = spans.iter().filter(|s| s.tag == Tag::InvalidTarget).collect();
    assert_eq!(bad.len(), 1);
    assert_eq!(bad[0].text, "-8");
    assert!(disassemble_code(&code, false).contains("(to -8)"));
}

#[test]
fn rendering_is_deterministic() {
    let inner = bare_code(
        SchemaGeneration::Gen1,
        slots(&[(100, 0), (83, 0)]),
        vec![Constant::NoneValue],
        vec![],
        vec![],
    );
    let mut outer = bare_code(
        SchemaGeneration::Gen1,
        slots(&[(100, 0), (83, 0)]),
        vec![Constant::Code(Box::new(inner))],
        vec![],
        vec![],
    );
    outer.name = "outer".to_string();
    let first = disassemble_code(&outer, true);
    let second = disassemble_code(&outer, true);
    assert_eq!(first, second);
}

#[test]
fn nested_code_objects_render_in_order() {
    let mut inner_a = bare_code(
        SchemaGeneration::Gen1,
        slots(&[(100, 0), (83, 0)]),
        vec![Constant::NoneValue],
        vec![],
        vec![],
    );
    inner_a.name = "first".to_string();
    inner_a.filename = "f.py".to_string();
    inner_a.firstlineno = 7;
    let mut inner_b = bare_code(SchemaGeneration::Gen1, slots(&[(83, 0)]), vec![], vec![], vec![]);
    inner_b.name = "second".to_string();
    let outer = bare_code(
        SchemaGeneration::Gen1,
        slots(&[(100, 0), (100, 1), (83, 0)]),
        vec![Constant::Code(Box::new(inner_a)), Constant::Code(Box::new(inner_b))],
        vec![],
        vec![],
    );
    let text = disassemble_code(&outer, true);
    let a = text.find("Disassembly of <code object first, file \"f.py\", line 7>:").unwrap();
    let b = text.find("Disassembly of <code object second, file \"test.py\", line 1>:").unwrap();
    assert!(a < b);
    // Without the flag the nested blocks are absent.
    let own = disassemble_code(&outer, false);
    assert!(!own.contains("Disassembly of"));
}

#[test]
fn out_of_range_index_renders_marker_and_continues() {
    let code = bare_code(
        SchemaGeneration::Gen1,
        slots(&[(101, 9), (100, 4), (83, 0)]),
        vec![Constant::NoneValue],
        vec!["print"],
        vec![],
    );
    let spans = disassemble_code_spans(&code, false);
    let bad: Vec<_> = spans.iter().filter(|s| s.tag == Tag::InvalidIndex).collect();
    assert_eq!(bad.len(), 2);
    assert_eq!(bad[0].text, "Invalid index 9");
    assert_eq!(bad[1].text, "Invalid index 4");
    let text = disassemble_code(&code, false);
    assert!(text.lines().nth(2).unwrap().contains("RETURN_VALUE"));
}

#[test]
fn blank_line_between_line_groups() {
    // Three instructions over two source lines: a blank line separates the
    // second group, and the line numbers are right-justified.
    let code = bare_code(
        SchemaGeneration::Gen1,
        slots(&[(100, 0), (83, 0), (83, 0)]),
        vec![Constant::NoneValue],
        vec![],
        vec![4, 0, 2, 3],
    );
    let text = disassemble_code(&code, false);
    let lines: Vec<&str> = text.lines().collect();
    assert!(lines[0].starts_with("  1"));
    assert!(lines[1].starts_with("   "));
    assert_eq!(lines[2], "");
    assert!(lines[3].starts_with("  4"));
}

#[test]
fn malformed_line_table_degrades_to_no_lines() {
    let code = bare_code(
        SchemaGeneration::Gen1,
        slots(&[(100, 0), (83, 0)]),
        vec![Constant::NoneValue],
        vec![],
        vec![1, 2, 3],
    );
    let text = disassemble_code(&code, false);
    assert!(text.contains("LOAD_CONST"));
    assert!(text.lines().next().unwrap().starts_with("    "));
}

#[test]
fn gen3_render_skips_caches_and_measures_jumps() {
    // A CALL carries four cache slots; its line appears once and the cache
    // slots occupy byte offsets without lines of their own.  The backward
    // jump at index 7 carries one cache slot, so its destination is
    // (7 + 1) - 8 + 1 = 1.
    let code = CodeObject {
        generation: SchemaGeneration::Gen3,
        code: slots(&[
            (149, 0), // RESUME
            (92, 0),  // LOAD_NAME
            (53, 0),  // CALL
            (0, 0),
            (0, 0),
            (0, 0),
            (0, 0),
            (77, 8),  // JUMP_BACKWARD
            (0, 0),
            (36, 0),  // RETURN_VALUE
        ]),
        consts: vec![],
        names: vec!["f".to_string()],
        varnames: vec![],
        cellvars: vec![],
        freevars: vec![],
        localsplus: vec![],
        name: "<module>".to_string(),
        qualname: "<module>".to_string(),
        filename: "test.py".to_string(),
        firstlineno: 1,
        linetable: vec![],
        exceptiontable: vec![],
    };
    let text = disassemble_code(&code, false);
    let lines: Vec<&str> = text.lines().filter(|l| !l.is_empty()).collect();
    assert_eq!(lines.len(), 5);
    assert!(lines[1].contains(">>"));
    assert!(lines[1].contains("2 LOAD_NAME"));
    assert!(lines[3].contains("14 JUMP_BACKWARD"));
    assert!(lines[3].contains("(to 2)"));
    assert!(lines[4].contains("18 RETURN_VALUE"));
}

#[test]
fn extended_argument_lines_show_accumulated_values() {
    let code = bare_code(
        SchemaGeneration::Gen1,
        slots(&[(144, 1), (144, 2), (100, 3), (83, 0)]),
        vec![],
        vec![],
        vec![],
    );
    let text = disassemble_code(&code, false);
    let lines: Vec<&str> = text.lines().collect();
    // Each extension slot shows its own contribution combined with the
    // chain so far, and carries no annotation.
    assert!(lines[0].contains("EXTENDED_ARG"));
    assert!(lines[0].trim_end().ends_with("    1"));
    assert!(lines[1].trim_end().ends_with("  258"));
    // The real instruction shows the fully extended operand; the constant
    // lookup then runs out of range and is marked.
    assert!(lines[2].contains("LOAD_CONST"));
    assert!(lines[2].contains("66051 (Invalid index 66051)"));
}

#[test]
fn gen2_render_with_line_numbers_exact() {
    // Two location entries: one slot at the first line, two slots one line
    // later.  The second group gets a separating blank line, and the
    // composite global resolves with its null-push marker.
    let code = CodeObject {
        generation: SchemaGeneration::Gen2,
        code: slots(&[(151, 0), (116, 1), (83, 0)]),
        consts: vec![],
        names: vec!["g".to_string()],
        varnames: vec![],
        cellvars: vec![],
        freevars: vec![],
        localsplus: vec![],
        name: "<module>".to_string(),
        qualname: "<module>".to_string(),
        filename: "test.py".to_string(),
        firstlineno: 3,
        linetable: vec![232, 0, 233, 2],
        exceptiontable: vec![],
    };
    let text = disassemble_code(&code, true);
    let expected = "  3           0 RESUME                   0\n\n  4           2 LOAD_GLOBAL              1 (NULLg)\n              4 RETURN_VALUE             0\n\n";
    assert_eq!(text, expected);
}

#[test]
fn truncated_chain_replaces_exactly_its_own_block() {
    // Top level: a stream ending in an extension slot renders only the
    // reported error, never a line for the dangling slot.
    let broken = bare_code(
        SchemaGeneration::Gen1,
        slots(&[(100, 0), (144, 1)]),
        vec![Constant::NoneValue],
        vec![],
        vec![],
    );
    let text = disassemble_code(&broken, false);
    assert_eq!(text, "error: truncated extended-argument chain\n\n");
    assert!(!text.contains("EXTENDED_ARG"));
    let spans = disassemble_code_spans(&broken, false);
    assert_eq!(spans.iter().filter(|s| s.tag == Tag::ObjectError).count(), 1);
}

#[test]
fn truncated_nested_object_leaves_siblings_and_parent_intact() {
    let mut bad = bare_code(
        SchemaGeneration::Gen1,
        slots(&[(100, 0), (144, 1)]),
        vec![Constant::NoneValue],
        vec![],
        vec![],
    );
    bad.name = "bad".to_string();
    let mut good = bare_code(SchemaGeneration::Gen1, slots(&[(83, 0)]), vec![], vec![], vec![]);
    good.name = "good".to_string();
    let parent = bare_code(
        SchemaGeneration::Gen1,
        slots(&[(100, 0), (100, 1), (83, 0)]),
        vec![Constant::Code(Box::new(bad)), Constant::Code(Box::new(good))],
        vec![],
        vec![],
    );
    let text = disassemble_code(&parent, true);
    // The parent's own instructions render in full.
    assert!(text.contains("RETURN_VALUE"));
    // The broken child is announced and reported, nothing of it rendered.
    let bad_at = text.find("Disassembly of <code object bad, file \"test.py\", line 1>:").unwrap();
    let err_at = text.find("error: truncated extended-argument chain").unwrap();
    assert!(bad_at < err_at);
    assert!(!text.contains("EXTENDED_ARG"));
    // The sibling after it still renders in full.
    let good_at = text
        .find("Disassembly of <code object good, file \"test.py\", line 1>:")
        .unwrap();
    assert!(err_at < good_at);
    assert!(text[good_at..].contains("RETURN_VALUE"));
}

use vstd::prelude::*;

use crate::code::{code_header, code_wf, lemma_consts_wf_at, spec_code_header, spec_code_wf, spec_max_code_len, CodeObject, Constant};
use crate::jumps::{jump_target_markers, lemma_computed_target_is_mapped, spec_is_jump_target, spec_jump_target};
use crate::linetable::{co_lines, max_line, spec_co_lines, spec_max_line, spec_starts_line, starts_line_number, LineEntry};
use crate::opcodes::{is_cache, is_extended_arg, opcode_name, spec_is_cache, spec_opcode_name};
use crate::schema::SchemaGeneration;
use crate::operands::{get_instruction_arg_repr, spec_resolve};
use crate::stream::{full_arg, spec_full_arg, spec_truncated_chain};
use crate::text::{
    lemma_dec_len, num_digits, spaces, spans_text, spans_text_from, spans_view, spec_dec,
    spec_num_digits, spec_pad_left, spec_pad_right, spec_spaces, str_pad_right, u64_dec,
    u64_dec_pad_left, Span, Tag,
};

verus! {

broadcast use vstd::std_specs::vec::axiom_vec_index_decreases;

/// The decoded line table of `code`, or `None` when its bytes are
/// malformed and the object renders without line numbers.
pub open spec fn spec_lines_of(code: CodeObject) -> Option<Seq<LineEntry>> {
    spec_co_lines(code.generation, code.linetable@, code.firstlineno)
}

/// The view of an owned decoded line table.
pub open spec fn lines_view(l: Option<Vec<LineEntry>>) -> Option<Seq<LineEntry>> {
    match l {
        Option::None => None,
        Option::Some(v) => Some(v@),
    }
}

/// The width of the line-number column: room for the largest line number
/// seen, and at least three characters.
pub open spec fn spec_lineno_width(lines: Option<Seq<LineEntry>>) -> int {
    match lines {
        Option::None => 3,
        Option::Some(es) => {
            let m = spec_max_line(es);
            if m < 1000 {
                3
            } else {
                spec_num_digits(m) as int
            }
        },
    }
}

/// The width of the byte-offset column: room for the largest offset, and at
/// least four characters.
pub open spec fn spec_offset_width(n: int) -> int {
    if n == 0 {
        4
    } else {
        let mo = 2 * (n - 1);
        if mo < 10000 {
            4
        } else {
            spec_num_digits(mo) as int
        }
    }
}

/// The mnemonic shown for an unknown opcode byte: a fixed marker with the
/// raw value in angle brackets.
pub open spec fn spec_invalid_opname(op: u8) -> Seq<char> {
    "INVALID_OPCODE <"@ + spec_dec(op as int) + ">"@
}

/// The jump-target marker column of instruction `i`: a chevron pair when
/// any jump in the stream resolves to `i`, blanks otherwise.
pub open spec fn spec_marker(code: CodeObject, i: int) -> Seq<char> {
    if spec_is_jump_target(code.generation, code.code@, i) {
        ">>"@
    } else {
        "  "@
    }
}

/// The fixed-column part of one output line: line number, the current
/// instruction spacer, the jump-target marker, byte offset, mnemonic and
/// raw operand, joined by single blanks.
pub open spec fn spec_line_prefix(
    code: CodeObject,
    lines: Option<Seq<LineEntry>>,
    w1: int,
    w2: int,
    i: int,
) -> Seq<char> {
    let g = code.generation;
    let op = code.code@[i].opcode;
    let lineno = match lines {
        Option::None => spec_spaces(w1),
        Option::Some(es) => match spec_starts_line(es, i) {
            Option::None => spec_spaces(w1),
            Option::Some(l) => spec_pad_left(spec_dec(l as int), w1),
        },
    };
    let marker = spec_marker(code, i);
    let offf = spec_pad_left(spec_dec(2 * i), w2);
    let opname = match spec_opcode_name(g, op) {
        Option::Some(nm) => spec_pad_right(nm, 20),
        Option::None => spec_pad_right(spec_invalid_opname(op), 20),
    };
    let argf = spec_pad_left(spec_dec(spec_full_arg(g, code.code@, i) as int), 5);
    lineno + " "@ + "   "@ + " "@ + marker + " "@ + offf + " "@ + opname + " "@ + argf
}

/// The tagged output of instruction `i`: a separating blank line when a new
/// line-number group starts past the first instruction; then, unless the
/// slot is cache padding, the line itself.  A line for an unknown opcode is
/// emitted whole under the invalid-opcode tag; any other line carries its
/// resolved operand in parentheses.
pub open spec fn spec_instr_spans(
    code: CodeObject,
    lines: Option<Seq<LineEntry>>,
    w1: int,
    w2: int,
    i: int,
) -> Seq<(Tag, Seq<char>)> {
    let g = code.generation;
    let op = code.code@[i].opcode;
    let sl = match lines {
        Option::None => None,
        Option::Some(es) => spec_starts_line(es, i),
    };
    let lead: Seq<(Tag, Seq<char>)> = if sl is Some && i != 0 {
        seq![(Tag::Plain, "\n"@)]
    } else {
        Seq::empty()
    };
    if spec_is_cache(g, op) {
        lead
    } else {
        let prefix = spec_line_prefix(code, lines, w1, w2, i);
        if spec_opcode_name(g, op) is None {
            lead + seq![(Tag::InvalidOpcode, prefix), (Tag::Plain, "\n"@)]
        } else {
            match spec_resolve(code, i, spec_full_arg(g, code.code@, i)) {
                Option::None => lead + seq![(Tag::Plain, prefix + "\n"@)],
                Option::Some(ann) => lead + seq![(Tag::Plain, prefix + " ("@)] + ann + seq![
                    (Tag::Plain, ")\n"@),
                ],
            }
        }
    }
}

/// The tagged output of the instructions before index `i`.
pub open spec fn spec_obj_spans_upto(
    code: CodeObject,
    lines: Option<Seq<LineEntry>>,
    w1: int,
    w2: int,
    i: int,
) -> Seq<(Tag, Seq<char>)>
    decreases i,
{
    if i <= 0 {
        Seq::empty()
    } else {
        spec_obj_spans_upto(code, lines, w1, w2, i - 1) + spec_instr_spans(
            code,
            lines,
            w1,
            w2,
            i - 1,
        )
    }
}

/// The tagged output of the instructions from index `i` up to `n`.
pub open spec fn spec_obj_spans_range(
    code: CodeObject,
    lines: Option<Seq<LineEntry>>,
    w1: int,
    w2: int,
    i: int,
    n: int,
) -> Seq<(Tag, Seq<char>)>
    decreases n - i,
{
    if i >= n {
        Seq::empty()
    } else {
        spec_instr_spans(code, lines, w1, w2, i) + spec_obj_spans_range(
            code,
            lines,
            w1,
            w2,
            i + 1,
            n,
        )
    }
}

proof fn lemma_range_snoc(
    code: CodeObject,
    lines: Option<Seq<LineEntry>>,
    w1: int,
    w2: int,
    i: int,
    n: int,
)
    requires
        0 <= i <= n - 1,
    ensures
        spec_obj_spans_range(code, lines, w1, w2, i, n - 1) + spec_instr_spans(
            code,
            lines,
            w1,
            w2,
            n - 1,
        ) == spec_obj_spans_range(code, lines, w1, w2, i, n),
    decreases n - i,
{
    if i == n - 1 {
        assert(spec_obj_spans_range(code, lines, w1, w2, n, n) =~= Seq::<(Tag, Seq<char>)>::empty());
        assert(spec_obj_spans_range(code, lines, w1, w2, i, n - 1) + spec_instr_spans(
            code,
            lines,
            w1,
            w2,
            n - 1,
        ) =~= spec_obj_spans_range(code, lines, w1, w2, i, n));
    } else {
        lemma_range_snoc(code, lines, w1, w2, i + 1, n);
        assert(spec_obj_spans_range(code, lines, w1, w2, i, n - 1) + spec_instr_spans(
            code,
            lines,
            w1,
            w2,
            n - 1,
        ) =~= spec_obj_spans_range(code, lines, w1, w2, i, n));
    }
}

/// The rendered block splits around any instruction: the output of the
/// instructions before it, its own output, and the output of those after
/// it.  However instruction `i` decodes and resolves, invalid markers
/// included, the instructions around it render unchanged and the block
/// runs to completion.
pub proof fn lemma_block_decomposes(
    code: CodeObject,
    lines: Option<Seq<LineEntry>>,
    w1: int,
    w2: int,
    i: int,
    n: int,
)
    requires
        0 <= i < n,
    ensures
        spec_obj_spans_upto(code, lines, w1, w2, n) == spec_obj_spans_upto(code, lines, w1, w2, i)
            + spec_instr_spans(code, lines, w1, w2, i) + spec_obj_spans_range(
            code,
            lines,
            w1,
            w2,
            i + 1,
            n,
        ),
    decreases n,
{
    if i == n - 1 {
        assert(spec_obj_spans_upto(code, lines, w1, w2, n) =~= spec_obj_spans_upto(
            code,
            lines,
            w1,
            w2,
            i,
        ) + spec_instr_spans(code, lines, w1, w2, i) + spec_obj_spans_range(
            code,
            lines,
            w1,
            w2,
            i + 1,
            n,
        ));
    } else {
        lemma_block_decomposes(code, lines, w1, w2, i, n - 1);
        lemma_range_snoc(code, lines, w1, w2, i + 1, n);
        assert(spec_obj_spans_upto(code, lines, w1, w2, n) =~= spec_obj_spans_upto(
            code,
            lines,
            w1,
            w2,
            i,
        ) + spec_instr_spans(code, lines, w1, w2, i) + spec_obj_spans_range(
            code,
            lines,
            w1,
            w2,
            i + 1,
            n,
        ));
    }
}

/// The report that stands in place of the instruction block of an object
/// whose stream ends mid-chain.
pub open spec fn spec_truncated_report() -> Seq<(Tag, Seq<char>)> {
    seq![
        (Tag::ObjectError, "error: truncated extended-argument chain\n"@),
        (Tag::Plain, "\n"@),
    ]
}

/// The tagged output of one object's own instruction block, closed by the
/// blank line that separates it from whatever follows.  A stream whose last
/// slot still asks to extend a successor is a structural failure of the
/// whole object: its block is not rendered, the reported error stands in
/// its place, and nothing else is affected.
pub open spec fn spec_obj_spans(code: CodeObject) -> Seq<(Tag, Seq<char>)> {
    if spec_truncated_chain(code.generation, code.code@) {
        spec_truncated_report()
    } else {
        let lines = spec_lines_of(code);
        let w1 = spec_lineno_width(lines);
        let w2 = spec_offset_width(code.code@.len() as int);
        spec_obj_spans_upto(code, lines, w1, w2, code.code@.len() as int) + seq![
            (Tag::Plain, "\n"@),
        ]
    }
}

/// The full tagged output for `code`: its own block and, when `constants`
/// is set, one headed block per nested code object in its constant pool,
/// depth first and in declaration order.
pub open spec fn spec_render(code: CodeObject, constants: bool) -> Seq<(Tag, Seq<char>)>
    decreases code, 1int,
{
    spec_obj_spans(code) + if constants {
        spec_const_blocks(code.consts, 0)
    } else {
        Seq::empty()
    }
}

/// The headed blocks of the nested code objects among `cs[j..]`.
pub open spec fn spec_const_blocks(cs: Vec<Constant>, j: int) -> Seq<(Tag, Seq<char>)>
    decreases cs, 2int, cs.len() - j,
{
    if j < 0 || j >= cs.len() {
        Seq::empty()
    } else {
        (match cs[j] {
            Constant::Code(b) => seq![
                (Tag::Plain, "Disassembly of "@ + spec_code_header(*b) + ":\n"@),
            ] + spec_render(*b, true),
            _ => Seq::empty(),
        }) + spec_const_blocks(cs, j + 1)
    }
}

/// Renders the mnemonic column for opcode byte `op`.
fn opname_field(g: SchemaGeneration, op: u8) -> (r: String)
    ensures
        r@ == (match spec_opcode_name(g, op) {
            Option::Some(nm) => spec_pad_right(nm, 20),
            Option::None => spec_pad_right(spec_invalid_opname(op), 20),
        }),
{
    match opcode_name(g, op) {
        Option::Some((nm, len)) => str_pad_right(nm, len, 20),
        Option::None => {
            let mut t = "INVALID_OPCODE <".to_owned();
            t.append(u64_dec(op as u64).as_str());
            t.append(">");
            let dlen = num_digits(op as u64);
            proof {
                reveal_strlit("INVALID_OPCODE <");
                reveal_strlit(">");
                lemma_dec_len(op as int);
                assert(spec_num_digits(op as int) <= 3) by {
                    reveal_with_fuel(spec_num_digits, 4);
                }
                assert(t@ =~= spec_invalid_opname(op));
            }
            str_pad_right(t.as_str(), 16 + dlen + 1, 20)
        },
    }
}

/// Appends the tagged output of instruction `i` to `out`.
fn push_instr_spans(
    code: &CodeObject,
    lines: &Option<Vec<LineEntry>>,
    marks: &Vec<bool>,
    w1: usize,
    w2: usize,
    i: usize,
    out: &mut Vec<Span>,
)
    requires
        i < code.code@.len(),
        code.code@.len() <= spec_max_code_len(),
        lines_view(*lines) == spec_lines_of(*code),
        marks@.len() == code.code@.len(),
        forall|t: int|
            0 <= t < code.code@.len() ==> marks@[t] == spec_is_jump_target(
                code.generation,
                code.code@,
                t,
            ),
    ensures
        spans_view(final(out)@) == spans_view(old(out)@) + spec_instr_spans(
            *code,
            spec_lines_of(*code),
            w1 as int,
            w2 as int,
            i as int,
        ),
{
    let ghost base = spans_view(old(out)@);
    let ghost slines = spec_lines_of(*code);
    let g = code.generation;
    let op = code.code[i].opcode;
    let sl: Option<u32> = match lines {
        Option::None => None,
        Option::Some(es) => starts_line_number(es, i),
    };
    if sl.is_some() && i != 0 {
        out.push(Span { tag: Tag::Plain, text: "\n".to_owned() });
    }
    let ghost lead = spans_view(out@).skip(base.len() as int);
    proof {
        assert(spans_view(out@) =~= base + lead);
    }
    if is_cache(g, op) {
        proof {
            assert(spans_view(out@) =~= base + spec_instr_spans(
                *code,
                slines,
                w1 as int,
                w2 as int,
                i as int,
            ));
        }
        return ;
    }
    // Assemble the fixed columns.
    let mut p: String = match lines {
        Option::None => spaces(w1),
        Option::Some(es) => match starts_line_number(es, i) {
            Option::None => spaces(w1),
            Option::Some(l) => u64_dec_pad_left(l as u64, w1),
        },
    };
    p.append(" ");
    p.append("   ");
    p.append(" ");
    if marks[i] {
        p.append(">>");
    } else {
        p.append("  ");
    }
    p.append(" ");
    p.append(u64_dec_pad_left(2 * (i as u64), w2).as_str());
    p.append(" ");
    p.append(opname_field(g, op).as_str());
    p.append(" ");
    let arg = full_arg(g, &code.code, i);
    p.append(u64_dec_pad_left(arg as u64, 5).as_str());
    proof {
        assert(p@ =~= spec_line_prefix(*code, slines, w1 as int, w2 as int, i as int));
    }
    if opcode_name(g, op).is_none() {
        out.push(Span { tag: Tag::InvalidOpcode, text: p });
        out.push(Span { tag: Tag::Plain, text: "\n".to_owned() });
        proof {
            assert(spans_view(out@) =~= base + spec_instr_spans(
                *code,
                slines,
                w1 as int,
                w2 as int,
                i as int,
            ));
        }
        return ;
    }
    match get_instruction_arg_repr(code, i, arg) {
        Option::None => {
            p.append("\n");
            out.push(Span { tag: Tag::Plain, text: p });
            proof {
                assert(spans_view(out@) =~= base + spec_instr_spans(
                    *code,
                    slines,
                    w1 as int,
                    w2 as int,
                    i as int,
                ));
            }
        },
        Option::Some(mut ann) => {
            p.append(" (");
            out.push(Span { tag: Tag::Plain, text: p });
            out.append(&mut ann);
            out.push(Span { tag: Tag::Plain, text: ")\n".to_owned() });
            proof {
                assert(spans_view(out@) =~= base + spec_instr_spans(
                    *code,
                    slines,
                    w1 as int,
                    w2 as int,
                    i as int,
                ));
            }
        },
    }
}

/// Appends one object's own instruction block to `out`, or the truncated
/// extension-chain report when the stream is structurally broken.
fn render_object_spans(code: &CodeObject, out: &mut Vec<Span>)
    requires
        code.code@.len() <= spec_max_code_len(),
    ensures
        spans_view(final(out)@) == spans_view(old(out)@) + spec_obj_spans(*code),
{
    let ghost base = spans_view(old(out)@);
    let ghost slines = spec_lines_of(*code);
    let slot_count = code.code.len();
    if slot_count > 0 && is_extended_arg(code.generation, code.code[slot_count - 1].opcode) {
        out.push(
            Span {
                tag: Tag::ObjectError,
                text: "error: truncated extended-argument chain\n".to_owned(),
            },
        );
        out.push(Span { tag: Tag::Plain, text: "\n".to_owned() });
        proof {
            assert(spans_view(out@) =~= base + spec_obj_spans(*code));
        }
        return ;
    }
    let lines: Option<Vec<LineEntry>> = co_lines(
        code.generation,
        &code.linetable,
        code.firstlineno,
    );
    let marks = jump_target_markers(code.generation, &code.code);
    let w1: usize = match &lines {
        Option::None => 3,
        Option::Some(es) => {
            let m = max_line(es);
            if m < 1000 {
                3
            } else {
                num_digits(m as u64)
            }
        },
    };
    let n = code.code.len();
    let w2: usize = if n == 0 {
        4
    } else {
        let mo: u64 = 2 * ((n - 1) as u64);
        if mo < 10000 {
            4
        } else {
            num_digits(mo)
        }
    };
    proof {
        assert(lines_view(lines) == slines);
        assert(w1 as int == spec_lineno_width(slines));
        assert(w2 as int == spec_offset_width(code.code@.len() as int));
    }
    let mut i: usize = 0;
    while i < n
        invariant
            i <= n,
            n == code.code@.len(),
            n <= spec_max_code_len(),
            lines_view(lines) == slines,
            slines == spec_lines_of(*code),
            marks@.len() == n,
            forall|t: int|
                0 <= t < n ==> marks@[t] == spec_is_jump_target(
                    code.generation,
                    code.code@,
                    t,
                ),
            w1 as int == spec_lineno_width(slines),
            w2 as int == spec_offset_width(n as int),
            spans_view(out@) == base + spec_obj_spans_upto(
                *code,
                slines,
                w1 as int,
                w2 as int,
                i as int,
            ),
        decreases n - i,
    {
        push_instr_spans(code, &lines, &marks, w1, w2, i, out);
        i = i + 1;
        proof {
            assert(spans_view(out@) =~= base + spec_obj_spans_upto(
                *code,
                slines,
                w1 as int,
                w2 as int,
                i as int,
            ));
        }
    }
    out.push(Span { tag: Tag::Plain, text: "\n".to_owned() });
    proof {
        assert(spans_view(out@) =~~= base + spec_obj_spans_upto(
            *code,
            slines,
            w1 as int,
            w2 as int,
            n as int,
        ) + seq![(Tag::Plain, "\n"@)]);
        assert(spans_view(out@) =~~= base + spec_obj_spans(*code));
    }
}

/// Appends the full output for `code` to `out`: its own block and, when
/// `constants` is set, the blocks of its nested code objects.
fn render_spans_into(code: &CodeObject, constants: bool, out: &mut Vec<Span>)
    requires
        spec_code_wf(*code),
    ensures
        spans_view(final(out)@) == spans_view(old(out)@) + spec_render(*code, constants),
    decreases *code, 1int,
{
    let ghost base = spans_view(old(out)@);
    render_object_spans(code, out);
    if !constants {
        proof {
            assert(spans_view(out@) =~= base + spec_render(*code, constants));
        }
        return ;
    }
    let n = code.consts.len();
    let mut j: usize = 0;
    proof {
        assert(spans_view(out@) + spec_const_blocks(code.consts, 0) =~= base + spec_render(
            *code,
            true,
        ));
    }
    while j < n
        invariant
            j <= n,
            n == code.consts.len(),
            spec_code_wf(*code),
            spans_view(out@) + spec_const_blocks(code.consts, j as int) == base + spec_render(
                *code,
                true,
            ),
        decreases *code, 0int, n - j,
    {
        let cref = &code.consts[j];
        match cref {
            Constant::Code(b) => {
                proof {
                    lemma_consts_wf_at(code.consts, j as int);
                }
                let mut h = "Disassembly of ".to_owned();
                h.append(code_header(b).as_str());
                h.append(":\n");
                out.push(Span { tag: Tag::Plain, text: h });
                render_spans_into(b, true, out);
                proof {
                    assert(spans_view(out@) + spec_const_blocks(code.consts, j + 1) =~= base
                        + spec_render(*code, true));
                }
            },
            _ => {
                proof {
                    assert(spec_const_blocks(code.consts, j as int) == spec_const_blocks(
                        code.consts,
                        j + 1,
                    ));
                }
            },
        }
        j = j + 1;
    }
    proof {
        assert(spans_view(out@) =~= base + spec_render(*code, true));
    }
}

/// Renders `code` as tagged spans: the decoded, resolved disassembly of its
/// instruction block and, when `constants` is set, of every nested code
/// object in its constant pool.  An object whose stream ends mid
/// extension chain contributes the reported error in place of its block;
/// the other objects render in full.
pub fn disassemble_code_spans(code: &CodeObject, constants: bool) -> (r: Vec<Span>)
    requires
        spec_code_wf(*code),
    ensures
        spans_view(r@) == spec_render(*code, constants),
{
    let mut out: Vec<Span> = Vec::new();
    render_spans_into(code, constants, &mut out);
    proof {
        assert(spans_view(out@) =~= spec_render(*code, constants));
    }
    out
}

/// Flattens rendered spans to plain text, dropping the tags.
pub fn spans_to_string(v: &Vec<Span>) -> (r: String)
    ensures
        r@ == spans_text(spans_view(v@)),
{
    let mut r = String::new();
    let n = v.len();
    let mut k: usize = 0;
    while k < n
        invariant
            k <= n,
            n == v@.len(),
            r@ + spans_text_from(spans_view(v@), k as int) == spans_text(spans_view(v@)),
        decreases n - k,
    {
        r.append(v[k].text.as_str());
        k = k + 1;
    }
    proof {
        assert(r@ =~= spans_text(spans_view(v@)));
    }
    r
}

/// Disassembles `code` to plain text, and optionally the nested code
/// objects among its constants.  Total: any well-formed object renders; an
/// object whose stream ends mid extension chain is reported in place of
/// its block without stopping the others; and an object whose instruction
/// count exceeds the renderer's bound yields empty text instead of a
/// failure.
pub fn disassemble_code(code: &CodeObject, constants: bool) -> (r: String)
    ensures
        spec_code_wf(*code) ==> r@ == spans_text(spec_render(*code, constants)),
        !spec_code_wf(*code) ==> r@ == Seq::<char>::empty(),
{
    if code_wf(code) {
        let spans = disassemble_code_spans(code, constants);
        spans_to_string(&spans)
    } else {
        String::new()
    }
}

/// A truncated extension chain aborts exactly the object it belongs to:
/// the failed object's own block is replaced by the reported error, while
/// the blocks of the code objects nested in its constant pool -- and, when
/// the failure is in a nested object, every sibling block and the parent's
/// own block -- render exactly as they otherwise would.
pub proof fn lemma_truncated_chain_reported(code: CodeObject, constants: bool)
    requires
        spec_truncated_chain(code.generation, code.code@),
    ensures
        spec_render(code, constants) == spec_truncated_report() + if constants {
            spec_const_blocks(code.consts, 0)
        } else {
            Seq::<(Tag, Seq<char>)>::empty()
        },
{
}

/// Whenever a jump resolves to an in-range destination, that destination's
/// own output line carries the jump-target marker, whether or not any single
/// jump to it was valid.
pub proof fn lemma_marked_when_targeted(code: CodeObject, o: int, t: int)
    requires
        0 <= o < code.code@.len(),
        spec_jump_target(code.generation, code.code@, o) == Some(t),
    ensures
        spec_is_jump_target(code.generation, code.code@, t),
        spec_marker(code, t) == ">>"@,
{
    lemma_computed_target_is_mapped(code.generation, code.code@, o, t);
}

/// Rendering the same code object twice with the same configuration gives
/// the same tagged output, and therefore byte-identical text.
pub proof fn lemma_render_deterministic(
    code: CodeObject,
    constants: bool,
    r1: Seq<(Tag, Seq<char>)>,
    r2: Seq<(Tag, Seq<char>)>,
)
    requires
        r1 == spec_render(code, constants),
        r2 == spec_render(code, constants),
    ensures
        r1 == r2,
        spans_text(r1) == spans_text(r2),
{
}

} // verus!

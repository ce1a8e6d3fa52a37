use vstd::prelude::*;

use crate::schema::SchemaGeneration;
use crate::text::{spec_dec, spec_dec_signed, u64_dec};

verus! {

broadcast use vstd::std_specs::vec::axiom_vec_index_decreases;

/// One raw instruction slot: an opcode byte and an immediate operand byte.
#[derive(Clone, Copy, PartialEq, Eq, Structural, Debug)]
pub struct RawInstr {
    pub opcode: u8,
    pub arg: u8,
}

/// One constant-pool entry.  Scalars carry their value; anything the
/// renderer only ever shows as text (floats, arbitrary-precision integers,
/// frozen sets) arrives pre-rendered in `Other`.
pub enum Constant {
    NoneValue,
    StopIteration,
    Ellipsis,
    Bool(bool),
    Int(i64),
    Str(String),
    Bytes(Vec<u8>),
    Tuple(Vec<Constant>),
    List(Vec<Constant>),
    Code(Box<CodeObject>),
    Other(String),
}

/// One compiled unit, with its instruction slots and side tables already
/// materialized by a loader.  The layout of the local-variable tables is
/// generation dependent: generation 1 keeps separate varnames, cellvars and
/// freevars tables, generations 2 and 3 one unified locals-plus table.
pub struct CodeObject {
    pub generation: SchemaGeneration,
    pub code: Vec<RawInstr>,
    pub consts: Vec<Constant>,
    pub names: Vec<String>,
    pub varnames: Vec<String>,
    pub cellvars: Vec<String>,
    pub freevars: Vec<String>,
    pub localsplus: Vec<String>,
    pub name: String,
    pub qualname: String,
    pub filename: String,
    pub firstlineno: u32,
    pub linetable: Vec<u8>,
    /// Exception-table bytes of generations 2 and 3; carried with the
    /// object but not consumed by the disassembly itself.
    pub exceptiontable: Vec<u8>,
}

/// The largest instruction count the renderer accepts, so that byte offsets
/// and jump arithmetic stay comfortably inside machine integers.
pub open spec fn spec_max_code_len() -> int {
    0x3fffffff
}

/// Well-formedness of a code object: its own instruction count is bounded,
/// and so is that of every code object nested in its constant pool.
pub open spec fn spec_code_wf(c: CodeObject) -> bool
    decreases c, 1int,
{
    c.code@.len() <= spec_max_code_len() && spec_consts_wf(c.consts, 0)
}

/// Well-formedness of the constants `cs[i..]`.
pub open spec fn spec_consts_wf(cs: Vec<Constant>, i: int) -> bool
    decreases cs, 2int, cs.len() - i,
{
    if i < 0 || i >= cs.len() {
        true
    } else {
        spec_const_wf(cs[i]) && spec_consts_wf(cs, i + 1)
    }
}

/// Well-formedness of one constant-pool entry.
pub open spec fn spec_const_wf(c: Constant) -> bool
    decreases c, 3int,
{
    match c {
        Constant::Code(b) => spec_code_wf(*b),
        _ => true,
    }
}

/// Whether `c` and every code object nested in its constant pool stay under
/// the instruction-count bound.
pub fn code_wf(c: &CodeObject) -> (r: bool)
    ensures
        r == spec_code_wf(*c),
    decreases *c, 1int,
{
    if c.code.len() > 0x3fffffff {
        return false;
    }
    let mut i: usize = 0;
    let n = c.consts.len();
    while i < n
        invariant
            i <= n,
            n == c.consts.len(),
            c.code@.len() <= spec_max_code_len(),
            spec_consts_wf(c.consts, 0) == spec_consts_wf(c.consts, i as int),
        decreases *c, 0int, n - i,
    {
        let cref = &c.consts[i];
        let ok = match cref {
            Constant::Code(b) => code_wf(b),
            _ => true,
        };
        proof {
            assert(ok == spec_const_wf(c.consts[i as int]));
        }
        if !ok {
            proof {
                assert(!spec_consts_wf(c.consts, i as int));
            }
            return false;
        }
        i = i + 1;
        proof {
            assert(spec_consts_wf(c.consts, i - 1) == spec_consts_wf(c.consts, i as int));
        }
    }
    true
}

/// In a well-formed constant list, every entry is well formed.
pub proof fn lemma_consts_wf_at(cs: Vec<Constant>, j: int)
    requires
        spec_consts_wf(cs, 0),
        0 <= j < cs.len(),
    ensures
        spec_const_wf(cs[j]),
{
    lemma_consts_wf_from(cs, 0, j);
}

proof fn lemma_consts_wf_from(cs: Vec<Constant>, k: int, j: int)
    requires
        spec_consts_wf(cs, k),
        0 <= k <= j < cs.len(),
    ensures
        spec_const_wf(cs[j]),
    decreases j - k,
{
    if k < j {
        lemma_consts_wf_from(cs, k + 1, j);
    }
}

/// The rendered text of one constant, as the operand resolver and the
/// nested-object headers show it.
pub open spec fn spec_const_text(c: Constant) -> Seq<char>
    decreases c, 3int,
{
    match c {
        Constant::NoneValue => "None"@,
        Constant::StopIteration => "StopIteration"@,
        Constant::Ellipsis => "Ellipsis"@,
        Constant::Bool(b) => if b {
            "true"@
        } else {
            "false"@
        },
        Constant::Int(i) => spec_dec_signed(i as int),
        Constant::Str(s) => "'"@ + s@ + "'"@,
        Constant::Bytes(v) => "b["@ + spec_bytes_join(v, 0) + "]"@,
        Constant::Tuple(v) => "("@ + spec_consts_join(v, 0) + ")"@,
        Constant::List(v) => "["@ + spec_consts_join(v, 0) + "]"@,
        Constant::Code(b) => spec_code_header(*b),
        Constant::Other(s) => s@,
    }
}

/// The rendered texts of `v[i..]`, joined by a comma and a blank.
pub open spec fn spec_consts_join(v: Vec<Constant>, i: int) -> Seq<char>
    decreases v, 4int, v.len() - i,
{
    if i < 0 || i >= v.len() {
        Seq::empty()
    } else if i == 0 {
        spec_const_text(v[0]) + spec_consts_join(v, 1)
    } else {
        ", "@ + spec_const_text(v[i]) + spec_consts_join(v, i + 1)
    }
}

/// The decimal texts of the bytes `v[i..]`, joined by a comma and a blank.
pub open spec fn spec_bytes_join(v: Vec<u8>, i: int) -> Seq<char>
    decreases v.len() - i,
{
    if i < 0 || i >= v.len() {
        Seq::empty()
    } else if i == 0 {
        spec_dec(v[0] as int) + spec_bytes_join(v, 1)
    } else {
        ", "@ + spec_dec(v[i] as int) + spec_bytes_join(v, i + 1)
    }
}

/// The header line body that identifies a code object: its display name, its
/// source file and its first line number.
pub open spec fn spec_code_header(c: CodeObject) -> Seq<char> {
    "<code object "@ + c.name@ + ", file \""@ + c.filename@ + "\", line "@ + spec_dec(
        c.firstlineno as int,
    ) + ">"@
}

/// The decimal text of `n` even at the far end of the signed range.
pub fn i64_dec_total(n: i64) -> (r: String)
    ensures
        r@ == spec_dec_signed(n as int),
{
    if n >= 0 {
        u64_dec(n as u64)
    } else {
        proof {
            reveal_strlit("-");
        }
        let m: u64 = ((-(n + 1)) as u64) + 1;
        let mut s = "-".to_owned();
        s.append(u64_dec(m).as_str());
        proof {
            assert(s@ =~= spec_dec_signed(n as int));
        }
        s
    }
}

/// Renders one constant as the disassembly shows it.
pub fn const_text(c: &Constant) -> (r: String)
    ensures
        r@ == spec_const_text(*c),
    decreases *c, 3int,
{
    match c {
        Constant::NoneValue => "None".to_owned(),
        Constant::StopIteration => "StopIteration".to_owned(),
        Constant::Ellipsis => "Ellipsis".to_owned(),
        Constant::Bool(b) => if *b {
            "true".to_owned()
        } else {
            "false".to_owned()
        },
        Constant::Int(i) => i64_dec_total(*i),
        Constant::Str(s) => {
            let mut r = "'".to_owned();
            r.append(s.as_str());
            r.append("'");
            proof {
                assert(r@ =~= spec_const_text(*c));
            }
            r
        },
        Constant::Bytes(v) => {
            let mut r = "b[".to_owned();
            r.append(bytes_join(v).as_str());
            r.append("]");
            proof {
                assert(r@ =~= spec_const_text(*c));
            }
            r
        },
        Constant::Tuple(v) => {
            let mut r = "(".to_owned();
            r.append(consts_join(v).as_str());
            r.append(")");
            proof {
                assert(r@ =~= spec_const_text(*c));
            }
            r
        },
        Constant::List(v) => {
            let mut r = "[".to_owned();
            r.append(consts_join(v).as_str());
            r.append("]");
            proof {
                assert(r@ =~= spec_const_text(*c));
            }
            r
        },
        Constant::Code(b) => code_header(b),
        Constant::Other(s) => s.as_str().to_owned(),
    }
}

/// Renders the elements of a tuple or list constant, joined by ", ".
fn consts_join(v: &Vec<Constant>) -> (r: String)
    ensures
        r@ == spec_consts_join(*v, 0),
    decreases *v, 5int,
{
    let mut r = String::new();
    let n = v.len();
    let mut i: usize = 0;
    while i < n
        invariant
            i <= n,
            n == v.len(),
            r@ + spec_consts_join(*v, i as int) == spec_consts_join(*v, 0),
        decreases *v, 4int, n - i,
    {
        if i > 0 {
            r.append(", ");
        }
        let t = const_text(&v[i]);
        r.append(t.as_str());
        i = i + 1;
    }
    proof {
        assert(r@ =~= spec_consts_join(*v, 0));
    }
    r
}

/// Renders the bytes of a bytes constant, joined by ", ".
fn bytes_join(v: &Vec<u8>) -> (r: String)
    ensures
        r@ == spec_bytes_join(*v, 0),
{
    let mut r = String::new();
    let n = v.len();
    let mut i: usize = 0;
    while i < n
        invariant
            i <= n,
            n == v.len(),
            r@ + spec_bytes_join(*v, i as int) == spec_bytes_join(*v, 0),
        decreases n - i,
    {
        if i > 0 {
            r.append(", ");
        }
        let t = u64_dec(v[i] as u64);
        r.append(t.as_str());
        i = i + 1;
    }
    proof {
        assert(r@ =~= spec_bytes_join(*v, 0));
    }
    r
}

/// Renders the header that identifies `c` above its disassembly block.
pub fn code_header(c: &CodeObject) -> (r: String)
    ensures
        r@ == spec_code_header(*c),
{
    let mut r = "<code object ".to_owned();
    r.append(c.name.as_str());
    r.append(", file \"");
    r.append(c.filename.as_str());
    r.append("\", line ");
    r.append(u64_dec(c.firstlineno as u64).as_str());
    r.append(">");
    proof {
        assert(r@ =~= spec_code_header(*c));
    }
    r
}

} // verus!

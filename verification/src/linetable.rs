use vstd::prelude::*;

use crate::schema::SchemaGeneration;

verus! {

/// One decoded line-table entry: a half-open byte-offset range and the
/// source line its instructions belong to, absent for ranges the compiler
/// marked as carrying no line.
#[derive(Clone, Copy, PartialEq, Eq, Structural, Debug)]
pub struct LineEntry {
    pub start: u32,
    pub end: u32,
    pub line: Option<u32>,
}

/// `line` moved by `d` with saturation at both ends of the unsigned range.
pub open spec fn spec_sat_add(line: int, d: int) -> int {
    if line + d < 0 {
        0
    } else if line + d > u32::MAX {
        u32::MAX as int
    } else {
        line + d
    }
}

/// Decoding of the generation 1 compact line table from byte pair `k`
/// onward, with `line` the current line and `end` the byte offset reached
/// so far.  `None` means the table is malformed.
pub open spec fn spec_lines_gen1_rec(bytes: Seq<u8>, k: int, line: int, end: int) -> Option<
    Seq<LineEntry>,
>
    recommends
        0 <= line <= u32::MAX,
        0 <= end <= u32::MAX,
    decreases bytes.len() - k,
{
    if k < 0 || k + 2 > bytes.len() {
        Some(Seq::empty())
    } else {
        let sdelta = bytes[k] as int;
        let ldelta = bytes[k + 1] as i8 as int;
        if end + sdelta > u32::MAX {
            None
        } else {
            let new_end = end + sdelta;
            if ldelta == -128 {
                let entry = LineEntry {
                    start: end as u32,
                    end: new_end as u32,
                    line: None,
                };
                match spec_lines_gen1_rec(bytes, k + 2, line, new_end) {
                    Option::None => None,
                    Option::Some(rest) => Some(seq![entry] + rest),
                }
            } else {
                let new_line = spec_sat_add(line, ldelta);
                if new_end == end {
                    spec_lines_gen1_rec(bytes, k + 2, new_line, new_end)
                } else {
                    let entry = LineEntry {
                        start: end as u32,
                        end: new_end as u32,
                        line: Some(new_line as u32),
                    };
                    match spec_lines_gen1_rec(bytes, k + 2, new_line, new_end) {
                        Option::None => None,
                        Option::Some(rest) => Some(seq![entry] + rest),
                    }
                }
            }
        }
    }
}

/// The decoded generation 1 line table: byte pairs of offset delta and
/// signed line delta, where -128 marks a range without a line.  A table of
/// odd length is malformed.
pub open spec fn spec_lines_gen1(bytes: Seq<u8>, firstline: u32) -> Option<Seq<LineEntry>> {
    if bytes.len() % 2 != 0 {
        None
    } else {
        spec_lines_gen1_rec(bytes, 0, firstline as int, 0)
    }
}

/// One variable-length unsigned integer of the generation 2 and 3 location
/// format, read from position `i`: six value bits per byte, low chunk
/// first, bit 0x40 asking for another byte.  Running out of bytes ends the
/// value silently; more than 32 bits of chunks is malformed.
pub open spec fn spec_varint_rec(bytes: Seq<u8>, i: int, shift: nat, acc: u32) -> Option<
    (u32, int),
>
    decreases bytes.len() - i,
{
    if i < 0 || i >= bytes.len() {
        Some((acc, i))
    } else {
        let b = bytes[i];
        let acc2 = (acc | (((b & 0x3f) as u32) << shift)) as u32;
        if b & 0x40 == 0 {
            Some((acc2, i + 1))
        } else if shift + 6 >= 32 {
            None
        } else {
            spec_varint_rec(bytes, i + 1, shift + 6, acc2)
        }
    }
}

pub open spec fn spec_varint(bytes: Seq<u8>, i: int) -> Option<(u32, int)> {
    spec_varint_rec(bytes, i, 0, 0)
}

/// The signed form: the low bit of the unsigned value selects the sign of
/// the remaining bits.
pub open spec fn spec_svarint(bytes: Seq<u8>, i: int) -> Option<(int, int)> {
    match spec_varint(bytes, i) {
        Option::None => None,
        Option::Some((u, next)) => {
            let half = (u >> 1) as int;
            if u & 1 != 0 {
                Some((-half, next))
            } else {
                Some((half, next))
            }
        },
    }
}

/// The line delta and following position for one location entry of kind
/// `cod` whose payload starts at `i`.  `None` means the table is malformed.
pub open spec fn spec_entry_delta(bytes: Seq<u8>, i: int, cod: u8) -> Option<(int, int)> {
    if cod <= 9 {
        // Short form: one packed column byte, no line change.
        if i >= bytes.len() {
            None
        } else {
            Some((0, i + 1))
        }
    } else if cod <= 12 {
        // One-line form: two column bytes, line delta written in the kind.
        if i + 1 >= bytes.len() {
            None
        } else {
            Some(((cod - 10) as int, i + 2))
        }
    } else if cod == 13 {
        // No column info: a signed line delta alone.
        spec_svarint(bytes, i)
    } else if cod == 14 {
        // Long form: a signed line delta, then an end-line delta and two
        // column values that the renderer does not use.
        match spec_svarint(bytes, i) {
            Option::None => None,
            Option::Some((d, i1)) => match spec_varint(bytes, i1) {
                Option::None => None,
                Option::Some((_e, i2)) => match spec_varint(bytes, i2) {
                    Option::None => None,
                    Option::Some((_c1, i3)) => match spec_varint(bytes, i3) {
                        Option::None => None,
                        Option::Some((_c2, i4)) => Some((d, i4)),
                    },
                },
            },
        }
    } else {
        // Kind 15: no location at all.
        Some((0, i))
    }
}

/// Decoding of the generation 2 and 3 location table from position `i`
/// onward.  Every entry starts with a byte whose high bit is set and covers
/// `(low bits) + 1` instruction slots.
pub open spec fn spec_lines_gen2_rec(bytes: Seq<u8>, i: int, line: int, offset: int) -> Option<
    Seq<LineEntry>,
>
    recommends
        0 <= line <= u32::MAX,
        0 <= offset <= u32::MAX,
    decreases bytes.len() - i,
{
    if i < 0 || i >= bytes.len() {
        Some(Seq::empty())
    } else {
        let fb = bytes[i];
        if fb & 0x80 == 0 {
            None
        } else {
            let cod = (fb >> 3) & 0x0f;
            let length = ((fb & 0x07) + 1) as int;
            match spec_entry_delta(bytes, i + 1, cod) {
                Option::None => None,
                Option::Some((delta, next)) => {
                    let bounded_next = if next < i + 1 {
                        i + 1
                    } else if next > bytes.len() {
                        bytes.len() as int
                    } else {
                        next
                    };
                    let line2 = line + delta;
                    if line2 < 0 || line2 > u32::MAX {
                        None
                    } else if offset + length * 2 > u32::MAX {
                        None
                    } else {
                        let end = offset + length * 2;
                        let entry = LineEntry {
                            start: offset as u32,
                            end: end as u32,
                            line: if cod == 15 {
                                None
                            } else {
                                Some(line2 as u32)
                            },
                        };
                        match spec_lines_gen2_rec(bytes, bounded_next, line2, end) {
                            Option::None => None,
                            Option::Some(rest) => Some(seq![entry] + rest),
                        }
                    }
                },
            }
        }
    }
}

/// The decoded generation 2 or 3 location table.
pub open spec fn spec_lines_gen2(bytes: Seq<u8>, firstline: u32) -> Option<Seq<LineEntry>> {
    spec_lines_gen2_rec(bytes, 0, firstline as int, 0)
}

/// The decoded line table of a code object, or `None` when its bytes are
/// malformed, in which case the whole object degrades to no line
/// information instead of failing.
pub open spec fn spec_co_lines(g: SchemaGeneration, bytes: Seq<u8>, firstline: u32) -> Option<
    Seq<LineEntry>,
> {
    match g {
        SchemaGeneration::Gen1 => spec_lines_gen1(bytes, firstline),
        SchemaGeneration::Gen2 => spec_lines_gen2(bytes, firstline),
        SchemaGeneration::Gen3 => spec_lines_gen2(bytes, firstline),
    }
}

/// The line number shown at instruction index `index`, walking the entries
/// with `cur` the line last shown: an entry gets its line printed only at
/// its first instruction and only when the line differs from the last
/// non-empty line before it.
pub open spec fn spec_starts_line_rec(
    entries: Seq<LineEntry>,
    k: int,
    cur: Option<u32>,
    index: int,
) -> Option<u32>
    decreases entries.len() - k,
{
    if k < 0 || k >= entries.len() {
        None
    } else {
        let e = entries[k];
        if e.line is Some && cur != e.line {
            if e.start == 2 * index {
                e.line
            } else {
                spec_starts_line_rec(entries, k + 1, e.line, index)
            }
        } else {
            spec_starts_line_rec(entries, k + 1, cur, index)
        }
    }
}

/// The line number to print beside instruction `index`, if a new line
/// group starts there.
pub open spec fn spec_starts_line(entries: Seq<LineEntry>, index: int) -> Option<u32> {
    spec_starts_line_rec(entries, 0, None, index)
}

/// The largest line number among `entries[k..]`, or 0 if none carries one.
pub open spec fn spec_max_line_rec(entries: Seq<LineEntry>, k: int) -> int
    decreases entries.len() - k,
{
    if k < 0 || k >= entries.len() {
        0
    } else {
        let rest = spec_max_line_rec(entries, k + 1);
        match entries[k].line {
            Option::None => rest,
            Option::Some(l) => if l as int > rest {
                l as int
            } else {
                rest
            },
        }
    }
}

pub open spec fn spec_max_line(entries: Seq<LineEntry>) -> int {
    spec_max_line_rec(entries, 0)
}

/// The entries of `es` tile the byte offsets from `start` without gaps or
/// overlaps: the first entry begins at `start` and each entry begins where
/// its predecessor ended.
pub open spec fn spec_contiguous_from(es: Seq<LineEntry>, start: int) -> bool {
    &&& (es.len() > 0 ==> es[0].start == start)
    &&& forall|j: int| 0 <= j < es.len() - 1 ==> (#[trigger] es[j + 1].start) == es[j].end
}

proof fn lemma_gen1_rec_contiguous(bytes: Seq<u8>, k: int, line: int, end: int)
    requires
        0 <= end <= u32::MAX,
        spec_lines_gen1_rec(bytes, k, line, end) is Some,
    ensures
        spec_contiguous_from(spec_lines_gen1_rec(bytes, k, line, end)->0, end),
        forall|j: int|
            0 <= j < spec_lines_gen1_rec(bytes, k, line, end)->0.len()
                ==> (#[trigger] spec_lines_gen1_rec(bytes, k, line, end)->0[j].start)
                <= spec_lines_gen1_rec(bytes, k, line, end)->0[j].end,
    decreases bytes.len() - k,
{
    if k < 0 || k + 2 > bytes.len() {
    } else {
        let sdelta = bytes[k] as int;
        let ldelta = bytes[k + 1] as i8 as int;
        if end + sdelta <= u32::MAX {
            let new_end = end + sdelta;
            let line2 = if ldelta == -128 {
                line
            } else {
                spec_sat_add(line, ldelta)
            };
            lemma_gen1_rec_contiguous(bytes, k + 2, line2, new_end);
            let es = spec_lines_gen1_rec(bytes, k, line, end)->0;
            let rest = spec_lines_gen1_rec(bytes, k + 2, line2, new_end)->0;
            if ldelta == -128 || new_end != end {
                assert(es == seq![es[0]] + rest);
                assert(es[0].start == end && es[0].end == new_end);
                assert forall|j: int| 0 <= j < es.len() - 1 implies (#[trigger] es[j + 1].start)
                    == es[j].end by {
                    assert(es[j + 1] == rest[j]);
                    if j == 0 {
                        assert(rest.len() > 0 && rest[0].start == new_end);
                    } else {
                        assert(es[j] == rest[j - 1]);
                        assert(rest[(j - 1) + 1].start == rest[j - 1].end);
                    }
                }
                assert forall|j: int| 0 <= j < es.len() implies (#[trigger] es[j].start)
                    <= es[j].end by {
                    if j > 0 {
                        assert(es[j] == rest[j - 1]);
                    }
                }
            }
        }
    }
}

proof fn lemma_gen2_rec_contiguous(bytes: Seq<u8>, i: int, line: int, offset: int)
    requires
        0 <= offset <= u32::MAX,
        spec_lines_gen2_rec(bytes, i, line, offset) is Some,
    ensures
        spec_contiguous_from(spec_lines_gen2_rec(bytes, i, line, offset)->0, offset),
        forall|j: int|
            0 <= j < spec_lines_gen2_rec(bytes, i, line, offset)->0.len()
                ==> (#[trigger] spec_lines_gen2_rec(bytes, i, line, offset)->0[j].start)
                <= spec_lines_gen2_rec(bytes, i, line, offset)->0[j].end,
    decreases bytes.len() - i,
{
    if i < 0 || i >= bytes.len() {
    } else {
        let fb = bytes[i];
        let cod = (fb >> 3) & 0x0f;
        match spec_entry_delta(bytes, i + 1, cod) {
            Option::None => {},
            Option::Some((delta, next)) => {
                let bounded_next = if next < i + 1 {
                    i + 1
                } else if next > bytes.len() {
                    bytes.len() as int
                } else {
                    next
                };
                let length = ((fb & 0x07) + 1) as int;
                let line2 = line + delta;
                if 0 <= line2 <= u32::MAX && offset + length * 2 <= u32::MAX {
                    let end = offset + length * 2;
                    lemma_gen2_rec_contiguous(bytes, bounded_next, line2, end);
                    let es = spec_lines_gen2_rec(bytes, i, line, offset)->0;
                    let rest = spec_lines_gen2_rec(bytes, bounded_next, line2, end)->0;
                    assert(es == seq![es[0]] + rest);
                    assert(es[0].start == offset && es[0].end == end);
                    assert forall|j: int| 0 <= j < es.len() - 1 implies (#[trigger] es[j
                        + 1].start) == es[j].end by {
                        assert(es[j + 1] == rest[j]);
                        if j == 0 {
                            assert(rest.len() > 0 && rest[0].start == end);
                        } else {
                            assert(es[j] == rest[j - 1]);
                            assert(rest[(j - 1) + 1].start == rest[j - 1].end);
                        }
                    }
                    assert forall|j: int| 0 <= j < es.len() implies (#[trigger] es[j].start)
                        <= es[j].end by {
                        if j > 0 {
                            assert(es[j] == rest[j - 1]);
                        }
                    }
                }
            },
        }
    }
}

/// Whenever a line table decodes at all, its entries tile the byte offsets
/// from zero upward: no gaps, no overlaps, each range starting where the
/// one before it ended.
pub proof fn lemma_line_entries_contiguous(g: SchemaGeneration, bytes: Seq<u8>, firstline: u32)
    requires
        spec_co_lines(g, bytes, firstline) is Some,
    ensures
        spec_contiguous_from(spec_co_lines(g, bytes, firstline)->0, 0),
        forall|j: int|
            0 <= j < spec_co_lines(g, bytes, firstline)->0.len()
                ==> (#[trigger] spec_co_lines(g, bytes, firstline)->0[j].start)
                <= spec_co_lines(g, bytes, firstline)->0[j].end,
{
    match g {
        SchemaGeneration::Gen1 => lemma_gen1_rec_contiguous(bytes, 0, firstline as int, 0),
        SchemaGeneration::Gen2 => lemma_gen2_rec_contiguous(bytes, 0, firstline as int, 0),
        SchemaGeneration::Gen3 => lemma_gen2_rec_contiguous(bytes, 0, firstline as int, 0),
    }
}

/// Reads one variable-length unsigned integer starting at `i`.
fn read_varint(bytes: &Vec<u8>, i: usize) -> (r: Option<(u32, usize)>)
    requires
        i <= bytes@.len(),
    ensures
        r is Some <==> spec_varint(bytes@, i as int) is Some,
        r matches Some(p) ==> spec_varint(bytes@, i as int) == Some((p.0, p.1 as int)) && i
            <= p.1 <= bytes@.len(),
{
    let mut acc: u32 = 0;
    let mut shift: u32 = 0;
    let mut j: usize = i;
    loop
        invariant
            i <= j <= bytes@.len(),
            shift < 32,
            spec_varint(bytes@, i as int) == spec_varint_rec(bytes@, j as int, shift as nat, acc),
        decreases bytes@.len() - j,
    {
        if j >= bytes.len() {
            return Some((acc, j));
        }
        let b = bytes[j];
        acc = acc | (((b & 0x3f) as u32) << shift);
        j = j + 1;
        if b & 0x40 == 0 {
            return Some((acc, j));
        }
        if shift + 6 >= 32 {
            return None;
        }
        shift = shift + 6;
    }
}

/// Reads one signed variable-length integer starting at `i`.
fn read_svarint(bytes: &Vec<u8>, i: usize) -> (r: Option<(i32, usize)>)
    requires
        i <= bytes@.len(),
    ensures
        r is Some <==> spec_svarint(bytes@, i as int) is Some,
        r matches Some(p) ==> spec_svarint(bytes@, i as int) == Some((p.0 as int, p.1 as int))
            && i <= p.1 <= bytes@.len(),
{
    match read_varint(bytes, i) {
        Option::None => None,
        Option::Some((u, next)) => {
            let half = u >> 1u32;
            proof {
                assert(u >> 1u32 < 0x80000000u32) by (bit_vector);
            }
            if u & 1 != 0 {
                Some((-(half as i32), next))
            } else {
                Some((half as i32, next))
            }
        },
    }
}

/// Decodes the generation 1 line table.
fn co_lines_gen1(bytes: &Vec<u8>, firstline: u32) -> (r: Option<Vec<LineEntry>>)
    ensures
        r is Some <==> spec_lines_gen1(bytes@, firstline) is Some,
        r matches Some(v) ==> spec_lines_gen1(bytes@, firstline) == Some(v@),
{
    if bytes.len() % 2 != 0 {
        return None;
    }
    let mut out: Vec<LineEntry> = Vec::new();
    let mut k: usize = 0;
    let mut line: u32 = firstline;
    let mut end: u32 = 0;
    while k < bytes.len()
        invariant
            k <= bytes@.len(),
            bytes@.len() % 2 == 0,
            k % 2 == 0,
            spec_lines_gen1(bytes@, firstline) == (match spec_lines_gen1_rec(
                bytes@,
                k as int,
                line as int,
                end as int,
            ) {
                Option::None => Option::<Seq<LineEntry>>::None,
                Option::Some(rest) => Option::Some(out@ + rest),
            }),
        decreases bytes@.len() - k,
    {
        let sdelta = bytes[k];
        let ldelta = bytes[k + 1] as i8;
        if end as u64 + sdelta as u64 > u32::MAX as u64 {
            return None;
        }
        let new_end: u32 = end + sdelta as u32;
        if ldelta == -128 {
            out.push(
                LineEntry {
                    start: end,
                    end: new_end,
                    line: None,
                },
            );
        } else {
            let d = ldelta as i64;
            let moved = line as i64 + d;
            line = if moved < 0 {
                0
            } else if moved > u32::MAX as i64 {
                u32::MAX
            } else {
                moved as u32
            };
            if new_end != end {
                out.push(
                    LineEntry {
                        start: end,
                        end: new_end,
                        line: Some(line),
                    },
                );
            }
        }
        end = new_end;
        k = k + 2;
        proof {
            assert(spec_lines_gen1(bytes@, firstline) == (match spec_lines_gen1_rec(
                bytes@,
                k as int,
                line as int,
                end as int,
            ) {
                Option::None => Option::<Seq<LineEntry>>::None,
                Option::Some(rest) => Option::Some(out@ + rest),
            }));
        }
    }
    proof {
        assert(out@ + Seq::<LineEntry>::empty() =~= out@);
    }
    Some(out)
}

/// Decodes the generation 2 and 3 location table.
fn co_lines_gen2(bytes: &Vec<u8>, firstline: u32) -> (r: Option<Vec<LineEntry>>)
    ensures
        r is Some <==> spec_lines_gen2(bytes@, firstline) is Some,
        r matches Some(v) ==> spec_lines_gen2(bytes@, firstline) == Some(v@),
{
    let mut out: Vec<LineEntry> = Vec::new();
    let mut i: usize = 0;
    let mut line: u32 = firstline;
    let mut offset: u32 = 0;
    while i < bytes.len()
        invariant
            i <= bytes@.len(),
            spec_lines_gen2(bytes@, firstline) == (match spec_lines_gen2_rec(
                bytes@,
                i as int,
                line as int,
                offset as int,
            ) {
                Option::None => Option::<Seq<LineEntry>>::None,
                Option::Some(rest) => Option::Some(out@ + rest),
            }),
        decreases bytes@.len() - i,
    {
        let fb = bytes[i];
        if fb & 0x80 == 0 {
            return None;
        }
        let cod = (fb >> 3u8) & 0x0f;
        proof {
            assert((fb & 0x07) <= 7 && ((fb >> 3u8) & 0x0f) <= 15) by (bit_vector);
        }
        let length: u32 = ((fb & 0x07) as u32) + 1;
        let delta_next: Option<(i32, usize)> = if cod <= 9 {
            if bytes.len() - i <= 1 {
                None
            } else {
                Some((0, i + 2))
            }
        } else if cod <= 12 {
            if bytes.len() - i <= 2 {
                None
            } else {
                Some(((cod - 10) as i32, i + 3))
            }
        } else if cod == 13 {
            read_svarint(bytes, i + 1)
        } else if cod == 14 {
            match read_svarint(bytes, i + 1) {
                Option::None => None,
                Option::Some((d, i1)) => match read_varint(bytes, i1) {
                    Option::None => None,
                    Option::Some((_e, i2)) => match read_varint(bytes, i2) {
                        Option::None => None,
                        Option::Some((_c1, i3)) => match read_varint(bytes, i3) {
                            Option::None => None,
                            Option::Some((_c2, i4)) => Some((d, i4)),
                        },
                    },
                },
            }
        } else {
            Some((0, i + 1))
        };
        match delta_next {
            Option::None => {
                return None;
            },
            Option::Some((delta, next)) => {
                if next <= i {
                    return None;
                }
                let line2 = line as i64 + delta as i64;
                if line2 < 0 || line2 > u32::MAX as i64 {
                    return None;
                }
                if offset as u64 + (length as u64) * 2 > u32::MAX as u64 {
                    return None;
                }
                let end: u32 = offset + (length as u32) * 2;
                let entry = LineEntry {
                    start: offset,
                    end: end,
                    line: if cod == 15 {
                        None
                    } else {
                        Some(line2 as u32)
                    },
                };
                out.push(entry);
                line = line2 as u32;
                offset = end;
                i = next;
                proof {
                    assert(spec_lines_gen2(bytes@, firstline) == (match spec_lines_gen2_rec(
                        bytes@,
                        i as int,
                        line as int,
                        offset as int,
                    ) {
                        Option::None => Option::<Seq<LineEntry>>::None,
                        Option::Some(rest) => Option::Some(out@ + rest),
                    }));
                }
            },
        }
    }
    proof {
        assert(out@ + Seq::<LineEntry>::empty() =~= out@);
    }
    Some(out)
}

/// Decodes a code object's compact line table.  `None` reports malformed
/// bytes; the caller then renders the object without line numbers rather
/// than failing.
pub fn co_lines(g: SchemaGeneration, bytes: &Vec<u8>, firstline: u32) -> (r: Option<
    Vec<LineEntry>,
>)
    ensures
        r is Some <==> spec_co_lines(g, bytes@, firstline) is Some,
        r matches Some(v) ==> spec_co_lines(g, bytes@, firstline) == Some(v@),
{
    match g {
        SchemaGeneration::Gen1 => co_lines_gen1(bytes, firstline),
        SchemaGeneration::Gen2 => co_lines_gen2(bytes, firstline),
        SchemaGeneration::Gen3 => co_lines_gen2(bytes, firstline),
    }
}

/// The line number to print beside instruction `index`, if a new line group
/// starts there: the first instruction of a range whose line differs from
/// the last line shown.
pub fn starts_line_number(entries: &Vec<LineEntry>, index: usize) -> (r: Option<u32>)
    requires
        index <= 0x3fffffff,
    ensures
        r == spec_starts_line(entries@, index as int),
{
    let mut cur: Option<u32> = None;
    let mut k: usize = 0;
    let n = entries.len();
    while k < n
        invariant
            k <= n,
            n == entries@.len(),
            index <= 0x3fffffff,
            spec_starts_line(entries@, index as int) == spec_starts_line_rec(
                entries@,
                k as int,
                cur,
                index as int,
            ),
        decreases n - k,
    {
        let e = entries[k];
        let differs = match (e.line, cur) {
            (Option::Some(l), Option::Some(c)) => l != c,
            (Option::Some(_l), Option::None) => true,
            _ => false,
        };
        if differs {
            if e.start as u64 == 2 * (index as u64) {
                return e.line;
            }
            cur = e.line;
        }
        k = k + 1;
    }
    None
}

/// The largest line number any entry carries, or 0 with no entries.
pub fn max_line(entries: &Vec<LineEntry>) -> (r: u32)
    ensures
        r as int == spec_max_line(entries@),
{
    let mut best: u32 = 0;
    let mut k: usize = entries.len();
    while k > 0
        invariant
            k <= entries@.len(),
            best as int == spec_max_line_rec(entries@, k as int),
        decreases k,
    {
        k = k - 1;
        match entries[k].line {
            Option::Some(l) => {
                if l > best {
                    best = l;
                }
            },
            Option::None => {},
        }
    }
    best
}

} // verus!

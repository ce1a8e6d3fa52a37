use vstd::prelude::*;

use crate::schema::SchemaGeneration;

verus! {

/// Errors at the boundary, before any per-instruction work begins.
#[derive(Clone, Copy, PartialEq, Eq, Structural, Debug)]
pub enum VersionError {
    /// The version text is not two dot-separated decimal numbers in range.
    MalformedVersion,
    /// The version names a bytecode layout this library does not implement.
    UnsupportedSchemaGeneration,
}

/// An ASCII decimal digit.
pub open spec fn spec_is_digit(b: u8) -> bool {
    48 <= b <= 57
}

/// Every byte of `s[i..j)` is a decimal digit.
pub open spec fn spec_all_digits(s: Seq<u8>, i: int, j: int) -> bool {
    forall|k: int| i <= k < j ==> spec_is_digit(#[trigger] s[k])
}

/// The decimal value of the digit text `s[i..j)`.
pub open spec fn spec_num_value(s: Seq<u8>, i: int, j: int) -> int
    decreases j - i,
{
    if i >= j {
        0
    } else {
        spec_num_value(s, i, j - 1) * 10 + (s[j - 1] - 48)
    }
}

/// The first position at or past `k` holding a dot, or the length.
pub open spec fn spec_find_dot(s: Seq<u8>, k: int) -> int
    decreases s.len() - k,
{
    if k < 0 || k >= s.len() {
        s.len() as int
    } else if s[k] == 46 {
        k
    } else {
        spec_find_dot(s, k + 1)
    }
}

/// The parse of a version text: exactly one dot, a nonempty run of digits
/// on either side, both values at most 255.
pub open spec fn spec_parse_version(s: Seq<u8>) -> Option<(u8, u8)> {
    let d = spec_find_dot(s, 0);
    if d == s.len() {
        None
    } else if spec_find_dot(s, d + 1) != s.len() {
        None
    } else if d == 0 || !spec_all_digits(s, 0, d) {
        None
    } else if d + 1 == s.len() || !spec_all_digits(s, d + 1, s.len() as int) {
        None
    } else if spec_num_value(s, 0, d) > 255 || spec_num_value(s, d + 1, s.len() as int) > 255 {
        None
    } else {
        Some((spec_num_value(s, 0, d) as u8, spec_num_value(s, d + 1, s.len() as int) as u8))
    }
}

/// A digit string is worth no less than any of its prefixes.
proof fn lemma_num_value_grows(s: Seq<u8>, i: int, k: int, j: int)
    requires
        0 <= i <= k <= j <= s.len(),
        spec_all_digits(s, i, j),
    ensures
        spec_num_value(s, i, j) >= spec_num_value(s, i, k),
        spec_num_value(s, i, k) >= 0,
    decreases j - k,
{
    if k == j {
        lemma_num_value_nonneg(s, i, j);
    } else {
        lemma_num_value_grows(s, i, k, j - 1);
        lemma_num_value_nonneg(s, i, k);
    }
}

proof fn lemma_num_value_nonneg(s: Seq<u8>, i: int, j: int)
    requires
        0 <= i <= j <= s.len(),
        spec_all_digits(s, i, j),
    ensures
        spec_num_value(s, i, j) >= 0,
    decreases j - i,
{
    if i < j {
        lemma_num_value_nonneg(s, i, j - 1);
    }
}

/// Parses the digit text `s[i..j)` as a number of at most 255.
fn parse_u8_range(s: &[u8], i: usize, j: usize) -> (r: Option<u8>)
    requires
        i <= j <= s@.len(),
    ensures
        r is Some <==> i < j && spec_all_digits(s@, i as int, j as int) && spec_num_value(
            s@,
            i as int,
            j as int,
        ) <= 255,
        r matches Some(v) ==> v as int == spec_num_value(s@, i as int, j as int),
{
    if i >= j {
        return None;
    }
    let mut acc: u32 = 0;
    let mut k: usize = i;
    while k < j
        invariant
            i <= k <= j <= s@.len(),
            acc <= 255,
            spec_all_digits(s@, i as int, k as int),
            acc as int == spec_num_value(s@, i as int, k as int),
        decreases j - k,
    {
        let b = s[k];
        if b < 48 || b > 57 {
            return None;
        }
        acc = acc * 10 + ((b - 48) as u32);
        k = k + 1;
        if acc > 255 {
            proof {
                if spec_all_digits(s@, i as int, j as int) {
                    lemma_num_value_grows(s@, i as int, k as int, j as int);
                }
            }
            return None;
        }
    }
    Some(acc as u8)
}

/// The position of the first dot at or past `k`, or the length.
fn find_dot(s: &[u8], k: usize) -> (r: usize)
    requires
        k <= s@.len(),
    ensures
        r as int == spec_find_dot(s@, k as int),
        k <= r <= s@.len(),
{
    let mut p: usize = k;
    while p < s.len()
        invariant
            k <= p <= s@.len(),
            spec_find_dot(s@, k as int) == spec_find_dot(s@, p as int),
        decreases s@.len() - p,
    {
        if s[p] == 46 {
            return p;
        }
        p = p + 1;
    }
    p
}

/// Parses a version given as text, such as a major and minor number joined
/// by a dot.  Returns the malformed-version error exactly when the text is
/// not two dot-separated decimal numbers of at most 255 each.
pub fn parse_python_version(s: &[u8]) -> (r: Result<(u8, u8), VersionError>)
    ensures
        r is Ok <==> spec_parse_version(s@) is Some,
        r matches Ok(v) ==> spec_parse_version(s@) == Some(v),
        r is Err ==> r == Result::<(u8, u8), VersionError>::Err(VersionError::MalformedVersion),
{
    let d = find_dot(s, 0);
    if d == s.len() {
        return Err(VersionError::MalformedVersion);
    }
    if find_dot(s, d + 1) != s.len() {
        return Err(VersionError::MalformedVersion);
    }
    let major = match parse_u8_range(s, 0, d) {
        Option::Some(v) => v,
        Option::None => {
            return Err(VersionError::MalformedVersion);
        },
    };
    let minor = match parse_u8_range(s, d + 1, s.len()) {
        Option::Some(v) => v,
        Option::None => {
            return Err(VersionError::MalformedVersion);
        },
    };
    Ok((major, minor))
}

/// The schema generation this library implements for a runtime version, if
/// any.
pub open spec fn spec_generation_of(major: u8, minor: u8) -> Option<SchemaGeneration> {
    if major == 3 && minor == 10 {
        Some(SchemaGeneration::Gen1)
    } else if major == 3 && minor == 11 {
        Some(SchemaGeneration::Gen2)
    } else if major == 3 && minor == 13 {
        Some(SchemaGeneration::Gen3)
    } else {
        None
    }
}

/// Maps a runtime version to the generation that decodes it.  Any other
/// version is refused at the boundary, before per-instruction work.
pub fn generation_of_version(major: u8, minor: u8) -> (r: Result<SchemaGeneration, VersionError>)
    ensures
        r is Ok <==> spec_generation_of(major, minor) is Some,
        r matches Ok(g) ==> spec_generation_of(major, minor) == Some(g),
        r is Err ==> r == Result::<SchemaGeneration, VersionError>::Err(
            VersionError::UnsupportedSchemaGeneration,
        ),
{
    if major == 3 && minor == 10 {
        Ok(SchemaGeneration::Gen1)
    } else if major == 3 && minor == 11 {
        Ok(SchemaGeneration::Gen2)
    } else if major == 3 && minor == 13 {
        Ok(SchemaGeneration::Gen3)
    } else {
        Err(VersionError::UnsupportedSchemaGeneration)
    }
}

/// What an input file's extension says about its payload.
#[derive(Clone, Copy, PartialEq, Eq, Structural, Debug)]
pub enum InputKind {
    /// A self-describing container; its header carries the version, and an
    /// explicit version selector is ignored.
    SelfDescribing,
    /// Source text, which this tool does not read; the payload is still
    /// tried as a bare instruction-table payload, with a version required.
    SourceText,
    /// A bare payload; an explicit version selector is required.
    RawPayload,
}

/// `b` lowered to its ASCII lower-case form.
pub open spec fn spec_ascii_lower(b: u8) -> u8 {
    if 65 <= b <= 90 {
        (b + 32) as u8
    } else {
        b
    }
}

/// The extension, lowered, equals the given text.
pub open spec fn spec_ext_is(ext: Seq<u8>, word: Seq<u8>) -> bool {
    ext.map_values(|b: u8| spec_ascii_lower(b)) == word
}

/// Classifies an input file by its extension, compared without regard to
/// case: a self-describing container, source text, or a bare payload.
pub fn classify_input(ext: &[u8]) -> (r: InputKind)
    ensures
        spec_ext_is(ext@, "pyc"@.map_values(|c: char| c as u8)) ==> r == InputKind::SelfDescribing,
        spec_ext_is(ext@, "py"@.map_values(|c: char| c as u8)) ==> r == InputKind::SourceText,
        !spec_ext_is(ext@, "pyc"@.map_values(|c: char| c as u8)) && !spec_ext_is(
            ext@,
            "py"@.map_values(|c: char| c as u8),
        ) ==> r == InputKind::RawPayload,
{
    proof {
        reveal_strlit("pyc");
        reveal_strlit("py");
    }
    let ghost pycw = "pyc"@.map_values(|c: char| c as u8);
    let ghost pyw = "py"@.map_values(|c: char| c as u8);
    let ghost low = ext@.map_values(|x: u8| spec_ascii_lower(x));
    proof {
        assert(pycw.len() == 3 && pycw[0] == 112 && pycw[1] == 121 && pycw[2] == 99);
        assert(pyw.len() == 2 && pyw[0] == 112 && pyw[1] == 121);
        assert(low.len() == ext@.len());
    }
    if ext.len() == 3 {
        let la = lower_byte(ext[0]);
        let lb = lower_byte(ext[1]);
        let lc = lower_byte(ext[2]);
        proof {
            assert(low[0] == spec_ascii_lower(ext@[0]));
            assert(low[1] == spec_ascii_lower(ext@[1]));
            assert(low[2] == spec_ascii_lower(ext@[2]));
            assert(!spec_ext_is(ext@, pyw));
        }
        if la == 112 && lb == 121 && lc == 99 {
            proof {
                assert(low =~= pycw);
            }
            InputKind::SelfDescribing
        } else {
            proof {
                assert(low != pycw);
            }
            InputKind::RawPayload
        }
    } else if ext.len() == 2 {
        let la = lower_byte(ext[0]);
        let lb = lower_byte(ext[1]);
        proof {
            assert(low[0] == spec_ascii_lower(ext@[0]));
            assert(low[1] == spec_ascii_lower(ext@[1]));
            assert(!spec_ext_is(ext@, pycw));
        }
        if la == 112 && lb == 121 {
            proof {
                assert(low =~= pyw);
            }
            InputKind::SourceText
        } else {
            proof {
                assert(low != pyw);
            }
            InputKind::RawPayload
        }
    } else {
        proof {
            assert(!spec_ext_is(ext@, pycw));
            assert(!spec_ext_is(ext@, pyw));
        }
        InputKind::RawPayload
    }
}

/// Lowers one ASCII byte.
fn lower_byte(b: u8) -> (r: u8)
    ensures
        r == spec_ascii_lower(b),
{
    if 65 <= b && b <= 90 {
        b + 32
    } else {
        b
    }
}

} // verus!

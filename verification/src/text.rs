use vstd::prelude::*;

verus! {

/// How a run of rendered text should be highlighted by a presentation layer.
/// The renderer itself never emits escape codes; it only tags the spans that
/// a caller may want to set apart.
#[derive(Clone, Copy, PartialEq, Eq, Structural, Debug)]
pub enum Tag {
    Plain,
    /// A whole output line for an instruction whose opcode byte is unknown.
    InvalidOpcode,
    /// The byte offset of a jump whose computed target is out of range.
    InvalidTarget,
    /// An out-of-range side-table index marker.
    InvalidIndex,
    /// An object-level structural failure report, standing in place of the
    /// instruction block of the one object it aborted.
    ObjectError,
}

/// One run of output text under a single structural tag.
#[derive(Debug)]
pub struct Span {
    pub tag: Tag,
    pub text: String,
}

/// The mathematical value of one span: its tag and its character sequence.
pub open spec fn span_view(s: Span) -> (Tag, Seq<char>) {
    (s.tag, s.text@)
}

/// The mathematical value of a span list.
pub open spec fn spans_view(v: Seq<Span>) -> Seq<(Tag, Seq<char>)> {
    v.map_values(|s: Span| span_view(s))
}

/// The text of the spans `v[k..]` with the tags dropped.
pub open spec fn spans_text_from(v: Seq<(Tag, Seq<char>)>, k: int) -> Seq<char>
    decreases v.len() - k,
{
    if k < 0 || k >= v.len() {
        Seq::empty()
    } else {
        v[k].1 + spans_text_from(v, k + 1)
    }
}

/// The text of a span list with the tags dropped.
pub open spec fn spans_text(v: Seq<(Tag, Seq<char>)>) -> Seq<char> {
    spans_text_from(v, 0)
}

/// The decimal digit character for `d` (0 through 9).
pub open spec fn digit_char(d: int) -> char {
    if d == 1 {
        '1'
    } else if d == 2 {
        '2'
    } else if d == 3 {
        '3'
    } else if d == 4 {
        '4'
    } else if d == 5 {
        '5'
    } else if d == 6 {
        '6'
    } else if d == 7 {
        '7'
    } else if d == 8 {
        '8'
    } else if d == 9 {
        '9'
    } else {
        '0'
    }
}

/// The decimal text of a non-negative integer, most significant digit first.
pub open spec fn spec_dec(n: int) -> Seq<char>
    recommends
        n >= 0,
    decreases n,
{
    if n < 10 {
        seq![digit_char(n)]
    } else {
        spec_dec(n / 10).push(digit_char(n % 10))
    }
}

/// The decimal text of an integer, with a leading minus sign if negative.
pub open spec fn spec_dec_signed(n: int) -> Seq<char> {
    if n < 0 {
        seq!['-'] + spec_dec(-n)
    } else {
        spec_dec(n)
    }
}

/// How many decimal digits `spec_dec` produces.
pub open spec fn spec_num_digits(n: int) -> nat
    recommends
        n >= 0,
    decreases n,
{
    if n < 10 {
        1
    } else {
        1 + spec_num_digits(n / 10)
    }
}

/// `spec_dec(n)` has exactly `spec_num_digits(n)` characters.
pub proof fn lemma_dec_len(n: int)
    ensures
        spec_dec(n).len() == spec_num_digits(n),
    decreases n,
{
    if n >= 10 {
        lemma_dec_len(n / 10);
    }
}

/// `n` blank characters.
pub open spec fn spec_spaces(n: int) -> Seq<char> {
    if n <= 0 {
        Seq::empty()
    } else {
        Seq::new(n as nat, |i: int| ' ')
    }
}

/// `s` right-justified in a field of `w` characters.
pub open spec fn spec_pad_left(s: Seq<char>, w: int) -> Seq<char> {
    spec_spaces(w - s.len()) + s
}

/// `s` left-justified in a field of `w` characters.
pub open spec fn spec_pad_right(s: Seq<char>, w: int) -> Seq<char> {
    s + spec_spaces(w - s.len())
}

/// The single-character string for decimal digit `d`.
fn dec_digit(d: u64) -> (r: &'static str)
    requires
        d < 10,
    ensures
        r@ == seq![digit_char(d as int)],
{
    proof {
        reveal_strlit("0");
        reveal_strlit("1");
        reveal_strlit("2");
        reveal_strlit("3");
        reveal_strlit("4");
        reveal_strlit("5");
        reveal_strlit("6");
        reveal_strlit("7");
        reveal_strlit("8");
        reveal_strlit("9");
    }
    let r: &'static str = if d == 0 {
        "0"
    } else if d == 1 {
        "1"
    } else if d == 2 {
        "2"
    } else if d == 3 {
        "3"
    } else if d == 4 {
        "4"
    } else if d == 5 {
        "5"
    } else if d == 6 {
        "6"
    } else if d == 7 {
        "7"
    } else {
        "8"
    };
    let r: &'static str = if d == 9 {
        "9"
    } else {
        r
    };
    proof {
        assert(r@ =~= seq![digit_char(d as int)]);
    }
    r
}

/// The decimal text of `n`.
pub fn u64_dec(n: u64) -> (r: String)
    ensures
        r@ == spec_dec(n as int),
    decreases n,
{
    if n < 10 {
        dec_digit(n).to_owned()
    } else {
        let mut s = u64_dec(n / 10);
        s.append(dec_digit(n % 10));
        proof {
            assert(s@ =~= spec_dec(n as int));
        }
        s
    }
}

/// The decimal text of `n`, with a minus sign if `n` is negative.
pub fn i64_dec(n: i64) -> (r: String)
    requires
        n > i64::MIN,
    ensures
        r@ == spec_dec_signed(n as int),
{
    if n < 0 {
        proof {
            reveal_strlit("-");
        }
        let mut s = "-".to_owned();
        s.append(u64_dec((-n) as u64).as_str());
        proof {
            assert(s@ =~= spec_dec_signed(n as int));
        }
        s
    } else {
        u64_dec(n as u64)
    }
}

/// How many decimal digits `n` has.
pub fn num_digits(n: u64) -> (r: usize)
    ensures
        r == spec_num_digits(n as int),
    decreases n,
{
    if n < 10 {
        1
    } else {
        let d = num_digits(n / 10);
        proof {
            lemma_dec_len(n as int);
        }
        if d < usize::MAX {
            d + 1
        } else {
            // spec_num_digits is at most 20 for a u64, so this branch can
            // never be taken; it only keeps the addition visibly in range.
            proof {
                lemma_num_digits_small(n as int);
            }
            usize::MAX
        }
    }
}

/// A u64 never has more than 20 decimal digits.
pub proof fn lemma_num_digits_small(n: int)
    requires
        0 <= n <= u64::MAX,
    ensures
        spec_num_digits(n) <= 20,
{
    assert(pow10(20) == 100000000000000000000) by {
        reveal_with_fuel(pow10, 21);
    }
    lemma_num_digits_bound(n, 20);
}

proof fn lemma_num_digits_bound(n: int, k: nat)
    requires
        k >= 1,
        0 <= n,
        n < pow10(k),
    ensures
        spec_num_digits(n) <= k,
    decreases k,
{
    if n >= 10 {
        let p = pow10((k - 1) as nat);
        lemma_pow10_pos((k - 1) as nat);
        assert(n / 10 < p) by (nonlinear_arith)
            requires
                n < 10 * p,
                p > 0,
                n >= 10,
        {
        }
        lemma_num_digits_bound(n / 10, (k - 1) as nat);
    }
}

proof fn lemma_pow10_pos(k: nat)
    ensures
        pow10(k) > 0,
    decreases k,
{
    if k > 0 {
        lemma_pow10_pos((k - 1) as nat);
    }
}

/// Ten to the `k`.
pub open spec fn pow10(k: nat) -> int
    decreases k,
{
    if k == 0 {
        1
    } else {
        10 * pow10((k - 1) as nat)
    }
}

/// A string of `n` blanks.
pub fn spaces(n: usize) -> (r: String)
    ensures
        r@ == spec_spaces(n as int),
{
    let mut r = String::new();
    let mut i: usize = 0;
    while i < n
        invariant
            i <= n,
            r@ =~= spec_spaces(i as int),
        decreases n - i,
    {
        proof {
            reveal_strlit(" ");
        }
        r.append(" ");
        i = i + 1;
        proof {
            assert(r@ =~= spec_spaces(i as int));
        }
    }
    r
}

/// The decimal text of `n`, right-justified in a field of `w` characters.
pub fn u64_dec_pad_left(n: u64, w: usize) -> (r: String)
    ensures
        r@ == spec_pad_left(spec_dec(n as int), w as int),
{
    let d = num_digits(n);
    proof {
        lemma_dec_len(n as int);
    }
    let mut r = spaces(if w > d {
        w - d
    } else {
        0
    });
    r.append(u64_dec(n).as_str());
    r
}

/// `s`, whose character count is `len`, left-justified in a field of `w`
/// characters.
pub fn str_pad_right(s: &str, len: usize, w: usize) -> (r: String)
    requires
        len == s@.len(),
    ensures
        r@ == spec_pad_right(s@, w as int),
{
    let mut r = s.to_owned();
    r.append(spaces(if w > len {
        w - len
    } else {
        0
    }).as_str());
    r
}

} // verus!

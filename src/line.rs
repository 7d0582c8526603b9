use vstd::prelude::*;
use crate::gcode::{Code, GCode, Real, command_for, denotes, known_code};

verus! {

/// The longest command line, in bytes, that a parser holds.
pub const MAX_LINE: usize = 256;

/// Why a delimited line yields no command.
#[derive(Clone, Copy, Debug, PartialEq, Eq, Structural)]
pub enum LineFault {
    /// A word that is not a well-formed code, parameter or number.
    Malformed,
    /// A well-formed code that names no command.
    Unknown,
    /// The checksum after `*` differs from that of the text before it.
    Checksum,
}

/// What a line holds once its grammar is read.
pub struct ParsedLine {
    pub ln: Option<u32>,
    pub code: Code,
    pub params: Seq<(u8, Real)>,
    pub text: Option<Seq<u8>>,
}

pub enum LineOutcome {
    /// Only spaces and comments.
    Blank,
    Fault(LineFault),
    Command(ParsedLine),
}

pub open spec fn is_ws(b: u8) -> bool {
    b == 32 || b == 9 || b == 13
}

pub open spec fn is_digit(b: u8) -> bool {
    48 <= b <= 57
}

pub open spec fn is_upper(b: u8) -> bool {
    65 <= b <= 90
}

/// The first position at or after `i` that is not a space, or `e`.
pub open spec fn skip_ws(s: Seq<u8>, i: int, e: int) -> int
    decreases e - i,
{
    if i < e && is_ws(s[i]) {
        skip_ws(s, i + 1, e)
    } else {
        i
    }
}

/// The first space at or after `i`, or `e`.
pub open spec fn word_end(s: Seq<u8>, i: int, e: int) -> int
    decreases e - i,
{
    if i < e && !is_ws(s[i]) {
        word_end(s, i + 1, e)
    } else {
        i
    }
}

/// The first position at or after `i` that holds `c`, or `e`.
pub open spec fn find(s: Seq<u8>, i: int, e: int, c: u8) -> int
    decreases e - i,
{
    if i < e && s[i] != c {
        find(s, i + 1, e, c)
    } else {
        i
    }
}

pub open spec fn digits_val(s: Seq<u8>, a: int, b: int) -> int
    decreases b - a,
{
    if b <= a {
        0
    } else {
        digits_val(s, a, b - 1) * 10 + (s[b - 1] - 48)
    }
}

pub open spec fn all_digits(s: Seq<u8>, a: int, b: int) -> bool {
    forall|k: int| a <= k < b ==> is_digit(#[trigger] s[k])
}

/// An unsigned decimal number that fits in 32 bits.
pub open spec fn uint(s: Seq<u8>, a: int, b: int) -> Option<u32> {
    if a < b && all_digits(s, a, b) && digits_val(s, a, b) <= u32::MAX {
        Some(digits_val(s, a, b) as u32)
    } else {
        None
    }
}

/// The digits of `[a, b)` read as one number, dots left out.
pub open spec fn mant(s: Seq<u8>, a: int, b: int) -> int
    decreases b - a,
{
    if b <= a {
        0
    } else if s[b - 1] == 46 {
        mant(s, a, b - 1)
    } else {
        mant(s, a, b - 1) * 10 + (s[b - 1] - 48)
    }
}

pub open spec fn count_dots(s: Seq<u8>, a: int, b: int) -> int
    decreases b - a,
{
    if b <= a {
        0
    } else {
        count_dots(s, a, b - 1) + if s[b - 1] == 46 { 1int } else { 0int }
    }
}

pub open spec fn count_digits(s: Seq<u8>, a: int, b: int) -> int
    decreases b - a,
{
    if b <= a {
        0
    } else {
        count_digits(s, a, b - 1) + if s[b - 1] == 46 { 0int } else { 1int }
    }
}

/// The number of digits after the dot, none where there is no dot.
pub open spec fn frac_len(s: Seq<u8>, a: int, b: int) -> int
    decreases b - a,
{
    if b <= a || count_dots(s, a, b) == 0 || s[b - 1] == 46 {
        0
    } else {
        frac_len(s, a, b - 1) + 1
    }
}

pub open spec fn digits_or_dots(s: Seq<u8>, a: int, b: int) -> bool {
    forall|k: int| a <= k < b ==> is_digit(#[trigger] s[k]) || s[k] == 46
}

/// The start of a number after an optional sign.
pub open spec fn unsigned_start(s: Seq<u8>, a: int, b: int) -> int {
    if a < b && (s[a] == 45 || s[a] == 43) {
        a + 1
    } else {
        a
    }
}

/// A decimal literal: an optional sign, digits with at most one dot, and a
/// value that fits in 64 bits.
pub open spec fn real_of(s: Seq<u8>, a: int, b: int) -> Option<Real> {
    let st = unsigned_start(s, a, b);
    let m = mant(s, st, b);
    if digits_or_dots(s, st, b) && count_dots(s, st, b) <= 1 && count_digits(s, st, b) >= 1
        && m <= i64::MAX {
        Some(
            Real {
                mantissa: (if a < b && s[a] == 45 { -m } else { m }) as i64,
                scale: frac_len(s, st, b) as u32,
            },
        )
    } else {
        None
    }
}

/// A parameter word: an upper-case letter and a literal.
pub open spec fn param_of(s: Seq<u8>, a: int, b: int) -> Option<(u8, Real)> {
    if a < b && is_upper(s[a]) {
        match real_of(s, a + 1, b) {
            Some(r) => Some((s[a], r)),
            None => None,
        }
    } else {
        None
    }
}

/// The parameter words of `[i, e)`, or `None` where one is malformed.
pub open spec fn params_from(s: Seq<u8>, i: int, e: int) -> Option<Seq<(u8, Real)>>
    decreases e - i,
{
    let a = skip_ws(s, i, e);
    let b = word_end(s, a, e);
    if i >= e || a >= e {
        Some(Seq::empty())
    } else if b <= i || b > e {
        None
    } else {
        match param_of(s, a, b) {
            None => None,
            Some(p) => match params_from(s, b, e) {
                None => None,
                Some(r) => Some(seq![p] + r),
            },
        }
    }
}

/// The code word `[a, b)`: `G` or `M`, then an optional number with an
/// optional sub-code after a dot.
pub open spec fn code_of(s: Seq<u8>, a: int, b: int) -> Result<Code, LineFault> {
    let dot = find(s, a + 1, b, 46);
    if !(s[a] == 71 || s[a] == 77) {
        if is_upper(s[a]) {
            Err(LineFault::Unknown)
        } else {
            Err(LineFault::Malformed)
        }
    } else if a + 1 == b {
        Ok(Code { letter: s[a], number: None, sub: None })
    } else {
        match uint(s, a + 1, dot) {
            None => Err(LineFault::Malformed),
            Some(n) => if dot == b {
                Ok(Code { letter: s[a], number: Some(n), sub: None })
            } else {
                match uint(s, dot + 1, b) {
                    None => Err(LineFault::Malformed),
                    Some(k) => Ok(Code { letter: s[a], number: Some(n), sub: Some(k) }),
                }
            },
        }
    }
}

/// Commands whose argument is a word of text rather than parameters.
pub open spec fn takes_text(c: Code) -> bool {
    c.letter == 77 && c.sub.is_none() && (c.number == Some(20u32) || c.number == Some(23u32))
}

pub open spec fn xor_of(s: Seq<u8>, a: int, b: int) -> u8
    decreases b - a,
{
    if b <= a {
        0
    } else {
        xor_of(s, a, b - 1) ^ s[b - 1]
    }
}

/// The end of the command text: before a comment, and before a checksum,
/// which must match.
pub open spec fn body_end(s: Seq<u8>) -> Result<int, LineFault> {
    let end = find(s, 0, s.len() as int, 59);
    let star = find(s, 0, end, 42);
    if star == end {
        Ok(end)
    } else {
        let a = skip_ws(s, star + 1, end);
        let b = word_end(s, a, end);
        match uint(s, a, b) {
            None => Err(LineFault::Malformed),
            Some(v) => if skip_ws(s, b, end) != end {
                Err(LineFault::Malformed)
            } else if v != xor_of(s, 0, star) as u32 {
                Err(LineFault::Checksum)
            } else {
                Ok(star)
            },
        }
    }
}

/// What the line `s` (without its delimiter) says.
pub open spec fn parse_line(s: Seq<u8>) -> LineOutcome {
    match body_end(s) {
        Err(f) => LineOutcome::Fault(f),
        Ok(e) => {
            let a0 = skip_ws(s, 0, e);
            let b0 = word_end(s, a0, e);
            let numbered = a0 < e && s[a0] == 78;
            let a1 = if numbered { skip_ws(s, b0, e) } else { a0 };
            let b1 = word_end(s, a1, e);
            let ln = if numbered { uint(s, a0 + 1, b0) } else { None };
            if a0 >= e {
                LineOutcome::Blank
            } else if numbered && (ln.is_none() || a1 >= e) {
                LineOutcome::Fault(LineFault::Malformed)
            } else {
                match code_of(s, a1, b1) {
                    Err(f) => LineOutcome::Fault(f),
                    Ok(c) => if !known_code(c) {
                        LineOutcome::Fault(LineFault::Unknown)
                    } else if takes_text(c) {
                        let a2 = skip_ws(s, b1, e);
                        let text = if a2 >= e {
                            None
                        } else {
                            Some(s.subrange(a2, word_end(s, a2, e)))
                        };
                        LineOutcome::Command(
                            ParsedLine { ln, code: c, params: Seq::empty(), text },
                        )
                    } else {
                        match params_from(s, b1, e) {
                            None => LineOutcome::Fault(LineFault::Malformed),
                            Some(ps) => LineOutcome::Command(
                                ParsedLine { ln, code: c, params: ps, text: None },
                            ),
                        }
                    },
                }
            }
        },
    }
}

pub open spec fn ascii_chars(b: Seq<u8>) -> Seq<char> {
    b.map_values(|x: u8| x as char)
}

pub open spec fn all_ascii(s: Seq<u8>) -> bool {
    forall|k: int| 0 <= k < s.len() ==> #[trigger] s[k] < 128
}

/// Whether `r` is what the parse of a line gives for `o`.
pub open spec fn line_result(r: Result<Option<(GCode, Option<u32>)>, LineFault>, o: LineOutcome) -> bool {
    match o {
        LineOutcome::Blank => r == Ok::<Option<(GCode, Option<u32>)>, LineFault>(None),
        LineOutcome::Fault(f) => r == Err::<Option<(GCode, Option<u32>)>, LineFault>(f),
        LineOutcome::Command(pl) => match r {
            Ok(Some((g, ln))) => ln == pl.ln && denotes(
                g,
                pl.code,
                pl.ln,
                pl.params,
                match pl.text {
                    Some(t) => Some(ascii_chars(t)),
                    None => None,
                },
            ),
            _ => false,
        },
    }
}

proof fn lemma_digits_val_mono(s: Seq<u8>, a: int, i: int, j: int)
    requires
        a <= i <= j,
        all_digits(s, a, j),
    ensures
        digits_val(s, a, i) <= digits_val(s, a, j),
        digits_val(s, a, i) >= 0,
    decreases j - i,
{
    if i < j {
        lemma_digits_val_mono(s, a, i, j - 1);
        assert(is_digit(s[j - 1]));
    } else {
        lemma_digits_val_nonneg(s, a, i);
    }
}

proof fn lemma_digits_val_nonneg(s: Seq<u8>, a: int, i: int)
    requires
        all_digits(s, a, i),
    ensures
        digits_val(s, a, i) >= 0,
    decreases i - a,
{
    if a < i {
        lemma_digits_val_nonneg(s, a, i - 1);
        assert(is_digit(s[i - 1]));
    }
}

proof fn lemma_mant_mono(s: Seq<u8>, a: int, i: int, j: int)
    requires
        a <= i <= j,
        digits_or_dots(s, a, j),
    ensures
        0 <= mant(s, a, i) <= mant(s, a, j),
        count_dots(s, a, i) <= count_dots(s, a, j),
    decreases j - i + (i - a),
{
    if i < j {
        lemma_mant_mono(s, a, i, j - 1);
        assert(is_digit(s[j - 1]) || s[j - 1] == 46);
    } else if a < i {
        lemma_mant_mono(s, a, i - 1, i - 1);
        assert(is_digit(s[i - 1]) || s[i - 1] == 46);
    }
}

fn skip_spaces(s: &Vec<u8>, i: usize, e: usize) -> (r: usize)
    requires
        i <= e <= s@.len(),
    ensures
        r == skip_ws(s@, i as int, e as int),
        i <= r <= e,
        r < e ==> !is_ws(s@[r as int]),
{
    let mut k = i;
    while k < e && (s[k] == 32 || s[k] == 9 || s[k] == 13)
        invariant
            i <= k <= e <= s@.len(),
            skip_ws(s@, k as int, e as int) == skip_ws(s@, i as int, e as int),
        decreases e - k,
    {
        k = k + 1;
    }
    k
}

fn word_stop(s: &Vec<u8>, i: usize, e: usize) -> (r: usize)
    requires
        i <= e <= s@.len(),
    ensures
        r == word_end(s@, i as int, e as int),
        i <= r <= e,
        i < e && !is_ws(s@[i as int]) ==> i < r,
{
    let mut k = i;
    while k < e && !(s[k] == 32 || s[k] == 9 || s[k] == 13)
        invariant
            i <= k <= e <= s@.len(),
            word_end(s@, k as int, e as int) == word_end(s@, i as int, e as int),
            i < e && !is_ws(s@[i as int]) && k == i ==> k < e && !is_ws(s@[k as int]),
        decreases e - k,
    {
        k = k + 1;
    }
    k
}

fn find_byte(s: &Vec<u8>, i: usize, e: usize, c: u8) -> (r: usize)
    requires
        i <= e <= s@.len(),
    ensures
        r == find(s@, i as int, e as int, c),
        i <= r <= e,
{
    let mut k = i;
    while k < e && s[k] != c
        invariant
            i <= k <= e <= s@.len(),
            find(s@, k as int, e as int, c) == find(s@, i as int, e as int, c),
        decreases e - k,
    {
        k = k + 1;
    }
    k
}

fn read_uint(s: &Vec<u8>, a: usize, b: usize) -> (r: Option<u32>)
    requires
        a <= b <= s@.len(),
    ensures
        r == uint(s@, a as int, b as int),
{
    if a == b {
        return None;
    }
    let mut v: u64 = 0;
    let mut k = a;
    while k < b
        invariant
            a <= k <= b <= s@.len(),
            all_digits(s@, a as int, k as int),
            v == digits_val(s@, a as int, k as int),
            v <= u32::MAX,
        decreases b - k,
    {
        let d = s[k];
        if !(48 <= d && d <= 57) {
            return None;
        }
        v = v * 10 + (d - 48) as u64;
        k = k + 1;
        if v > u32::MAX as u64 {
            proof {
                if all_digits(s@, a as int, b as int) {
                    lemma_digits_val_mono(s@, a as int, k as int, b as int);
                }
            }
            return None;
        }
    }
    Some(v as u32)
}

fn read_real(s: &Vec<u8>, a: usize, b: usize) -> (r: Option<Real>)
    requires
        a <= b <= s@.len(),
        s@.len() <= MAX_LINE,
    ensures
        r == real_of(s@, a as int, b as int),
{
    let neg = a < b && s[a] == 45;
    let st = if a < b && (s[a] == 45 || s[a] == 43) { a + 1 } else { a };
    let mut m: u128 = 0;
    let mut dots: usize = 0;
    let mut digits: usize = 0;
    let mut frac: usize = 0;
    let mut k = st;
    while k < b
        invariant
            st == unsigned_start(s@, a as int, b as int),
            st <= k <= b <= s@.len() <= MAX_LINE,
            digits_or_dots(s@, st as int, k as int),
            m == mant(s@, st as int, k as int),
            m <= i64::MAX,
            dots == count_dots(s@, st as int, k as int),
            dots <= 1,
            digits == count_digits(s@, st as int, k as int),
            frac == frac_len(s@, st as int, k as int),
            digits <= k - st,
            frac <= k - st,
        decreases b - k,
    {
        let d = s[k];
        if d == 46 {
            if dots == 1 {
                proof {
                    if digits_or_dots(s@, st as int, b as int) {
                        lemma_mant_mono(s@, st as int, k as int + 1, b as int);
                    }
                }
                return None;
            }
            dots = dots + 1;
            frac = 0;
        } else if 48 <= d && d <= 57 {
            m = m * 10 + (d - 48) as u128;
            digits = digits + 1;
            if dots == 1 {
                frac = frac + 1;
            }
            if m > i64::MAX as u128 {
                proof {
                    if digits_or_dots(s@, st as int, b as int) {
                        lemma_mant_mono(s@, st as int, k as int + 1, b as int);
                    }
                }
                return None;
            }
        } else {
            return None;
        }
        k = k + 1;
    }
    if digits == 0 {
        return None;
    }
    let mi = m as i64;
    let mantissa = if neg { -mi } else { mi };
    Some(Real { mantissa, scale: frac as u32 })
}

fn read_param(s: &Vec<u8>, a: usize, b: usize) -> (r: Option<(u8, Real)>)
    requires
        a <= b <= s@.len(),
        s@.len() <= MAX_LINE,
    ensures
        r == param_of(s@, a as int, b as int),
{
    if a < b && 65 <= s[a] && s[a] <= 90 {
        match read_real(s, a + 1, b) {
            Some(v) => Some((s[a], v)),
            None => None,
        }
    } else {
        None
    }
}

fn read_params(s: &Vec<u8>, i: usize, e: usize) -> (r: Option<Vec<(u8, Real)>>)
    requires
        i <= e <= s@.len(),
        s@.len() <= MAX_LINE,
    ensures
        match r {
            Some(v) => params_from(s@, i as int, e as int) == Some(v@),
            None => params_from(s@, i as int, e as int).is_none(),
        },
{
    let mut ps: Vec<(u8, Real)> = Vec::new();
    let mut k = i;
    assert(ps@ + params_from(s@, i as int, e as int)->0 =~= params_from(s@, i as int, e as int)->0);
    loop
        invariant
            i <= k <= e <= s@.len(),
            s@.len() <= MAX_LINE,
            params_from(s@, i as int, e as int) == match params_from(s@, k as int, e as int) {
                Some(rest) => Some(ps@ + rest),
                None => None::<Seq<(u8, Real)>>,
            },
        decreases e - k,
    {
        let a = skip_spaces(s, k, e);
        if a >= e {
            assert(ps@ + Seq::<(u8, Real)>::empty() =~= ps@);
            return Some(ps);
        }
        let b = word_stop(s, a, e);
        match read_param(s, a, b) {
            None => {
                return None;
            },
            Some(p) => {
                let ghost old_ps = ps@;
                ps.push(p);
                proof {
                    match params_from(s@, b as int, e as int) {
                        Some(rest) => {
                            assert(old_ps + (seq![p] + rest) =~= ps@ + rest);
                        },
                        None => {},
                    }
                }
                k = b;
            },
        }
    }
}

fn read_code(s: &Vec<u8>, a: usize, b: usize) -> (r: Result<Code, LineFault>)
    requires
        a < b <= s@.len(),
    ensures
        r == code_of(s@, a as int, b as int),
{
    let dot = find_byte(s, a + 1, b, 46);
    let l = s[a];
    if !(l == 71 || l == 77) {
        if 65 <= l && l <= 90 {
            Err(LineFault::Unknown)
        } else {
            Err(LineFault::Malformed)
        }
    } else if a + 1 == b {
        Ok(Code { letter: l, number: None, sub: None })
    } else {
        match read_uint(s, a + 1, dot) {
            None => Err(LineFault::Malformed),
            Some(n) => if dot == b {
                Ok(Code { letter: l, number: Some(n), sub: None })
            } else {
                match read_uint(s, dot + 1, b) {
                    None => Err(LineFault::Malformed),
                    Some(k) => Ok(Code { letter: l, number: Some(n), sub: Some(k) }),
                }
            },
        }
    }
}

fn checksum(s: &Vec<u8>, e: usize) -> (r: u8)
    requires
        e <= s@.len(),
    ensures
        r == xor_of(s@, 0, e as int),
{
    let mut x: u8 = 0;
    let mut k: usize = 0;
    while k < e
        invariant
            k <= e <= s@.len(),
            x == xor_of(s@, 0, k as int),
        decreases e - k,
    {
        x = x ^ s[k];
        k = k + 1;
    }
    x
}

fn read_body_end(s: &Vec<u8>) -> (r: Result<usize, LineFault>)
    ensures
        match r {
            Ok(e) => body_end(s@) == Ok::<int, LineFault>(e as int) && e <= s@.len(),
            Err(f) => body_end(s@) == Err::<int, LineFault>(f),
        },
{
    let end = find_byte(s, 0, s.len(), 59);
    let star = find_byte(s, 0, end, 42);
    if star == end {
        Ok(end)
    } else {
        let a = skip_spaces(s, star + 1, end);
        let b = word_stop(s, a, end);
        match read_uint(s, a, b) {
            None => Err(LineFault::Malformed),
            Some(v) => if skip_spaces(s, b, end) != end {
                Err(LineFault::Malformed)
            } else if v != checksum(s, star) as u32 {
                Err(LineFault::Checksum)
            } else {
                Ok(star)
            },
        }
    }
}

/// Relies on `String::from_utf8`: ASCII bytes are valid UTF-8, and each one
/// becomes the character of the same code.
#[verifier::external_body]
fn ascii_string(b: Vec<u8>) -> (r: String)
    requires
        all_ascii(b@),
    ensures
        r@ == ascii_chars(b@),
{
    match String::from_utf8(b) {
        Ok(t) => t,
        Err(_) => String::new(),
    }
}

fn copy_range(s: &Vec<u8>, a: usize, b: usize) -> (r: Vec<u8>)
    requires
        a <= b <= s@.len(),
    ensures
        r@ == s@.subrange(a as int, b as int),
{
    let mut t: Vec<u8> = Vec::new();
    let mut k = a;
    while k < b
        invariant
            a <= k <= b <= s@.len(),
            t@ == s@.subrange(a as int, k as int),
        decreases b - k,
    {
        t.push(s[k]);
        k = k + 1;
        assert(t@ =~= s@.subrange(a as int, k as int));
    }
    t
}

/// Reads one line (without its delimiter) as a command.
pub(crate) fn parse_line_bytes(s: &Vec<u8>) -> (r: Result<Option<(GCode, Option<u32>)>, LineFault>)
    requires
        s@.len() <= MAX_LINE,
        all_ascii(s@),
    ensures
        line_result(r, parse_line(s@)),
{
    let e = match read_body_end(s) {
        Err(f) => {
            return Err(f);
        },
        Ok(e) => e,
    };
    let a0 = skip_spaces(s, 0, e);
    if a0 >= e {
        return Ok(None);
    }
    let b0 = word_stop(s, a0, e);
    let numbered = s[a0] == 78;
    let a1 = if numbered { skip_spaces(s, b0, e) } else { a0 };
    let ln = if numbered { read_uint(s, a0 + 1, b0) } else { None };
    if numbered && (ln.is_none() || a1 >= e) {
        return Err(LineFault::Malformed);
    }
    let b1 = word_stop(s, a1, e);
    let c = match read_code(s, a1, b1) {
        Err(f) => {
            return Err(f);
        },
        Ok(c) => c,
    };
    let empty: Vec<(u8, Real)> = Vec::new();
    if command_for(c, None, &empty, None).is_none() {
        return Err(LineFault::Unknown);
    }
    if c.letter == 77 && c.sub.is_none() && (c.number == Some(20u32) || c.number == Some(23u32)) {
        let a2 = skip_spaces(s, b1, e);
        let text = if a2 >= e {
            None
        } else {
            let b2 = word_stop(s, a2, e);
            let t = copy_range(s, a2, b2);
            Some(ascii_string(t))
        };
        match command_for(c, ln, &empty, text) {
            None => Err(LineFault::Unknown),
            Some(g) => Ok(Some((g, ln))),
        }
    } else {
        match read_params(s, b1, e) {
            None => Err(LineFault::Malformed),
            Some(ps) => match command_for(c, ln, &ps, None) {
                None => Err(LineFault::Unknown),
                Some(g) => Ok(Some((g, ln))),
            },
        }
    }
}

} // verus!

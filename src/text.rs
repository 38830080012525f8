//! Character-level helpers on strings, each proved against a spec function.
use vstd::prelude::*;
use vstd::std_specs::iter::IteratorSpec;

verus! {

broadcast use vstd::string::group_string_axioms;

/// The texts of `ts`, in order.
pub open spec fn texts_view(ts: Seq<String>) -> Seq<Seq<char>> {
    ts.map_values(|t: String| t@)
}

/// The characters of `s`, one by one.
pub fn chars_of(s: &str) -> (r: Vec<char>)
    ensures
        r@ == s@,
{
    let mut out: Vec<char> = Vec::new();
    let mut it = s.chars();
    loop
        invariant
            out@ + it.remaining() == s@,
        ensures
            out@ == s@,
        decreases s@.len() - out@.len(),
    {
        match it.next() {
            Some(c) => {
                out.push(c);
            },
            None => {
                assert(out@ + it.remaining() =~= out@);
                break;
            },
        }
    }
    out
}

/// Whether `a` and `b` hold the same characters.
pub fn text_eq(a: &str, b: &str) -> (r: bool)
    ensures
        r == (a@ == b@),
{
    let n = a.unicode_len();
    if n != b.unicode_len() {
        return false;
    }
    let mut i: usize = 0;
    while i < n
        invariant
            n == a@.len(),
            n == b@.len(),
            i <= n,
            a@.subrange(0, i as int) == b@.subrange(0, i as int),
        decreases n - i,
    {
        if a.get_char(i) != b.get_char(i) {
            assert(a@[i as int] != b@[i as int]);
            return false;
        }
        assert(a@.subrange(0, i + 1) =~= a@.subrange(0, i as int).push(a@[i as int]));
        assert(b@.subrange(0, i + 1) =~= b@.subrange(0, i as int).push(b@[i as int]));
        i = i + 1;
    }
    assert(a@ =~= a@.subrange(0, n as int));
    assert(b@ =~= b@.subrange(0, n as int));
    true
}

/// The first position at or after `from` where `c` stands in `s`.
pub open spec fn find_char(s: Seq<char>, c: char, from: int) -> Option<int>
    decreases s.len() - from,
{
    if from < 0 || from >= s.len() {
        None
    } else if s[from] == c {
        Some(from)
    } else {
        find_char(s, c, from + 1)
    }
}

/// The first position in `from..to` where `c` stands in `cs`.
pub fn find_char_in(cs: &Vec<char>, c: char, from: usize, to: usize) -> (r: Option<usize>)
    requires
        from <= to <= cs@.len(),
    ensures
        r matches Some(i) ==> from <= i < to,
        to == cs@.len() ==> (match r {
            Some(i) => find_char(cs@, c, from as int) == Some(i as int),
            None => find_char(cs@, c, from as int) is None,
        }),
        (match r {
            Some(i) => find_char(cs@.subrange(from as int, to as int), c, 0) == Some(i - from),
            None => find_char(cs@.subrange(from as int, to as int), c, 0) is None,
        }),
{
    let ghost sub = cs@.subrange(from as int, to as int);
    let mut i = from;
    while i < to
        invariant
            from <= i <= to <= cs@.len(),
            sub == cs@.subrange(from as int, to as int),
            find_char(sub, c, 0) == find_char(sub, c, i - from),
            to == cs@.len() ==> find_char(cs@, c, from as int) == find_char(cs@, c, i as int),
        decreases to - i,
    {
        if cs[i] == c {
            return Some(i);
        }
        i = i + 1;
    }
    None
}

/// Whether `c` is white space in the sense of Unicode's `White_Space` property.
pub open spec fn is_white_space(c: char) -> bool {
    ||| '\u{9}' <= c <= '\u{d}'
    ||| c == ' '
    ||| c == '\u{85}'
    ||| c == '\u{a0}'
    ||| c == '\u{1680}'
    ||| '\u{2000}' <= c <= '\u{200a}'
    ||| c == '\u{2028}'
    ||| c == '\u{2029}'
    ||| c == '\u{202f}'
    ||| c == '\u{205f}'
    ||| c == '\u{3000}'
}

pub fn white_space(c: char) -> (r: bool)
    ensures
        r == is_white_space(c),
{
    ('\u{9}' <= c && c <= '\u{d}') || c == ' ' || c == '\u{85}' || c == '\u{a0}' || c
        == '\u{1680}' || ('\u{2000}' <= c && c <= '\u{200a}') || c == '\u{2028}' || c
        == '\u{2029}' || c == '\u{202f}' || c == '\u{205f}' || c == '\u{3000}'
}

/// `s` without its leading white space.
pub open spec fn trim_start(s: Seq<char>) -> Seq<char>
    decreases s.len(),
{
    if s.len() > 0 && is_white_space(s[0]) {
        trim_start(s.drop_first())
    } else {
        s
    }
}

/// `s` without its trailing white space.
pub open spec fn trim_end(s: Seq<char>) -> Seq<char>
    decreases s.len(),
{
    if s.len() > 0 && is_white_space(s.last()) {
        trim_end(s.drop_last())
    } else {
        s
    }
}

/// `s` without its leading and trailing white space.
pub open spec fn trim(s: Seq<char>) -> Seq<char> {
    trim_end(trim_start(s))
}

/// The bounds of the trimmed text of `cs[from..to]`.
pub fn trim_bounds(cs: &Vec<char>, from: usize, to: usize) -> (r: (usize, usize))
    requires
        from <= to <= cs@.len(),
    ensures
        from <= r.0 <= r.1 <= to,
        cs@.subrange(r.0 as int, r.1 as int) == trim(cs@.subrange(from as int, to as int)),
{
    let mut i = from;
    while i < to && white_space(cs[i])
        invariant
            from <= i <= to <= cs@.len(),
            trim_start(cs@.subrange(from as int, to as int)) == trim_start(
                cs@.subrange(i as int, to as int),
            ),
        decreases to - i,
    {
        assert(cs@.subrange(i as int, to as int).drop_first() =~= cs@.subrange(
            i + 1,
            to as int,
        ));
        i = i + 1;
    }
    assert(trim_start(cs@.subrange(i as int, to as int)) == cs@.subrange(i as int, to as int));
    let mut j = to;
    while j > i && white_space(cs[j - 1])
        invariant
            from <= i <= j <= to <= cs@.len(),
            trim_end(cs@.subrange(i as int, to as int)) == trim_end(
                cs@.subrange(i as int, j as int),
            ),
        decreases j - i,
    {
        assert(cs@.subrange(i as int, j as int).drop_last() =~= cs@.subrange(
            i as int,
            j - 1,
        ));
        j = j - 1;
    }
    (i, j)
}

/// Whether `c` is one of the ASCII digits.
pub open spec fn is_digit(c: char) -> bool {
    '0' <= c <= '9'
}

/// The value of the ASCII digit `c`.
pub open spec fn digit_value(c: char) -> nat {
    (c as int - '0' as int) as nat
}

/// Why a run of characters is no unsigned integer: the kinds that Rust's
/// integer parsing reports.
#[derive(Debug, Clone, Copy, PartialEq, Eq)]
pub enum IntErrorKind {
    Empty,
    InvalidDigit,
    PosOverflow,
}

/// The decimal value of `d`, read from the left, or the first fault met on
/// the way: a character that is no digit, or a prefix whose value exceeds
/// `max`.
pub open spec fn scan_digits(d: Seq<char>, max: nat) -> Result<nat, IntErrorKind>
    decreases d.len(),
{
    if d.len() == 0 {
        Ok(0)
    } else {
        match scan_digits(d.drop_last(), max) {
            Err(e) => Err(e),
            Ok(v) => if !is_digit(d.last()) {
                Err(IntErrorKind::InvalidDigit)
            } else if v * 10 + digit_value(d.last()) > max {
                Err(IntErrorKind::PosOverflow)
            } else {
                Ok(v * 10 + digit_value(d.last()))
            },
        }
    }
}

proof fn lemma_scan_error_persists(d: Seq<char>, k: int, max: nat)
    requires
        0 <= k <= d.len(),
        scan_digits(d.subrange(0, k), max) is Err,
    ensures
        scan_digits(d, max) == scan_digits(d.subrange(0, k), max),
    decreases d.len() - k,
{
    if k < d.len() {
        assert(d.subrange(0, k + 1).drop_last() =~= d.subrange(0, k));
        lemma_scan_error_persists(d, k + 1, max);
    } else {
        assert(d.subrange(0, k) =~= d);
    }
}

/// Reads `cs[from..to]` as a run of decimal digits no larger than `max`.
pub fn scan_decimal(cs: &Vec<char>, from: usize, to: usize, max: usize) -> (r: Result<
    usize,
    IntErrorKind,
>)
    requires
        from <= to <= cs@.len(),
    ensures
        match r {
            Ok(v) => scan_digits(cs@.subrange(from as int, to as int), max as nat) == Ok::<
                nat,
                IntErrorKind,
            >(v as nat),
            Err(e) => scan_digits(cs@.subrange(from as int, to as int), max as nat) == Err::<
                nat,
                IntErrorKind,
            >(e),
        },
{
    let mut v: usize = 0;
    let mut i = from;
    assert(cs@.subrange(from as int, from as int) =~= Seq::<char>::empty());
    while i < to
        invariant
            from <= i <= to <= cs@.len(),
            v <= max,
            scan_digits(cs@.subrange(from as int, i as int), max as nat) == Ok::<
                nat,
                IntErrorKind,
            >(v as nat),
        decreases to - i,
    {
        let c = cs[i];
        let ghost prefix = cs@.subrange(from as int, i + 1);
        assert(prefix.drop_last() =~= cs@.subrange(from as int, i as int));
        assert(cs@.subrange(from as int, to as int).subrange(0, i + 1 - from) =~= prefix);
        if !('0' <= c && c <= '9') {
            proof {
                lemma_scan_error_persists(
                    cs@.subrange(from as int, to as int),
                    i + 1 - from,
                    max as nat,
                );
            }
            return Err(IntErrorKind::InvalidDigit);
        }
        let d = (c as u32 - '0' as u32) as usize;
        if d > max || v > (max - d) / 10 {
            assert(v * 10 + d > max) by (nonlinear_arith)
                requires
                    d > max || v > (max - d) / 10,
                    d <= max ==> (max - d) / 10 * 10 + 10 > max - d,
            ;
            proof {
                lemma_scan_error_persists(
                    cs@.subrange(from as int, to as int),
                    i + 1 - from,
                    max as nat,
                );
            }
            return Err(IntErrorKind::PosOverflow);
        }
        assert(v * 10 + d <= max) by (nonlinear_arith)
            requires
                v <= (max - d) / 10,
                d <= max,
        ;
        v = v * 10 + d;
        i = i + 1;
    }
    Ok(v)
}

/// What Rust's `u32` parsing makes of `s`: an optional `+`, then decimal
/// digits whose value fits in 32 bits.
pub open spec fn parse_u32(s: Seq<char>) -> Result<u32, IntErrorKind> {
    if s.len() == 0 {
        Err(IntErrorKind::Empty)
    } else {
        let d = if s[0] == '+' {
            s.drop_first()
        } else {
            s
        };
        if d.len() == 0 {
            Err(IntErrorKind::InvalidDigit)
        } else {
            match scan_digits(d, u32::MAX as nat) {
                Ok(v) => Ok(v as u32),
                Err(e) => Err(e),
            }
        }
    }
}

/// Parses `s` as an unsigned 32-bit integer.
pub fn parse_u32_text(s: &str) -> (r: Result<u32, IntErrorKind>)
    ensures
        r == parse_u32(s@),
{
    let cs = chars_of(s);
    let n = cs.len();
    if n == 0 {
        return Err(IntErrorKind::Empty);
    }
    let start: usize = if cs[0] == '+' {
        1
    } else {
        0
    };
    assert(cs@.subrange(start as int, n as int) =~= if s@[0] == '+' {
        s@.drop_first()
    } else {
        s@
    });
    if start == n {
        return Err(IntErrorKind::InvalidDigit);
    }
    match scan_decimal(&cs, start, n, 0xffff_ffff) {
        Ok(v) => {
            proof {
                lemma_scan_bounded(cs@.subrange(start as int, n as int), u32::MAX as nat);
            }
            Ok(v as u32)
        },
        Err(e) => Err(e),
    }
}

proof fn lemma_scan_bounded(d: Seq<char>, max: nat)
    ensures
        scan_digits(d, max) matches Ok(v) ==> v <= max,
    decreases d.len(),
{
    if d.len() > 0 {
        lemma_scan_bounded(d.drop_last(), max);
    }
}

/// The character of the digit `d`.
pub open spec fn digit_char(d: nat) -> char {
    if d == 0 {
        '0'
    } else if d == 1 {
        '1'
    } else if d == 2 {
        '2'
    } else if d == 3 {
        '3'
    } else if d == 4 {
        '4'
    } else if d == 5 {
        '5'
    } else if d == 6 {
        '6'
    } else if d == 7 {
        '7'
    } else if d == 8 {
        '8'
    } else {
        '9'
    }
}

/// The decimal notation of `n`, without leading zeros.
pub open spec fn decimal(n: nat) -> Seq<char>
    decreases n,
{
    if n < 10 {
        seq![digit_char(n)]
    } else {
        decimal(n / 10).push(digit_char(n % 10))
    }
}

fn digit_text(d: u64) -> (r: &'static str)
    requires
        d < 10,
    ensures
        r@ == seq![digit_char(d as nat)],
{
    proof {
        reveal_strlit("0");
        reveal_strlit("1");
        reveal_strlit("2");
        reveal_strlit("3");
        reveal_strlit("4");
        reveal_strlit("5");
        reveal_strlit("6");
        reveal_strlit("7");
        reveal_strlit("8");
        reveal_strlit("9");
    }
    let r = if d == 0 {
        "0"
    } else if d == 1 {
        "1"
    } else if d == 2 {
        "2"
    } else if d == 3 {
        "3"
    } else if d == 4 {
        "4"
    } else if d == 5 {
        "5"
    } else if d == 6 {
        "6"
    } else if d == 7 {
        "7"
    } else if d == 8 {
        "8"
    } else {
        "9"
    };
    assert(r@ =~= seq![digit_char(d as nat)]);
    r
}

/// Appends the decimal notation of `n` to `out`.
pub fn push_decimal(out: &mut String, n: u64)
    ensures
        final(out)@ == old(out)@ + decimal(n as nat),
    decreases n,
{
    if n >= 10 {
        push_decimal(out, n / 10);
    }
    out.append(digit_text(n % 10));
    assert(old(out)@ + decimal(n as nat) =~= out@);
}

} // verus!

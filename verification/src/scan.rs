//! Character-level scanning used by the theme parser: whitespace
//! classification, trimming, locating a separator, and string equality.

use vstd::prelude::*;

verus! {

/// The whitespace characters of the theme format: the Unicode `White_Space`
/// set, so that a line of nothing but spacing is skipped and keys and values
/// are trimmed the way users expect.
pub open spec fn is_space_char(c: char) -> bool {
    let u = c as u32;
    ||| u == 0x09
    ||| u == 0x0A
    ||| u == 0x0B
    ||| u == 0x0C
    ||| u == 0x0D
    ||| u == 0x20
    ||| u == 0x85
    ||| u == 0xA0
    ||| u == 0x1680
    ||| (0x2000 <= u && u <= 0x200A)
    ||| u == 0x2028
    ||| u == 0x2029
    ||| u == 0x202F
    ||| u == 0x205F
    ||| u == 0x3000
}

pub fn is_space(c: char) -> (r: bool)
    ensures
        r == is_space_char(c),
{
    let u: u32 = c as u32;
    u == 0x09 || u == 0x0A || u == 0x0B || u == 0x0C || u == 0x0D || u == 0x20 || u == 0x85
        || u == 0xA0 || u == 0x1680 || (0x2000 <= u && u <= 0x200A) || u == 0x2028 || u == 0x2029
        || u == 0x202F || u == 0x205F || u == 0x3000
}

/// Equality of two strings, decided character by character.
pub fn str_eq(a: &str, b: &str) -> (r: bool)
    ensures
        r == (a@ == b@),
{
    let alen = a.unicode_len();
    let blen = b.unicode_len();
    if alen != blen {
        return false;
    }
    let mut i: usize = 0;
    while i < alen
        invariant
            alen == a@.len(),
            alen == b@.len(),
            0 <= i <= alen,
            forall|j: int| 0 <= j < i ==> a@[j] == b@[j],
        decreases alen - i,
    {
        if a.get_char(i) != b.get_char(i) {
            return false;
        }
        i += 1;
    }
    proof {
        assert(a@ =~= b@);
    }
    true
}

/// The string without its leading whitespace.
pub open spec fn trim_start_spec(s: Seq<char>) -> Seq<char>
    decreases s.len(),
{
    if s.len() > 0 && is_space_char(s[0]) {
        trim_start_spec(s.subrange(1, s.len() as int))
    } else {
        s
    }
}

/// The string without its trailing whitespace.
pub open spec fn trim_end_spec(s: Seq<char>) -> Seq<char>
    decreases s.len(),
{
    if s.len() > 0 && is_space_char(s[s.len() - 1]) {
        trim_end_spec(s.drop_last())
    } else {
        s
    }
}

/// The string without surrounding whitespace.
pub open spec fn trim_spec(s: Seq<char>) -> Seq<char> {
    trim_end_spec(trim_start_spec(s))
}

pub fn trim_start<'a>(s: &'a str) -> (r: &'a str)
    ensures
        r@ == trim_start_spec(s@),
    decreases s@.len(),
{
    let n = s.unicode_len();
    if n > 0 && is_space(s.get_char(0)) {
        trim_start(s.substring_char(1, n))
    } else {
        s
    }
}

pub fn trim_end<'a>(s: &'a str) -> (r: &'a str)
    ensures
        r@ == trim_end_spec(s@),
    decreases s@.len(),
{
    let n = s.unicode_len();
    if n > 0 && is_space(s.get_char(n - 1)) {
        proof {
            assert(s@.subrange(0, s@.len() - 1) =~= s@.drop_last());
        }
        trim_end(s.substring_char(0, n - 1))
    } else {
        s
    }
}

pub fn trim<'a>(s: &'a str) -> (r: &'a str)
    ensures
        r@ == trim_spec(s@),
{
    trim_end(trim_start(s))
}

/// Index of the first occurrence of `c` in `s`, if any.
pub open spec fn find_char_spec(s: Seq<char>, c: char) -> Option<int>
    decreases s.len(),
{
    if s.len() == 0 {
        None
    } else if s[0] == c {
        Some(0int)
    } else {
        match find_char_spec(s.subrange(1, s.len() as int), c) {
            Some(i) => Some(i + 1),
            None => None,
        }
    }
}

/// `find_char_spec` names exactly the first occurrence: the index it returns
/// holds `c` and everything before it does not.
pub proof fn lemma_find_char_spec(s: Seq<char>, c: char)
    ensures
        match find_char_spec(s, c) {
            Some(i) => 0 <= i < s.len() && s[i] == c && (forall|j: int| 0 <= j < i ==> s[j] != c),
            None => forall|j: int| 0 <= j < s.len() ==> s[j] != c,
        },
    decreases s.len(),
{
    if s.len() > 0 && s[0] != c {
        let t = s.subrange(1, s.len() as int);
        lemma_find_char_spec(t, c);
        assert(forall|j: int| 1 <= j < s.len() ==> s[j] == t[j - 1]);
    }
}

pub fn find_char(s: &str, c: char) -> (r: Option<usize>)
    ensures
        match r {
            Some(i) => find_char_spec(s@, c) == Some(i as int),
            None => find_char_spec(s@, c) is None,
        },
    decreases s@.len(),
{
    let n = s.unicode_len();
    if n == 0 {
        None
    } else if s.get_char(0) == c {
        Some(0)
    } else {
        let rest = s.substring_char(1, n);
        match find_char(rest, c) {
            Some(i) => {
                proof {
                    lemma_find_char_spec(rest@, c);
                }
                Some(i + 1)
            },
            None => None,
        }
    }
}

/// Value of `c` as a digit in the given base, if it is one. Letter digits are
/// accepted in both cases, as in hexadecimal code points.
pub open spec fn digit_val(c: char, base: int) -> Option<int> {
    let u = (c as u32) as int;
    let d: int = if 0x30 <= u && u <= 0x39 {
        u - 0x30
    } else if 0x61 <= u && u <= 0x66 {
        u - 0x61 + 10
    } else if 0x41 <= u && u <= 0x46 {
        u - 0x41 + 10
    } else {
        -1
    };
    if 0 <= d && d < base {
        Some(d)
    } else {
        None
    }
}

/// Value of a non-empty run of digits in the given base; `None` if the run is
/// empty or holds a character that is no digit of that base.
pub open spec fn digits_val(s: Seq<char>, base: int) -> Option<int>
    decreases s.len(),
{
    if s.len() == 0 {
        None
    } else if s.len() == 1 {
        digit_val(s[0], base)
    } else {
        match (digits_val(s.drop_last(), base), digit_val(s.last(), base)) {
            (Some(v), Some(d)) => Some(v * base + d),
            _ => None,
        }
    }
}

/// The string without one leading plus sign, the one sign the number grammar
/// admits.
pub open spec fn strip_plus(s: Seq<char>) -> Seq<char> {
    if s.len() > 0 && s[0] == '+' {
        s.subrange(1, s.len() as int)
    } else {
        s
    }
}

/// An unsigned integer written in the given base, optionally signed with `+`,
/// rejected when its value exceeds `max`.
pub open spec fn parse_uint_spec(s: Seq<char>, base: int, max: int) -> Option<int> {
    match digits_val(strip_plus(s), base) {
        Some(v) => if v <= max {
            Some(v)
        } else {
            None
        },
        None => None,
    }
}

pub proof fn lemma_digits_val_push(s: Seq<char>, c: char, base: int)
    ensures
        digits_val(s.push(c), base) == (if s.len() == 0 {
            digit_val(c, base)
        } else {
            match (digits_val(s, base), digit_val(c, base)) {
                (Some(v), Some(d)) => Some(v * base + d),
                _ => None,
            }
        }),
{
    assert(s.push(c).drop_last() =~= s);
    assert(s.push(c).last() == c);
    if s.len() == 0 {
        assert(s.push(c)[0] == c);
    }
}

pub proof fn lemma_digits_val_none(s: Seq<char>, base: int, i: int)
    requires
        0 <= i < s.len(),
        digit_val(s[i], base) is None,
    ensures
        digits_val(s, base) is None,
    decreases s.len(),
{
    if s.len() > 1 && i < s.len() - 1 {
        lemma_digits_val_none(s.drop_last(), base, i);
    }
}

fn digit_of(c: char, base: u64) -> (r: Option<u64>)
    requires
        2 <= base <= 16,
    ensures
        match r {
            Some(d) => digit_val(c, base as int) == Some(d as int) && d < base,
            None => digit_val(c, base as int) is None,
        },
{
    let u: u32 = c as u32;
    let d: u64 = if 0x30 <= u && u <= 0x39 {
        (u - 0x30) as u64
    } else if 0x61 <= u && u <= 0x66 {
        (u - 0x61 + 10) as u64
    } else if 0x41 <= u && u <= 0x46 {
        (u - 0x41 + 10) as u64
    } else {
        99
    };
    if d < base {
        Some(d)
    } else {
        None
    }
}

/// Parses `s` as an unsigned integer in `base`, rejecting values over `max`.
pub fn parse_uint(s: &str, base: u64, max: u64) -> (r: Option<u64>)
    requires
        2 <= base <= 16,
        max <= 0xFFFF_FFFFu64,
    ensures
        match r {
            Some(v) => parse_uint_spec(s@, base as int, max as int) == Some(v as int) && v <= max,
            None => parse_uint_spec(s@, base as int, max as int) is None,
        },
{
    let n = s.unicode_len();
    let has_plus = n > 0 && s.get_char(0) == '+';
    let start: usize = if has_plus {
        1
    } else {
        0
    };
    proof {
        assert(strip_plus(s@) =~= s@.subrange(start as int, n as int));
    }
    let mut i: usize = start;
    let mut acc: u64 = 0;
    let mut too_big = false;
    let ghost mut gv: int = 0;
    while i < n
        invariant
            n == s@.len(),
            start <= i <= n,
            strip_plus(s@) == s@.subrange(start as int, n as int),
            2 <= base <= 16,
            max <= 0xFFFF_FFFFu64,
            gv >= 0,
            i > start ==> digits_val(s@.subrange(start as int, i as int), base as int) == Some(gv),
            i == start ==> gv == 0 && !too_big,
            too_big <==> gv > max,
            !too_big ==> acc as int == gv,
        decreases n - i,
    {
        let c = s.get_char(i);
        let ghost pre = s@.subrange(start as int, i as int);
        proof {
            assert(pre.push(c) =~= s@.subrange(start as int, i as int + 1));
            lemma_digits_val_push(pre, c, base as int);
        }
        match digit_of(c, base) {
            None => {
                proof {
                    let body = s@.subrange(start as int, n as int);
                    assert(strip_plus(s@) =~= body);
                    assert(body[i - start] == c);
                    lemma_digits_val_none(body, base as int, i - start);
                }
                return None;
            },
            Some(d) => {
                proof {
                    if gv > max {
                        assert(gv * base >= gv) by (nonlinear_arith)
                            requires
                                gv >= 0,
                                base >= 2,
                        ;
                    }
                    gv = gv * (base as int) + d;
                }
                if !too_big {
                    proof {
                        assert((acc as int) * (base as int) + (d as int) <= 0xFFFF_FFFF * 16
                            + 15) by (nonlinear_arith)
                            requires
                                acc <= 0xFFFF_FFFFu64,
                                base <= 16,
                                d <= 15,
                        ;
                    }
                    let next: u64 = acc * base + d;
                    if next > max {
                        too_big = true;
                    } else {
                        acc = next;
                    }
                }
            },
        }
        i += 1;
    }
    proof {
        assert(strip_plus(s@) =~= s@.subrange(start as int, n as int));
    }
    if i == start {
        return None;
    }
    if too_big {
        return None;
    }
    Some(acc)
}

} // verus!

//! The theme configuration parser: a line-oriented `key = value` format in
//! which a key ending in `char` carries a glyph (one character, or a
//! hexadecimal code point) and every other key carries a color (three
//! comma-separated decimal integers, each at most 255). Comment and blank
//! lines are skipped; anything else that cannot be placed in the store is a
//! corruption error. Parsing is fail-fast: it stops at the first bad line, and
//! a store is returned only when every line was applied, so a caller never
//! sees a partially applied store.

use vstd::prelude::*;

use crate::scan;
use crate::theme::{
    char_role_of_name, default_theme, lemma_set_char_effect, lemma_set_rgb_effect,
    rgb_role_of_name, spec_char, spec_rgb, spec_set_char, spec_set_rgb, theme_index_char,
    theme_index_rgb, CharRole, RgbRole, Theme,
};

verus! {

/// The single uniform error for a malformed theme file: a missing separator,
/// an unknown role name, a bad color triple, or a bad glyph.
#[derive(Debug)]
pub struct ErrCorrupt;

impl ErrCorrupt {
    /// The message shown to the user for a corrupt theme file.
    pub fn message(&self) -> (s: String)
        ensures
            s@ == "Corrupt theme file"@,
    {
        String::from_str("Corrupt theme file")
    }
}

/// One 8-bit color component: decimal digits with at most one leading `+`,
/// rejected outside 0..=255.
pub open spec fn parse_u8_spec(s: Seq<char>) -> Option<u8> {
    match scan::parse_uint_spec(s, 10, 255) {
        Some(v) => Some(v as u8),
        None => None,
    }
}

pub fn parse_u8(s: &str) -> (r: Option<u8>)
    ensures
        r == parse_u8_spec(s@),
{
    match scan::parse_uint(s, 10, 255) {
        Some(v) => Some(v as u8),
        None => None,
    }
}

/// The three fields of a color value: the text before the first comma, the
/// text between the first and second commas, and the comma-free rest. `None`
/// when the value does not have exactly three fields.
pub open spec fn color_fields(v: Seq<char>) -> Option<(Seq<char>, Seq<char>, Seq<char>)> {
    match scan::find_char_spec(v, ',') {
        None => None,
        Some(i) => {
            let rest = v.subrange(i + 1, v.len() as int);
            match scan::find_char_spec(rest, ',') {
                None => None,
                Some(j) => {
                    let f3 = rest.subrange(j + 1, rest.len() as int);
                    if scan::find_char_spec(f3, ',') is Some {
                        None
                    } else {
                        Some((v.subrange(0, i), rest.subrange(0, j), f3))
                    }
                },
            }
        },
    }
}

/// A color value: exactly three comma-separated 8-bit decimal components.
pub open spec fn parse_color_spec(v: Seq<char>) -> Option<(u8, u8, u8)> {
    match color_fields(v) {
        None => None,
        Some((f1, f2, f3)) => match (parse_u8_spec(f1), parse_u8_spec(f2), parse_u8_spec(f3)) {
            (Some(a), Some(b), Some(c)) => Some((a, b, c)),
            _ => None,
        },
    }
}

pub fn parse_color(value: &str) -> (r: Option<(u8, u8, u8)>)
    ensures
        r == parse_color_spec(value@),
{
    let n = value.unicode_len();
    match scan::find_char(value, ',') {
        None => None,
        Some(i) => {
            proof {
                scan::lemma_find_char_spec(value@, ',');
            }
            let f1 = value.substring_char(0, i);
            let rest = value.substring_char(i + 1, n);
            let rn = rest.unicode_len();
            match scan::find_char(rest, ',') {
                None => None,
                Some(j) => {
                    proof {
                        scan::lemma_find_char_spec(rest@, ',');
                    }
                    let f2 = rest.substring_char(0, j);
                    let f3 = rest.substring_char(j + 1, rn);
                    match scan::find_char(f3, ',') {
                        Some(_) => None,
                        None => match (parse_u8(f1), parse_u8(f2), parse_u8(f3)) {
                            (Some(a), Some(b), Some(c)) => Some((a, b, c)),
                            _ => None,
                        },
                    }
                },
            }
        },
    }
}

/// A number is a Unicode scalar value when a `char` holds it: anything below
/// the surrogate range, or above it and at most 0x10FFFF.
pub open spec fn is_unicode_scalar(n: int) -> bool {
    (0 <= n && n < 0xD800) || (0xE000 <= n && n <= 0x10FFFF)
}

/// The character whose code point is `n`.
pub open spec fn scalar_from_codepoint(n: int) -> char {
    choose|c: char| (#[trigger] (c as u32)) == n
}

/// Relies on char::from_u32: it returns the character with code `n` exactly
/// when `n` is a Unicode scalar value (not a surrogate, at most 0x10FFFF).
#[verifier::external_body]
fn char_from_u32(n: u32) -> (r: Option<char>)
    ensures
        r is Some <==> is_unicode_scalar(n as int),
        r matches Some(c) ==> c as u32 == n && c == scalar_from_codepoint(n as int),
{
    char::from_u32(n)
}

/// A glyph value: a single character stands for itself; anything longer is a
/// hexadecimal code point, which must fit in 32 bits and name a Unicode scalar
/// value.
pub open spec fn parse_glyph_spec(v: Seq<char>) -> Option<char> {
    if v.len() == 1 {
        Some(v[0])
    } else {
        match scan::parse_uint_spec(v, 16, 0xFFFF_FFFF) {
            Some(n) => if is_unicode_scalar(n) {
                Some(scalar_from_codepoint(n))
            } else {
                None
            },
            None => None,
        }
    }
}

pub fn parse_glyph(value: &str) -> (r: Option<char>)
    ensures
        r == parse_glyph_spec(value@),
{
    let n = value.unicode_len();
    if n == 1 {
        Some(value.get_char(0))
    } else {
        match scan::parse_uint(value, 16, 0xFFFF_FFFF) {
            Some(cp) => char_from_u32(cp as u32),
            None => None,
        }
    }
}

/// A comment line: its very first character is the comment marker.
pub open spec fn is_comment(line: Seq<char>) -> bool {
    line.len() > 0 && line[0] == '#'
}

/// A blank line: nothing but whitespace (an empty line included).
pub open spec fn is_blank(line: Seq<char>) -> bool {
    forall|i: int| 0 <= i < line.len() ==> scan::is_space_char(line[i])
}

/// A line the parser passes over without touching the store.
pub open spec fn is_skippable(line: Seq<char>) -> bool {
    is_comment(line) || is_blank(line)
}

fn is_comment_line(line: &str) -> (r: bool)
    ensures
        r == is_comment(line@),
{
    let n = line.unicode_len();
    n > 0 && line.get_char(0) == '#'
}

fn is_blank_line(line: &str) -> (r: bool)
    ensures
        r == is_blank(line@),
{
    let n = line.unicode_len();
    let mut i: usize = 0;
    while i < n
        invariant
            n == line@.len(),
            0 <= i <= n,
            forall|j: int| 0 <= j < i ==> scan::is_space_char(line@[j]),
        decreases n - i,
    {
        if !scan::is_space(line.get_char(i)) {
            return false;
        }
        i += 1;
    }
    true
}

/// Whether a key names a glyph slot by convention: it ends in `char`.
pub open spec fn has_char_suffix(k: Seq<char>) -> bool {
    k.len() >= 4 && k.subrange(k.len() - 4, k.len() as int) == seq!['c', 'h', 'a', 'r']
}

fn key_has_char_suffix(k: &str) -> (r: bool)
    ensures
        r == has_char_suffix(k@),
{
    let n = k.unicode_len();
    if n < 4 {
        false
    } else {
        let r = k.get_char(n - 4) == 'c' && k.get_char(n - 3) == 'h' && k.get_char(n - 2) == 'a'
            && k.get_char(n - 1) == 'r';
        proof {
            let tail = k@.subrange(k@.len() - 4, k@.len() as int);
            if r {
                assert(tail =~= seq!['c', 'h', 'a', 'r']);
            } else {
                assert(tail[0] == k@[k@.len() - 4] && tail[1] == k@[k@.len() - 3] && tail[2]
                    == k@[k@.len() - 2] && tail[3] == k@[k@.len() - 1]);
            }
        }
        r
    }
}

/// What one line does to the store.
pub enum LineEffect {
    /// A comment or blank line: nothing.
    Skip,
    /// A recognized color role set to a parsed triple.
    SetRgb(RgbRole, (u8, u8, u8)),
    /// A recognized glyph role set to a parsed character.
    SetChar(CharRole, char),
    /// A malformed line: parsing stops here.
    Corrupt,
}

/// The per-line rule: skip comments and blanks; otherwise the line must split
/// on its first `=` into a trimmed key and a trimmed value, the key's suffix
/// picks the value grammar, and the key must name a slot of that kind.
pub open spec fn line_effect(line: Seq<char>) -> LineEffect {
    if is_skippable(line) {
        LineEffect::Skip
    } else {
        match scan::find_char_spec(line, '=') {
            None => LineEffect::Corrupt,
            Some(i) => {
                let key = scan::trim_spec(line.subrange(0, i));
                let value = scan::trim_spec(line.subrange(i + 1, line.len() as int));
                if has_char_suffix(key) {
                    match char_role_of_name(key) {
                        None => LineEffect::Corrupt,
                        Some(role) => match parse_glyph_spec(value) {
                            Some(c) => LineEffect::SetChar(role, c),
                            None => LineEffect::Corrupt,
                        },
                    }
                } else {
                    match rgb_role_of_name(key) {
                        None => LineEffect::Corrupt,
                        Some(role) => match parse_color_spec(value) {
                            Some(v) => LineEffect::SetRgb(role, v),
                            None => LineEffect::Corrupt,
                        },
                    }
                }
            },
        }
    }
}

/// The store after one line: unchanged for a skipped line, one slot written
/// for a well-formed line, `None` for a corrupt one.
pub open spec fn apply_line_spec(t: Theme, line: Seq<char>) -> Option<Theme> {
    match line_effect(line) {
        LineEffect::Skip => Some(t),
        LineEffect::SetRgb(role, v) => Some(spec_set_rgb(t, role, v)),
        LineEffect::SetChar(role, c) => Some(spec_set_char(t, role, c)),
        LineEffect::Corrupt => None,
    }
}

/// Applies one theme file line to the store in place. On a corrupt line the
/// store is left exactly as it was.
pub fn apply_line(theme: &mut Theme, line: &str) -> (r: Result<(), ErrCorrupt>)
    ensures
        match r {
            Ok(_) => apply_line_spec(*old(theme), line@) == Some(*final(theme)),
            Err(_) => apply_line_spec(*old(theme), line@) is None && *final(theme) == *old(theme),
        },
{
    if is_comment_line(line) || is_blank_line(line) {
        return Ok(());
    }
    let n = line.unicode_len();
    match scan::find_char(line, '=') {
        None => Err(ErrCorrupt),
        Some(i) => {
            proof {
                scan::lemma_find_char_spec(line@, '=');
            }
            let key = scan::trim(line.substring_char(0, i));
            let value = scan::trim(line.substring_char(i + 1, n));
            if key_has_char_suffix(key) {
                match theme_index_char(key) {
                    None => Err(ErrCorrupt),
                    Some(role) => match parse_glyph(value) {
                        None => Err(ErrCorrupt),
                        Some(c) => {
                            theme.set_char(role, c);
                            Ok(())
                        },
                    },
                }
            } else {
                match theme_index_rgb(key) {
                    None => Err(ErrCorrupt),
                    Some(role) => match parse_color(value) {
                        None => Err(ErrCorrupt),
                        Some(v) => {
                            theme.set_rgb(role, v);
                            Ok(())
                        },
                    },
                }
            }
        },
    }
}

/// The store after the given lines are applied to `t` in order, `None` as soon
/// as one of them is corrupt.
pub open spec fn parse_theme_lines_spec(t: Theme, lines: Seq<Seq<char>>) -> Option<Theme>
    decreases lines.len(),
{
    if lines.len() == 0 {
        Some(t)
    } else {
        match parse_theme_lines_spec(t, lines.drop_last()) {
            Some(t2) => apply_line_spec(t2, lines.last()),
            None => None,
        }
    }
}

/// The store a whole theme file denotes: every line applied in order to the
/// all-default store.
pub open spec fn parse_theme_spec(lines: Seq<Seq<char>>) -> Option<Theme> {
    parse_theme_lines_spec(default_theme(), lines)
}

/// Once a prefix of the file is corrupt, the whole file is.
pub proof fn lemma_parse_prefix_none(t: Theme, lines: Seq<Seq<char>>, k: int)
    requires
        0 <= k <= lines.len(),
        parse_theme_lines_spec(t, lines.subrange(0, k)) is None,
    ensures
        parse_theme_lines_spec(t, lines) is None,
    decreases lines.len() - k,
{
    if k < lines.len() {
        assert(lines.subrange(0, k + 1).drop_last() =~= lines.subrange(0, k));
        lemma_parse_prefix_none(t, lines, k + 1);
    } else {
        assert(lines.subrange(0, lines.len() as int) =~= lines);
    }
}

/// Parses a whole theme file, given as its lines. Returns the fully populated
/// store, or the corruption error from the first bad line, in which case no
/// store is returned at all: a failed parse never hands out a partially
/// applied store.
pub fn parse_theme(lines: &Vec<String>) -> (r: Result<Theme, ErrCorrupt>)
    ensures
        match r {
            Ok(t) => parse_theme_spec(lines@.map_values(|l: String| l@)) == Some(t),
            Err(_) => parse_theme_spec(lines@.map_values(|l: String| l@)) is None,
        },
{
    let ghost views = lines@.map_values(|l: String| l@);
    let mut theme = Theme::default();
    let mut i: usize = 0;
    while i < lines.len()
        invariant
            views == lines@.map_values(|l: String| l@),
            0 <= i <= lines.len(),
            parse_theme_lines_spec(default_theme(), views.subrange(0, i as int)) == Some(theme),
        decreases lines.len() - i,
    {
        let res = apply_line(&mut theme, lines[i].as_str());
        proof {
            assert(views.subrange(0, i as int + 1).drop_last() =~= views.subrange(0, i as int));
            assert(views.subrange(0, i as int + 1).last() == views[i as int]);
        }
        match res {
            Ok(_) => {},
            Err(e) => {
                proof {
                    lemma_parse_prefix_none(default_theme(), views, i as int + 1);
                }
                return Err(e);
            },
        }
        i += 1;
    }
    proof {
        assert(views.subrange(0, lines@.len() as int) =~= views);
    }
    Ok(theme)
}

/// The trimmed key of a line, when the line has a separator at all.
pub open spec fn line_key(line: Seq<char>) -> Option<Seq<char>> {
    match scan::find_char_spec(line, '=') {
        Some(i) => Some(scan::trim_spec(line.subrange(0, i))),
        None => None,
    }
}

/// Whether a line writes the given color slot.
pub open spec fn sets_rgb_role(line: Seq<char>, role: RgbRole) -> bool {
    line_effect(line) matches LineEffect::SetRgb(r, v) && r == role
}

/// Whether a line writes the given glyph slot.
pub open spec fn sets_char_role(line: Seq<char>, role: CharRole) -> bool {
    line_effect(line) matches LineEffect::SetChar(r, c) && r == role
}

proof fn lemma_parse_lines_ok(t: Theme, lines: Seq<Seq<char>>)
    requires
        forall|j: int| 0 <= j < lines.len() ==> !((#[trigger] line_effect(lines[j]))
            is Corrupt),
    ensures
        parse_theme_lines_spec(t, lines) is Some,
    decreases lines.len(),
{
    if lines.len() > 0 {
        let prev = lines.drop_last();
        assert(forall|j: int| 0 <= j < prev.len() ==> prev[j] == lines[j]);
        lemma_parse_lines_ok(t, prev);
        assert(!(line_effect(lines[lines.len() - 1]) is Corrupt));
    }
}

/// Well-formedness law: a file in which every line is a comment, a blank, or a
/// well-formed assignment to a recognized role parses successfully.
pub proof fn lemma_parse_ok(lines: Seq<Seq<char>>)
    requires
        forall|j: int| 0 <= j < lines.len() ==> !((#[trigger] line_effect(lines[j]))
            is Corrupt),
    ensures
        parse_theme_spec(lines) is Some,
{
    lemma_parse_lines_ok(default_theme(), lines);
}

proof fn lemma_lww_rgb_rec(t: Theme, lines: Seq<Seq<char>>, i: int, role: RgbRole, v: (u8, u8, u8))
    requires
        forall|j: int| 0 <= j < lines.len() ==> !((#[trigger] line_effect(lines[j]))
            is Corrupt),
        0 <= i < lines.len(),
        line_effect(lines[i]) == LineEffect::SetRgb(role, v),
        forall|j: int| i < j < lines.len() ==> !sets_rgb_role(#[trigger] lines[j], role),
    ensures
        parse_theme_lines_spec(t, lines) matches Some(t2) && spec_rgb(t2, role) == v,
    decreases lines.len(),
{
    lemma_parse_lines_ok(t, lines);
    let prev = lines.drop_last();
    assert(forall|j: int| 0 <= j < prev.len() ==> prev[j] == lines[j]);
    lemma_parse_lines_ok(t, prev);
    let t1 = parse_theme_lines_spec(t, prev)->Some_0;
    let last = lines[lines.len() - 1];
    if i == lines.len() - 1 {
        lemma_set_rgb_effect(t1, role, v);
    } else {
        lemma_lww_rgb_rec(t, prev, i, role, v);
        assert(!sets_rgb_role(last, role));
        match line_effect(last) {
            LineEffect::Skip => {},
            LineEffect::SetRgb(r2, v2) => {
                lemma_set_rgb_effect(t1, r2, v2);
            },
            LineEffect::SetChar(r2, c2) => {
                lemma_set_char_effect(t1, r2, c2);
            },
            LineEffect::Corrupt => {
                assert(false);
            },
        }
    }
}

/// Last-write-wins law, colors: in a file of well-formed lines, a color slot's
/// final value is the parsed value of the last line that writes it.
pub proof fn lemma_last_write_wins_rgb(
    lines: Seq<Seq<char>>,
    i: int,
    role: RgbRole,
    v: (u8, u8, u8),
)
    requires
        forall|j: int| 0 <= j < lines.len() ==> !((#[trigger] line_effect(lines[j]))
            is Corrupt),
        0 <= i < lines.len(),
        line_effect(lines[i]) == LineEffect::SetRgb(role, v),
        forall|j: int| i < j < lines.len() ==> !sets_rgb_role(#[trigger] lines[j], role),
    ensures
        parse_theme_spec(lines) matches Some(t) && spec_rgb(t, role) == v,
{
    lemma_lww_rgb_rec(default_theme(), lines, i, role, v);
}

proof fn lemma_lww_char_rec(t: Theme, lines: Seq<Seq<char>>, i: int, role: CharRole, c: char)
    requires
        forall|j: int| 0 <= j < lines.len() ==> !((#[trigger] line_effect(lines[j]))
            is Corrupt),
        0 <= i < lines.len(),
        line_effect(lines[i]) == LineEffect::SetChar(role, c),
        forall|j: int| i < j < lines.len() ==> !sets_char_role(#[trigger] lines[j], role),
    ensures
        parse_theme_lines_spec(t, lines) matches Some(t2) && spec_char(t2, role) == c,
    decreases lines.len(),
{
    lemma_parse_lines_ok(t, lines);
    let prev = lines.drop_last();
    assert(forall|j: int| 0 <= j < prev.len() ==> prev[j] == lines[j]);
    lemma_parse_lines_ok(t, prev);
    let t1 = parse_theme_lines_spec(t, prev)->Some_0;
    let last = lines[lines.len() - 1];
    if i == lines.len() - 1 {
        lemma_set_char_effect(t1, role, c);
    } else {
        lemma_lww_char_rec(t, prev, i, role, c);
        assert(!sets_char_role(last, role));
        match line_effect(last) {
            LineEffect::Skip => {},
            LineEffect::SetRgb(r2, v2) => {
                lemma_set_rgb_effect(t1, r2, v2);
            },
            LineEffect::SetChar(r2, c2) => {
                lemma_set_char_effect(t1, r2, c2);
            },
            LineEffect::Corrupt => {
                assert(false);
            },
        }
    }
}

/// Last-write-wins law, glyphs: in a file of well-formed lines, a glyph slot's
/// final value is the parsed value of the last line that writes it.
pub proof fn lemma_last_write_wins_char(lines: Seq<Seq<char>>, i: int, role: CharRole, c: char)
    requires
        forall|j: int| 0 <= j < lines.len() ==> !((#[trigger] line_effect(lines[j]))
            is Corrupt),
        0 <= i < lines.len(),
        line_effect(lines[i]) == LineEffect::SetChar(role, c),
        forall|j: int| i < j < lines.len() ==> !sets_char_role(#[trigger] lines[j], role),
    ensures
        parse_theme_spec(lines) matches Some(t) && spec_char(t, role) == c,
{
    lemma_lww_char_rec(default_theme(), lines, i, role, c);
}

proof fn lemma_rgb_untouched_rec(t: Theme, lines: Seq<Seq<char>>, role: RgbRole)
    requires
        forall|j: int| 0 <= j < lines.len() ==> !((#[trigger] line_effect(lines[j]))
            is Corrupt),
        forall|j: int| 0 <= j < lines.len() ==> !sets_rgb_role(#[trigger] lines[j], role),
    ensures
        parse_theme_lines_spec(t, lines) matches Some(t2) && spec_rgb(t2, role) == spec_rgb(
            t,
            role,
        ),
    decreases lines.len(),
{
    lemma_parse_lines_ok(t, lines);
    if lines.len() > 0 {
        let prev = lines.drop_last();
        assert(forall|j: int| 0 <= j < prev.len() ==> prev[j] == lines[j]);
        lemma_rgb_untouched_rec(t, prev, role);
        let t1 = parse_theme_lines_spec(t, prev)->Some_0;
        let last = lines[lines.len() - 1];
        assert(!sets_rgb_role(last, role));
        match line_effect(last) {
            LineEffect::Skip => {},
            LineEffect::SetRgb(r2, v2) => {
                lemma_set_rgb_effect(t1, r2, v2);
            },
            LineEffect::SetChar(r2, c2) => {
                lemma_set_char_effect(t1, r2, c2);
            },
            LineEffect::Corrupt => {
                assert(false);
            },
        }
    }
}

/// The complement of last-write-wins, colors: a color slot no line writes
/// keeps its default.
pub proof fn lemma_untouched_rgb_keeps_default(lines: Seq<Seq<char>>, role: RgbRole)
    requires
        forall|j: int| 0 <= j < lines.len() ==> !((#[trigger] line_effect(lines[j]))
            is Corrupt),
        forall|j: int| 0 <= j < lines.len() ==> !sets_rgb_role(#[trigger] lines[j], role),
    ensures
        parse_theme_spec(lines) matches Some(t) && spec_rgb(t, role) == spec_rgb(
            default_theme(),
            role,
        ),
{
    lemma_rgb_untouched_rec(default_theme(), lines, role);
}

proof fn lemma_char_untouched_rec(t: Theme, lines: Seq<Seq<char>>, role: CharRole)
    requires
        forall|j: int| 0 <= j < lines.len() ==> !((#[trigger] line_effect(lines[j]))
            is Corrupt),
        forall|j: int| 0 <= j < lines.len() ==> !sets_char_role(#[trigger] lines[j], role),
    ensures
        parse_theme_lines_spec(t, lines) matches Some(t2) && spec_char(t2, role) == spec_char(
            t,
            role,
        ),
    decreases lines.len(),
{
    lemma_parse_lines_ok(t, lines);
    if lines.len() > 0 {
        let prev = lines.drop_last();
        assert(forall|j: int| 0 <= j < prev.len() ==> prev[j] == lines[j]);
        lemma_char_untouched_rec(t, prev, role);
        let t1 = parse_theme_lines_spec(t, prev)->Some_0;
        let last = lines[lines.len() - 1];
        assert(!sets_char_role(last, role));
        match line_effect(last) {
            LineEffect::Skip => {},
            LineEffect::SetRgb(r2, v2) => {
                lemma_set_rgb_effect(t1, r2, v2);
            },
            LineEffect::SetChar(r2, c2) => {
                lemma_set_char_effect(t1, r2, c2);
            },
            LineEffect::Corrupt => {
                assert(false);
            },
        }
    }
}

/// The complement of last-write-wins, glyphs: a glyph slot no line writes
/// keeps its default.
pub proof fn lemma_untouched_char_keeps_default(lines: Seq<Seq<char>>, role: CharRole)
    requires
        forall|j: int| 0 <= j < lines.len() ==> !((#[trigger] line_effect(lines[j]))
            is Corrupt),
        forall|j: int| 0 <= j < lines.len() ==> !sets_char_role(#[trigger] lines[j], role),
    ensures
        parse_theme_spec(lines) matches Some(t) && spec_char(t, role) == spec_char(
            default_theme(),
            role,
        ),
{
    lemma_char_untouched_rec(default_theme(), lines, role);
}

/// Unknown-role law: a non-skippable line whose trimmed key names no slot of
/// either kind is a corruption error, and a file of only that line fails
/// rather than silently succeeding.
pub proof fn lemma_unknown_role_rejected(line: Seq<char>)
    requires
        !is_skippable(line),
        line_key(line) matches Some(key) && rgb_role_of_name(key) is None && char_role_of_name(
            key,
        ) is None,
    ensures
        line_effect(line) is Corrupt,
        parse_theme_spec(seq![line]) is None,
{
    assert(seq![line].drop_last() =~= Seq::<Seq<char>>::empty());
    assert(seq![line].last() == line);
}

proof fn lemma_skip_lines_rec(t: Theme, lines: Seq<Seq<char>>)
    requires
        forall|j: int| 0 <= j < lines.len() ==> is_skippable(#[trigger] lines[j]),
    ensures
        parse_theme_lines_spec(t, lines) == Some(t),
    decreases lines.len(),
{
    if lines.len() > 0 {
        let prev = lines.drop_last();
        assert(forall|j: int| 0 <= j < prev.len() ==> prev[j] == lines[j]);
        lemma_skip_lines_rec(t, prev);
        assert(is_skippable(lines[lines.len() - 1]));
    }
}

/// Skipping law: a file of nothing but comments and blank lines parses, and
/// yields the all-default store.
pub proof fn lemma_comments_and_blanks_give_default(lines: Seq<Seq<char>>)
    requires
        forall|j: int| 0 <= j < lines.len() ==> is_skippable(#[trigger] lines[j]),
    ensures
        parse_theme_spec(lines) == Some(default_theme()),
{
    lemma_skip_lines_rec(default_theme(), lines);
}

} // verus!

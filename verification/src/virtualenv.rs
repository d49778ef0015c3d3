//! The representative segment detector: the virtual-environment segment. It
//! inspects, in fixed priority order, the values of three environment
//! variables (an explicit virtual-environment path, then two alternate
//! environment-manager variables), takes the first that is set, extracts the
//! final path component of its value, and, if one exists, appends exactly one
//! segment in the theme's virtual-environment colors. Absence is the common
//! case and never an error.

use vstd::prelude::*;

use crate::segment::{segs_view, Powerline, SegView, Segment};
use crate::theme::Theme;

verus! {

/// The last slash-free run of the string: what follows the final `/`, or the
/// whole string when it has none.
pub open spec fn suffix_after_slash(s: Seq<char>) -> Seq<char>
    decreases s.len(),
{
    if s.len() == 0 || s.last() == '/' {
        Seq::empty()
    } else {
        suffix_after_slash(s.drop_last()).push(s.last())
    }
}

/// The final component of a path, by the Unix rules the platform's path type
/// uses: trailing slashes are ignored, a trailing `.` component stands for the
/// directory before it, and there is no final component in an empty path, a
/// root path, or a path ending in `..`.
pub open spec fn final_component_spec(s: Seq<char>) -> Option<Seq<char>>
    decreases s.len(),
{
    if s.len() == 0 {
        None
    } else if s.last() == '/' {
        final_component_spec(s.drop_last())
    } else {
        let comp = suffix_after_slash(s);
        if comp == seq!['.'] {
            final_component_spec(s.drop_last())
        } else if comp == seq!['.', '.'] {
            None
        } else {
            Some(comp)
        }
    }
}

/// `suffix_after_slash` is the subrange that starts right after the last
/// slash.
proof fn lemma_suffix_after_slash(s: Seq<char>, k: int)
    requires
        0 <= k <= s.len(),
        forall|j: int| k <= j < s.len() ==> s[j] != '/',
        k > 0 ==> s[k - 1] == '/',
    ensures
        suffix_after_slash(s) == s.subrange(k, s.len() as int),
    decreases s.len(),
{
    if s.len() == 0 {
        assert(s.subrange(0, 0) =~= Seq::<char>::empty());
    } else if s.last() == '/' {
        assert(k == s.len());
        assert(s.subrange(k, s.len() as int) =~= Seq::<char>::empty());
    } else {
        assert(k < s.len());
        lemma_suffix_after_slash(s.drop_last(), k);
        assert(s.drop_last().subrange(k, s.len() - 1).push(s.last()) =~= s.subrange(
            k,
            s.len() as int,
        ));
    }
}

/// Extracts the final path component of `s`, as the detector interprets an
/// environment value.
pub fn final_path_component(s: &str) -> (r: Option<String>)
    ensures
        match r {
            Some(name) => final_component_spec(s@) == Some(name@),
            None => final_component_spec(s@) is None,
        },
    decreases s@.len(),
{
    let n = s.unicode_len();
    if n == 0 {
        return None;
    }
    proof {
        assert(s@.subrange(0, s@.len() - 1) =~= s@.drop_last());
    }
    if s.get_char(n - 1) == '/' {
        return final_path_component(s.substring_char(0, n - 1));
    }
    let mut k: usize = n;
    loop
        invariant
            n == s@.len(),
            0 < n,
            0 <= k <= n,
            forall|j: int| k <= j < n ==> s@[j] != '/',
        ensures
            0 <= k <= n,
            forall|j: int| k <= j < n ==> s@[j] != '/',
            k > 0 ==> s@[k - 1] == '/',
        decreases k,
    {
        if k == 0 {
            break ;
        }
        if s.get_char(k - 1) == '/' {
            break ;
        }
        k -= 1;
    }
    proof {
        lemma_suffix_after_slash(s@, k as int);
    }
    let ghost comp = suffix_after_slash(s@);
    if n - k == 1 && s.get_char(k) == '.' {
        proof {
            assert(comp =~= seq!['.']);
        }
        final_path_component(s.substring_char(0, n - 1))
    } else if n - k == 2 && s.get_char(k) == '.' && s.get_char(k + 1) == '.' {
        proof {
            assert(comp =~= seq!['.', '.']);
        }
        None
    } else {
        proof {
            if comp == seq!['.'] {
                assert(comp.len() == 1 && comp[0] == s@[k as int]);
            }
            if comp == seq!['.', '.'] {
                assert(comp.len() == 2 && comp[0] == s@[k as int] && comp[1] == s@[k as int + 1]);
            }
        }
        Some(String::from_str(s.substring_char(k, n)))
    }
}

/// The view of an optional borrowed string.
pub open spec fn opt_view(o: Option<&str>) -> Option<Seq<char>> {
    match o {
        Some(s) => Some(s@),
        None => None,
    }
}

/// The first environment value that is set, in priority order.
pub open spec fn first_set(
    a: Option<Seq<char>>,
    b: Option<Seq<char>>,
    c: Option<Seq<char>>,
) -> Option<Seq<char>> {
    if a is Some {
        a
    } else if b is Some {
        b
    } else {
        c
    }
}

/// The virtual-environment name the detector would display: the final path
/// component of the first set variable, if either exists.
pub open spec fn venv_name(
    a: Option<Seq<char>>,
    b: Option<Seq<char>>,
    c: Option<Seq<char>>,
) -> Option<Seq<char>> {
    match first_set(a, b, c) {
        Some(path) => final_component_spec(path),
        None => None,
    }
}

/// Everything the detector appends: one segment in the theme's
/// virtual-environment colors when a name exists, nothing otherwise.
pub open spec fn venv_segments(
    t: Theme,
    a: Option<Seq<char>>,
    b: Option<Seq<char>>,
    c: Option<Seq<char>>,
) -> Seq<SegView> {
    match venv_name(a, b, c) {
        Some(name) => seq![SegView { bg: t.virtual_env_bg, fg: t.virtual_env_fg, text: name }],
        None => Seq::empty(),
    }
}

/// The virtual-environment detector. Its three arguments are the values of the
/// explicit virtual-environment path variable and the two alternate
/// environment-manager variables, in that priority order; the caller reads
/// them from the process environment.
pub fn segment_virtualenv(
    p: &mut Powerline,
    virtual_env: Option<&str>,
    conda_env_path: Option<&str>,
    conda_default_env: Option<&str>,
)
    ensures
        final(p).theme == old(p).theme,
        segs_view(final(p).segments@) == segs_view(old(p).segments@) + venv_segments(
            old(p).theme,
            opt_view(virtual_env),
            opt_view(conda_env_path),
            opt_view(conda_default_env),
        ),
{
    let chosen: Option<&str> = if virtual_env.is_some() {
        virtual_env
    } else if conda_env_path.is_some() {
        conda_env_path
    } else {
        conda_default_env
    };
    let ghost contribution = venv_segments(
        old(p).theme,
        opt_view(virtual_env),
        opt_view(conda_env_path),
        opt_view(conda_default_env),
    );
    match chosen {
        None => {
            proof {
                assert(segs_view(p.segments@) + contribution =~= segs_view(p.segments@));
            }
        },
        Some(path) => {
            match final_path_component(path) {
                None => {
                    proof {
                        assert(segs_view(p.segments@) + contribution =~= segs_view(p.segments@));
                    }
                },
                Some(name) => {
                    let bg = p.theme.virtual_env_bg;
                    let fg = p.theme.virtual_env_fg;
                    let ghost before = p.segments@;
                    let seg = Segment::new(bg, fg, name);
                    p.add_segment(seg);
                    proof {
                        assert(segs_view(p.segments@) =~= segs_view(before).push(seg@));
                        assert(segs_view(before) + contribution =~= segs_view(before).push(seg@));
                    }
                },
            }
        },
    }
}

/// Priority law: the first variable that is set decides the outcome; the later
/// ones are not consulted once one is set.
pub proof fn lemma_priority_first_match(
    a: Option<Seq<char>>,
    b: Option<Seq<char>>,
    c: Option<Seq<char>>,
)
    ensures
        a matches Some(path) ==> venv_name(a, b, c) == final_component_spec(path),
        a is None ==> (b matches Some(path) ==> venv_name(a, b, c) == final_component_spec(path)),
        a is None && b is None ==> (c matches Some(path) ==> venv_name(a, b, c)
            == final_component_spec(path)),
{
}

/// Determinism law: the detector's contribution is a function of the theme and
/// the inspected environment values alone, so two runs over identical state
/// contribute identical segment sequences.
pub proof fn lemma_detector_deterministic(
    t1: Theme,
    t2: Theme,
    a1: Option<Seq<char>>,
    b1: Option<Seq<char>>,
    c1: Option<Seq<char>>,
    a2: Option<Seq<char>>,
    b2: Option<Seq<char>>,
    c2: Option<Seq<char>>,
)
    requires
        t1 == t2,
        a1 == a2,
        b1 == b2,
        c1 == c2,
    ensures
        venv_segments(t1, a1, b1, c1) == venv_segments(t2, a2, b2, c2),
{
}

} // verus!

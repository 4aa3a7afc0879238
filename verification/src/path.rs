//! Path resolutions on plain strings: the parent of a path, whether a path
//! is the file-system root, stripping one path from the front of another at
//! a component boundary, and the last component of a path.

use vstd::prelude::*;

use crate::text;

verus! {

/// A path with its trailing slashes removed.
pub open spec fn spec_trim_trailing_slashes(s: Seq<char>) -> Seq<char>
    decreases s.len(),
{
    if s.len() > 0 && s.last() == '/' {
        spec_trim_trailing_slashes(s.drop_last())
    } else {
        s
    }
}

/// The index of the last `/` of a path, if it has one.
pub open spec fn spec_last_slash(s: Seq<char>) -> Option<int>
    decreases s.len(),
{
    if s.len() == 0 {
        None
    } else if s.last() == '/' {
        Some(s.len() - 1)
    } else {
        spec_last_slash(s.drop_last())
    }
}

/// The length of a string once its trailing slashes are removed.
fn trimmed_length(s: &str) -> (r: usize)
    ensures
        r <= s@.len(),
        s@.subrange(0, r as int) == spec_trim_trailing_slashes(s@),
{
    let length = s.unicode_len();
    let mut j: usize = length;
    proof {
        assert(s@.subrange(0, length as int) =~= s@);
    }
    while j > 0 && s.get_char(j - 1) == '/'
        invariant
            j <= s@.len(),
            s@.len() == length,
            spec_trim_trailing_slashes(s@) == spec_trim_trailing_slashes(
                s@.subrange(0, j as int),
            ),
        decreases j,
    {
        proof {
            assert(s@.subrange(0, j as int).last() == '/');
            assert(s@.subrange(0, j as int).drop_last() =~= s@.subrange(0, j - 1));
        }
        j = j - 1;
    }
    proof {
        if j > 0 {
            assert(s@.subrange(0, j as int).last() != '/');
        }
        assert(spec_trim_trailing_slashes(s@.subrange(0, j as int)) == s@.subrange(0, j as int));
    }
    j
}

/// The index of the last `/` of a string before a boundary, if it has one.
fn last_slash_before(s: &str, end: usize) -> (r: Option<usize>)
    requires
        end <= s@.len(),
    ensures
        match r {
            Some(i) => i < end && spec_last_slash(s@.subrange(0, end as int)) == Some(i as int),
            None => spec_last_slash(s@.subrange(0, end as int)) is None,
        },
{
    let ghost t = s@.subrange(0, end as int);
    let mut j: usize = end;
    proof {
        assert(t.subrange(0, end as int) =~= t);
    }
    while j > 0
        invariant
            j <= end <= s@.len(),
            t == s@.subrange(0, end as int),
            spec_last_slash(t) == spec_last_slash(t.subrange(0, j as int)),
        decreases j,
    {
        proof {
            assert(t.subrange(0, j as int).last() == t[j - 1] == s@[j - 1]);
            assert(t.subrange(0, j as int).drop_last() =~= t.subrange(0, j - 1));
        }
        if s.get_char(j - 1) == '/' {
            return Some(j - 1);
        }
        j = j - 1;
    }
    proof {
        assert(t.subrange(0, 0) =~= Seq::<char>::empty());
    }
    None
}

/// The parent of a path: the path without its last component, `/` for a
/// top-level absolute path, the empty path for a single relative component,
/// and nothing for the root or the empty path.
pub open spec fn spec_parent(s: Seq<char>) -> Option<Seq<char>> {
    let t = spec_trim_trailing_slashes(s);
    if t.len() == 0 {
        None
    } else {
        match spec_last_slash(t) {
            None => Some(Seq::<char>::empty()),
            Some(i) => {
                let p = spec_trim_trailing_slashes(t.subrange(0, i));
                if p.len() == 0 {
                    Some(seq!['/'])
                } else {
                    Some(p)
                }
            },
        }
    }
}

/// Resolves the parent of a path, `None` for the root or the empty path.
pub fn parent_of(s: &str) -> (r: Option<String>)
    ensures
        r.deep_view() == spec_parent(s@),
{
    let trimmed = trimmed_length(s);
    if trimmed == 0 {
        return None;
    }
    match last_slash_before(s, trimmed) {
        None => Some(String::new()),
        Some(i) => {
            proof {
                assert(s@.subrange(0, trimmed as int).subrange(0, i as int) =~= s@.subrange(
                    0,
                    i as int,
                ));
            }
            let prefix = text::substring(s, 0, i);
            let prefix_trimmed = trimmed_length(prefix.as_str());
            if prefix_trimmed == 0 {
                proof {
                    reveal_strlit("/");
                    assert("/"@ =~= seq!['/']);
                }
                Some(String::from_str("/"))
            } else {
                Some(text::substring(prefix.as_str(), 0, prefix_trimmed))
            }
        },
    }
}

/// Checks whether a path refers to the file-system root, that is, it has no
/// parent.
pub fn is_root(s: &str) -> (r: bool)
    ensures
        r == (spec_parent(s@) is None),
{
    trimmed_length(s) == 0
}

/// One path stripped from the front of another, at a component boundary:
/// what remains of the second path after the first, when the first leads to
/// it.
pub open spec fn spec_strip_path_prefix(current: Seq<char>, base: Seq<char>) -> Option<Seq<char>> {
    if base.len() == 0 {
        if current.len() == 0 || current[0] != '/' {
            Some(current)
        } else {
            None
        }
    } else if base == seq!['/'] {
        if current.len() > 0 && current[0] == '/' {
            Some(current.subrange(1, current.len() as int))
        } else {
            None
        }
    } else if current == base {
        Some(Seq::<char>::empty())
    } else if text::spec_starts_with(current, base + seq!['/']) {
        Some(current.subrange(base.len() as int + 1, current.len() as int))
    } else {
        None
    }
}

/// Strips a base path from the front of another path at a component
/// boundary; `None` when the base does not lead to the path.
pub fn strip_path_prefix(current: &str, base: &str) -> (r: Option<String>)
    ensures
        r.deep_view() == spec_strip_path_prefix(current@, base@),
{
    let current_length = current.unicode_len();
    let base_length = base.unicode_len();
    proof {
        reveal_strlit("/");
        assert("/"@ =~= seq!['/']);
    }
    if base_length == 0 {
        if current_length == 0 || current.get_char(0) != '/' {
            Some(String::from_str(current))
        } else {
            None
        }
    } else if text::str_eq(base, "/") {
        if current_length > 0 && current.get_char(0) == '/' {
            Some(text::substring(current, 1, current_length))
        } else {
            None
        }
    } else if text::str_eq(current, base) {
        Some(String::new())
    } else {
        let mut base_slash = String::from_str(base);
        base_slash.append("/");
        if text::starts_with(current, base_slash.as_str()) {
            Some(text::substring(current, base_length + 1, current_length))
        } else {
            None
        }
    }
}

/// The last component of a path: `None` for the root, the empty path, and a
/// path whose last component is `.` or `..`.
pub open spec fn spec_file_name(s: Seq<char>) -> Option<Seq<char>> {
    let t = spec_trim_trailing_slashes(s);
    if t.len() == 0 {
        None
    } else {
        let name = match spec_last_slash(t) {
            None => t,
            Some(i) => t.subrange(i + 1, t.len() as int),
        };
        if name == seq!['.'] || name == seq!['.', '.'] {
            None
        } else {
            Some(name)
        }
    }
}

/// Resolves the last component of a path.
pub fn file_name_of(s: &str) -> (r: Option<String>)
    ensures
        r.deep_view() == spec_file_name(s@),
{
    proof {
        reveal_strlit(".");
        reveal_strlit("..");
        assert("."@ =~= seq!['.']);
        assert(".."@ =~= seq!['.', '.']);
    }
    let trimmed = trimmed_length(s);
    if trimmed == 0 {
        return None;
    }
    let name = match last_slash_before(s, trimmed) {
        None => {
            proof {
                assert(s@.subrange(0, trimmed as int) =~= s@.subrange(0, trimmed as int));
            }
            text::substring(s, 0, trimmed)
        },
        Some(i) => {
            proof {
                assert(s@.subrange(0, trimmed as int).subrange(
                    i + 1,
                    trimmed as int,
                ) =~= s@.subrange(i + 1, trimmed as int));
            }
            text::substring(s, i + 1, trimmed)
        },
    };
    if text::str_eq(name.as_str(), ".") || text::str_eq(name.as_str(), "..") {
        None
    } else {
        Some(name)
    }
}

} // verus!

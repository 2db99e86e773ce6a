//! Paths as plain strings: joining components and reading file-name
//! extensions.
//!
//! The library models every path as a `String` whose components are joined
//! with `/`. Callers that work with the host's native path type convert at
//! the boundary.

use vstd::prelude::*;

verus! {

/// The path obtained by appending one component to a directory path,
/// separated by `/`.
pub open spec fn join_spec(dir: Seq<char>, name: Seq<char>) -> Seq<char> {
    dir + "/"@ + name
}

/// Joins one component onto a directory path with a `/` separator.
pub fn join_path(dir: &str, name: &str) -> (r: String)
    ensures
        r@ == join_spec(dir@, name@),
{
    let mut r = dir.to_owned();
    r.append("/");
    r.append(name);
    r
}

/// True when `i` is the position of the last `.` in `name`.
pub open spec fn is_last_dot(name: Seq<char>, i: int) -> bool {
    &&& 0 <= i < name.len()
    &&& name[i] == '.'
    &&& forall|j: int| i < j < name.len() ==> name[j] != '.'
}

/// The extension of a file name: the part after the last dot, except that
/// a name without a dot, or whose only dot is its first character, has
/// none.
pub open spec fn extension_of(name: Seq<char>) -> Option<Seq<char>> {
    if exists|i: int| is_last_dot(name, i) {
        let i = choose|i: int| is_last_dot(name, i);
        if i == 0 {
            None
        } else {
            Some(name.subrange(i + 1, name.len() as int))
        }
    } else {
        None
    }
}

/// True when a file with this name is a config file: extension `yml` or
/// `yaml`, or `pkl` when the extended format is enabled.
pub open spec fn name_matches(pkl: bool, name: Seq<char>) -> bool {
    match extension_of(name) {
        Some(ext) => ext == "yml"@ || ext == "yaml"@ || (pkl && ext == "pkl"@),
        None => false,
    }
}

/// Two positions of the last dot are the same position.
proof fn lemma_last_dot_unique(name: Seq<char>, i: int, j: int)
    requires
        is_last_dot(name, i),
        is_last_dot(name, j),
    ensures
        i == j,
{
}

/// Decides `name_matches` for one file name.
pub(crate) fn matches_config_name(pkl: bool, name: &str) -> (r: bool)
    ensures
        r == name_matches(pkl, name@),
{
    proof {
        reveal_strlit("yml");
        reveal_strlit("yaml");
        reveal_strlit("pkl");
    }
    let n = name.unicode_len();
    let mut k: usize = n;
    let mut dot_idx: usize = 0;
    let mut has_dot = false;
    while k > 0 && !has_dot
        invariant
            k <= n,
            n == name@.len(),
            !has_dot ==> (forall|j: int| k <= j < n ==> name@[j] != '.'),
            has_dot ==> is_last_dot(name@, dot_idx as int),
        decreases k,
    {
        k -= 1;
        if name.get_char(k) == '.' {
            dot_idx = k;
            has_dot = true;
        }
    }
    if !has_dot {
        proof {
            assert(forall|i: int| 0 <= i < name@.len() ==> name@[i] != '.');
            assert(extension_of(name@) is None);
        }
        return false;
    }
    proof {
        let i0 = choose|i: int| is_last_dot(name@, i);
        assert(is_last_dot(name@, dot_idx as int));
        lemma_last_dot_unique(name@, i0, dot_idx as int);
    }
    if dot_idx == 0 {
        return false;
    }
    let ghost ext = name@.subrange(dot_idx as int + 1, name@.len() as int);
    if n - dot_idx - 1 == 3 {
        let c1 = name.get_char(dot_idx + 1);
        let c2 = name.get_char(dot_idx + 2);
        let c3 = name.get_char(dot_idx + 3);
        proof {
            assert(ext[0] == name@[dot_idx as int + 1]);
            assert(ext[1] == name@[dot_idx as int + 2]);
            assert(ext[2] == name@[dot_idx as int + 3]);
        }
        if c1 == 'y' && c2 == 'm' && c3 == 'l' {
            proof {
                assert(ext =~= "yml"@);
            }
            true
        } else if c1 == 'p' && c2 == 'k' && c3 == 'l' {
            proof {
                assert(ext =~= "pkl"@);
            }
            pkl
        } else {
            false
        }
    } else if n - dot_idx - 1 == 4 {
        let c1 = name.get_char(dot_idx + 1);
        let c2 = name.get_char(dot_idx + 2);
        let c3 = name.get_char(dot_idx + 3);
        let c4 = name.get_char(dot_idx + 4);
        proof {
            assert(ext[0] == name@[dot_idx as int + 1]);
            assert(ext[1] == name@[dot_idx as int + 2]);
            assert(ext[2] == name@[dot_idx as int + 3]);
            assert(ext[3] == name@[dot_idx as int + 4]);
        }
        if c1 == 'y' && c2 == 'a' && c3 == 'm' && c4 == 'l' {
            proof {
                assert(ext =~= "yaml"@);
            }
            true
        } else {
            false
        }
    } else {
        proof {
            assert(ext.len() != 3 && ext.len() != 4);
        }
        false
    }
}

} // verus!

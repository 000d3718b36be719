//! URI-to-resource-path resolution.
//!
//! A request URI is expected to start with the fixed scheme-and-host prefix
//! `cd-content://localhost/`. The prefix is stripped to obtain a relative
//! path; a URI without the prefix degrades to the empty relative path. A
//! relative path holding a `..` segment would escape the base directory, so
//! it degrades the same way. The confined relative path is then joined onto
//! the fixed base directory `game/`: the resolved path never leaves it
//! (`lemma_resource_path_confined`).

use vstd::prelude::*;

verus! {

/// `s` starts with `prefix`.
pub open spec fn has_prefix(s: Seq<char>, prefix: Seq<char>) -> bool {
    &&& prefix.len() <= s.len()
    &&& forall|j: int| 0 <= j < prefix.len() ==> s[j] == prefix[j]
}

/// The fixed scheme-and-host prefix that content URIs carry.
pub open spec fn scheme_prefix() -> Seq<char> {
    "cd-content://localhost/"@
}

/// The fixed base directory that relative paths are resolved against.
pub open spec fn base_dir() -> Seq<char> {
    "game/"@
}

/// The relative path a URI denotes: what follows the scheme-and-host
/// prefix, or the empty path when the prefix is absent.
pub open spec fn relative_path_of(uri: Seq<char>) -> Seq<char> {
    if has_prefix(uri, scheme_prefix()) {
        uri.subrange(scheme_prefix().len() as int, uri.len() as int)
    } else {
        Seq::empty()
    }
}

/// `c` separates path segments.
pub open spec fn is_separator(c: char) -> bool {
    c == '/' || c == '\\'
}

/// A `..` path segment starts at position `i` of `s`: two dots standing
/// alone between separators or the ends of the string. Two dots inside a
/// longer name (`a..b`, `..hidden`) are no segment.
pub open spec fn dotdot_segment_at(s: Seq<char>, i: int) -> bool {
    &&& 0 <= i
    &&& i + 2 <= s.len()
    &&& s[i] == '.'
    &&& s[i + 1] == '.'
    &&& (i == 0 || is_separator(s[i - 1]))
    &&& (i + 2 == s.len() || is_separator(s[i + 2]))
}

/// `s` holds a `..` path segment somewhere.
pub open spec fn has_traversal(s: Seq<char>) -> bool {
    exists|i: int| dotdot_segment_at(s, i)
}

/// The relative path confined to the base directory: one holding a `..`
/// segment would escape it and is degraded to the empty path, the same
/// degradation an absent prefix gets.
pub open spec fn confined_relative_path_of(uri: Seq<char>) -> Seq<char> {
    if has_traversal(relative_path_of(uri)) {
        Seq::empty()
    } else {
        relative_path_of(uri)
    }
}

/// The on-disk resource path for a URI: the confined relative path joined
/// onto the base directory.
pub open spec fn resource_path_of(uri: Seq<char>) -> Seq<char> {
    base_dir() + confined_relative_path_of(uri)
}

/// A URI without the expected prefix resolves to the base directory path
/// itself: its relative path is empty.
pub proof fn lemma_missing_prefix_resolves_to_base(uri: Seq<char>)
    requires
        !has_prefix(uri, scheme_prefix()),
    ensures
        resource_path_of(uri) == base_dir(),
{
    assert(!has_traversal(Seq::<char>::empty()));
    assert(resource_path_of(uri) =~= base_dir());
}

/// Confinement: whatever the request URI holds, the resolved resource path
/// carries no `..` segment, so it never escapes the base directory.
pub proof fn lemma_resource_path_confined(uri: Seq<char>)
    ensures
        !has_traversal(resource_path_of(uri)),
{
    reveal_strlit("game/");
    let rel = confined_relative_path_of(uri);
    let path = resource_path_of(uri);
    assert(!has_traversal(rel)) by {
        assert(!has_traversal(Seq::<char>::empty()));
    }
    assert forall|i: int| !dotdot_segment_at(path, i) by {
        if dotdot_segment_at(path, i) {
            if i < 5 {
                // The dots would have to sit inside "game/", which holds none.
                assert(path[i] == base_dir()[i]);
                assert(base_dir()[0] == 'g');
                assert(base_dir()[1] == 'a');
                assert(base_dir()[2] == 'm');
                assert(base_dir()[3] == 'e');
                assert(base_dir()[4] == '/');
            } else {
                // Past the base prefix the segment maps into `rel`, which
                // holds none either.
                assert(dotdot_segment_at(rel, i - 5)) by {
                    assert(path[i] == rel[i - 5]);
                    assert(path[i + 1] == rel[i - 4]);
                    if i > 5 {
                        assert(path[i - 1] == rel[i - 6]);
                    }
                    if i + 2 < path.len() {
                        assert(path[i + 2] == rel[i - 3]);
                    }
                }
            }
        }
    }
}

/// What remains of `uri` after the scheme-and-host prefix, or the empty
/// string when the prefix is absent.
pub fn strip_scheme_prefix<'a>(uri: &'a str) -> (r: &'a str)
    ensures
        r@ == relative_path_of(uri@),
{
    proof {
        reveal_strlit("");
    }
    let prefix: &str = "cd-content://localhost/";
    let n: usize = uri.unicode_len();
    let m: usize = prefix.unicode_len();
    if m > n {
        return "";
    }
    let mut i: usize = 0;
    while i < m
        invariant
            i <= m <= n,
            n == uri@.len(),
            m == scheme_prefix().len(),
            prefix@ == scheme_prefix(),
            forall|j: int| 0 <= j < i ==> uri@[j] == prefix@[j],
        decreases m - i,
    {
        if uri.get_char(i) != prefix.get_char(i) {
            proof {
                reveal_strlit("");
            }
            return "";
        }
        i = i + 1;
    }
    uri.substring_char(m, n)
}

/// Does `s` hold a `..` path segment? A linear scan over the positions a
/// segment could start at.
pub fn contains_traversal(s: &str) -> (r: bool)
    ensures
        r == has_traversal(s@),
{
    let n: usize = s.unicode_len();
    if n < 2 {
        return false;
    }
    let mut i: usize = 0;
    while i <= n - 2
        invariant
            2 <= n,
            i <= n - 1,
            n == s@.len(),
            forall|j: int| 0 <= j < i ==> !dotdot_segment_at(s@, j),
        decreases n - i,
    {
        let mut found: bool = s.get_char(i) == '.' && s.get_char(i + 1) == '.';
        if found && i > 0 {
            let before = s.get_char(i - 1);
            found = before == '/' || before == '\\';
        }
        if found && i + 2 < n {
            let after = s.get_char(i + 2);
            found = after == '/' || after == '\\';
        }
        if found {
            proof {
                assert(dotdot_segment_at(s@, i as int));
            }
            return true;
        }
        proof {
            assert(!dotdot_segment_at(s@, i as int));
        }
        i = i + 1;
    }
    proof {
        assert forall|j: int| !dotdot_segment_at(s@, j) by {
            if 0 <= j < i as int {
            }
        }
    }
    false
}

/// The resource path for a request URI: the scheme-and-host prefix is
/// stripped (absent prefix: empty remainder), a remainder holding a `..`
/// segment is degraded to empty, and what is left is joined onto the base
/// directory. Degraded requests resolve to the base directory path itself,
/// whose read fails, so they end as a 404.
pub fn resource_path_for_uri(uri: &str) -> (r: String)
    ensures
        r@ == resource_path_of(uri@),
{
    proof {
        reveal_strlit("");
    }
    let rel: &str = strip_scheme_prefix(uri);
    let confined: &str = if contains_traversal(rel) {
        ""
    } else {
        rel
    };
    assert(confined@ == confined_relative_path_of(uri@));
    let mut path: String = "game/".to_owned();
    path.append(confined);
    path
}

} // verus!

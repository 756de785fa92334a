//! Remote paths and where they go under the local root.

use crate::text::{chars_of, find_char, lemma_find_char, position_of, string_of};
use vstd::prelude::*;
use vstd::string::StringExecFns;

verus! {

/// Where the path starts in `s`, if `s` starts with a scheme and an
/// authority: the index of the first `/` after `://`.
pub open spec fn path_start(s: Seq<char>) -> int {
    find_char(s, '/', find_char(s, ':', 0) + 3)
}

/// Whether `s` has the form `scheme://authority/rest`. The scheme is one
/// or more characters other than `:` and `/`; the authority, which may end
/// in a colon and a port, is one or more characters other than `/`.
pub open spec fn has_authority(s: Seq<char>) -> bool {
    let colon = find_char(s, ':', 0);
    &&& 0 < colon
    &&& colon + 3 < s.len()
    &&& find_char(s, '/', 0) == colon + 1
    &&& s[colon + 2] == '/'
    &&& colon + 3 < path_start(s) < s.len()
}

/// The path of `s` from the root of its filesystem: `/rest` where `s` is
/// `scheme://authority/rest`, and `s` itself where it has no such prefix.
pub open spec fn sanitized(s: Seq<char>) -> Seq<char> {
    if has_authority(s) {
        s.skip(path_start(s))
    } else {
        s
    }
}

/// A sanitised path has no scheme and authority left, so sanitising it
/// again changes nothing.
pub proof fn lemma_sanitized_twice(s: Seq<char>)
    ensures
        !has_authority(sanitized(s)),
        sanitized(sanitized(s)) == sanitized(s),
{
    if has_authority(s) {
        let colon = find_char(s, ':', 0);
        lemma_find_char(s, ':', 0);
        lemma_find_char(s, '/', colon + 3);
        let rest = sanitized(s);
        lemma_find_char(rest, ':', 0);
    }
}

/// What sanitising does to a path with a scheme and an authority: it keeps
/// what starts at the first `/` behind them, and that part starts with `/`.
pub proof fn lemma_sanitized_keeps_path(scheme: Seq<char>, authority: Seq<char>, rest: Seq<char>)
    requires
        scheme.len() > 0,
        forall|i: int| 0 <= i < scheme.len() ==> scheme[i] != ':' && scheme[i] != '/',
        authority.len() > 0,
        forall|i: int| 0 <= i < authority.len() ==> authority[i] != '/',
    ensures
        sanitized(scheme + seq![':', '/', '/'] + authority + seq!['/'] + rest) == seq!['/'] + rest,
{
    let s = scheme + seq![':', '/', '/'] + authority + seq!['/'] + rest;
    let n = scheme.len() as int;
    let m = authority.len() as int;
    assert forall|i: int| 0 <= i < n implies s[i] == scheme[i] by {}
    assert forall|i: int| 0 <= i < m implies s[n + 3 + i] == authority[i] by {}
    lemma_find_char(s, ':', 0);
    assert(find_char(s, ':', 0) == n) by {
        let k = find_char(s, ':', 0);
        if k > n {
            assert(s[n] != ':');
        }
    }
    lemma_find_char(s, '/', 0);
    assert(find_char(s, '/', 0) == n + 1) by {
        let k = find_char(s, '/', 0);
        if k > n + 1 {
            assert(s[n + 1] != '/');
        }
    }
    lemma_find_char(s, '/', n + 3);
    assert(find_char(s, '/', n + 3) == n + 3 + m) by {
        let k = find_char(s, '/', n + 3);
        if k > n + 3 + m {
            assert(s[n + 3 + m] != '/');
        }
    }
}

/// The path of `path` from the root of its filesystem. Never fails: a path
/// without a scheme and an authority comes back as it is.
pub fn sanitize(path: &str) -> (r: String)
    ensures
        r@ == sanitized(path@),
{
    let chars = chars_of(path);
    let s = chars.as_slice();
    let n = s.len();
    let colon = position_of(s, ':', 0);
    if colon == 0 || n < 4 || colon >= n - 3 {
        return path.to_owned();
    }
    if position_of(s, '/', 0) != colon + 1 || s[colon + 2] != '/' {
        return path.to_owned();
    }
    let start = position_of(s, '/', colon + 3);
    if start == colon + 3 || start == n {
        return path.to_owned();
    }
    string_of(s, start, n)
}

/// `path` without its leading `/`, if it has one.
pub open spec fn relative(path: Seq<char>) -> Seq<char> {
    if path.len() > 0 && path[0] == '/' {
        path.skip(1)
    } else {
        path
    }
}

/// Where the remote file `path` goes under `local_root`: the root, a `/`
/// unless the root is empty or ends in one, and the path without its
/// leading `/`.
pub open spec fn destination(local_root: Seq<char>, path: Seq<char>) -> Seq<char> {
    if local_root.len() == 0 {
        relative(path)
    } else if local_root.last() == '/' {
        local_root + relative(path)
    } else {
        local_root + seq!['/'] + relative(path)
    }
}

/// The index of the last `c` in `s`, or -1 where `s` holds none.
pub open spec fn last_index_of(s: Seq<char>, c: char) -> int
    decreases s.len(),
{
    if s.len() == 0 {
        -1
    } else if s.last() == c {
        s.len() - 1
    } else {
        last_index_of(s.drop_last(), c)
    }
}

/// The directory that holds `path`: what stands before its last `/`, `/`
/// itself where that is the first character, and nothing where `path`
/// holds no `/`.
pub open spec fn parent_dir(path: Seq<char>) -> Seq<char> {
    let slash = last_index_of(path, '/');
    if slash < 0 {
        Seq::empty()
    } else if slash == 0 {
        seq!['/']
    } else {
        path.take(slash)
    }
}

/// Where the remote file `path` goes under `local_root`. The result is
/// under the root, whatever the path holds.
pub fn local_destination(local_root: &str, path: &str) -> (r: String)
    ensures
        r@ == destination(local_root@, path@),
        local_root@.is_prefix_of(r@),
{
    let root_len = local_root.unicode_len();
    let path_len = path.unicode_len();
    let rel = if path_len > 0 && path.get_char(0) == '/' {
        path.substring_char(1, path_len)
    } else {
        path
    };
    if root_len == 0 {
        return rel.to_owned();
    }
    let mut r = local_root.to_owned();
    if local_root.get_char(root_len - 1) != '/' {
        r.append("/");
        proof {
            reveal_strlit("/");
        }
    }
    r.append(rel);
    r
}

/// The directory that holds `path`.
pub fn parent_of(path: &str) -> (r: String)
    ensures
        r@ == parent_dir(path@),
{
    let chars = chars_of(path);
    let s = chars.as_slice();
    let mut i: usize = s.len();
    proof {
        assert(s@.take(i as int) =~= s@);
    }
    while i > 0 && s[i - 1] != '/'
        invariant
            i <= s@.len(),
            last_index_of(s@, '/') == last_index_of(s@.take(i as int), '/'),
        decreases i,
    {
        proof {
            assert(s@.take(i as int).drop_last() =~= s@.take(i - 1));
        }
        i -= 1;
    }
    if i == 0 {
        String::new()
    } else if i == 1 {
        proof {
            reveal_strlit("/");
        }
        "/".to_owned()
    } else {
        string_of(s, 0, i - 1)
    }
}

} // verus!

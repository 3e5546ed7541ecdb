//! Path strings, modelled as sequences of characters separated by `/`.
//!
//! The helpers here give exact meanings to the path operations the rest of
//! the library builds on: the parent of a path, its final component, its
//! extension, and joining a component onto a base.

use vstd::prelude::*;

verus! {

/// Index of the last occurrence of `c` in `s`, or -1 if `c` does not occur.
pub open spec fn last_index(s: Seq<char>, c: char) -> int
    decreases s.len(),
{
    if s.len() == 0 {
        -1
    } else if s.last() == c {
        s.len() - 1
    } else {
        last_index(s.drop_last(), c)
    }
}

pub proof fn lemma_last_index_found(s: Seq<char>, c: char, k: int)
    requires
        0 <= k < s.len(),
        s[k] == c,
        forall|j: int| k < j < s.len() ==> s[j] != c,
    ensures
        last_index(s, c) == k,
    decreases s.len(),
{
    if k < s.len() - 1 {
        lemma_last_index_found(s.drop_last(), c, k);
    }
}

pub proof fn lemma_last_index_absent(s: Seq<char>, c: char)
    requires
        forall|j: int| 0 <= j < s.len() ==> s[j] != c,
    ensures
        last_index(s, c) == -1,
    decreases s.len(),
{
    if s.len() > 0 {
        lemma_last_index_absent(s.drop_last(), c);
    }
}

/// Position of the last occurrence of `c` in `s`, if any.
pub fn find_last(s: &str, c: char) -> (r: Option<usize>)
    ensures
        match r {
            Some(k) => k < s@.len() && last_index(s@, c) == k as int,
            None => last_index(s@, c) == -1,
        },
{
    let n: usize = s.unicode_len();
    let mut i: usize = n;
    while i > 0
        invariant
            i <= n,
            n == s@.len(),
            forall|j: int| i <= j < n ==> s@[j] != c,
        decreases i,
    {
        i = i - 1;
        if s.get_char(i) == c {
            proof {
                lemma_last_index_found(s@, c, i as int);
            }
            return Some(i);
        }
    }
    proof {
        lemma_last_index_absent(s@, c);
    }
    None
}

/// The parent of a path: everything before the last separator, if there is one.
pub open spec fn parent_spec(s: Seq<char>) -> Option<Seq<char>> {
    if last_index(s, '/') < 0 {
        None
    } else {
        Some(s.take(last_index(s, '/')))
    }
}

/// The final component of a path: everything after the last separator.
pub open spec fn file_name_spec(s: Seq<char>) -> Seq<char> {
    s.skip(last_index(s, '/') + 1)
}

/// The extension of a path: the part of the final component after its last
/// dot. A dot at the very start of the component does not begin an extension.
pub open spec fn extension_spec(s: Seq<char>) -> Option<Seq<char>> {
    let name = file_name_spec(s);
    if last_index(name, '.') <= 0 {
        None
    } else {
        Some(name.skip(last_index(name, '.') + 1))
    }
}

/// A path joined with one further component.
pub open spec fn join_spec(base: Seq<char>, child: Seq<char>) -> Seq<char> {
    base + seq!['/'] + child
}

/// Everything before the last separator of `path`, or `None` for a path
/// without a separator.
pub fn parent_of(path: &str) -> (r: Option<String>)
    ensures
        match r {
            Some(p) => parent_spec(path@) == Some(p@),
            None => parent_spec(path@) is None,
        },
{
    match find_last(path, '/') {
        Some(k) => {
            let sub = path.substring_char(0, k);
            Some(String::from_str(sub))
        },
        None => None,
    }
}

/// The final component of `path`: the whole of it when it has no separator.
pub fn file_name_of(path: &str) -> (r: String)
    ensures
        r@ == file_name_spec(path@),
{
    let n: usize = path.unicode_len();
    match find_last(path, '/') {
        Some(k) => {
            let r = String::from_str(path.substring_char(k + 1, n));
            proof {
                assert(r@ =~= file_name_spec(path@));
            }
            r
        },
        None => {
            let r = String::from_str(path);
            proof {
                assert(r@ =~= file_name_spec(path@));
            }
            r
        },
    }
}

/// The extension of `path`, or `None` when its final component has no dot
/// past its first character.
pub fn extension_of(path: &str) -> (r: Option<String>)
    ensures
        match r {
            Some(e) => extension_spec(path@) == Some(e@),
            None => extension_spec(path@) is None,
        },
{
    let name = file_name_of(path);
    let name_str = name.as_str();
    let n: usize = name_str.unicode_len();
    match find_last(name_str, '.') {
        Some(k) => {
            if k == 0 {
                None
            } else {
                Some(String::from_str(name_str.substring_char(k + 1, n)))
            }
        },
        None => None,
    }
}

/// `base`, a separator, then `child`.
pub fn join_path(base: &str, child: &str) -> (r: String)
    ensures
        r@ == join_spec(base@, child@),
{
    let mut r = String::from_str(base);
    r.append("/");
    r.append(child);
    proof {
        reveal_strlit("/");
        assert(r@ =~= join_spec(base@, child@));
    }
    r
}

} // verus!

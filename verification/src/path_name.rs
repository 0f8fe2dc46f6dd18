//! Deriving the logical file name of a destination path.
//!
//! Progress events carry the final path segment of the destination: the
//! characters after the last path separator. Both `/` and `\` count as
//! separators, so a path spelled in either convention yields its base
//! name.

use vstd::prelude::*;

verus! {

use vstd::string::*;

/// Whether a character separates path segments.
pub open spec fn is_separator(c: char) -> bool {
    c == '/' || c == '\\'
}

/// The final path segment of `s`: the characters after the last
/// separator, or all of `s` when it holds none.
pub open spec fn base_name(s: Seq<char>) -> Seq<char>
    decreases s.len(),
{
    if s.len() == 0 {
        s
    } else if is_separator(s.last()) {
        Seq::empty()
    } else {
        base_name(s.drop_last()).push(s.last())
    }
}

/// A suffix of `s` that starts right after a separator (or at the start
/// of `s`) and holds no separator is the base name of `s`.
proof fn lemma_base_name_suffix(s: Seq<char>, k: int)
    requires
        0 <= k <= s.len(),
        forall|i: int| k <= i < s.len() ==> !is_separator(s[i]),
        k > 0 ==> is_separator(s[k - 1]),
    ensures
        base_name(s) == s.subrange(k, s.len() as int),
    decreases s.len(),
{
    if s.len() == k {
        if k == 0 {
            assert(base_name(s) =~= s.subrange(k, s.len() as int));
        } else {
            assert(is_separator(s.last()));
            assert(base_name(s) =~= s.subrange(k, s.len() as int));
        }
    } else {
        assert(!is_separator(s[s.len() - 1]));
        lemma_base_name_suffix(s.drop_last(), k);
        assert(base_name(s) == base_name(s.drop_last()).push(s.last()));
        assert(base_name(s) =~= s.subrange(k, s.len() as int));
    }
}

/// Return the final path segment of `path`.
pub fn file_name_of(path: &str) -> (r: String)
    ensures
        r@ == base_name(path@),
{
    let n = path.unicode_len();
    let mut k: usize = 0;
    let mut i: usize = 0;
    while i < n
        invariant
            n == path@.len(),
            0 <= k <= i <= n,
            k > 0 ==> is_separator(path@[k - 1]),
            forall|j: int| k <= j < i ==> !is_separator(path@[j]),
        decreases n - i,
    {
        let c = path.get_char(i);
        if c == '/' || c == '\\' {
            k = i + 1;
        }
        i += 1;
    }
    let tail = path.substring_char(k, n);
    proof {
        lemma_base_name_suffix(path@, k as int);
    }
    String::from_str(tail)
}

} // verus!

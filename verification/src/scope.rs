//! Scope matching: a request path is in scope when at least one configured
//! scope entry is a character prefix of it.
use vstd::prelude::*;

verus! {

use vstd::string::StrSliceExecFns;

/// A path is in scope when some scope entry is a prefix of it. The match is
/// a plain character-prefix match: no normalization, no segment boundaries.
pub open spec fn in_scope(scopes: Seq<Seq<char>>, path: Seq<char>) -> bool {
    exists|i: int| 0 <= i < scopes.len() && scopes[i].is_prefix_of(path)
}

/// Decides whether `prefix` is a character prefix of `path`.
pub fn has_prefix(path: &str, prefix: &str) -> (r: bool)
    ensures
        r == prefix@.is_prefix_of(path@),
{
    let n: usize = prefix.unicode_len();
    let m: usize = path.unicode_len();
    if n > m {
        return false;
    }
    let mut i: usize = 0;
    while i < n
        invariant
            0 <= i <= n,
            n == prefix@.len(),
            m == path@.len(),
            n <= m,
            forall|k: int| 0 <= k < i ==> path@[k] == prefix@[k],
        decreases n - i,
    {
        if path.get_char(i) != prefix.get_char(i) {
            assert(!prefix@.is_prefix_of(path@)) by {
                if prefix@.is_prefix_of(path@) {
                    assert(prefix@[i as int] == path@.subrange(0, n as int)[i as int]);
                }
            }
            return false;
        }
        i += 1;
    }
    assert(prefix@ =~= path@.subrange(0, n as int));
    true
}

} // verus!

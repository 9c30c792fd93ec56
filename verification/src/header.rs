//! Reading the `Authorization` header value: deciding whether the raw bytes
//! form a textual value at all, and cutting the credentials token out of it.
use vstd::prelude::*;

verus! {

/// A byte that may stand in a textual header value: visible ASCII, space,
/// or horizontal tab. A header value made of such bytes is exactly one that
/// can be exposed as a string.
pub open spec fn is_text_byte(b: u8) -> bool {
    32 <= b < 127 || b == 9
}

/// A header value is textual when every byte of it is.
pub open spec fn is_text(h: Seq<u8>) -> bool {
    forall|i: int| 0 <= i < h.len() ==> is_text_byte(h[i])
}

/// The index of the first space byte at or after `i`, or `h.len()` where
/// none follows.
pub open spec fn space_from(h: Seq<u8>, i: int) -> int
    decreases h.len() - i,
{
    if i < 0 || i >= h.len() {
        h.len() as int
    } else if h[i] == 32 {
        i
    } else {
        space_from(h, i + 1)
    }
}

/// The credentials token of a header value: the bytes between the first
/// space and the following space (or the end of the value). `None` where
/// the value holds no space at all, so no token follows the scheme.
pub open spec fn credential_token(h: Seq<u8>) -> Option<Seq<u8>> {
    let scheme_end = space_from(h, 0);
    if scheme_end == h.len() {
        None
    } else {
        Some(h.subrange(scheme_end + 1, space_from(h, scheme_end + 1)))
    }
}

/// `space_from` lands inside the value on a space, skips no space, and
/// never runs past the end.
pub proof fn lemma_space_from_bounds(h: Seq<u8>, i: int)
    requires
        0 <= i <= h.len(),
    ensures
        i <= space_from(h, i) <= h.len(),
        space_from(h, i) < h.len() ==> h[space_from(h, i)] == 32,
        forall|j: int| i <= j < space_from(h, i) ==> h[j] != 32,
    decreases h.len() - i,
{
    if i < h.len() && h[i] != 32 {
        lemma_space_from_bounds(h, i + 1);
    }
}

/// Searching for a space may start anywhere inside a space-free stretch.
pub proof fn lemma_space_from_skip(h: Seq<u8>, i: int, k: int)
    requires
        0 <= i <= k <= h.len(),
        forall|j: int| i <= j < k ==> h[j] != 32,
    ensures
        space_from(h, i) == space_from(h, k),
    decreases k - i,
{
    if i < k {
        lemma_space_from_skip(h, i + 1, k);
    }
}

/// Checks that every byte of the header value is textual.
pub fn check_text(h: &[u8]) -> (r: bool)
    ensures
        r == is_text(h@),
{
    let n: usize = h.len();
    let mut i: usize = 0;
    while i < n
        invariant
            n == h@.len(),
            0 <= i <= n,
            forall|k: int| 0 <= k < i ==> is_text_byte(h@[k]),
        decreases n - i,
    {
        let b = h[i];
        if !(32 <= b && b < 127 || b == 9) {
            assert(!is_text_byte(h@[i as int]));
            return false;
        }
        i += 1;
    }
    true
}

/// Finds the first space byte at or after `from`, or the length where none
/// follows.
pub fn find_space(h: &[u8], from: usize) -> (r: usize)
    requires
        from <= h@.len(),
    ensures
        r == space_from(h@, from as int),
{
    let n: usize = h.len();
    let mut i: usize = from;
    while i < n
        invariant
            from <= i <= n,
            n == h@.len(),
            forall|j: int| from <= j < i ==> h@[j] != 32,
        decreases n - i,
    {
        if h[i] == 32 {
            proof {
                lemma_space_from_skip(h@, from as int, i as int);
            }
            return i;
        }
        i += 1;
    }
    proof {
        lemma_space_from_skip(h@, from as int, n as int);
    }
    n
}

/// Cuts the credentials token out of a header value, or reports that no
/// token follows the scheme.
pub fn extract_token<'a>(h: &'a [u8]) -> (r: Option<&'a [u8]>)
    ensures
        r is Some <==> credential_token(h@) is Some,
        r matches Some(code) ==> credential_token(h@) == Some(code@),
{
    let n: usize = h.len();
    let scheme_end = find_space(h, 0);
    if scheme_end == n {
        None
    } else {
        proof {
            lemma_space_from_bounds(h@, 0);
            lemma_space_from_bounds(h@, scheme_end as int + 1);
        }
        let code_end = find_space(h, scheme_end + 1);
        Some(&h[scheme_end + 1..code_end])
    }
}

} // verus!

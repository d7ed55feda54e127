//! Failures of the wallet store, and the refusals that a request is answered with.

use vstd::prelude::*;

verus! {

/// Which kind of failure the wallet store reported.
#[derive(Clone, Debug)]
pub enum StoreErrorKind {
    /// A statement that must return a row returned none.
    RowNotFound,
    /// The exchange with the store broke down, or the store refused with this reason.
    Protocol(String),
    /// Any other failure.
    Other,
}

/// A failure of the wallet store: its kind and its text.
#[derive(Clone, Debug)]
pub struct StoreError {
    pub kind: StoreErrorKind,
    pub message: String,
}

/// How a request is refused: the status and the text of the answer.
#[derive(Clone, Debug)]
pub enum ApiError {
    /// 400
    BadRequest(String),
    /// 404
    NotFound(String),
    /// 409
    Conflict(String),
    /// 500
    Internal(String),
}

/// Whether `needle` occurs in `haystack` as a run of consecutive characters.
pub open spec fn has_substring(haystack: Seq<char>, needle: Seq<char>) -> bool {
    exists|i: int|
        0 <= i <= haystack.len() - needle.len() && #[trigger] haystack.subrange(i, i + needle.len())
            == needle
}

/// Whether `needle` occurs at position `i` of `haystack`.
fn occurs_at(haystack: &str, needle: &str, i: usize, hay_len: usize, needle_len: usize) -> (r: bool)
    requires
        hay_len == haystack@.len(),
        needle_len == needle@.len(),
        i + needle_len <= hay_len,
    ensures
        r == (haystack@.subrange(i as int, i + needle_len) == needle@),
{
    let mut j: usize = 0;
    while j < needle_len
        invariant
            hay_len == haystack@.len(),
            needle_len == needle@.len(),
            i + needle_len <= hay_len,
            j <= needle_len,
            forall|k: int| 0 <= k < j ==> haystack@[i + k] == needle@[k],
        decreases needle_len - j,
    {
        if haystack.get_char(i + j) != needle.get_char(j) {
            assert(haystack@.subrange(i as int, i + needle_len)[j as int] != needle@[j as int]);
            return false;
        }
        j = j + 1;
    }
    assert(haystack@.subrange(i as int, i + needle_len) =~= needle@);
    true
}

/// Whether `needle` occurs in `haystack` (what `str::contains` answers for a
/// string pattern).
pub fn contains_text(haystack: &str, needle: &str) -> (r: bool)
    ensures
        r == has_substring(haystack@, needle@),
{
    let hay_len = haystack.unicode_len();
    let needle_len = needle.unicode_len();
    if needle_len > hay_len {
        assert forall|i: int| 0 <= i <= haystack@.len() - needle@.len() implies #[trigger] haystack@.subrange(
            i,
            i + needle@.len(),
        ) != needle@ by {}
        return false;
    }
    let last = hay_len - needle_len;
    let mut i: usize = 0;
    loop
        invariant
            hay_len == haystack@.len(),
            needle_len == needle@.len(),
            last == hay_len - needle_len,
            i <= last,
            forall|k: int| 0 <= k < i ==> #[trigger] haystack@.subrange(k, k + needle_len) != needle@,
        decreases last - i,
    {
        if occurs_at(haystack, needle, i, hay_len, needle_len) {
            return true;
        }
        if i == last {
            return false;
        }
        i = i + 1;
    }
}

} // verus!

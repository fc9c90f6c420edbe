//! What the server keeps in its store, as plain values: the states and
//! transports it writes as text, pages of results, and the registration a
//! REGISTER makes. The queries themselves run outside the library.
pub mod dialog;
pub mod registration;
pub mod request;
pub mod transaction;

use vstd::prelude::*;
use vstd::string::StrSliceExecFns;

verus! {

/// The ASCII lower case of a character; any other character stays as it is.
pub open spec fn ascii_lower(c: char) -> char {
    if 'A' <= c && c <= 'Z' {
        ((c as u32) + 32) as char
    } else {
        c
    }
}

/// Whether two texts are equal once ASCII letters are put in lower case
/// (`str::eq_ignore_ascii_case`).
pub open spec fn same_ignoring_ascii_case(a: Seq<char>, b: Seq<char>) -> bool {
    &&& a.len() == b.len()
    &&& forall|i: int| 0 <= i < a.len() ==> ascii_lower(#[trigger] a[i]) == ascii_lower(b[i])
}

fn lower(c: char) -> (l: char)
    ensures
        l == ascii_lower(c),
{
    if 'A' <= c && c <= 'Z' {
        let code: u32 = (c as u32) + 32;
        assert(code <= 0x7a);
        code as u8 as char
    } else {
        c
    }
}

/// Whether two texts are equal once ASCII letters are put in lower case.
pub fn eq_ignore_ascii_case(a: &str, b: &str) -> (eq: bool)
    ensures
        eq == same_ignoring_ascii_case(a@, b@),
{
    let n = a.unicode_len();
    if n != b.unicode_len() {
        return false;
    }
    let mut i: usize = 0;
    while i < n
        invariant
            n == a@.len(),
            n == b@.len(),
            i <= n,
            forall|k: int| 0 <= k < i ==> ascii_lower(#[trigger] a@[k]) == ascii_lower(b@[k]),
        decreases n - i,
    {
        if lower(a.get_char(i)) != lower(b.get_char(i)) {
            return false;
        }
        i = i + 1;
    }
    true
}

/// The first row of page `page` (counted from 1) when a page holds `per_page` rows.
pub open spec fn page_start(page: int, per_page: int) -> int {
    (page - 1) * per_page
}

/// The offset of page `page` of `per_page` rows.
pub fn page_offset(page: i64, per_page: i64) -> (offset: i64)
    requires
        i64::MIN <= page - 1,
        i64::MIN <= page_start(page as int, per_page as int) <= i64::MAX,
    ensures
        offset == page_start(page as int, per_page as int),
{
    let previous: i64 = page - 1;
    previous * per_page
}

} // verus!

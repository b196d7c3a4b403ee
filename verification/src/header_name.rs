use vstd::prelude::*;

verus! {

/// The lower-case form of an ASCII capital letter; every other character is
/// left as it is.
pub open spec fn ascii_lowercase(c: char) -> char {
    if 65 <= c as u32 && c as u32 <= 90 {
        ((c as u32 + 32) as u8) as char
    } else {
        c
    }
}

/// Two header names denote the same header when they agree character by
/// character once ASCII capitals are read as small letters.
pub open spec fn same_name(a: Seq<char>, b: Seq<char>) -> bool {
    &&& a.len() == b.len()
    &&& forall|i: int|
        0 <= i < a.len() ==> ascii_lowercase(#[trigger] a[i]) == ascii_lowercase(b[i])
}

/// `str::eq_ignore_ascii_case` of the standard library: it answers whether
/// the two strings are equal once the ASCII letters `A` to `Z` of both are
/// mapped to `a` to `z`; no other character is changed.
pub assume_specification[ str::eq_ignore_ascii_case ](a: &str, b: &str) -> (r: bool)
    ensures
        r == same_name(a@, b@),
;

/// Every name names the same header as itself.
pub proof fn same_name_reflexive(a: Seq<char>)
    ensures
        same_name(a, a),
{
}

/// Naming the same header does not depend on the side a name stands on.
pub proof fn same_name_symmetric(a: Seq<char>, b: Seq<char>)
    ensures
        same_name(a, b) == same_name(b, a),
{
    if same_name(a, b) {
        assert forall|i: int| 0 <= i < b.len() implies ascii_lowercase(#[trigger] b[i])
            == ascii_lowercase(a[i]) by {
            assert(ascii_lowercase(a[i]) == ascii_lowercase(b[i]));
        }
    }
    if same_name(b, a) {
        assert forall|i: int| 0 <= i < a.len() implies ascii_lowercase(#[trigger] a[i])
            == ascii_lowercase(b[i]) by {
            assert(ascii_lowercase(b[i]) == ascii_lowercase(a[i]));
        }
    }
}

/// Two names that both name the header of a third name the same header.
pub proof fn same_name_transitive(a: Seq<char>, b: Seq<char>, c: Seq<char>)
    requires
        same_name(a, b),
        same_name(b, c),
    ensures
        same_name(a, c),
{
    assert forall|i: int| 0 <= i < a.len() implies ascii_lowercase(#[trigger] a[i])
        == ascii_lowercase(c[i]) by {
        assert(ascii_lowercase(a[i]) == ascii_lowercase(b[i]));
        assert(ascii_lowercase(b[i]) == ascii_lowercase(c[i]));
    }
}

/// Whether two header names name the same header.
pub fn names_match(a: &str, b: &str) -> (r: bool)
    ensures
        r == same_name(a@, b@),
{
    a.eq_ignore_ascii_case(b)
}

} // verus!

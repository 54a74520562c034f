use vstd::prelude::*;
use vstd::string::StrSliceExecFns;

verus! {

/// True when `s` begins with the two characters `--`.
pub open spec fn has_long_prefix(s: Seq<char>) -> bool {
    s.len() >= 2 && s[0] == '-' && s[1] == '-'
}

/// True when `s` begins with the character `-`.
pub open spec fn has_dash_prefix(s: Seq<char>) -> bool {
    s.len() >= 1 && s[0] == '-'
}

/// Character-by-character equality test for string slices.
pub fn str_eq(a: &str, b: &str) -> (r: bool)
    ensures
        r == (a@ == b@),
{
    let alen = a.unicode_len();
    let blen = b.unicode_len();
    if alen != blen {
        return false;
    }
    let mut i: usize = 0;
    while i < alen
        invariant
            alen == a@.len(),
            alen == b@.len(),
            i <= alen,
            forall|j: int| 0 <= j < i ==> a@[j] == b@[j],
        decreases alen - i,
    {
        if a.get_char(i) != b.get_char(i) {
            return false;
        }
        i += 1;
    }
    proof {
        assert(a@ =~= b@);
    }
    true
}

/// Executable test for a leading `--`.
pub fn starts_with_long_prefix(s: &str) -> (r: bool)
    ensures
        r == has_long_prefix(s@),
{
    s.unicode_len() >= 2 && s.get_char(0) == '-' && s.get_char(1) == '-'
}

/// Executable test for a leading `-`.
pub fn starts_with_dash_prefix(s: &str) -> (r: bool)
    ensures
        r == has_dash_prefix(s@),
{
    s.unicode_len() >= 1 && s.get_char(0) == '-'
}

/// Relies on `String: FromIterator<char>` (`collect`): the collected string
/// holds exactly the characters of the iterator, in order.
#[verifier::external_body]
pub(crate) fn chars_to_string(v: &Vec<char>) -> (s: String)
    ensures
        s@ == v@,
{
    v.iter().collect()
}

} // verus!

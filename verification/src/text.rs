//! Small verified helpers on strings.

use vstd::prelude::*;
use vstd::string::StrSliceExecFns;

verus! {

/// Whether two strings hold the same characters.
pub fn str_eq(a: &str, b: &str) -> (r: bool)
    ensures
        r == (a@ == b@),
{
    let n = a.unicode_len();
    let m = b.unicode_len();
    if n != m {
        return false;
    }
    for i in 0..n
        invariant
            n == a@.len(),
            n == b@.len(),
            forall|j: int| 0 <= j < i ==> a@[j] == b@[j],
    {
        if a.get_char(i) != b.get_char(i) {
            return false;
        }
    }
    proof {
        assert(a@ =~= b@);
    }
    true
}

/// Whether `items` holds a string with the same characters as `needle`.
pub fn contains_string(items: &Vec<String>, needle: &str) -> (r: bool)
    ensures
        r == (exists|i: int| 0 <= i < items@.len() && items@[i]@ == needle@),
{
    let n = items.len();
    for i in 0..n
        invariant
            n == items@.len(),
            forall|j: int| 0 <= j < i ==> items@[j]@ != needle@,
    {
        if str_eq(items[i].as_str(), needle) {
            proof {
                assert(items@[i as int]@ == needle@);
            }
            return true;
        }
    }
    false
}

/// Whether `items` holds `needle`.
pub fn contains_u32(items: &Vec<u32>, needle: u32) -> (r: bool)
    ensures
        r == items@.contains(needle),
{
    let n = items.len();
    for i in 0..n
        invariant
            n == items@.len(),
            forall|j: int| 0 <= j < i ==> items@[j] != needle,
    {
        if items[i] == needle {
            proof {
                assert(items@[i as int] == needle);
            }
            return true;
        }
    }
    false
}

} // verus!

use vstd::prelude::*;

use crate::key::bytes_equal;

verus! {

/// A list of byte strings as values.
pub open spec fn items_view(v: Seq<Vec<u8>>) -> Seq<Seq<u8>> {
    v.map_values(|x: Vec<u8>| x@)
}

/// No two positions hold the same value.
pub open spec fn all_distinct(s: Seq<Seq<u8>>) -> bool {
    forall|i: int, j: int| 0 <= i < j < s.len() ==> s[i] != s[j]
}

/// Every position holds the value of the first.
pub open spec fn all_equal(s: Seq<Seq<u8>>) -> bool {
    forall|i: int| 0 <= i < s.len() ==> #[trigger] s[i] == s[0]
}

/// Whether no two items are equal.
pub fn has_unique_elements(items: &Vec<Vec<u8>>) -> (r: bool)
    ensures
        r == all_distinct(items_view(items@)),
{
    let ghost s = items_view(items@);
    let mut j: usize = 1;
    while j < items.len()
        invariant
            s == items_view(items@),
            1 <= j || items@.len() == 0,
            forall|a: int, b: int| 0 <= a < b < j && b < s.len() ==> s[a] != s[b],
        decreases items.len() - j,
    {
        let mut i: usize = 0;
        while i < j
            invariant
                s == items_view(items@),
                0 < j < items@.len(),
                i <= j,
                forall|a: int, b: int| 0 <= a < b < j ==> s[a] != s[b],
                forall|a: int| 0 <= a < i ==> s[a] != s[j as int],
            decreases j - i,
        {
            if bytes_equal(items[i].as_slice(), items[j].as_slice()) {
                assert(s[i as int] == s[j as int]);
                return false;
            }
            i = i + 1;
        }
        j = j + 1;
    }
    true
}

/// Whether every item equals the first.
pub fn is_all_same(items: &Vec<Vec<u8>>) -> (r: bool)
    ensures
        r == all_equal(items_view(items@)),
{
    let ghost s = items_view(items@);
    let mut i: usize = 1;
    while i < items.len()
        invariant
            s == items_view(items@),
            forall|a: int| 0 <= a < i && a < s.len() ==> #[trigger] s[a] == s[0],
        decreases items.len() - i,
    {
        if !bytes_equal(items[i].as_slice(), items[0].as_slice()) {
            assert(s[i as int] != s[0]);
            return false;
        }
        i = i + 1;
    }
    true
}

} // verus!

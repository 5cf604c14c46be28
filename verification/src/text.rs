//! Lists of strings and the texts they hold.

use vstd::prelude::*;

verus! {

/// The texts of a sequence of strings, in order.
pub open spec fn texts(strings: Seq<String>) -> Seq<Seq<char>> {
    Seq::new(strings.len(), |i: int| strings[i]@)
}

/// The texts of a sequence of string slices, in order.
pub open spec fn slice_texts(slices: Seq<&str>) -> Seq<Seq<char>> {
    Seq::new(slices.len(), |i: int| slices[i]@)
}

/// A copy of a list of strings.
pub fn copy_strings(strings: &Vec<String>) -> (copy: Vec<String>)
    ensures
        texts(copy@) == texts(strings@),
{
    let mut copy: Vec<String> = Vec::new();
    let mut i: usize = 0;
    while i < strings.len()
        invariant
            i <= strings@.len(),
            copy@.len() == i,
            forall|j: int| 0 <= j < i ==> (#[trigger] copy@[j])@ == strings@[j]@,
        decreases strings@.len() - i,
    {
        copy.push(strings[i].clone());
        i += 1;
    }
    assert(texts(copy@) =~= texts(strings@));
    copy
}

/// The strings that a list of string slices holds.
pub fn own_strings(slices: &Vec<&str>) -> (owned: Vec<String>)
    ensures
        texts(owned@) == slice_texts(slices@),
{
    let mut owned: Vec<String> = Vec::new();
    let mut i: usize = 0;
    while i < slices.len()
        invariant
            i <= slices@.len(),
            owned@.len() == i,
            forall|j: int| 0 <= j < i ==> (#[trigger] owned@[j])@ == slices@[j]@,
        decreases slices@.len() - i,
    {
        owned.push(slices[i].to_owned());
        i += 1;
    }
    assert(texts(owned@) =~= slice_texts(slices@));
    owned
}

} // verus!

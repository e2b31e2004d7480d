use vstd::prelude::*;

verus! {

/// An owned copy of every text in `list`, in the same order.
pub fn clone_texts(list: &Vec<String>) -> (r: Vec<String>)
    ensures
        r.deep_view() == list.deep_view(),
{
    let mut out: Vec<String> = Vec::new();
    let mut i: usize = 0;
    while i < list.len()
        invariant
            i <= list.len(),
            out.len() == i,
            forall|j: int| 0 <= j < i ==> out[j]@ == list[j]@,
        decreases list.len() - i,
    {
        out.push(list[i].clone());
        i = i + 1;
    }
    assert(out.deep_view() =~= list.deep_view());
    out
}

/// Whether `wanted` occurs in `list`.
pub fn contains_text(list: &Vec<String>, wanted: &String) -> (found: bool)
    ensures
        found == list.deep_view().contains(wanted@),
{
    let mut i: usize = 0;
    while i < list.len()
        invariant
            i <= list.len(),
            forall|j: int| 0 <= j < i ==> list[j]@ != wanted@,
        decreases list.len() - i,
    {
        if list[i] == *wanted {
            assert(list.deep_view()[i as int] == wanted@);
            return true;
        }
        i = i + 1;
    }
    assert(!list.deep_view().contains(wanted@)) by {
        if list.deep_view().contains(wanted@) {
            let j = choose|j: int| 0 <= j < list.deep_view().len() && list.deep_view()[j] == wanted@;
            assert(list[j]@ == wanted@);
        }
    }
    false
}

} // verus!

use vstd::prelude::*;

verus! {

/// The label shown for a value that has none.
pub open spec fn placeholder() -> Seq<char> {
    "Unknown"@
}

/// `i` is the first position at which `alternatives` holds `v`.
pub open spec fn first_match(alternatives: Seq<i32>, v: i32, i: int) -> bool {
    &&& 0 <= i < alternatives.len()
    &&& alternatives[i] == v
    &&& forall|j: int| 0 <= j < i ==> alternatives[j] != v
}

/// The label at position `i` of `names`, or the placeholder when there is
/// none.
pub open spec fn label_at(names: Seq<String>, i: int) -> Seq<char> {
    if 0 <= i < names.len() {
        names[i]@
    } else {
        placeholder()
    }
}

/// The label of a choice list for position `i`: the name at that position,
/// or "Unknown" when the list of names is shorter.
pub fn entry_label(names: &Vec<String>, i: usize) -> (r: String)
    ensures
        r@ == label_at(names@, i as int),
{
    if i < names.len() {
        names[i].clone()
    } else {
        "Unknown".to_owned()
    }
}

/// The label that a choice list shows for its current value: the name
/// paired with the first alternative equal to `current`. A value that is
/// not among the alternatives, or one whose position has no name, shows
/// "Unknown".
pub fn selected_label(current: i32, alternatives: &Vec<i32>, names: &Vec<String>) -> (r: String)
    ensures
        forall|i: int| first_match(alternatives@, current, i) ==> r@ == label_at(names@, i),
        !alternatives@.contains(current) ==> r@ == placeholder(),
{
    let mut i: usize = 0;
    while i < alternatives.len()
        invariant
            0 <= i <= alternatives.len(),
            forall|j: int| 0 <= j < i ==> alternatives@[j] != current,
        decreases alternatives.len() - i,
    {
        if alternatives[i] == current {
            return entry_label(names, i);
        }
        i = i + 1;
    }
    "Unknown".to_owned()
}

} // verus!

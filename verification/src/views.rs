//! How the deep view of a vector follows its contents.

use vstd::prelude::*;

verus! {

/// Pushing an item onto a vector pushes its view onto the deep view of the vector.
pub proof fn lemma_pushed<T: DeepView>(before: Vec<T>, after: Vec<T>, item: T)
    requires
        after@ == before@.push(item),
    ensures
        after.deep_view() == before.deep_view().push(item.deep_view()),
        after.deep_view() == before.deep_view() + seq![item.deep_view()],
{
    assert forall|j: int| 0 <= j < after@.len() implies after.deep_view()[j]
        == before.deep_view().push(item.deep_view())[j] by {
        if j < before@.len() {
            assert(after@[j] == before@[j]);
        }
    }
    assert(after.deep_view() =~= before.deep_view().push(item.deep_view()));
    assert(before.deep_view().push(item.deep_view()) =~= before.deep_view() + seq![
        item.deep_view(),
    ]);
}

} // verus!
